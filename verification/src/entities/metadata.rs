//! The shared table: one row per media item, whatever its lot.

use crate::calendar::CalendarDate;
use crate::media::{MetadataImageView, MetadataImages};
use crate::migrator::MetadataLot;
use crate::podcasts::int_of;
use vstd::prelude::*;

verus! {

/// The shared row of a media item.
///
/// `id` is the internal id, assigned when the row is written and never
/// changed. `identifier` is the catalog's id of the item; no two rows have
/// the same. The two timestamps are in epoch milliseconds.
#[derive(Clone, Debug, PartialEq, Eq)]
pub struct Model {
    pub id: i32,
    pub created_on: i64,
    pub lot: MetadataLot,
    pub last_updated_on: i64,
    pub title: String,
    pub identifier: String,
    pub description: Option<String>,
    pub publish_year: Option<i32>,
    pub publish_date: Option<CalendarDate>,
    pub images: MetadataImages,
}

/// The mathematical value of a [`Model`].
pub struct ModelView {
    pub id: int,
    pub created_on: int,
    pub lot: MetadataLot,
    pub last_updated_on: int,
    pub title: Seq<char>,
    pub identifier: Seq<char>,
    pub description: Option<Seq<char>>,
    pub publish_year: Option<int>,
    pub publish_date: Option<CalendarDate>,
    pub images: Seq<MetadataImageView>,
}

impl View for Model {
    type V = ModelView;

    open spec fn view(&self) -> ModelView {
        ModelView {
            id: self.id as int,
            created_on: self.created_on as int,
            lot: self.lot,
            last_updated_on: self.last_updated_on as int,
            title: self.title@,
            identifier: self.identifier@,
            description: self.description.deep_view(),
            publish_year: int_of(self.publish_year),
            publish_date: self.publish_date,
            images: self.images@,
        }
    }
}

impl DeepView for Model {
    type V = ModelView;

    open spec fn deep_view(&self) -> ModelView {
        self@
    }
}

/// The tables whose rows refer to a shared row.
#[derive(Clone, Copy, Debug, PartialEq, Eq, Structural)]
pub enum Relation {
    AudioBook,
    Book,
    MetadataImage,
    Movie,
    Podcast,
    Review,
    Seen,
    Show,
    VideoGame,
}

impl Relation {
    /// The relation to the extension table of a lot.
    pub open spec fn extension_of(lot: MetadataLot) -> Relation {
        match lot {
            MetadataLot::AudioBook => Relation::AudioBook,
            MetadataLot::Book => Relation::Book,
            MetadataLot::Podcast => Relation::Podcast,
            MetadataLot::Movie => Relation::Movie,
            MetadataLot::Show => Relation::Show,
            MetadataLot::VideoGame => Relation::VideoGame,
        }
    }

    /// Whether a shared row has exactly one row on the other side: true of
    /// the extension tables, false of the tables that hold many rows per
    /// media item.
    pub open spec fn is_one_to_one(self) -> bool {
        match self {
            Relation::MetadataImage | Relation::Review | Relation::Seen => false,
            _ => true,
        }
    }

    /// The relation to the extension table of a lot.
    pub fn for_lot(lot: MetadataLot) -> (relation: Relation)
        ensures
            relation == Relation::extension_of(lot),
            relation.is_one_to_one(),
    {
        match lot {
            MetadataLot::AudioBook => Relation::AudioBook,
            MetadataLot::Book => Relation::Book,
            MetadataLot::Podcast => Relation::Podcast,
            MetadataLot::Movie => Relation::Movie,
            MetadataLot::Show => Relation::Show,
            MetadataLot::VideoGame => Relation::VideoGame,
        }
    }

    /// Whether a shared row has exactly one row on the other side.
    pub fn has_one(&self) -> (one: bool)
        ensures
            one == self.is_one_to_one(),
    {
        match self {
            Relation::MetadataImage | Relation::Review | Relation::Seen => false,
            _ => true,
        }
    }
}

} // verus!
