//! The consumption records of users, and what follows the saving of one.

use crate::calendar::CalendarDate;
use crate::entities::user_to_metadata;
use crate::error::MediaError;
use vstd::prelude::*;

verus! {

/// How far into a show a user is.
#[derive(Clone, Copy, Debug, PartialEq, Eq)]
pub struct SeenShowExtraInformation {
    pub season: i32,
    pub episode: i32,
}

/// How far into a podcast a user is.
#[derive(Clone, Copy, Debug, PartialEq, Eq)]
pub struct SeenPodcastExtraInformation {
    pub episode: i32,
}

/// The lot-specific part of a consumption record. The variant goes with the
/// lot of the media item the record is about.
#[derive(Clone, Copy, Debug, PartialEq, Eq)]
pub enum SeenExtraInformation {
    Show(SeenShowExtraInformation),
    Podcast(SeenPodcastExtraInformation),
}

/// One consumption record: a user's progress on a media item.
///
/// `metadata_id` is fixed when the record is created. `last_updated_on` is
/// in epoch milliseconds.
#[derive(Clone, Debug, PartialEq, Eq)]
pub struct Model {
    pub id: i32,
    pub progress: i32,
    pub started_on: Option<CalendarDate>,
    pub finished_on: Option<CalendarDate>,
    pub last_updated_on: i64,
    pub user_id: i32,
    pub metadata_id: i32,
    pub extra_information: Option<SeenExtraInformation>,
    pub show_information: Option<SeenShowExtraInformation>,
    pub podcast_information: Option<SeenPodcastExtraInformation>,
    pub identifier: Option<String>,
}

/// The mathematical value of a [`Model`].
pub struct ModelView {
    pub id: int,
    pub progress: int,
    pub started_on: Option<CalendarDate>,
    pub finished_on: Option<CalendarDate>,
    pub last_updated_on: int,
    pub user_id: int,
    pub metadata_id: int,
    pub extra_information: Option<SeenExtraInformation>,
    pub show_information: Option<SeenShowExtraInformation>,
    pub podcast_information: Option<SeenPodcastExtraInformation>,
    pub identifier: Option<Seq<char>>,
}

impl View for Model {
    type V = ModelView;

    open spec fn view(&self) -> ModelView {
        ModelView {
            id: self.id as int,
            progress: self.progress as int,
            started_on: self.started_on,
            finished_on: self.finished_on,
            last_updated_on: self.last_updated_on as int,
            user_id: self.user_id as int,
            metadata_id: self.metadata_id as int,
            extra_information: self.extra_information,
            show_information: self.show_information,
            podcast_information: self.podcast_information,
            identifier: self.identifier.deep_view(),
        }
    }
}

impl DeepView for Model {
    type V = ModelView;

    open spec fn deep_view(&self) -> ModelView {
        self@
    }
}

/// The rows that a consumption record refers to. Updates and deletions of
/// either cascade to the record.
#[derive(Clone, Copy, Debug, PartialEq, Eq, Structural)]
pub enum Relation {
    Metadata,
    User,
}

/// How an attempt to store an association ended.
#[derive(Clone, Copy, Debug, PartialEq, Eq, Structural)]
pub enum AssociationOutcome {
    /// The pair was new and is stored now.
    Created,
    /// The pair was stored before; nothing changed.
    AlreadyExists,
    /// The attempt failed for another reason.
    Failed,
}

/// The association that a saved record calls for: the record's user with
/// the record's media item when the record was inserted, none when an
/// existing record was updated.
pub open spec fn association_after(model: ModelView, insert: bool) -> Option<(int, int)> {
    if insert {
        Some((model.user_id, model.metadata_id))
    } else {
        None
    }
}

impl Model {
    /// Decides what follows the saving of this record: after an insert, the
    /// association of its user with its media item is to be stored; after an
    /// update, nothing.
    pub fn after_save(&self, insert: bool) -> (association: Option<user_to_metadata::Model>)
        ensures
            association.deep_view() == association_after(self@, insert),
    {
        if insert {
            Some(user_to_metadata::Model { user_id: self.user_id, metadata_id: self.metadata_id })
        } else {
            None
        }
    }

    /// Closes the save once the association was attempted. However the
    /// attempt ended, the save succeeds with the record unchanged: a pair
    /// stored before is no error, and any other failure is dropped here.
    pub fn after_association(self, outcome: AssociationOutcome) -> (saved: Result<
        Model,
        MediaError,
    >)
        ensures
            saved == Ok::<Model, MediaError>(self),
    {
        Ok(self)
    }
}

} // verus!
