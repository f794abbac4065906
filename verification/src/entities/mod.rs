//! The rows of the storage schema: one shared row per media item, one
//! lot-specific row beside it, the consumption records of users and the
//! associations that follow from them.

use crate::media::{MediaSpecifics, MediaSpecificsView};
use vstd::prelude::*;

pub mod audio_book;
pub mod book;
pub mod metadata;
pub mod seen;
pub mod user_to_metadata;

verus! {

/// The lot-specific row of a media item. It is owned by the shared row with
/// the id `metadata_id` and is written in the same transaction.
#[derive(Clone, Debug, PartialEq, Eq)]
pub struct ExtensionRow {
    pub metadata_id: i32,
    pub specifics: MediaSpecifics,
}

/// The mathematical value of an [`ExtensionRow`].
pub struct ExtensionRowView {
    pub metadata_id: int,
    pub specifics: MediaSpecificsView,
}

impl View for ExtensionRow {
    type V = ExtensionRowView;

    open spec fn view(&self) -> ExtensionRowView {
        ExtensionRowView { metadata_id: self.metadata_id as int, specifics: self.specifics@ }
    }
}

impl DeepView for ExtensionRow {
    type V = ExtensionRowView;

    open spec fn deep_view(&self) -> ExtensionRowView {
        self@
    }
}

} // verus!
