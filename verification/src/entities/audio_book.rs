//! The extension table of audio books.

use crate::media::AudioBookSpecifics;
use crate::migrator::AudioBookSource;
use vstd::prelude::*;

verus! {

/// The lot-specific row of an audio book. `runtime` is in minutes.
#[derive(Clone, Copy, Debug, PartialEq, Eq)]
pub struct Model {
    pub metadata_id: i32,
    pub runtime: Option<i32>,
    pub source: AudioBookSource,
}

/// The rows that a row of this table refers to.
#[derive(Clone, Copy, Debug, PartialEq, Eq, Structural)]
pub enum Relation {
    /// The shared row that owns this row. Updates and deletions of the owner
    /// cascade.
    Metadata,
}

impl Model {
    /// The row that stores an audio book's payload beside the shared row
    /// with the id `metadata_id`.
    pub fn from_specifics(metadata_id: i32, specifics: AudioBookSpecifics) -> (row: Model)
        ensures
            row == (Model { metadata_id, runtime: specifics.runtime, source: specifics.source }),
    {
        Model { metadata_id, runtime: specifics.runtime, source: specifics.source }
    }
}

} // verus!
