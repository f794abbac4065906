//! The extension table of books.

use crate::media::BookSpecifics;
use crate::migrator::BookSource;
use vstd::prelude::*;

verus! {

/// The lot-specific row of a book.
#[derive(Clone, Copy, Debug, PartialEq, Eq)]
pub struct Model {
    pub metadata_id: i32,
    pub num_pages: Option<i32>,
    pub source: BookSource,
}

impl Model {
    /// The row that stores a book's payload beside the shared row with the
    /// id `metadata_id`.
    pub fn from_specifics(metadata_id: i32, specifics: BookSpecifics) -> (row: Model)
        ensures
            row == (Model { metadata_id, num_pages: specifics.pages, source: specifics.source }),
    {
        Model { metadata_id, num_pages: specifics.pages, source: specifics.source }
    }
}

} // verus!
