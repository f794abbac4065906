//! The failures that the pipeline reports to its caller.

use crate::migrator::MetadataLot;
use vstd::prelude::*;

verus! {

/// A failure of a search, a details request or a commit.
///
/// Races on the identifier index and failures of the association side effect
/// are handled where they occur and have no variant here.
#[derive(Clone, Debug, PartialEq, Eq)]
pub enum MediaError {
    /// The catalog could not be reached, answered with a failure status, or
    /// sent a payload of the wrong shape.
    ProviderUnavailable { identifier: String, lot: MetadataLot },
    /// No row exists for an internal id where one was expected.
    NotFound { metadata_id: i32 },
    /// The lot-specific payload of normalised details belongs to another lot
    /// than the one asked for. This breaks the contract between the pipeline
    /// and an adapter and is not recovered from.
    LotMismatch { requested: MetadataLot, found: MetadataLot },
}

/// The mathematical value of a [`MediaError`].
pub enum MediaErrorView {
    ProviderUnavailable { identifier: Seq<char>, lot: MetadataLot },
    NotFound { metadata_id: int },
    LotMismatch { requested: MetadataLot, found: MetadataLot },
}

impl View for MediaError {
    type V = MediaErrorView;

    open spec fn view(&self) -> MediaErrorView {
        match self {
            MediaError::ProviderUnavailable { identifier, lot } => {
                MediaErrorView::ProviderUnavailable { identifier: identifier@, lot: *lot }
            },
            MediaError::NotFound { metadata_id } => MediaErrorView::NotFound {
                metadata_id: *metadata_id as int,
            },
            MediaError::LotMismatch { requested, found } => MediaErrorView::LotMismatch {
                requested: *requested,
                found: *found,
            },
        }
    }
}

} // verus!
