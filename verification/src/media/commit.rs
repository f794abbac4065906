//! The decisions of the commit pipeline.
//!
//! Committing a media item alternates between outside work (reading the
//! identifier index, asking a catalog, writing rows) and decisions about what
//! to do next. The decisions are here: [`MediaService::commit`] takes what
//! the last piece of outside work brought and answers with the next piece to
//! perform, or with the end of the commit. It keeps no state between calls.

use crate::calendar::CalendarDate;
use crate::entities::ExtensionRowView;
use crate::error::{MediaError, MediaErrorView};
use crate::graphql::IdObject;
use crate::media::resolver::{MediaDetails, MediaDetailsView};
use crate::media::{
    collected_images, MediaSpecifics, MediaSpecificsView, MetadataImageView, MetadataImages,
};
use crate::migrator::MetadataLot;
use crate::podcasts::int_of;
use vstd::prelude::*;

verus! {

/// The shared row of a media item before it is written: everything but the
/// internal id and the timestamps, which storage assigns.
#[derive(Clone, Debug, PartialEq, Eq)]
pub struct NewMetadata {
    pub identifier: String,
    pub lot: MetadataLot,
    pub title: String,
    pub description: Option<String>,
    pub publish_year: Option<i32>,
    pub publish_date: Option<CalendarDate>,
    pub images: MetadataImages,
    pub creators: Vec<String>,
    pub genres: Vec<String>,
}

/// The mathematical value of a [`NewMetadata`].
pub struct NewMetadataView {
    pub identifier: Seq<char>,
    pub lot: MetadataLot,
    pub title: Seq<char>,
    pub description: Option<Seq<char>>,
    pub publish_year: Option<int>,
    pub publish_date: Option<CalendarDate>,
    pub images: Seq<MetadataImageView>,
    pub creators: Seq<Seq<char>>,
    pub genres: Seq<Seq<char>>,
}

impl View for NewMetadata {
    type V = NewMetadataView;

    open spec fn view(&self) -> NewMetadataView {
        NewMetadataView {
            identifier: self.identifier@,
            lot: self.lot,
            title: self.title@,
            description: self.description.deep_view(),
            publish_year: int_of(self.publish_year),
            publish_date: self.publish_date,
            images: self.images@,
            creators: self.creators.deep_view(),
            genres: self.genres.deep_view(),
        }
    }
}

/// What one transaction writes for a new media item: the shared row and,
/// keyed by the id that the shared row gets, the lot-specific row. The
/// payload of a plan always belongs to the lot of its shared row.
#[derive(Debug, PartialEq, Eq)]
pub struct WritePlan {
    metadata: NewMetadata,
    specifics: MediaSpecifics,
}

/// The mathematical value of a [`WritePlan`].
pub struct WritePlanView {
    pub metadata: NewMetadataView,
    pub specifics: MediaSpecificsView,
}

impl WritePlanView {
    /// The payload belongs to the lot of the shared row.
    pub open spec fn consistent(self) -> bool {
        self.specifics.lot() == self.metadata.lot
    }

    /// The plan that commits `details` under the lot `lot`.
    pub open spec fn of(details: MediaDetailsView, lot: MetadataLot) -> WritePlanView {
        WritePlanView {
            metadata: NewMetadataView {
                identifier: details.identifier,
                lot,
                title: details.title,
                description: details.description,
                publish_year: details.publish_year,
                publish_date: details.publish_date,
                images: collected_images(details.poster_images, details.backdrop_images),
                creators: details.creators,
                genres: details.genres,
            },
            specifics: details.specifics,
        }
    }

    /// The lot-specific row of the plan, beside the shared row with the id
    /// `metadata_id`.
    pub open spec fn extension(self, metadata_id: int) -> ExtensionRowView {
        ExtensionRowView { metadata_id, specifics: self.specifics }
    }
}

impl View for WritePlan {
    type V = WritePlanView;

    closed spec fn view(&self) -> WritePlanView {
        WritePlanView { metadata: self.metadata@, specifics: self.specifics@ }
    }
}

impl WritePlan {
    #[verifier::type_invariant]
    spec fn payload_fits_lot(self) -> bool {
        self@.consistent()
    }

    /// The shared row to write.
    pub fn metadata(&self) -> (metadata: &NewMetadata)
        ensures
            metadata@ == self@.metadata,
    {
        &self.metadata
    }

    /// The lot-specific payload to write.
    pub fn specifics(&self) -> (specifics: &MediaSpecifics)
        ensures
            specifics@ == self@.specifics,
            specifics@.lot() == self@.metadata.lot,
    {
        proof {
            use_type_invariant(self);
        }
        &self.specifics
    }

    /// Takes the plan apart into the shared row and the payload.
    pub fn into_parts(self) -> (parts: (NewMetadata, MediaSpecifics))
        ensures
            parts.0@ == self@.metadata,
            parts.1@ == self@.specifics,
            parts.1@.lot() == parts.0@.lot,
    {
        proof {
            use_type_invariant(&self);
        }
        (self.metadata, self.specifics)
    }
}

/// How the transaction that writes a plan ended.
#[derive(Clone, Copy, Debug, PartialEq, Eq, Structural)]
pub enum WriteOutcome {
    /// Both rows are stored; the shared row has this internal id.
    Inserted(i32),
    /// Another transaction stored a row with the same identifier first, and
    /// nothing was written.
    DuplicateKey,
}

/// The id that a write transaction reports: the new id where both rows were
/// stored, none where the identifier was taken.
pub open spec fn written_id(outcome: WriteOutcome) -> Option<int> {
    match outcome {
        WriteOutcome::Inserted(id) => Some(id as int),
        WriteOutcome::DuplicateKey => None,
    }
}

/// What the last piece of outside work of a commit brought.
#[derive(Clone, Debug, PartialEq, Eq)]
pub enum CommitEvent {
    /// Nothing was done yet.
    Begin,
    /// The identifier index was read: the internal id of the row with the
    /// identifier, if there is one.
    Looked(Option<i32>),
    /// The catalog was asked: the normalised details, or `None` where the
    /// catalog was unavailable.
    Fetched(Option<MediaDetails>),
    /// The write transaction ended.
    Written(WriteOutcome),
}

/// The mathematical value of a [`CommitEvent`].
pub enum CommitEventView {
    Begin,
    Looked(Option<int>),
    Fetched(Option<MediaDetailsView>),
    Written(Option<int>),
}

impl View for CommitEvent {
    type V = CommitEventView;

    open spec fn view(&self) -> CommitEventView {
        match self {
            CommitEvent::Begin => CommitEventView::Begin,
            CommitEvent::Looked(found) => CommitEventView::Looked(int_of(*found)),
            CommitEvent::Fetched(Some(details)) => CommitEventView::Fetched(Some(details@)),
            CommitEvent::Fetched(None) => CommitEventView::Fetched(None),
            CommitEvent::Written(outcome) => CommitEventView::Written(written_id(*outcome)),
        }
    }
}

/// The next piece of work of a commit, or its end.
#[derive(Debug, PartialEq, Eq)]
pub enum CommitStep {
    /// Read the identifier index.
    Lookup,
    /// Ask the catalog of the lot for the details of the identifier.
    Fetch,
    /// Write the plan in one transaction.
    Write(WritePlan),
    /// The commit is done; the media item has this internal id.
    Finished(IdObject),
    /// The commit failed.
    Failed(MediaError),
}

/// The mathematical value of a [`CommitStep`].
pub enum CommitStepView {
    Lookup,
    Fetch,
    Write(WritePlanView),
    Finished(int),
    Failed(MediaErrorView),
}

impl View for CommitStep {
    type V = CommitStepView;

    open spec fn view(&self) -> CommitStepView {
        match self {
            CommitStep::Lookup => CommitStepView::Lookup,
            CommitStep::Fetch => CommitStepView::Fetch,
            CommitStep::Write(plan) => CommitStepView::Write(plan@),
            CommitStep::Finished(object) => CommitStepView::Finished(object.id as int),
            CommitStep::Failed(error) => CommitStepView::Failed(error@),
        }
    }
}

/// What follows the catalog's answer: a plan for details that fit the lot,
/// a lot mismatch for details that do not, and the catalog's failure passed
/// on where it gave none.
pub open spec fn after_fetch(
    identifier: Seq<char>,
    lot: MetadataLot,
    fetched: Option<MediaDetailsView>,
) -> CommitStepView {
    match fetched {
        Some(details) => {
            if details.specifics.lot() == lot {
                CommitStepView::Write(WritePlanView::of(details, lot))
            } else {
                CommitStepView::Failed(
                    MediaErrorView::LotMismatch { requested: lot, found: details.specifics.lot() },
                )
            }
        },
        None => CommitStepView::Failed(MediaErrorView::ProviderUnavailable { identifier, lot }),
    }
}

/// The commit pipeline as a function from the last event to the next step.
///
/// A commit begins by reading the identifier index. A hit ends it with the
/// id of the row found; a miss sends it to the catalog. A write that stored
/// the rows ends it with the new id; a write that lost a race on the
/// identifier sends it back to the identifier index.
pub open spec fn next_step(
    identifier: Seq<char>,
    lot: MetadataLot,
    event: CommitEventView,
) -> CommitStepView {
    match event {
        CommitEventView::Begin => CommitStepView::Lookup,
        CommitEventView::Looked(Some(id)) => CommitStepView::Finished(id),
        CommitEventView::Looked(None) => CommitStepView::Fetch,
        CommitEventView::Fetched(fetched) => after_fetch(identifier, lot, fetched),
        CommitEventView::Written(Some(id)) => CommitStepView::Finished(id),
        CommitEventView::Written(None) => CommitStepView::Lookup,
    }
}

/// The part of the pipeline that is the same for every lot.
#[derive(Clone, Copy, Debug, Default)]
pub struct MediaService;

impl MediaService {
    /// Describes the shared row of a media item that is about to be
    /// written. Posters and backdrops go into one image collection.
    pub fn commit_media(
        identifier: String,
        lot: MetadataLot,
        title: String,
        description: Option<String>,
        publish_year: Option<i32>,
        publish_date: Option<CalendarDate>,
        poster_images: Vec<String>,
        backdrop_images: Vec<String>,
        creators: Vec<String>,
        genres: Vec<String>,
    ) -> (row: NewMetadata)
        ensures
            row@ == (NewMetadataView {
                identifier: identifier@,
                lot,
                title: title@,
                description: description.deep_view(),
                publish_year: int_of(publish_year),
                publish_date,
                images: collected_images(poster_images.deep_view(), backdrop_images.deep_view()),
                creators: creators.deep_view(),
                genres: genres.deep_view(),
            }),
    {
        let images = MetadataImages::collect(&poster_images, &backdrop_images);
        NewMetadata {
            identifier,
            lot,
            title,
            description,
            publish_year,
            publish_date,
            images,
            creators,
            genres,
        }
    }

    /// Plans the write of normalised details under the lot asked for, or
    /// reports that the payload of the details belongs to another lot.
    pub fn plan_write(lot: MetadataLot, details: MediaDetails) -> (planned: Result<
        WritePlan,
        MediaError,
    >)
        ensures
            match planned {
                Ok(plan) => details@.specifics.lot() == lot && plan@ == WritePlanView::of(
                    details@,
                    lot,
                ),
                Err(error) => details@.specifics.lot() != lot && error@ == (
                MediaErrorView::LotMismatch { requested: lot, found: details@.specifics.lot() }),
            },
    {
        let found = details.specifics.lot();
        if found != lot {
            return Err(MediaError::LotMismatch { requested: lot, found });
        }
        let metadata = MediaService::commit_media(
            details.identifier,
            lot,
            details.title,
            details.description,
            details.publish_year,
            details.publish_date,
            details.poster_images,
            details.backdrop_images,
            details.creators,
            details.genres,
        );
        Ok(WritePlan { metadata, specifics: details.specifics })
    }

    /// Decides the next step of the commit of `identifier` under `lot` from
    /// what the last step brought.
    pub fn commit(identifier: &str, lot: MetadataLot, event: CommitEvent) -> (step: CommitStep)
        ensures
            step@ == next_step(identifier@, lot, event@),
    {
        match event {
            CommitEvent::Begin => CommitStep::Lookup,
            CommitEvent::Looked(Some(id)) => CommitStep::Finished(IdObject { id }),
            CommitEvent::Looked(None) => CommitStep::Fetch,
            CommitEvent::Fetched(Some(details)) => match MediaService::plan_write(lot, details) {
                Ok(plan) => CommitStep::Write(plan),
                Err(error) => CommitStep::Failed(error),
            },
            CommitEvent::Fetched(None) => CommitStep::Failed(
                MediaError::ProviderUnavailable { identifier: identifier.to_owned(), lot },
            ),
            CommitEvent::Written(WriteOutcome::Inserted(id)) => CommitStep::Finished(
                IdObject { id },
            ),
            CommitEvent::Written(WriteOutcome::DuplicateKey) => CommitStep::Lookup,
        }
    }
}

} // verus!
