//! The book side of the query surface and of the commit pipeline.

use crate::entities::metadata;
use crate::error::{MediaError, MediaErrorView};
use crate::graphql::IdObject;
use crate::media::commit::{
    after_fetch, next_step, CommitEvent, CommitEventView, CommitStep, CommitStepView,
    MediaService,
};
use crate::media::resolver::{offset_of_page, page_offset, MediaDetails, SearchInput};
use crate::migrator::MetadataLot;
use vstd::prelude::*;

verus! {

/// The parameters of a search request to the book catalog.
#[derive(Clone, Debug, PartialEq, Eq)]
pub struct BookSearch {
    pub query: String,
    pub offset: i64,
}

/// The internal id of an optional shared row.
pub open spec fn id_of(row: Option<&metadata::Model>) -> Option<int> {
    match row {
        Some(model) => Some(model.id as int),
        None => None,
    }
}

/// The book side of the pipeline: the lot-agnostic pipeline with the lot
/// fixed to books.
#[derive(Clone, Copy, Debug, Default)]
pub struct BooksService;

impl BooksService {
    /// Makes the service.
    pub fn new() -> (service: BooksService) {
        BooksService
    }

    /// The request for one page of a book search.
    pub fn books_search(&self, query: &str, page: Option<i32>) -> (request: BookSearch)
        ensures
            request.query@ == query@,
            request.offset == offset_of_page(page),
    {
        BookSearch { query: query.to_owned(), offset: page_offset(page) }
    }

    /// Decides which identifier to ask the book catalog about when the
    /// latest details of a committed book are wanted. `row` is what reading
    /// the shared row with the id `metadata_id` brought; a missing row is
    /// reported, never passed on as an absent value.
    pub fn details_from_provider(&self, metadata_id: i32, row: Option<&metadata::Model>) -> (asked:
        Result<String, MediaError>)
        ensures
            match asked {
                Ok(identifier) => row matches Some(model) && identifier@ == model@.identifier,
                Err(error) => row is None && error@ == (MediaErrorView::NotFound {
                    metadata_id: metadata_id as int,
                }),
            },
    {
        match row {
            Some(model) => Ok(model.identifier.clone()),
            None => Err(MediaError::NotFound { metadata_id }),
        }
    }

    /// Decides what follows the read of the identifier index at the start
    /// of a book's commit: a row that exists ends the commit with its id; a
    /// miss sends the commit to the catalog.
    pub fn commit_book(&self, identifier: &str, existing: Option<&metadata::Model>) -> (step:
        CommitStep)
        ensures
            step@ == next_step(identifier@, MetadataLot::Book, CommitEventView::Looked(id_of(existing))),
            step@ == match existing {
                Some(model) => CommitStepView::Finished(model.id as int),
                None => CommitStepView::Fetch,
            },
    {
        match existing {
            Some(model) => CommitStep::Finished(IdObject { id: model.id }),
            None => CommitStep::Fetch,
        }
    }

    /// Decides what follows the catalog's details of a book: the write of
    /// the shared row and the book row in one transaction, or, where the
    /// payload of the details is not a book's, a lot mismatch and no write
    /// at all.
    pub fn save_to_db(&self, details: MediaDetails) -> (step: CommitStep)
        ensures
            step@ == after_fetch(details@.identifier, MetadataLot::Book, Some(details@)),
            details@.specifics.lot() != MetadataLot::Book <==> step@ is Failed,
    {
        match MediaService::plan_write(MetadataLot::Book, details) {
            Ok(plan) => CommitStep::Write(plan),
            Err(error) => CommitStep::Failed(error),
        }
    }

    /// Decides the next step of a book's commit from what the last step
    /// brought.
    pub fn commit(&self, identifier: &str, event: CommitEvent) -> (step: CommitStep)
        ensures
            step@ == next_step(identifier@, MetadataLot::Book, event@),
    {
        match event {
            CommitEvent::Fetched(Some(details)) => self.save_to_db(details),
            other => MediaService::commit(identifier, MetadataLot::Book, other),
        }
    }
}

/// The book queries of the query surface.
#[derive(Clone, Copy, Debug, Default)]
pub struct BooksQuery;

impl BooksQuery {
    /// Searches for books by a query and a 1-based page: the request to
    /// send to the book catalog.
    pub fn books_search(&self, service: &BooksService, input: &SearchInput) -> (request:
        BookSearch)
        ensures
            request.query@ == input.query@,
            request.offset == offset_of_page(input.page),
    {
        service.books_search(input.query.as_str(), input.page)
    }
}

/// The book mutations of the query surface.
#[derive(Clone, Copy, Debug, Default)]
pub struct BooksMutation;

impl BooksMutation {
    /// Fetches the details of a book and makes it a media item in storage:
    /// the next step towards that, given what the last step brought.
    pub fn commit_book(&self, service: &BooksService, identifier: &str, event: CommitEvent) -> (step:
        CommitStep)
        ensures
            step@ == next_step(identifier@, MetadataLot::Book, event@),
    {
        service.commit(identifier, event)
    }
}

} // verus!
