//! The intermediate representation that every catalog adapter produces.

use crate::calendar::CalendarDate;
use crate::media::{MediaSpecifics, MediaSpecificsView, LIMIT};
use crate::migrator::MetadataLot;
use crate::podcasts::int_of;
use vstd::prelude::*;

verus! {

/// What a client asks a catalog search for: a free-text query and a 1-based
/// page number.
#[derive(Clone, Debug, PartialEq, Eq)]
pub struct SearchInput {
    pub query: String,
    pub page: Option<i32>,
}

/// One hit of a catalog search.
#[derive(Clone, Debug, PartialEq, Eq)]
pub struct MediaSearchItem {
    pub identifier: String,
    pub lot: MetadataLot,
    pub title: String,
    pub poster_images: Vec<String>,
    pub publish_year: Option<i32>,
}

/// The mathematical value of a [`MediaSearchItem`].
pub struct MediaSearchItemView {
    pub identifier: Seq<char>,
    pub lot: MetadataLot,
    pub title: Seq<char>,
    pub poster_images: Seq<Seq<char>>,
    pub publish_year: Option<int>,
}

impl View for MediaSearchItem {
    type V = MediaSearchItemView;

    open spec fn view(&self) -> MediaSearchItemView {
        MediaSearchItemView {
            identifier: self.identifier@,
            lot: self.lot,
            title: self.title@,
            poster_images: self.poster_images.deep_view(),
            publish_year: int_of(self.publish_year),
        }
    }
}

impl DeepView for MediaSearchItem {
    type V = MediaSearchItemView;

    open spec fn deep_view(&self) -> MediaSearchItemView {
        self@
    }
}

/// One page of a catalog search, with the number of hits over all pages.
#[derive(Clone, Debug, PartialEq, Eq)]
pub struct MediaSearchResults {
    pub total: i32,
    pub items: Vec<MediaSearchItem>,
}

/// The mathematical value of a [`MediaSearchResults`].
pub struct MediaSearchResultsView {
    pub total: int,
    pub items: Seq<MediaSearchItemView>,
}

impl View for MediaSearchResults {
    type V = MediaSearchResultsView;

    open spec fn view(&self) -> MediaSearchResultsView {
        MediaSearchResultsView { total: self.total as int, items: self.items.deep_view() }
    }
}

/// The canonical details of one media item as a catalog describes it. This
/// value is not stored as it is: committing it writes a shared row and a
/// lot-specific row.
#[derive(Clone, Debug, PartialEq, Eq)]
pub struct MediaDetails {
    pub identifier: String,
    pub title: String,
    pub description: Option<String>,
    pub lot: MetadataLot,
    pub creators: Vec<String>,
    pub genres: Vec<String>,
    pub poster_images: Vec<String>,
    pub backdrop_images: Vec<String>,
    pub publish_year: Option<i32>,
    pub publish_date: Option<CalendarDate>,
    pub specifics: MediaSpecifics,
}

/// The mathematical value of a [`MediaDetails`].
pub struct MediaDetailsView {
    pub identifier: Seq<char>,
    pub title: Seq<char>,
    pub description: Option<Seq<char>>,
    pub lot: MetadataLot,
    pub creators: Seq<Seq<char>>,
    pub genres: Seq<Seq<char>>,
    pub poster_images: Seq<Seq<char>>,
    pub backdrop_images: Seq<Seq<char>>,
    pub publish_year: Option<int>,
    pub publish_date: Option<CalendarDate>,
    pub specifics: MediaSpecificsView,
}

impl View for MediaDetails {
    type V = MediaDetailsView;

    open spec fn view(&self) -> MediaDetailsView {
        MediaDetailsView {
            identifier: self.identifier@,
            title: self.title@,
            description: self.description.deep_view(),
            lot: self.lot,
            creators: self.creators.deep_view(),
            genres: self.genres.deep_view(),
            poster_images: self.poster_images.deep_view(),
            backdrop_images: self.backdrop_images.deep_view(),
            publish_year: int_of(self.publish_year),
            publish_date: self.publish_date,
            specifics: self.specifics@,
        }
    }
}

impl MediaDetailsView {
    /// The lot-specific payload belongs to the lot the details claim.
    pub open spec fn consistent(self) -> bool {
        self.specifics.lot() == self.lot
    }
}

/// The catalog's native offset of the first result on a 1-based page. A
/// missing page number means the first page.
pub open spec fn offset_of_page(page: Option<i32>) -> int {
    let number: int = match page {
        Some(p) => p as int,
        None => 1,
    };
    (number - 1) * (LIMIT as int)
}

/// The catalog's native offset of the first result on a 1-based page. A
/// missing page number means the first page, at offset zero.
pub fn page_offset(page: Option<i32>) -> (offset: i64)
    ensures
        offset == offset_of_page(page),
{
    let number: i64 = match page {
        Some(p) => p as i64,
        None => 1,
    };
    let size: i64 = LIMIT as i64;
    assert(i64::MIN <= (number - 1) * size <= i64::MAX) by (nonlinear_arith)
        requires
            i32::MIN <= number <= i32::MAX,
            size == 20,
    ;
    (number - 1) * size
}

/// A single optional text as a list of at most one element.
pub open spec fn one_or_none(text: Option<Seq<char>>) -> Seq<Seq<char>> {
    match text {
        Some(t) => seq![t],
        None => Seq::empty(),
    }
}

/// Wraps a single optional image address into a list: one element when the
/// catalog gave an image, the empty list when it gave none.
pub fn coalesce_image(image: &Option<String>) -> (images: Vec<String>)
    ensures
        images.deep_view() == one_or_none(image.deep_view()),
{
    let mut images: Vec<String> = Vec::new();
    match image {
        Some(url) => {
            images.push(url.clone());
            assert(images.deep_view() =~= seq![url@]);
        },
        None => {
            assert(images.deep_view() =~= Seq::<Seq<char>>::empty());
        },
    }
    images
}

/// Copies an optional text.
pub fn copy_text(text: &Option<String>) -> (copy: Option<String>)
    ensures
        copy == *text,
{
    match text {
        Some(t) => Some(t.clone()),
        None => None,
    }
}

} // verus!
