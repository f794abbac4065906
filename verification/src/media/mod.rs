//! The provider-agnostic representation of a media item's lot-specific part.

use crate::migrator::{
    AudioBookSource, BookSource, MetadataImageLot, MetadataLot, MovieSource, ShowSource,
    VideoGameSource,
};
use crate::podcasts::{PodcastSpecifics, PodcastSpecificsView};
use vstd::prelude::*;

pub mod commit;
pub mod resolver;

verus! {

/// The number of results on one page of a catalog search. Every adapter uses
/// the same page size.
pub const LIMIT: i32 = 20;

/// Lot-specific fields of an audio book. `runtime` is in minutes.
#[derive(Clone, Copy, Debug, PartialEq, Eq)]
pub struct AudioBookSpecifics {
    pub runtime: Option<i32>,
    pub source: AudioBookSource,
}

/// Lot-specific fields of a book.
#[derive(Clone, Copy, Debug, PartialEq, Eq)]
pub struct BookSpecifics {
    pub pages: Option<i32>,
    pub source: BookSource,
}

/// Lot-specific fields of a movie.
#[derive(Clone, Copy, Debug, PartialEq, Eq)]
pub struct MovieSpecifics {
    pub source: MovieSource,
}

/// Lot-specific fields of a show.
#[derive(Clone, Copy, Debug, PartialEq, Eq)]
pub struct ShowSpecifics {
    pub source: ShowSource,
}

/// Lot-specific fields of a video game.
#[derive(Clone, Copy, Debug, PartialEq, Eq)]
pub struct VideoGameSpecifics {
    pub source: VideoGameSource,
}

/// The lot-specific payload of a media item: one variant per lot.
#[derive(Clone, Debug, PartialEq, Eq)]
pub enum MediaSpecifics {
    AudioBook(AudioBookSpecifics),
    Book(BookSpecifics),
    Podcast(PodcastSpecifics),
    Movie(MovieSpecifics),
    Show(ShowSpecifics),
    VideoGame(VideoGameSpecifics),
}

/// The mathematical value of a [`MediaSpecifics`].
pub enum MediaSpecificsView {
    AudioBook(AudioBookSpecifics),
    Book(BookSpecifics),
    Podcast(PodcastSpecificsView),
    Movie(MovieSpecifics),
    Show(ShowSpecifics),
    VideoGame(VideoGameSpecifics),
}

impl MediaSpecificsView {
    /// The lot whose extension schema holds this payload.
    pub open spec fn lot(self) -> MetadataLot {
        match self {
            MediaSpecificsView::AudioBook(_) => MetadataLot::AudioBook,
            MediaSpecificsView::Book(_) => MetadataLot::Book,
            MediaSpecificsView::Podcast(_) => MetadataLot::Podcast,
            MediaSpecificsView::Movie(_) => MetadataLot::Movie,
            MediaSpecificsView::Show(_) => MetadataLot::Show,
            MediaSpecificsView::VideoGame(_) => MetadataLot::VideoGame,
        }
    }
}

impl View for MediaSpecifics {
    type V = MediaSpecificsView;

    open spec fn view(&self) -> MediaSpecificsView {
        match self {
            MediaSpecifics::AudioBook(s) => MediaSpecificsView::AudioBook(*s),
            MediaSpecifics::Book(s) => MediaSpecificsView::Book(*s),
            MediaSpecifics::Podcast(s) => MediaSpecificsView::Podcast(s@),
            MediaSpecifics::Movie(s) => MediaSpecificsView::Movie(*s),
            MediaSpecifics::Show(s) => MediaSpecificsView::Show(*s),
            MediaSpecifics::VideoGame(s) => MediaSpecificsView::VideoGame(*s),
        }
    }
}

impl MediaSpecifics {
    /// The lot whose extension schema holds this payload.
    pub fn lot(&self) -> (lot: MetadataLot)
        ensures
            lot == self@.lot(),
    {
        match self {
            MediaSpecifics::AudioBook(_) => MetadataLot::AudioBook,
            MediaSpecifics::Book(_) => MetadataLot::Book,
            MediaSpecifics::Podcast(_) => MetadataLot::Podcast,
            MediaSpecifics::Movie(_) => MetadataLot::Movie,
            MediaSpecifics::Show(_) => MetadataLot::Show,
            MediaSpecifics::VideoGame(_) => MetadataLot::VideoGame,
        }
    }
}

/// One image of a media item.
#[derive(Clone, Debug, PartialEq, Eq)]
pub struct MetadataImage {
    pub url: String,
    pub lot: MetadataImageLot,
}

/// The mathematical value of a [`MetadataImage`].
pub struct MetadataImageView {
    pub url: Seq<char>,
    pub lot: MetadataImageLot,
}

impl View for MetadataImage {
    type V = MetadataImageView;

    open spec fn view(&self) -> MetadataImageView {
        MetadataImageView { url: self.url@, lot: self.lot }
    }
}

impl DeepView for MetadataImage {
    type V = MetadataImageView;

    open spec fn deep_view(&self) -> MetadataImageView {
        self@
    }
}

/// The images of a media item in one collection: posters first, then
/// backdrops, each group in the order the catalog gave.
#[derive(Clone, Debug, PartialEq, Eq)]
pub struct MetadataImages(pub Vec<MetadataImage>);

/// A list of image addresses, each tagged with the same role.
pub open spec fn tagged(urls: Seq<Seq<char>>, lot: MetadataImageLot) -> Seq<MetadataImageView> {
    Seq::new(urls.len(), |i: int| MetadataImageView { url: urls[i], lot })
}

/// The image collection made of `posters` and `backdrops`.
pub open spec fn collected_images(
    posters: Seq<Seq<char>>,
    backdrops: Seq<Seq<char>>,
) -> Seq<MetadataImageView> {
    tagged(posters, MetadataImageLot::Poster) + tagged(backdrops, MetadataImageLot::Backdrop)
}

impl View for MetadataImages {
    type V = Seq<MetadataImageView>;

    open spec fn view(&self) -> Seq<MetadataImageView> {
        self.0.deep_view()
    }
}

impl MetadataImages {
    /// Brings the poster and backdrop lists of a media item into one
    /// collection. An item without images gets an empty collection.
    pub fn collect(posters: &Vec<String>, backdrops: &Vec<String>) -> (images: MetadataImages)
        ensures
            images@ == collected_images(posters.deep_view(), backdrops.deep_view()),
    {
        let mut all: Vec<MetadataImage> = Vec::new();
        let mut i: usize = 0;
        while i < posters.len()
            invariant
                i <= posters.len(),
                all.deep_view() == tagged(posters.deep_view(), MetadataImageLot::Poster).take(
                    i as int,
                ),
            decreases posters.len() - i,
        {
            let ghost before = all.deep_view();
            all.push(MetadataImage { url: posters[i].clone(), lot: MetadataImageLot::Poster });
            assert(all.deep_view() =~= before.push(
                tagged(posters.deep_view(), MetadataImageLot::Poster)[i as int],
            ));
            i += 1;
            assert(all.deep_view() =~= tagged(posters.deep_view(), MetadataImageLot::Poster).take(
                i as int,
            ));
        }
        let ghost front = all.deep_view();
        assert(front == tagged(posters.deep_view(), MetadataImageLot::Poster));
        let mut j: usize = 0;
        while j < backdrops.len()
            invariant
                j <= backdrops.len(),
                all.deep_view() == front + tagged(
                    backdrops.deep_view(),
                    MetadataImageLot::Backdrop,
                ).take(j as int),
            decreases backdrops.len() - j,
        {
            let ghost before = all.deep_view();
            all.push(MetadataImage { url: backdrops[j].clone(), lot: MetadataImageLot::Backdrop });
            assert(all.deep_view() =~= before.push(
                tagged(backdrops.deep_view(), MetadataImageLot::Backdrop)[j as int],
            ));
            j += 1;
            assert(all.deep_view() =~= front + tagged(
                backdrops.deep_view(),
                MetadataImageLot::Backdrop,
            ).take(j as int));
        }
        assert(all.deep_view() == front + tagged(
            backdrops.deep_view(),
            MetadataImageLot::Backdrop,
        ));
        MetadataImages(all)
    }
}

} // verus!
