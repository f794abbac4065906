//! The closed sets of tags stored with every row: the media lot, the catalog a
//! lot-specific payload came from, and the role of an image.

use vstd::prelude::*;

verus! {

/// The category of a media item. It selects the extension schema and the
/// catalog that describes the item.
#[derive(Clone, Copy, Debug, PartialEq, Eq, Structural, Hash)]
pub enum MetadataLot {
    AudioBook,
    Book,
    Podcast,
    Movie,
    Show,
    VideoGame,
}

/// Catalogs that describe audio books.
#[derive(Clone, Copy, Debug, PartialEq, Eq, Structural, Hash)]
pub enum AudioBookSource {
    Audible,
}

/// Catalogs that describe books.
#[derive(Clone, Copy, Debug, PartialEq, Eq, Structural, Hash)]
pub enum BookSource {
    Openlibrary,
}

/// Catalogs that describe podcasts.
#[derive(Clone, Copy, Debug, PartialEq, Eq, Structural, Hash)]
pub enum PodcastSource {
    Listennotes,
}

/// Catalogs that describe movies.
#[derive(Clone, Copy, Debug, PartialEq, Eq, Structural, Hash)]
pub enum MovieSource {
    Tmdb,
}

/// Catalogs that describe shows.
#[derive(Clone, Copy, Debug, PartialEq, Eq, Structural, Hash)]
pub enum ShowSource {
    Tmdb,
}

/// Catalogs that describe video games.
#[derive(Clone, Copy, Debug, PartialEq, Eq, Structural, Hash)]
pub enum VideoGameSource {
    Igdb,
}

/// The role an image plays for a media item.
#[derive(Clone, Copy, Debug, PartialEq, Eq, Structural, Hash)]
pub enum MetadataImageLot {
    Backdrop,
    Poster,
}

} // verus!
