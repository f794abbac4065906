//! Podcast payloads in their normalised form.

use crate::migrator::PodcastSource;
use vstd::prelude::*;

pub mod listennotes;
pub mod pagination;

verus! {

/// One episode of a podcast.
///
/// `number` is the 1-based position of the episode in the podcast, counted
/// oldest first. It is assigned during normalisation; a catalog does not
/// supply it. `runtime` is in minutes, `publish_date` in epoch milliseconds
/// as supplied.
#[derive(Clone, Debug, PartialEq, Eq)]
pub struct PodcastEpisode {
    pub number: i32,
    pub id: String,
    pub runtime: Option<i32>,
    pub overview: Option<String>,
    pub title: String,
    pub publish_date: i64,
    pub thumbnail: Option<String>,
}

/// The mathematical value of a [`PodcastEpisode`].
pub struct PodcastEpisodeView {
    pub number: int,
    pub id: Seq<char>,
    pub runtime: Option<int>,
    pub overview: Option<Seq<char>>,
    pub title: Seq<char>,
    pub publish_date: int,
    pub thumbnail: Option<Seq<char>>,
}

/// An optional machine integer as an optional mathematical integer.
pub open spec fn int_of(value: Option<i32>) -> Option<int> {
    match value {
        Some(v) => Some(v as int),
        None => None,
    }
}

impl View for PodcastEpisode {
    type V = PodcastEpisodeView;

    open spec fn view(&self) -> PodcastEpisodeView {
        PodcastEpisodeView {
            number: self.number as int,
            id: self.id@,
            runtime: int_of(self.runtime),
            overview: self.overview.deep_view(),
            title: self.title@,
            publish_date: self.publish_date as int,
            thumbnail: self.thumbnail.deep_view(),
        }
    }
}

impl DeepView for PodcastEpisode {
    type V = PodcastEpisodeView;

    open spec fn deep_view(&self) -> PodcastEpisodeView {
        self@
    }
}

/// The lot-specific payload of a podcast: its episodes, oldest first, the
/// catalog it came from, and the number of episodes the catalog reports.
#[derive(Clone, Debug, PartialEq, Eq)]
pub struct PodcastSpecifics {
    pub episodes: Vec<PodcastEpisode>,
    pub source: PodcastSource,
    pub total_episodes: i32,
}

/// The mathematical value of a [`PodcastSpecifics`].
pub struct PodcastSpecificsView {
    pub episodes: Seq<PodcastEpisodeView>,
    pub source: PodcastSource,
    pub total_episodes: int,
}

impl View for PodcastSpecifics {
    type V = PodcastSpecificsView;

    open spec fn view(&self) -> PodcastSpecificsView {
        PodcastSpecificsView {
            episodes: self.episodes.deep_view(),
            source: self.source,
            total_episodes: self.total_episodes as int,
        }
    }
}

impl DeepView for PodcastSpecifics {
    type V = PodcastSpecificsView;

    open spec fn deep_view(&self) -> PodcastSpecificsView {
        self@
    }
}

/// Episodes carry the numbers `first, first + 1, ...` in order: strictly
/// increasing, without gaps or repeats.
pub open spec fn numbered_from(episodes: Seq<PodcastEpisodeView>, first: int) -> bool {
    forall|i: int| 0 <= i < episodes.len() ==> (#[trigger] episodes[i]).number == first + i
}

/// Episodes are in publishing order, oldest first.
pub open spec fn oldest_first(episodes: Seq<PodcastEpisodeView>) -> bool {
    forall|i: int, j: int|
        0 <= i <= j < episodes.len() ==> (#[trigger] episodes[i]).publish_date <= (
        #[trigger] episodes[j]).publish_date
}

} // verus!
