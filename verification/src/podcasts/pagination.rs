//! Stitching the pages of a podcast's details into one record.
//!
//! A catalog that cannot return every episode in one answer is asked page by
//! page. A [`Continuation`] carries what has been gathered so far and, while
//! more is to come, the cursor for the next request. The loop that performs
//! the requests lives outside; each turn of it hands the normalised page to
//! [`Continuation::resume`].

use crate::error::{MediaError, MediaErrorView};
use crate::media::resolver::{MediaDetails, MediaDetailsView};
use crate::media::{MediaSpecifics, MediaSpecificsView};
use crate::migrator::MetadataLot;
use crate::podcasts::listennotes::{details_of, numbered_episodes, PodcastPayloadView};
use crate::podcasts::{numbered_from, oldest_first, PodcastEpisodeView, PodcastSpecificsView};
use vstd::prelude::*;

verus! {

/// Where the next page of a podcast's episodes starts: the publish date of
/// the last episode gathered, and that episode's number.
#[derive(Clone, Copy, Debug, PartialEq, Eq)]
pub struct PageCursor {
    pub next_pub_date: i64,
    pub episode_number: i32,
}

/// The details gathered so far and the cursor for the next page, or no
/// cursor when the record is complete.
#[derive(Clone, Debug, PartialEq, Eq)]
pub struct Continuation {
    pub partial: MediaDetails,
    pub next: Option<PageCursor>,
}

/// The cursor as a pair of mathematical integers: publish date, then
/// episode number.
pub open spec fn cursor_pair(cursor: Option<PageCursor>) -> Option<(int, int)> {
    match cursor {
        Some(c) => Some((c.next_pub_date as int, c.episode_number as int)),
        None => None,
    }
}

/// The cursor for the page after the episodes gathered so far. There is
/// none when the catalog reports no more episodes than were gathered, when
/// nothing was gathered, or when the details are not those of a podcast.
pub open spec fn next_page_of(details: MediaDetailsView) -> Option<(int, int)> {
    match details.specifics {
        MediaSpecificsView::Podcast(p) => {
            if p.episodes.len() > 0 && p.total_episodes > p.episodes.len() {
                Some((p.episodes.last().publish_date, p.episodes.last().number))
            } else {
                None
            }
        },
        _ => None,
    }
}

/// The episodes of a podcast's details; none for another lot.
pub open spec fn episodes_of(details: MediaDetailsView) -> Seq<PodcastEpisodeView> {
    match details.specifics {
        MediaSpecificsView::Podcast(p) => p.episodes,
        _ => Seq::empty(),
    }
}

/// The details gathered so far with the episodes of one more page at the
/// end. Everything but the episode list stays as the first page gave it.
pub open spec fn merged_with(partial: MediaDetailsView, page: MediaDetailsView) -> MediaDetailsView {
    match (partial.specifics, page.specifics) {
        (MediaSpecificsView::Podcast(p), MediaSpecificsView::Podcast(q)) => MediaDetailsView {
            specifics: MediaSpecificsView::Podcast(
                PodcastSpecificsView {
                    episodes: p.episodes + q.episodes,
                    source: p.source,
                    total_episodes: p.total_episodes,
                },
            ),
            ..partial
        },
        _ => partial,
    }
}

/// The cursor after a page was merged: none when the page brought no
/// episode, since asking again would bring the same answer.
pub open spec fn cursor_after(merged: MediaDetailsView, page: MediaDetailsView) -> Option<
    (int, int),
> {
    if episodes_of(page).len() == 0 {
        None
    } else {
        next_page_of(merged)
    }
}

/// The lot mismatch that merging a page reports, if any: both the gathered
/// details and the page must be those of a podcast.
pub open spec fn merge_mismatch(partial: MediaDetailsView, page: MediaDetailsView) -> Option<
    MediaErrorView,
> {
    if partial.specifics.lot() != MetadataLot::Podcast {
        Some(
            MediaErrorView::LotMismatch {
                requested: MetadataLot::Podcast,
                found: partial.specifics.lot(),
            },
        )
    } else if page.specifics.lot() != MetadataLot::Podcast {
        Some(
            MediaErrorView::LotMismatch {
                requested: MetadataLot::Podcast,
                found: page.specifics.lot(),
            },
        )
    } else {
        None
    }
}

/// The cursor for the page after the episodes gathered so far.
pub fn next_page(details: &MediaDetails) -> (cursor: Option<PageCursor>)
    ensures
        cursor_pair(cursor) == next_page_of(details@),
{
    match &details.specifics {
        MediaSpecifics::Podcast(p) => {
            let gathered = p.episodes.len();
            if gathered > 0 && p.total_episodes > 0 && p.total_episodes as usize > gathered {
                let last = &p.episodes[gathered - 1];
                assert(p@.episodes.last() == last@);
                Some(PageCursor { next_pub_date: last.publish_date, episode_number: last.number })
            } else {
                None
            }
        },
        _ => None,
    }
}

impl Continuation {
    /// Starts from the first page of details.
    pub fn begin(first: MediaDetails) -> (state: Continuation)
        ensures
            state.partial@ == first@,
            cursor_pair(state.next) == next_page_of(first@),
    {
        let next = next_page(&first);
        Continuation { partial: first, next }
    }

    /// Whether the record is complete.
    pub fn is_done(&self) -> (done: bool)
        ensures
            done == (self.next is None),
    {
        self.next.is_none()
    }

    /// Takes in the next page. The page's episodes go at the end of those
    /// gathered so far, in the page's order. A page or a record that is not
    /// a podcast's is reported as a lot mismatch and nothing is merged.
    pub fn resume(self, page: MediaDetails) -> (outcome: Result<Continuation, MediaError>)
        ensures
            match outcome {
                Ok(state) => {
                    &&& merge_mismatch(self.partial@, page@) is None
                    &&& state.partial@ == merged_with(self.partial@, page@)
                    &&& cursor_pair(state.next) == cursor_after(state.partial@, page@)
                },
                Err(error) => merge_mismatch(self.partial@, page@) == Some(error@),
            },
    {
        let ghost before = self.partial@;
        let ghost added = page@;
        let MediaDetails {
            identifier,
            title,
            description,
            lot,
            creators,
            genres,
            poster_images,
            backdrop_images,
            publish_year,
            publish_date,
            specifics,
        } = self.partial;
        let found = specifics.lot();
        let mut gathered = match specifics {
            MediaSpecifics::Podcast(p) => p,
            _ => {
                return Err(MediaError::LotMismatch { requested: MetadataLot::Podcast, found });
            },
        };
        let page_lot = page.specifics.lot();
        let mut fresh = match page.specifics {
            MediaSpecifics::Podcast(q) => q,
            _ => {
                return Err(
                    MediaError::LotMismatch { requested: MetadataLot::Podcast, found: page_lot },
                );
            },
        };
        let brought = fresh.episodes.len();
        let ghost old_episodes = gathered.episodes.deep_view();
        let ghost new_episodes = fresh.episodes.deep_view();
        gathered.episodes.append(&mut fresh.episodes);
        assert(gathered.episodes.deep_view() =~= old_episodes + new_episodes);
        let partial = MediaDetails {
            identifier,
            title,
            description,
            lot,
            creators,
            genres,
            poster_images,
            backdrop_images,
            publish_year,
            publish_date,
            specifics: MediaSpecifics::Podcast(gathered),
        };
        assert(partial@ == merged_with(before, added));
        let next = if brought == 0 {
            None
        } else {
            next_page(&partial)
        };
        Ok(Continuation { partial, next })
    }
}

/// A page that follows `offset` episodes is numbered `offset + 1`,
/// `offset + 2`, and so on: strictly increasing, without gaps or repeats.
/// Numbering changes neither the order nor the publish dates of a page.
pub proof fn lemma_page_numbering(raw: Seq<PodcastEpisodeView>, offset: int)
    ensures
        numbered_episodes(raw, offset).len() == raw.len(),
        numbered_from(numbered_episodes(raw, offset), offset + 1),
        oldest_first(raw) ==> oldest_first(numbered_episodes(raw, offset)),
{
    let page = numbered_episodes(raw, offset);
    assert forall|i: int, j: int| 0 <= i <= j < page.len() && oldest_first(raw) implies (
    #[trigger] page[i]).publish_date <= (#[trigger] page[j]).publish_date by {
        assert(raw[i].publish_date <= raw[j].publish_date);
    }
}

/// Numbering two pages one after the other, the second from where the first
/// ended, is numbering their concatenation.
pub proof fn lemma_numbering_concat(
    first: Seq<PodcastEpisodeView>,
    second: Seq<PodcastEpisodeView>,
    offset: int,
)
    ensures
        numbered_episodes(first, offset) + numbered_episodes(second, offset + first.len())
            == numbered_episodes(first + second, offset),
{
    assert(numbered_episodes(first, offset) + numbered_episodes(second, offset + first.len())
        =~= numbered_episodes(first + second, offset));
}

/// While the episodes gathered are numbered from 1, the cursor's episode
/// number is the count of episodes gathered.
pub proof fn lemma_cursor_counts_episodes(details: MediaDetailsView)
    requires
        numbered_from(episodes_of(details), 1),
        next_page_of(details) is Some,
    ensures
        next_page_of(details) == Some(
            (episodes_of(details).last().publish_date, episodes_of(details).len() as int),
        ),
{
}

/// The catalog's episodes over all pages, in page order.
pub open spec fn all_episodes(pages: Seq<PodcastPayloadView>) -> Seq<PodcastEpisodeView>
    decreases pages.len(),
{
    if pages.len() == 0 {
        Seq::empty()
    } else {
        all_episodes(pages.drop_last()) + pages.last().episodes
    }
}

/// The record that the paging loop holds after it has taken in `pages`, one
/// after the other: the first page normalised with no offset, and each later
/// page normalised with the episode number of the cursor that asked for it.
pub open spec fn gathered(
    pages: Seq<PodcastPayloadView>,
    table: Map<i32, Seq<char>>,
) -> MediaDetailsView
    recommends
        pages.len() > 0,
    decreases pages.len(),
{
    if pages.len() <= 1 {
        details_of(pages[0], table, 0)
    } else {
        let before = gathered(pages.drop_last(), table);
        let offset = match next_page_of(before) {
            Some(cursor) => cursor.1,
            None => 0,
        };
        merged_with(before, details_of(pages.last(), table, offset))
    }
}

/// The loop asked for each page but the first: after every proper prefix of
/// `pages` the record had a cursor.
pub open spec fn each_page_was_asked_for(
    pages: Seq<PodcastPayloadView>,
    table: Map<i32, Seq<char>>,
) -> bool {
    forall|k: int|
        1 <= k < pages.len() ==> next_page_of(#[trigger] gathered(pages.take(k), table)) is Some
}

/// Pagination leaves no trace in the episode list. Whatever the sizes of the
/// pages, the merged record holds the catalog's episodes in the catalog's
/// order, numbered 1, 2, 3, ... without gaps or repeats; where the catalog
/// sent them oldest first, they are stored oldest first. Once as many
/// episodes are gathered as the first page reported, no further page is
/// asked for. Everything else in the record is what the first page gave.
pub proof fn lemma_pagination_is_contiguous(
    pages: Seq<PodcastPayloadView>,
    table: Map<i32, Seq<char>>,
)
    requires
        pages.len() > 0,
        each_page_was_asked_for(pages, table),
    ensures
        episodes_of(gathered(pages, table)) == numbered_episodes(all_episodes(pages), 0),
        episodes_of(gathered(pages, table)).len() == all_episodes(pages).len(),
        numbered_from(episodes_of(gathered(pages, table)), 1),
        oldest_first(all_episodes(pages)) ==> oldest_first(episodes_of(gathered(pages, table))),
        all_episodes(pages).len() >= pages[0].total_episodes ==> next_page_of(
            gathered(pages, table),
        ) is None,
        gathered(pages, table) == (MediaDetailsView {
            specifics: MediaSpecificsView::Podcast(
                PodcastSpecificsView {
                    episodes: numbered_episodes(all_episodes(pages), 0),
                    source: crate::migrator::PodcastSource::Listennotes,
                    total_episodes: pages[0].total_episodes,
                },
            ),
            ..details_of(pages[0], table, 0)
        }),
    decreases pages.len(),
{
    let first = details_of(pages[0], table, 0);
    if pages.len() == 1 {
        assert(pages.drop_last() =~= Seq::<PodcastPayloadView>::empty());
        assert(all_episodes(pages.drop_last()) =~= Seq::<PodcastEpisodeView>::empty());
        assert(all_episodes(pages) =~= pages[0].episodes);
        lemma_page_numbering(pages[0].episodes, 0);
    } else {
        let earlier = pages.drop_last();
        assert(earlier =~= pages.take(pages.len() - 1));
        assert forall|k: int| 1 <= k < earlier.len() implies next_page_of(
            #[trigger] gathered(earlier.take(k), table),
        ) is Some by {
            assert(earlier.take(k) =~= pages.take(k));
        }
        lemma_pagination_is_contiguous(earlier, table);
        let before = gathered(earlier, table);
        assert(next_page_of(before) is Some) by {
            assert(next_page_of(gathered(pages.take(pages.len() - 1), table)) is Some);
        }
        lemma_cursor_counts_episodes(before);
        let offset = all_episodes(earlier).len() as int;
        lemma_numbering_concat(all_episodes(earlier), pages.last().episodes, 0);
        lemma_page_numbering(all_episodes(pages), 0);
        assert(earlier[0] == pages[0]);
        assert(numbered_episodes(all_episodes(earlier), 0) + numbered_episodes(
            pages.last().episodes,
            offset,
        ) == numbered_episodes(all_episodes(pages), 0));
    }
}

} // verus!
