//! The podcast catalog adapter: what to ask the catalog, and how its answers
//! become the provider-agnostic representation.
//!
//! The catalog returns the episodes of a podcast a page at a time and without
//! episode numbers, so numbering and stitching pages together happen here.

use crate::calendar::{publish_date, published_on, CalendarDate};
use crate::media::resolver::{
    coalesce_image, copy_text, offset_of_page, one_or_none, page_offset, MediaDetails,
    MediaDetailsView, MediaSearchItem, MediaSearchItemView, MediaSearchResults,
    MediaSearchResultsView,
};
use crate::media::{MediaSpecifics, MediaSpecificsView};
use crate::migrator::{MetadataLot, PodcastSource};
use crate::podcasts::{
    int_of, PodcastEpisode, PodcastEpisodeView, PodcastSpecifics, PodcastSpecificsView,
};
use std::collections::HashMap;
use vstd::prelude::*;
use vstd::string::StringExecFns;

verus! {

broadcast use vstd::std_specs::hash::group_hash_axioms;

/// One hit of a podcast search as the catalog returns it. `publish_date` is
/// the catalog's `earliest_pub_date_ms`, in epoch milliseconds.
#[derive(Clone, Debug, PartialEq, Eq)]
pub struct PodcastSummary {
    pub title_original: String,
    pub id: String,
    pub publish_date: Option<i64>,
    pub image: Option<String>,
}

/// The mathematical value of a [`PodcastSummary`].
pub struct PodcastSummaryView {
    pub title_original: Seq<char>,
    pub id: Seq<char>,
    pub publish_date: Option<i64>,
    pub image: Option<Seq<char>>,
}

impl View for PodcastSummary {
    type V = PodcastSummaryView;

    open spec fn view(&self) -> PodcastSummaryView {
        PodcastSummaryView {
            title_original: self.title_original@,
            id: self.id@,
            publish_date: self.publish_date,
            image: self.image.deep_view(),
        }
    }
}

impl DeepView for PodcastSummary {
    type V = PodcastSummaryView;

    open spec fn deep_view(&self) -> PodcastSummaryView {
        self@
    }
}

/// One page of a podcast search as the catalog returns it.
#[derive(Clone, Debug, PartialEq, Eq)]
pub struct SearchResponse {
    pub total: i32,
    pub results: Vec<PodcastSummary>,
}

/// The mathematical value of a [`SearchResponse`].
pub struct SearchResponseView {
    pub total: int,
    pub results: Seq<PodcastSummaryView>,
}

impl View for SearchResponse {
    type V = SearchResponseView;

    open spec fn view(&self) -> SearchResponseView {
        SearchResponseView { total: self.total as int, results: self.results.deep_view() }
    }
}

/// One page of a podcast's details as the catalog returns it. The episodes
/// are in the catalog's form: unnumbered and with `runtime` in seconds.
/// `publish_date` is the catalog's `earliest_pub_date_ms`.
#[derive(Clone, Debug, PartialEq, Eq)]
pub struct PodcastPayload {
    pub title: String,
    pub description: Option<String>,
    pub id: String,
    pub publish_date: Option<i64>,
    pub image: Option<String>,
    pub episodes: Vec<PodcastEpisode>,
    pub genre_ids: Vec<i32>,
    pub total_episodes: i32,
}

/// The mathematical value of a [`PodcastPayload`].
pub struct PodcastPayloadView {
    pub title: Seq<char>,
    pub description: Option<Seq<char>>,
    pub id: Seq<char>,
    pub publish_date: Option<i64>,
    pub image: Option<Seq<char>>,
    pub episodes: Seq<PodcastEpisodeView>,
    pub genre_ids: Seq<i32>,
    pub total_episodes: int,
}

impl View for PodcastPayload {
    type V = PodcastPayloadView;

    open spec fn view(&self) -> PodcastPayloadView {
        PodcastPayloadView {
            title: self.title@,
            description: self.description.deep_view(),
            id: self.id@,
            publish_date: self.publish_date,
            image: self.image.deep_view(),
            episodes: self.episodes.deep_view(),
            genre_ids: self.genre_ids@,
            total_episodes: self.total_episodes as int,
        }
    }
}

/// The parameters of a search request to the catalog.
#[derive(Clone, Debug, PartialEq, Eq)]
pub struct SearchQuery {
    pub q: String,
    pub offset: i64,
    pub kind: String,
}

/// The path and parameters of a details request to the catalog.
#[derive(Clone, Debug, PartialEq, Eq)]
pub struct DetailsQuery {
    pub path: String,
    pub sort: String,
    pub next_episode_pub_date: String,
}

/// Whole minutes in a number of seconds, rounded towards zero.
pub open spec fn minutes_of(seconds: Option<int>) -> Option<int> {
    match seconds {
        Some(s) => Some(
            if s >= 0 {
                s / 60
            } else {
                -((-s) / 60)
            },
        ),
        None => None,
    }
}

/// The normalised form of the catalog episode at position `index` of a page
/// that follows `offset` earlier episodes.
pub open spec fn numbered_episode(
    raw: PodcastEpisodeView,
    offset: int,
    index: int,
) -> PodcastEpisodeView {
    PodcastEpisodeView {
        number: offset + index + 1,
        id: raw.id,
        runtime: minutes_of(raw.runtime),
        overview: raw.overview,
        title: raw.title,
        publish_date: raw.publish_date,
        thumbnail: raw.thumbnail,
    }
}

/// The normalised form of a page of catalog episodes that follows `offset`
/// earlier episodes.
pub open spec fn numbered_episodes(
    raw: Seq<PodcastEpisodeView>,
    offset: int,
) -> Seq<PodcastEpisodeView> {
    Seq::new(raw.len(), |i: int| numbered_episode(raw[i], offset, i))
}

/// The genre table with its names as character sequences.
pub open spec fn genre_table_of(genres: Map<i32, String>) -> Map<i32, Seq<char>> {
    Map::new(|id: i32| genres.contains_key(id), |id: i32| genres[id]@)
}

/// Whether the table knows an id.
pub open spec fn is_known(table: Map<i32, Seq<char>>) -> spec_fn(i32) -> bool {
    |id: i32| table.contains_key(id)
}

/// The name the table gives an id.
pub open spec fn name_in(table: Map<i32, Seq<char>>) -> spec_fn(i32) -> Seq<char> {
    |id: i32| table[id]
}

/// The names of the ids that the table knows, in the order of the ids. Ids
/// that the table does not know leave no trace.
pub open spec fn genre_names(ids: Seq<i32>, table: Map<i32, Seq<char>>) -> Seq<Seq<char>> {
    ids.filter(is_known(table)).map_values(name_in(table))
}

/// Genre ids that the table does not know are dropped without a trace: a
/// list of unknown ids resolves to no names at all.
pub proof fn lemma_unknown_genres_are_dropped(ids: Seq<i32>, table: Map<i32, Seq<char>>)
    requires
        forall|i: int| 0 <= i < ids.len() ==> !table.contains_key(#[trigger] ids[i]),
    ensures
        genre_names(ids, table) == Seq::<Seq<char>>::empty(),
{
    let kept = ids.filter(is_known(table));
    if kept.len() > 0 {
        ids.lemma_filter_pred(is_known(table), 0);
        assert(kept.contains(kept[0]));
        ids.lemma_filter_contains_rev(is_known(table), kept[0]);
        let j = choose|j: int| 0 <= j < ids.len() && ids[j] == kept[0];
        assert(!table.contains_key(ids[j]));
    }
    assert(genre_names(ids, table) =~= Seq::<Seq<char>>::empty());
}

/// Resolving genres keeps exactly the ids that the table knows: an unknown
/// id in the list changes nothing, a known one adds its name at the end.
pub proof fn lemma_genre_names_step(ids: Seq<i32>, id: i32, table: Map<i32, Seq<char>>)
    ensures
        genre_names(ids.push(id), table) == if table.contains_key(id) {
            genre_names(ids, table).push(table[id])
        } else {
            genre_names(ids, table)
        },
{
    ids.lemma_filter_push(id, is_known(table));
    if table.contains_key(id) {
        assert(ids.push(id).filter(is_known(table)).map_values(name_in(table)) =~= ids.filter(
            is_known(table),
        ).map_values(name_in(table)).push(table[id]));
    }
}

/// Normalisation is a function of the payload: two payloads with the same
/// content become the same details and the same search results, whenever
/// and wherever they are normalised.
pub proof fn lemma_normalization_is_deterministic(
    first: PodcastPayload,
    second: PodcastPayload,
    hits: SearchResponse,
    same_hits: SearchResponse,
    table: Map<i32, Seq<char>>,
    offset: int,
)
    requires
        first@ == second@,
        hits@ == same_hits@,
    ensures
        details_of(first@, table, offset) == details_of(second@, table, offset),
        search_results_of(hits@) == search_results_of(same_hits@),
{
}

/// The year of an optional date, as a mathematical integer.
pub open spec fn year_of(date: Option<CalendarDate>) -> Option<int> {
    match date {
        Some(d) => Some(d.year as int),
        None => None,
    }
}

/// The search hit that a catalog hit becomes, given the day its timestamp
/// falls on.
pub open spec fn search_item_on(
    hit: PodcastSummaryView,
    date: Option<CalendarDate>,
) -> MediaSearchItemView {
    MediaSearchItemView {
        identifier: hit.id,
        lot: MetadataLot::Podcast,
        title: hit.title_original,
        poster_images: one_or_none(hit.image),
        publish_year: year_of(date),
    }
}

/// The search hit that a catalog hit becomes.
pub open spec fn search_item_of(hit: PodcastSummaryView) -> MediaSearchItemView {
    search_item_on(hit, published_on(hit.publish_date))
}

/// The search results that a catalog response becomes.
pub open spec fn search_results_of(response: SearchResponseView) -> MediaSearchResultsView {
    MediaSearchResultsView {
        total: response.total,
        items: Seq::new(response.results.len(), |i: int| search_item_of(response.results[i])),
    }
}

/// The number of episodes that precede a page: zero for the first page.
pub open spec fn offset_of(episode_number: Option<i32>) -> int {
    match episode_number {
        Some(n) => n as int,
        None => 0,
    }
}

/// The details that a catalog page becomes when `offset` episodes precede
/// it, given the day its timestamp falls on.
pub open spec fn details_on(
    payload: PodcastPayloadView,
    table: Map<i32, Seq<char>>,
    date: Option<CalendarDate>,
    offset: int,
) -> MediaDetailsView {
    MediaDetailsView {
        identifier: payload.id,
        title: payload.title,
        description: payload.description,
        lot: MetadataLot::Podcast,
        creators: Seq::empty(),
        genres: genre_names(payload.genre_ids, table),
        poster_images: one_or_none(payload.image),
        backdrop_images: Seq::empty(),
        publish_year: year_of(date),
        publish_date: date,
        specifics: MediaSpecificsView::Podcast(
            PodcastSpecificsView {
                episodes: numbered_episodes(payload.episodes, offset),
                source: PodcastSource::Listennotes,
                total_episodes: payload.total_episodes,
            },
        ),
    }
}

/// The details that a catalog page becomes when `offset` episodes precede
/// it.
pub open spec fn details_of(
    payload: PodcastPayloadView,
    table: Map<i32, Seq<char>>,
    offset: int,
) -> MediaDetailsView {
    details_on(payload, table, published_on(payload.publish_date), offset)
}

/// Whole minutes in an optional number of seconds, rounded towards zero.
pub fn runtime_minutes(seconds: Option<i32>) -> (minutes: Option<i32>)
    ensures
        int_of(minutes) == minutes_of(int_of(seconds)),
{
    match seconds {
        Some(s) => Some(s / 60),
        None => None,
    }
}

/// Normalises one page of catalog episodes: the episode at position `i`
/// gets the number `offset + i + 1`, and runtimes become minutes.
pub fn number_episodes(episodes: &Vec<PodcastEpisode>, offset: i32) -> (numbered: Vec<
    PodcastEpisode,
>)
    requires
        offset + episodes.len() <= i32::MAX,
    ensures
        numbered.deep_view() == numbered_episodes(episodes.deep_view(), offset as int),
{
    let mut numbered: Vec<PodcastEpisode> = Vec::new();
    let mut i: usize = 0;
    while i < episodes.len()
        invariant
            i <= episodes.len(),
            offset + episodes.len() <= i32::MAX,
            numbered.deep_view() == numbered_episodes(episodes.deep_view(), offset as int).take(
                i as int,
            ),
        decreases episodes.len() - i,
    {
        let raw = &episodes[i];
        let number: i64 = offset as i64 + i as i64 + 1;
        let episode = PodcastEpisode {
            number: number as i32,
            id: raw.id.clone(),
            runtime: runtime_minutes(raw.runtime),
            overview: copy_text(&raw.overview),
            title: raw.title.clone(),
            publish_date: raw.publish_date,
            thumbnail: copy_text(&raw.thumbnail),
        };
        let ghost before = numbered.deep_view();
        assert(episode@ == numbered_episode(raw@, offset as int, i as int));
        numbered.push(episode);
        assert(numbered.deep_view() =~= before.push(
            numbered_episodes(episodes.deep_view(), offset as int)[i as int],
        ));
        i += 1;
        assert(numbered.deep_view() =~= numbered_episodes(
            episodes.deep_view(),
            offset as int,
        ).take(i as int));
    }
    assert(numbered.deep_view() =~= numbered_episodes(episodes.deep_view(), offset as int));
    numbered
}

/// Builds the search hit for one catalog hit, given the day its timestamp
/// falls on.
pub fn search_item(hit: &PodcastSummary, date: Option<CalendarDate>) -> (item: MediaSearchItem)
    ensures
        item@ == search_item_on(hit@, date),
{
    MediaSearchItem {
        identifier: hit.id.clone(),
        lot: MetadataLot::Podcast,
        title: hit.title_original.clone(),
        poster_images: coalesce_image(&hit.image),
        publish_year: match date {
            Some(d) => Some(d.year),
            None => None,
        },
    }
}

/// The catalog adapter for podcasts. It owns the table that names the
/// catalog's genre ids; the table is loaded once and not changed afterwards.
#[derive(Clone, Debug)]
pub struct ListennotesService {
    genres: HashMap<i32, String>,
}

impl ListennotesService {
    /// The genre table: the name of each genre id the catalog defines.
    pub closed spec fn genre_table(&self) -> Map<i32, Seq<char>> {
        genre_table_of(self.genres@)
    }

    /// Makes the adapter around a loaded genre table.
    pub fn new(genres: HashMap<i32, String>) -> (service: Self)
        ensures
            service.genre_table() == genre_table_of(genres@),
    {
        ListennotesService { genres }
    }

    /// The parameters of the request for one page of a podcast search.
    pub fn search_query(query: &str, page: Option<i32>) -> (request: SearchQuery)
        ensures
            request.q@ == query@,
            request.offset == offset_of_page(page),
            request.kind@ == "podcast"@,
    {
        SearchQuery { q: query.to_owned(), offset: page_offset(page), kind: "podcast".to_owned() }
    }

    /// The request for one page of a podcast's details. The first page is
    /// asked for with no cursor, written `null`; a later page with the
    /// publish date of the last episode seen, in decimal.
    pub fn details_query(identifier: &str, next_pub_date: Option<i64>) -> (request: DetailsQuery)
        ensures
            request.path@ == "podcasts/"@ + identifier@,
            request.sort@ == "oldest_first"@,
            match next_pub_date {
                Some(date) => vstd::string::to_string_from_display_ensures::<i64>(
                    &date,
                    request.next_episode_pub_date,
                ),
                None => request.next_episode_pub_date@ == "null"@,
            },
    {
        let cursor = match next_pub_date {
            Some(date) => date.to_string(),
            None => "null".to_owned(),
        };
        DetailsQuery {
            path: "podcasts/".to_owned().concat(identifier),
            sort: "oldest_first".to_owned(),
            next_episode_pub_date: cursor,
        }
    }

    /// Resolves genre ids against the genre table. Ids that the table does
    /// not know are dropped; they are no error.
    pub fn resolve_genres(&self, genre_ids: &Vec<i32>) -> (names: Vec<String>)
        ensures
            names.deep_view() == genre_names(genre_ids@, self.genre_table()),
    {
        let ghost table = self.genre_table();
        let mut names: Vec<String> = Vec::new();
        let mut i: usize = 0;
        assert(genre_ids@.take(0) =~= Seq::<i32>::empty());
        assert(names.deep_view() =~= genre_names(genre_ids@.take(0), table));
        while i < genre_ids.len()
            invariant
                i <= genre_ids.len(),
                table == self.genre_table(),
                names.deep_view() == genre_names(genre_ids@.take(i as int), table),
            decreases genre_ids.len() - i,
        {
            let id = genre_ids[i];
            let ghost before = names.deep_view();
            proof {
                assert(genre_ids@.take(i + 1) =~= genre_ids@.take(i as int).push(id));
                lemma_genre_names_step(genre_ids@.take(i as int), id, table);
            }
            match self.genres.get(&id) {
                Some(name) => {
                    names.push(name.clone());
                    assert(table.contains_key(id) && table[id] == name@);
                    assert(names.deep_view() =~= before.push(name@));
                },
                None => {
                    assert(!table.contains_key(id));
                },
            }
            i += 1;
        }
        assert(genre_ids@.take(genre_ids.len() as int) =~= genre_ids@);
        names
    }

    /// Normalises one page of a podcast search.
    pub fn search(&self, response: &SearchResponse) -> (results: MediaSearchResults)
        ensures
            results@ == search_results_of(response@),
    {
        let mut items: Vec<MediaSearchItem> = Vec::new();
        let mut i: usize = 0;
        while i < response.results.len()
            invariant
                i <= response.results.len(),
                items.deep_view() == search_results_of(response@).items.take(i as int),
            decreases response.results.len() - i,
        {
            let hit = &response.results[i];
            let item = search_item(hit, publish_date(hit.publish_date));
            let ghost before = items.deep_view();
            items.push(item);
            assert(items.deep_view() =~= before.push(search_results_of(response@).items[i as int]));
            i += 1;
            assert(items.deep_view() =~= search_results_of(response@).items.take(i as int));
        }
        assert(items.deep_view() =~= search_results_of(response@).items);
        MediaSearchResults { total: response.total, items }
    }

    /// Normalises one page of a podcast's details, given the day the
    /// podcast's timestamp falls on.
    pub fn details_on_date(
        &self,
        payload: &PodcastPayload,
        date: Option<CalendarDate>,
        episode_number: Option<i32>,
    ) -> (details: MediaDetails)
        requires
            offset_of(episode_number) + payload.episodes.len() <= i32::MAX,
        ensures
            details@ == details_on(payload@, self.genre_table(), date, offset_of(episode_number)),
    {
        let offset: i32 = match episode_number {
            Some(n) => n,
            None => 0,
        };
        let creators: Vec<String> = Vec::new();
        let backdrop_images: Vec<String> = Vec::new();
        assert(creators.deep_view() =~= Seq::<Seq<char>>::empty());
        assert(backdrop_images.deep_view() =~= Seq::<Seq<char>>::empty());
        MediaDetails {
            identifier: payload.id.clone(),
            title: payload.title.clone(),
            description: copy_text(&payload.description),
            lot: MetadataLot::Podcast,
            creators,
            genres: self.resolve_genres(&payload.genre_ids),
            poster_images: coalesce_image(&payload.image),
            backdrop_images,
            publish_year: match date {
                Some(d) => Some(d.year),
                None => None,
            },
            publish_date: date,
            specifics: MediaSpecifics::Podcast(
                PodcastSpecifics {
                    episodes: number_episodes(&payload.episodes, offset),
                    source: PodcastSource::Listennotes,
                    total_episodes: payload.total_episodes,
                },
            ),
        }
    }

    /// Normalises one page of a podcast's details. `episode_number` is the
    /// number of the last episode of the page before, or `None` for the
    /// first page: the episodes of this page are numbered from the next
    /// number on.
    pub fn details_with_paginated_episodes(
        &self,
        payload: &PodcastPayload,
        episode_number: Option<i32>,
    ) -> (details: MediaDetails)
        requires
            offset_of(episode_number) + payload.episodes.len() <= i32::MAX,
        ensures
            details@ == details_of(payload@, self.genre_table(), offset_of(episode_number)),
    {
        self.details_on_date(payload, publish_date(payload.publish_date), episode_number)
    }

    /// Normalises the first page of a podcast's details.
    pub fn details(&self, payload: &PodcastPayload) -> (details: MediaDetails)
        requires
            payload.episodes.len() <= i32::MAX,
        ensures
            details@ == details_of(payload@, self.genre_table(), 0),
    {
        self.details_with_paginated_episodes(payload, None)
    }
}

} // verus!
