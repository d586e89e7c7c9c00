//! The guest wire contract of the baseline interface: the records that
//! cross the boundary, and how they map to and from the host data model.
//!
//! On the wire a URL is plain text. Decoding parses it and keeps the
//! normalised text; a text that is no URL makes the whole reply undecodable.
//! Everything else crosses unchanged and in order.

use vstd::prelude::*;
use crate::types::{
    clone_headers, clone_text, clone_texts, views, Episode, EpisodeView, ExtractError, Filter,
    FilterCategory, FilterCategoryView, FilterView, Page, PageView, SearchFilter,
    SearchFilterView, Series, SeriesVideo, SeriesVideoView, SeriesView,
};

verus! {

/// A series as the guest returns it.
#[derive(Debug, Clone, PartialEq, Eq)]
pub struct WireSeries {
    pub id: String,
    pub title: String,
    pub poster_url: Option<String>,
    pub synopsis: Option<String>,
    pub kind: Option<String>,
}

/// An episode as the guest returns it.
#[derive(Debug, Clone, PartialEq, Eq)]
pub struct WireEpisode {
    pub id: String,
    pub number: u16,
    pub title: Option<String>,
    pub thumbnail_url: Option<String>,
    pub description: Option<String>,
}

/// A video as the guest hands it over once its request has been resolved.
#[derive(Debug, PartialEq, Eq)]
pub struct WireVideo {
    pub video_url: String,
    pub video_headers: Vec<(String, String)>,
    pub server: String,
    pub resolution: (u16, u16),
}

/// A filter as the guest returns it.
#[derive(Debug, Clone, PartialEq, Eq)]
pub struct WireFilter {
    pub id: String,
    pub display_name: String,
}

/// A filter category as the guest returns it.
#[derive(Debug, Clone, PartialEq, Eq)]
pub struct WireFilterCategory {
    pub id: String,
    pub display_name: String,
    pub filters: Vec<WireFilter>,
}

/// A search filter as the guest takes it.
#[derive(Debug, Clone, PartialEq, Eq)]
pub struct WireSearchFilter {
    pub id: String,
    pub values: Vec<String>,
}

/// What a wire series holds.
pub struct WireSeriesView {
    pub id: Seq<char>,
    pub title: Seq<char>,
    pub poster_url: Option<Seq<char>>,
    pub synopsis: Option<Seq<char>>,
    pub kind: Option<Seq<char>>,
}

/// What a wire episode holds.
pub struct WireEpisodeView {
    pub id: Seq<char>,
    pub number: u16,
    pub title: Option<Seq<char>>,
    pub thumbnail_url: Option<Seq<char>>,
    pub description: Option<Seq<char>>,
}

/// What a wire video holds.
pub struct WireVideoView {
    pub video_url: Seq<char>,
    pub video_headers: Seq<(Seq<char>, Seq<char>)>,
    pub server: Seq<char>,
    pub resolution: (u16, u16),
}

/// What a wire filter holds.
pub struct WireFilterView {
    pub id: Seq<char>,
    pub display_name: Seq<char>,
}

/// What a wire filter category holds.
pub struct WireFilterCategoryView {
    pub id: Seq<char>,
    pub display_name: Seq<char>,
    pub filters: Seq<WireFilterView>,
}

/// What a wire search filter holds.
pub struct WireSearchFilterView {
    pub id: Seq<char>,
    pub values: Seq<Seq<char>>,
}

impl View for WireSeries {
    type V = WireSeriesView;

    open spec fn view(&self) -> WireSeriesView {
        WireSeriesView {
            id: self.id@,
            title: self.title@,
            poster_url: self.poster_url.deep_view(),
            synopsis: self.synopsis.deep_view(),
            kind: self.kind.deep_view(),
        }
    }
}

impl View for WireEpisode {
    type V = WireEpisodeView;

    open spec fn view(&self) -> WireEpisodeView {
        WireEpisodeView {
            id: self.id@,
            number: self.number,
            title: self.title.deep_view(),
            thumbnail_url: self.thumbnail_url.deep_view(),
            description: self.description.deep_view(),
        }
    }
}

impl View for WireVideo {
    type V = WireVideoView;

    open spec fn view(&self) -> WireVideoView {
        WireVideoView {
            video_url: self.video_url@,
            video_headers: self.video_headers.deep_view(),
            server: self.server@,
            resolution: self.resolution,
        }
    }
}

impl View for WireFilter {
    type V = WireFilterView;

    open spec fn view(&self) -> WireFilterView {
        WireFilterView { id: self.id@, display_name: self.display_name@ }
    }
}

impl View for WireFilterCategory {
    type V = WireFilterCategoryView;

    open spec fn view(&self) -> WireFilterCategoryView {
        WireFilterCategoryView {
            id: self.id@,
            display_name: self.display_name@,
            filters: views(self.filters@),
        }
    }
}

impl View for WireSearchFilter {
    type V = WireSearchFilterView;

    open spec fn view(&self) -> WireSearchFilterView {
        WireSearchFilterView { id: self.id@, values: self.values.deep_view() }
    }
}

/// What parsing a text as an absolute URL gives: the normalised text of
/// the URL, or `None` where the text is no URL.
pub uninterp spec fn parsed_url(text: Seq<char>) -> Option<Seq<char>>;

/// Calls `url::Url::parse` and hands back the serialisation of the URL it
/// built. The contract only names the outcome: it is `parsed_url` of the
/// text, `None` standing for every parse error.
#[verifier::external_body]
fn parse_url(text: &str) -> (r: Option<String>)
    ensures
        r.deep_view() == parsed_url(text@),
{
    match url::Url::parse(text) {
        Ok(parsed) => Some(String::from(parsed)),
        Err(_) => None,
    }
}

/// A wire URL that may be absent, decoded: `None` when it is present and
/// no URL.
pub open spec fn decoded_optional_url(text: Option<Seq<char>>) -> Option<Option<Seq<char>>> {
    match text {
        None => Some(None),
        Some(t) => match parsed_url(t) {
            Some(url) => Some(Some(url)),
            None => None,
        },
    }
}

/// A wire series decoded: the same fields, with its poster URL parsed.
pub open spec fn decoded_series(wire: WireSeriesView) -> Option<SeriesView> {
    match decoded_optional_url(wire.poster_url) {
        Some(poster_url) => Some(
            SeriesView {
                id: wire.id,
                title: wire.title,
                poster_url,
                synopsis: wire.synopsis,
                kind: wire.kind,
            },
        ),
        None => None,
    }
}

/// A wire episode decoded: the same fields, with its thumbnail URL parsed.
pub open spec fn decoded_episode(wire: WireEpisodeView) -> Option<EpisodeView> {
    match decoded_optional_url(wire.thumbnail_url) {
        Some(thumbnail_url) => Some(
            EpisodeView {
                id: wire.id,
                number: wire.number,
                title: wire.title,
                thumbnail_url,
                description: wire.description,
            },
        ),
        None => None,
    }
}

/// A wire video decoded: the same fields, with its URL parsed.
pub open spec fn decoded_video(wire: WireVideoView) -> Option<SeriesVideoView> {
    match parsed_url(wire.video_url) {
        Some(video_url) => Some(
            SeriesVideoView {
                video_url,
                video_headers: wire.video_headers,
                server: wire.server,
                resolution: wire.resolution,
            },
        ),
        None => None,
    }
}

/// A wire filter decoded: the same identifier and display name.
pub open spec fn decoded_filter(wire: WireFilterView) -> FilterView {
    FilterView { id: wire.id, display_name: wire.display_name }
}

/// A wire filter category decoded: the same identifier and display name,
/// and its filters decoded in order.
pub open spec fn decoded_filter_category(wire: WireFilterCategoryView) -> FilterCategoryView {
    FilterCategoryView {
        id: wire.id,
        display_name: wire.display_name,
        filters: Seq::new(wire.filters.len(), |i: int| decoded_filter(wire.filters[i])),
    }
}

/// A filter taxonomy decoded: its categories decoded in order.
pub open spec fn decoded_filter_categories(wire: Seq<WireFilterCategoryView>) -> Seq<
    FilterCategoryView,
> {
    Seq::new(wire.len(), |i: int| decoded_filter_category(wire[i]))
}

/// A search filter encoded: the same identifier and the same values.
pub open spec fn encoded_search_filter(filter: SearchFilterView) -> WireSearchFilterView {
    WireSearchFilterView { id: filter.id, values: filter.values }
}

/// The search filters of a query encoded, in order.
pub open spec fn encoded_search_filters(filters: Seq<SearchFilterView>) -> Seq<
    WireSearchFilterView,
> {
    Seq::new(filters.len(), |i: int| encoded_search_filter(filters[i]))
}

/// A list of wire series decoded item by item: the decoded items in the
/// same order, or `None` when some item does not decode.
pub open spec fn decoded_series_list(items: Seq<WireSeriesView>) -> Option<Seq<SeriesView>> {
    if forall|i: int| 0 <= i < items.len() ==> decoded_series(#[trigger] items[i]) is Some {
        Some(Seq::new(items.len(), |i: int| decoded_series(items[i])->0))
    } else {
        None
    }
}

/// A list of wire episodes decoded item by item: the decoded items in the
/// same order, or `None` when some item does not decode.
pub open spec fn decoded_episode_list(items: Seq<WireEpisodeView>) -> Option<Seq<EpisodeView>> {
    if forall|i: int| 0 <= i < items.len() ==> decoded_episode(#[trigger] items[i]) is Some {
        Some(Seq::new(items.len(), |i: int| decoded_episode(items[i])->0))
    } else {
        None
    }
}

/// A list of wire videos decoded item by item: the decoded items in the
/// same order, or `None` when some item does not decode.
pub open spec fn decoded_video_list(items: Seq<WireVideoView>) -> Option<Seq<SeriesVideoView>> {
    if forall|i: int| 0 <= i < items.len() ==> decoded_video(#[trigger] items[i]) is Some {
        Some(Seq::new(items.len(), |i: int| decoded_video(items[i])->0))
    } else {
        None
    }
}

/// Decoding keeps the number and the order of the items: where a list
/// decodes, the item at each position of the result is the decoding of the
/// item at that position of the list.
pub proof fn lemma_decoding_keeps_order(
    series: Seq<WireSeriesView>,
    episodes: Seq<WireEpisodeView>,
    videos: Seq<WireVideoView>,
)
    ensures
        decoded_series_list(series) matches Some(decoded) ==> decoded.len() == series.len()
            && forall|i: int|
            0 <= i < series.len() ==> decoded_series(series[i]) == Some(#[trigger] decoded[i]),
        decoded_episode_list(episodes) matches Some(decoded) ==> decoded.len() == episodes.len()
            && forall|i: int|
            0 <= i < episodes.len() ==> decoded_episode(episodes[i]) == Some(
                #[trigger] decoded[i],
            ),
        decoded_video_list(videos) matches Some(decoded) ==> decoded.len() == videos.len()
            && forall|i: int|
            0 <= i < videos.len() ==> decoded_video(videos[i]) == Some(#[trigger] decoded[i]),
{
}

/// The empty list decodes, to the empty list.
pub proof fn lemma_empty_list_decodes()
    ensures
        decoded_series_list(Seq::empty()) == Some(Seq::<SeriesView>::empty()),
        decoded_episode_list(Seq::empty()) == Some(Seq::<EpisodeView>::empty()),
        decoded_video_list(Seq::empty()) == Some(Seq::<SeriesVideoView>::empty()),
        decoded_filter_categories(Seq::empty()) == Seq::<FilterCategoryView>::empty(),
        encoded_search_filters(Seq::empty()) == Seq::<WireSearchFilterView>::empty(),
{
    assert(decoded_series_list(Seq::empty())->0 =~= Seq::<SeriesView>::empty());
    assert(decoded_episode_list(Seq::empty())->0 =~= Seq::<EpisodeView>::empty());
    assert(decoded_video_list(Seq::empty())->0 =~= Seq::<SeriesVideoView>::empty());
    assert(decoded_filter_categories(Seq::empty()) =~= Seq::<FilterCategoryView>::empty());
    assert(encoded_search_filters(Seq::empty()) =~= Seq::<WireSearchFilterView>::empty());
}

/// A record without a URL always decodes, and a list of such records
/// decodes whole.
pub proof fn lemma_records_without_urls_decode(
    series: Seq<WireSeriesView>,
    episodes: Seq<WireEpisodeView>,
)
    requires
        forall|i: int| 0 <= i < series.len() ==> (#[trigger] series[i]).poster_url is None,
        forall|i: int| 0 <= i < episodes.len() ==> (#[trigger] episodes[i]).thumbnail_url is None,
    ensures
        decoded_series_list(series) is Some,
        decoded_episode_list(episodes) is Some,
{
}

/// What the host sends and what it receives keep identifiers and display
/// names exactly. An encoded search filter has the identifier and the
/// values of the filter. When the guest answers with categories that carry
/// those identifiers, one category for each filter in order, the decoded
/// categories carry the identifiers of the filters, and every display name
/// and every filter in them is the one the guest gave.
pub proof fn lemma_filters_round_trip(
    filters: Seq<SearchFilterView>,
    echoed: Seq<WireFilterCategoryView>,
)
    requires
        echoed.len() == filters.len(),
        forall|i: int|
            0 <= i < filters.len() ==> (#[trigger] echoed[i]).id == encoded_search_filters(
                filters,
            )[i].id,
    ensures
        encoded_search_filters(filters).len() == filters.len(),
        forall|i: int|
            0 <= i < filters.len() ==> (#[trigger] encoded_search_filters(filters)[i]).id
                == filters[i].id && encoded_search_filters(filters)[i].values == filters[i].values,
        decoded_filter_categories(echoed).len() == filters.len(),
        forall|i: int|
            0 <= i < filters.len() ==> {
                let category = #[trigger] decoded_filter_categories(echoed)[i];
                &&& category.id == filters[i].id
                &&& category.display_name == echoed[i].display_name
                &&& category.filters.len() == echoed[i].filters.len()
                &&& forall|j: int|
                    0 <= j < category.filters.len() ==> (#[trigger] category.filters[j]).id
                        == echoed[i].filters[j].id && category.filters[j].display_name
                        == echoed[i].filters[j].display_name
            },
{
}

/// Turns the outcome of parsing a URL into the outcome of decoding it.
pub fn url_outcome(parsed: Option<String>) -> (r: Result<String, ExtractError>)
    ensures
        match parsed {
            Some(url) => r matches Ok(text) && text@ == url@,
            None => r matches Err(ExtractError::Decode),
        },
{
    match parsed {
        Some(url) => Ok(url),
        None => Err(ExtractError::Decode),
    }
}

/// Decodes a wire URL.
pub fn decode_url(text: &str) -> (r: Result<String, ExtractError>)
    ensures
        match parsed_url(text@) {
            Some(url) => r matches Ok(decoded) && decoded@ == url,
            None => r matches Err(ExtractError::Decode),
        },
{
    url_outcome(parse_url(text))
}

/// Decodes a wire URL that may be absent. Absence is kept.
pub fn decode_optional_url(text: &Option<String>) -> (r: Result<Option<String>, ExtractError>)
    ensures
        match decoded_optional_url(text.deep_view()) {
            Some(url) => r matches Ok(decoded) && decoded.deep_view() == url,
            None => r matches Err(ExtractError::Decode),
        },
{
    match text {
        None => Ok(None),
        Some(t) => match decode_url(t.as_str()) {
            Ok(url) => Ok(Some(url)),
            Err(e) => Err(e),
        },
    }
}

/// Decodes one series.
pub fn decode_series(wire: &WireSeries) -> (r: Result<Series, ExtractError>)
    ensures
        match decoded_series(wire@) {
            Some(series) => r matches Ok(decoded) && decoded@ == series,
            None => r matches Err(ExtractError::Decode),
        },
{
    match decode_optional_url(&wire.poster_url) {
        Ok(poster_url) => Ok(
            Series {
                id: wire.id.clone(),
                title: wire.title.clone(),
                poster_url,
                synopsis: clone_text(&wire.synopsis),
                kind: clone_text(&wire.kind),
            },
        ),
        Err(e) => Err(e),
    }
}

/// Decodes one episode.
pub fn decode_episode(wire: &WireEpisode) -> (r: Result<Episode, ExtractError>)
    ensures
        match decoded_episode(wire@) {
            Some(episode) => r matches Ok(decoded) && decoded@ == episode,
            None => r matches Err(ExtractError::Decode),
        },
{
    match decode_optional_url(&wire.thumbnail_url) {
        Ok(thumbnail_url) => Ok(
            Episode {
                id: wire.id.clone(),
                number: wire.number,
                title: clone_text(&wire.title),
                thumbnail_url,
                description: clone_text(&wire.description),
            },
        ),
        Err(e) => Err(e),
    }
}

/// Decodes one video.
pub fn decode_video(wire: &WireVideo) -> (r: Result<SeriesVideo, ExtractError>)
    ensures
        match decoded_video(wire@) {
            Some(video) => r matches Ok(decoded) && decoded@ == video,
            None => r matches Err(ExtractError::Decode),
        },
{
    match decode_url(wire.video_url.as_str()) {
        Ok(video_url) => Ok(
            SeriesVideo {
                video_url,
                video_headers: clone_headers(&wire.video_headers),
                server: wire.server.clone(),
                resolution: (wire.resolution.0, wire.resolution.1),
            },
        ),
        Err(e) => Err(e),
    }
}

/// Decodes a list of series, keeping order.
pub fn decode_series_list(wire: &Vec<WireSeries>) -> (r: Result<Vec<Series>, ExtractError>)
    ensures
        match decoded_series_list(views(wire@)) {
            Some(items) => r matches Ok(decoded) && views(decoded@) == items,
            None => r matches Err(ExtractError::Decode),
        },
{
    let mut items: Vec<Series> = Vec::new();
    let mut pos: usize = 0;
    while pos < wire.len()
        invariant
            pos <= wire.len(),
            items@.len() == pos,
            forall|i: int|
                0 <= i < pos ==> decoded_series(wire@[i]@) == Some(#[trigger] items@[i]@),
        decreases wire.len() - pos,
    {
        match decode_series(&wire[pos]) {
            Ok(series) => {
                items.push(series);
            },
            Err(e) => {
                assert(decoded_series(views(wire@)[pos as int]) is None);
                return Err(e);
            },
        }
        pos = pos + 1;
    }
    proof {
        assert forall|i: int| 0 <= i < wire@.len() implies decoded_series(
            #[trigger] views(wire@)[i],
        ) is Some by {
            assert(decoded_series(wire@[i]@) == Some(items@[i]@));
        }
        assert(views(items@) =~= decoded_series_list(views(wire@))->0);
    }
    Ok(items)
}

/// Decodes a list of episodes, keeping order.
pub fn decode_episode_list(wire: &Vec<WireEpisode>) -> (r: Result<Vec<Episode>, ExtractError>)
    ensures
        match decoded_episode_list(views(wire@)) {
            Some(items) => r matches Ok(decoded) && views(decoded@) == items,
            None => r matches Err(ExtractError::Decode),
        },
{
    let mut items: Vec<Episode> = Vec::new();
    let mut pos: usize = 0;
    while pos < wire.len()
        invariant
            pos <= wire.len(),
            items@.len() == pos,
            forall|i: int|
                0 <= i < pos ==> decoded_episode(wire@[i]@) == Some(#[trigger] items@[i]@),
        decreases wire.len() - pos,
    {
        match decode_episode(&wire[pos]) {
            Ok(episode) => {
                items.push(episode);
            },
            Err(e) => {
                assert(decoded_episode(views(wire@)[pos as int]) is None);
                return Err(e);
            },
        }
        pos = pos + 1;
    }
    proof {
        assert forall|i: int| 0 <= i < wire@.len() implies decoded_episode(
            #[trigger] views(wire@)[i],
        ) is Some by {
            assert(decoded_episode(wire@[i]@) == Some(items@[i]@));
        }
        assert(views(items@) =~= decoded_episode_list(views(wire@))->0);
    }
    Ok(items)
}

/// Decodes a list of videos, keeping order. The empty list decodes to the
/// empty list.
pub fn decode_videos(wire: &Vec<WireVideo>) -> (r: Result<Vec<SeriesVideo>, ExtractError>)
    ensures
        match decoded_video_list(views(wire@)) {
            Some(items) => r matches Ok(decoded) && views(decoded@) == items,
            None => r matches Err(ExtractError::Decode),
        },
{
    let mut items: Vec<SeriesVideo> = Vec::new();
    let mut pos: usize = 0;
    while pos < wire.len()
        invariant
            pos <= wire.len(),
            items@.len() == pos,
            forall|i: int|
                0 <= i < pos ==> decoded_video(wire@[i]@) == Some(#[trigger] items@[i]@),
        decreases wire.len() - pos,
    {
        match decode_video(&wire[pos]) {
            Ok(video) => {
                items.push(video);
            },
            Err(e) => {
                assert(decoded_video(views(wire@)[pos as int]) is None);
                return Err(e);
            },
        }
        pos = pos + 1;
    }
    proof {
        assert forall|i: int| 0 <= i < wire@.len() implies decoded_video(
            #[trigger] views(wire@)[i],
        ) is Some by {
            assert(decoded_video(wire@[i]@) == Some(items@[i]@));
        }
        assert(views(items@) =~= decoded_video_list(views(wire@))->0);
    }
    Ok(items)
}

/// Decodes a page of series, keeping order and the next-page hint.
pub fn decode_series_page(wire: &Page<WireSeries>) -> (r: Result<Page<Series>, ExtractError>)
    ensures
        match decoded_series_list(wire@.items) {
            Some(items) => r matches Ok(page) && page@ == (PageView {
                items,
                has_next_page: wire.has_next_page,
            }),
            None => r matches Err(ExtractError::Decode),
        },
{
    match decode_series_list(&wire.items) {
        Ok(items) => Ok(Page { items, has_next_page: wire.has_next_page }),
        Err(e) => Err(e),
    }
}

/// Decodes a page of episodes, keeping order and the next-page hint.
pub fn decode_episodes_page(wire: &Page<WireEpisode>) -> (r: Result<
    Page<Episode>,
    ExtractError,
>)
    ensures
        match decoded_episode_list(wire@.items) {
            Some(items) => r matches Ok(page) && page@ == (PageView {
                items,
                has_next_page: wire.has_next_page,
            }),
            None => r matches Err(ExtractError::Decode),
        },
{
    match decode_episode_list(&wire.items) {
        Ok(items) => Ok(Page { items, has_next_page: wire.has_next_page }),
        Err(e) => Err(e),
    }
}

/// Decodes a filter. Identifier and display name cross unchanged.
pub fn decode_filter(wire: &WireFilter) -> (filter: Filter)
    ensures
        filter@ == decoded_filter(wire@),
{
    Filter { id: wire.id.clone(), display_name: wire.display_name.clone() }
}

/// Decodes a filter category. Identifiers and display names cross
/// unchanged, and the filters keep their order.
pub fn decode_filter_category(wire: &WireFilterCategory) -> (category: FilterCategory)
    ensures
        category@ == decoded_filter_category(wire@),
{
    let mut filters: Vec<Filter> = Vec::new();
    let mut pos: usize = 0;
    while pos < wire.filters.len()
        invariant
            pos <= wire.filters.len(),
            filters@.len() == pos,
            forall|i: int|
                0 <= i < pos ==> (#[trigger] filters@[i])@ == decoded_filter(wire.filters@[i]@),
        decreases wire.filters.len() - pos,
    {
        filters.push(decode_filter(&wire.filters[pos]));
        pos = pos + 1;
    }
    assert(views(filters@) =~= decoded_filter_category(wire@).filters);
    FilterCategory { id: wire.id.clone(), display_name: wire.display_name.clone(), filters }
}

/// Decodes the filter taxonomy. The empty list decodes to the empty list.
pub fn decode_filter_categories(wire: &Vec<WireFilterCategory>) -> (categories: Vec<
    FilterCategory,
>)
    ensures
        views(categories@) == decoded_filter_categories(views(wire@)),
{
    let mut categories: Vec<FilterCategory> = Vec::new();
    let mut pos: usize = 0;
    while pos < wire.len()
        invariant
            pos <= wire.len(),
            categories@.len() == pos,
            forall|i: int|
                0 <= i < pos ==> (#[trigger] categories@[i])@ == decoded_filter_category(
                    wire@[i]@,
                ),
        decreases wire.len() - pos,
    {
        categories.push(decode_filter_category(&wire[pos]));
        pos = pos + 1;
    }
    assert(views(categories@) =~= decoded_filter_categories(views(wire@)));
    categories
}

/// Encodes a search filter. Identifier and values cross unchanged: the
/// host does not interpret them.
pub fn encode_search_filter(filter: &SearchFilter) -> (wire: WireSearchFilter)
    ensures
        wire@ == encoded_search_filter(filter@),
{
    WireSearchFilter { id: filter.id.clone(), values: clone_texts(&filter.values) }
}

/// Encodes the search filters of a query, keeping order.
pub fn encode_search_filters(filters: &Vec<SearchFilter>) -> (wire: Vec<WireSearchFilter>)
    ensures
        views(wire@) == encoded_search_filters(views(filters@)),
{
    let mut wire: Vec<WireSearchFilter> = Vec::new();
    let mut pos: usize = 0;
    while pos < filters.len()
        invariant
            pos <= filters.len(),
            wire@.len() == pos,
            forall|i: int|
                0 <= i < pos ==> (#[trigger] wire@[i])@ == encoded_search_filter(filters@[i]@),
        decreases filters.len() - pos,
    {
        wire.push(encode_search_filter(&filters[pos]));
        pos = pos + 1;
    }
    assert(views(wire@) =~= encoded_search_filters(views(filters@)));
    wire
}

} // verus!
