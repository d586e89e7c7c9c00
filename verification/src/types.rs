//! Host-side domain data model.
//!
//! Every value here is owned by the host once decoded. Identifiers are
//! opaque strings scoped to the extension that produced them. A URL is held
//! as the text of a parsed, normalised URL.

use vstd::prelude::*;

verus! {

/// An envelope of items in extraction order, with a hint that more follow.
#[derive(Debug, Clone, PartialEq, Eq)]
pub struct Page<T> {
    pub items: Vec<T>,
    pub has_next_page: bool,
}

/// A page of search results.
pub type SeriesPage = Page<Series>;

/// A page of the episodes of a series.
pub type EpisodesPage = Page<Episode>;

/// A series as an extension lists it.
#[derive(Debug, Clone, PartialEq, Eq)]
pub struct Series {
    pub id: String,
    pub title: String,
    pub poster_url: Option<String>,
    pub synopsis: Option<String>,
    pub kind: Option<String>,
}

/// An episode of a series.
#[derive(Debug, Clone, PartialEq, Eq)]
pub struct Episode {
    pub id: String,
    pub number: u16,
    pub title: Option<String>,
    pub thumbnail_url: Option<String>,
    pub description: Option<String>,
}

/// A playable source of an episode: where it is, the request headers it
/// needs in order, the server it comes from, and its width and height.
#[derive(Debug, PartialEq, Eq)]
pub struct SeriesVideo {
    pub video_url: String,
    pub video_headers: Vec<(String, String)>,
    pub server: String,
    pub resolution: (u16, u16),
}

/// One choice within a filter category.
#[derive(Debug, Clone, PartialEq, Eq)]
pub struct Filter {
    pub id: String,
    pub display_name: String,
}

/// A group of filters that an extension offers for its searches.
#[derive(Debug, Clone, PartialEq, Eq)]
pub struct FilterCategory {
    pub id: String,
    pub display_name: String,
    pub filters: Vec<Filter>,
}

/// The values selected in one filter category for a search.
#[derive(Debug, Clone, PartialEq, Eq)]
pub struct SearchFilter {
    pub id: String,
    pub values: Vec<String>,
}

/// Why an extraction call failed.
#[derive(Debug, Clone, PartialEq, Eq)]
pub enum ExtractError {
    /// The guest reported a failure of its own, with its message.
    Guest(String),
    /// The guest returned data that does not fit the data model.
    Decode,
}

/// What a page holds: the items' values in order, and the hint.
pub struct PageView<V> {
    pub items: Seq<V>,
    pub has_next_page: bool,
}

/// What a series holds.
pub struct SeriesView {
    pub id: Seq<char>,
    pub title: Seq<char>,
    pub poster_url: Option<Seq<char>>,
    pub synopsis: Option<Seq<char>>,
    pub kind: Option<Seq<char>>,
}

/// What an episode holds.
pub struct EpisodeView {
    pub id: Seq<char>,
    pub number: u16,
    pub title: Option<Seq<char>>,
    pub thumbnail_url: Option<Seq<char>>,
    pub description: Option<Seq<char>>,
}

/// What a video holds.
pub struct SeriesVideoView {
    pub video_url: Seq<char>,
    pub video_headers: Seq<(Seq<char>, Seq<char>)>,
    pub server: Seq<char>,
    pub resolution: (u16, u16),
}

/// What a filter holds.
pub struct FilterView {
    pub id: Seq<char>,
    pub display_name: Seq<char>,
}

/// What a filter category holds: its filters by their values, in order.
pub struct FilterCategoryView {
    pub id: Seq<char>,
    pub display_name: Seq<char>,
    pub filters: Seq<FilterView>,
}

/// What a search filter holds.
pub struct SearchFilterView {
    pub id: Seq<char>,
    pub values: Seq<Seq<char>>,
}

/// The values of a sequence of items, in order.
pub open spec fn views<T: View>(items: Seq<T>) -> Seq<T::V> {
    items.map_values(|item: T| item@)
}

impl<T: View> View for Page<T> {
    type V = PageView<T::V>;

    open spec fn view(&self) -> PageView<T::V> {
        PageView { items: views(self.items@), has_next_page: self.has_next_page }
    }
}

impl View for Series {
    type V = SeriesView;

    open spec fn view(&self) -> SeriesView {
        SeriesView {
            id: self.id@,
            title: self.title@,
            poster_url: self.poster_url.deep_view(),
            synopsis: self.synopsis.deep_view(),
            kind: self.kind.deep_view(),
        }
    }
}

impl View for Episode {
    type V = EpisodeView;

    open spec fn view(&self) -> EpisodeView {
        EpisodeView {
            id: self.id@,
            number: self.number,
            title: self.title.deep_view(),
            thumbnail_url: self.thumbnail_url.deep_view(),
            description: self.description.deep_view(),
        }
    }
}

impl View for SeriesVideo {
    type V = SeriesVideoView;

    open spec fn view(&self) -> SeriesVideoView {
        SeriesVideoView {
            video_url: self.video_url@,
            video_headers: self.video_headers.deep_view(),
            server: self.server@,
            resolution: self.resolution,
        }
    }
}

impl Clone for SeriesVideo {
    fn clone(&self) -> (copy: SeriesVideo)
        ensures
            copy@ == self@,
    {
        SeriesVideo {
            video_url: self.video_url.clone(),
            video_headers: clone_headers(&self.video_headers),
            server: self.server.clone(),
            resolution: (self.resolution.0, self.resolution.1),
        }
    }
}

impl View for Filter {
    type V = FilterView;

    open spec fn view(&self) -> FilterView {
        FilterView { id: self.id@, display_name: self.display_name@ }
    }
}

impl View for FilterCategory {
    type V = FilterCategoryView;

    open spec fn view(&self) -> FilterCategoryView {
        FilterCategoryView {
            id: self.id@,
            display_name: self.display_name@,
            filters: views(self.filters@),
        }
    }
}

impl View for SearchFilter {
    type V = SearchFilterView;

    open spec fn view(&self) -> SearchFilterView {
        SearchFilterView { id: self.id@, values: self.values.deep_view() }
    }
}

/// Copies an optional text.
pub fn clone_text(text: &Option<String>) -> (copy: Option<String>)
    ensures
        copy == *text,
{
    match text {
        Some(t) => Some(t.clone()),
        None => None,
    }
}

/// Copies a list of texts, in order.
pub fn clone_texts(texts: &Vec<String>) -> (copy: Vec<String>)
    ensures
        copy.deep_view() == texts.deep_view(),
{
    let mut copy: Vec<String> = Vec::new();
    let mut pos: usize = 0;
    while pos < texts.len()
        invariant
            pos <= texts.len(),
            copy@.len() == pos,
            forall|i: int| 0 <= i < pos ==> #[trigger] copy@[i] == texts@[i],
        decreases texts.len() - pos,
    {
        copy.push(texts[pos].clone());
        pos = pos + 1;
    }
    assert(copy.deep_view() =~= texts.deep_view());
    copy
}

/// Copies a list of name and value pairs, in order.
pub fn clone_headers(headers: &Vec<(String, String)>) -> (copy: Vec<(String, String)>)
    ensures
        copy.deep_view() == headers.deep_view(),
{
    let mut copy: Vec<(String, String)> = Vec::new();
    let mut pos: usize = 0;
    while pos < headers.len()
        invariant
            pos <= headers.len(),
            copy@.len() == pos,
            forall|i: int| 0 <= i < pos ==> #[trigger] copy@[i] == headers@[i],
        decreases headers.len() - pos,
    {
        let name = headers[pos].0.clone();
        let value = headers[pos].1.clone();
        copy.push((name, value));
        pos = pos + 1;
    }
    assert(copy.deep_view() =~= headers.deep_view());
    copy
}

} // verus!
