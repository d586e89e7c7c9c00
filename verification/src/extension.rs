//! A loaded extension as the host sees it: the declared version, the
//! adapter bound to it, and the four extraction operations.
//!
//! The guest call itself is made by the embedding program, which holds the
//! execution context exclusively for the call. An operation here takes the
//! guest's reply in wire form, `Err` carrying the guest's own message, and
//! gives what the caller of the host receives.

use vstd::prelude::*;
use crate::adapter::{adapter_for, Adapter};
use crate::semver::SemanticVersion;
use crate::since_v0_0_1::{
    decode_episodes_page, decode_filter_categories, decode_series_page, decode_videos,
    decoded_episode_list, decoded_filter_categories, decoded_series_list, decoded_video_list,
    encode_search_filters, encoded_search_filters, WireEpisode, WireFilterCategory,
    WireSearchFilter, WireSeries, WireVideo,
};
use crate::types::{
    views, Episode, ExtractError, FilterCategory, Page, PageView, SearchFilter, Series,
    SeriesVideo,
};

verus! {

/// A loaded extension: a declared version and the adapter bound to it.
#[derive(Debug, Clone, Copy, PartialEq, Eq)]
pub struct WasmExtension {
    version: SemanticVersion,
    adapter: Adapter,
}

/// What the host returns for a failure that the guest reported: the
/// guest's message, unchanged.
pub fn guest_failure(message: &String) -> (e: ExtractError)
    ensures
        e matches ExtractError::Guest(m) && m@ == message@,
{
    ExtractError::Guest(message.clone())
}

impl WasmExtension {
    /// The adapter bound to an extension is the one its declared version
    /// selects.
    #[verifier::type_invariant]
    spec fn bound(self) -> bool {
        adapter_for(self.version) == Some(self.adapter)
    }

    /// The version the module declared.
    pub closed spec fn spec_version(self) -> SemanticVersion {
        self.version
    }

    /// The adapter bound at load time.
    pub closed spec fn spec_adapter(self) -> Adapter {
        self.adapter
    }

    /// Binds a declared version to its adapter. Returns `None` when no
    /// adapter supports the version.
    pub fn bind(version: SemanticVersion) -> (r: Option<WasmExtension>)
        ensures
            match adapter_for(version) {
                Some(adapter) => r matches Some(extension) && extension.spec_version() == version
                    && extension.spec_adapter() == adapter,
                None => r is None,
            },
    {
        match Adapter::for_version(&version) {
            Some(adapter) => Some(WasmExtension { version, adapter }),
            None => None,
        }
    }

    /// The version the module declared.
    pub fn version(&self) -> (v: SemanticVersion)
        ensures
            v == self.spec_version(),
            adapter_for(v) == Some(self.spec_adapter()),
    {
        proof {
            use_type_invariant(self);
        }
        self.version
    }

    /// The adapter bound at load time.
    pub fn adapter(&self) -> (a: Adapter)
        ensures
            a == self.spec_adapter(),
            adapter_for(self.spec_version()) == Some(a),
    {
        proof {
            use_type_invariant(self);
        }
        self.adapter
    }

    /// The filter taxonomy of the extension. A guest failure is passed on
    /// with its message; otherwise every category and filter is returned
    /// unchanged and in order. The empty taxonomy is a valid reply.
    pub fn filters(&self, reply: &Result<Vec<WireFilterCategory>, String>) -> (r: Result<
        Vec<FilterCategory>,
        ExtractError,
    >)
        ensures
            match *reply {
                Err(message) => r matches Err(ExtractError::Guest(m)) && m@ == message@,
                Ok(wire) => r matches Ok(categories) && views(categories@)
                    == decoded_filter_categories(views(wire@)),
            },
    {
        match self.adapter {
            Adapter::V001 => match reply {
                Err(message) => Err(guest_failure(message)),
                Ok(wire) => Ok(decode_filter_categories(wire)),
            },
        }
    }

    /// The search filters of a query in the form the guest takes. They
    /// cross unchanged and in order: unknown identifiers are the guest's to
    /// judge.
    pub fn search_filters(&self, filters: &Vec<SearchFilter>) -> (wire: Vec<WireSearchFilter>)
        ensures
            views(wire@) == encoded_search_filters(views(filters@)),
    {
        match self.adapter {
            Adapter::V001 => encode_search_filters(filters),
        }
    }

    /// The result of a search. A guest failure is passed on with its
    /// message; a reply with a poster that is no URL is undecodable;
    /// otherwise the series are returned in the guest's order with the
    /// next-page hint.
    pub fn search(&self, reply: &Result<Page<WireSeries>, String>) -> (r: Result<
        Page<Series>,
        ExtractError,
    >)
        ensures
            match *reply {
                Err(message) => r matches Err(ExtractError::Guest(m)) && m@ == message@,
                Ok(wire) => match decoded_series_list(wire@.items) {
                    Some(items) => r matches Ok(page) && page@ == (PageView {
                        items,
                        has_next_page: wire.has_next_page,
                    }),
                    None => r matches Err(ExtractError::Decode),
                },
            },
    {
        match self.adapter {
            Adapter::V001 => match reply {
                Err(message) => Err(guest_failure(message)),
                Ok(wire) => decode_series_page(wire),
            },
        }
    }

    /// The episodes of a series. A guest failure is passed on with its
    /// message; a reply with a thumbnail that is no URL is undecodable;
    /// otherwise the episodes are returned in the guest's order with the
    /// next-page hint.
    pub fn get_series_episodes(&self, reply: &Result<Page<WireEpisode>, String>) -> (r: Result<
        Page<Episode>,
        ExtractError,
    >)
        ensures
            match *reply {
                Err(message) => r matches Err(ExtractError::Guest(m)) && m@ == message@,
                Ok(wire) => match decoded_episode_list(wire@.items) {
                    Some(items) => r matches Ok(page) && page@ == (PageView {
                        items,
                        has_next_page: wire.has_next_page,
                    }),
                    None => r matches Err(ExtractError::Decode),
                },
            },
    {
        match self.adapter {
            Adapter::V001 => match reply {
                Err(message) => Err(guest_failure(message)),
                Ok(wire) => decode_episodes_page(wire),
            },
        }
    }

    /// The playable sources of an episode. A guest failure is passed on
    /// with its message; a reply with a source that is no URL is
    /// undecodable; otherwise the sources are returned in the guest's
    /// order. No source at all is a valid reply.
    pub fn get_series_videos(&self, reply: &Result<Vec<WireVideo>, String>) -> (r: Result<
        Vec<SeriesVideo>,
        ExtractError,
    >)
        ensures
            match *reply {
                Err(message) => r matches Err(ExtractError::Guest(m)) && m@ == message@,
                Ok(wire) => match decoded_video_list(views(wire@)) {
                    Some(items) => r matches Ok(videos) && views(videos@) == items,
                    None => r matches Err(ExtractError::Decode),
                },
            },
    {
        match self.adapter {
            Adapter::V001 => match reply {
                Err(message) => Err(guest_failure(message)),
                Ok(wire) => decode_videos(wire),
            },
        }
    }
}

} // verus!
