//! Catalog search

use crate::request::builder::MusicRequestBuilder;
use crate::request::context::{ContextContainer, RequestContext, share};
use crate::request::{FetchResults, prepared, push_parameter, search_endpoint, search_path, sends};
use crate::resource::catalog::activity::Activity;
use crate::resource::catalog::album::Album;
use crate::resource::catalog::artist::Artist;
use crate::resource::catalog::curator::{AppleCurator, Curator};
use crate::resource::catalog::music_video::MusicVideo;
use crate::resource::catalog::playlist::Playlist;
use crate::resource::catalog::record_label::RecordLabel;
use crate::resource::catalog::song::Song;
use crate::resource::catalog::station::Station;
use crate::resource::relationship::Relationship;
use crate::text::{
    Named, decimal, join_names, joined, names, owned, plus_for_spaces, replace_spaces, to_decimal,
};
use crate::{ApiClient, Method, Request};
use std::sync::Arc;
use vstd::prelude::*;

verus! {

/// Catalog search
pub struct CatalogSearch;

impl CatalogSearch {
    /// Catalog search
    pub fn search<'a>() -> (builder: CatalogSearchRequestBuilder<'a>)
        ensures
            builder.is_fresh(),
    {
        CatalogSearchRequestBuilder::default()
    }
}

/// Catalog search request builder marker
pub struct CatalogSearchRequestBuilderMarker;

/// Catalog search request builder
pub type CatalogSearchRequestBuilder<'a> = MusicRequestBuilder<
    'a,
    CatalogSearchRequestBuilderMarker,
>;

impl<'a> CatalogSearchRequestBuilder<'a> {
    /// Search the catalog using a query
    ///
    /// # Params
    ///
    /// * types - types to include in the search results
    ///
    /// * term - The entered text for the search, spaces will automatically get replaced with '+'
    pub fn search(
        self,
        client: &ApiClient,
        types: &[CatalogSearchType],
        term: &str,
    ) -> (fetch: FetchResults<CatalogSearchResults>)
        ensures
            prepared(
                fetch.request,
                fetch.context,
                Method::Get,
                search_endpoint(self.storefront(client), "search"@),
                self.storefront(client),
                self.query(client)
                    .push(("types"@, joined(names(types@), ","@)))
                    .push(("term"@, plus_for_spaces(term@))),
            ),
    {
        let mut builder = self;
        let mut context = builder.get_request_context_drain(client);
        push_parameter(&mut context, "types", join_names(types, ","));
        push_parameter(&mut context, "term", replace_spaces(term));
        let endpoint = search_path(&context.storefront, "search");
        FetchResults::new(client.get(endpoint.as_str()), context)
    }

    /// Get catalog search hints
    ///
    /// # Params
    ///
    /// * term - The entered text for the search, spaces will automatically get replaced with '+'
    ///
    /// * limit - returned hints count limit
    pub fn search_hints(self, client: &ApiClient, term: &str, limit: usize) -> (request: Request)
        ensures
            sends(
                request,
                Method::Get,
                search_endpoint(self.storefront(client), "search/hints"@),
                self.query(client)
                    .push(("limit"@, decimal(limit as nat)))
                    .push(("term"@, plus_for_spaces(term@))),
            ),
    {
        let mut builder = self;
        let mut context = builder.get_request_context_drain(client);
        push_parameter(&mut context, "limit", to_decimal(limit));
        push_parameter(&mut context, "term", replace_spaces(term));
        let endpoint = search_path(&context.storefront, "search/hints");
        client.get(endpoint.as_str()).query(&context.query)
    }

    /// Get catalog search suggestions
    /// # Params
    ///
    /// * term - The entered text for the search, spaces will automatically get replaced with '+'
    ///
    /// * types - types to include in the search results
    ///
    /// * limit - returned hints count limit **(Default value: 5, maximum: 10)**
    pub fn suggestions(
        self,
        client: &ApiClient,
        kinds: &[SuggestionKind],
        types: &[CatalogSearchType],
        term: &str,
        limit: usize,
    ) -> (request: Request)
        ensures
            sends(
                request,
                Method::Get,
                search_endpoint(self.storefront(client), "search/suggestions"@),
                self.query(client)
                    .push(("types"@, joined(names(types@), ","@)))
                    .push(("kinds"@, joined(names(kinds@), ","@)))
                    .push(("term"@, plus_for_spaces(term@)))
                    .push(("limit"@, decimal(limit as nat))),
            ),
    {
        let mut builder = self;
        let mut context = builder.get_request_context_drain(client);
        push_parameter(&mut context, "types", join_names(types, ","));
        push_parameter(&mut context, "kinds", join_names(kinds, ","));
        push_parameter(&mut context, "term", replace_spaces(term));
        push_parameter(&mut context, "limit", to_decimal(limit));
        let endpoint = search_path(&context.storefront, "search/suggestions");
        client.get(endpoint.as_str()).query(&context.query)
    }
}

/// Catalog search results
#[derive(Default, Debug, Clone, PartialEq, Eq, Hash)]
pub struct CatalogSearchResults {
    /// Activities
    pub activities: Relationship<Activity>,
    /// Albums
    pub albums: Relationship<Album>,
    /// Apple curators
    pub apple_curators: Relationship<AppleCurator>,
    /// Curators
    pub curators: Relationship<Curator>,
    /// Artists
    pub artists: Relationship<Artist>,
    /// Music videos
    pub music_videos: Relationship<MusicVideo>,
    /// Playlists
    pub playlists: Relationship<Playlist>,
    /// Record labels
    pub record_labels: Relationship<RecordLabel>,
    /// Songs
    pub songs: Relationship<Song>,
    /// Stations
    pub stations: Relationship<Station>,
}

impl ContextContainer for CatalogSearchResults {
    open spec fn propagated(&self, context: Arc<RequestContext>, after: &Self) -> bool {
        &&& self.activities.propagated(context, &after.activities)
        &&& self.albums.propagated(context, &after.albums)
        &&& self.apple_curators.propagated(context, &after.apple_curators)
        &&& self.curators.propagated(context, &after.curators)
        &&& self.artists.propagated(context, &after.artists)
        &&& self.music_videos.propagated(context, &after.music_videos)
        &&& self.playlists.propagated(context, &after.playlists)
        &&& self.record_labels.propagated(context, &after.record_labels)
        &&& self.songs.propagated(context, &after.songs)
        &&& self.stations.propagated(context, &after.stations)
    }

    fn set_context(&mut self, context: Arc<RequestContext>) {
        self.activities.set_context(share(&context));
        self.albums.set_context(share(&context));
        self.apple_curators.set_context(share(&context));
        self.curators.set_context(share(&context));
        self.artists.set_context(share(&context));
        self.music_videos.set_context(share(&context));
        self.playlists.set_context(share(&context));
        self.record_labels.set_context(share(&context));
        self.songs.set_context(share(&context));
        self.stations.set_context(share(&context));
    }
}

/// Catalog search type
#[derive(Debug, Copy, Clone, PartialEq, Eq, Hash)]
pub enum CatalogSearchType {
    /// Activities
    Activities,
    /// Albums
    Albums,
    /// Apple curators
    AppleCurators,
    /// Curators
    Curators,
    /// Artists
    Artists,
    /// Music videos
    MusicVideos,
    /// Playlists
    Playlists,
    /// Record labels
    RecordLabels,
    /// Songs
    Songs,
    /// Stations
    Stations,
}

impl Named for CatalogSearchType {
    open spec fn name(&self) -> Seq<char> {
        match self {
            CatalogSearchType::Activities => "activities"@,
            CatalogSearchType::Albums => "albums"@,
            CatalogSearchType::AppleCurators => "apple-curators"@,
            CatalogSearchType::Curators => "curators"@,
            CatalogSearchType::Artists => "artists"@,
            CatalogSearchType::MusicVideos => "music-videos"@,
            CatalogSearchType::Playlists => "playlists"@,
            CatalogSearchType::RecordLabels => "record-labels"@,
            CatalogSearchType::Songs => "songs"@,
            CatalogSearchType::Stations => "stations"@,
        }
    }

    fn to_string(&self) -> (name: String) {
        let name = match self {
            CatalogSearchType::Activities => "activities",
            CatalogSearchType::Albums => "albums",
            CatalogSearchType::AppleCurators => "apple-curators",
            CatalogSearchType::Curators => "curators",
            CatalogSearchType::Artists => "artists",
            CatalogSearchType::MusicVideos => "music-videos",
            CatalogSearchType::Playlists => "playlists",
            CatalogSearchType::RecordLabels => "record-labels",
            CatalogSearchType::Songs => "songs",
            CatalogSearchType::Stations => "stations",
        };
        owned(name)
    }
}

/// Catalog search suggestion kind
#[derive(Debug, Copy, Clone, PartialEq, Eq, Hash)]
pub enum SuggestionKind {
    /// Terms
    Terms,
    /// Top results
    TopResults,
}

impl Named for SuggestionKind {
    open spec fn name(&self) -> Seq<char> {
        match self {
            SuggestionKind::Terms => "terms"@,
            SuggestionKind::TopResults => "topResults"@,
        }
    }

    fn to_string(&self) -> (name: String) {
        let name = match self {
            SuggestionKind::Terms => "terms",
            SuggestionKind::TopResults => "topResults",
        };
        owned(name)
    }
}

/// Catalog search suggestion
#[derive(Debug, Clone, PartialEq, Eq, Hash)]
pub struct CatalogSearchSuggestion {
    /// Suggestion kind
    pub kind: SuggestionKind,
    /// Search term
    pub search_term: String,
    /// Display term
    pub display_term: String,
}

} // verus!
