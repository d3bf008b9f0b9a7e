//! History implementation

use crate::ApiClient;
use crate::primitive::TrackType;
use crate::request::builder::MusicRequestBuilder;
use crate::request::fields::query_view;
use crate::request::paginated::{Paginator, Progress, paginate};
use crate::request::push_parameter;
use crate::resource::Resource;
use crate::text::{decimal, join_names, joined, names, owned, to_decimal};
use vstd::prelude::*;

verus! {

/// History
pub struct History;

impl History {
    /// Get history request builder
    pub fn get<'a>() -> (builder: HistoryGetRequestBuilder<'a>)
        ensures
            builder.is_fresh(),
    {
        HistoryGetRequestBuilder::default()
    }
}

/// History request builder
pub struct HistoryRequestBuilder;

/// History get request builder
pub type HistoryGetRequestBuilder<'a> = MusicRequestBuilder<'a, HistoryRequestBuilder>;

impl<'a> HistoryGetRequestBuilder<'a> {
    /// Fetch heavy rotation content
    ///
    /// # Params
    ///
    /// * limit - limit of entries per query
    ///
    /// * offset - query offset
    ///
    /// Possible resources: any
    pub fn heavy_rotation(
        self,
        client: &ApiClient,
        limit: usize,
        offset: usize,
    ) -> (pages: Paginator<Resource>)
        ensures
            pages.endpoint() == "/v1/me/history/heavy-rotation"@,
            pages.context().storefront == self.storefront(client),
            query_view(pages.context().query@) == self.query(client).push(
                ("limit"@, decimal(limit as nat)),
            ),
            pages@ == (Progress { offset: offset as nat, finished: false }),
    {
        let mut builder = self;
        let mut context = builder.get_request_context_drain(client);
        push_parameter(&mut context, "limit", to_decimal(limit));
        let endpoint = owned("/v1/me/history/heavy-rotation");
        paginate(endpoint, context, offset)
    }

    /// Fetch recently played resources
    ///
    /// # Params
    ///
    /// * limit - limit of entries per query
    ///
    /// * offset - query offset
    ///
    /// Possible resources: any
    pub fn recently_played(
        self,
        client: &ApiClient,
        limit: usize,
        offset: usize,
    ) -> (pages: Paginator<Resource>)
        ensures
            pages.endpoint() == "/v1/me/recent/played"@,
            pages.context().storefront == self.storefront(client),
            query_view(pages.context().query@) == self.query(client).push(
                ("limit"@, decimal(limit as nat)),
            ),
            pages@ == (Progress { offset: offset as nat, finished: false }),
    {
        let mut builder = self;
        let mut context = builder.get_request_context_drain(client);
        push_parameter(&mut context, "limit", to_decimal(limit));
        let endpoint = owned("/v1/me/recent/played");
        paginate(endpoint, context, offset)
    }

    /// Fetch recently played tracks
    ///
    /// # Params
    ///
    /// * limit - limit of entries per query
    ///
    /// * offset - query offset
    ///
    /// Possible resources: [`LibraryMusicVideo`], [`LibrarySong`], [`MusicVideo`], [`Song`]
    pub fn recently_played_tracks(
        self,
        client: &ApiClient,
        tracks: &[TrackType],
        limit: usize,
        offset: usize,
    ) -> (pages: Paginator<Resource>)
        ensures
            pages.endpoint() == "/v1/me/recent/played/tracks"@,
            pages.context().storefront == self.storefront(client),
            query_view(pages.context().query@) == self.query(client)
                    .push(("limit"@, decimal(limit as nat)))
                    .push(("types"@, joined(names(tracks@), ","@))),
            pages@ == (Progress { offset: offset as nat, finished: false }),
    {
        let mut builder = self;
        let mut context = builder.get_request_context_drain(client);
        push_parameter(&mut context, "limit", to_decimal(limit));
        push_parameter(&mut context, "types", join_names(tracks, ","));
        let endpoint = owned("/v1/me/recent/played/tracks");
        paginate(endpoint, context, offset)
    }

    /// Fetch recently played radio stations
    ///
    /// # Params
    ///
    /// * limit - limit of entries per query
    ///
    /// * offset - query offset
    ///
    /// Possible resources: [`Station`]
    pub fn recently_played_stations(
        self,
        client: &ApiClient,
        limit: usize,
        offset: usize,
    ) -> (pages: Paginator<Resource>)
        ensures
            pages.endpoint() == "/v1/me/recent/radio-stations"@,
            pages.context().storefront == self.storefront(client),
            query_view(pages.context().query@) == self.query(client).push(
                ("limit"@, decimal(limit as nat)),
            ),
            pages@ == (Progress { offset: offset as nat, finished: false }),
    {
        let mut builder = self;
        let mut context = builder.get_request_context_drain(client);
        push_parameter(&mut context, "limit", to_decimal(limit));
        let endpoint = owned("/v1/me/recent/radio-stations");
        paginate(endpoint, context, offset)
    }

    /// Fetch resources recently added to the library
    /// # Params
    ///
    /// * limit - limit of entries per query
    ///
    /// * offset - query offset
    ///
    /// Possible resources: [`LibraryAlbum`], [`LibraryArtist`], [`LibraryPlaylist`], [`LibrarySong`]
    pub fn recently_added_to_library(
        self,
        client: &ApiClient,
        limit: usize,
        offset: usize,
    ) -> (pages: Paginator<Resource>)
        ensures
            pages.endpoint() == "/v1/me/library/recently-added"@,
            pages.context().storefront == self.storefront(client),
            query_view(pages.context().query@) == self.query(client).push(
                ("limit"@, decimal(limit as nat)),
            ),
            pages@ == (Progress { offset: offset as nat, finished: false }),
    {
        let mut builder = self;
        let mut context = builder.get_request_context_drain(client);
        push_parameter(&mut context, "limit", to_decimal(limit));
        let endpoint = owned("/v1/me/library/recently-added");
        paginate(endpoint, context, offset)
    }
}

} // verus!
