//! Library search

use crate::request::builder::MusicRequestBuilder;
use crate::request::context::{ContextContainer, RequestContext, share};
use crate::request::{FetchResults, prepared, push_parameter};
use crate::resource::library::album::LibraryAlbum;
use crate::resource::library::artist::LibraryArtist;
use crate::resource::library::music_video::LibraryMusicVideo;
use crate::resource::library::playlist::LibraryPlaylist;
use crate::resource::library::song::LibrarySong;
use crate::resource::relationship::Relationship;
use crate::text::{Named, join_names, joined, names, owned, plus_for_spaces, replace_spaces};
use crate::{ApiClient, Method};
use std::sync::Arc;
use vstd::prelude::*;

verus! {

/// Library search
pub struct LibrarySearch;

/// Library search request builder marker
pub struct LibrarySearchRequestBuilderMarker;

/// Library search request builder
pub type LibrarySearchRequestBuilder<'a> = MusicRequestBuilder<
    'a,
    LibrarySearchRequestBuilderMarker,
>;

impl<'a> LibrarySearchRequestBuilder<'a> {
    /// Search the library using a query
    ///
    /// # Params
    ///
    /// * types - types to search
    ///
    /// * term - The entered text for the search, spaces will automatically get replaced with '+'
    pub fn search(
        self,
        client: &ApiClient,
        types: &[LibrarySearchType],
        term: &str,
    ) -> (fetch: FetchResults<LibrarySearchResults>)
        ensures
            prepared(
                fetch.request,
                fetch.context,
                Method::Get,
                "/v1/me/library/search"@,
                self.storefront(client),
                self.query(client)
                    .push(("types"@, joined(names(types@), ","@)))
                    .push(("term"@, plus_for_spaces(term@))),
            ),
    {
        let mut builder = self;
        let mut context = builder.get_request_context_drain(client);
        push_parameter(&mut context, "types", join_names(types, ","));
        push_parameter(&mut context, "term", replace_spaces(term));
        let endpoint = owned("/v1/me/library/search");
        FetchResults::new(client.get(endpoint.as_str()), context)
    }
}

/// Library search results
#[derive(Default, Debug, Clone, PartialEq, Eq, Hash)]
pub struct LibrarySearchResults {
    /// Library albums
    pub library_albums: Relationship<LibraryAlbum>,
    /// Library artists
    pub library_artists: Relationship<LibraryArtist>,
    /// Library music videos
    pub library_music_videos: Relationship<LibraryMusicVideo>,
    /// Library playlists
    pub library_playlists: Relationship<LibraryPlaylist>,
    /// Library songs
    pub library_songs: Relationship<LibrarySong>,
}

impl ContextContainer for LibrarySearchResults {
    open spec fn propagated(&self, context: Arc<RequestContext>, after: &Self) -> bool {
        &&& self.library_albums.propagated(context, &after.library_albums)
        &&& self.library_artists.propagated(context, &after.library_artists)
        &&& self.library_music_videos.propagated(context, &after.library_music_videos)
        &&& self.library_playlists.propagated(context, &after.library_playlists)
        &&& self.library_songs.propagated(context, &after.library_songs)
    }

    fn set_context(&mut self, context: Arc<RequestContext>) {
        self.library_albums.set_context(share(&context));
        self.library_artists.set_context(share(&context));
        self.library_music_videos.set_context(share(&context));
        self.library_playlists.set_context(share(&context));
        self.library_songs.set_context(share(&context));
    }
}

/// Library search type
#[derive(Debug, Copy, Clone, PartialEq, Eq, Hash)]
pub enum LibrarySearchType {
    /// Library albums
    LibraryAlbums,
    /// Library artists
    LibraryArtists,
    /// Library music videos
    LibraryMusicVideos,
    /// Library playlists
    LibraryPlaylists,
    /// Library songs
    LibrarySongs,
}

impl Named for LibrarySearchType {
    open spec fn name(&self) -> Seq<char> {
        match self {
            LibrarySearchType::LibraryAlbums => "library-albums"@,
            LibrarySearchType::LibraryArtists => "library-artists"@,
            LibrarySearchType::LibraryMusicVideos => "library-music-videos"@,
            LibrarySearchType::LibraryPlaylists => "library-playlists"@,
            LibrarySearchType::LibrarySongs => "library-songs"@,
        }
    }

    fn to_string(&self) -> (name: String) {
        let name = match self {
            LibrarySearchType::LibraryAlbums => "library-albums",
            LibrarySearchType::LibraryArtists => "library-artists",
            LibrarySearchType::LibraryMusicVideos => "library-music-videos",
            LibrarySearchType::LibraryPlaylists => "library-playlists",
            LibrarySearchType::LibrarySongs => "library-songs",
        };
        owned(name)
    }
}

} // verus!
