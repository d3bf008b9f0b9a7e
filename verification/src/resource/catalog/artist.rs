//! Artist

use crate::primitive::EditorialNotes;
use crate::request::builder::MusicRequestBuilder;
use crate::request::context::{ContextContainer, RequestContext, share};
use crate::request::relationship::RelationshipTrait;
use crate::request::view::ViewTrait;
use crate::request::{
    FetchMany, FetchOne, below, catalog_endpoint, catalog_path, path_below, prepared,
    push_parameter,
};
use crate::resource::ResourceHeader;
use crate::resource::artwork::Artwork;
use crate::resource::attributes::TitleOnlyAttribute;
use crate::resource::catalog::album::Album;
use crate::resource::catalog::music_video::MusicVideo;
use crate::resource::catalog::playlist::Playlist;
use crate::resource::catalog::song::Song;
use crate::resource::catalog::station::Station;
use crate::resource::genre::Genre;
use crate::resource::relationship::Relationship;
use crate::resource::view::View;
use crate::text::{Named, join, joined, owned, slice_views};
use crate::{ApiClient, Method};
use std::sync::Arc;
use vstd::prelude::*;
use vstd::view::View as _;

verus! {

/// Artist
#[derive(Default, Debug, PartialEq, Eq, Hash)]
pub struct Artist {
    /// Resource header
    pub header: ResourceHeader,
    /// Artist attributes
    pub attributes: Option<ArtistAttributes>,
    /// Artist relationships
    pub relationships: ArtistRelationships,
    /// The views for associations between artists and other resources
    pub views: ArtistViews,
}

impl Artist {
    /// Get artist request builder
    pub fn get<'a>() -> (builder: ArtistGetRequestBuilder<'a>)
        ensures
            builder.is_fresh(),
    {
        ArtistGetRequestBuilder::default()
    }

    /// Whether `after` is this artist with `context` stored in every relationship and view
    /// below it, and with nothing else changed.
    pub open spec fn attached(&self, context: Arc<RequestContext>, after: &Artist) -> bool
        decreases self,
    {
        &&& after.header == self.header
        &&& after.attributes == self.attributes
        &&& self.relationships.attached(context, &after.relationships)
        &&& self.views.attached(context, &after.views)
    }

    /// Stores the context in every relationship and view below this artist.
    pub fn attach(&mut self, context: &Arc<RequestContext>)
        ensures
            old(self).attached(*context, final(self)),
            final(self).attached(*context, final(self)),
        decreases *old(self),
    {
        self.relationships.attach(context);
        self.views.attach(context);
    }

    /// Whether `after` holds the items of `before`, one for one, with `context` stored in
    /// every relationship and view below each.
    pub open spec fn attached_each(
        before: Seq<Artist>,
        context: Arc<RequestContext>,
        after: Seq<Artist>,
    ) -> bool
        decreases before,
    {
        &&& after.len() == before.len()
        &&& forall|i: int|
            0 <= i < before.len() ==> (#[trigger] before[i]).attached(context, &after[i])
    }

    /// Stores the context below each of the items.
    pub fn attach_each(items: &mut Vec<Artist>, context: &Arc<RequestContext>)
        ensures
            Artist::attached_each(old(items)@, *context, final(items)@),
            Artist::attached_each(final(items)@, *context, final(items)@),
        decreases *old(items),
    {
        let n = items.len();
        let mut i: usize = 0;
        while i < n
            invariant
                i <= n,
                items@.len() == n,
                old(items)@.len() == n,
                forall|j: int|
                    0 <= j < i ==> (#[trigger] old(items)@[j]).attached(*context, &items@[j]),
                forall|j: int| 0 <= j < i ==> (#[trigger] items@[j]).attached(*context, &items@[j]),
                forall|j: int| i <= j < n ==> items@[j] == old(items)@[j],
            decreases n - i,
        {
            items[i].attach(context);
            i += 1;
        }
    }

    /// Whether `after` is the relationship `before`, if there is one, with `context` stored
    /// in it and below each of its items.
    pub open spec fn attached_in(
        before: Option<Relationship<Artist>>,
        context: Arc<RequestContext>,
        after: Option<Relationship<Artist>>,
    ) -> bool
        decreases before,
    {
        match (before, after) {
            (Some(before), Some(after)) => {
                &&& after.context() == Some(context)
                &&& after.href == before.href
                &&& after.next == before.next
                &&& Artist::attached_each(before.data@, context, after.data@)
            },
            (None, None) => true,
            _ => false,
        }
    }

    /// Stores the context in a relationship, if there is one, and below each of its items.
    pub fn attach_in(relationship: &mut Option<Relationship<Artist>>, context: &Arc<RequestContext>)
        ensures
            Artist::attached_in(*old(relationship), *context, *final(relationship)),
            Artist::attached_in(*final(relationship), *context, *final(relationship)),
        decreases *old(relationship),
    {
        match relationship {
            Some(relationship) => {
                relationship.install(share(context));
                Artist::attach_each(&mut relationship.data, context);
            },
            None => {},
        }
    }

    /// Whether `after` is the view `before`, if there is one, with `context` stored in it
    /// and below each of its items.
    pub open spec fn attached_in_view<Attributes>(
        before: Option<View<Attributes, Artist>>,
        context: Arc<RequestContext>,
        after: Option<View<Attributes, Artist>>,
    ) -> bool
        decreases before,
    {
        match (before, after) {
            (Some(before), Some(after)) => {
                &&& after.context() == Some(context)
                &&& after.href == before.href
                &&& after.next == before.next
                &&& after.attributes == before.attributes
                &&& Artist::attached_each(before.data@, context, after.data@)
            },
            (None, None) => true,
            _ => false,
        }
    }

    /// Stores the context in a view, if there is one, and below each of its items.
    pub fn attach_in_view<Attributes>(
        view: &mut Option<View<Attributes, Artist>>,
        context: &Arc<RequestContext>,
    )
        ensures
            Artist::attached_in_view(*old(view), *context, *final(view)),
            Artist::attached_in_view(*final(view), *context, *final(view)),
        decreases *old(view),
    {
        match view {
            Some(view) => {
                view.install(share(context));
                Artist::attach_each(&mut view.data, context);
            },
            None => {},
        }
    }

    /// A copy of this artist.
    pub fn duplicate(&self) -> (copy: Artist)
        ensures
            self.copied(&copy),
        decreases self,
    {
        Artist {
            header: self.header.clone(),
            attributes: self.attributes.clone(),
            relationships: self.relationships.duplicate(),
            views: self.views.duplicate(),
        }
    }

    /// Copies of the items, in their order.
    pub fn duplicate_each(items: &Vec<Artist>) -> (copies: Vec<Artist>)
        ensures
            Artist::copied_each(items@, copies@),
        decreases items,
    {
        let mut copies: Vec<Artist> = Vec::new();
        let mut i: usize = 0;
        while i < items.len()
            invariant
                i <= items@.len(),
                copies@.len() == i,
                forall|j: int| 0 <= j < i ==> (#[trigger] items@[j]).copied(&copies@[j]),
            decreases items@.len() - i,
        {
            copies.push(items[i].duplicate());
            i += 1;
        }
        copies
    }

    /// A copy of a relationship, if there is one.
    pub fn duplicate_in(relationship: &Option<Relationship<Artist>>) -> (copy: Option<
        Relationship<Artist>,
    >)
        ensures
            Artist::copied_in(*relationship, copy),
        decreases relationship,
    {
        match relationship {
            Some(relationship) => Some(
                Relationship {
                    href: relationship.href.clone(),
                    next: relationship.next.clone(),
                    data: Artist::duplicate_each(&relationship.data),
                    context: relationship.context.clone(),
                },
            ),
            None => None,
        }
    }

    /// A copy of a view, if there is one.
    pub fn duplicate_in_view<Attributes: Clone>(view: &Option<View<Attributes, Artist>>) -> (copy:
        Option<View<Attributes, Artist>>)
        ensures
            Artist::copied_in_view(*view, copy),
        decreases view,
    {
        match view {
            Some(view) => Some(
                View {
                    href: view.href.clone(),
                    next: view.next.clone(),
                    attributes: view.attributes.clone(),
                    data: Artist::duplicate_each(&view.data),
                    context: view.context.clone(),
                },
            ),
            None => None,
        }
    }

    /// Whether `copy` holds what this artist holds: the same header, a clone of the
    /// attributes, and a copy of every relationship and view below it, each with the
    /// context that it holds.
    pub open spec fn copied(&self, copy: &Artist) -> bool
        decreases self,
    {
        &&& copy.header == self.header
        &&& cloned(self.attributes, copy.attributes)
        &&& self.relationships.copied(&copy.relationships)
        &&& self.views.copied(&copy.views)
    }

    /// Whether `copies` holds a copy of each of the items, in their order.
    pub open spec fn copied_each(items: Seq<Artist>, copies: Seq<Artist>) -> bool
        decreases items,
    {
        &&& copies.len() == items.len()
        &&& forall|i: int| 0 <= i < items.len() ==> (#[trigger] items[i]).copied(&copies[i])
    }

    /// Whether `copy` is a copy of a relationship, if there is one: with the same
    /// locations, the same context and a copy of each of its items.
    pub open spec fn copied_in(
        relationship: Option<Relationship<Artist>>,
        copy: Option<Relationship<Artist>>,
    ) -> bool
        decreases relationship,
    {
        match (relationship, copy) {
            (Some(relationship), Some(copy)) => {
                &&& copy.href == relationship.href
                &&& copy.next == relationship.next
                &&& copy.context() == relationship.context()
                &&& Artist::copied_each(relationship.data@, copy.data@)
            },
            (None, None) => true,
            _ => false,
        }
    }

    /// Whether `copy` is a copy of a view, if there is one: with the same locations, the
    /// same context, a clone of the attributes and a copy of each of its items.
    pub open spec fn copied_in_view<Attributes: Clone>(
        view: Option<View<Attributes, Artist>>,
        copy: Option<View<Attributes, Artist>>,
    ) -> bool
        decreases view,
    {
        match (view, copy) {
            (Some(view), Some(copy)) => {
                &&& copy.href == view.href
                &&& copy.next == view.next
                &&& copy.context() == view.context()
                &&& cloned(view.attributes, copy.attributes)
                &&& Artist::copied_each(view.data@, copy.data@)
            },
            (None, None) => true,
            _ => false,
        }
    }
}

impl ContextContainer for Artist {
    open spec fn propagated(&self, context: Arc<RequestContext>, after: &Self) -> bool {
        self.attached(context, after)
    }

    fn set_context(&mut self, context: Arc<RequestContext>) {
        self.attach(&context);
    }
}

impl Clone for Artist {
    fn clone(&self) -> (copy: Self)
        ensures
            self.copied(&copy),
    {
        self.duplicate()
    }
}

/// Artist attributes
#[derive(Default, Debug, Clone, PartialEq, Eq, Hash)]
pub struct ArtistAttributes {
    /// The artwork for the artist image
    pub artwork: Option<Artwork>,
    /// The notes about the artist that appear in the Apple Music catalog
    pub editorial_notes: Option<EditorialNotes>,
    /// The names of the genres associated with this artist
    pub genres: Vec<String>,
    /// The localized name of the artist
    pub name: String,
    /// The URL for sharing the artist in Apple Music
    pub url: String,
}

/// Artist relationships
#[derive(Default, Debug, PartialEq, Eq, Hash)]
pub struct ArtistRelationships {
    /// The albums associated with the artist. By default, albums includes identifiers only.
    ///
    /// Fetch limits: 25 default, 100 maximum
    ///
    /// Possible resources: [`Album`]
    pub albums: Option<Relationship<Album>>,
    /// The genres associated with the artist. By default, genres not included.
    ///
    /// Fetch limits: None
    ///
    /// Possible resources: [`Genre`]
    pub genres: Option<Relationship<Genre>>,
    /// The music videos associated with the artist. By default, musicVideos not included.
    ///
    /// Fetch limits: 25 default, 100 maximum
    ///
    /// Possible resources: [`MusicVideo`]
    pub music_videos: Option<Relationship<MusicVideo>>,
    /// The playlists associated with the artist. By default, playlists not included.
    ///
    /// Fetch limits: 10 default, 10 maximum
    ///
    /// Possible resources: [`Playlist`]
    pub playlists: Option<Relationship<Playlist>>,
    /// The station associated with the artist. By default, station not included.
    ///
    /// Fetch limits: None (one station).
    ///
    /// Possible resources: [`Station`]
    pub station: Option<Relationship<Station>>,
}

/// The relationships that can be asked for with artists
#[derive(Debug, Copy, Clone, PartialEq, Eq, Hash)]
pub enum ArtistRelationshipType {
    /// The albums associated with the artist. By default, albums includes identifiers only.
    ///
    /// Fetch limits: 25 default, 100 maximum
    ///
    /// Possible resources: [`Album`]
    Albums,
    /// The genres associated with the artist. By default, genres not included.
    ///
    /// Fetch limits: None
    ///
    /// Possible resources: [`Genre`]
    Genres,
    /// The music videos associated with the artist. By default, musicVideos not included.
    ///
    /// Fetch limits: 25 default, 100 maximum
    ///
    /// Possible resources: [`MusicVideo`]
    MusicVideos,
    /// The playlists associated with the artist. By default, playlists not included.
    ///
    /// Fetch limits: 10 default, 10 maximum
    ///
    /// Possible resources: [`Playlist`]
    Playlists,
    /// The station associated with the artist. By default, station not included.
    ///
    /// Fetch limits: None (one station).
    ///
    /// Possible resources: [`Station`]
    Station,
}

impl Named for ArtistRelationshipType {
    open spec fn name(&self) -> Seq<char> {
        match self {
            ArtistRelationshipType::Albums => "albums"@,
            ArtistRelationshipType::Genres => "genres"@,
            ArtistRelationshipType::MusicVideos => "music-videos"@,
            ArtistRelationshipType::Playlists => "playlists"@,
            ArtistRelationshipType::Station => "station"@,
        }
    }

    fn to_string(&self) -> (name: String) {
        let name = match self {
            ArtistRelationshipType::Albums => "albums",
            ArtistRelationshipType::Genres => "genres",
            ArtistRelationshipType::MusicVideos => "music-videos",
            ArtistRelationshipType::Playlists => "playlists",
            ArtistRelationshipType::Station => "station",
        };
        owned(name)
    }
}

impl RelationshipTrait for ArtistRelationshipType {
    open spec fn object(&self) -> Seq<char> {
        "artists"@
    }

    fn get_object(&self) -> (object: &'static str) {
        "artists"
    }
}

impl ArtistRelationships {
    /// Whether `after` holds these relationships with `context` stored in each of them and
    /// below each of their items, and with nothing else changed.
    pub open spec fn attached(
        &self,
        context: Arc<RequestContext>,
        after: &ArtistRelationships,
    ) -> bool
        decreases self,
    {
        &&& Album::attached_in(self.albums, context, after.albums)
        &&& Genre::attached_in(self.genres, context, after.genres)
        &&& MusicVideo::attached_in(self.music_videos, context, after.music_videos)
        &&& Playlist::attached_in(self.playlists, context, after.playlists)
        &&& Station::attached_in(self.station, context, after.station)
    }

    /// Stores the context in each of these relationships and below each of their items.
    pub fn attach(&mut self, context: &Arc<RequestContext>)
        ensures
            old(self).attached(*context, final(self)),
            final(self).attached(*context, final(self)),
        decreases *old(self),
    {
        Album::attach_in(&mut self.albums, context);
        Genre::attach_in(&mut self.genres, context);
        MusicVideo::attach_in(&mut self.music_videos, context);
        Playlist::attach_in(&mut self.playlists, context);
        Station::attach_in(&mut self.station, context);
    }

    /// A copy of these relationships.
    pub fn duplicate(&self) -> (copy: ArtistRelationships)
        ensures
            self.copied(&copy),
        decreases self,
    {
        ArtistRelationships {
            albums: Album::duplicate_in(&self.albums),
            genres: Genre::duplicate_in(&self.genres),
            music_videos: MusicVideo::duplicate_in(&self.music_videos),
            playlists: Playlist::duplicate_in(&self.playlists),
            station: Station::duplicate_in(&self.station),
        }
    }

    /// Whether `copy` holds a copy of each of these relationships, with the context that it
    /// holds and a copy of each of its items.
    pub open spec fn copied(&self, copy: &ArtistRelationships) -> bool
        decreases self,
    {
        &&& Album::copied_in(self.albums, copy.albums)
        &&& Genre::copied_in(self.genres, copy.genres)
        &&& MusicVideo::copied_in(self.music_videos, copy.music_videos)
        &&& Playlist::copied_in(self.playlists, copy.playlists)
        &&& Station::copied_in(self.station, copy.station)
    }
}

impl ContextContainer for ArtistRelationships {
    open spec fn propagated(&self, context: Arc<RequestContext>, after: &Self) -> bool {
        self.attached(context, after)
    }

    fn set_context(&mut self, context: Arc<RequestContext>) {
        self.attach(&context);
    }
}

impl Clone for ArtistRelationships {
    fn clone(&self) -> (copy: Self)
        ensures
            self.copied(&copy),
    {
        self.duplicate()
    }
}

/// Artist views
#[derive(Default, Debug, PartialEq, Eq, Hash)]
pub struct ArtistViews {
    /// A selection of albums from other artists this artist appears on
    ///
    /// Possible resources: [`Album`]
    pub appears_on_albums: Option<View<TitleOnlyAttribute, Album>>,
    /// Albums associated with the artist categorized as “compilations”
    ///
    /// Possible resources: [`Album`]
    pub compilation_albums: Option<View<TitleOnlyAttribute, Album>>,
    /// A collection of albums selected as featured for the artist
    ///
    /// Possible resources: [`Album`]
    pub featured_albums: Option<View<TitleOnlyAttribute, Album>>,
    /// A collection of music videos selected as featured for the artist
    ///
    /// Possible resources: [`MusicVideo`]
    pub featured_music_videos: Option<View<TitleOnlyAttribute, MusicVideo>>,
    /// Relevant playlists associated with the artist
    ///
    /// Possible resources: [`Playlist`]
    pub featured_playlists: Option<View<TitleOnlyAttribute, Playlist>>,
    /// Full-release albums associated with the artist
    ///
    /// Possible resources: [`Album`]
    pub full_albums: Option<View<TitleOnlyAttribute, Album>>,
    /// The latest release for the artist deemed to still be recent
    ///
    /// Possible resources: [`Album`]
    pub latest_release: Option<View<TitleOnlyAttribute, Album>>,
    /// Albums associated with the artist categorized as live performances
    ///
    /// Possible resources: [`Album`]
    pub live_albums: Option<View<TitleOnlyAttribute, Album>>,
    /// Other artists similar to this artist
    ///
    /// Possible resources: [`Artist`]
    pub similar_artists: Option<View<TitleOnlyAttribute, Artist>>,
    /// Albums associated with the artist categorized as “singles”
    ///
    /// Possible resources: [`Album`]
    pub singles: Option<View<TitleOnlyAttribute, Album>>,
    /// Relevant music videos associated with the artist
    ///
    /// Possible resources: [`MusicVideo`]
    pub top_music_videos: Option<View<TitleOnlyAttribute, MusicVideo>>,
    /// Songs associated with the artist based on popularity in the current storefront
    ///
    /// Possible resources: [`Song`]
    pub top_songs: Option<View<TitleOnlyAttribute, Song>>,
}

/// The views that can be asked for with artists
#[derive(Debug, Copy, Clone, PartialEq, Eq, Hash)]
pub enum ArtistViewType {
    /// A selection of albums from other artists this artist appears on
    ///
    /// Possible resources: [`Album`]
    AppearsOnAlbums,
    /// Albums associated with the artist categorized as “compilations”
    ///
    /// Possible resources: [`Album`]
    CompilationAlbums,
    /// A collection of albums selected as featured for the artist
    ///
    /// Possible resources: [`Album`]
    FeaturedAlbums,
    /// A collection of music videos selected as featured for the artist
    ///
    /// Possible resources: [`MusicVideo`]
    FeaturedMusicVideos,
    /// Relevant playlists associated with the artist
    ///
    /// Possible resources: [`Playlist`]
    FeaturedPlaylists,
    /// Full-release albums associated with the artist
    ///
    /// Possible resources: [`Album`]
    FullAlbums,
    /// The latest release for the artist deemed to still be recent
    ///
    /// Possible resources: [`Album`]
    LatestRelease,
    /// Albums associated with the artist categorized as live performances
    ///
    /// Possible resources: [`Album`]
    LiveAlbums,
    /// Other artists similar to this artist
    ///
    /// Possible resources: [`Artist`]
    SimilarArtists,
    /// Albums associated with the artist categorized as “singles”
    ///
    /// Possible resources: [`Album`]
    Singles,
    /// Relevant music videos associated with the artist
    ///
    /// Possible resources: [`MusicVideo`]
    TopMusicVideos,
    /// Songs associated with the artist based on popularity in the current storefront
    ///
    /// Possible resources: [`Song`]
    TopSongs,
}

impl Named for ArtistViewType {
    open spec fn name(&self) -> Seq<char> {
        match self {
            ArtistViewType::AppearsOnAlbums => "appears-on-albums"@,
            ArtistViewType::CompilationAlbums => "compilation-albums"@,
            ArtistViewType::FeaturedAlbums => "featured-albums"@,
            ArtistViewType::FeaturedMusicVideos => "featured-music-videos"@,
            ArtistViewType::FeaturedPlaylists => "featured-playlists"@,
            ArtistViewType::FullAlbums => "full-albums"@,
            ArtistViewType::LatestRelease => "latest-release"@,
            ArtistViewType::LiveAlbums => "live-albums"@,
            ArtistViewType::SimilarArtists => "similar-artists"@,
            ArtistViewType::Singles => "singles"@,
            ArtistViewType::TopMusicVideos => "top-music-videos"@,
            ArtistViewType::TopSongs => "top-songs"@,
        }
    }

    fn to_string(&self) -> (name: String) {
        let name = match self {
            ArtistViewType::AppearsOnAlbums => "appears-on-albums",
            ArtistViewType::CompilationAlbums => "compilation-albums",
            ArtistViewType::FeaturedAlbums => "featured-albums",
            ArtistViewType::FeaturedMusicVideos => "featured-music-videos",
            ArtistViewType::FeaturedPlaylists => "featured-playlists",
            ArtistViewType::FullAlbums => "full-albums",
            ArtistViewType::LatestRelease => "latest-release",
            ArtistViewType::LiveAlbums => "live-albums",
            ArtistViewType::SimilarArtists => "similar-artists",
            ArtistViewType::Singles => "singles",
            ArtistViewType::TopMusicVideos => "top-music-videos",
            ArtistViewType::TopSongs => "top-songs",
        };
        owned(name)
    }
}

impl ViewTrait for ArtistViewType {
    open spec fn object(&self) -> Seq<char> {
        "artists"@
    }

    fn get_object(&self) -> (object: &'static str) {
        "artists"
    }
}

impl ArtistViews {
    /// Whether `after` holds these views with `context` stored in each of them and
    /// below each of their items, and with nothing else changed.
    pub open spec fn attached(&self, context: Arc<RequestContext>, after: &ArtistViews) -> bool
        decreases self,
    {
        &&& Album::attached_in_view(self.appears_on_albums, context, after.appears_on_albums)
        &&& Album::attached_in_view(self.compilation_albums, context, after.compilation_albums)
        &&& Album::attached_in_view(self.featured_albums, context, after.featured_albums)
        &&& MusicVideo::attached_in_view(
            self.featured_music_videos,
            context,
            after.featured_music_videos,
        )
        &&& Playlist::attached_in_view(self.featured_playlists, context, after.featured_playlists)
        &&& Album::attached_in_view(self.full_albums, context, after.full_albums)
        &&& Album::attached_in_view(self.latest_release, context, after.latest_release)
        &&& Album::attached_in_view(self.live_albums, context, after.live_albums)
        &&& Artist::attached_in_view(self.similar_artists, context, after.similar_artists)
        &&& Album::attached_in_view(self.singles, context, after.singles)
        &&& MusicVideo::attached_in_view(self.top_music_videos, context, after.top_music_videos)
        &&& Song::attached_in_view(self.top_songs, context, after.top_songs)
    }

    /// Stores the context in each of these views and below each of their items.
    pub fn attach(&mut self, context: &Arc<RequestContext>)
        ensures
            old(self).attached(*context, final(self)),
            final(self).attached(*context, final(self)),
        decreases *old(self),
    {
        Album::attach_in_view(&mut self.appears_on_albums, context);
        Album::attach_in_view(&mut self.compilation_albums, context);
        Album::attach_in_view(&mut self.featured_albums, context);
        MusicVideo::attach_in_view(&mut self.featured_music_videos, context);
        Playlist::attach_in_view(&mut self.featured_playlists, context);
        Album::attach_in_view(&mut self.full_albums, context);
        Album::attach_in_view(&mut self.latest_release, context);
        Album::attach_in_view(&mut self.live_albums, context);
        Artist::attach_in_view(&mut self.similar_artists, context);
        Album::attach_in_view(&mut self.singles, context);
        MusicVideo::attach_in_view(&mut self.top_music_videos, context);
        Song::attach_in_view(&mut self.top_songs, context);
    }

    /// A copy of these views.
    pub fn duplicate(&self) -> (copy: ArtistViews)
        ensures
            self.copied(&copy),
        decreases self,
    {
        ArtistViews {
            appears_on_albums: Album::duplicate_in_view(&self.appears_on_albums),
            compilation_albums: Album::duplicate_in_view(&self.compilation_albums),
            featured_albums: Album::duplicate_in_view(&self.featured_albums),
            featured_music_videos: MusicVideo::duplicate_in_view(&self.featured_music_videos),
            featured_playlists: Playlist::duplicate_in_view(&self.featured_playlists),
            full_albums: Album::duplicate_in_view(&self.full_albums),
            latest_release: Album::duplicate_in_view(&self.latest_release),
            live_albums: Album::duplicate_in_view(&self.live_albums),
            similar_artists: Artist::duplicate_in_view(&self.similar_artists),
            singles: Album::duplicate_in_view(&self.singles),
            top_music_videos: MusicVideo::duplicate_in_view(&self.top_music_videos),
            top_songs: Song::duplicate_in_view(&self.top_songs),
        }
    }

    /// Whether `copy` holds a copy of each of these views, with the context that it
    /// holds and a copy of each of its items.
    pub open spec fn copied(&self, copy: &ArtistViews) -> bool
        decreases self,
    {
        &&& Album::copied_in_view(self.appears_on_albums, copy.appears_on_albums)
        &&& Album::copied_in_view(self.compilation_albums, copy.compilation_albums)
        &&& Album::copied_in_view(self.featured_albums, copy.featured_albums)
        &&& MusicVideo::copied_in_view(self.featured_music_videos, copy.featured_music_videos)
        &&& Playlist::copied_in_view(self.featured_playlists, copy.featured_playlists)
        &&& Album::copied_in_view(self.full_albums, copy.full_albums)
        &&& Album::copied_in_view(self.latest_release, copy.latest_release)
        &&& Album::copied_in_view(self.live_albums, copy.live_albums)
        &&& Artist::copied_in_view(self.similar_artists, copy.similar_artists)
        &&& Album::copied_in_view(self.singles, copy.singles)
        &&& MusicVideo::copied_in_view(self.top_music_videos, copy.top_music_videos)
        &&& Song::copied_in_view(self.top_songs, copy.top_songs)
    }
}

impl ContextContainer for ArtistViews {
    open spec fn propagated(&self, context: Arc<RequestContext>, after: &Self) -> bool {
        self.attached(context, after)
    }

    fn set_context(&mut self, context: Arc<RequestContext>) {
        self.attach(&context);
    }
}

impl Clone for ArtistViews {
    fn clone(&self) -> (copy: Self)
        ensures
            self.copied(&copy),
    {
        self.duplicate()
    }
}

/// Artist request builder
pub struct ArtistRequestBuilder;

/// Artist get request builder
pub type ArtistGetRequestBuilder<'a> = MusicRequestBuilder<'a, ArtistRequestBuilder>;

impl<'a> ArtistGetRequestBuilder<'a> {
    /// Fetch one artist by id
    pub fn one(self, client: &ApiClient, id: &str) -> (fetch: FetchOne<Artist>)
        ensures
            prepared(
                fetch.request,
                fetch.context,
                Method::Get,
                below(catalog_endpoint(self.storefront(client), "artists"@), id@),
                self.storefront(client),
                self.query(client),
            ),
    {
        let mut builder = self;
        let context = builder.get_request_context_drain(client);
        let endpoint = catalog_path(&context.storefront, "artists");
        let path = path_below(endpoint.as_str(), id);
        FetchOne::new(client.get(path.as_str()), context)
    }

    /// Fetch multiple artists by id
    pub fn many(self, client: &ApiClient, ids: &[&str]) -> (fetch: FetchMany<Artist>)
        ensures
            prepared(
                fetch.request,
                fetch.context,
                Method::Get,
                catalog_endpoint(self.storefront(client), "artists"@),
                self.storefront(client),
                self.query(client).push(("ids"@, joined(slice_views(ids@), ","@))),
            ),
    {
        let mut builder = self;
        let mut context = builder.get_request_context_drain(client);
        push_parameter(&mut context, "ids", join(ids, ","));
        let endpoint = catalog_path(&context.storefront, "artists");
        FetchMany::new(client.get(endpoint.as_str()), context)
    }
}

} // verus!
