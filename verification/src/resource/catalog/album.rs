//! Album

use crate::date::year_or_date::YearOrDate;
use crate::primitive::{AudioVariant, ContentRating, EditorialNotes, PlayParameters};
use crate::request::builder::MusicRequestBuilder;
use crate::request::context::{ContextContainer, RequestContext, share};
use crate::request::extension::ExtensionTrait;
use crate::request::relationship::RelationshipTrait;
use crate::request::view::ViewTrait;
use crate::request::{
    FetchMany, FetchOne, below, catalog_endpoint, catalog_path, path_below, prepared,
    push_parameter,
};
use crate::resource::artwork::Artwork;
use crate::resource::attributes::TitleOnlyAttribute;
use crate::resource::catalog::artist::Artist;
use crate::resource::catalog::music_video::MusicVideo;
use crate::resource::catalog::playlist::Playlist;
use crate::resource::catalog::record_label::RecordLabel;
use crate::resource::genre::Genre;
use crate::resource::library::album::LibraryAlbum;
use crate::resource::relationship::Relationship;
use crate::resource::view::View;
use crate::resource::{Resource, ResourceHeader};
use crate::text::{Named, join, joined, owned, slice_views};
use crate::{ApiClient, Method};
use std::sync::Arc;
use vstd::prelude::*;
use vstd::view::View as _;

verus! {

/// Album
#[derive(Default, Debug, PartialEq, Eq, Hash)]
pub struct Album {
    /// Resource header
    pub header: ResourceHeader,
    /// Album attributes
    pub attributes: Option<AlbumAttributes>,
    /// Album relationships
    pub relationships: AlbumRelationships,
    /// The relationship views for the album
    pub views: AlbumViews,
}

impl Album {
    /// Get album request builder
    pub fn get<'a>() -> (builder: AlbumGetRequestBuilder<'a>)
        ensures
            builder.is_fresh(),
    {
        AlbumGetRequestBuilder::default()
    }

    /// Whether `after` is this album with `context` stored in every relationship and view
    /// below it, and with nothing else changed.
    pub open spec fn attached(&self, context: Arc<RequestContext>, after: &Album) -> bool
        decreases self,
    {
        &&& after.header == self.header
        &&& after.attributes == self.attributes
        &&& self.relationships.attached(context, &after.relationships)
        &&& self.views.attached(context, &after.views)
    }

    /// Stores the context in every relationship and view below this album.
    pub fn attach(&mut self, context: &Arc<RequestContext>)
        ensures
            old(self).attached(*context, final(self)),
            final(self).attached(*context, final(self)),
        decreases *old(self),
    {
        self.relationships.attach(context);
        self.views.attach(context);
    }

    /// Whether `after` holds the items of `before`, one for one, with `context` stored in
    /// every relationship and view below each.
    pub open spec fn attached_each(
        before: Seq<Album>,
        context: Arc<RequestContext>,
        after: Seq<Album>,
    ) -> bool
        decreases before,
    {
        &&& after.len() == before.len()
        &&& forall|i: int|
            0 <= i < before.len() ==> (#[trigger] before[i]).attached(context, &after[i])
    }

    /// Stores the context below each of the items.
    pub fn attach_each(items: &mut Vec<Album>, context: &Arc<RequestContext>)
        ensures
            Album::attached_each(old(items)@, *context, final(items)@),
            Album::attached_each(final(items)@, *context, final(items)@),
        decreases *old(items),
    {
        let n = items.len();
        let mut i: usize = 0;
        while i < n
            invariant
                i <= n,
                items@.len() == n,
                old(items)@.len() == n,
                forall|j: int|
                    0 <= j < i ==> (#[trigger] old(items)@[j]).attached(*context, &items@[j]),
                forall|j: int| 0 <= j < i ==> (#[trigger] items@[j]).attached(*context, &items@[j]),
                forall|j: int| i <= j < n ==> items@[j] == old(items)@[j],
            decreases n - i,
        {
            items[i].attach(context);
            i += 1;
        }
    }

    /// Whether `after` is the relationship `before`, if there is one, with `context` stored
    /// in it and below each of its items.
    pub open spec fn attached_in(
        before: Option<Relationship<Album>>,
        context: Arc<RequestContext>,
        after: Option<Relationship<Album>>,
    ) -> bool
        decreases before,
    {
        match (before, after) {
            (Some(before), Some(after)) => {
                &&& after.context() == Some(context)
                &&& after.href == before.href
                &&& after.next == before.next
                &&& Album::attached_each(before.data@, context, after.data@)
            },
            (None, None) => true,
            _ => false,
        }
    }

    /// Stores the context in a relationship, if there is one, and below each of its items.
    pub fn attach_in(relationship: &mut Option<Relationship<Album>>, context: &Arc<RequestContext>)
        ensures
            Album::attached_in(*old(relationship), *context, *final(relationship)),
            Album::attached_in(*final(relationship), *context, *final(relationship)),
        decreases *old(relationship),
    {
        match relationship {
            Some(relationship) => {
                relationship.install(share(context));
                Album::attach_each(&mut relationship.data, context);
            },
            None => {},
        }
    }

    /// Whether `after` is the view `before`, if there is one, with `context` stored in it
    /// and below each of its items.
    pub open spec fn attached_in_view<Attributes>(
        before: Option<View<Attributes, Album>>,
        context: Arc<RequestContext>,
        after: Option<View<Attributes, Album>>,
    ) -> bool
        decreases before,
    {
        match (before, after) {
            (Some(before), Some(after)) => {
                &&& after.context() == Some(context)
                &&& after.href == before.href
                &&& after.next == before.next
                &&& after.attributes == before.attributes
                &&& Album::attached_each(before.data@, context, after.data@)
            },
            (None, None) => true,
            _ => false,
        }
    }

    /// Stores the context in a view, if there is one, and below each of its items.
    pub fn attach_in_view<Attributes>(
        view: &mut Option<View<Attributes, Album>>,
        context: &Arc<RequestContext>,
    )
        ensures
            Album::attached_in_view(*old(view), *context, *final(view)),
            Album::attached_in_view(*final(view), *context, *final(view)),
        decreases *old(view),
    {
        match view {
            Some(view) => {
                view.install(share(context));
                Album::attach_each(&mut view.data, context);
            },
            None => {},
        }
    }

    /// A copy of this album.
    pub fn duplicate(&self) -> (copy: Album)
        ensures
            self.copied(&copy),
        decreases self,
    {
        Album {
            header: self.header.clone(),
            attributes: self.attributes.clone(),
            relationships: self.relationships.duplicate(),
            views: self.views.duplicate(),
        }
    }

    /// Copies of the items, in their order.
    pub fn duplicate_each(items: &Vec<Album>) -> (copies: Vec<Album>)
        ensures
            Album::copied_each(items@, copies@),
        decreases items,
    {
        let mut copies: Vec<Album> = Vec::new();
        let mut i: usize = 0;
        while i < items.len()
            invariant
                i <= items@.len(),
                copies@.len() == i,
                forall|j: int| 0 <= j < i ==> (#[trigger] items@[j]).copied(&copies@[j]),
            decreases items@.len() - i,
        {
            copies.push(items[i].duplicate());
            i += 1;
        }
        copies
    }

    /// A copy of a relationship, if there is one.
    pub fn duplicate_in(relationship: &Option<Relationship<Album>>) -> (copy: Option<
        Relationship<Album>,
    >)
        ensures
            Album::copied_in(*relationship, copy),
        decreases relationship,
    {
        match relationship {
            Some(relationship) => Some(
                Relationship {
                    href: relationship.href.clone(),
                    next: relationship.next.clone(),
                    data: Album::duplicate_each(&relationship.data),
                    context: relationship.context.clone(),
                },
            ),
            None => None,
        }
    }

    /// A copy of a view, if there is one.
    pub fn duplicate_in_view<Attributes: Clone>(view: &Option<View<Attributes, Album>>) -> (copy:
        Option<View<Attributes, Album>>)
        ensures
            Album::copied_in_view(*view, copy),
        decreases view,
    {
        match view {
            Some(view) => Some(
                View {
                    href: view.href.clone(),
                    next: view.next.clone(),
                    attributes: view.attributes.clone(),
                    data: Album::duplicate_each(&view.data),
                    context: view.context.clone(),
                },
            ),
            None => None,
        }
    }

    /// Whether `copy` holds what this album holds: the same header, a clone of the
    /// attributes, and a copy of every relationship and view below it, each with the
    /// context that it holds.
    pub open spec fn copied(&self, copy: &Album) -> bool
        decreases self,
    {
        &&& copy.header == self.header
        &&& cloned(self.attributes, copy.attributes)
        &&& self.relationships.copied(&copy.relationships)
        &&& self.views.copied(&copy.views)
    }

    /// Whether `copies` holds a copy of each of the items, in their order.
    pub open spec fn copied_each(items: Seq<Album>, copies: Seq<Album>) -> bool
        decreases items,
    {
        &&& copies.len() == items.len()
        &&& forall|i: int| 0 <= i < items.len() ==> (#[trigger] items[i]).copied(&copies[i])
    }

    /// Whether `copy` is a copy of a relationship, if there is one: with the same
    /// locations, the same context and a copy of each of its items.
    pub open spec fn copied_in(
        relationship: Option<Relationship<Album>>,
        copy: Option<Relationship<Album>>,
    ) -> bool
        decreases relationship,
    {
        match (relationship, copy) {
            (Some(relationship), Some(copy)) => {
                &&& copy.href == relationship.href
                &&& copy.next == relationship.next
                &&& copy.context() == relationship.context()
                &&& Album::copied_each(relationship.data@, copy.data@)
            },
            (None, None) => true,
            _ => false,
        }
    }

    /// Whether `copy` is a copy of a view, if there is one: with the same locations, the
    /// same context, a clone of the attributes and a copy of each of its items.
    pub open spec fn copied_in_view<Attributes: Clone>(
        view: Option<View<Attributes, Album>>,
        copy: Option<View<Attributes, Album>>,
    ) -> bool
        decreases view,
    {
        match (view, copy) {
            (Some(view), Some(copy)) => {
                &&& copy.href == view.href
                &&& copy.next == view.next
                &&& copy.context() == view.context()
                &&& cloned(view.attributes, copy.attributes)
                &&& Album::copied_each(view.data@, copy.data@)
            },
            (None, None) => true,
            _ => false,
        }
    }
}

impl ContextContainer for Album {
    open spec fn propagated(&self, context: Arc<RequestContext>, after: &Self) -> bool {
        self.attached(context, after)
    }

    fn set_context(&mut self, context: Arc<RequestContext>) {
        self.attach(&context);
    }
}

impl Clone for Album {
    fn clone(&self) -> (copy: Self)
        ensures
            self.copied(&copy),
    {
        self.duplicate()
    }
}

/// Album attributes
#[derive(Default, Debug, Clone, PartialEq, Eq, Hash)]
pub struct AlbumAttributes {
    /// The name of the primary artist associated with the album
    pub artist_name: String,
    /// **(Extended)** The URL of the artist for this content
    pub artist_url: Option<String>,
    /// The artwork for the album
    pub artwork: Artwork,
    /// Specific audio variants for an album
    pub audio_variants: Option<Vec<AudioVariant>>,
    /// The Recording Industry Association of America (RIAA) rating of the content. No value means no rating
    pub content_rating: Option<ContentRating>,
    /// The copyright text
    pub copyright: String,
    /// The notes about the album that appear in the iTunes Store
    pub editorial_notes: Option<EditorialNotes>,
    /// Genre names
    pub genre_names: Vec<String>,
    /// Indicates whether the album is marked as a compilation
    pub is_compilation: bool,
    /// Indicates whether the album is complete. If true, the album is complete; otherwise, it's not. An album is complete if it contains all its tracks and songs
    pub is_complete: bool,
    /// Indicates whether the response delivered the album as an Apple Digital Master
    pub is_mastered_for_itunes: bool,
    /// Indicates whether the album contains a single song
    pub is_single: bool,
    /// The localized name of the album
    pub name: String,
    /// The parameters to use to play back the tracks of the album
    pub play_params: Option<PlayParameters>,
    /// The name of the record label for the album
    pub record_label: Option<String>,
    /// The release date of the album, when known, in YYYY-MM-DD or YYYY format. Prerelease content may have an expected release date in the future
    pub release_date: Option<YearOrDate>,
    /// The number of tracks for the album
    pub track_count: u32,
    /// The Universal Product Code for the album
    pub upc: Option<String>,
    /// The URL for sharing the album in Apple Music
    pub url: String,
}

/// The extensions that can be asked for with albums
#[derive(Debug, Copy, Clone, PartialEq, Eq, Hash)]
pub enum AlbumAttributesExtension {
    /// **(Extended)** The URL of the artist for this content
    ArtistUrl,
}

impl Named for AlbumAttributesExtension {
    open spec fn name(&self) -> Seq<char> {
        match self {
            AlbumAttributesExtension::ArtistUrl => "artistUrl"@,
        }
    }

    fn to_string(&self) -> (name: String) {
        let name = match self {
            AlbumAttributesExtension::ArtistUrl => "artistUrl",
        };
        owned(name)
    }
}

impl ExtensionTrait for AlbumAttributesExtension {
    open spec fn object(&self) -> Seq<char> {
        "albums"@
    }

    fn get_object(&self) -> (object: &'static str) {
        "albums"
    }
}

/// Album relationships
#[derive(Default, Debug, PartialEq, Eq, Hash)]
pub struct AlbumRelationships {
    /// The artists associated with the album. By default, artists includes identifiers only.
    ///
    /// Fetch limits: 10 default, 10 maximum
    ///
    /// Possible resources: [`Artist`]
    pub artists: Option<Relationship<Artist>>,
    /// The genres for the album. By default, genres not included.
    ///
    /// Fetch limits: None
    ///
    /// Possible resources: [`Genre`]
    pub genres: Option<Relationship<Genre>>,
    /// The songs and music videos on the album. By default, tracks includes objects.
    ///
    /// Fetch limits: 300 default, 300 maximum
    ///
    /// Possible resources: [`MusicVideo`], [`Song`]
    pub tracks: Option<Relationship<Resource>>,
    /// The album in the user's library for the catalog album, if any.
    ///
    /// Fetch limits: None
    ///
    /// Possible resources: [`LibraryAlbum`]
    pub library: Option<Relationship<LibraryAlbum>>,
    /// The record labels for the album
    ///
    /// Fetch limits: 10 default, 10 maximum.
    ///
    /// Possible resources: [`RecordLabel`]
    pub record_labels: Option<Relationship<RecordLabel>>,
}

/// The relationships that can be asked for with albums
#[derive(Debug, Copy, Clone, PartialEq, Eq, Hash)]
pub enum AlbumRelationshipType {
    /// The artists associated with the album. By default, artists includes identifiers only.
    ///
    /// Fetch limits: 10 default, 10 maximum
    ///
    /// Possible resources: [`Artist`]
    Artists,
    /// The genres for the album. By default, genres not included.
    ///
    /// Fetch limits: None
    ///
    /// Possible resources: [`Genre`]
    Genres,
    /// The songs and music videos on the album. By default, tracks includes objects.
    ///
    /// Fetch limits: 300 default, 300 maximum
    ///
    /// Possible resources: [`MusicVideo`], [`Song`]
    Tracks,
    /// The album in the user's library for the catalog album, if any.
    ///
    /// Fetch limits: None
    ///
    /// Possible resources: [`LibraryAlbum`]
    Library,
    /// The record labels for the album
    ///
    /// Fetch limits: 10 default, 10 maximum.
    ///
    /// Possible resources: [`RecordLabel`]
    RecordLabels,
}

impl Named for AlbumRelationshipType {
    open spec fn name(&self) -> Seq<char> {
        match self {
            AlbumRelationshipType::Artists => "artists"@,
            AlbumRelationshipType::Genres => "genres"@,
            AlbumRelationshipType::Tracks => "tracks"@,
            AlbumRelationshipType::Library => "library"@,
            AlbumRelationshipType::RecordLabels => "record-labels"@,
        }
    }

    fn to_string(&self) -> (name: String) {
        let name = match self {
            AlbumRelationshipType::Artists => "artists",
            AlbumRelationshipType::Genres => "genres",
            AlbumRelationshipType::Tracks => "tracks",
            AlbumRelationshipType::Library => "library",
            AlbumRelationshipType::RecordLabels => "record-labels",
        };
        owned(name)
    }
}

impl RelationshipTrait for AlbumRelationshipType {
    open spec fn object(&self) -> Seq<char> {
        "albums"@
    }

    fn get_object(&self) -> (object: &'static str) {
        "albums"
    }
}

impl AlbumRelationships {
    /// Whether `after` holds these relationships with `context` stored in each of them and
    /// below each of their items, and with nothing else changed.
    pub open spec fn attached(
        &self,
        context: Arc<RequestContext>,
        after: &AlbumRelationships,
    ) -> bool
        decreases self,
    {
        &&& Artist::attached_in(self.artists, context, after.artists)
        &&& Genre::attached_in(self.genres, context, after.genres)
        &&& Resource::attached_in(self.tracks, context, after.tracks)
        &&& LibraryAlbum::attached_in(self.library, context, after.library)
        &&& RecordLabel::attached_in(self.record_labels, context, after.record_labels)
    }

    /// Stores the context in each of these relationships and below each of their items.
    pub fn attach(&mut self, context: &Arc<RequestContext>)
        ensures
            old(self).attached(*context, final(self)),
            final(self).attached(*context, final(self)),
        decreases *old(self),
    {
        Artist::attach_in(&mut self.artists, context);
        Genre::attach_in(&mut self.genres, context);
        Resource::attach_in(&mut self.tracks, context);
        LibraryAlbum::attach_in(&mut self.library, context);
        RecordLabel::attach_in(&mut self.record_labels, context);
    }

    /// A copy of these relationships.
    pub fn duplicate(&self) -> (copy: AlbumRelationships)
        ensures
            self.copied(&copy),
        decreases self,
    {
        AlbumRelationships {
            artists: Artist::duplicate_in(&self.artists),
            genres: Genre::duplicate_in(&self.genres),
            tracks: Resource::duplicate_in(&self.tracks),
            library: LibraryAlbum::duplicate_in(&self.library),
            record_labels: RecordLabel::duplicate_in(&self.record_labels),
        }
    }

    /// Whether `copy` holds a copy of each of these relationships, with the context that it
    /// holds and a copy of each of its items.
    pub open spec fn copied(&self, copy: &AlbumRelationships) -> bool
        decreases self,
    {
        &&& Artist::copied_in(self.artists, copy.artists)
        &&& Genre::copied_in(self.genres, copy.genres)
        &&& Resource::copied_in(self.tracks, copy.tracks)
        &&& LibraryAlbum::copied_in(self.library, copy.library)
        &&& RecordLabel::copied_in(self.record_labels, copy.record_labels)
    }
}

impl ContextContainer for AlbumRelationships {
    open spec fn propagated(&self, context: Arc<RequestContext>, after: &Self) -> bool {
        self.attached(context, after)
    }

    fn set_context(&mut self, context: Arc<RequestContext>) {
        self.attach(&context);
    }
}

impl Clone for AlbumRelationships {
    fn clone(&self) -> (copy: Self)
        ensures
            self.copied(&copy),
    {
        self.duplicate()
    }
}

/// Album views
#[derive(Default, Debug, PartialEq, Eq, Hash)]
pub struct AlbumViews {
    /// A selection of playlists that tracks from this album appear on
    ///
    /// Possible resources: [`Playlist`]
    pub appears_on: Option<View<TitleOnlyAttribute, Playlist>>,
    /// Other versions of this album
    ///
    /// Possible resources: [`Album`]
    pub other_versions: Option<View<TitleOnlyAttribute, Album>>,
    /// Other albums related or similar to this album
    ///
    /// Possible resources: [`Album`]
    pub related_albums: Option<View<TitleOnlyAttribute, Album>>,
    /// Music videos associated with tracks on this album
    ///
    /// Possible resources: [`MusicVideo`]
    pub related_videos: Option<View<TitleOnlyAttribute, MusicVideo>>,
}

/// The views that can be asked for with albums
#[derive(Debug, Copy, Clone, PartialEq, Eq, Hash)]
pub enum AlbumViewType {
    /// A selection of playlists that tracks from this album appear on
    ///
    /// Possible resources: [`Playlist`]
    AppearsOn,
    /// Other versions of this album
    ///
    /// Possible resources: [`Album`]
    OtherVersions,
    /// Other albums related or similar to this album
    ///
    /// Possible resources: [`Album`]
    RelatedAlbums,
    /// Music videos associated with tracks on this album
    ///
    /// Possible resources: [`MusicVideo`]
    RelatedVideos,
}

impl Named for AlbumViewType {
    open spec fn name(&self) -> Seq<char> {
        match self {
            AlbumViewType::AppearsOn => "appears-on"@,
            AlbumViewType::OtherVersions => "other-versions"@,
            AlbumViewType::RelatedAlbums => "related-albums"@,
            AlbumViewType::RelatedVideos => "related-videos"@,
        }
    }

    fn to_string(&self) -> (name: String) {
        let name = match self {
            AlbumViewType::AppearsOn => "appears-on",
            AlbumViewType::OtherVersions => "other-versions",
            AlbumViewType::RelatedAlbums => "related-albums",
            AlbumViewType::RelatedVideos => "related-videos",
        };
        owned(name)
    }
}

impl ViewTrait for AlbumViewType {
    open spec fn object(&self) -> Seq<char> {
        "albums"@
    }

    fn get_object(&self) -> (object: &'static str) {
        "albums"
    }
}

impl AlbumViews {
    /// Whether `after` holds these views with `context` stored in each of them and
    /// below each of their items, and with nothing else changed.
    pub open spec fn attached(&self, context: Arc<RequestContext>, after: &AlbumViews) -> bool
        decreases self,
    {
        &&& Playlist::attached_in_view(self.appears_on, context, after.appears_on)
        &&& Album::attached_in_view(self.other_versions, context, after.other_versions)
        &&& Album::attached_in_view(self.related_albums, context, after.related_albums)
        &&& MusicVideo::attached_in_view(self.related_videos, context, after.related_videos)
    }

    /// Stores the context in each of these views and below each of their items.
    pub fn attach(&mut self, context: &Arc<RequestContext>)
        ensures
            old(self).attached(*context, final(self)),
            final(self).attached(*context, final(self)),
        decreases *old(self),
    {
        Playlist::attach_in_view(&mut self.appears_on, context);
        Album::attach_in_view(&mut self.other_versions, context);
        Album::attach_in_view(&mut self.related_albums, context);
        MusicVideo::attach_in_view(&mut self.related_videos, context);
    }

    /// A copy of these views.
    pub fn duplicate(&self) -> (copy: AlbumViews)
        ensures
            self.copied(&copy),
        decreases self,
    {
        AlbumViews {
            appears_on: Playlist::duplicate_in_view(&self.appears_on),
            other_versions: Album::duplicate_in_view(&self.other_versions),
            related_albums: Album::duplicate_in_view(&self.related_albums),
            related_videos: MusicVideo::duplicate_in_view(&self.related_videos),
        }
    }

    /// Whether `copy` holds a copy of each of these views, with the context that it
    /// holds and a copy of each of its items.
    pub open spec fn copied(&self, copy: &AlbumViews) -> bool
        decreases self,
    {
        &&& Playlist::copied_in_view(self.appears_on, copy.appears_on)
        &&& Album::copied_in_view(self.other_versions, copy.other_versions)
        &&& Album::copied_in_view(self.related_albums, copy.related_albums)
        &&& MusicVideo::copied_in_view(self.related_videos, copy.related_videos)
    }
}

impl ContextContainer for AlbumViews {
    open spec fn propagated(&self, context: Arc<RequestContext>, after: &Self) -> bool {
        self.attached(context, after)
    }

    fn set_context(&mut self, context: Arc<RequestContext>) {
        self.attach(&context);
    }
}

impl Clone for AlbumViews {
    fn clone(&self) -> (copy: Self)
        ensures
            self.copied(&copy),
    {
        self.duplicate()
    }
}

/// Album request builder
pub struct AlbumRequestBuilder;

/// Album get request builder
pub type AlbumGetRequestBuilder<'a> = MusicRequestBuilder<'a, AlbumRequestBuilder>;

impl<'a> AlbumGetRequestBuilder<'a> {
    /// Fetch one album by id
    pub fn one(self, client: &ApiClient, id: &str) -> (fetch: FetchOne<Album>)
        ensures
            prepared(
                fetch.request,
                fetch.context,
                Method::Get,
                below(catalog_endpoint(self.storefront(client), "albums"@), id@),
                self.storefront(client),
                self.query(client),
            ),
    {
        let mut builder = self;
        let context = builder.get_request_context_drain(client);
        let endpoint = catalog_path(&context.storefront, "albums");
        let path = path_below(endpoint.as_str(), id);
        FetchOne::new(client.get(path.as_str()), context)
    }

    /// Fetch multiple albums by id
    ///
    /// # Params
    ///
    /// * upc - if the ids are UPCs or album ids, false means album ids, true means UPCs
    pub fn many(self, client: &ApiClient, ids: &[&str], upc: bool) -> (fetch: FetchMany<Album>)
        ensures
            prepared(
                fetch.request,
                fetch.context,
                Method::Get,
                catalog_endpoint(self.storefront(client), "albums"@),
                self.storefront(client),
                self.query(client).push(
                    (
                        if upc {
                            "filter[upc]"@
                        } else {
                            "ids"@
                        },
                        joined(slice_views(ids@), ","@),
                    ),
                ),
            ),
    {
        let mut builder = self;
        let mut context = builder.get_request_context_drain(client);
        push_parameter(&mut context, if upc { "filter[upc]" } else { "ids" }, join(ids, ","));
        let endpoint = catalog_path(&context.storefront, "albums");
        FetchMany::new(client.get(endpoint.as_str()), context)
    }
}

} // verus!
