//! Playlist

use crate::primitive::{PlayParameters, TrackType};
use crate::request::builder::MusicRequestBuilder;
use crate::request::context::{ContextContainer, RequestContext, share};
use crate::request::extension::ExtensionTrait;
use crate::request::relationship::RelationshipTrait;
use crate::request::view::ViewTrait;
use crate::request::{
    FetchMany, FetchOne, below, catalog_endpoint, catalog_path, path_below, prepared,
    push_parameter,
};
use crate::resource::artwork::Artwork;
use crate::resource::attributes::{DescriptionAttribute, TitleOnlyAttribute};
use crate::resource::catalog::artist::Artist;
use crate::resource::catalog::curator::Curator;
use crate::resource::library::playlist::LibraryPlaylist;
use crate::resource::relationship::Relationship;
use crate::resource::view::View;
use crate::resource::{Resource, ResourceHeader};
use crate::text::{Named, join, joined, owned, slice_views};
use crate::{ApiClient, Method};
use std::sync::Arc;
use time::OffsetDateTime;
use vstd::prelude::*;
use vstd::view::View as _;

verus! {

/// Playlist
#[derive(Debug, PartialEq, Eq, Hash)]
pub struct Playlist {
    /// Resource header
    pub header: ResourceHeader,
    /// Playlist attributes
    pub attributes: Option<PlaylistAttributes>,
    /// Playlist relationships
    pub relationships: PlaylistRelationships,
    /// The views for associations between playlists and other resources
    pub views: PlaylistViews,
}

impl Playlist {
    /// Get playlist request builder
    pub fn get<'a>() -> (builder: PlaylistGetRequestBuilder<'a>)
        ensures
            builder.is_fresh(),
    {
        PlaylistGetRequestBuilder::default()
    }

    /// Whether `after` is this playlist with `context` stored in every relationship and view
    /// below it, and with nothing else changed.
    pub open spec fn attached(&self, context: Arc<RequestContext>, after: &Playlist) -> bool
        decreases self,
    {
        &&& after.header == self.header
        &&& after.attributes == self.attributes
        &&& self.relationships.attached(context, &after.relationships)
        &&& self.views.attached(context, &after.views)
    }

    /// Stores the context in every relationship and view below this playlist.
    pub fn attach(&mut self, context: &Arc<RequestContext>)
        ensures
            old(self).attached(*context, final(self)),
            final(self).attached(*context, final(self)),
        decreases *old(self),
    {
        self.relationships.attach(context);
        self.views.attach(context);
    }

    /// Whether `after` holds the items of `before`, one for one, with `context` stored in
    /// every relationship and view below each.
    pub open spec fn attached_each(
        before: Seq<Playlist>,
        context: Arc<RequestContext>,
        after: Seq<Playlist>,
    ) -> bool
        decreases before,
    {
        &&& after.len() == before.len()
        &&& forall|i: int|
            0 <= i < before.len() ==> (#[trigger] before[i]).attached(context, &after[i])
    }

    /// Stores the context below each of the items.
    pub fn attach_each(items: &mut Vec<Playlist>, context: &Arc<RequestContext>)
        ensures
            Playlist::attached_each(old(items)@, *context, final(items)@),
            Playlist::attached_each(final(items)@, *context, final(items)@),
        decreases *old(items),
    {
        let n = items.len();
        let mut i: usize = 0;
        while i < n
            invariant
                i <= n,
                items@.len() == n,
                old(items)@.len() == n,
                forall|j: int|
                    0 <= j < i ==> (#[trigger] old(items)@[j]).attached(*context, &items@[j]),
                forall|j: int| 0 <= j < i ==> (#[trigger] items@[j]).attached(*context, &items@[j]),
                forall|j: int| i <= j < n ==> items@[j] == old(items)@[j],
            decreases n - i,
        {
            items[i].attach(context);
            i += 1;
        }
    }

    /// Whether `after` is the relationship `before`, if there is one, with `context` stored
    /// in it and below each of its items.
    pub open spec fn attached_in(
        before: Option<Relationship<Playlist>>,
        context: Arc<RequestContext>,
        after: Option<Relationship<Playlist>>,
    ) -> bool
        decreases before,
    {
        match (before, after) {
            (Some(before), Some(after)) => {
                &&& after.context() == Some(context)
                &&& after.href == before.href
                &&& after.next == before.next
                &&& Playlist::attached_each(before.data@, context, after.data@)
            },
            (None, None) => true,
            _ => false,
        }
    }

    /// Stores the context in a relationship, if there is one, and below each of its items.
    pub fn attach_in(
        relationship: &mut Option<Relationship<Playlist>>,
        context: &Arc<RequestContext>,
    )
        ensures
            Playlist::attached_in(*old(relationship), *context, *final(relationship)),
            Playlist::attached_in(*final(relationship), *context, *final(relationship)),
        decreases *old(relationship),
    {
        match relationship {
            Some(relationship) => {
                relationship.install(share(context));
                Playlist::attach_each(&mut relationship.data, context);
            },
            None => {},
        }
    }

    /// Whether `after` is the view `before`, if there is one, with `context` stored in it
    /// and below each of its items.
    pub open spec fn attached_in_view<Attributes>(
        before: Option<View<Attributes, Playlist>>,
        context: Arc<RequestContext>,
        after: Option<View<Attributes, Playlist>>,
    ) -> bool
        decreases before,
    {
        match (before, after) {
            (Some(before), Some(after)) => {
                &&& after.context() == Some(context)
                &&& after.href == before.href
                &&& after.next == before.next
                &&& after.attributes == before.attributes
                &&& Playlist::attached_each(before.data@, context, after.data@)
            },
            (None, None) => true,
            _ => false,
        }
    }

    /// Stores the context in a view, if there is one, and below each of its items.
    pub fn attach_in_view<Attributes>(
        view: &mut Option<View<Attributes, Playlist>>,
        context: &Arc<RequestContext>,
    )
        ensures
            Playlist::attached_in_view(*old(view), *context, *final(view)),
            Playlist::attached_in_view(*final(view), *context, *final(view)),
        decreases *old(view),
    {
        match view {
            Some(view) => {
                view.install(share(context));
                Playlist::attach_each(&mut view.data, context);
            },
            None => {},
        }
    }

    /// A copy of this playlist.
    pub fn duplicate(&self) -> (copy: Playlist)
        ensures
            self.copied(&copy),
        decreases self,
    {
        Playlist {
            header: self.header.clone(),
            attributes: self.attributes.clone(),
            relationships: self.relationships.duplicate(),
            views: self.views.duplicate(),
        }
    }

    /// Copies of the items, in their order.
    pub fn duplicate_each(items: &Vec<Playlist>) -> (copies: Vec<Playlist>)
        ensures
            Playlist::copied_each(items@, copies@),
        decreases items,
    {
        let mut copies: Vec<Playlist> = Vec::new();
        let mut i: usize = 0;
        while i < items.len()
            invariant
                i <= items@.len(),
                copies@.len() == i,
                forall|j: int| 0 <= j < i ==> (#[trigger] items@[j]).copied(&copies@[j]),
            decreases items@.len() - i,
        {
            copies.push(items[i].duplicate());
            i += 1;
        }
        copies
    }

    /// A copy of a relationship, if there is one.
    pub fn duplicate_in(relationship: &Option<Relationship<Playlist>>) -> (copy: Option<
        Relationship<Playlist>,
    >)
        ensures
            Playlist::copied_in(*relationship, copy),
        decreases relationship,
    {
        match relationship {
            Some(relationship) => Some(
                Relationship {
                    href: relationship.href.clone(),
                    next: relationship.next.clone(),
                    data: Playlist::duplicate_each(&relationship.data),
                    context: relationship.context.clone(),
                },
            ),
            None => None,
        }
    }

    /// A copy of a view, if there is one.
    pub fn duplicate_in_view<Attributes: Clone>(view: &Option<View<Attributes, Playlist>>) -> (copy:
        Option<View<Attributes, Playlist>>)
        ensures
            Playlist::copied_in_view(*view, copy),
        decreases view,
    {
        match view {
            Some(view) => Some(
                View {
                    href: view.href.clone(),
                    next: view.next.clone(),
                    attributes: view.attributes.clone(),
                    data: Playlist::duplicate_each(&view.data),
                    context: view.context.clone(),
                },
            ),
            None => None,
        }
    }

    /// Whether `copy` holds what this playlist holds: the same header, a clone of the
    /// attributes, and a copy of every relationship and view below it, each with the
    /// context that it holds.
    pub open spec fn copied(&self, copy: &Playlist) -> bool
        decreases self,
    {
        &&& copy.header == self.header
        &&& cloned(self.attributes, copy.attributes)
        &&& self.relationships.copied(&copy.relationships)
        &&& self.views.copied(&copy.views)
    }

    /// Whether `copies` holds a copy of each of the items, in their order.
    pub open spec fn copied_each(items: Seq<Playlist>, copies: Seq<Playlist>) -> bool
        decreases items,
    {
        &&& copies.len() == items.len()
        &&& forall|i: int| 0 <= i < items.len() ==> (#[trigger] items[i]).copied(&copies[i])
    }

    /// Whether `copy` is a copy of a relationship, if there is one: with the same
    /// locations, the same context and a copy of each of its items.
    pub open spec fn copied_in(
        relationship: Option<Relationship<Playlist>>,
        copy: Option<Relationship<Playlist>>,
    ) -> bool
        decreases relationship,
    {
        match (relationship, copy) {
            (Some(relationship), Some(copy)) => {
                &&& copy.href == relationship.href
                &&& copy.next == relationship.next
                &&& copy.context() == relationship.context()
                &&& Playlist::copied_each(relationship.data@, copy.data@)
            },
            (None, None) => true,
            _ => false,
        }
    }

    /// Whether `copy` is a copy of a view, if there is one: with the same locations, the
    /// same context, a clone of the attributes and a copy of each of its items.
    pub open spec fn copied_in_view<Attributes: Clone>(
        view: Option<View<Attributes, Playlist>>,
        copy: Option<View<Attributes, Playlist>>,
    ) -> bool
        decreases view,
    {
        match (view, copy) {
            (Some(view), Some(copy)) => {
                &&& copy.href == view.href
                &&& copy.next == view.next
                &&& copy.context() == view.context()
                &&& cloned(view.attributes, copy.attributes)
                &&& Playlist::copied_each(view.data@, copy.data@)
            },
            (None, None) => true,
            _ => false,
        }
    }
}

impl ContextContainer for Playlist {
    open spec fn propagated(&self, context: Arc<RequestContext>, after: &Self) -> bool {
        self.attached(context, after)
    }

    fn set_context(&mut self, context: Arc<RequestContext>) {
        self.attach(&context);
    }
}

impl Clone for Playlist {
    fn clone(&self) -> (copy: Self)
        ensures
            self.copied(&copy),
    {
        self.duplicate()
    }
}

/// Playlist attributes
#[derive(Debug, Clone, PartialEq, Eq, Hash)]
pub struct PlaylistAttributes {
    /// Playlist artwork
    pub artwork: Option<Artwork>,
    /// The display name of the curator
    pub curator_name: String,
    /// A description of the playlist
    pub description: Option<DescriptionAttribute>,
    /// Indicates whether the playlist represents a popularity chart
    pub is_chart: bool,
    /// The date the playlist was last modified
    pub last_modified_date: OffsetDateTime,
    /// The localized name of the playlist
    pub name: String,
    /// The type of playlist
    pub playlist_type: PlaylistType,
    /// The parameters to use to play back the tracks in the playlist
    pub play_params: Option<PlayParameters>,
    /// The URL for sharing the playlist in Apple Music
    pub url: String,
    /// **(Extended)** The resource types that are present in the tracks of the playlists
    pub track_types: Option<Vec<TrackType>>,
}

/// The extensions that can be asked for with playlists
#[derive(Debug, Copy, Clone, PartialEq, Eq, Hash)]
pub enum PlaylistAttributesExtension {
    /// **(Extended)** The resource types that are present in the tracks of the playlists
    TrackTypes,
}

impl Named for PlaylistAttributesExtension {
    open spec fn name(&self) -> Seq<char> {
        match self {
            PlaylistAttributesExtension::TrackTypes => "trackTypes"@,
        }
    }

    fn to_string(&self) -> (name: String) {
        let name = match self {
            PlaylistAttributesExtension::TrackTypes => "trackTypes",
        };
        owned(name)
    }
}

impl ExtensionTrait for PlaylistAttributesExtension {
    open spec fn object(&self) -> Seq<char> {
        "playlists"@
    }

    fn get_object(&self) -> (object: &'static str) {
        "playlists"
    }
}

/// Playlist relationships
#[derive(Default, Debug, PartialEq, Eq, Hash)]
pub struct PlaylistRelationships {
    /// The curator that created the playlist. By default, curator includes identifiers only.
    ///
    /// Fetch limits: None
    ///
    /// Possible resources: [`Activity`], [`AppleCurator`], [`Curator`]
    pub curator: Option<Relationship<Resource>>,
    /// Library playlist for a catalog playlist if added to library.
    ///
    /// Possible resources: [`LibraryPlaylist`]
    pub library: Option<Relationship<LibraryPlaylist>>,
    /// The songs and music videos included in the playlist. By default, tracks includes objects.
    ///
    /// Fetch limits: 100 default, 300 maximum
    ///
    /// Possible resources: [`MusicVideo`], [`Song`]
    pub tracks: Option<Relationship<Resource>>,
}

/// The relationships that can be asked for with playlists
#[derive(Debug, Copy, Clone, PartialEq, Eq, Hash)]
pub enum PlaylistRelationshipType {
    /// The curator that created the playlist. By default, curator includes identifiers only.
    ///
    /// Fetch limits: None
    ///
    /// Possible resources: [`Activity`], [`AppleCurator`], [`Curator`]
    Curator,
    /// Library playlist for a catalog playlist if added to library.
    ///
    /// Possible resources: [`LibraryPlaylist`]
    Library,
    /// The songs and music videos included in the playlist. By default, tracks includes objects.
    ///
    /// Fetch limits: 100 default, 300 maximum
    ///
    /// Possible resources: [`MusicVideo`], [`Song`]
    Tracks,
}

impl Named for PlaylistRelationshipType {
    open spec fn name(&self) -> Seq<char> {
        match self {
            PlaylistRelationshipType::Curator => "curator"@,
            PlaylistRelationshipType::Library => "library"@,
            PlaylistRelationshipType::Tracks => "tracks"@,
        }
    }

    fn to_string(&self) -> (name: String) {
        let name = match self {
            PlaylistRelationshipType::Curator => "curator",
            PlaylistRelationshipType::Library => "library",
            PlaylistRelationshipType::Tracks => "tracks",
        };
        owned(name)
    }
}

impl RelationshipTrait for PlaylistRelationshipType {
    open spec fn object(&self) -> Seq<char> {
        "playlists"@
    }

    fn get_object(&self) -> (object: &'static str) {
        "playlists"
    }
}

impl PlaylistRelationships {
    /// Whether `after` holds these relationships with `context` stored in each of them and
    /// below each of their items, and with nothing else changed.
    pub open spec fn attached(
        &self,
        context: Arc<RequestContext>,
        after: &PlaylistRelationships,
    ) -> bool
        decreases self,
    {
        &&& Resource::attached_in(self.curator, context, after.curator)
        &&& LibraryPlaylist::attached_in(self.library, context, after.library)
        &&& Resource::attached_in(self.tracks, context, after.tracks)
    }

    /// Stores the context in each of these relationships and below each of their items.
    pub fn attach(&mut self, context: &Arc<RequestContext>)
        ensures
            old(self).attached(*context, final(self)),
            final(self).attached(*context, final(self)),
        decreases *old(self),
    {
        Resource::attach_in(&mut self.curator, context);
        LibraryPlaylist::attach_in(&mut self.library, context);
        Resource::attach_in(&mut self.tracks, context);
    }

    /// A copy of these relationships.
    pub fn duplicate(&self) -> (copy: PlaylistRelationships)
        ensures
            self.copied(&copy),
        decreases self,
    {
        PlaylistRelationships {
            curator: Resource::duplicate_in(&self.curator),
            library: LibraryPlaylist::duplicate_in(&self.library),
            tracks: Resource::duplicate_in(&self.tracks),
        }
    }

    /// Whether `copy` holds a copy of each of these relationships, with the context that it
    /// holds and a copy of each of its items.
    pub open spec fn copied(&self, copy: &PlaylistRelationships) -> bool
        decreases self,
    {
        &&& Resource::copied_in(self.curator, copy.curator)
        &&& LibraryPlaylist::copied_in(self.library, copy.library)
        &&& Resource::copied_in(self.tracks, copy.tracks)
    }
}

impl ContextContainer for PlaylistRelationships {
    open spec fn propagated(&self, context: Arc<RequestContext>, after: &Self) -> bool {
        self.attached(context, after)
    }

    fn set_context(&mut self, context: Arc<RequestContext>) {
        self.attach(&context);
    }
}

impl Clone for PlaylistRelationships {
    fn clone(&self) -> (copy: Self)
        ensures
            self.copied(&copy),
    {
        self.duplicate()
    }
}

/// Playlist views
#[derive(Default, Debug, PartialEq, Eq, Hash)]
pub struct PlaylistViews {
    /// Artists that are featured on this playlist
    ///
    /// Possible resources: [`Artist`]
    pub featured_artists: Option<View<TitleOnlyAttribute, Artist>>,
    /// Additional content by the same curator for this playlist
    ///
    /// Possible resources: [`Playlist`]
    pub more_by_curator: Option<View<TitleOnlyAttribute, Playlist>>,
}

/// The views that can be asked for with playlists
#[derive(Debug, Copy, Clone, PartialEq, Eq, Hash)]
pub enum PlaylistViewType {
    /// Artists that are featured on this playlist
    ///
    /// Possible resources: [`Artist`]
    FeaturedArtists,
    /// Additional content by the same curator for this playlist
    ///
    /// Possible resources: [`Playlist`]
    MoreByCurator,
}

impl Named for PlaylistViewType {
    open spec fn name(&self) -> Seq<char> {
        match self {
            PlaylistViewType::FeaturedArtists => "featured-artists"@,
            PlaylistViewType::MoreByCurator => "more-by-curator"@,
        }
    }

    fn to_string(&self) -> (name: String) {
        let name = match self {
            PlaylistViewType::FeaturedArtists => "featured-artists",
            PlaylistViewType::MoreByCurator => "more-by-curator",
        };
        owned(name)
    }
}

impl ViewTrait for PlaylistViewType {
    open spec fn object(&self) -> Seq<char> {
        "playlists"@
    }

    fn get_object(&self) -> (object: &'static str) {
        "playlists"
    }
}

impl PlaylistViews {
    /// Whether `after` holds these views with `context` stored in each of them and
    /// below each of their items, and with nothing else changed.
    pub open spec fn attached(&self, context: Arc<RequestContext>, after: &PlaylistViews) -> bool
        decreases self,
    {
        &&& Artist::attached_in_view(self.featured_artists, context, after.featured_artists)
        &&& Playlist::attached_in_view(self.more_by_curator, context, after.more_by_curator)
    }

    /// Stores the context in each of these views and below each of their items.
    pub fn attach(&mut self, context: &Arc<RequestContext>)
        ensures
            old(self).attached(*context, final(self)),
            final(self).attached(*context, final(self)),
        decreases *old(self),
    {
        Artist::attach_in_view(&mut self.featured_artists, context);
        Playlist::attach_in_view(&mut self.more_by_curator, context);
    }

    /// A copy of these views.
    pub fn duplicate(&self) -> (copy: PlaylistViews)
        ensures
            self.copied(&copy),
        decreases self,
    {
        PlaylistViews {
            featured_artists: Artist::duplicate_in_view(&self.featured_artists),
            more_by_curator: Playlist::duplicate_in_view(&self.more_by_curator),
        }
    }

    /// Whether `copy` holds a copy of each of these views, with the context that it
    /// holds and a copy of each of its items.
    pub open spec fn copied(&self, copy: &PlaylistViews) -> bool
        decreases self,
    {
        &&& Artist::copied_in_view(self.featured_artists, copy.featured_artists)
        &&& Playlist::copied_in_view(self.more_by_curator, copy.more_by_curator)
    }
}

impl ContextContainer for PlaylistViews {
    open spec fn propagated(&self, context: Arc<RequestContext>, after: &Self) -> bool {
        self.attached(context, after)
    }

    fn set_context(&mut self, context: Arc<RequestContext>) {
        self.attach(&context);
    }
}

impl Clone for PlaylistViews {
    fn clone(&self) -> (copy: Self)
        ensures
            self.copied(&copy),
    {
        self.duplicate()
    }
}

/// Playlist type
#[derive(Default, Debug, Clone, PartialEq, Eq, Hash)]
pub enum PlaylistType {
    /// A playlist created by an Apple Music curator
    Editorial,
    /// A playlist created by a non-Apple curator or brand
    External,
    /// A personalized playlist for an Apple Music user
    PersonalMix,
    /// A personalized Apple Music Replay playlist for an Apple Music user
    Replay,
    /// A playlist created and shared by an Apple Music user
    #[default]
    UserShared,
}

/// Playlist request builder
pub struct PlaylistRequestBuilder;

/// Playlist get request builder
pub type PlaylistGetRequestBuilder<'a> = MusicRequestBuilder<'a, PlaylistRequestBuilder>;

impl<'a> PlaylistGetRequestBuilder<'a> {
    /// Fetch one playlist by id
    pub fn one(self, client: &ApiClient, id: &str) -> (fetch: FetchOne<Playlist>)
        ensures
            prepared(
                fetch.request,
                fetch.context,
                Method::Get,
                below(catalog_endpoint(self.storefront(client), "playlists"@), id@),
                self.storefront(client),
                self.query(client),
            ),
    {
        let mut builder = self;
        let context = builder.get_request_context_drain(client);
        let endpoint = catalog_path(&context.storefront, "playlists");
        let path = path_below(endpoint.as_str(), id);
        FetchOne::new(client.get(path.as_str()), context)
    }

    /// Fetch many playlists by id
    pub fn many(self, client: &ApiClient, ids: &[&str]) -> (fetch: FetchMany<Playlist>)
        ensures
            prepared(
                fetch.request,
                fetch.context,
                Method::Get,
                catalog_endpoint(self.storefront(client), "playlists"@),
                self.storefront(client),
                self.query(client).push(("ids"@, joined(slice_views(ids@), ","@))),
            ),
    {
        let mut builder = self;
        let mut context = builder.get_request_context_drain(client);
        push_parameter(&mut context, "ids", join(ids, ","));
        let endpoint = catalog_path(&context.storefront, "playlists");
        FetchMany::new(client.get(endpoint.as_str()), context)
    }

    /// Fetch chart playlists by storefront value
    pub fn chart(self, client: &ApiClient, storefront: &str) -> (fetch: FetchMany<Playlist>)
        ensures
            prepared(
                fetch.request,
                fetch.context,
                Method::Get,
                catalog_endpoint(self.storefront(client), "playlists"@),
                self.storefront(client),
                self.query(client).push(("filter[storefront-chart]"@, storefront@)),
            ),
    {
        let mut builder = self;
        let mut context = builder.get_request_context_drain(client);
        push_parameter(&mut context, "filter[storefront-chart]", owned(storefront));
        let endpoint = catalog_path(&context.storefront, "playlists");
        FetchMany::new(client.get(endpoint.as_str()), context)
    }
}

} // verus!
