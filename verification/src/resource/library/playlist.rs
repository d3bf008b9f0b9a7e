//! Library playlist

use crate::error::ApiError;
use crate::primitive::PlayParameters;
use crate::request::builder::MusicRequestBuilder;
use crate::request::context::{ContextContainer, RequestContext, share};
use crate::request::extension::ExtensionTrait;
use crate::request::fields::query_view;
use crate::request::paginated::{Paginator, Progress, paginate};
use crate::request::relationship::RelationshipTrait;
use crate::request::{
    FetchMany, FetchOne, Submission, below, path_below, prepared, push_parameter, sends,
};
use crate::resource::artwork::Artwork;
use crate::resource::attributes::DescriptionAttribute;
use crate::resource::catalog::music_video::MusicVideo;
use crate::resource::catalog::playlist::Playlist;
use crate::resource::catalog::song::Song;
use crate::resource::library::music_video::LibraryMusicVideo;
use crate::resource::library::song::LibrarySong;
use crate::resource::relationship::Relationship;
use crate::resource::{Resource, ResourceHeader, ResourceInfo, ResourceType};
use crate::text::{Named, decimal, join, joined, owned, slice_views, to_decimal};
use crate::{ApiClient, Method, Request};
use std::sync::Arc;
use time::OffsetDateTime;
use vstd::prelude::*;

verus! {

/// Library playlist
#[derive(Default, Debug, PartialEq, Eq, Hash)]
pub struct LibraryPlaylist {
    /// Resource header
    pub header: ResourceHeader,
    /// Library playlist attributes
    pub attributes: Option<LibraryPlaylistAttributes>,
    /// Library playlist relationships
    pub relationships: LibraryPlaylistRelationships,
}

impl LibraryPlaylist {
    /// Get library playlist request builder
    pub fn get<'a>() -> (builder: LibraryPlaylistGetRequestBuilder<'a>)
        ensures
            builder.is_fresh(),
    {
        LibraryPlaylistGetRequestBuilder::default()
    }

    /// Create a new library playlist
    pub fn create<'localization, 'name>(name: &'name str) -> (builder: LibraryPlaylistCreateBuilder<
        'localization,
        'name,
    >)
        ensures
            builder.is_fresh(),
            builder.data() == LibraryPlaylistCreateRequest::named(name),
    {
        LibraryPlaylistCreateBuilder::new(name)
    }

    /// Add tracks to this library playlist
    ///
    /// Every track has to be a song or a music video, of the catalog or of the library.
    /// The request carries the localization of the client.
    pub fn add_tracks(&self, client: &ApiClient, tracks: &[&Resource]) -> (submission: Result<
        Submission<Request, LibraryPlaylistAddRequest>,
        ApiError,
    >)
        ensures
            match submission {
                Ok(submission) => {
                    &&& forall|i: int| 0 <= i < tracks@.len() ==> is_track(#[trigger] tracks@[i])
                    &&& sends(
                        submission.request,
                        Method::Post,
                        below(below("/v1/me/library/playlists"@, self.header.id@), "tracks"@),
                        seq![("l"@, client.localization())],
                    )
                    &&& thin_views(submission.body.data@) == references(tracks@)
                },
                Err(error) => {
                    &&& error is InvalidResourceType
                    &&& exists|i: int| 0 <= i < tracks@.len() && !is_track(#[trigger] tracks@[i])
                },
            },
    {
        let mut data: Vec<ThinRelationship> = Vec::new();
        match push_references(&mut data, tracks) {
            Ok(()) => {},
            Err(error) => {
                return Err(error);
            },
        }
        let playlist = path_below("/v1/me/library/playlists", self.header.id.as_str());
        let path = path_below(playlist.as_str(), "tracks");
        let mut query: Vec<(String, String)> = Vec::new();
        query.push((owned("l"), owned(client.get_localization())));
        assert(query_view(query@) =~= seq![("l"@, client.localization())]);
        let request = client.post(path.as_str()).query(&query);
        assert(thin_views(data@) =~= references(tracks@));
        Ok(Submission { request, body: LibraryPlaylistAddRequest { data } })
    }

    /// Whether `after` is this library playlist with `context` stored in every relationship and view
    /// below it, and with nothing else changed.
    pub open spec fn attached(&self, context: Arc<RequestContext>, after: &LibraryPlaylist) -> bool
        decreases self,
    {
        &&& after.header == self.header
        &&& after.attributes == self.attributes
        &&& self.relationships.attached(context, &after.relationships)
    }

    /// Stores the context in every relationship and view below this library playlist.
    pub fn attach(&mut self, context: &Arc<RequestContext>)
        ensures
            old(self).attached(*context, final(self)),
            final(self).attached(*context, final(self)),
        decreases *old(self),
    {
        self.relationships.attach(context);
    }

    /// Whether `after` holds the items of `before`, one for one, with `context` stored in
    /// every relationship and view below each.
    pub open spec fn attached_each(
        before: Seq<LibraryPlaylist>,
        context: Arc<RequestContext>,
        after: Seq<LibraryPlaylist>,
    ) -> bool
        decreases before,
    {
        &&& after.len() == before.len()
        &&& forall|i: int|
            0 <= i < before.len() ==> (#[trigger] before[i]).attached(context, &after[i])
    }

    /// Stores the context below each of the items.
    pub fn attach_each(items: &mut Vec<LibraryPlaylist>, context: &Arc<RequestContext>)
        ensures
            LibraryPlaylist::attached_each(old(items)@, *context, final(items)@),
            LibraryPlaylist::attached_each(final(items)@, *context, final(items)@),
        decreases *old(items),
    {
        let n = items.len();
        let mut i: usize = 0;
        while i < n
            invariant
                i <= n,
                items@.len() == n,
                old(items)@.len() == n,
                forall|j: int|
                    0 <= j < i ==> (#[trigger] old(items)@[j]).attached(*context, &items@[j]),
                forall|j: int| 0 <= j < i ==> (#[trigger] items@[j]).attached(*context, &items@[j]),
                forall|j: int| i <= j < n ==> items@[j] == old(items)@[j],
            decreases n - i,
        {
            items[i].attach(context);
            i += 1;
        }
    }

    /// Whether `after` is the relationship `before`, if there is one, with `context` stored
    /// in it and below each of its items.
    pub open spec fn attached_in(
        before: Option<Relationship<LibraryPlaylist>>,
        context: Arc<RequestContext>,
        after: Option<Relationship<LibraryPlaylist>>,
    ) -> bool
        decreases before,
    {
        match (before, after) {
            (Some(before), Some(after)) => {
                &&& after.context() == Some(context)
                &&& after.href == before.href
                &&& after.next == before.next
                &&& LibraryPlaylist::attached_each(before.data@, context, after.data@)
            },
            (None, None) => true,
            _ => false,
        }
    }

    /// Stores the context in a relationship, if there is one, and below each of its items.
    pub fn attach_in(
        relationship: &mut Option<Relationship<LibraryPlaylist>>,
        context: &Arc<RequestContext>,
    )
        ensures
            LibraryPlaylist::attached_in(*old(relationship), *context, *final(relationship)),
            LibraryPlaylist::attached_in(*final(relationship), *context, *final(relationship)),
        decreases *old(relationship),
    {
        match relationship {
            Some(relationship) => {
                relationship.install(share(context));
                LibraryPlaylist::attach_each(&mut relationship.data, context);
            },
            None => {},
        }
    }

    /// A copy of this library playlist.
    pub fn duplicate(&self) -> (copy: LibraryPlaylist)
        ensures
            self.copied(&copy),
        decreases self,
    {
        LibraryPlaylist {
            header: self.header.clone(),
            attributes: self.attributes.clone(),
            relationships: self.relationships.duplicate(),
        }
    }

    /// Copies of the items, in their order.
    pub fn duplicate_each(items: &Vec<LibraryPlaylist>) -> (copies: Vec<LibraryPlaylist>)
        ensures
            LibraryPlaylist::copied_each(items@, copies@),
        decreases items,
    {
        let mut copies: Vec<LibraryPlaylist> = Vec::new();
        let mut i: usize = 0;
        while i < items.len()
            invariant
                i <= items@.len(),
                copies@.len() == i,
                forall|j: int| 0 <= j < i ==> (#[trigger] items@[j]).copied(&copies@[j]),
            decreases items@.len() - i,
        {
            copies.push(items[i].duplicate());
            i += 1;
        }
        copies
    }

    /// A copy of a relationship, if there is one.
    pub fn duplicate_in(relationship: &Option<Relationship<LibraryPlaylist>>) -> (copy: Option<
        Relationship<LibraryPlaylist>,
    >)
        ensures
            LibraryPlaylist::copied_in(*relationship, copy),
        decreases relationship,
    {
        match relationship {
            Some(relationship) => Some(
                Relationship {
                    href: relationship.href.clone(),
                    next: relationship.next.clone(),
                    data: LibraryPlaylist::duplicate_each(&relationship.data),
                    context: relationship.context.clone(),
                },
            ),
            None => None,
        }
    }

    /// Whether `copy` holds what this library playlist holds: the same header, a clone of the
    /// attributes, and a copy of every relationship and view below it, each with the
    /// context that it holds.
    pub open spec fn copied(&self, copy: &LibraryPlaylist) -> bool
        decreases self,
    {
        &&& copy.header == self.header
        &&& cloned(self.attributes, copy.attributes)
        &&& self.relationships.copied(&copy.relationships)
    }

    /// Whether `copies` holds a copy of each of the items, in their order.
    pub open spec fn copied_each(items: Seq<LibraryPlaylist>, copies: Seq<LibraryPlaylist>) -> bool
        decreases items,
    {
        &&& copies.len() == items.len()
        &&& forall|i: int| 0 <= i < items.len() ==> (#[trigger] items[i]).copied(&copies[i])
    }

    /// Whether `copy` is a copy of a relationship, if there is one: with the same
    /// locations, the same context and a copy of each of its items.
    pub open spec fn copied_in(
        relationship: Option<Relationship<LibraryPlaylist>>,
        copy: Option<Relationship<LibraryPlaylist>>,
    ) -> bool
        decreases relationship,
    {
        match (relationship, copy) {
            (Some(relationship), Some(copy)) => {
                &&& copy.href == relationship.href
                &&& copy.next == relationship.next
                &&& copy.context() == relationship.context()
                &&& LibraryPlaylist::copied_each(relationship.data@, copy.data@)
            },
            (None, None) => true,
            _ => false,
        }
    }
}

impl ContextContainer for LibraryPlaylist {
    open spec fn propagated(&self, context: Arc<RequestContext>, after: &Self) -> bool {
        self.attached(context, after)
    }

    fn set_context(&mut self, context: Arc<RequestContext>) {
        self.attach(&context);
    }
}

impl Clone for LibraryPlaylist {
    fn clone(&self) -> (copy: Self)
        ensures
            self.copied(&copy),
    {
        self.duplicate()
    }
}

/// Library playlist attributes
#[derive(Default, Debug, Clone, PartialEq, Eq, Hash)]
pub struct LibraryPlaylistAttributes {
    /// Playlist artwork
    pub artwork: Option<Artwork>,
    /// Indicates whether the playlist is editable
    pub can_edit: bool,
    /// The date and time the playlist was added to the user's library.
    /// In YYYY-MM-DDThh:mm:ssZ ISO 8601 format
    pub date_added: Option<OffsetDateTime>,
    /// A description of the playlist
    pub description: Option<DescriptionAttribute>,
    /// Indicates whether the playlist has a representation in the Apple Music catalog
    pub has_catalog: bool,
    /// The localized name of the playlist
    pub name: String,
    /// The parameters to use to play back the tracks in the playlist
    pub play_params: Option<PlayParameters>,
    /// A flag to indicate whether the library playlist is a public playlist
    pub is_public: bool,
    /// **(Extended)** The resource types that are present in the tracks of the library playlist
    pub track_types: Option<Vec<LibraryTrackTypes>>,
}

/// The extensions that can be asked for with library playlists
#[derive(Debug, Copy, Clone, PartialEq, Eq, Hash)]
pub enum LibraryPlaylistAttributesExtension {
    /// **(Extended)** The resource types that are present in the tracks of the library playlist
    TrackTypes,
}

impl Named for LibraryPlaylistAttributesExtension {
    open spec fn name(&self) -> Seq<char> {
        match self {
            LibraryPlaylistAttributesExtension::TrackTypes => "trackTypes"@,
        }
    }

    fn to_string(&self) -> (name: String) {
        let name = match self {
            LibraryPlaylistAttributesExtension::TrackTypes => "trackTypes",
        };
        owned(name)
    }
}

impl ExtensionTrait for LibraryPlaylistAttributesExtension {
    open spec fn object(&self) -> Seq<char> {
        "library-playlists"@
    }

    fn get_object(&self) -> (object: &'static str) {
        "library-playlists"
    }
}

/// Library playlist relationships
#[derive(Default, Debug, PartialEq, Eq, Hash)]
pub struct LibraryPlaylistRelationships {
    /// The corresponding playlist in the Apple Music catalog the playlist is associated with.
    ///
    /// Fetch limits: None (associated with at most one catalog playlist)
    ///
    /// Possible resources: [`Playlist`]
    pub catalog: Option<Relationship<Playlist>>,
    /// The library songs and library music videos included in the playlist. By default, tracks not included. Only available when fetching a single library playlist resource by ID.
    ///
    /// Fetch limits: 100 default, 100 maximum.
    ///
    /// Possible resources: [`LibrarySong`], [`LibraryMusicVideo`]
    pub tracks: Option<Relationship<Resource>>,
}

/// The relationships that can be asked for with library playlists
#[derive(Debug, Copy, Clone, PartialEq, Eq, Hash)]
pub enum LibraryPlaylistRelationshipType {
    /// The corresponding playlist in the Apple Music catalog the playlist is associated with.
    ///
    /// Fetch limits: None (associated with at most one catalog playlist)
    ///
    /// Possible resources: [`Playlist`]
    Catalog,
    /// The library songs and library music videos included in the playlist. By default, tracks not included. Only available when fetching a single library playlist resource by ID.
    ///
    /// Fetch limits: 100 default, 100 maximum.
    ///
    /// Possible resources: [`LibrarySong`], [`LibraryMusicVideo`]
    Tracks,
}

impl Named for LibraryPlaylistRelationshipType {
    open spec fn name(&self) -> Seq<char> {
        match self {
            LibraryPlaylistRelationshipType::Catalog => "catalog"@,
            LibraryPlaylistRelationshipType::Tracks => "tracks"@,
        }
    }

    fn to_string(&self) -> (name: String) {
        let name = match self {
            LibraryPlaylistRelationshipType::Catalog => "catalog",
            LibraryPlaylistRelationshipType::Tracks => "tracks",
        };
        owned(name)
    }
}

impl RelationshipTrait for LibraryPlaylistRelationshipType {
    open spec fn object(&self) -> Seq<char> {
        "library-playlists"@
    }

    fn get_object(&self) -> (object: &'static str) {
        "library-playlists"
    }
}

impl LibraryPlaylistRelationships {
    /// Whether `after` holds these relationships with `context` stored in each of them and
    /// below each of their items, and with nothing else changed.
    pub open spec fn attached(
        &self,
        context: Arc<RequestContext>,
        after: &LibraryPlaylistRelationships,
    ) -> bool
        decreases self,
    {
        &&& Playlist::attached_in(self.catalog, context, after.catalog)
        &&& Resource::attached_in(self.tracks, context, after.tracks)
    }

    /// Stores the context in each of these relationships and below each of their items.
    pub fn attach(&mut self, context: &Arc<RequestContext>)
        ensures
            old(self).attached(*context, final(self)),
            final(self).attached(*context, final(self)),
        decreases *old(self),
    {
        Playlist::attach_in(&mut self.catalog, context);
        Resource::attach_in(&mut self.tracks, context);
    }

    /// A copy of these relationships.
    pub fn duplicate(&self) -> (copy: LibraryPlaylistRelationships)
        ensures
            self.copied(&copy),
        decreases self,
    {
        LibraryPlaylistRelationships {
            catalog: Playlist::duplicate_in(&self.catalog),
            tracks: Resource::duplicate_in(&self.tracks),
        }
    }

    /// Whether `copy` holds a copy of each of these relationships, with the context that it
    /// holds and a copy of each of its items.
    pub open spec fn copied(&self, copy: &LibraryPlaylistRelationships) -> bool
        decreases self,
    {
        &&& Playlist::copied_in(self.catalog, copy.catalog)
        &&& Resource::copied_in(self.tracks, copy.tracks)
    }
}

impl ContextContainer for LibraryPlaylistRelationships {
    open spec fn propagated(&self, context: Arc<RequestContext>, after: &Self) -> bool {
        self.attached(context, after)
    }

    fn set_context(&mut self, context: Arc<RequestContext>) {
        self.attach(&context);
    }
}

impl Clone for LibraryPlaylistRelationships {
    fn clone(&self) -> (copy: Self)
        ensures
            self.copied(&copy),
    {
        self.duplicate()
    }
}

/// Library playlist request builder
pub struct LibraryPlaylistRequestBuilder;

/// Library playlist get request builder
pub type LibraryPlaylistGetRequestBuilder<'a> = MusicRequestBuilder<
    'a,
    LibraryPlaylistRequestBuilder,
>;

impl<'a> LibraryPlaylistGetRequestBuilder<'a> {
    /// Fetch one library playlist by id
    pub fn one(self, client: &ApiClient, id: &str) -> (fetch: FetchOne<LibraryPlaylist>)
        ensures
            prepared(
                fetch.request,
                fetch.context,
                Method::Get,
                below("/v1/me/library/playlists"@, id@),
                self.storefront(client),
                self.query(client),
            ),
    {
        let mut builder = self;
        let context = builder.get_request_context_drain(client);
        let endpoint = owned("/v1/me/library/playlists");
        let path = path_below(endpoint.as_str(), id);
        FetchOne::new(client.get(path.as_str()), context)
    }

    /// Fetch multiple library playlists by id
    pub fn many(self, client: &ApiClient, ids: &[&str]) -> (fetch: FetchMany<LibraryPlaylist>)
        ensures
            prepared(
                fetch.request,
                fetch.context,
                Method::Get,
                "/v1/me/library/playlists"@,
                self.storefront(client),
                self.query(client).push(("ids"@, joined(slice_views(ids@), ","@))),
            ),
    {
        let mut builder = self;
        let mut context = builder.get_request_context_drain(client);
        push_parameter(&mut context, "ids", join(ids, ","));
        let endpoint = owned("/v1/me/library/playlists");
        FetchMany::new(client.get(endpoint.as_str()), context)
    }

    /// Fetch all library playlists
    /// # Params
    ///
    /// * limit - limit of entries per query
    ///
    /// * offset - query offset
    pub fn all(
        self,
        client: &ApiClient,
        limit: usize,
        offset: usize,
    ) -> (pages: Paginator<LibraryPlaylist>)
        ensures
            pages.endpoint() == "/v1/me/library/playlists"@,
            pages.context().storefront == self.storefront(client),
            query_view(pages.context().query@) == self.query(client).push(
                ("limit"@, decimal(limit as nat)),
            ),
            pages@ == (Progress { offset: offset as nat, finished: false }),
    {
        let mut builder = self;
        let mut context = builder.get_request_context_drain(client);
        push_parameter(&mut context, "limit", to_decimal(limit));
        let endpoint = owned("/v1/me/library/playlists");
        paginate(endpoint, context, offset)
    }
}

/// Library playlist creation request
#[derive(Debug, Clone, PartialEq, Eq)]
pub struct LibraryPlaylistCreateRequest<'a> {
    /// Creation attributes
    pub attributes: LibraryPlaylistCreateRequestAttributes<'a>,
    /// Relationships
    pub relationships: LibraryPlaylistCreateRequestRelationships,
}

/// Library playlist creation attributes
#[derive(Debug, Clone, PartialEq, Eq)]
pub struct LibraryPlaylistCreateRequestAttributes<'a> {
    /// Playlist name
    pub name: &'a str,
    /// Playlist description
    pub description: Option<String>,
    /// Is playlist public
    pub public: bool,
}

/// Library playlist creation relationships
#[derive(Debug, Clone, PartialEq, Eq)]
pub struct LibraryPlaylistCreateRequestRelationships {
    /// The tracks to create the playlist with
    pub tracks: Option<AddedTrackRelationships>,
    /// The folder to create the playlist in
    pub parent: Option<ParentRelationship>,
}

/// The tracks that a playlist is created with
#[derive(Debug, Clone, PartialEq, Eq)]
pub struct AddedTrackRelationships {
    /// References to the tracks
    pub data: Vec<ThinRelationship>,
}

/// The folder that a playlist is created in
#[derive(Debug, Clone, PartialEq, Eq)]
pub struct ParentRelationship {
    /// The reference to the folder
    pub data: [ThinRelationship; 1],
}

/// A reference to a resource
#[derive(Debug, Clone, PartialEq, Eq)]
pub struct ThinRelationship {
    /// Relationship id
    pub id: String,
    /// Relationship type
    pub ty: String,
}

/// The identifier and the type of each reference.
pub open spec fn thin_views(data: Seq<ThinRelationship>) -> Seq<(Seq<char>, Seq<char>)> {
    Seq::new(data.len(), |i: int| (data[i].id@, data[i].ty@))
}

/// The identifier and the type of each resource.
pub open spec fn references(resources: Seq<&Resource>) -> Seq<(Seq<char>, Seq<char>)> {
    Seq::new(resources.len(), |i: int| (resources[i].header().id@, resources[i].wire_type()))
}

/// Whether a resource can be a track of a library playlist.
pub open spec fn is_track(resource: &Resource) -> bool {
    ||| resource is MusicVideo
    ||| resource is Song
    ||| resource is LibraryMusicVideo
    ||| resource is LibrarySong
}

/// The references that stand under the tracks of a creation request.
pub open spec fn added_tracks(
    tracks: Option<AddedTrackRelationships>,
) -> Seq<(Seq<char>, Seq<char>)> {
    match tracks {
        Some(tracks) => thin_views(tracks.data@),
        None => Seq::empty(),
    }
}

/// Appends a reference to each of the resources, as long as they can be tracks of a
/// library playlist.
fn push_references(data: &mut Vec<ThinRelationship>, resources: &[&Resource]) -> (pushed: Result<
    (),
    ApiError,
>)
    ensures
        match pushed {
            Ok(()) => {
                &&& forall|i: int| 0 <= i < resources@.len() ==> is_track(#[trigger] resources@[i])
                &&& thin_views(final(data)@) == thin_views(old(data)@) + references(resources@)
            },
            Err(error) => {
                &&& error is InvalidResourceType
                &&& exists|i: int| 0 <= i < resources@.len() && !is_track(#[trigger] resources@[i])
            },
        },
{
    let ghost start = thin_views(data@);
    let mut i: usize = 0;
    while i < resources.len()
        invariant
            i <= resources@.len(),
            forall|j: int| 0 <= j < i ==> is_track(#[trigger] resources@[j]),
            thin_views(data@) == start + references(resources@).take(i as int),
        decreases resources@.len() - i,
    {
        let resource = resources[i];
        let supported = match resource {
            Resource::MusicVideo { .. } => true,
            Resource::Song { .. } => true,
            Resource::LibraryMusicVideo { .. } => true,
            Resource::LibrarySong { .. } => true,
            _ => false,
        };
        if !supported {
            assert(!is_track(resources@[i as int]));
            return Err(ApiError::InvalidResourceType);
        }
        let ghost earlier = thin_views(data@);
        let id = resource.get_header().id.clone();
        let ty = owned(resource.get_type());
        data.push(ThinRelationship { id, ty });
        proof {
            let all = references(resources@);
            assert(thin_views(data@) =~= earlier.push(all[i as int]));
            assert(all.take(i as int + 1) =~= all.take(i as int).push(all[i as int]));
            assert(thin_views(data@) =~= start + all.take(i as int + 1));
        }
        i += 1;
    }
    proof {
        assert(references(resources@).take(i as int) =~= references(resources@));
    }
    Ok(())
}

impl<'a> LibraryPlaylistCreateRequest<'a> {
    /// The request for a private playlist with a name and nothing else.
    pub open spec fn named(name: &'a str) -> LibraryPlaylistCreateRequest<'a> {
        LibraryPlaylistCreateRequest {
            attributes: LibraryPlaylistCreateRequestAttributes {
                name,
                description: None,
                public: false,
            },
            relationships: LibraryPlaylistCreateRequestRelationships { tracks: None, parent: None },
        }
    }
}

/// Library playlist create request builder
pub type LibraryPlaylistCreateBuilder<'localization, 'name> = MusicRequestBuilder<
    'localization,
    LibraryPlaylistRequestBuilder,
    LibraryPlaylistCreateRequest<'name>,
>;

impl<'localization, 'name> LibraryPlaylistCreateBuilder<'localization, 'name> {
    /// Create a new [`LibraryPlaylistCreateBuilder`] instance
    pub fn new(name: &'name str) -> (builder: Self)
        ensures
            builder.is_fresh(),
            builder.data() == LibraryPlaylistCreateRequest::named(name),
    {
        MusicRequestBuilder::with_data(
            LibraryPlaylistCreateRequest {
                attributes: LibraryPlaylistCreateRequestAttributes {
                    name,
                    description: None,
                    public: false,
                },
                relationships: LibraryPlaylistCreateRequestRelationships {
                    tracks: None,
                    parent: None,
                },
            },
        )
    }

    /// Set description for this request
    pub fn description(self, desc: &str) -> (builder: Self)
        ensures
            self.same_but_data(&builder),
            builder.data().attributes.description matches Some(text) && text@ == desc@,
            builder.data().attributes.name == self.data().attributes.name,
            builder.data().attributes.public == self.data().attributes.public,
            builder.data().relationships == self.data().relationships,
    {
        let (builder, mut data) = self.split();
        data.attributes.description = Some(owned(desc));
        builder.carrying(data)
    }

    /// Set if the playlist is public for this request
    pub fn public(self, p: bool) -> (builder: Self)
        ensures
            self.same_but_data(&builder),
            builder.data().attributes.public == p,
            builder.data().attributes.name == self.data().attributes.name,
            builder.data().attributes.description == self.data().attributes.description,
            builder.data().relationships == self.data().relationships,
    {
        let (builder, mut data) = self.split();
        data.attributes.public = p;
        builder.carrying(data)
    }

    /// Add tracks to this request
    ///
    /// Every track has to be a song or a music video, of the catalog or of the library.
    pub fn tracks(self, resources: &[&Resource]) -> (builder: Result<Self, ApiError>)
        ensures
            match builder {
                Ok(builder) => {
                    &&& forall|i: int|
                        0 <= i < resources@.len() ==> is_track(#[trigger] resources@[i])
                    &&& self.same_but_data(&builder)
                    &&& builder.data().attributes == self.data().attributes
                    &&& builder.data().relationships.parent == self.data().relationships.parent
                    &&& builder.data().relationships.tracks is Some
                    &&& added_tracks(builder.data().relationships.tracks) == added_tracks(
                        self.data().relationships.tracks,
                    ) + references(resources@)
                },
                Err(error) => {
                    &&& error is InvalidResourceType
                    &&& exists|i: int|
                        0 <= i < resources@.len() && !is_track(#[trigger] resources@[i])
                },
            },
    {
        let (builder, mut request) = self.split();
        let mut data: Vec<ThinRelationship> = Vec::new();
        match &mut request.relationships.tracks {
            Some(tracks) => {
                core::mem::swap(&mut tracks.data, &mut data);
            },
            None => {
                assert(thin_views(data@) =~= Seq::empty());
            },
        }
        match push_references(&mut data, resources) {
            Ok(()) => {},
            Err(error) => {
                return Err(error);
            },
        }
        request.relationships.tracks = Some(AddedTrackRelationships { data });
        Ok(builder.carrying(request))
    }

    /// Set parent playlist folder
    pub fn parent_folder(self, parent_folder_id: &str) -> (builder: Self)
        ensures
            self.same_but_data(&builder),
            builder.data().attributes == self.data().attributes,
            builder.data().relationships.tracks == self.data().relationships.tracks,
            builder.data().relationships.parent matches Some(parent) && parent.data@.len() == 1
                && parent.data@[0].id@ == parent_folder_id@ && parent.data@[0].ty@
                == "library-playlist-folders"@,
    {
        let (builder, mut request) = self.split();
        let folder = ThinRelationship {
            id: owned(parent_folder_id),
            ty: owned("library-playlist-folders"),
        };
        request.relationships.parent = Some(ParentRelationship { data: [folder] });
        builder.carrying(request)
    }

    /// Create the playlist
    ///
    /// # Return type
    ///
    /// Resource of type [`LibraryPlaylist`]
    pub fn create(self, client: &ApiClient) -> (submission: Submission<
        FetchOne<LibraryPlaylist>,
        LibraryPlaylistCreateRequest<'name>,
    >)
        ensures
            submission.body == self.data(),
            prepared(
                submission.request.request,
                submission.request.context,
                Method::Post,
                "/v1/me/library/playlists"@,
                self.storefront(client),
                self.query(client),
            ),
    {
        let mut builder = self;
        let context = builder.get_request_context_drain(client);
        let request = FetchOne::new(client.post("/v1/me/library/playlists"), context);
        let (_, body) = builder.split();
        Submission { request, body }
    }
}

/// The body of a request that adds tracks to a library playlist
#[derive(Debug, Clone, PartialEq, Eq)]
pub struct LibraryPlaylistAddRequest {
    /// References to the tracks
    pub data: Vec<ThinRelationship>,
}

/// Library playlist folder
#[derive(Default, Debug, PartialEq, Eq, Hash)]
pub struct LibraryPlaylistFolder {
    /// Resource header
    pub header: ResourceHeader,
    /// Library playlist folders attributes
    pub attributes: Option<LibraryPlaylistFolderAttributes>,
    /// Library playlist folders relationships
    pub relationships: LibraryPlaylistFolderRelationships,
}

impl LibraryPlaylistFolder {
    /// Whether `after` is this library playlist folder with `context` stored in every relationship and view
    /// below it, and with nothing else changed.
    pub open spec fn attached(
        &self,
        context: Arc<RequestContext>,
        after: &LibraryPlaylistFolder,
    ) -> bool
        decreases self,
    {
        &&& after.header == self.header
        &&& after.attributes == self.attributes
        &&& self.relationships.attached(context, &after.relationships)
    }

    /// Stores the context in every relationship and view below this library playlist folder.
    pub fn attach(&mut self, context: &Arc<RequestContext>)
        ensures
            old(self).attached(*context, final(self)),
            final(self).attached(*context, final(self)),
        decreases *old(self),
    {
        self.relationships.attach(context);
    }

    /// A copy of this library playlist folder.
    pub fn duplicate(&self) -> (copy: LibraryPlaylistFolder)
        ensures
            self.copied(&copy),
        decreases self,
    {
        LibraryPlaylistFolder {
            header: self.header.clone(),
            attributes: self.attributes.clone(),
            relationships: self.relationships.duplicate(),
        }
    }

    /// Whether `copy` holds what this library playlist folder holds: the same header, a clone of the
    /// attributes, and a copy of every relationship and view below it, each with the
    /// context that it holds.
    pub open spec fn copied(&self, copy: &LibraryPlaylistFolder) -> bool
        decreases self,
    {
        &&& copy.header == self.header
        &&& cloned(self.attributes, copy.attributes)
        &&& self.relationships.copied(&copy.relationships)
    }
}

impl ContextContainer for LibraryPlaylistFolder {
    open spec fn propagated(&self, context: Arc<RequestContext>, after: &Self) -> bool {
        self.attached(context, after)
    }

    fn set_context(&mut self, context: Arc<RequestContext>) {
        self.attach(&context);
    }
}

impl Clone for LibraryPlaylistFolder {
    fn clone(&self) -> (copy: Self)
        ensures
            self.copied(&copy),
    {
        self.duplicate()
    }
}

/// Library folders playlist attributes
#[derive(Default, Debug, Clone, PartialEq, Eq, Hash)]
pub struct LibraryPlaylistFolderAttributes {
    /// The date this content added to the user's library in ISO-8601 format
    pub date_added: Option<OffsetDateTime>,
    /// The (potentially) censored name of the content
    pub name: String,
}

/// Library folders relationships
#[derive(Default, Debug, PartialEq, Eq, Hash)]
pub struct LibraryPlaylistFolderRelationships {
    /// The corresponding playlist in the Apple Music catalog the playlist is associated with.
    ///
    /// Fetch limits: None (associated with at most one catalog playlist).
    ///
    /// Possible resources: [`Playlist`]
    pub catalog: Option<Relationship<Playlist>>,
    /// The library songs and library music videos included in the playlist. By default, tracks not included. Only available when fetching a single library playlist resource by ID.
    ///
    /// Fetch limits: 100 default, 100 maximum.
    ///
    /// Possible resources: [`LibraryMusicVideo`], [`LibrarySong`]
    pub tracks: Option<Relationship<Resource>>,
}

/// The relationships that can be asked for with library playlist folders
#[derive(Debug, Copy, Clone, PartialEq, Eq, Hash)]
pub enum LibraryPlaylistFolderRelationshipType {
    /// The corresponding playlist in the Apple Music catalog the playlist is associated with.
    ///
    /// Fetch limits: None (associated with at most one catalog playlist).
    ///
    /// Possible resources: [`Playlist`]
    Catalog,
    /// The library songs and library music videos included in the playlist. By default, tracks not included. Only available when fetching a single library playlist resource by ID.
    ///
    /// Fetch limits: 100 default, 100 maximum.
    ///
    /// Possible resources: [`LibraryMusicVideo`], [`LibrarySong`]
    Tracks,
}

impl Named for LibraryPlaylistFolderRelationshipType {
    open spec fn name(&self) -> Seq<char> {
        match self {
            LibraryPlaylistFolderRelationshipType::Catalog => "catalog"@,
            LibraryPlaylistFolderRelationshipType::Tracks => "tracks"@,
        }
    }

    fn to_string(&self) -> (name: String) {
        let name = match self {
            LibraryPlaylistFolderRelationshipType::Catalog => "catalog",
            LibraryPlaylistFolderRelationshipType::Tracks => "tracks",
        };
        owned(name)
    }
}

impl RelationshipTrait for LibraryPlaylistFolderRelationshipType {
    open spec fn object(&self) -> Seq<char> {
        "library-playlist-folders"@
    }

    fn get_object(&self) -> (object: &'static str) {
        "library-playlist-folders"
    }
}

impl LibraryPlaylistFolderRelationships {
    /// Whether `after` holds these relationships with `context` stored in each of them and
    /// below each of their items, and with nothing else changed.
    pub open spec fn attached(
        &self,
        context: Arc<RequestContext>,
        after: &LibraryPlaylistFolderRelationships,
    ) -> bool
        decreases self,
    {
        &&& Playlist::attached_in(self.catalog, context, after.catalog)
        &&& Resource::attached_in(self.tracks, context, after.tracks)
    }

    /// Stores the context in each of these relationships and below each of their items.
    pub fn attach(&mut self, context: &Arc<RequestContext>)
        ensures
            old(self).attached(*context, final(self)),
            final(self).attached(*context, final(self)),
        decreases *old(self),
    {
        Playlist::attach_in(&mut self.catalog, context);
        Resource::attach_in(&mut self.tracks, context);
    }

    /// A copy of these relationships.
    pub fn duplicate(&self) -> (copy: LibraryPlaylistFolderRelationships)
        ensures
            self.copied(&copy),
        decreases self,
    {
        LibraryPlaylistFolderRelationships {
            catalog: Playlist::duplicate_in(&self.catalog),
            tracks: Resource::duplicate_in(&self.tracks),
        }
    }

    /// Whether `copy` holds a copy of each of these relationships, with the context that it
    /// holds and a copy of each of its items.
    pub open spec fn copied(&self, copy: &LibraryPlaylistFolderRelationships) -> bool
        decreases self,
    {
        &&& Playlist::copied_in(self.catalog, copy.catalog)
        &&& Resource::copied_in(self.tracks, copy.tracks)
    }
}

impl ContextContainer for LibraryPlaylistFolderRelationships {
    open spec fn propagated(&self, context: Arc<RequestContext>, after: &Self) -> bool {
        self.attached(context, after)
    }

    fn set_context(&mut self, context: Arc<RequestContext>) {
        self.attach(&context);
    }
}

impl Clone for LibraryPlaylistFolderRelationships {
    fn clone(&self) -> (copy: Self)
        ensures
            self.copied(&copy),
    {
        self.duplicate()
    }
}

/// Library track types
#[derive(Debug, Clone, PartialEq, Eq, Hash)]
pub enum LibraryTrackTypes {
    /// Library music videos
    MusicVideos,
    /// Library songs
    Songs,
}

/// Library playlist folder request builder
pub struct LibraryPlaylistFolderRequestBuilder;

/// Library playlist folder get request builder
pub type LibraryPlaylistFolderGetRequestBuilder<'a> = MusicRequestBuilder<
    'a,
    LibraryPlaylistFolderRequestBuilder,
>;

impl<'a> LibraryPlaylistFolderGetRequestBuilder<'a> {
    /// Fetch one library playlist folder by id
    pub fn one(self, client: &ApiClient, id: &str) -> (fetch: FetchOne<LibraryPlaylistFolder>)
        ensures
            prepared(
                fetch.request,
                fetch.context,
                Method::Get,
                below("/v1/me/library/playlist-folders"@, id@),
                self.storefront(client),
                self.query(client),
            ),
    {
        let mut builder = self;
        let context = builder.get_request_context_drain(client);
        let endpoint = owned("/v1/me/library/playlist-folders");
        let path = path_below(endpoint.as_str(), id);
        FetchOne::new(client.get(path.as_str()), context)
    }

    /// Fetch multiple library playlist folders by id
    pub fn many(self, client: &ApiClient, ids: &[&str]) -> (fetch: FetchMany<LibraryPlaylistFolder>)
        ensures
            prepared(
                fetch.request,
                fetch.context,
                Method::Get,
                "/v1/me/library/playlist-folders/"@,
                self.storefront(client),
                self.query(client).push(("ids"@, joined(slice_views(ids@), ","@))),
            ),
    {
        let mut builder = self;
        let mut context = builder.get_request_context_drain(client);
        push_parameter(&mut context, "ids", join(ids, ","));
        let endpoint = owned("/v1/me/library/playlist-folders/");
        FetchMany::new(client.get(endpoint.as_str()), context)
    }
}

} // verus!
