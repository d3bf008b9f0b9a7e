//! Library album

use crate::date::year_or_date::YearOrDate;
use crate::primitive::{ContentRating, PlayParameters};
use crate::request::builder::MusicRequestBuilder;
use crate::request::context::{ContextContainer, RequestContext, share};
use crate::request::fields::query_view;
use crate::request::paginated::{Paginator, Progress, paginate};
use crate::request::relationship::RelationshipTrait;
use crate::request::{FetchMany, FetchOne, below, path_below, prepared, push_parameter};
use crate::resource::artwork::Artwork;
use crate::resource::catalog::album::Album;
use crate::resource::library::artist::LibraryArtist;
use crate::resource::relationship::Relationship;
use crate::resource::{Resource, ResourceHeader};
use crate::text::{Named, decimal, join, joined, owned, slice_views, to_decimal};
use crate::{ApiClient, Method};
use std::sync::Arc;
use vstd::prelude::*;

verus! {

/// Library album
#[derive(Default, Debug, PartialEq, Eq, Hash)]
pub struct LibraryAlbum {
    /// Resource header
    pub header: ResourceHeader,
    /// Album attributes
    pub attributes: Option<LibraryAlbumAttributes>,
    /// Album relationships
    pub relationships: LibraryAlbumRelationships,
}

impl LibraryAlbum {
    /// Whether `after` is this library album with `context` stored in every relationship and view
    /// below it, and with nothing else changed.
    pub open spec fn attached(&self, context: Arc<RequestContext>, after: &LibraryAlbum) -> bool
        decreases self,
    {
        &&& after.header == self.header
        &&& after.attributes == self.attributes
        &&& self.relationships.attached(context, &after.relationships)
    }

    /// Stores the context in every relationship and view below this library album.
    pub fn attach(&mut self, context: &Arc<RequestContext>)
        ensures
            old(self).attached(*context, final(self)),
            final(self).attached(*context, final(self)),
        decreases *old(self),
    {
        self.relationships.attach(context);
    }

    /// Whether `after` holds the items of `before`, one for one, with `context` stored in
    /// every relationship and view below each.
    pub open spec fn attached_each(
        before: Seq<LibraryAlbum>,
        context: Arc<RequestContext>,
        after: Seq<LibraryAlbum>,
    ) -> bool
        decreases before,
    {
        &&& after.len() == before.len()
        &&& forall|i: int|
            0 <= i < before.len() ==> (#[trigger] before[i]).attached(context, &after[i])
    }

    /// Stores the context below each of the items.
    pub fn attach_each(items: &mut Vec<LibraryAlbum>, context: &Arc<RequestContext>)
        ensures
            LibraryAlbum::attached_each(old(items)@, *context, final(items)@),
            LibraryAlbum::attached_each(final(items)@, *context, final(items)@),
        decreases *old(items),
    {
        let n = items.len();
        let mut i: usize = 0;
        while i < n
            invariant
                i <= n,
                items@.len() == n,
                old(items)@.len() == n,
                forall|j: int|
                    0 <= j < i ==> (#[trigger] old(items)@[j]).attached(*context, &items@[j]),
                forall|j: int| 0 <= j < i ==> (#[trigger] items@[j]).attached(*context, &items@[j]),
                forall|j: int| i <= j < n ==> items@[j] == old(items)@[j],
            decreases n - i,
        {
            items[i].attach(context);
            i += 1;
        }
    }

    /// Whether `after` is the relationship `before`, if there is one, with `context` stored
    /// in it and below each of its items.
    pub open spec fn attached_in(
        before: Option<Relationship<LibraryAlbum>>,
        context: Arc<RequestContext>,
        after: Option<Relationship<LibraryAlbum>>,
    ) -> bool
        decreases before,
    {
        match (before, after) {
            (Some(before), Some(after)) => {
                &&& after.context() == Some(context)
                &&& after.href == before.href
                &&& after.next == before.next
                &&& LibraryAlbum::attached_each(before.data@, context, after.data@)
            },
            (None, None) => true,
            _ => false,
        }
    }

    /// Stores the context in a relationship, if there is one, and below each of its items.
    pub fn attach_in(
        relationship: &mut Option<Relationship<LibraryAlbum>>,
        context: &Arc<RequestContext>,
    )
        ensures
            LibraryAlbum::attached_in(*old(relationship), *context, *final(relationship)),
            LibraryAlbum::attached_in(*final(relationship), *context, *final(relationship)),
        decreases *old(relationship),
    {
        match relationship {
            Some(relationship) => {
                relationship.install(share(context));
                LibraryAlbum::attach_each(&mut relationship.data, context);
            },
            None => {},
        }
    }

    /// A copy of this library album.
    pub fn duplicate(&self) -> (copy: LibraryAlbum)
        ensures
            self.copied(&copy),
        decreases self,
    {
        LibraryAlbum {
            header: self.header.clone(),
            attributes: self.attributes.clone(),
            relationships: self.relationships.duplicate(),
        }
    }

    /// Copies of the items, in their order.
    pub fn duplicate_each(items: &Vec<LibraryAlbum>) -> (copies: Vec<LibraryAlbum>)
        ensures
            LibraryAlbum::copied_each(items@, copies@),
        decreases items,
    {
        let mut copies: Vec<LibraryAlbum> = Vec::new();
        let mut i: usize = 0;
        while i < items.len()
            invariant
                i <= items@.len(),
                copies@.len() == i,
                forall|j: int| 0 <= j < i ==> (#[trigger] items@[j]).copied(&copies@[j]),
            decreases items@.len() - i,
        {
            copies.push(items[i].duplicate());
            i += 1;
        }
        copies
    }

    /// A copy of a relationship, if there is one.
    pub fn duplicate_in(relationship: &Option<Relationship<LibraryAlbum>>) -> (copy: Option<
        Relationship<LibraryAlbum>,
    >)
        ensures
            LibraryAlbum::copied_in(*relationship, copy),
        decreases relationship,
    {
        match relationship {
            Some(relationship) => Some(
                Relationship {
                    href: relationship.href.clone(),
                    next: relationship.next.clone(),
                    data: LibraryAlbum::duplicate_each(&relationship.data),
                    context: relationship.context.clone(),
                },
            ),
            None => None,
        }
    }

    /// Whether `copy` holds what this library album holds: the same header, a clone of the
    /// attributes, and a copy of every relationship and view below it, each with the
    /// context that it holds.
    pub open spec fn copied(&self, copy: &LibraryAlbum) -> bool
        decreases self,
    {
        &&& copy.header == self.header
        &&& cloned(self.attributes, copy.attributes)
        &&& self.relationships.copied(&copy.relationships)
    }

    /// Whether `copies` holds a copy of each of the items, in their order.
    pub open spec fn copied_each(items: Seq<LibraryAlbum>, copies: Seq<LibraryAlbum>) -> bool
        decreases items,
    {
        &&& copies.len() == items.len()
        &&& forall|i: int| 0 <= i < items.len() ==> (#[trigger] items[i]).copied(&copies[i])
    }

    /// Whether `copy` is a copy of a relationship, if there is one: with the same
    /// locations, the same context and a copy of each of its items.
    pub open spec fn copied_in(
        relationship: Option<Relationship<LibraryAlbum>>,
        copy: Option<Relationship<LibraryAlbum>>,
    ) -> bool
        decreases relationship,
    {
        match (relationship, copy) {
            (Some(relationship), Some(copy)) => {
                &&& copy.href == relationship.href
                &&& copy.next == relationship.next
                &&& copy.context() == relationship.context()
                &&& LibraryAlbum::copied_each(relationship.data@, copy.data@)
            },
            (None, None) => true,
            _ => false,
        }
    }
}

impl ContextContainer for LibraryAlbum {
    open spec fn propagated(&self, context: Arc<RequestContext>, after: &Self) -> bool {
        self.attached(context, after)
    }

    fn set_context(&mut self, context: Arc<RequestContext>) {
        self.attach(&context);
    }
}

impl Clone for LibraryAlbum {
    fn clone(&self) -> (copy: Self)
        ensures
            self.copied(&copy),
    {
        self.duplicate()
    }
}

/// Library album attributes
#[derive(Default, Debug, Clone, PartialEq, Eq, Hash)]
pub struct LibraryAlbumAttributes {
    /// The artist's name
    pub artist_name: String,
    /// The album artwork
    pub artwork: Artwork,
    /// The Recording Industry Association of America (RIAA) rating of the content. The possible values for this rating are clean and explicit. No value means no rating
    pub content_rating: Option<ContentRating>,
    /// The date the album was added to the library, in YYYY-MM-DD or YYYY format
    pub date_added: Option<YearOrDate>,
    /// The localized name of the album
    pub name: String,
    /// The parameters to use to playback the tracks of the album
    pub play_params: Option<PlayParameters>,
    /// The release date of the album, when known, in YYYY-MM-DD or YYYY format. Pre-release albums may have an expected release date in the future
    pub release_date: Option<YearOrDate>,
    /// The number of tracks
    pub track_count: u32,
    /// The names of the genres associated with this album
    pub genre_names: Vec<String>,
}

/// Library album relationships
#[derive(Default, Debug, PartialEq, Eq, Hash)]
pub struct LibraryAlbumRelationships {
    /// The library artists associated with the album. By default, artists not included.
    ///
    /// Fetch limits: 10 default, 10 maximum
    ///
    /// Possible resources: [`LibraryArtist`]
    pub artists: Option<Relationship<LibraryArtist>>,
    /// The album in the Apple Music catalog the library album is associated with, when known.
    ///
    /// Fetch limits: None (associated with at most one catalog album)
    ///
    /// Possible resources: [`Album`]
    pub catalog: Option<Relationship<Album>>,
    /// The library songs and library music videos on the album. Only available when fetching single library album resource by ID. By default, tracks includes objects.
    ///
    /// Fetch limits: 300 default, 300 maximum
    ///
    /// Possible resources: [`LibrarySong`], [`LibraryMusicVideo`]
    pub tracks: Option<Relationship<Resource>>,
}

/// The relationships that can be asked for with library albums
#[derive(Debug, Copy, Clone, PartialEq, Eq, Hash)]
pub enum LibraryAlbumRelationshipType {
    /// The library artists associated with the album. By default, artists not included.
    ///
    /// Fetch limits: 10 default, 10 maximum
    ///
    /// Possible resources: [`LibraryArtist`]
    Artists,
    /// The album in the Apple Music catalog the library album is associated with, when known.
    ///
    /// Fetch limits: None (associated with at most one catalog album)
    ///
    /// Possible resources: [`Album`]
    Catalog,
    /// The library songs and library music videos on the album. Only available when fetching single library album resource by ID. By default, tracks includes objects.
    ///
    /// Fetch limits: 300 default, 300 maximum
    ///
    /// Possible resources: [`LibrarySong`], [`LibraryMusicVideo`]
    Tracks,
}

impl Named for LibraryAlbumRelationshipType {
    open spec fn name(&self) -> Seq<char> {
        match self {
            LibraryAlbumRelationshipType::Artists => "artists"@,
            LibraryAlbumRelationshipType::Catalog => "catalog"@,
            LibraryAlbumRelationshipType::Tracks => "tracks"@,
        }
    }

    fn to_string(&self) -> (name: String) {
        let name = match self {
            LibraryAlbumRelationshipType::Artists => "artists",
            LibraryAlbumRelationshipType::Catalog => "catalog",
            LibraryAlbumRelationshipType::Tracks => "tracks",
        };
        owned(name)
    }
}

impl RelationshipTrait for LibraryAlbumRelationshipType {
    open spec fn object(&self) -> Seq<char> {
        "library-albums"@
    }

    fn get_object(&self) -> (object: &'static str) {
        "library-albums"
    }
}

impl LibraryAlbumRelationships {
    /// Whether `after` holds these relationships with `context` stored in each of them and
    /// below each of their items, and with nothing else changed.
    pub open spec fn attached(
        &self,
        context: Arc<RequestContext>,
        after: &LibraryAlbumRelationships,
    ) -> bool
        decreases self,
    {
        &&& LibraryArtist::attached_in(self.artists, context, after.artists)
        &&& Album::attached_in(self.catalog, context, after.catalog)
        &&& Resource::attached_in(self.tracks, context, after.tracks)
    }

    /// Stores the context in each of these relationships and below each of their items.
    pub fn attach(&mut self, context: &Arc<RequestContext>)
        ensures
            old(self).attached(*context, final(self)),
            final(self).attached(*context, final(self)),
        decreases *old(self),
    {
        LibraryArtist::attach_in(&mut self.artists, context);
        Album::attach_in(&mut self.catalog, context);
        Resource::attach_in(&mut self.tracks, context);
    }

    /// A copy of these relationships.
    pub fn duplicate(&self) -> (copy: LibraryAlbumRelationships)
        ensures
            self.copied(&copy),
        decreases self,
    {
        LibraryAlbumRelationships {
            artists: LibraryArtist::duplicate_in(&self.artists),
            catalog: Album::duplicate_in(&self.catalog),
            tracks: Resource::duplicate_in(&self.tracks),
        }
    }

    /// Whether `copy` holds a copy of each of these relationships, with the context that it
    /// holds and a copy of each of its items.
    pub open spec fn copied(&self, copy: &LibraryAlbumRelationships) -> bool
        decreases self,
    {
        &&& LibraryArtist::copied_in(self.artists, copy.artists)
        &&& Album::copied_in(self.catalog, copy.catalog)
        &&& Resource::copied_in(self.tracks, copy.tracks)
    }
}

impl ContextContainer for LibraryAlbumRelationships {
    open spec fn propagated(&self, context: Arc<RequestContext>, after: &Self) -> bool {
        self.attached(context, after)
    }

    fn set_context(&mut self, context: Arc<RequestContext>) {
        self.attach(&context);
    }
}

impl Clone for LibraryAlbumRelationships {
    fn clone(&self) -> (copy: Self)
        ensures
            self.copied(&copy),
    {
        self.duplicate()
    }
}

/// Library album request builder
pub struct LibraryAlbumRequestBuilder;

/// Library album get request builder
pub type LibraryAlbumGetRequestBuilder<'a> = MusicRequestBuilder<'a, LibraryAlbumRequestBuilder>;

impl<'a> LibraryAlbumGetRequestBuilder<'a> {
    /// Fetch one library album by id
    pub fn one(self, client: &ApiClient, id: &str) -> (fetch: FetchOne<LibraryAlbum>)
        ensures
            prepared(
                fetch.request,
                fetch.context,
                Method::Get,
                below("/v1/me/library/albums"@, id@),
                self.storefront(client),
                self.query(client),
            ),
    {
        let mut builder = self;
        let context = builder.get_request_context_drain(client);
        let endpoint = owned("/v1/me/library/albums");
        let path = path_below(endpoint.as_str(), id);
        FetchOne::new(client.get(path.as_str()), context)
    }

    /// Fetch multiple library albums by id
    pub fn many(self, client: &ApiClient, ids: &[&str]) -> (fetch: FetchMany<LibraryAlbum>)
        ensures
            prepared(
                fetch.request,
                fetch.context,
                Method::Get,
                "/v1/me/library/albums"@,
                self.storefront(client),
                self.query(client).push(("ids"@, joined(slice_views(ids@), ","@))),
            ),
    {
        let mut builder = self;
        let mut context = builder.get_request_context_drain(client);
        push_parameter(&mut context, "ids", join(ids, ","));
        let endpoint = owned("/v1/me/library/albums");
        FetchMany::new(client.get(endpoint.as_str()), context)
    }

    /// Fetch all library albums
    /// # Params
    ///
    /// * limit - limit of entries per query
    ///
    /// * offset - query offset
    pub fn all(
        self,
        client: &ApiClient,
        limit: usize,
        offset: usize,
    ) -> (pages: Paginator<LibraryAlbum>)
        ensures
            pages.endpoint() == "/v1/me/library/albums"@,
            pages.context().storefront == self.storefront(client),
            query_view(pages.context().query@) == self.query(client).push(
                ("limit"@, decimal(limit as nat)),
            ),
            pages@ == (Progress { offset: offset as nat, finished: false }),
    {
        let mut builder = self;
        let mut context = builder.get_request_context_drain(client);
        push_parameter(&mut context, "limit", to_decimal(limit));
        let endpoint = owned("/v1/me/library/albums");
        paginate(endpoint, context, offset)
    }
}

} // verus!
