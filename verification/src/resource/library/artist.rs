//! Library artist

use crate::request::builder::MusicRequestBuilder;
use crate::request::context::{ContextContainer, RequestContext, share};
use crate::request::fields::query_view;
use crate::request::paginated::{Paginator, Progress, paginate};
use crate::request::relationship::RelationshipTrait;
use crate::request::{FetchMany, FetchOne, below, path_below, prepared, push_parameter};
use crate::resource::ResourceHeader;
use crate::resource::catalog::artist::Artist;
use crate::resource::library::album::LibraryAlbum;
use crate::resource::relationship::Relationship;
use crate::text::{Named, decimal, join, joined, owned, slice_views, to_decimal};
use crate::{ApiClient, Method};
use std::sync::Arc;
use vstd::prelude::*;

verus! {

/// Library artist
#[derive(Default, Debug, PartialEq, Eq, Hash)]
pub struct LibraryArtist {
    /// Resource header
    pub header: ResourceHeader,
    /// Library artist attributes
    pub attributes: Option<LibraryArtistAttributes>,
    /// Library artist relationships
    pub relationships: LibraryArtistRelationships,
}

impl LibraryArtist {
    /// Whether `after` is this library artist with `context` stored in every relationship and view
    /// below it, and with nothing else changed.
    pub open spec fn attached(&self, context: Arc<RequestContext>, after: &LibraryArtist) -> bool
        decreases self,
    {
        &&& after.header == self.header
        &&& after.attributes == self.attributes
        &&& self.relationships.attached(context, &after.relationships)
    }

    /// Stores the context in every relationship and view below this library artist.
    pub fn attach(&mut self, context: &Arc<RequestContext>)
        ensures
            old(self).attached(*context, final(self)),
            final(self).attached(*context, final(self)),
        decreases *old(self),
    {
        self.relationships.attach(context);
    }

    /// Whether `after` holds the items of `before`, one for one, with `context` stored in
    /// every relationship and view below each.
    pub open spec fn attached_each(
        before: Seq<LibraryArtist>,
        context: Arc<RequestContext>,
        after: Seq<LibraryArtist>,
    ) -> bool
        decreases before,
    {
        &&& after.len() == before.len()
        &&& forall|i: int|
            0 <= i < before.len() ==> (#[trigger] before[i]).attached(context, &after[i])
    }

    /// Stores the context below each of the items.
    pub fn attach_each(items: &mut Vec<LibraryArtist>, context: &Arc<RequestContext>)
        ensures
            LibraryArtist::attached_each(old(items)@, *context, final(items)@),
            LibraryArtist::attached_each(final(items)@, *context, final(items)@),
        decreases *old(items),
    {
        let n = items.len();
        let mut i: usize = 0;
        while i < n
            invariant
                i <= n,
                items@.len() == n,
                old(items)@.len() == n,
                forall|j: int|
                    0 <= j < i ==> (#[trigger] old(items)@[j]).attached(*context, &items@[j]),
                forall|j: int| 0 <= j < i ==> (#[trigger] items@[j]).attached(*context, &items@[j]),
                forall|j: int| i <= j < n ==> items@[j] == old(items)@[j],
            decreases n - i,
        {
            items[i].attach(context);
            i += 1;
        }
    }

    /// Whether `after` is the relationship `before`, if there is one, with `context` stored
    /// in it and below each of its items.
    pub open spec fn attached_in(
        before: Option<Relationship<LibraryArtist>>,
        context: Arc<RequestContext>,
        after: Option<Relationship<LibraryArtist>>,
    ) -> bool
        decreases before,
    {
        match (before, after) {
            (Some(before), Some(after)) => {
                &&& after.context() == Some(context)
                &&& after.href == before.href
                &&& after.next == before.next
                &&& LibraryArtist::attached_each(before.data@, context, after.data@)
            },
            (None, None) => true,
            _ => false,
        }
    }

    /// Stores the context in a relationship, if there is one, and below each of its items.
    pub fn attach_in(
        relationship: &mut Option<Relationship<LibraryArtist>>,
        context: &Arc<RequestContext>,
    )
        ensures
            LibraryArtist::attached_in(*old(relationship), *context, *final(relationship)),
            LibraryArtist::attached_in(*final(relationship), *context, *final(relationship)),
        decreases *old(relationship),
    {
        match relationship {
            Some(relationship) => {
                relationship.install(share(context));
                LibraryArtist::attach_each(&mut relationship.data, context);
            },
            None => {},
        }
    }

    /// A copy of this library artist.
    pub fn duplicate(&self) -> (copy: LibraryArtist)
        ensures
            self.copied(&copy),
        decreases self,
    {
        LibraryArtist {
            header: self.header.clone(),
            attributes: self.attributes.clone(),
            relationships: self.relationships.duplicate(),
        }
    }

    /// Copies of the items, in their order.
    pub fn duplicate_each(items: &Vec<LibraryArtist>) -> (copies: Vec<LibraryArtist>)
        ensures
            LibraryArtist::copied_each(items@, copies@),
        decreases items,
    {
        let mut copies: Vec<LibraryArtist> = Vec::new();
        let mut i: usize = 0;
        while i < items.len()
            invariant
                i <= items@.len(),
                copies@.len() == i,
                forall|j: int| 0 <= j < i ==> (#[trigger] items@[j]).copied(&copies@[j]),
            decreases items@.len() - i,
        {
            copies.push(items[i].duplicate());
            i += 1;
        }
        copies
    }

    /// A copy of a relationship, if there is one.
    pub fn duplicate_in(relationship: &Option<Relationship<LibraryArtist>>) -> (copy: Option<
        Relationship<LibraryArtist>,
    >)
        ensures
            LibraryArtist::copied_in(*relationship, copy),
        decreases relationship,
    {
        match relationship {
            Some(relationship) => Some(
                Relationship {
                    href: relationship.href.clone(),
                    next: relationship.next.clone(),
                    data: LibraryArtist::duplicate_each(&relationship.data),
                    context: relationship.context.clone(),
                },
            ),
            None => None,
        }
    }

    /// Whether `copy` holds what this library artist holds: the same header, a clone of the
    /// attributes, and a copy of every relationship and view below it, each with the
    /// context that it holds.
    pub open spec fn copied(&self, copy: &LibraryArtist) -> bool
        decreases self,
    {
        &&& copy.header == self.header
        &&& cloned(self.attributes, copy.attributes)
        &&& self.relationships.copied(&copy.relationships)
    }

    /// Whether `copies` holds a copy of each of the items, in their order.
    pub open spec fn copied_each(items: Seq<LibraryArtist>, copies: Seq<LibraryArtist>) -> bool
        decreases items,
    {
        &&& copies.len() == items.len()
        &&& forall|i: int| 0 <= i < items.len() ==> (#[trigger] items[i]).copied(&copies[i])
    }

    /// Whether `copy` is a copy of a relationship, if there is one: with the same
    /// locations, the same context and a copy of each of its items.
    pub open spec fn copied_in(
        relationship: Option<Relationship<LibraryArtist>>,
        copy: Option<Relationship<LibraryArtist>>,
    ) -> bool
        decreases relationship,
    {
        match (relationship, copy) {
            (Some(relationship), Some(copy)) => {
                &&& copy.href == relationship.href
                &&& copy.next == relationship.next
                &&& copy.context() == relationship.context()
                &&& LibraryArtist::copied_each(relationship.data@, copy.data@)
            },
            (None, None) => true,
            _ => false,
        }
    }
}

impl ContextContainer for LibraryArtist {
    open spec fn propagated(&self, context: Arc<RequestContext>, after: &Self) -> bool {
        self.attached(context, after)
    }

    fn set_context(&mut self, context: Arc<RequestContext>) {
        self.attach(&context);
    }
}

impl Clone for LibraryArtist {
    fn clone(&self) -> (copy: Self)
        ensures
            self.copied(&copy),
    {
        self.duplicate()
    }
}

/// Library artist attributes
#[derive(Default, Debug, Clone, PartialEq, Eq, Hash)]
pub struct LibraryArtistAttributes {
    /// The artist's name
    pub name: String,
}

/// Library artist relationships
#[derive(Default, Debug, PartialEq, Eq, Hash)]
pub struct LibraryArtistRelationships {
    /// The library albums associated with the artist. By default, albums not included. It's available only when fetching a single library artist resource by ID.
    ///
    /// Fetch limits: 25 default, 100 maximum
    ///
    /// Possible resources: [`LibraryAlbum`]
    pub albums: Option<Relationship<LibraryAlbum>>,
    /// The artist in the Apple Music catalog the library artist is associated with, when known.
    ///
    /// Fetch limits: None (associated with, at most, one catalog artist).
    ///
    /// Possible resources: [`Artist`]
    pub catalog: Option<Relationship<Artist>>,
}

/// The relationships that can be asked for with library artists
#[derive(Debug, Copy, Clone, PartialEq, Eq, Hash)]
pub enum LibraryArtistRelationshipType {
    /// The library albums associated with the artist. By default, albums not included. It's available only when fetching a single library artist resource by ID.
    ///
    /// Fetch limits: 25 default, 100 maximum
    ///
    /// Possible resources: [`LibraryAlbum`]
    Albums,
    /// The artist in the Apple Music catalog the library artist is associated with, when known.
    ///
    /// Fetch limits: None (associated with, at most, one catalog artist).
    ///
    /// Possible resources: [`Artist`]
    Catalog,
}

impl Named for LibraryArtistRelationshipType {
    open spec fn name(&self) -> Seq<char> {
        match self {
            LibraryArtistRelationshipType::Albums => "albums"@,
            LibraryArtistRelationshipType::Catalog => "catalog"@,
        }
    }

    fn to_string(&self) -> (name: String) {
        let name = match self {
            LibraryArtistRelationshipType::Albums => "albums",
            LibraryArtistRelationshipType::Catalog => "catalog",
        };
        owned(name)
    }
}

impl RelationshipTrait for LibraryArtistRelationshipType {
    open spec fn object(&self) -> Seq<char> {
        "library-artists"@
    }

    fn get_object(&self) -> (object: &'static str) {
        "library-artists"
    }
}

impl LibraryArtistRelationships {
    /// Whether `after` holds these relationships with `context` stored in each of them and
    /// below each of their items, and with nothing else changed.
    pub open spec fn attached(
        &self,
        context: Arc<RequestContext>,
        after: &LibraryArtistRelationships,
    ) -> bool
        decreases self,
    {
        &&& LibraryAlbum::attached_in(self.albums, context, after.albums)
        &&& Artist::attached_in(self.catalog, context, after.catalog)
    }

    /// Stores the context in each of these relationships and below each of their items.
    pub fn attach(&mut self, context: &Arc<RequestContext>)
        ensures
            old(self).attached(*context, final(self)),
            final(self).attached(*context, final(self)),
        decreases *old(self),
    {
        LibraryAlbum::attach_in(&mut self.albums, context);
        Artist::attach_in(&mut self.catalog, context);
    }

    /// A copy of these relationships.
    pub fn duplicate(&self) -> (copy: LibraryArtistRelationships)
        ensures
            self.copied(&copy),
        decreases self,
    {
        LibraryArtistRelationships {
            albums: LibraryAlbum::duplicate_in(&self.albums),
            catalog: Artist::duplicate_in(&self.catalog),
        }
    }

    /// Whether `copy` holds a copy of each of these relationships, with the context that it
    /// holds and a copy of each of its items.
    pub open spec fn copied(&self, copy: &LibraryArtistRelationships) -> bool
        decreases self,
    {
        &&& LibraryAlbum::copied_in(self.albums, copy.albums)
        &&& Artist::copied_in(self.catalog, copy.catalog)
    }
}

impl ContextContainer for LibraryArtistRelationships {
    open spec fn propagated(&self, context: Arc<RequestContext>, after: &Self) -> bool {
        self.attached(context, after)
    }

    fn set_context(&mut self, context: Arc<RequestContext>) {
        self.attach(&context);
    }
}

impl Clone for LibraryArtistRelationships {
    fn clone(&self) -> (copy: Self)
        ensures
            self.copied(&copy),
    {
        self.duplicate()
    }
}

/// Library artist request builder
pub struct LibraryArtistRequestBuilder;

/// Library artist get request builder
pub type LibraryArtistGetRequestBuilder<'a> = MusicRequestBuilder<'a, LibraryArtistRequestBuilder>;

impl<'a> LibraryArtistGetRequestBuilder<'a> {
    /// Fetch one library artist by id
    pub fn one(self, client: &ApiClient, id: &str) -> (fetch: FetchOne<LibraryArtist>)
        ensures
            prepared(
                fetch.request,
                fetch.context,
                Method::Get,
                below("/v1/me/library/artists"@, id@),
                self.storefront(client),
                self.query(client),
            ),
    {
        let mut builder = self;
        let context = builder.get_request_context_drain(client);
        let endpoint = owned("/v1/me/library/artists");
        let path = path_below(endpoint.as_str(), id);
        FetchOne::new(client.get(path.as_str()), context)
    }

    /// Fetch multiple library artists by id
    pub fn many(self, client: &ApiClient, ids: &[&str]) -> (fetch: FetchMany<LibraryArtist>)
        ensures
            prepared(
                fetch.request,
                fetch.context,
                Method::Get,
                "/v1/me/library/artists"@,
                self.storefront(client),
                self.query(client).push(("ids"@, joined(slice_views(ids@), ","@))),
            ),
    {
        let mut builder = self;
        let mut context = builder.get_request_context_drain(client);
        push_parameter(&mut context, "ids", join(ids, ","));
        let endpoint = owned("/v1/me/library/artists");
        FetchMany::new(client.get(endpoint.as_str()), context)
    }

    /// Fetch all library artists
    /// # Params
    ///
    /// * limit - limit of entries per query
    ///
    /// * offset - query offset
    pub fn all(
        self,
        client: &ApiClient,
        limit: usize,
        offset: usize,
    ) -> (pages: Paginator<LibraryArtist>)
        ensures
            pages.endpoint() == "/v1/me/library/artists"@,
            pages.context().storefront == self.storefront(client),
            query_view(pages.context().query@) == self.query(client).push(
                ("limit"@, decimal(limit as nat)),
            ),
            pages@ == (Progress { offset: offset as nat, finished: false }),
    {
        let mut builder = self;
        let mut context = builder.get_request_context_drain(client);
        push_parameter(&mut context, "limit", to_decimal(limit));
        let endpoint = owned("/v1/me/library/artists");
        paginate(endpoint, context, offset)
    }
}

} // verus!
