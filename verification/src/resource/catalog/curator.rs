//! Curators

use crate::primitive::EditorialNotes;
use crate::request::builder::MusicRequestBuilder;
use crate::request::context::{ContextContainer, RequestContext, share};
use crate::request::relationship::RelationshipTrait;
use crate::request::{
    FetchMany, FetchOne, below, catalog_endpoint, catalog_path, path_below, prepared,
    push_parameter,
};
use crate::resource::ResourceHeader;
use crate::resource::artwork::Artwork;
use crate::resource::catalog::playlist::Playlist;
use crate::resource::genre::Genre;
use crate::resource::relationship::Relationship;
use crate::text::{Named, join, joined, owned, slice_views};
use crate::{ApiClient, Method};
use std::sync::Arc;
use vstd::prelude::*;

verus! {

/// Apple curator
#[derive(Default, Debug, PartialEq, Eq, Hash)]
pub struct AppleCurator {
    /// Resource header
    pub header: ResourceHeader,
    /// Apple curator attributes
    pub attributes: Option<AppleCuratorAttributes>,
    /// Apple curator relationships
    pub relationships: AppleCuratorRelationships,
}

impl AppleCurator {
    /// Get apple curator request builder
    pub fn get<'a>() -> (builder: AppleCuratorGetRequestBuilder<'a>)
        ensures
            builder.is_fresh(),
    {
        AppleCuratorGetRequestBuilder::default()
    }

    /// Whether `after` is this apple curator with `context` stored in every relationship and view
    /// below it, and with nothing else changed.
    pub open spec fn attached(&self, context: Arc<RequestContext>, after: &AppleCurator) -> bool
        decreases self,
    {
        &&& after.header == self.header
        &&& after.attributes == self.attributes
        &&& self.relationships.attached(context, &after.relationships)
    }

    /// Stores the context in every relationship and view below this apple curator.
    pub fn attach(&mut self, context: &Arc<RequestContext>)
        ensures
            old(self).attached(*context, final(self)),
            final(self).attached(*context, final(self)),
        decreases *old(self),
    {
        self.relationships.attach(context);
    }

    /// Whether `after` holds the items of `before`, one for one, with `context` stored in
    /// every relationship and view below each.
    pub open spec fn attached_each(
        before: Seq<AppleCurator>,
        context: Arc<RequestContext>,
        after: Seq<AppleCurator>,
    ) -> bool
        decreases before,
    {
        &&& after.len() == before.len()
        &&& forall|i: int|
            0 <= i < before.len() ==> (#[trigger] before[i]).attached(context, &after[i])
    }

    /// Stores the context below each of the items.
    pub fn attach_each(items: &mut Vec<AppleCurator>, context: &Arc<RequestContext>)
        ensures
            AppleCurator::attached_each(old(items)@, *context, final(items)@),
            AppleCurator::attached_each(final(items)@, *context, final(items)@),
        decreases *old(items),
    {
        let n = items.len();
        let mut i: usize = 0;
        while i < n
            invariant
                i <= n,
                items@.len() == n,
                old(items)@.len() == n,
                forall|j: int|
                    0 <= j < i ==> (#[trigger] old(items)@[j]).attached(*context, &items@[j]),
                forall|j: int| 0 <= j < i ==> (#[trigger] items@[j]).attached(*context, &items@[j]),
                forall|j: int| i <= j < n ==> items@[j] == old(items)@[j],
            decreases n - i,
        {
            items[i].attach(context);
            i += 1;
        }
    }

    /// Whether `after` is the relationship `before`, if there is one, with `context` stored
    /// in it and below each of its items.
    pub open spec fn attached_in(
        before: Option<Relationship<AppleCurator>>,
        context: Arc<RequestContext>,
        after: Option<Relationship<AppleCurator>>,
    ) -> bool
        decreases before,
    {
        match (before, after) {
            (Some(before), Some(after)) => {
                &&& after.context() == Some(context)
                &&& after.href == before.href
                &&& after.next == before.next
                &&& AppleCurator::attached_each(before.data@, context, after.data@)
            },
            (None, None) => true,
            _ => false,
        }
    }

    /// Stores the context in a relationship, if there is one, and below each of its items.
    pub fn attach_in(
        relationship: &mut Option<Relationship<AppleCurator>>,
        context: &Arc<RequestContext>,
    )
        ensures
            AppleCurator::attached_in(*old(relationship), *context, *final(relationship)),
            AppleCurator::attached_in(*final(relationship), *context, *final(relationship)),
        decreases *old(relationship),
    {
        match relationship {
            Some(relationship) => {
                relationship.install(share(context));
                AppleCurator::attach_each(&mut relationship.data, context);
            },
            None => {},
        }
    }

    /// A copy of this apple curator.
    pub fn duplicate(&self) -> (copy: AppleCurator)
        ensures
            self.copied(&copy),
        decreases self,
    {
        AppleCurator {
            header: self.header.clone(),
            attributes: self.attributes.clone(),
            relationships: self.relationships.duplicate(),
        }
    }

    /// Copies of the items, in their order.
    pub fn duplicate_each(items: &Vec<AppleCurator>) -> (copies: Vec<AppleCurator>)
        ensures
            AppleCurator::copied_each(items@, copies@),
        decreases items,
    {
        let mut copies: Vec<AppleCurator> = Vec::new();
        let mut i: usize = 0;
        while i < items.len()
            invariant
                i <= items@.len(),
                copies@.len() == i,
                forall|j: int| 0 <= j < i ==> (#[trigger] items@[j]).copied(&copies@[j]),
            decreases items@.len() - i,
        {
            copies.push(items[i].duplicate());
            i += 1;
        }
        copies
    }

    /// A copy of a relationship, if there is one.
    pub fn duplicate_in(relationship: &Option<Relationship<AppleCurator>>) -> (copy: Option<
        Relationship<AppleCurator>,
    >)
        ensures
            AppleCurator::copied_in(*relationship, copy),
        decreases relationship,
    {
        match relationship {
            Some(relationship) => Some(
                Relationship {
                    href: relationship.href.clone(),
                    next: relationship.next.clone(),
                    data: AppleCurator::duplicate_each(&relationship.data),
                    context: relationship.context.clone(),
                },
            ),
            None => None,
        }
    }

    /// Whether `copy` holds what this apple curator holds: the same header, a clone of the
    /// attributes, and a copy of every relationship and view below it, each with the
    /// context that it holds.
    pub open spec fn copied(&self, copy: &AppleCurator) -> bool
        decreases self,
    {
        &&& copy.header == self.header
        &&& cloned(self.attributes, copy.attributes)
        &&& self.relationships.copied(&copy.relationships)
    }

    /// Whether `copies` holds a copy of each of the items, in their order.
    pub open spec fn copied_each(items: Seq<AppleCurator>, copies: Seq<AppleCurator>) -> bool
        decreases items,
    {
        &&& copies.len() == items.len()
        &&& forall|i: int| 0 <= i < items.len() ==> (#[trigger] items[i]).copied(&copies[i])
    }

    /// Whether `copy` is a copy of a relationship, if there is one: with the same
    /// locations, the same context and a copy of each of its items.
    pub open spec fn copied_in(
        relationship: Option<Relationship<AppleCurator>>,
        copy: Option<Relationship<AppleCurator>>,
    ) -> bool
        decreases relationship,
    {
        match (relationship, copy) {
            (Some(relationship), Some(copy)) => {
                &&& copy.href == relationship.href
                &&& copy.next == relationship.next
                &&& copy.context() == relationship.context()
                &&& AppleCurator::copied_each(relationship.data@, copy.data@)
            },
            (None, None) => true,
            _ => false,
        }
    }
}

impl ContextContainer for AppleCurator {
    open spec fn propagated(&self, context: Arc<RequestContext>, after: &Self) -> bool {
        self.attached(context, after)
    }

    fn set_context(&mut self, context: Arc<RequestContext>) {
        self.attach(&context);
    }
}

impl Clone for AppleCurator {
    fn clone(&self) -> (copy: Self)
        ensures
            self.copied(&copy),
    {
        self.duplicate()
    }
}

/// Apple curator attributes
#[derive(Default, Debug, Clone, PartialEq, Eq, Hash)]
pub struct AppleCuratorAttributes {
    /// The curator artwork
    pub artwork: Artwork,
    /// The notes about the curator that appear in the Apple Music catalog
    pub editorial_notes: Option<EditorialNotes>,
    /// Curator kind
    pub kind: CuratorKind,
    /// The localized name of the curator
    pub name: String,
    /// The localized shortened name of the curator
    pub short_name: Option<String>,
    /// The name of the host if kind is Show
    pub show_host_name: Option<String>,
    /// The URL for sharing the curator in Apple Music
    pub url: String,
}

/// Curator kind
#[derive(Default, Debug, Clone, PartialEq, Eq, Hash)]
pub enum CuratorKind {
    /// An individual curator entity
    #[default]
    Curator,
    /// A curator that represents a cohesive music genre
    Genre,
    /// A curator associated with a particular Apple Music show
    Show,
}

/// Apple curator relationships
#[derive(Default, Debug, PartialEq, Eq, Hash)]
pub struct AppleCuratorRelationships {
    /// The playlists associated with this curator. By default, playlists includes identifiers only.
    ///
    /// Fetch limits: 10 default, 10 maximum.
    ///
    /// Possible resources: [`Playlist`]
    pub playlists: Option<Relationship<Playlist>>,
}

/// The relationships that can be asked for with apple curators
#[derive(Debug, Copy, Clone, PartialEq, Eq, Hash)]
pub enum AppleCuratorRelationshipType {
    /// The playlists associated with this curator. By default, playlists includes identifiers only.
    ///
    /// Fetch limits: 10 default, 10 maximum.
    ///
    /// Possible resources: [`Playlist`]
    Playlists,
}

impl Named for AppleCuratorRelationshipType {
    open spec fn name(&self) -> Seq<char> {
        match self {
            AppleCuratorRelationshipType::Playlists => "playlists"@,
        }
    }

    fn to_string(&self) -> (name: String) {
        let name = match self {
            AppleCuratorRelationshipType::Playlists => "playlists",
        };
        owned(name)
    }
}

impl RelationshipTrait for AppleCuratorRelationshipType {
    open spec fn object(&self) -> Seq<char> {
        "apple-curators"@
    }

    fn get_object(&self) -> (object: &'static str) {
        "apple-curators"
    }
}

impl AppleCuratorRelationships {
    /// Whether `after` holds these relationships with `context` stored in each of them and
    /// below each of their items, and with nothing else changed.
    pub open spec fn attached(
        &self,
        context: Arc<RequestContext>,
        after: &AppleCuratorRelationships,
    ) -> bool
        decreases self,
    {
        &&& Playlist::attached_in(self.playlists, context, after.playlists)
    }

    /// Stores the context in each of these relationships and below each of their items.
    pub fn attach(&mut self, context: &Arc<RequestContext>)
        ensures
            old(self).attached(*context, final(self)),
            final(self).attached(*context, final(self)),
        decreases *old(self),
    {
        Playlist::attach_in(&mut self.playlists, context);
    }

    /// A copy of these relationships.
    pub fn duplicate(&self) -> (copy: AppleCuratorRelationships)
        ensures
            self.copied(&copy),
        decreases self,
    {
        AppleCuratorRelationships {
            playlists: Playlist::duplicate_in(&self.playlists),
        }
    }

    /// Whether `copy` holds a copy of each of these relationships, with the context that it
    /// holds and a copy of each of its items.
    pub open spec fn copied(&self, copy: &AppleCuratorRelationships) -> bool
        decreases self,
    {
        &&& Playlist::copied_in(self.playlists, copy.playlists)
    }
}

impl ContextContainer for AppleCuratorRelationships {
    open spec fn propagated(&self, context: Arc<RequestContext>, after: &Self) -> bool {
        self.attached(context, after)
    }

    fn set_context(&mut self, context: Arc<RequestContext>) {
        self.attach(&context);
    }
}

impl Clone for AppleCuratorRelationships {
    fn clone(&self) -> (copy: Self)
        ensures
            self.copied(&copy),
    {
        self.duplicate()
    }
}

/// Apple curator request builder
pub struct AppleCuratorRequestBuilder;

/// Apple curator get request builder
pub type AppleCuratorGetRequestBuilder<'a> = MusicRequestBuilder<'a, AppleCuratorRequestBuilder>;

impl<'a> AppleCuratorGetRequestBuilder<'a> {
    /// Fetch one apple curator by id
    pub fn one(self, client: &ApiClient, id: &str) -> (fetch: FetchOne<AppleCurator>)
        ensures
            prepared(
                fetch.request,
                fetch.context,
                Method::Get,
                below(catalog_endpoint(self.storefront(client), "apple-curators"@), id@),
                self.storefront(client),
                self.query(client),
            ),
    {
        let mut builder = self;
        let context = builder.get_request_context_drain(client);
        let endpoint = catalog_path(&context.storefront, "apple-curators");
        let path = path_below(endpoint.as_str(), id);
        FetchOne::new(client.get(path.as_str()), context)
    }

    /// Fetch multiple apple curators by id
    pub fn main(self, client: &ApiClient, ids: &[&str]) -> (fetch: FetchMany<AppleCurator>)
        ensures
            prepared(
                fetch.request,
                fetch.context,
                Method::Get,
                catalog_endpoint(self.storefront(client), "apple-curators"@),
                self.storefront(client),
                self.query(client).push(("ids"@, joined(slice_views(ids@), ","@))),
            ),
    {
        let mut builder = self;
        let mut context = builder.get_request_context_drain(client);
        push_parameter(&mut context, "ids", join(ids, ","));
        let endpoint = catalog_path(&context.storefront, "apple-curators");
        FetchMany::new(client.get(endpoint.as_str()), context)
    }
}

/// Curator
#[derive(Default, Debug, PartialEq, Eq, Hash)]
pub struct Curator {
    /// Resource header
    pub header: ResourceHeader,
    /// Curator attributes
    pub attributes: Option<CuratorAttributes>,
    /// Curator relationships
    pub relationships: CuratorRelationships,
}

impl Curator {
    /// Get curator request builder
    pub fn get<'a>() -> (builder: CuratorGetRequestBuilder<'a>)
        ensures
            builder.is_fresh(),
    {
        CuratorGetRequestBuilder::default()
    }

    /// Whether `after` is this curator with `context` stored in every relationship and view
    /// below it, and with nothing else changed.
    pub open spec fn attached(&self, context: Arc<RequestContext>, after: &Curator) -> bool
        decreases self,
    {
        &&& after.header == self.header
        &&& after.attributes == self.attributes
        &&& self.relationships.attached(context, &after.relationships)
    }

    /// Stores the context in every relationship and view below this curator.
    pub fn attach(&mut self, context: &Arc<RequestContext>)
        ensures
            old(self).attached(*context, final(self)),
            final(self).attached(*context, final(self)),
        decreases *old(self),
    {
        self.relationships.attach(context);
    }

    /// A copy of this curator.
    pub fn duplicate(&self) -> (copy: Curator)
        ensures
            self.copied(&copy),
        decreases self,
    {
        Curator {
            header: self.header.clone(),
            attributes: self.attributes.clone(),
            relationships: self.relationships.duplicate(),
        }
    }

    /// Whether `copy` holds what this curator holds: the same header, a clone of the
    /// attributes, and a copy of every relationship and view below it, each with the
    /// context that it holds.
    pub open spec fn copied(&self, copy: &Curator) -> bool
        decreases self,
    {
        &&& copy.header == self.header
        &&& cloned(self.attributes, copy.attributes)
        &&& self.relationships.copied(&copy.relationships)
    }
}

impl ContextContainer for Curator {
    open spec fn propagated(&self, context: Arc<RequestContext>, after: &Self) -> bool {
        self.attached(context, after)
    }

    fn set_context(&mut self, context: Arc<RequestContext>) {
        self.attach(&context);
    }
}

impl Clone for Curator {
    fn clone(&self) -> (copy: Self)
        ensures
            self.copied(&copy),
    {
        self.duplicate()
    }
}

/// Curator attributes
#[derive(Default, Debug, Clone, PartialEq, Eq, Hash)]
pub struct CuratorAttributes {
    /// The curator artwork
    pub artwork: Artwork,
    /// The notes about the curator
    pub editorial_notes: Option<EditorialNotes>,
    /// The localized name of the curator
    pub name: String,
    /// The URL for sharing the curator in Apple Music
    pub url: String,
}

/// Curator relationships
#[derive(Default, Debug, PartialEq, Eq, Hash)]
pub struct CuratorRelationships {
    /// The playlists associated with this curator. By default, playlists includes identifiers only.
    ///
    /// Fetch limits: 10 default, 10 maximum.
    ///
    /// Possible resources: [`Playlist`]
    pub playlists: Option<Relationship<Playlist>>,
}

/// The relationships that can be asked for with curators
#[derive(Debug, Copy, Clone, PartialEq, Eq, Hash)]
pub enum CuratorRelationshipType {
    /// The playlists associated with this curator. By default, playlists includes identifiers only.
    ///
    /// Fetch limits: 10 default, 10 maximum.
    ///
    /// Possible resources: [`Playlist`]
    Playlists,
}

impl Named for CuratorRelationshipType {
    open spec fn name(&self) -> Seq<char> {
        match self {
            CuratorRelationshipType::Playlists => "playlists"@,
        }
    }

    fn to_string(&self) -> (name: String) {
        let name = match self {
            CuratorRelationshipType::Playlists => "playlists",
        };
        owned(name)
    }
}

impl RelationshipTrait for CuratorRelationshipType {
    open spec fn object(&self) -> Seq<char> {
        "curators"@
    }

    fn get_object(&self) -> (object: &'static str) {
        "curators"
    }
}

impl CuratorRelationships {
    /// Whether `after` holds these relationships with `context` stored in each of them and
    /// below each of their items, and with nothing else changed.
    pub open spec fn attached(
        &self,
        context: Arc<RequestContext>,
        after: &CuratorRelationships,
    ) -> bool
        decreases self,
    {
        &&& Playlist::attached_in(self.playlists, context, after.playlists)
    }

    /// Stores the context in each of these relationships and below each of their items.
    pub fn attach(&mut self, context: &Arc<RequestContext>)
        ensures
            old(self).attached(*context, final(self)),
            final(self).attached(*context, final(self)),
        decreases *old(self),
    {
        Playlist::attach_in(&mut self.playlists, context);
    }

    /// A copy of these relationships.
    pub fn duplicate(&self) -> (copy: CuratorRelationships)
        ensures
            self.copied(&copy),
        decreases self,
    {
        CuratorRelationships {
            playlists: Playlist::duplicate_in(&self.playlists),
        }
    }

    /// Whether `copy` holds a copy of each of these relationships, with the context that it
    /// holds and a copy of each of its items.
    pub open spec fn copied(&self, copy: &CuratorRelationships) -> bool
        decreases self,
    {
        &&& Playlist::copied_in(self.playlists, copy.playlists)
    }
}

impl ContextContainer for CuratorRelationships {
    open spec fn propagated(&self, context: Arc<RequestContext>, after: &Self) -> bool {
        self.attached(context, after)
    }

    fn set_context(&mut self, context: Arc<RequestContext>) {
        self.attach(&context);
    }
}

impl Clone for CuratorRelationships {
    fn clone(&self) -> (copy: Self)
        ensures
            self.copied(&copy),
    {
        self.duplicate()
    }
}

/// Curator request builder
pub struct CuratorRequestBuilder;

/// Curator get request builder
pub type CuratorGetRequestBuilder<'a> = MusicRequestBuilder<'a, CuratorRequestBuilder>;

impl<'a> CuratorGetRequestBuilder<'a> {
    /// Fetch one curator by id
    pub fn one(self, client: &ApiClient, id: &str) -> (fetch: FetchOne<Curator>)
        ensures
            prepared(
                fetch.request,
                fetch.context,
                Method::Get,
                below(catalog_endpoint(self.storefront(client), "curators"@), id@),
                self.storefront(client),
                self.query(client),
            ),
    {
        let mut builder = self;
        let context = builder.get_request_context_drain(client);
        let endpoint = catalog_path(&context.storefront, "curators");
        let path = path_below(endpoint.as_str(), id);
        FetchOne::new(client.get(path.as_str()), context)
    }

    /// Fetch multiple curators by id
    pub fn many(self, client: &ApiClient, ids: &[&str]) -> (fetch: FetchMany<Curator>)
        ensures
            prepared(
                fetch.request,
                fetch.context,
                Method::Get,
                catalog_endpoint(self.storefront(client), "curators"@),
                self.storefront(client),
                self.query(client).push(("ids"@, joined(slice_views(ids@), ","@))),
            ),
    {
        let mut builder = self;
        let mut context = builder.get_request_context_drain(client);
        push_parameter(&mut context, "ids", join(ids, ","));
        let endpoint = catalog_path(&context.storefront, "curators");
        FetchMany::new(client.get(endpoint.as_str()), context)
    }
}

} // verus!
