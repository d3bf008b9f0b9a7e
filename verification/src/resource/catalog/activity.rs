//! Activity

use crate::primitive::EditorialNotes;
use crate::request::builder::MusicRequestBuilder;
use crate::request::context::{ContextContainer, RequestContext};
use crate::request::relationship::RelationshipTrait;
use crate::request::{
    FetchMany, FetchOne, below, catalog_endpoint, catalog_path, path_below, prepared,
    push_parameter,
};
use crate::resource::ResourceHeader;
use crate::resource::artwork::Artwork;
use crate::resource::catalog::playlist::Playlist;
use crate::resource::relationship::Relationship;
use crate::text::{Named, join, joined, owned, slice_views};
use crate::{ApiClient, Method};
use std::sync::Arc;
use vstd::prelude::*;

verus! {

/// Activity
#[derive(Default, Debug, PartialEq, Eq, Hash)]
pub struct Activity {
    /// Resource header
    pub header: ResourceHeader,
    /// Activity attributes
    pub attributes: Option<ActivityAttributes>,
    /// Activity relationships
    pub relationships: ActivityRelationships,
}

impl Activity {
    /// Activity get request builder
    pub fn get<'a>() -> (builder: ActivityGetRequestBuilder<'a>)
        ensures
            builder.is_fresh(),
    {
        ActivityGetRequestBuilder::default()
    }

    /// Whether `after` is this activity with `context` stored in every relationship and view
    /// below it, and with nothing else changed.
    pub open spec fn attached(&self, context: Arc<RequestContext>, after: &Activity) -> bool
        decreases self,
    {
        &&& after.header == self.header
        &&& after.attributes == self.attributes
        &&& self.relationships.attached(context, &after.relationships)
    }

    /// Stores the context in every relationship and view below this activity.
    pub fn attach(&mut self, context: &Arc<RequestContext>)
        ensures
            old(self).attached(*context, final(self)),
            final(self).attached(*context, final(self)),
        decreases *old(self),
    {
        self.relationships.attach(context);
    }

    /// A copy of this activity.
    pub fn duplicate(&self) -> (copy: Activity)
        ensures
            self.copied(&copy),
        decreases self,
    {
        Activity {
            header: self.header.clone(),
            attributes: self.attributes.clone(),
            relationships: self.relationships.duplicate(),
        }
    }

    /// Whether `copy` holds what this activity holds: the same header, a clone of the
    /// attributes, and a copy of every relationship and view below it, each with the
    /// context that it holds.
    pub open spec fn copied(&self, copy: &Activity) -> bool
        decreases self,
    {
        &&& copy.header == self.header
        &&& cloned(self.attributes, copy.attributes)
        &&& self.relationships.copied(&copy.relationships)
    }
}

impl ContextContainer for Activity {
    open spec fn propagated(&self, context: Arc<RequestContext>, after: &Self) -> bool {
        self.attached(context, after)
    }

    fn set_context(&mut self, context: Arc<RequestContext>) {
        self.attach(&context);
    }
}

impl Clone for Activity {
    fn clone(&self) -> (copy: Self)
        ensures
            self.copied(&copy),
    {
        self.duplicate()
    }
}

/// Activity attributes
#[derive(Default, Debug, Clone, PartialEq, Eq, Hash)]
pub struct ActivityAttributes {
    /// The activity artwork
    pub artwork: Artwork,
    /// The notes about the activity that appear in the Apple Music catalog
    pub editorial_notes: Option<EditorialNotes>,
    /// The localized name of the activity
    pub name: String,
    /// The URL for sharing the activity in Apple Music
    pub url: String,
}

/// Activity relationships
#[derive(Default, Debug, PartialEq, Eq, Hash)]
pub struct ActivityRelationships {
    /// Playlists
    ///
    /// Possible resources: [`Playlist`]
    pub playlists: Option<Relationship<Playlist>>,
}

/// The relationships that can be asked for with activities
#[derive(Debug, Copy, Clone, PartialEq, Eq, Hash)]
pub enum ActivityRelationshipType {
    /// Playlists
    ///
    /// Possible resources: [`Playlist`]
    Playlists,
}

impl Named for ActivityRelationshipType {
    open spec fn name(&self) -> Seq<char> {
        match self {
            ActivityRelationshipType::Playlists => "playlists"@,
        }
    }

    fn to_string(&self) -> (name: String) {
        let name = match self {
            ActivityRelationshipType::Playlists => "playlists",
        };
        owned(name)
    }
}

impl RelationshipTrait for ActivityRelationshipType {
    open spec fn object(&self) -> Seq<char> {
        "activities"@
    }

    fn get_object(&self) -> (object: &'static str) {
        "activities"
    }
}

impl ActivityRelationships {
    /// Whether `after` holds these relationships with `context` stored in each of them and
    /// below each of their items, and with nothing else changed.
    pub open spec fn attached(
        &self,
        context: Arc<RequestContext>,
        after: &ActivityRelationships,
    ) -> bool
        decreases self,
    {
        &&& Playlist::attached_in(self.playlists, context, after.playlists)
    }

    /// Stores the context in each of these relationships and below each of their items.
    pub fn attach(&mut self, context: &Arc<RequestContext>)
        ensures
            old(self).attached(*context, final(self)),
            final(self).attached(*context, final(self)),
        decreases *old(self),
    {
        Playlist::attach_in(&mut self.playlists, context);
    }

    /// A copy of these relationships.
    pub fn duplicate(&self) -> (copy: ActivityRelationships)
        ensures
            self.copied(&copy),
        decreases self,
    {
        ActivityRelationships {
            playlists: Playlist::duplicate_in(&self.playlists),
        }
    }

    /// Whether `copy` holds a copy of each of these relationships, with the context that it
    /// holds and a copy of each of its items.
    pub open spec fn copied(&self, copy: &ActivityRelationships) -> bool
        decreases self,
    {
        &&& Playlist::copied_in(self.playlists, copy.playlists)
    }
}

impl ContextContainer for ActivityRelationships {
    open spec fn propagated(&self, context: Arc<RequestContext>, after: &Self) -> bool {
        self.attached(context, after)
    }

    fn set_context(&mut self, context: Arc<RequestContext>) {
        self.attach(&context);
    }
}

impl Clone for ActivityRelationships {
    fn clone(&self) -> (copy: Self)
        ensures
            self.copied(&copy),
    {
        self.duplicate()
    }
}

/// Activity request builder
pub struct ActivityRequestBuilder;

/// Activity get request builder
pub type ActivityGetRequestBuilder<'a> = MusicRequestBuilder<'a, ActivityRequestBuilder>;

impl<'a> ActivityGetRequestBuilder<'a> {
    /// Fetch one catalog activity by id
    pub fn one(self, client: &ApiClient, id: &str) -> (fetch: FetchOne<Activity>)
        ensures
            prepared(
                fetch.request,
                fetch.context,
                Method::Get,
                below(catalog_endpoint(self.storefront(client), "activities"@), id@),
                self.storefront(client),
                self.query(client),
            ),
    {
        let mut builder = self;
        let context = builder.get_request_context_drain(client);
        let endpoint = catalog_path(&context.storefront, "activities");
        let path = path_below(endpoint.as_str(), id);
        FetchOne::new(client.get(path.as_str()), context)
    }

    /// Fetch multiple activities by id
    pub fn many(self, client: &ApiClient, ids: &[&str]) -> (fetch: FetchMany<Activity>)
        ensures
            prepared(
                fetch.request,
                fetch.context,
                Method::Get,
                catalog_endpoint(self.storefront(client), "activities"@),
                self.storefront(client),
                self.query(client).push(("ids"@, joined(slice_views(ids@), ","@))),
            ),
    {
        let mut builder = self;
        let mut context = builder.get_request_context_drain(client);
        push_parameter(&mut context, "ids", join(ids, ","));
        let endpoint = catalog_path(&context.storefront, "activities");
        FetchMany::new(client.get(endpoint.as_str()), context)
    }
}

} // verus!
