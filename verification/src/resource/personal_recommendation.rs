//! Personal recommendation

use crate::request::builder::MusicRequestBuilder;
use crate::request::context::{ContextContainer, RequestContext};
use crate::request::fields::query_view;
use crate::request::paginated::{Paginator, Progress, paginate};
use crate::request::relationship::RelationshipTrait;
use crate::request::{FetchMany, FetchOne, below, path_below, prepared, push_parameter};
use crate::resource::relationship::Relationship;
use crate::resource::{Resource, ResourceHeader};
use crate::text::{Named, decimal, join, joined, owned, slice_views, to_decimal};
use crate::{ApiClient, Method};
use std::sync::Arc;
use time::OffsetDateTime;
use vstd::prelude::*;

verus! {

/// Personal recommendation
#[derive(Debug, PartialEq, Eq, Hash)]
pub struct PersonalRecommendation {
    /// Resource header
    pub header: ResourceHeader,
    /// Personal recommendation attributes
    pub attributes: Option<PersonalRecommendationAttributes>,
    /// Personal recommendation relationships
    pub relationships: PersonalRecommendationRelationships,
}

impl PersonalRecommendation {
    /// Get personal recommendation request builder
    pub fn get<'a>() -> (builder: PersonalRecommendationGetRequestBuilder<'a>)
        ensures
            builder.is_fresh(),
    {
        PersonalRecommendationGetRequestBuilder::default()
    }

    /// Whether `after` is this personal recommendation with `context` stored in every relationship and view
    /// below it, and with nothing else changed.
    pub open spec fn attached(
        &self,
        context: Arc<RequestContext>,
        after: &PersonalRecommendation,
    ) -> bool
        decreases self,
    {
        &&& after.header == self.header
        &&& after.attributes == self.attributes
        &&& self.relationships.attached(context, &after.relationships)
    }

    /// Stores the context in every relationship and view below this personal recommendation.
    pub fn attach(&mut self, context: &Arc<RequestContext>)
        ensures
            old(self).attached(*context, final(self)),
            final(self).attached(*context, final(self)),
        decreases *old(self),
    {
        self.relationships.attach(context);
    }

    /// A copy of this personal recommendation.
    pub fn duplicate(&self) -> (copy: PersonalRecommendation)
        ensures
            self.copied(&copy),
        decreases self,
    {
        PersonalRecommendation {
            header: self.header.clone(),
            attributes: self.attributes.clone(),
            relationships: self.relationships.duplicate(),
        }
    }

    /// Whether `copy` holds what this personal recommendation holds: the same header, a clone of the
    /// attributes, and a copy of every relationship and view below it, each with the
    /// context that it holds.
    pub open spec fn copied(&self, copy: &PersonalRecommendation) -> bool
        decreases self,
    {
        &&& copy.header == self.header
        &&& cloned(self.attributes, copy.attributes)
        &&& self.relationships.copied(&copy.relationships)
    }
}

impl ContextContainer for PersonalRecommendation {
    open spec fn propagated(&self, context: Arc<RequestContext>, after: &Self) -> bool {
        self.attached(context, after)
    }

    fn set_context(&mut self, context: Arc<RequestContext>) {
        self.attach(&context);
    }
}

impl Clone for PersonalRecommendation {
    fn clone(&self) -> (copy: Self)
        ensures
            self.copied(&copy),
    {
        self.duplicate()
    }
}

/// Personal recommendation attributes
#[derive(Debug, Clone, PartialEq, Eq, Hash)]
pub struct PersonalRecommendationAttributes {
    /// Recommendation kind
    pub kind: PersonalRecommendationKind,
    /// The next date in UTC format for updating the recommendation
    pub next_update_date: OffsetDateTime,
    /// The localized reason for the recommendation
    pub reason: Option<PersonalRecommendationReason>,
    /// The resource types supported by the recommendation
    pub resource_types: Vec<String>,
    /// The localized title for the recommendation
    pub title: Option<PersonalRecommendationTitle>,
}

/// Personal recommendation relationships
#[derive(Default, Debug, PartialEq, Eq, Hash)]
pub struct PersonalRecommendationRelationships {
    /// The contents associated with the content recommendation type. By default, contents includes objects.
    ///
    /// Fetch limits: 10 default, 10 maximum.
    ///
    /// Possible resources: all
    pub contents: Option<Relationship<Resource>>,
}

/// The relationships that can be asked for with recommendations
#[derive(Debug, Copy, Clone, PartialEq, Eq, Hash)]
pub enum PersonalRecommendationRelationshipType {
    /// The contents associated with the content recommendation type. By default, contents includes objects.
    ///
    /// Fetch limits: 10 default, 10 maximum.
    ///
    /// Possible resources: all
    Contents,
}

impl Named for PersonalRecommendationRelationshipType {
    open spec fn name(&self) -> Seq<char> {
        match self {
            PersonalRecommendationRelationshipType::Contents => "contents"@,
        }
    }

    fn to_string(&self) -> (name: String) {
        let name = match self {
            PersonalRecommendationRelationshipType::Contents => "contents",
        };
        owned(name)
    }
}

impl RelationshipTrait for PersonalRecommendationRelationshipType {
    open spec fn object(&self) -> Seq<char> {
        "recommendations"@
    }

    fn get_object(&self) -> (object: &'static str) {
        "recommendations"
    }
}

impl PersonalRecommendationRelationships {
    /// Whether `after` holds these relationships with `context` stored in each of them and
    /// below each of their items, and with nothing else changed.
    pub open spec fn attached(
        &self,
        context: Arc<RequestContext>,
        after: &PersonalRecommendationRelationships,
    ) -> bool
        decreases self,
    {
        &&& Resource::attached_in(self.contents, context, after.contents)
    }

    /// Stores the context in each of these relationships and below each of their items.
    pub fn attach(&mut self, context: &Arc<RequestContext>)
        ensures
            old(self).attached(*context, final(self)),
            final(self).attached(*context, final(self)),
        decreases *old(self),
    {
        Resource::attach_in(&mut self.contents, context);
    }

    /// A copy of these relationships.
    pub fn duplicate(&self) -> (copy: PersonalRecommendationRelationships)
        ensures
            self.copied(&copy),
        decreases self,
    {
        PersonalRecommendationRelationships {
            contents: Resource::duplicate_in(&self.contents),
        }
    }

    /// Whether `copy` holds a copy of each of these relationships, with the context that it
    /// holds and a copy of each of its items.
    pub open spec fn copied(&self, copy: &PersonalRecommendationRelationships) -> bool
        decreases self,
    {
        &&& Resource::copied_in(self.contents, copy.contents)
    }
}

impl ContextContainer for PersonalRecommendationRelationships {
    open spec fn propagated(&self, context: Arc<RequestContext>, after: &Self) -> bool {
        self.attached(context, after)
    }

    fn set_context(&mut self, context: Arc<RequestContext>) {
        self.attach(&context);
    }
}

impl Clone for PersonalRecommendationRelationships {
    fn clone(&self) -> (copy: Self)
        ensures
            self.copied(&copy),
    {
        self.duplicate()
    }
}

/// Personal recommendation kind
#[derive(Default, Debug, Clone, PartialEq, Eq, Hash)]
pub enum PersonalRecommendationKind {
    /// A recommendation for music content
    #[default]
    MusicRecommendations,
    /// A recommendation based on recently played content
    RecentlyPlayed,
    /// A generic recommendation type
    Generic,
}

/// Personal recommendation reason
#[derive(Default, Debug, Clone, PartialEq, Eq, Hash)]
pub struct PersonalRecommendationReason {
    /// The localized reason for the recommendation
    pub string_for_display: String,
}

/// Personal recommendation title
#[derive(Default, Debug, Clone, PartialEq, Eq, Hash)]
pub struct PersonalRecommendationTitle {
    /// The localized title for the recommendation
    pub string_for_display: String,
}

/// Personal recommendation request builder
pub struct PersonalRecommendationRequestBuilder;

/// Personal recommendation get request builder
pub type PersonalRecommendationGetRequestBuilder<'a> = MusicRequestBuilder<
    'a,
    PersonalRecommendationRequestBuilder,
>;

impl<'a> PersonalRecommendationGetRequestBuilder<'a> {
    /// Fetch one recommendation by id
    pub fn one(self, client: &ApiClient, id: &str) -> (fetch: FetchOne<PersonalRecommendation>)
        ensures
            prepared(
                fetch.request,
                fetch.context,
                Method::Get,
                below("/v1/me/recommendations"@, id@),
                self.storefront(client),
                self.query(client),
            ),
    {
        let mut builder = self;
        let context = builder.get_request_context_drain(client);
        let endpoint = owned("/v1/me/recommendations");
        let path = path_below(endpoint.as_str(), id);
        FetchOne::new(client.get(path.as_str()), context)
    }

    /// Fetch multiple recommendations by id
    pub fn many(
        self,
        client: &ApiClient,
        ids: &[&str],
    ) -> (fetch: FetchMany<PersonalRecommendation>)
        ensures
            prepared(
                fetch.request,
                fetch.context,
                Method::Get,
                "/v1/me/recommendations"@,
                self.storefront(client),
                self.query(client).push(("ids"@, joined(slice_views(ids@), ","@))),
            ),
    {
        let mut builder = self;
        let mut context = builder.get_request_context_drain(client);
        push_parameter(&mut context, "ids", join(ids, ","));
        let endpoint = owned("/v1/me/recommendations");
        FetchMany::new(client.get(endpoint.as_str()), context)
    }

    /// Fetch default recommendations
    ///
    /// # Params
    ///
    /// * limit - limit of entries per query
    ///
    /// * offset - query offset
    pub fn default_recommendations(
        self,
        client: &ApiClient,
        limit: usize,
        offset: usize,
    ) -> (pages: Paginator<PersonalRecommendation>)
        ensures
            pages.endpoint() == "/v1/me/recommendations"@,
            pages.context().storefront == self.storefront(client),
            query_view(pages.context().query@) == self.query(client).push(
                ("limit"@, decimal(limit as nat)),
            ),
            pages@ == (Progress { offset: offset as nat, finished: false }),
    {
        let mut builder = self;
        let mut context = builder.get_request_context_drain(client);
        push_parameter(&mut context, "limit", to_decimal(limit));
        let endpoint = owned("/v1/me/recommendations");
        paginate(endpoint, context, offset)
    }
}

} // verus!
