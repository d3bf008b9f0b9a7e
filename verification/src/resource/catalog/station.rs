//! Station

use crate::primitive::{ContentRating, EditorialNotes, PlayParameters};
use crate::request::builder::MusicRequestBuilder;
use crate::request::context::{ContextContainer, RequestContext, share};
use crate::request::fields::query_view;
use crate::request::paginated::{Paginator, Progress, paginate};
use crate::request::relationship::RelationshipTrait;
use crate::request::{
    FetchMany, FetchOne, below, catalog_endpoint, catalog_path, path_below, prepared,
    push_parameter,
};
use crate::resource::ResourceHeader;
use crate::resource::artwork::Artwork;
use crate::resource::catalog::curator::AppleCurator;
use crate::resource::relationship::Relationship;
use crate::text::{Named, decimal, join, joined, owned, slice_views, to_decimal};
use crate::{ApiClient, Method};
use std::sync::Arc;
use vstd::prelude::*;

verus! {

/// Station
#[derive(Default, Debug, PartialEq, Eq, Hash)]
pub struct Station {
    /// Resource header
    pub header: ResourceHeader,
    /// Station attributes
    pub attributes: Option<StationAttributes>,
    /// Station relationships
    pub relationships: StationRelationships,
}

impl Station {
    /// Get station request builder
    pub fn get<'a>() -> (builder: StationGetRequestBuilder<'a>)
        ensures
            builder.is_fresh(),
    {
        StationGetRequestBuilder::default()
    }

    /// Whether `after` is this station with `context` stored in every relationship and view
    /// below it, and with nothing else changed.
    pub open spec fn attached(&self, context: Arc<RequestContext>, after: &Station) -> bool
        decreases self,
    {
        &&& after.header == self.header
        &&& after.attributes == self.attributes
        &&& self.relationships.attached(context, &after.relationships)
    }

    /// Stores the context in every relationship and view below this station.
    pub fn attach(&mut self, context: &Arc<RequestContext>)
        ensures
            old(self).attached(*context, final(self)),
            final(self).attached(*context, final(self)),
        decreases *old(self),
    {
        self.relationships.attach(context);
    }

    /// Whether `after` holds the items of `before`, one for one, with `context` stored in
    /// every relationship and view below each.
    pub open spec fn attached_each(
        before: Seq<Station>,
        context: Arc<RequestContext>,
        after: Seq<Station>,
    ) -> bool
        decreases before,
    {
        &&& after.len() == before.len()
        &&& forall|i: int|
            0 <= i < before.len() ==> (#[trigger] before[i]).attached(context, &after[i])
    }

    /// Stores the context below each of the items.
    pub fn attach_each(items: &mut Vec<Station>, context: &Arc<RequestContext>)
        ensures
            Station::attached_each(old(items)@, *context, final(items)@),
            Station::attached_each(final(items)@, *context, final(items)@),
        decreases *old(items),
    {
        let n = items.len();
        let mut i: usize = 0;
        while i < n
            invariant
                i <= n,
                items@.len() == n,
                old(items)@.len() == n,
                forall|j: int|
                    0 <= j < i ==> (#[trigger] old(items)@[j]).attached(*context, &items@[j]),
                forall|j: int| 0 <= j < i ==> (#[trigger] items@[j]).attached(*context, &items@[j]),
                forall|j: int| i <= j < n ==> items@[j] == old(items)@[j],
            decreases n - i,
        {
            items[i].attach(context);
            i += 1;
        }
    }

    /// Whether `after` is the relationship `before`, if there is one, with `context` stored
    /// in it and below each of its items.
    pub open spec fn attached_in(
        before: Option<Relationship<Station>>,
        context: Arc<RequestContext>,
        after: Option<Relationship<Station>>,
    ) -> bool
        decreases before,
    {
        match (before, after) {
            (Some(before), Some(after)) => {
                &&& after.context() == Some(context)
                &&& after.href == before.href
                &&& after.next == before.next
                &&& Station::attached_each(before.data@, context, after.data@)
            },
            (None, None) => true,
            _ => false,
        }
    }

    /// Stores the context in a relationship, if there is one, and below each of its items.
    pub fn attach_in(
        relationship: &mut Option<Relationship<Station>>,
        context: &Arc<RequestContext>,
    )
        ensures
            Station::attached_in(*old(relationship), *context, *final(relationship)),
            Station::attached_in(*final(relationship), *context, *final(relationship)),
        decreases *old(relationship),
    {
        match relationship {
            Some(relationship) => {
                relationship.install(share(context));
                Station::attach_each(&mut relationship.data, context);
            },
            None => {},
        }
    }

    /// A copy of this station.
    pub fn duplicate(&self) -> (copy: Station)
        ensures
            self.copied(&copy),
        decreases self,
    {
        Station {
            header: self.header.clone(),
            attributes: self.attributes.clone(),
            relationships: self.relationships.duplicate(),
        }
    }

    /// Copies of the items, in their order.
    pub fn duplicate_each(items: &Vec<Station>) -> (copies: Vec<Station>)
        ensures
            Station::copied_each(items@, copies@),
        decreases items,
    {
        let mut copies: Vec<Station> = Vec::new();
        let mut i: usize = 0;
        while i < items.len()
            invariant
                i <= items@.len(),
                copies@.len() == i,
                forall|j: int| 0 <= j < i ==> (#[trigger] items@[j]).copied(&copies@[j]),
            decreases items@.len() - i,
        {
            copies.push(items[i].duplicate());
            i += 1;
        }
        copies
    }

    /// A copy of a relationship, if there is one.
    pub fn duplicate_in(relationship: &Option<Relationship<Station>>) -> (copy: Option<
        Relationship<Station>,
    >)
        ensures
            Station::copied_in(*relationship, copy),
        decreases relationship,
    {
        match relationship {
            Some(relationship) => Some(
                Relationship {
                    href: relationship.href.clone(),
                    next: relationship.next.clone(),
                    data: Station::duplicate_each(&relationship.data),
                    context: relationship.context.clone(),
                },
            ),
            None => None,
        }
    }

    /// Whether `copy` holds what this station holds: the same header, a clone of the
    /// attributes, and a copy of every relationship and view below it, each with the
    /// context that it holds.
    pub open spec fn copied(&self, copy: &Station) -> bool
        decreases self,
    {
        &&& copy.header == self.header
        &&& cloned(self.attributes, copy.attributes)
        &&& self.relationships.copied(&copy.relationships)
    }

    /// Whether `copies` holds a copy of each of the items, in their order.
    pub open spec fn copied_each(items: Seq<Station>, copies: Seq<Station>) -> bool
        decreases items,
    {
        &&& copies.len() == items.len()
        &&& forall|i: int| 0 <= i < items.len() ==> (#[trigger] items[i]).copied(&copies[i])
    }

    /// Whether `copy` is a copy of a relationship, if there is one: with the same
    /// locations, the same context and a copy of each of its items.
    pub open spec fn copied_in(
        relationship: Option<Relationship<Station>>,
        copy: Option<Relationship<Station>>,
    ) -> bool
        decreases relationship,
    {
        match (relationship, copy) {
            (Some(relationship), Some(copy)) => {
                &&& copy.href == relationship.href
                &&& copy.next == relationship.next
                &&& copy.context() == relationship.context()
                &&& Station::copied_each(relationship.data@, copy.data@)
            },
            (None, None) => true,
            _ => false,
        }
    }
}

impl ContextContainer for Station {
    open spec fn propagated(&self, context: Arc<RequestContext>, after: &Self) -> bool {
        self.attached(context, after)
    }

    fn set_context(&mut self, context: Arc<RequestContext>) {
        self.attach(&context);
    }
}

impl Clone for Station {
    fn clone(&self) -> (copy: Self)
        ensures
            self.copied(&copy),
    {
        self.duplicate()
    }
}

/// Station attributes
#[derive(Default, Debug, Clone, PartialEq, Eq, Hash)]
pub struct StationAttributes {
    /// The radio station artwork
    pub artwork: Artwork,
    /// The duration of the stream. This value isn't emitted for 'live' or programmed stations
    pub duration_in_millis: Option<u32>,
    /// The notes about the station that appear in Apple Music
    pub editorial_notes: Option<EditorialNotes>,
    /// The episode number of the station. This value appears when the station represents an episode of a show or other content
    pub episode_number: Option<String>,
    /// The rating of the content possibly heard while playing the station. The possible values for this rating are clean and explicit. No value means no rating
    pub content_rating: Option<ContentRating>,
    /// Whether the station is a live stream
    pub is_live: bool,
    /// The media kind for the station. It can have value audio or video depending on whether it has video stream or audio stream
    pub media_kind: MediaKind,
    /// The localized name of the station
    pub name: String,
    /// The parameters to use to play back the station
    pub play_params: Option<PlayParameters>,
    /// The name of the entity that provided the station, when specified
    pub station_provider_name: Option<String>,
    /// The URL for sharing the station in Apple Music
    pub url: String,
}

/// Station relationships
#[derive(Default, Debug, PartialEq, Eq, Hash)]
pub struct StationRelationships {
    /// For radio show episodes, this relationship is the Apple Curator that represents the radio show
    ///
    /// Possible resources: [`AppleCurator`]
    pub radio_show: Option<Relationship<AppleCurator>>,
}

/// The relationships that can be asked for with stations
#[derive(Debug, Copy, Clone, PartialEq, Eq, Hash)]
pub enum StationRelationshipType {
    /// For radio show episodes, this relationship is the Apple Curator that represents the radio show
    ///
    /// Possible resources: [`AppleCurator`]
    RadioShow,
}

impl Named for StationRelationshipType {
    open spec fn name(&self) -> Seq<char> {
        match self {
            StationRelationshipType::RadioShow => "radio-show"@,
        }
    }

    fn to_string(&self) -> (name: String) {
        let name = match self {
            StationRelationshipType::RadioShow => "radio-show",
        };
        owned(name)
    }
}

impl RelationshipTrait for StationRelationshipType {
    open spec fn object(&self) -> Seq<char> {
        "stations"@
    }

    fn get_object(&self) -> (object: &'static str) {
        "stations"
    }
}

impl StationRelationships {
    /// Whether `after` holds these relationships with `context` stored in each of them and
    /// below each of their items, and with nothing else changed.
    pub open spec fn attached(
        &self,
        context: Arc<RequestContext>,
        after: &StationRelationships,
    ) -> bool
        decreases self,
    {
        &&& AppleCurator::attached_in(self.radio_show, context, after.radio_show)
    }

    /// Stores the context in each of these relationships and below each of their items.
    pub fn attach(&mut self, context: &Arc<RequestContext>)
        ensures
            old(self).attached(*context, final(self)),
            final(self).attached(*context, final(self)),
        decreases *old(self),
    {
        AppleCurator::attach_in(&mut self.radio_show, context);
    }

    /// A copy of these relationships.
    pub fn duplicate(&self) -> (copy: StationRelationships)
        ensures
            self.copied(&copy),
        decreases self,
    {
        StationRelationships {
            radio_show: AppleCurator::duplicate_in(&self.radio_show),
        }
    }

    /// Whether `copy` holds a copy of each of these relationships, with the context that it
    /// holds and a copy of each of its items.
    pub open spec fn copied(&self, copy: &StationRelationships) -> bool
        decreases self,
    {
        &&& AppleCurator::copied_in(self.radio_show, copy.radio_show)
    }
}

impl ContextContainer for StationRelationships {
    open spec fn propagated(&self, context: Arc<RequestContext>, after: &Self) -> bool {
        self.attached(context, after)
    }

    fn set_context(&mut self, context: Arc<RequestContext>) {
        self.attach(&context);
    }
}

impl Clone for StationRelationships {
    fn clone(&self) -> (copy: Self)
        ensures
            self.copied(&copy),
    {
        self.duplicate()
    }
}

/// Station request builder
pub struct StationRequestBuilder;

/// Station get request builder
pub type StationGetRequestBuilder<'a> = MusicRequestBuilder<'a, StationRequestBuilder>;

impl<'a> StationGetRequestBuilder<'a> {
    /// Fetch one station by id
    pub fn one(self, client: &ApiClient, id: &str) -> (fetch: FetchOne<Station>)
        ensures
            prepared(
                fetch.request,
                fetch.context,
                Method::Get,
                below(catalog_endpoint(self.storefront(client), "stations"@), id@),
                self.storefront(client),
                self.query(client),
            ),
    {
        let mut builder = self;
        let context = builder.get_request_context_drain(client);
        let endpoint = catalog_path(&context.storefront, "stations");
        let path = path_below(endpoint.as_str(), id);
        FetchOne::new(client.get(path.as_str()), context)
    }

    /// Fetch multiple stations by id
    pub fn many(self, client: &ApiClient, ids: &[&str]) -> (fetch: FetchMany<Station>)
        ensures
            prepared(
                fetch.request,
                fetch.context,
                Method::Get,
                catalog_endpoint(self.storefront(client), "stations"@),
                self.storefront(client),
                self.query(client).push(("ids"@, joined(slice_views(ids@), ","@))),
            ),
    {
        let mut builder = self;
        let mut context = builder.get_request_context_drain(client);
        push_parameter(&mut context, "ids", join(ids, ","));
        let endpoint = catalog_path(&context.storefront, "stations");
        FetchMany::new(client.get(endpoint.as_str()), context)
    }

    /// Fetch live radio stations
    pub fn live(self, client: &ApiClient) -> (fetch: FetchMany<Station>)
        ensures
            prepared(
                fetch.request,
                fetch.context,
                Method::Get,
                catalog_endpoint(self.storefront(client), "stations"@),
                self.storefront(client),
                self.query(client).push(("filter[featured]"@, "apple-music-live-radio"@)),
            ),
    {
        let mut builder = self;
        let mut context = builder.get_request_context_drain(client);
        push_parameter(&mut context, "filter[featured]", owned("apple-music-live-radio"));
        let endpoint = catalog_path(&context.storefront, "stations");
        FetchMany::new(client.get(endpoint.as_str()), context)
    }

    /// Fetch user's current personal station
    pub fn personal(self, client: &ApiClient) -> (fetch: FetchOne<Station>)
        ensures
            prepared(
                fetch.request,
                fetch.context,
                Method::Get,
                catalog_endpoint(self.storefront(client), "stations"@),
                self.storefront(client),
                self.query(client).push(("filter[identity]"@, "personal"@)),
            ),
    {
        let mut builder = self;
        let mut context = builder.get_request_context_drain(client);
        push_parameter(&mut context, "filter[identity]", owned("personal"));
        let endpoint = catalog_path(&context.storefront, "stations");
        FetchOne::new(client.get(endpoint.as_str()), context)
    }
}

/// Media kind
#[derive(Default, Debug, Clone, PartialEq, Eq, Hash)]
pub enum MediaKind {
    /// Audio
    #[default]
    Audio,
    /// Video
    Video,
}

/// Station genre
#[derive(Default, Debug, PartialEq, Eq, Hash)]
pub struct StationGenre {
    /// Resource header
    pub header: ResourceHeader,
    /// Station genre attributes
    pub attributes: Option<StationGenreAttributes>,
    /// Station genre relationships
    pub relationships: StationGenreRelationships,
}

impl StationGenre {
    /// Get station genre request builder
    pub fn get<'a>() -> (builder: StationGenreGetRequestBuilder<'a>)
        ensures
            builder.is_fresh(),
    {
        StationGenreGetRequestBuilder::default()
    }

    /// Whether `after` is this station genre with `context` stored in every relationship and view
    /// below it, and with nothing else changed.
    pub open spec fn attached(&self, context: Arc<RequestContext>, after: &StationGenre) -> bool
        decreases self,
    {
        &&& after.header == self.header
        &&& after.attributes == self.attributes
        &&& self.relationships.attached(context, &after.relationships)
    }

    /// Stores the context in every relationship and view below this station genre.
    pub fn attach(&mut self, context: &Arc<RequestContext>)
        ensures
            old(self).attached(*context, final(self)),
            final(self).attached(*context, final(self)),
        decreases *old(self),
    {
        self.relationships.attach(context);
    }

    /// A copy of this station genre.
    pub fn duplicate(&self) -> (copy: StationGenre)
        ensures
            self.copied(&copy),
        decreases self,
    {
        StationGenre {
            header: self.header.clone(),
            attributes: self.attributes.clone(),
            relationships: self.relationships.duplicate(),
        }
    }

    /// Whether `copy` holds what this station genre holds: the same header, a clone of the
    /// attributes, and a copy of every relationship and view below it, each with the
    /// context that it holds.
    pub open spec fn copied(&self, copy: &StationGenre) -> bool
        decreases self,
    {
        &&& copy.header == self.header
        &&& cloned(self.attributes, copy.attributes)
        &&& self.relationships.copied(&copy.relationships)
    }
}

impl ContextContainer for StationGenre {
    open spec fn propagated(&self, context: Arc<RequestContext>, after: &Self) -> bool {
        self.attached(context, after)
    }

    fn set_context(&mut self, context: Arc<RequestContext>) {
        self.attach(&context);
    }
}

impl Clone for StationGenre {
    fn clone(&self) -> (copy: Self)
        ensures
            self.copied(&copy),
    {
        self.duplicate()
    }
}

/// Station genre attributes
#[derive(Default, Debug, Clone, PartialEq, Eq, Hash)]
pub struct StationGenreAttributes {
    /// The name of the station genre
    pub name: String,
}

/// Station genre relationships
#[derive(Default, Debug, PartialEq, Eq, Hash)]
pub struct StationGenreRelationships {
    /// Stations associated with the station genre
    ///
    /// Possible resources: [`Station`]
    pub stations: Option<Relationship<Station>>,
}

/// The relationships that can be asked for with station genres
#[derive(Debug, Copy, Clone, PartialEq, Eq, Hash)]
pub enum StationGenreRelationshipType {
    /// Stations associated with the station genre
    ///
    /// Possible resources: [`Station`]
    Stations,
}

impl Named for StationGenreRelationshipType {
    open spec fn name(&self) -> Seq<char> {
        match self {
            StationGenreRelationshipType::Stations => "stations"@,
        }
    }

    fn to_string(&self) -> (name: String) {
        let name = match self {
            StationGenreRelationshipType::Stations => "stations",
        };
        owned(name)
    }
}

impl RelationshipTrait for StationGenreRelationshipType {
    open spec fn object(&self) -> Seq<char> {
        "station-genres"@
    }

    fn get_object(&self) -> (object: &'static str) {
        "station-genres"
    }
}

impl StationGenreRelationships {
    /// Whether `after` holds these relationships with `context` stored in each of them and
    /// below each of their items, and with nothing else changed.
    pub open spec fn attached(
        &self,
        context: Arc<RequestContext>,
        after: &StationGenreRelationships,
    ) -> bool
        decreases self,
    {
        &&& Station::attached_in(self.stations, context, after.stations)
    }

    /// Stores the context in each of these relationships and below each of their items.
    pub fn attach(&mut self, context: &Arc<RequestContext>)
        ensures
            old(self).attached(*context, final(self)),
            final(self).attached(*context, final(self)),
        decreases *old(self),
    {
        Station::attach_in(&mut self.stations, context);
    }

    /// A copy of these relationships.
    pub fn duplicate(&self) -> (copy: StationGenreRelationships)
        ensures
            self.copied(&copy),
        decreases self,
    {
        StationGenreRelationships {
            stations: Station::duplicate_in(&self.stations),
        }
    }

    /// Whether `copy` holds a copy of each of these relationships, with the context that it
    /// holds and a copy of each of its items.
    pub open spec fn copied(&self, copy: &StationGenreRelationships) -> bool
        decreases self,
    {
        &&& Station::copied_in(self.stations, copy.stations)
    }
}

impl ContextContainer for StationGenreRelationships {
    open spec fn propagated(&self, context: Arc<RequestContext>, after: &Self) -> bool {
        self.attached(context, after)
    }

    fn set_context(&mut self, context: Arc<RequestContext>) {
        self.attach(&context);
    }
}

impl Clone for StationGenreRelationships {
    fn clone(&self) -> (copy: Self)
        ensures
            self.copied(&copy),
    {
        self.duplicate()
    }
}

/// Station genre request builder
pub struct StationGenreRequestBuilder;

/// Station genre get request builder
pub type StationGenreGetRequestBuilder<'a> = MusicRequestBuilder<'a, StationGenreRequestBuilder>;

impl<'a> StationGenreGetRequestBuilder<'a> {
    /// Fetch one station genre by id
    pub fn one(self, client: &ApiClient, id: &str) -> (fetch: FetchOne<StationGenre>)
        ensures
            prepared(
                fetch.request,
                fetch.context,
                Method::Get,
                below(catalog_endpoint(self.storefront(client), "station-genres"@), id@),
                self.storefront(client),
                self.query(client),
            ),
    {
        let mut builder = self;
        let context = builder.get_request_context_drain(client);
        let endpoint = catalog_path(&context.storefront, "station-genres");
        let path = path_below(endpoint.as_str(), id);
        FetchOne::new(client.get(path.as_str()), context)
    }

    /// Fetch multiple station genres by id
    pub fn many(self, client: &ApiClient, ids: &[&str]) -> (fetch: FetchMany<StationGenre>)
        ensures
            prepared(
                fetch.request,
                fetch.context,
                Method::Get,
                catalog_endpoint(self.storefront(client), "station-genres"@),
                self.storefront(client),
                self.query(client).push(("ids"@, joined(slice_views(ids@), ","@))),
            ),
    {
        let mut builder = self;
        let mut context = builder.get_request_context_drain(client);
        push_parameter(&mut context, "ids", join(ids, ","));
        let endpoint = catalog_path(&context.storefront, "station-genres");
        FetchMany::new(client.get(endpoint.as_str()), context)
    }

    /// Fetch all station genres
    ///
    /// # Params
    ///
    /// * limit - limit of entries per query
    ///
    /// * offset - query offset
    pub fn all(
        self,
        client: &ApiClient,
        limit: usize,
        offset: usize,
    ) -> (pages: Paginator<StationGenre>)
        ensures
            pages.endpoint() == catalog_endpoint(self.storefront(client), "station-genres"@),
            pages.context().storefront == self.storefront(client),
            query_view(pages.context().query@) == self.query(client).push(
                ("limit"@, decimal(limit as nat)),
            ),
            pages@ == (Progress { offset: offset as nat, finished: false }),
    {
        let mut builder = self;
        let mut context = builder.get_request_context_drain(client);
        push_parameter(&mut context, "limit", to_decimal(limit));
        let endpoint = catalog_path(&context.storefront, "station-genres");
        paginate(endpoint, context, offset)
    }
}

} // verus!
