//! Genre

use crate::request::builder::MusicRequestBuilder;
use crate::request::context::{ContextContainer, RequestContext, share};
use crate::request::extension::ExtensionTrait;
use crate::request::fields::query_view;
use crate::request::paginated::{Paginator, Progress, paginate};
use crate::request::{
    FetchMany, FetchOne, below, catalog_endpoint, catalog_path, path_below, prepared,
    push_parameter,
};
use crate::resource::ResourceHeader;
use crate::resource::relationship::Relationship;
use crate::text::{Named, decimal, join, joined, owned, slice_views, to_decimal};
use crate::{ApiClient, Method};
use std::sync::Arc;
use vstd::prelude::*;

verus! {

/// Genre
#[derive(Default, Debug, PartialEq, Eq, Hash)]
pub struct Genre {
    /// Resource header
    pub header: ResourceHeader,
    /// Genre attributes
    pub attributes: Option<GenreAttributes>,
}

impl Genre {
    /// Get genre request builder
    pub fn get<'a>() -> (builder: GenreGetRequestBuilder<'a>)
        ensures
            builder.is_fresh(),
    {
        GenreGetRequestBuilder::default()
    }

    /// Whether `after` is this genre with `context` stored in every relationship and view
    /// below it, and with nothing else changed.
    pub open spec fn attached(&self, context: Arc<RequestContext>, after: &Genre) -> bool
        decreases self,
    {
        *after == *self
    }

    /// Stores the context in every relationship and view below this genre.
    pub fn attach(&mut self, context: &Arc<RequestContext>)
        ensures
            old(self).attached(*context, final(self)),
            final(self).attached(*context, final(self)),
        decreases *old(self),
    {
    }

    /// Whether `after` holds the items of `before`, one for one, with `context` stored in
    /// every relationship and view below each.
    pub open spec fn attached_each(
        before: Seq<Genre>,
        context: Arc<RequestContext>,
        after: Seq<Genre>,
    ) -> bool
        decreases before,
    {
        &&& after.len() == before.len()
        &&& forall|i: int|
            0 <= i < before.len() ==> (#[trigger] before[i]).attached(context, &after[i])
    }

    /// Stores the context below each of the items.
    pub fn attach_each(items: &mut Vec<Genre>, context: &Arc<RequestContext>)
        ensures
            Genre::attached_each(old(items)@, *context, final(items)@),
            Genre::attached_each(final(items)@, *context, final(items)@),
        decreases *old(items),
    {
        let n = items.len();
        let mut i: usize = 0;
        while i < n
            invariant
                i <= n,
                items@.len() == n,
                old(items)@.len() == n,
                forall|j: int|
                    0 <= j < i ==> (#[trigger] old(items)@[j]).attached(*context, &items@[j]),
                forall|j: int| 0 <= j < i ==> (#[trigger] items@[j]).attached(*context, &items@[j]),
                forall|j: int| i <= j < n ==> items@[j] == old(items)@[j],
            decreases n - i,
        {
            items[i].attach(context);
            i += 1;
        }
    }

    /// Whether `after` is the relationship `before`, if there is one, with `context` stored
    /// in it and below each of its items.
    pub open spec fn attached_in(
        before: Option<Relationship<Genre>>,
        context: Arc<RequestContext>,
        after: Option<Relationship<Genre>>,
    ) -> bool
        decreases before,
    {
        match (before, after) {
            (Some(before), Some(after)) => {
                &&& after.context() == Some(context)
                &&& after.href == before.href
                &&& after.next == before.next
                &&& Genre::attached_each(before.data@, context, after.data@)
            },
            (None, None) => true,
            _ => false,
        }
    }

    /// Stores the context in a relationship, if there is one, and below each of its items.
    pub fn attach_in(relationship: &mut Option<Relationship<Genre>>, context: &Arc<RequestContext>)
        ensures
            Genre::attached_in(*old(relationship), *context, *final(relationship)),
            Genre::attached_in(*final(relationship), *context, *final(relationship)),
        decreases *old(relationship),
    {
        match relationship {
            Some(relationship) => {
                relationship.install(share(context));
                Genre::attach_each(&mut relationship.data, context);
            },
            None => {},
        }
    }

    /// A copy of this genre.
    pub fn duplicate(&self) -> (copy: Genre)
        ensures
            self.copied(&copy),
        decreases self,
    {
        Genre {
            header: self.header.clone(),
            attributes: self.attributes.clone(),
        }
    }

    /// Copies of the items, in their order.
    pub fn duplicate_each(items: &Vec<Genre>) -> (copies: Vec<Genre>)
        ensures
            Genre::copied_each(items@, copies@),
        decreases items,
    {
        let mut copies: Vec<Genre> = Vec::new();
        let mut i: usize = 0;
        while i < items.len()
            invariant
                i <= items@.len(),
                copies@.len() == i,
                forall|j: int| 0 <= j < i ==> (#[trigger] items@[j]).copied(&copies@[j]),
            decreases items@.len() - i,
        {
            copies.push(items[i].duplicate());
            i += 1;
        }
        copies
    }

    /// A copy of a relationship, if there is one.
    pub fn duplicate_in(relationship: &Option<Relationship<Genre>>) -> (copy: Option<
        Relationship<Genre>,
    >)
        ensures
            Genre::copied_in(*relationship, copy),
        decreases relationship,
    {
        match relationship {
            Some(relationship) => Some(
                Relationship {
                    href: relationship.href.clone(),
                    next: relationship.next.clone(),
                    data: Genre::duplicate_each(&relationship.data),
                    context: relationship.context.clone(),
                },
            ),
            None => None,
        }
    }

    /// Whether `copy` holds what this genre holds: the same header and a clone of the
    /// attributes.
    pub open spec fn copied(&self, copy: &Genre) -> bool
        decreases self,
    {
        &&& copy.header == self.header
        &&& cloned(self.attributes, copy.attributes)
    }

    /// Whether `copies` holds a copy of each of the items, in their order.
    pub open spec fn copied_each(items: Seq<Genre>, copies: Seq<Genre>) -> bool
        decreases items,
    {
        &&& copies.len() == items.len()
        &&& forall|i: int| 0 <= i < items.len() ==> (#[trigger] items[i]).copied(&copies[i])
    }

    /// Whether `copy` is a copy of a relationship, if there is one: with the same
    /// locations, the same context and a copy of each of its items.
    pub open spec fn copied_in(
        relationship: Option<Relationship<Genre>>,
        copy: Option<Relationship<Genre>>,
    ) -> bool
        decreases relationship,
    {
        match (relationship, copy) {
            (Some(relationship), Some(copy)) => {
                &&& copy.href == relationship.href
                &&& copy.next == relationship.next
                &&& copy.context() == relationship.context()
                &&& Genre::copied_each(relationship.data@, copy.data@)
            },
            (None, None) => true,
            _ => false,
        }
    }
}

impl ContextContainer for Genre {
    open spec fn propagated(&self, context: Arc<RequestContext>, after: &Self) -> bool {
        self.attached(context, after)
    }

    fn set_context(&mut self, context: Arc<RequestContext>) {
        self.attach(&context);
    }
}

impl Clone for Genre {
    fn clone(&self) -> (copy: Self)
        ensures
            self.copied(&copy),
    {
        self.duplicate()
    }
}

/// Genre attributes
#[derive(Default, Debug, Clone, PartialEq, Eq, Hash)]
pub struct GenreAttributes {
    /// The localized name of the genre
    pub name: String,
    /// The identifier of the parent for the genre
    pub parent_id: Option<String>,
    /// The localized name of the parent genre
    pub parent_name: Option<String>,
    /// **(Extended)** A localized string to use when displaying the genre in relation to charts
    pub chart_label: Option<String>,
}

/// The extensions that can be asked for with genres
#[derive(Debug, Copy, Clone, PartialEq, Eq, Hash)]
pub enum GenreAttributesExtension {
    /// **(Extended)** A localized string to use when displaying the genre in relation to charts
    ChartLabel,
}

impl Named for GenreAttributesExtension {
    open spec fn name(&self) -> Seq<char> {
        match self {
            GenreAttributesExtension::ChartLabel => "chartLabel"@,
        }
    }

    fn to_string(&self) -> (name: String) {
        let name = match self {
            GenreAttributesExtension::ChartLabel => "chartLabel",
        };
        owned(name)
    }
}

impl ExtensionTrait for GenreAttributesExtension {
    open spec fn object(&self) -> Seq<char> {
        "genres"@
    }

    fn get_object(&self) -> (object: &'static str) {
        "genres"
    }
}

/// Genre request builder
pub struct GenreRequestBuilder;

/// Genre get request builder
pub type GenreGetRequestBuilder<'a> = MusicRequestBuilder<'a, GenreRequestBuilder>;

impl<'a> GenreGetRequestBuilder<'a> {
    /// Fetch one genre by id
    pub fn one(self, client: &ApiClient, id: &str) -> (fetch: FetchOne<Genre>)
        ensures
            prepared(
                fetch.request,
                fetch.context,
                Method::Get,
                below(catalog_endpoint(self.storefront(client), "genres"@), id@),
                self.storefront(client),
                self.query(client),
            ),
    {
        let mut builder = self;
        let context = builder.get_request_context_drain(client);
        let endpoint = catalog_path(&context.storefront, "genres");
        let path = path_below(endpoint.as_str(), id);
        FetchOne::new(client.get(path.as_str()), context)
    }

    /// Fetch multiple genres by id
    pub fn many(self, client: &ApiClient, ids: &[&str]) -> (fetch: FetchMany<Genre>)
        ensures
            prepared(
                fetch.request,
                fetch.context,
                Method::Get,
                catalog_endpoint(self.storefront(client), "genres"@),
                self.storefront(client),
                self.query(client).push(("ids"@, joined(slice_views(ids@), ","@))),
            ),
    {
        let mut builder = self;
        let mut context = builder.get_request_context_drain(client);
        push_parameter(&mut context, "ids", join(ids, ","));
        let endpoint = catalog_path(&context.storefront, "genres");
        FetchMany::new(client.get(endpoint.as_str()), context)
    }

    /// Fetch all genres for the current top charts
    /// # Params
    ///
    /// * limit - limit of entries per query
    ///
    /// * offset - query offset
    pub fn top_charts(
        self,
        client: &ApiClient,
        limit: usize,
        offset: usize,
    ) -> (pages: Paginator<Genre>)
        ensures
            pages.endpoint() == catalog_endpoint(self.storefront(client), "genres"@),
            pages.context().storefront == self.storefront(client),
            query_view(pages.context().query@) == self.query(client).push(
                ("limit"@, decimal(limit as nat)),
            ),
            pages@ == (Progress { offset: offset as nat, finished: false }),
    {
        let mut builder = self;
        let mut context = builder.get_request_context_drain(client);
        push_parameter(&mut context, "limit", to_decimal(limit));
        let endpoint = catalog_path(&context.storefront, "genres");
        paginate(endpoint, context, offset)
    }
}

} // verus!
