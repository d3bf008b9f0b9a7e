//! Record label

use crate::request::builder::MusicRequestBuilder;
use crate::request::context::{ContextContainer, RequestContext, share};
use crate::request::view::ViewTrait;
use crate::request::{
    FetchMany, FetchOne, below, catalog_endpoint, catalog_path, path_below, prepared,
    push_parameter,
};
use crate::resource::ResourceHeader;
use crate::resource::artwork::Artwork;
use crate::resource::attributes::{DescriptionAttribute, TitleOnlyAttribute};
use crate::resource::catalog::album::Album;
use crate::resource::relationship::Relationship;
use crate::resource::view::View;
use crate::text::{Named, join, joined, owned, slice_views};
use crate::{ApiClient, Method};
use std::sync::Arc;
use vstd::prelude::*;
use vstd::view::View as _;

verus! {

/// Record label
#[derive(Default, Debug, PartialEq, Eq, Hash)]
pub struct RecordLabel {
    /// Resource header
    pub header: ResourceHeader,
    /// Record label attributes
    pub attributes: Option<RecordLabelAttributes>,
    /// The relationship views for the record label
    pub views: RecordLabelViews,
}

impl RecordLabel {
    /// Get record label request builder
    pub fn get<'a>() -> (builder: RecordLabelGetRequestBuilder<'a>)
        ensures
            builder.is_fresh(),
    {
        RecordLabelGetRequestBuilder::default()
    }

    /// Whether `after` is this record label with `context` stored in every relationship and view
    /// below it, and with nothing else changed.
    pub open spec fn attached(&self, context: Arc<RequestContext>, after: &RecordLabel) -> bool
        decreases self,
    {
        &&& after.header == self.header
        &&& after.attributes == self.attributes
        &&& self.views.attached(context, &after.views)
    }

    /// Stores the context in every relationship and view below this record label.
    pub fn attach(&mut self, context: &Arc<RequestContext>)
        ensures
            old(self).attached(*context, final(self)),
            final(self).attached(*context, final(self)),
        decreases *old(self),
    {
        self.views.attach(context);
    }

    /// Whether `after` holds the items of `before`, one for one, with `context` stored in
    /// every relationship and view below each.
    pub open spec fn attached_each(
        before: Seq<RecordLabel>,
        context: Arc<RequestContext>,
        after: Seq<RecordLabel>,
    ) -> bool
        decreases before,
    {
        &&& after.len() == before.len()
        &&& forall|i: int|
            0 <= i < before.len() ==> (#[trigger] before[i]).attached(context, &after[i])
    }

    /// Stores the context below each of the items.
    pub fn attach_each(items: &mut Vec<RecordLabel>, context: &Arc<RequestContext>)
        ensures
            RecordLabel::attached_each(old(items)@, *context, final(items)@),
            RecordLabel::attached_each(final(items)@, *context, final(items)@),
        decreases *old(items),
    {
        let n = items.len();
        let mut i: usize = 0;
        while i < n
            invariant
                i <= n,
                items@.len() == n,
                old(items)@.len() == n,
                forall|j: int|
                    0 <= j < i ==> (#[trigger] old(items)@[j]).attached(*context, &items@[j]),
                forall|j: int| 0 <= j < i ==> (#[trigger] items@[j]).attached(*context, &items@[j]),
                forall|j: int| i <= j < n ==> items@[j] == old(items)@[j],
            decreases n - i,
        {
            items[i].attach(context);
            i += 1;
        }
    }

    /// Whether `after` is the relationship `before`, if there is one, with `context` stored
    /// in it and below each of its items.
    pub open spec fn attached_in(
        before: Option<Relationship<RecordLabel>>,
        context: Arc<RequestContext>,
        after: Option<Relationship<RecordLabel>>,
    ) -> bool
        decreases before,
    {
        match (before, after) {
            (Some(before), Some(after)) => {
                &&& after.context() == Some(context)
                &&& after.href == before.href
                &&& after.next == before.next
                &&& RecordLabel::attached_each(before.data@, context, after.data@)
            },
            (None, None) => true,
            _ => false,
        }
    }

    /// Stores the context in a relationship, if there is one, and below each of its items.
    pub fn attach_in(
        relationship: &mut Option<Relationship<RecordLabel>>,
        context: &Arc<RequestContext>,
    )
        ensures
            RecordLabel::attached_in(*old(relationship), *context, *final(relationship)),
            RecordLabel::attached_in(*final(relationship), *context, *final(relationship)),
        decreases *old(relationship),
    {
        match relationship {
            Some(relationship) => {
                relationship.install(share(context));
                RecordLabel::attach_each(&mut relationship.data, context);
            },
            None => {},
        }
    }

    /// A copy of this record label.
    pub fn duplicate(&self) -> (copy: RecordLabel)
        ensures
            self.copied(&copy),
        decreases self,
    {
        RecordLabel {
            header: self.header.clone(),
            attributes: self.attributes.clone(),
            views: self.views.duplicate(),
        }
    }

    /// Copies of the items, in their order.
    pub fn duplicate_each(items: &Vec<RecordLabel>) -> (copies: Vec<RecordLabel>)
        ensures
            RecordLabel::copied_each(items@, copies@),
        decreases items,
    {
        let mut copies: Vec<RecordLabel> = Vec::new();
        let mut i: usize = 0;
        while i < items.len()
            invariant
                i <= items@.len(),
                copies@.len() == i,
                forall|j: int| 0 <= j < i ==> (#[trigger] items@[j]).copied(&copies@[j]),
            decreases items@.len() - i,
        {
            copies.push(items[i].duplicate());
            i += 1;
        }
        copies
    }

    /// A copy of a relationship, if there is one.
    pub fn duplicate_in(relationship: &Option<Relationship<RecordLabel>>) -> (copy: Option<
        Relationship<RecordLabel>,
    >)
        ensures
            RecordLabel::copied_in(*relationship, copy),
        decreases relationship,
    {
        match relationship {
            Some(relationship) => Some(
                Relationship {
                    href: relationship.href.clone(),
                    next: relationship.next.clone(),
                    data: RecordLabel::duplicate_each(&relationship.data),
                    context: relationship.context.clone(),
                },
            ),
            None => None,
        }
    }

    /// Whether `copy` holds what this record label holds: the same header, a clone of the
    /// attributes, and a copy of every relationship and view below it, each with the
    /// context that it holds.
    pub open spec fn copied(&self, copy: &RecordLabel) -> bool
        decreases self,
    {
        &&& copy.header == self.header
        &&& cloned(self.attributes, copy.attributes)
        &&& self.views.copied(&copy.views)
    }

    /// Whether `copies` holds a copy of each of the items, in their order.
    pub open spec fn copied_each(items: Seq<RecordLabel>, copies: Seq<RecordLabel>) -> bool
        decreases items,
    {
        &&& copies.len() == items.len()
        &&& forall|i: int| 0 <= i < items.len() ==> (#[trigger] items[i]).copied(&copies[i])
    }

    /// Whether `copy` is a copy of a relationship, if there is one: with the same
    /// locations, the same context and a copy of each of its items.
    pub open spec fn copied_in(
        relationship: Option<Relationship<RecordLabel>>,
        copy: Option<Relationship<RecordLabel>>,
    ) -> bool
        decreases relationship,
    {
        match (relationship, copy) {
            (Some(relationship), Some(copy)) => {
                &&& copy.href == relationship.href
                &&& copy.next == relationship.next
                &&& copy.context() == relationship.context()
                &&& RecordLabel::copied_each(relationship.data@, copy.data@)
            },
            (None, None) => true,
            _ => false,
        }
    }
}

impl ContextContainer for RecordLabel {
    open spec fn propagated(&self, context: Arc<RequestContext>, after: &Self) -> bool {
        self.attached(context, after)
    }

    fn set_context(&mut self, context: Arc<RequestContext>) {
        self.attach(&context);
    }
}

impl Clone for RecordLabel {
    fn clone(&self) -> (copy: Self)
        ensures
            self.copied(&copy),
    {
        self.duplicate()
    }
}

/// Record label attributes
#[derive(Default, Debug, Clone, PartialEq, Eq, Hash)]
pub struct RecordLabelAttributes {
    /// Artwork associated with this content
    pub artwork: Artwork,
    /// A map of description information
    pub description: Option<DescriptionAttribute>,
    /// The (potentially) censored name of the content
    pub name: String,
    /// The URL to load the record label from
    pub url: String,
}

/// Record label views
#[derive(Default, Debug, PartialEq, Eq, Hash)]
pub struct RecordLabelViews {
    /// The latest releases for the record label
    ///
    /// Possible resources: [`Album`]
    pub latest_releases: Option<View<TitleOnlyAttribute, Album>>,
    /// The top releases for the record label
    ///
    /// Possible resources: [`Album`]
    pub top_releases: Option<View<TitleOnlyAttribute, Album>>,
}

/// The views that can be asked for with record labels
#[derive(Debug, Copy, Clone, PartialEq, Eq, Hash)]
pub enum RecordLabelViewType {
    /// The latest releases for the record label
    ///
    /// Possible resources: [`Album`]
    LatestReleases,
    /// The top releases for the record label
    ///
    /// Possible resources: [`Album`]
    TopReleases,
}

impl Named for RecordLabelViewType {
    open spec fn name(&self) -> Seq<char> {
        match self {
            RecordLabelViewType::LatestReleases => "latest-releases"@,
            RecordLabelViewType::TopReleases => "top-releases"@,
        }
    }

    fn to_string(&self) -> (name: String) {
        let name = match self {
            RecordLabelViewType::LatestReleases => "latest-releases",
            RecordLabelViewType::TopReleases => "top-releases",
        };
        owned(name)
    }
}

impl ViewTrait for RecordLabelViewType {
    open spec fn object(&self) -> Seq<char> {
        "record-labels"@
    }

    fn get_object(&self) -> (object: &'static str) {
        "record-labels"
    }
}

impl RecordLabelViews {
    /// Whether `after` holds these views with `context` stored in each of them and
    /// below each of their items, and with nothing else changed.
    pub open spec fn attached(&self, context: Arc<RequestContext>, after: &RecordLabelViews) -> bool
        decreases self,
    {
        &&& Album::attached_in_view(self.latest_releases, context, after.latest_releases)
        &&& Album::attached_in_view(self.top_releases, context, after.top_releases)
    }

    /// Stores the context in each of these views and below each of their items.
    pub fn attach(&mut self, context: &Arc<RequestContext>)
        ensures
            old(self).attached(*context, final(self)),
            final(self).attached(*context, final(self)),
        decreases *old(self),
    {
        Album::attach_in_view(&mut self.latest_releases, context);
        Album::attach_in_view(&mut self.top_releases, context);
    }

    /// A copy of these views.
    pub fn duplicate(&self) -> (copy: RecordLabelViews)
        ensures
            self.copied(&copy),
        decreases self,
    {
        RecordLabelViews {
            latest_releases: Album::duplicate_in_view(&self.latest_releases),
            top_releases: Album::duplicate_in_view(&self.top_releases),
        }
    }

    /// Whether `copy` holds a copy of each of these views, with the context that it
    /// holds and a copy of each of its items.
    pub open spec fn copied(&self, copy: &RecordLabelViews) -> bool
        decreases self,
    {
        &&& Album::copied_in_view(self.latest_releases, copy.latest_releases)
        &&& Album::copied_in_view(self.top_releases, copy.top_releases)
    }
}

impl ContextContainer for RecordLabelViews {
    open spec fn propagated(&self, context: Arc<RequestContext>, after: &Self) -> bool {
        self.attached(context, after)
    }

    fn set_context(&mut self, context: Arc<RequestContext>) {
        self.attach(&context);
    }
}

impl Clone for RecordLabelViews {
    fn clone(&self) -> (copy: Self)
        ensures
            self.copied(&copy),
    {
        self.duplicate()
    }
}

/// Record label request builder
pub struct RecordLabelRequestBuilder;

/// Record label get request builder
pub type RecordLabelGetRequestBuilder<'a> = MusicRequestBuilder<'a, RecordLabelRequestBuilder>;

impl<'a> RecordLabelGetRequestBuilder<'a> {
    /// Fetch one record label by id
    pub fn one(self, client: &ApiClient, id: &str) -> (fetch: FetchOne<RecordLabel>)
        ensures
            prepared(
                fetch.request,
                fetch.context,
                Method::Get,
                below(catalog_endpoint(self.storefront(client), "record-labels"@), id@),
                self.storefront(client),
                self.query(client),
            ),
    {
        let mut builder = self;
        let context = builder.get_request_context_drain(client);
        let endpoint = catalog_path(&context.storefront, "record-labels");
        let path = path_below(endpoint.as_str(), id);
        FetchOne::new(client.get(path.as_str()), context)
    }

    /// Fetch many record labels by id
    pub fn many(self, client: &ApiClient, ids: &[&str]) -> (fetch: FetchMany<RecordLabel>)
        ensures
            prepared(
                fetch.request,
                fetch.context,
                Method::Get,
                catalog_endpoint(self.storefront(client), "record-labels"@),
                self.storefront(client),
                self.query(client).push(("ids"@, joined(slice_views(ids@), ","@))),
            ),
    {
        let mut builder = self;
        let mut context = builder.get_request_context_drain(client);
        push_parameter(&mut context, "ids", join(ids, ","));
        let endpoint = catalog_path(&context.storefront, "record-labels");
        FetchMany::new(client.get(endpoint.as_str()), context)
    }
}

} // verus!
