//! Apple music relationship

use crate::request::context::{carries, share, ContextContainer, ContextSlot, RequestContext};
use crate::request::fields::query_view;
use crate::{ApiClient, Method, Request};
use std::sync::Arc;
use vstd::prelude::*;

verus! {

/// Apple music relationship
#[derive(Debug, Clone, PartialEq, Eq, Hash)]
pub struct Relationship<T> {
    /// A relative location for the relationship
    pub href: Option<String>,
    /// A relative cursor to fetch the next paginated collection of resources in the relationship if more exist
    pub next: Option<String>,
    /// Associated data
    pub data: Vec<T>,
    /// Context
    pub context: ContextSlot,
}

/// What a lazy walk hands out at one step: the items of one page, in the order of the
/// server, and the request for the page behind it, which is missing at the end.
pub struct Page<T> {
    /// The items of the page
    pub items: Vec<T>,
    /// The request for the next page
    pub next: Option<Request>,
}

/// Whether a request is the one that follows a cursor: a GET to the cursor as it stands,
/// with the query parameters of the context behind the one that every request carries.
pub open spec fn follows_cursor(
    request: Request,
    cursor: Seq<char>,
    context: RequestContext,
) -> bool {
    &&& request.method == Method::Get
    &&& request.url@ == "https://api.music.apple.com"@ + cursor
    &&& query_view(request.query@) == seq![("art[url]"@, "f"@)] + query_view(context.query@)
}

/// Whether a request is the one that a cursor asks for: none without a cursor.
pub open spec fn continues(
    next: Option<Request>,
    cursor: Option<String>,
    context: RequestContext,
) -> bool {
    match (next, cursor) {
        (Some(request), Some(cursor)) => follows_cursor(request, cursor@, context),
        (None, None) => true,
        _ => false,
    }
}

/// The request that follows a cursor, if there is a cursor.
pub(crate) fn cursor_request(
    cursor: &Option<String>,
    context: &Arc<RequestContext>,
    client: &ApiClient,
) -> (next: Option<Request>)
    ensures
        continues(next, *cursor, **context),
{
    match cursor {
        Some(cursor) => Some(client.get(cursor.as_str()).query(&context.query)),
        None => None,
    }
}

impl<T> Relationship<T> {
    /// The context that propagation has stored in the relationship.
    pub open spec fn context(&self) -> Option<Arc<RequestContext>> {
        self.context@
    }

    /// A relationship as it is decoded: without a context.
    pub fn new(href: Option<String>, next: Option<String>, data: Vec<T>) -> (relationship: Self)
        ensures
            relationship.href == href,
            relationship.next == next,
            relationship.data == data,
            relationship.context() is None,
    {
        Relationship { href, next, data, context: ContextSlot::empty() }
    }

    /// Whether a context has been propagated into the relationship.
    pub fn has_context(&self) -> (has: bool)
        ensures
            has == self.context() is Some,
    {
        self.context.is_some()
    }

    /// Stores a context in the relationship itself.
    pub(crate) fn install(&mut self, context: Arc<RequestContext>)
        ensures
            final(self).context() == Some(context),
            final(self).href == old(self).href,
            final(self).next == old(self).next,
            final(self).data == old(self).data,
    {
        self.context = ContextSlot::holding(context);
    }
}

/// The steps of walking a relationship lazily: what was fetched already is handed out
/// first, then the cursor is followed page by page.
pub struct RelationshipIter<T> {
    context: Arc<RequestContext>,
    next: Option<String>,
    data: Vec<T>,
}

impl<T> RelationshipIter<T> {
    /// The context that every item is handed out with.
    pub closed spec fn context(&self) -> Arc<RequestContext> {
        self.context
    }

    /// The cursor behind the page that is handed out next.
    pub closed spec fn next(&self) -> Option<String> {
        self.next
    }

    /// The items that are handed out next.
    pub closed spec fn data(&self) -> Seq<T> {
        self.data@
    }
}

impl<T: ContextContainer> RelationshipIter<T> {
    /// Hands out the page that was fetched last, the context propagated into each
    /// of its items, with the request for the page behind it.
    ///
    /// Without a cursor no request is made, and the walk is at its end.
    pub fn advance(&mut self, client: &ApiClient) -> (page: Page<T>)
        ensures
            old(self).data().len() == page.items@.len(),
            forall|i: int|
                0 <= i < page.items@.len() ==> (#[trigger] old(self).data()[i]).propagated(
                    old(self).context(),
                    &page.items@[i],
                ),
            forall|i: int|
                0 <= i < page.items@.len() ==> (#[trigger] page.items@[i]).propagated(
                    old(self).context(),
                    &page.items@[i],
                ),
            continues(page.next, old(self).next(), *old(self).context()),
            final(self).context() == old(self).context(),
            final(self).data() == Seq::<T>::empty(),
            final(self).next() is None,
    {
        let mut items: Vec<T> = Vec::new();
        core::mem::swap(&mut self.data, &mut items);
        items.set_context(share(&self.context));
        let next = cursor_request(&self.next, &self.context, client);
        self.next = None;
        Page { items, next }
    }

    /// Takes in what the request of the last page has fetched.
    pub fn receive(&mut self, fetched: Relationship<T>)
        ensures
            final(self).context() == old(self).context(),
            final(self).data() == fetched.data@,
            final(self).next() == fetched.next,
    {
        self.next = fetched.next;
        self.data = fetched.data;
    }
}

impl<T: Clone + ContextContainer> Relationship<T> {
    /// Iterate this relationship
    ///
    /// The walk starts with a copy of what the relationship holds and goes on with the
    /// context that was propagated into it.
    pub fn iter(&self, client: &ApiClient) -> (walk: RelationshipIter<T>)
        requires
            self.context() is Some,
        ensures
            Some(walk.context()) == self.context(),
            walk.next() == self.next,
            walk.data().len() == self.data@.len(),
            forall|i: int|
                #![all_triggers]
                0 <= i < self.data@.len() ==> cloned::<T>(self.data@[i], walk.data()[i]),
    {
        let context = match self.context.get() {
            Some(context) => context,
            None => vstd::pervasive::unreached(),
        };
        let next = match &self.next {
            Some(next) => Some(next.clone()),
            None => None,
        };
        RelationshipIter { context, next, data: self.data.clone() }
    }
}

impl<T: ContextContainer> Relationship<T> {
    /// Walks this relationship, which is used up by it
    ///
    /// The walk starts with what the relationship holds and goes on with the context that
    /// was propagated into it.
    pub fn into_walk(self, client: &ApiClient) -> (walk: RelationshipIter<T>)
        requires
            self.context() is Some,
        ensures
            Some(walk.context()) == self.context(),
            walk.next() == self.next,
            walk.data() == self.data@,
    {
        let context = match self.context.get() {
            Some(context) => context,
            None => vstd::pervasive::unreached(),
        };
        RelationshipIter { context, next: self.next, data: self.data }
    }
}

impl<T: ContextContainer> ContextContainer for Relationship<T> {
    open spec fn propagated(&self, context: Arc<RequestContext>, after: &Self) -> bool {
        &&& after.context() == Some(context)
        &&& after.href == self.href
        &&& after.next == self.next
        &&& self.data.propagated(context, &after.data)
    }

    fn set_context(&mut self, context: Arc<RequestContext>) {
        self.context = ContextSlot::holding(share(&context));
        self.data.set_context(context);
    }
}

/// A relationship carries a context when the context is stored in the relationship and
/// each of its items carries it: propagation reaches every depth.
pub proof fn lemma_relationship_carries<T: ContextContainer>(
    relationship: Relationship<T>,
    context: Arc<RequestContext>,
)
    ensures
        carries(&relationship, context) <==> {
            &&& relationship.context() == Some(context)
            &&& forall|i: int|
                0 <= i < relationship.data@.len() ==> carries(
                    &#[trigger] relationship.data@[i],
                    context,
                )
        },
{
}

impl<T> Default for Relationship<T> {
    fn default() -> (relationship: Self)
        ensures
            relationship.href is None,
            relationship.next is None,
            relationship.data@ == Seq::<T>::empty(),
            relationship.context() is None,
    {
        Relationship { href: None, next: None, data: Vec::new(), context: ContextSlot::empty() }
    }
}

} // verus!
