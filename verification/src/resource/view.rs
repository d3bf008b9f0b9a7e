//! Apple music view

use crate::request::context::{carries, share, ContextContainer, ContextSlot, RequestContext};
use crate::resource::relationship::{continues, cursor_request, Page};
use crate::ApiClient;
use std::sync::Arc;
use vstd::prelude::*;
use vstd::view::View as _;

verus! {

/// Apple music view
#[derive(Debug, Clone, PartialEq, Eq, Hash)]
pub struct View<Attributes, T> {
    /// The relative location to fetch the view directly
    pub href: Option<String>,
    /// The relative location to request the next page of resources in the collection, if additional resources are available for fetching
    pub next: Option<String>,
    /// Attributes
    pub attributes: Attributes,
    /// Data
    pub data: Vec<T>,
    /// Context
    pub context: ContextSlot,
}

impl<Attributes, T> View<Attributes, T> {
    /// The context that propagation has stored in the view.
    pub open spec fn context(&self) -> Option<Arc<RequestContext>> {
        self.context@
    }

    /// A view as it is decoded: without a context.
    pub fn new(
        href: Option<String>,
        next: Option<String>,
        attributes: Attributes,
        data: Vec<T>,
    ) -> (view:
        Self)
        ensures
            view.href == href,
            view.next == next,
            view.attributes == attributes,
            view.data == data,
            view.context() is None,
    {
        View { href, next, attributes, data, context: ContextSlot::empty() }
    }

    /// Whether a context has been propagated into the view.
    pub fn has_context(&self) -> (has: bool)
        ensures
            has == self.context() is Some,
    {
        self.context.is_some()
    }

    /// Stores a context in the view itself.
    pub(crate) fn install(&mut self, context: Arc<RequestContext>)
        ensures
            final(self).context() == Some(context),
            final(self).href == old(self).href,
            final(self).next == old(self).next,
            final(self).attributes == old(self).attributes,
            final(self).data == old(self).data,
    {
        self.context = ContextSlot::holding(context);
    }
}

/// The steps of walking a view lazily: what was fetched already is handed out first,
/// then the cursor is followed page by page.
pub struct ViewIter<T> {
    context: Arc<RequestContext>,
    next: Option<String>,
    data: Vec<T>,
}

impl<T> ViewIter<T> {
    /// The context that every item is handed out with.
    pub closed spec fn context(&self) -> Arc<RequestContext> {
        self.context
    }

    /// The cursor behind the page that is handed out next.
    pub closed spec fn next(&self) -> Option<String> {
        self.next
    }

    /// The items that are handed out next.
    pub closed spec fn data(&self) -> Seq<T> {
        self.data@
    }
}

impl<T: ContextContainer> ViewIter<T> {
    /// Hands out the page that was fetched last, the context propagated into each
    /// of its items, with the request for the page behind it.
    ///
    /// Without a cursor no request is made, and the walk is at its end.
    pub fn advance(&mut self, client: &ApiClient) -> (page: Page<T>)
        ensures
            old(self).data().len() == page.items@.len(),
            forall|i: int|
                0 <= i < page.items@.len() ==> (#[trigger] old(self).data()[i]).propagated(
                    old(self).context(),
                    &page.items@[i],
                ),
            forall|i: int|
                0 <= i < page.items@.len() ==> (#[trigger] page.items@[i]).propagated(
                    old(self).context(),
                    &page.items@[i],
                ),
            continues(page.next, old(self).next(), *old(self).context()),
            final(self).context() == old(self).context(),
            final(self).data() == Seq::<T>::empty(),
            final(self).next() is None,
    {
        let mut items: Vec<T> = Vec::new();
        core::mem::swap(&mut self.data, &mut items);
        items.set_context(share(&self.context));
        let next = cursor_request(&self.next, &self.context, client);
        self.next = None;
        Page { items, next }
    }

    /// Takes in what the request of the last page has fetched.
    pub fn receive<Attributes>(&mut self, fetched: View<Attributes, T>)
        ensures
            final(self).context() == old(self).context(),
            final(self).data() == fetched.data@,
            final(self).next() == fetched.next,
    {
        self.next = fetched.next;
        self.data = fetched.data;
    }
}

impl<Attributes, T: Clone + ContextContainer> View<Attributes, T> {
    /// Iterate this view
    ///
    /// The walk starts with a copy of what the view holds and goes on with the context
    /// that was propagated into it.
    pub fn iter(&self, client: &ApiClient) -> (walk: ViewIter<T>)
        requires
            self.context() is Some,
        ensures
            Some(walk.context()) == self.context(),
            walk.next() == self.next,
            walk.data().len() == self.data@.len(),
            forall|i: int|
                #![all_triggers]
                0 <= i < self.data@.len() ==> cloned::<T>(self.data@[i], walk.data()[i]),
    {
        let context = match self.context.get() {
            Some(context) => context,
            None => vstd::pervasive::unreached(),
        };
        let next = match &self.next {
            Some(next) => Some(next.clone()),
            None => None,
        };
        ViewIter { context, next, data: self.data.clone() }
    }
}

impl<Attributes, T: ContextContainer> View<Attributes, T> {
    /// Walks this view, which is used up by it
    ///
    /// The walk starts with what the view holds and goes on with the context that
    /// was propagated into it.
    pub fn into_walk(self, client: &ApiClient) -> (walk: ViewIter<T>)
        requires
            self.context() is Some,
        ensures
            Some(walk.context()) == self.context(),
            walk.next() == self.next,
            walk.data() == self.data@,
    {
        let context = match self.context.get() {
            Some(context) => context,
            None => vstd::pervasive::unreached(),
        };
        ViewIter { context, next: self.next, data: self.data }
    }
}

impl<Attributes, T: ContextContainer> ContextContainer for View<Attributes, T> {
    open spec fn propagated(&self, context: Arc<RequestContext>, after: &Self) -> bool {
        &&& after.context() == Some(context)
        &&& after.href == self.href
        &&& after.next == self.next
        &&& after.attributes == self.attributes
        &&& self.data.propagated(context, &after.data)
    }

    fn set_context(&mut self, context: Arc<RequestContext>) {
        self.context = ContextSlot::holding(share(&context));
        self.data.set_context(context);
    }
}

/// A view carries a context when the context is stored in the view and each of its items
/// carries it: propagation reaches every depth.
pub proof fn lemma_view_carries<Attributes, T: ContextContainer>(
    view: View<Attributes, T>,
    context: Arc<RequestContext>,
)
    ensures
        carries(&view, context) <==> {
            &&& view.context() == Some(context)
            &&& forall|i: int|
                0 <= i < view.data@.len() ==> carries(&#[trigger] view.data@[i], context)
        },
{
}

} // verus!
