//! Pagination cursor

use crate::request::context::{share, ContextContainer, RequestContext};
use crate::request::fields::query_view;
use crate::resource::ResourceResponse;
use crate::text::{decimal, owned, to_decimal};
use crate::{ApiClient, Method, Request};
use std::marker::PhantomData;
use std::sync::Arc;
use vstd::prelude::*;

verus! {

/// Where a pagination stands: the offset of the page that is asked for next, and
/// whether an empty page has ended it.
pub struct Progress {
    /// The offset of the next page
    pub offset: nat,
    /// Whether the last page has been seen
    pub finished: bool,
}

/// Where a pagination stands after a page of `count` items: the offset moves on by what
/// was received, and an empty page ends the pagination.
pub open spec fn received(progress: Progress, count: nat) -> Progress {
    Progress { offset: progress.offset + count, finished: progress.finished || count == 0 }
}

/// Where a pagination stands after pages of the given sizes.
pub open spec fn after_pages(start: Progress, sizes: Seq<nat>) -> Progress
    decreases sizes.len(),
{
    if sizes.len() == 0 {
        start
    } else {
        received(after_pages(start, sizes.drop_last()), sizes.last())
    }
}

/// The number of items in pages of the given sizes.
pub open spec fn total(sizes: Seq<nat>) -> nat
    decreases sizes.len(),
{
    if sizes.len() == 0 {
        0
    } else {
        total(sizes.drop_last()) + sizes.last()
    }
}

/// Whether a request asks for the page at an offset: a GET to the endpoint, with the
/// query parameters of the context and the offset behind them.
pub open spec fn asks_for_page(
    request: Request,
    endpoint: Seq<char>,
    context: RequestContext,
    offset: nat,
) -> bool {
    &&& request.method == Method::Get
    &&& request.url@ == "https://api.music.apple.com"@ + endpoint
    &&& query_view(request.query@) == seq![("art[url]"@, "f"@)] + query_view(context.query@)
        + seq![("offset"@, decimal(offset))]
}

/// The steps of paginating an endpoint: a page is asked for at the current offset, and
/// what is received moves the offset on.
pub struct Paginator<R> {
    endpoint: String,
    context: Arc<RequestContext>,
    offset: usize,
    finished: bool,
    marker: PhantomData<R>,
}

/// Paginate a request
pub fn paginate<R: ContextContainer>(
    endpoint: String,
    request_context: RequestContext,
    offset: usize,
) -> (paginator: Paginator<R>)
    ensures
        paginator.endpoint() == endpoint@,
        *paginator.context() == request_context,
        paginator@ == (Progress { offset: offset as nat, finished: false }),
{
    Paginator {
        endpoint,
        context: Arc::new(request_context),
        offset,
        finished: false,
        marker: PhantomData,
    }
}

impl<R: ContextContainer> Paginator<R> {
    /// The endpoint that is paginated.
    pub closed spec fn endpoint(&self) -> Seq<char> {
        self.endpoint@
    }

    /// The context that every page is asked for with and every item is handed out with.
    pub closed spec fn context(&self) -> Arc<RequestContext> {
        self.context
    }

    /// Where the pagination stands.
    pub closed spec fn view(&self) -> Progress {
        Progress { offset: self.offset as nat, finished: self.finished }
    }

    /// The offset of the page that is asked for next.
    pub fn offset(&self) -> (offset: usize)
        ensures
            offset == self@.offset,
    {
        self.offset
    }

    /// Whether an empty page has ended the pagination.
    pub fn is_finished(&self) -> (finished: bool)
        ensures
            finished == self@.finished,
    {
        self.finished
    }

    /// Whether the offset can move on by a page of `count` items.
    pub fn can_receive(&self, count: usize) -> (can: bool)
        ensures
            can == (self@.offset + count <= usize::MAX),
    {
        count <= usize::MAX - self.offset
    }

    /// The request for the next page, as long as no empty page has been received.
    ///
    /// The offset goes out with the request only: what the context holds is the same
    /// for every page.
    pub fn next_request(&self, client: &ApiClient) -> (request: Option<Request>)
        ensures
            match request {
                Some(request) => !self@.finished && asks_for_page(
                    request,
                    self.endpoint(),
                    *self.context(),
                    self@.offset,
                ),
                None => self@.finished,
            },
    {
        if self.finished {
            return None;
        }
        let mut offset: Vec<(String, String)> = Vec::new();
        offset.push((owned("offset"), to_decimal(self.offset)));
        assert(query_view(offset@) =~= seq![("offset"@, decimal(self.offset as nat))]);
        let request = client.get(self.endpoint.as_str()).query(&self.context.query).query(&offset);
        Some(request)
    }

    /// Takes in a page and hands out its items, the context propagated into each.
    ///
    /// The offset moves on by the number of items received, and an empty page ends the
    /// pagination.
    pub fn receive(&mut self, response: ResourceResponse<R>) -> (items: Vec<R>)
        requires
            old(self)@.offset + response.data@.len() <= usize::MAX,
        ensures
            response.data.propagated(old(self).context(), &items),
            items.propagated(old(self).context(), &items),
            final(self)@ == received(old(self)@, response.data@.len()),
            final(self).endpoint() == old(self).endpoint(),
            final(self).context() == old(self).context(),
    {
        let mut items = response.data;
        items.set_context(share(&self.context));
        self.offset = self.offset + items.len();
        if items.len() == 0 {
            self.finished = true;
        }
        items
    }
}

/// As long as the pages are not empty, a page is asked for at the offset that the items
/// seen so far have led to; the first empty page ends the pagination.
pub proof fn lemma_pagination_ends(start: nat, sizes: Seq<nat>)
    requires
        sizes.len() > 0,
        forall|i: int| 0 <= i < sizes.len() - 1 ==> sizes[i] > 0,
        sizes.last() == 0,
    ensures
        forall|k: int|
            #![trigger sizes.take(k)]
            0 <= k < sizes.len() ==> after_pages(
                Progress { offset: start, finished: false },
                sizes.take(k),
            ) == (Progress { offset: start + total(sizes.take(k)), finished: false }),
        after_pages(Progress { offset: start, finished: false }, sizes) == (Progress {
            offset: start + total(sizes),
            finished: true,
        }),
{
    let begin = Progress { offset: start, finished: false };
    assert forall|k: int| #![trigger sizes.take(k)] 0 <= k < sizes.len() implies after_pages(
        begin,
        sizes.take(k),
    ) == (Progress { offset: start + total(sizes.take(k)), finished: false }) by {
        lemma_pagination_goes_on(start, sizes.take(k));
    }
    let front = sizes.drop_last();
    assert(front == sizes.take(sizes.len() - 1));
    lemma_pagination_goes_on(start, front);
}

/// Pages that are not empty move the offset on by their items and do not end the
/// pagination.
pub proof fn lemma_pagination_goes_on(start: nat, sizes: Seq<nat>)
    requires
        forall|i: int| 0 <= i < sizes.len() ==> sizes[i] > 0,
    ensures
        after_pages(Progress { offset: start, finished: false }, sizes) == (Progress {
            offset: start + total(sizes),
            finished: false,
        }),
    decreases sizes.len(),
{
    if sizes.len() > 0 {
        lemma_pagination_goes_on(start, sizes.drop_last());
    }
}

} // verus!
