//! Request builders and structures

use crate::error::ApiError;
use crate::request::context::{ContextContainer, RequestContext};
use crate::request::fields::query_view;
use crate::resource::{ErrorResponse, ResourceResponse};
use crate::text::{lowercase, owned, to_lowercase};
use crate::{Country, Method, Request};
use std::marker::PhantomData;
use std::sync::Arc;
use vstd::prelude::*;
use vstd::string::StringExecFns;

pub mod builder;
pub mod context;
pub mod extension;
pub mod fields;
pub mod paginated;
pub mod relationship;
pub mod view;

verus! {

/// Default fetch entries limit for a page
pub const DEFAULT_FETCH_LIMIT: usize = 21;

/// What the server has answered, decoded by the status of the response: the body that
/// was asked for after a success, the description of the failure after anything else.
pub enum Answer<R> {
    /// The body of a response with a success status
    Success(R),
    /// The body of a response with any other status
    Failure(ErrorResponse),
}

/// Whether a status stands for a success, which the statuses from 200 to 299 do.
pub fn is_success(status: u16) -> (success: bool)
    ensures
        success == (200 <= status < 300),
{
    200 <= status && status < 300
}

/// The resources of an answer, or the error that the server has described.
pub fn try_resource_response<R>(response: Answer<ResourceResponse<R>>) -> (resources: Result<
    ResourceResponse<R>,
    ApiError,
>)
    ensures
        match response {
            Answer::Success(body) => resources == Ok::<ResourceResponse<R>, ApiError>(body),
            Answer::Failure(error) => resources == Err::<ResourceResponse<R>, ApiError>(
                ApiError::MusicError(error),
            ),
        },
{
    match response {
        Answer::Success(body) => Ok(body),
        Answer::Failure(error) => Err(ApiError::MusicError(error)),
    }
}

/// The path of a catalog endpoint: the storefront in lowercase, then what is asked of it.
pub open spec fn catalog_endpoint(storefront: Country, resource: Seq<char>) -> Seq<char> {
    "/v1/catalog/"@ + lowercase(storefront.alpha2@) + "/"@ + resource
}

/// The path of a search endpoint of the catalog: the storefront as it stands, then what
/// is asked of it.
pub open spec fn search_endpoint(storefront: Country, resource: Seq<char>) -> Seq<char> {
    "/v1/catalog/"@ + storefront.alpha2@ + "/"@ + resource
}

/// The path of one resource below an endpoint.
pub open spec fn below(endpoint: Seq<char>, id: Seq<char>) -> Seq<char> {
    endpoint + "/"@ + id
}

/// Whether a request goes to a path of the api with the given method and carries the
/// given query parameters behind the one that every request carries.
pub open spec fn sends(
    request: Request,
    method: Method,
    path: Seq<char>,
    query: Seq<(Seq<char>, Seq<char>)>,
) -> bool {
    &&& request.method == method
    &&& request.url@ == "https://api.music.apple.com"@ + path
    &&& query_view(request.query@) == seq![("art[url]"@, "f"@)] + query
}

/// Builds the path of a catalog endpoint.
pub(crate) fn catalog_path(storefront: &Country, resource: &str) -> (path: String)
    ensures
        path@ == catalog_endpoint(*storefront, resource@),
{
    let mut path = owned("/v1/catalog/");
    let lowered = to_lowercase(storefront.alpha2);
    path.append(lowered.as_str());
    path.append("/");
    path.append(resource);
    path
}

/// Builds the path of a search endpoint of the catalog.
pub(crate) fn search_path(storefront: &Country, resource: &str) -> (path: String)
    ensures
        path@ == search_endpoint(*storefront, resource@),
{
    let mut path = owned("/v1/catalog/");
    path.append(storefront.alpha2);
    path.append("/");
    path.append(resource);
    path
}

/// Builds the path of one resource below an endpoint.
pub(crate) fn path_below(endpoint: &str, id: &str) -> (path: String)
    ensures
        path@ == below(endpoint@, id@),
{
    let mut path = owned(endpoint);
    path.append("/");
    path.append(id);
    path
}

/// Appends one query parameter to a context.
pub(crate) fn push_parameter(context: &mut RequestContext, key: &str, value: String)
    ensures
        final(context).storefront == old(context).storefront,
        query_view(final(context).query@) == query_view(old(context).query@).push((key@, value@)),
{
    context.query.push((owned(key), value));
    assert(query_view(context.query@) =~= query_view(old(context).query@).push((key@, value@)));
}

/// A request for one resource, with the context that is propagated into what comes back.
pub struct FetchOne<R> {
    /// The request to send
    pub request: Request,
    /// The context of the request
    pub context: Arc<RequestContext>,
    /// The resource that is asked for
    pub marker: PhantomData<R>,
}

/// A request for a list of resources, with the context that is propagated into what
/// comes back.
pub struct FetchMany<R> {
    /// The request to send
    pub request: Request,
    /// The context of the request
    pub context: Arc<RequestContext>,
    /// The resource that is asked for
    pub marker: PhantomData<R>,
}

/// A request for search results, with the context that is propagated into what comes
/// back.
pub struct FetchResults<R> {
    /// The request to send
    pub request: Request,
    /// The context of the request
    pub context: Arc<RequestContext>,
    /// The results that are asked for
    pub marker: PhantomData<R>,
}

/// A request that goes out with a body.
pub struct Submission<Q, B> {
    /// The request to send
    pub request: Q,
    /// The body to send with it
    pub body: B,
}

/// Whether a request was made from a context: it carries the query parameters of the
/// context, and the context holds the given storefront and parameters.
pub open spec fn prepared(
    request: Request,
    context: Arc<RequestContext>,
    method: Method,
    path: Seq<char>,
    storefront: Country,
    query: Seq<(Seq<char>, Seq<char>)>,
) -> bool {
    &&& sends(request, method, path, query)
    &&& context.storefront == storefront
    &&& query_view(context.query@) == query
}

impl<R: ContextContainer> FetchOne<R> {
    /// Hands the query parameters of the context to the request.
    pub(crate) fn new(request: Request, context: RequestContext) -> (fetch: Self)
        ensures
            fetch.request.method == request.method,
            fetch.request.url == request.url,
            query_view(fetch.request.query@) == query_view(request.query@) + query_view(
                context.query@,
            ),
            *fetch.context == context,
    {
        let request = request.query(&context.query);
        FetchOne { request, context: Arc::new(context), marker: PhantomData }
    }

    /// The first resource of the response, if there is one, with the context of the
    /// request propagated into it.
    pub fn finish(self, response: ResourceResponse<R>) -> (resource: Option<R>)
        ensures
            match resource {
                Some(resource) => {
                    &&& response.data@.len() > 0
                    &&& response.data@[0].propagated(self.context, &resource)
                    &&& resource.propagated(self.context, &resource)
                },
                None => response.data@.len() == 0,
            },
    {
        let mut data = response.data;
        if data.len() == 0 {
            return None;
        }
        let mut first = data.swap_remove(0);
        first.set_context(self.context);
        Some(first)
    }
}

impl<R: ContextContainer> FetchMany<R> {
    /// Hands the query parameters of the context to the request.
    pub(crate) fn new(request: Request, context: RequestContext) -> (fetch: Self)
        ensures
            fetch.request.method == request.method,
            fetch.request.url == request.url,
            query_view(fetch.request.query@) == query_view(request.query@) + query_view(
                context.query@,
            ),
            *fetch.context == context,
    {
        let request = request.query(&context.query);
        FetchMany { request, context: Arc::new(context), marker: PhantomData }
    }

    /// The resources of the response, in the order of the server, with the context of
    /// the request propagated into each.
    pub fn finish(self, response: ResourceResponse<R>) -> (resources: Vec<R>)
        ensures
            response.data.propagated(self.context, &resources),
            resources.propagated(self.context, &resources),
    {
        let mut data = response.data;
        data.set_context(self.context);
        data
    }
}

impl<R: ContextContainer> FetchResults<R> {
    /// Hands the query parameters of the context to the request.
    pub(crate) fn new(request: Request, context: RequestContext) -> (fetch: Self)
        ensures
            fetch.request.method == request.method,
            fetch.request.url == request.url,
            query_view(fetch.request.query@) == query_view(request.query@) + query_view(
                context.query@,
            ),
            *fetch.context == context,
    {
        let request = request.query(&context.query);
        FetchResults { request, context: Arc::new(context), marker: PhantomData }
    }

    /// The results of the response with the context of the request propagated into them.
    pub fn finish(self, results: R) -> (found: R)
        ensures
            results.propagated(self.context, &found),
            found.propagated(self.context, &found),
    {
        let mut found = results;
        found.set_context(self.context);
        found
    }
}

} // verus!
