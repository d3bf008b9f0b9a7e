//! Storefront

use crate::request::builder::MusicRequestBuilder;
use crate::request::context::{ContextContainer, RequestContext};
use crate::request::fields::query_view;
use crate::request::paginated::{Paginator, Progress, paginate};
use crate::request::{FetchMany, FetchOne, below, path_below, prepared, push_parameter};
use crate::resource::ResourceHeader;
use crate::text::{decimal, joined, lowercase, owned, to_decimal, to_lowercase};
use crate::{ApiClient, Country, Method};
use std::sync::Arc;
use vstd::prelude::*;
use vstd::string::StringExecFns;

verus! {

/// Storefront
#[derive(Default, Debug, PartialEq, Eq, Hash)]
pub struct Storefront {
    /// Resource header
    pub header: ResourceHeader,
    /// Storefront attributes
    pub attributes: Option<StorefrontAttributes>,
}

impl Storefront {
    /// Get storefront request builder
    pub fn get<'a>() -> (builder: StorefrontGetRequestBuilder<'a>)
        ensures
            builder.is_fresh(),
    {
        StorefrontGetRequestBuilder::default()
    }

    /// Whether `after` is this storefront with `context` stored in every relationship and view
    /// below it, and with nothing else changed.
    pub open spec fn attached(&self, context: Arc<RequestContext>, after: &Storefront) -> bool
        decreases self,
    {
        *after == *self
    }

    /// Stores the context in every relationship and view below this storefront.
    pub fn attach(&mut self, context: &Arc<RequestContext>)
        ensures
            old(self).attached(*context, final(self)),
            final(self).attached(*context, final(self)),
        decreases *old(self),
    {
    }

    /// A copy of this storefront.
    pub fn duplicate(&self) -> (copy: Storefront)
        ensures
            self.copied(&copy),
        decreases self,
    {
        Storefront {
            header: self.header.clone(),
            attributes: self.attributes.clone(),
        }
    }

    /// Whether `copy` holds what this storefront holds: the same header and a clone of the
    /// attributes.
    pub open spec fn copied(&self, copy: &Storefront) -> bool
        decreases self,
    {
        &&& copy.header == self.header
        &&& cloned(self.attributes, copy.attributes)
    }
}

impl ContextContainer for Storefront {
    open spec fn propagated(&self, context: Arc<RequestContext>, after: &Self) -> bool {
        self.attached(context, after)
    }

    fn set_context(&mut self, context: Arc<RequestContext>) {
        self.attach(&context);
    }
}

impl Clone for Storefront {
    fn clone(&self) -> (copy: Self)
        ensures
            self.copied(&copy),
    {
        self.duplicate()
    }
}

/// Storefront attributes
#[derive(Debug, Clone, PartialEq, Eq, Hash)]
pub struct StorefrontAttributes {
    /// The default supported RFC4646 language tag for the storefront
    pub default_language_tag: String,
    /// Attribute indicating the level that this storefront can display explicit content
    pub explicit_content_policy: ExplicitContentPolicy,
    /// The localized name of the storefront
    pub name: String,
    /// The supported RFC4646 language tags for the storefront
    pub supported_language_tags: Vec<String>,
}

/// Storefront explicit content policy
#[derive(Debug, Copy, Clone, PartialEq, Eq, Hash)]
pub enum ExplicitContentPolicy {
    /// Allowed
    Allowed,
    /// Opt-in
    OptIn,
    /// Prohibited
    Prohibited,
}

/// Storefront get request builder marker
pub struct StorefrontGetRequestBuilderMarker;

/// Storefront get request builder
pub type StorefrontGetRequestBuilder<'a> = MusicRequestBuilder<
    'a,
    StorefrontGetRequestBuilderMarker,
>;

/// The codes of countries in lowercase.
pub open spec fn codes(countries: Seq<Country>) -> Seq<Seq<char>> {
    Seq::new(countries.len(), |i: int| lowercase(countries[i].alpha2@))
}

/// Joins the codes of countries, in lowercase, with commas.
fn join_codes(countries: &[Country]) -> (text: String)
    ensures
        text@ == joined(codes(countries@), ","@),
{
    let mut text = String::new();
    let mut i: usize = 0;
    while i < countries.len()
        invariant
            i <= countries@.len(),
            text@ == joined(codes(countries@).take(i as int), ","@),
        decreases countries@.len() - i,
    {
        proof {
            let all = codes(countries@);
            assert(all.take(i as int + 1).drop_last() == all.take(i as int));
            assert(all.take(i as int + 1).last() == lowercase(countries@[i as int].alpha2@));
        }
        if i > 0 {
            text.append(",");
        }
        let code = to_lowercase(countries[i].alpha2);
        text.append(code.as_str());
        i += 1;
    }
    proof {
        assert(codes(countries@).take(i as int) == codes(countries@));
    }
    text
}

impl<'a> StorefrontGetRequestBuilder<'a> {
    /// Fetch one storefront by country
    pub fn one(self, client: &ApiClient, country: Country) -> (fetch: FetchOne<Storefront>)
        ensures
            prepared(
                fetch.request,
                fetch.context,
                Method::Get,
                below("/v1/storefronts"@, lowercase(country.alpha2@)),
                self.storefront(client),
                self.query(client),
            ),
    {
        let mut builder = self;
        let context = builder.get_request_context_drain(client);
        let code = to_lowercase(country.alpha2);
        let path = path_below("/v1/storefronts", code.as_str());
        FetchOne::new(client.get(path.as_str()), context)
    }

    /// Fetch multiple storefronts by countries
    pub fn many(self, client: &ApiClient, countries: &[Country]) -> (fetch: FetchMany<Storefront>)
        ensures
            prepared(
                fetch.request,
                fetch.context,
                Method::Get,
                "/v1/storefronts"@,
                self.storefront(client),
                self.query(client).push(("ids"@, joined(codes(countries@), ","@))),
            ),
    {
        let mut builder = self;
        let mut context = builder.get_request_context_drain(client);
        push_parameter(&mut context, "ids", join_codes(countries));
        FetchMany::new(client.get("/v1/storefronts"), context)
    }

    /// Fetch all storefronts
    ///
    /// # Params
    ///
    /// * limit - limit of entries per query
    ///
    /// * offset - query offset
    pub fn all(
        self,
        client: &ApiClient,
        limit: usize,
        offset: usize,
    ) -> (pages: Paginator<Storefront>)
        ensures
            pages.endpoint() == "/v1/storefronts"@,
            pages.context().storefront == self.storefront(client),
            query_view(pages.context().query@) == self.query(client).push(
                ("limit"@, decimal(limit as nat)),
            ),
            pages@ == (Progress { offset: offset as nat, finished: false }),
    {
        let mut builder = self;
        let mut context = builder.get_request_context_drain(client);
        push_parameter(&mut context, "limit", to_decimal(limit));
        paginate(owned("/v1/storefronts"), context, offset)
    }
}

} // verus!
