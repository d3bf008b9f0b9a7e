//! Apple music api
//!
//! The library builds the requests to the api and says what is done with the answers:
//! which query parameters a request carries, where it goes, which resource is handed
//! back and with which context, and how a lazy sequence of resources moves on from page
//! to page. It sends nothing itself: a request is a plain value, and what was received
//! is handed in as a plain value.

pub mod date;
pub mod error;
pub mod primitive;
pub mod request;
pub mod resource;
pub mod text;

use crate::error::ApiError;
use crate::request::fields::query_view;
use crate::text::owned;
use vstd::prelude::*;
use vstd::string::StringExecFns;

verus! {

/// The country of a storefront, by its ISO 3166 alpha-2 code.
#[derive(Debug, Copy, Clone, PartialEq, Eq, Hash)]
pub struct Country {
    /// The two letter country code (alpha-2) assigned to the country
    pub alpha2: &'static str,
}

/// The method of a request
#[derive(Debug, Copy, Clone, PartialEq, Eq, Hash)]
pub enum Method {
    /// GET
    Get,
    /// POST
    Post,
    /// PUT
    Put,
    /// DELETE
    Delete,
}

/// A request that is ready to be sent: where it goes and the query parameters it carries.
#[derive(Debug, Clone, PartialEq, Eq, Hash)]
pub struct Request {
    /// The method of the request
    pub method: Method,
    /// The full location the request is sent to
    pub url: String,
    /// The query parameters, in the order in which they are sent
    pub query: Vec<(String, String)>,
}

impl Request {
    /// Appends query parameters to the request.
    pub fn query(self, parameters: &Vec<(String, String)>) -> (request: Request)
        ensures
            request.method == self.method,
            request.url == self.url,
            query_view(request.query@) == query_view(self.query@) + query_view(parameters@),
    {
        let mut request = self;
        let ghost start = query_view(request.query@);
        let mut i: usize = 0;
        while i < parameters.len()
            invariant
                i <= parameters@.len(),
                request.method == self.method,
                request.url == self.url,
                query_view(request.query@) == start + query_view(parameters@).take(i as int),
            decreases parameters@.len() - i,
        {
            let ghost earlier = query_view(request.query@);
            let key = parameters[i].0.clone();
            let value = parameters[i].1.clone();
            request.query.push((key, value));
            proof {
                let all = query_view(parameters@);
                assert(query_view(request.query@) =~= earlier.push(all[i as int]));
                assert(all.take(i as int + 1) =~= all.take(i as int).push(all[i as int]));
                assert(query_view(request.query@) =~= start + all.take(i as int + 1));
            }
            i += 1;
        }
        proof {
            assert(query_view(parameters@).take(i as int) =~= query_view(parameters@));
        }
        request
    }
}

/// Whether a character may stand in the value of a header: anything but the control
/// characters, of which only the tabulator is let through.
pub open spec fn header_char(c: char) -> bool {
    (c as u32 >= 32 && c as u32 != 127) || c == '\t'
}

/// Whether a text can be sent as the value of a header.
pub open spec fn header_value(text: Seq<char>) -> bool {
    forall|i: int| 0 <= i < text.len() ==> header_char(#[trigger] text[i])
}

/// `HeaderValue::from_str`: the text is accepted when each of its bytes is 32 or more and
/// not 127, or is a tabulator; of a character beyond ASCII every byte is 128 or more.
#[verifier::external_body]
fn check_header_value(text: &str) -> (checked: Result<(), reqwest::header::InvalidHeaderValue>)
    ensures
        checked is Ok <==> header_value(text@),
{
    reqwest::header::HeaderValue::from_str(text).map(|_| ())
}

/// Apple music api client
#[derive(Clone)]
pub struct ApiClient {
    authorization: String,
    media_user_token: String,
    storefront_country: Country,
    localization: String,
}

impl ApiClient {
    /// The value of the authorization header that every request carries.
    pub closed spec fn authorization(&self) -> Seq<char> {
        self.authorization@
    }

    /// The value of the media user token header that every request carries.
    pub closed spec fn media_user_token(&self) -> Seq<char> {
        self.media_user_token@
    }

    /// The default storefront of the client.
    pub closed spec fn storefront_country(&self) -> Country {
        self.storefront_country
    }

    /// The default localization of the client.
    pub closed spec fn localization(&self) -> Seq<char> {
        self.localization@
    }

    /// Create a new [`ApiClient`] instance
    ///
    /// The client is made when both tokens can be sent as header values, and the first
    /// that cannot is the error.
    pub fn new(
        developer_token: &str,
        media_user_token: &str,
        storefront_country: Country,
    ) -> (client:
        Result<ApiClient, ApiError>)
        ensures
            match client {
                Ok(client) => {
                    &&& header_value("Bearer "@ + developer_token@)
                    &&& header_value(media_user_token@)
                    &&& client.authorization() == "Bearer "@ + developer_token@
                    &&& client.media_user_token() == media_user_token@
                    &&& client.storefront_country() == storefront_country
                    &&& client.localization() == "en-US"@
                },
                Err(error) => {
                    &&& error is InvalidHeaderValue
                    &&& !header_value("Bearer "@ + developer_token@) || !header_value(
                        media_user_token@,
                    )
                },
            },
    {
        let mut authorization = owned("Bearer ");
        authorization.append(developer_token);
        match check_header_value(authorization.as_str()) {
            Ok(()) => {},
            Err(error) => {
                return Err(ApiError::from(error));
            },
        }
        match check_header_value(media_user_token) {
            Ok(()) => {},
            Err(error) => {
                return Err(ApiError::from(error));
            },
        }
        Ok(
            ApiClient {
                authorization,
                media_user_token: owned(media_user_token),
                storefront_country,
                localization: owned("en-US"),
            },
        )
    }

    /// Get the value of the authorization header
    pub fn get_authorization(&self) -> (value: &str)
        ensures
            value@ == self.authorization(),
    {
        self.authorization.as_str()
    }

    /// Get the value of the media user token header
    pub fn get_media_user_token(&self) -> (value: &str)
        ensures
            value@ == self.media_user_token(),
    {
        self.media_user_token.as_str()
    }

    /// Get the default storefront country for this client
    pub fn get_storefront_country(&self) -> (country: Country)
        ensures
            country == self.storefront_country(),
    {
        self.storefront_country
    }

    /// Get the default localization for this client
    pub fn get_localization(&self) -> (localization: &str)
        ensures
            localization@ == self.localization(),
    {
        self.localization.as_str()
    }

    /// Set the default localization for this client
    pub fn set_localization(&mut self, localization: &str)
        ensures
            final(self).localization() == localization@,
            final(self).authorization() == old(self).authorization(),
            final(self).media_user_token() == old(self).media_user_token(),
            final(self).storefront_country() == old(self).storefront_country(),
    {
        self.localization = owned(localization);
    }

    /// Convenience method to make a GET request to an endpoint
    pub fn get(&self, endpoint: &str) -> (request: Request)
        ensures
            request.method == Method::Get,
            request.url@ == "https://api.music.apple.com"@ + endpoint@,
            query_view(request.query@) == seq![("art[url]"@, "f"@)],
    {
        request_to(Method::Get, endpoint)
    }

    /// Convenience method to make a POST request to an endpoint
    pub fn post(&self, endpoint: &str) -> (request: Request)
        ensures
            request.method == Method::Post,
            request.url@ == "https://api.music.apple.com"@ + endpoint@,
            query_view(request.query@) == seq![("art[url]"@, "f"@)],
    {
        request_to(Method::Post, endpoint)
    }

    /// Convenience method to make a PUT request to an endpoint
    pub fn put(&self, endpoint: &str) -> (request: Request)
        ensures
            request.method == Method::Put,
            request.url@ == "https://api.music.apple.com"@ + endpoint@,
            query_view(request.query@) == seq![("art[url]"@, "f"@)],
    {
        request_to(Method::Put, endpoint)
    }

    /// Convenience method to make a DELETE request to an endpoint
    pub fn delete(&self, endpoint: &str) -> (request: Request)
        ensures
            request.method == Method::Delete,
            request.url@ == "https://api.music.apple.com"@ + endpoint@,
            query_view(request.query@) == seq![("art[url]"@, "f"@)],
    {
        request_to(Method::Delete, endpoint)
    }
}

/// A request to an endpoint of the api, which asks for artwork url templates.
fn request_to(method: Method, endpoint: &str) -> (request: Request)
    ensures
        request.method == method,
        request.url@ == "https://api.music.apple.com"@ + endpoint@,
        query_view(request.query@) == seq![("art[url]"@, "f"@)],
{
    let mut url = owned("https://api.music.apple.com");
    url.append(endpoint);
    let mut query: Vec<(String, String)> = Vec::new();
    query.push((owned("art[url]"), owned("f")));
    assert(query_view(query@) =~= seq![("art[url]"@, "f"@)]);
    Request { method, url, query }
}

} // verus!
