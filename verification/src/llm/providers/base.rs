//! Shared pieces of OpenAI-compatible providers.

use vstd::prelude::*;
use crate::text::{concat2, trim_end_char, trim_end_matches, trim_start_char, trim_start_matches};

verus! {

/// The URL of `path` under `base`: trailing slashes of the base and leading
/// slashes of the path are dropped and one slash joins them.
pub open spec fn joined_url(base: Seq<char>, path: Seq<char>) -> Seq<char> {
    trim_end_char(base, '/') + "/"@ + trim_start_char(path, '/')
}

/// Joins a base URL and a path with exactly one slash.
pub fn join_url(base: &str, path: &str) -> (r: String)
    ensures
        r@ == joined_url(base@, path@),
{
    let b = trim_end_matches(base, '/');
    let p = trim_start_matches(path, '/');
    let bs = concat2(b.as_str(), "/");
    concat2(bs.as_str(), p.as_str())
}

/// The `Authorization` header that carries an API key as a bearer token.
pub fn bearer_header(key: &str) -> (h: (&'static str, String))
    ensures
        h.0@ == "Authorization"@,
        h.1@ == "Bearer "@ + key@,
{
    ("Authorization", concat2("Bearer ", key))
}

/// The headers that carry an optional API key as a bearer token.
pub fn bearer_headers(key: Option<&str>) -> (hs: Vec<(&'static str, String)>)
    ensures
        key is None ==> hs@.len() == 0,
        key matches Some(k) ==> hs@.len() == 1 && hs@[0].0@ == "Authorization"@
            && hs@[0].1@ == "Bearer "@ + k@,
{
    let mut hs: Vec<(&'static str, String)> = Vec::new();
    match key {
        Some(k) => {
            hs.push(bearer_header(k));
        },
        None => {},
    }
    hs
}

/// The text of an optional string slice.
pub open spec fn opt_str_view(o: Option<&str>) -> Option<Seq<char>> {
    match o {
        Some(s) => Some(s@),
        None => None,
    }
}

/// The headers that carry an optional API key `key` as a bearer token.
pub open spec fn is_bearer_headers(hs: Seq<(&str, String)>, key: Option<Seq<char>>) -> bool {
    match key {
        Some(k) => hs.len() == 1 && hs[0].0@ == "Authorization"@ && hs[0].1@ == "Bearer "@ + k,
        None => hs.len() == 0,
    }
}

/// A provider that speaks the OpenAI API. Implementors give the base URL
/// and the API key; headers, endpoint routing and URLs have defaults.
pub trait OpenAICompatible {
    /// The base URL that `base_url` gives. Each provider of the library
    /// states its own; the default, an empty text, stands only for
    /// implementors outside verified code, which give no proof of `base_url`.
    closed spec fn base_url_text(&self) -> Seq<char> {
        Seq::empty()
    }

    /// The API key that `api_key` gives, if any. Each provider of the library
    /// states its own; the default, no key, stands only for implementors
    /// outside verified code, which give no proof of `api_key`.
    closed spec fn api_key_text(&self) -> Option<Seq<char>> {
        None
    }

    /// Whether the provider routes endpoints to paths of its own, with a
    /// `transform_endpoint` of its own; by default it does not.
    open spec fn routes_endpoints(&self) -> bool {
        false
    }

    /// The provider's base URL.
    fn base_url(&self) -> (r: &str)
        ensures
            r@ == self.base_url_text(),
    ;

    /// The API key, if any.
    fn api_key(&self) -> (r: Option<&str>)
        ensures
            opt_str_view(r) == self.api_key_text(),
    ;

    /// Headers specific to the provider.
    fn additional_headers(&self) -> (r: Vec<(&str, &str)>)
        default_ensures
            r@.len() == 0,
    {
        Vec::new()
    }

    /// The authentication headers: by default a bearer token.
    fn auth_headers(&self) -> (hs: Vec<(&str, String)>)
        default_ensures
            is_bearer_headers(hs@, self.api_key_text()),
    {
        bearer_headers(self.api_key())
    }

    /// The path that an endpoint is routed to: by default the endpoint.
    fn transform_endpoint(&self, endpoint: &str) -> (r: String)
        ensures
            !self.routes_endpoints() ==> r@ == endpoint@,
        default_ensures
            r@ == endpoint@,
    {
        String::from_str(endpoint)
    }

    /// The full URL of an endpoint: the routed path joined to the base URL.
    /// A provider that routes endpoints by default joins the endpoint itself.
    fn build_url(&self, endpoint: &str) -> (r: String)
        default_ensures
            exists|path: Seq<char>| r@ == #[trigger] joined_url(self.base_url_text(), path),
            !self.routes_endpoints() ==> r@ == joined_url(self.base_url_text(), endpoint@),
    {
        let path = self.transform_endpoint(endpoint);
        join_url(self.base_url(), path.as_str())
    }
}

} // verus!
