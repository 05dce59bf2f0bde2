//! The OpenAI adapter.

use vstd::prelude::*;
use super::base::OpenAICompatible;

verus! {

/// Adapter for the OpenAI API.
pub struct OpenAIAdapter {
    base_url: String,
    api_key: Option<String>,
}

impl OpenAIAdapter {
    /// The adapter's base URL.
    pub closed spec fn base_url_spec(&self) -> Seq<char> {
        self.base_url@
    }

    /// The adapter's API key.
    pub closed spec fn api_key_spec(&self) -> Option<String> {
        self.api_key
    }

    /// An adapter with an optional key and base URL; OpenAI's public
    /// endpoint where no base URL is given.
    pub fn new(api_key: Option<String>, base_url: Option<String>) -> (a: Self)
        ensures
            a.api_key_spec() == api_key,
            base_url matches Some(b) ==> a.base_url_spec() == b@,
            base_url is None ==> a.base_url_spec() == "https://api.openai.com/v1"@,
    {
        let base_url = match base_url {
            Some(b) => b,
            None => String::from_str("https://api.openai.com/v1"),
        };
        OpenAIAdapter { base_url, api_key }
    }
}

impl OpenAICompatible for OpenAIAdapter {
    open spec fn base_url_text(&self) -> Seq<char> {
        self.base_url_spec()
    }

    open spec fn api_key_text(&self) -> Option<Seq<char>> {
        match self.api_key_spec() {
            Some(k) => Some(k@),
            None => None,
        }
    }

    fn base_url(&self) -> (r: &str)
        ensures
            r@ == self.base_url_spec(),
    {
        assert(self.base_url_text() == self.base_url_spec());
        self.base_url.as_str()
    }

    fn api_key(&self) -> (r: Option<&str>)
        ensures
            r is Some <==> self.api_key_spec() is Some,
            r matches Some(k) ==> k@ == self.api_key_spec().unwrap()@,
    {
        match &self.api_key {
            Some(k) => Some(k.as_str()),
            None => None,
        }
    }
}

} // verus!
