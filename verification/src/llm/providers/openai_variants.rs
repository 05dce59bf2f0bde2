//! Adapters for OpenAI-compatible services: Groq, Together AI and Azure
//! OpenAI.

use vstd::prelude::*;
use super::base::{bearer_headers, join_url, joined_url, OpenAICompatible};
use crate::text::{concat2, str_eq};

verus! {

/// Adapter for Groq.
pub struct GroqAdapter {
    api_key: Option<String>,
}

impl GroqAdapter {
    /// The adapter's API key.
    pub closed spec fn api_key_spec(&self) -> Option<String> {
        self.api_key
    }

    /// An adapter with an optional key.
    pub fn new(api_key: Option<String>) -> (a: Self)
        ensures
            a.api_key_spec() == api_key,
    {
        GroqAdapter { api_key }
    }
}

impl OpenAICompatible for GroqAdapter {
    open spec fn base_url_text(&self) -> Seq<char> {
        "https://api.groq.com/openai/v1"@
    }

    open spec fn api_key_text(&self) -> Option<Seq<char>> {
        match self.api_key_spec() {
            Some(k) => Some(k@),
            None => None,
        }
    }

    fn base_url(&self) -> (r: &str)
        ensures
            r@ == "https://api.groq.com/openai/v1"@,
    {
        assert(self.base_url_text() == "https://api.groq.com/openai/v1"@);
        "https://api.groq.com/openai/v1"
    }

    fn api_key(&self) -> (r: Option<&str>)
        ensures
            r is Some <==> self.api_key_spec() is Some,
            r matches Some(k) ==> k@ == self.api_key_spec().unwrap()@,
    {
        match &self.api_key {
            Some(k) => Some(k.as_str()),
            None => None,
        }
    }
}

/// Adapter for Together AI.
pub struct TogetherAdapter {
    api_key: Option<String>,
}

impl TogetherAdapter {
    /// The adapter's API key.
    pub closed spec fn api_key_spec(&self) -> Option<String> {
        self.api_key
    }

    /// An adapter with an optional key.
    pub fn new(api_key: Option<String>) -> (a: Self)
        ensures
            a.api_key_spec() == api_key,
    {
        TogetherAdapter { api_key }
    }
}

impl OpenAICompatible for TogetherAdapter {
    open spec fn base_url_text(&self) -> Seq<char> {
        "https://api.together.xyz/v1"@
    }

    open spec fn api_key_text(&self) -> Option<Seq<char>> {
        match self.api_key_spec() {
            Some(k) => Some(k@),
            None => None,
        }
    }

    fn base_url(&self) -> (r: &str)
        ensures
            r@ == "https://api.together.xyz/v1"@,
    {
        assert(self.base_url_text() == "https://api.together.xyz/v1"@);
        "https://api.together.xyz/v1"
    }

    fn api_key(&self) -> (r: Option<&str>)
        ensures
            r is Some <==> self.api_key_spec() is Some,
            r matches Some(k) ==> k@ == self.api_key_spec().unwrap()@,
    {
        match &self.api_key {
            Some(k) => Some(k.as_str()),
            None => None,
        }
    }
}

/// Adapter for Azure OpenAI, which routes requests by deployment.
pub struct AzureOpenAIAdapter {
    endpoint: String,
    api_key: Option<String>,
    api_version: String,
    deployment_name: String,
}

/// The path that Azure routes an endpoint to.
pub open spec fn azure_path(deployment: Seq<char>, version: Seq<char>, endpoint: Seq<char>) -> Seq<char> {
    if endpoint == "chat/completions"@ {
        "openai/deployments/"@ + deployment + "/chat/completions?api-version="@ + version
    } else if endpoint == "embeddings"@ {
        "openai/deployments/"@ + deployment + "/embeddings?api-version="@ + version
    } else if endpoint == "models"@ {
        "openai/models?api-version="@ + version
    } else {
        endpoint + "?api-version="@ + version
    }
}

impl AzureOpenAIAdapter {
    /// The resource endpoint.
    pub closed spec fn endpoint_spec(&self) -> Seq<char> {
        self.endpoint@
    }

    /// The API key.
    pub closed spec fn api_key_spec(&self) -> Option<String> {
        self.api_key
    }

    /// The API version.
    pub closed spec fn api_version_spec(&self) -> Seq<char> {
        self.api_version@
    }

    /// The deployment requests go to.
    pub closed spec fn deployment_spec(&self) -> Seq<char> {
        self.deployment_name@
    }

    /// An adapter for a resource endpoint and deployment; the API version
    /// defaults to `2024-02-15-preview`.
    pub fn new(endpoint: String, deployment_name: String, api_key: Option<String>, api_version: Option<String>) -> (a: Self)
        ensures
            a.endpoint_spec() == endpoint@,
            a.deployment_spec() == deployment_name@,
            a.api_key_spec() == api_key,
            api_version matches Some(v) ==> a.api_version_spec() == v@,
            api_version is None ==> a.api_version_spec() == "2024-02-15-preview"@,
    {
        let api_version = match api_version {
            Some(v) => v,
            None => String::from_str("2024-02-15-preview"),
        };
        AzureOpenAIAdapter { endpoint, api_key, api_version, deployment_name }
    }
}

impl OpenAICompatible for AzureOpenAIAdapter {
    open spec fn base_url_text(&self) -> Seq<char> {
        self.endpoint_spec()
    }

    open spec fn api_key_text(&self) -> Option<Seq<char>> {
        match self.api_key_spec() {
            Some(k) => Some(k@),
            None => None,
        }
    }

    open spec fn routes_endpoints(&self) -> bool {
        true
    }

    fn base_url(&self) -> (r: &str)
        ensures
            r@ == self.endpoint_spec(),
    {
        assert(self.base_url_text() == self.endpoint_spec());
        self.endpoint.as_str()
    }

    fn api_key(&self) -> (r: Option<&str>)
        ensures
            r is Some <==> self.api_key_spec() is Some,
            r matches Some(k) ==> k@ == self.api_key_spec().unwrap()@,
    {
        match &self.api_key {
            Some(k) => Some(k.as_str()),
            None => None,
        }
    }

    /// Azure takes the key in an `api-key` header.
    fn auth_headers(&self) -> (hs: Vec<(&str, String)>)
        ensures
            self.api_key_spec() is None ==> hs@.len() == 0,
            self.api_key_spec() matches Some(k) ==> hs@.len() == 1 && hs@[0].0@ == "api-key"@
                && hs@[0].1@ == k@,
    {
        let mut hs: Vec<(&str, String)> = Vec::new();
        match &self.api_key {
            Some(k) => {
                hs.push(("api-key", k.clone()));
            },
            None => {},
        }
        hs
    }

    fn transform_endpoint(&self, endpoint: &str) -> (r: String)
        ensures
            r@ == azure_path(self.deployment_spec(), self.api_version_spec(), endpoint@),
    {
        let version = self.api_version.as_str();
        let deployment = self.deployment_name.as_str();
        if str_eq(endpoint, "chat/completions") {
            let a = concat2("openai/deployments/", deployment);
            let b = concat2(a.as_str(), "/chat/completions?api-version=");
            concat2(b.as_str(), version)
        } else if str_eq(endpoint, "embeddings") {
            let a = concat2("openai/deployments/", deployment);
            let b = concat2(a.as_str(), "/embeddings?api-version=");
            concat2(b.as_str(), version)
        } else if str_eq(endpoint, "models") {
            concat2("openai/models?api-version=", version)
        } else {
            let a = concat2(endpoint, "?api-version=");
            concat2(a.as_str(), version)
        }
    }

    /// The full URL of an endpoint: the path Azure routes it to, joined to
    /// the resource endpoint.
    fn build_url(&self, endpoint: &str) -> (r: String)
        ensures
            r@ == joined_url(self.endpoint_spec(), azure_path(self.deployment_spec(), self.api_version_spec(), endpoint@)),
    {
        let path = self.transform_endpoint(endpoint);
        join_url(self.base_url(), path.as_str())
    }
}

} // verus!
