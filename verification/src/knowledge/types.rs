//! Where knowledge comes from.

use vstd::prelude::*;
use crate::text::concat2;

verus! {

/// The formats of documents that can be read.
#[derive(Debug, Clone, PartialEq, Eq, Hash)]
pub enum DocumentFormat {
    PDF,
    EPUB,
    Markdown,
    HTML,
    DOCX,
    TXT,
    Code { language: String },
}

/// A source of outside knowledge.
#[derive(Debug, Clone)]
pub enum KnowledgeSource {
    Web { url: String, title: Option<String>, crawl_depth: u32 },
    Document { path: String, format: DocumentFormat },
    Api { endpoint: String, description: String },
    Git { repo_url: String, branch: String, file_patterns: Vec<String> },
    RSS { feed_url: String, categories: Vec<String> },
}

/// How a source is named: its kind and where it is.
pub open spec fn source_text(s: KnowledgeSource) -> Seq<char> {
    match s {
        KnowledgeSource::Web { url, .. } => "Web: "@ + url@,
        KnowledgeSource::Document { path, .. } => "Document: "@ + path@,
        KnowledgeSource::Api { endpoint, .. } => "API: "@ + endpoint@,
        KnowledgeSource::Git { repo_url, .. } => "Git: "@ + repo_url@,
        KnowledgeSource::RSS { feed_url, .. } => "RSS: "@ + feed_url@,
    }
}

impl KnowledgeSource {
    /// How this source is named: its kind and where it is.
    pub fn to_string(&self) -> (r: String)
        ensures
            r@ == source_text(*self),
    {
        match self {
            KnowledgeSource::Web { url, .. } => concat2("Web: ", url.as_str()),
            KnowledgeSource::Document { path, .. } => concat2("Document: ", path.as_str()),
            KnowledgeSource::Api { endpoint, .. } => concat2("API: ", endpoint.as_str()),
            KnowledgeSource::Git { repo_url, .. } => concat2("Git: ", repo_url.as_str()),
            KnowledgeSource::RSS { feed_url, .. } => concat2("RSS: ", feed_url.as_str()),
        }
    }
}

} // verus!
