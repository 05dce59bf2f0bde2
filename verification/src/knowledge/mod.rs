//! Knowledge from outside sources: how it is chunked, fetched and kept.

pub mod chunker;
pub mod consolidator;
pub mod fetcher;
pub mod manager;
pub mod types;
