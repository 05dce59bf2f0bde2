//! A visual workflow as it is stored.

use vstd::prelude::*;

verus! {

/// A visual workflow as a row of the store: its nodes and connections as
/// JSON texts, its instants as RFC 3339 texts.
#[derive(Debug, Clone)]
pub struct StoredWorkflow {
    pub id: String,
    pub name: String,
    pub description: String,
    pub nodes_json: String,
    pub connections_json: String,
    pub created_at: String,
    pub updated_at: String,
}

} // verus!
