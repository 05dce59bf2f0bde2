//! What the memory store reports of itself.

use vstd::prelude::*;

verus! {

/// The size of the memory store.
#[derive(Debug, Clone, Copy, PartialEq, Eq, Structural)]
pub struct MemoryStats {
    pub total_memories: usize,
    pub embedding_dimension: usize,
    pub store_size_bytes: Option<usize>,
}

/// The statistics reported where the store cannot give its own.
pub fn fallback_memory_stats(embedding_dimension: usize) -> (s: MemoryStats)
    ensures
        s == (MemoryStats { total_memories: 0, embedding_dimension, store_size_bytes: None }),
{
    MemoryStats { total_memories: 0, embedding_dimension, store_size_bytes: None }
}

} // verus!
