//! When the knowledge of a role needs consolidating or pruning.

use vstd::prelude::*;

verus! {

/// What managing a role's knowledge did, or found to be needed.
#[derive(Debug, Clone, Copy, PartialEq, Eq, Structural)]
pub enum ManagementResult {
    NoActionNeeded { current_count: usize },
    ConsolidationNeeded { current_count: usize, threshold: usize },
    Pruned { removed_count: usize, remaining_count: usize },
}

/// What to do with a role's knowledge.
#[derive(Debug, Clone, Copy, PartialEq, Eq, Structural)]
pub enum ManagementPlan {
    /// Nothing more to do; this is the result.
    Decided(ManagementResult),
    /// Prune down to the soft limit, then report with `pruned_result`.
    Prune,
}

/// What to do with `count` entries: nothing below the soft limit, prune at
/// the hard limit, and in between consolidate where that is enabled.
pub fn plan_management(count: usize, soft_limit: usize, hard_limit: usize, enable_auto_consolidation: bool) -> (p: ManagementPlan)
    ensures
        count < soft_limit ==> p == ManagementPlan::Decided(ManagementResult::NoActionNeeded { current_count: count }),
        count >= soft_limit && count >= hard_limit ==> p == ManagementPlan::Prune,
        count >= soft_limit && count < hard_limit && enable_auto_consolidation ==> p == ManagementPlan::Decided(
            ManagementResult::ConsolidationNeeded { current_count: count, threshold: soft_limit }),
        count >= soft_limit && count < hard_limit && !enable_auto_consolidation ==> p == ManagementPlan::Decided(
            ManagementResult::NoActionNeeded { current_count: count }),
{
    if count < soft_limit {
        ManagementPlan::Decided(ManagementResult::NoActionNeeded { current_count: count })
    } else if count >= hard_limit {
        ManagementPlan::Prune
    } else if enable_auto_consolidation {
        ManagementPlan::Decided(ManagementResult::ConsolidationNeeded { current_count: count, threshold: soft_limit })
    } else {
        ManagementPlan::Decided(ManagementResult::NoActionNeeded { current_count: count })
    }
}

/// The result of pruning `removed` of `count` entries.
pub fn pruned_result(count: usize, removed: usize) -> (r: ManagementResult)
    requires
        removed <= count,
    ensures
        r == (ManagementResult::Pruned { removed_count: removed, remaining_count: (count - removed) as usize }),
{
    ManagementResult::Pruned { removed_count: removed, remaining_count: count - removed }
}

/// How many of `count` entries pruning removes to keep `keep`.
pub fn prune_count(count: usize, keep: usize) -> (r: usize)
    ensures
        r == (if count > keep { count - keep } else { 0 }),
{
    if count > keep { count - keep } else { 0 }
}

} // verus!
