//! Configuration: MCP servers, workflows, and the defaults of the learning
//! settings.

use vstd::prelude::*;
use crate::strmap::StrMap;
use crate::text::{contains_seq, lowercased, starts_with_seq, str_contains, to_lowercase, views};

verus! {

/// How one MCP server is reached.
#[derive(Debug, Clone)]
pub struct McpServerConfig {
    pub transport: String,
    pub url: Option<String>,
    pub command: Option<Vec<String>>,
    pub env: Option<StrMap<String>>,
    pub timeout: Option<u64>,
    pub auth_token: Option<String>,
    pub enabled: bool,
}

/// The MCP servers, by name, and how tools are called.
#[derive(Debug, Clone)]
pub struct McpConfig {
    pub servers: StrMap<McpServerConfig>,
    pub default_timeout: u64,
    pub max_concurrent_calls: usize,
    pub enable_caching: bool,
}

impl Default for McpConfig {
    /// No servers, a 30 second timeout, five calls at a time, with caching.
    fn default() -> (c: Self)
        ensures
            c.servers@ == Map::<Seq<char>, McpServerConfig>::empty(),
            c.default_timeout == 30,
            c.max_concurrent_calls == 5,
            c.enable_caching,
    {
        McpConfig { servers: StrMap::new(), default_timeout: 30, max_concurrent_calls: 5, enable_caching: true }
    }
}

impl McpConfig {
    /// Adds or replaces the server `name`.
    pub fn add_server(&mut self, name: String, config: McpServerConfig)
        ensures
            final(self).servers@ == old(self).servers@.insert(name@, config),
            final(self).default_timeout == old(self).default_timeout,
            final(self).max_concurrent_calls == old(self).max_concurrent_calls,
            final(self).enable_caching == old(self).enable_caching,
    {
        self.servers.insert(name, config);
    }

    /// Removes the server `name`, returning it if it was there.
    pub fn remove_server(&mut self, name: &str) -> (r: Option<McpServerConfig>)
        ensures
            final(self).servers@ == old(self).servers@.remove(name@),
            r == (if old(self).servers@.contains_key(name@) { Some(old(self).servers@[name@]) } else { None::<McpServerConfig> }),
            final(self).default_timeout == old(self).default_timeout,
            final(self).max_concurrent_calls == old(self).max_concurrent_calls,
            final(self).enable_caching == old(self).enable_caching,
    {
        self.servers.remove(name)
    }
}

/// How workflows are suspended and checkpointed.
#[derive(Debug, Clone, Copy, PartialEq, Eq, Structural)]
pub struct WorkflowConfig {
    pub enable_suspend_resume: bool,
    pub auto_checkpoint: bool,
    pub checkpoint_interval: usize,
    pub max_snapshots: usize,
    pub snapshot_retention_days: i64,
    pub debug_steps: bool,
}

impl Default for WorkflowConfig {
    /// No suspension or checkpoints; an interval of five steps, ten
    /// snapshots kept for a week.
    fn default() -> (c: Self)
        ensures
            c == (WorkflowConfig {
                enable_suspend_resume: false,
                auto_checkpoint: false,
                checkpoint_interval: 5,
                max_snapshots: 10,
                snapshot_retention_days: 7,
                debug_steps: false,
            }),
    {
        WorkflowConfig {
            enable_suspend_resume: false,
            auto_checkpoint: false,
            checkpoint_interval: 5,
            max_snapshots: 10,
            snapshot_retention_days: 7,
            debug_steps: false,
        }
    }
}

/// Why the parts of a configuration that hold no measure are invalid.
#[derive(Debug, Clone, Copy, PartialEq, Eq, Structural)]
pub enum ConfigProblem {
    InvalidOllamaUrl,
    EmptyTextModel,
    EmptyEmbeddingModel,
    ZeroEmbeddingDimension,
    EmptyAgentName,
    ZeroHistoryLength,
}

/// The first problem among the checks, in the order they are made.
pub open spec fn first_problem(ollama_url: Seq<char>, text_model: Seq<char>, embedding_model: Seq<char>,
    embedding_dimension: usize, agent_name: Seq<char>, max_history_length: usize) -> Option<ConfigProblem> {
    if !starts_with_seq(ollama_url, "http"@) {
        Some(ConfigProblem::InvalidOllamaUrl)
    } else if text_model.len() == 0 {
        Some(ConfigProblem::EmptyTextModel)
    } else if embedding_model.len() == 0 {
        Some(ConfigProblem::EmptyEmbeddingModel)
    } else if embedding_dimension == 0 {
        Some(ConfigProblem::ZeroEmbeddingDimension)
    } else if agent_name.len() == 0 {
        Some(ConfigProblem::EmptyAgentName)
    } else if max_history_length == 0 {
        Some(ConfigProblem::ZeroHistoryLength)
    } else {
        None
    }
}

/// Checks the parts of an agent configuration that hold no measure: the
/// Ollama URL is an HTTP one, the model and agent names are given, and the
/// embedding dimension and history length are positive.
pub fn check_config(ollama_url: &str, text_model: &str, embedding_model: &str, embedding_dimension: usize,
    agent_name: &str, max_history_length: usize) -> (r: Option<ConfigProblem>)
    ensures
        r == first_problem(ollama_url@, text_model@, embedding_model@, embedding_dimension, agent_name@, max_history_length),
{
    if !crate::text::str_starts_with(ollama_url, "http") {
        Some(ConfigProblem::InvalidOllamaUrl)
    } else if text_model.unicode_len() == 0 {
        Some(ConfigProblem::EmptyTextModel)
    } else if embedding_model.unicode_len() == 0 {
        Some(ConfigProblem::EmptyEmbeddingModel)
    } else if embedding_dimension == 0 {
        Some(ConfigProblem::ZeroEmbeddingDimension)
    } else if agent_name.unicode_len() == 0 {
        Some(ConfigProblem::EmptyAgentName)
    } else if max_history_length == 0 {
        Some(ConfigProblem::ZeroHistoryLength)
    } else {
        None
    }
}

/// The soft limit of best practices.
pub fn default_max_best_practices() -> (r: usize)
    ensures
        r == 100,
{
    100
}

/// The hard limit of best practices.
pub fn default_hard_limit_best_practices() -> (r: usize)
    ensures
        r == 500,
{
    500
}

/// The most failure lessons kept for a role.
pub fn default_max_failure_lessons() -> (r: usize)
    ensures
        r == 50,
{
    50
}

/// The least reuse count of a practice that is kept.
pub fn default_min_reuse_count() -> (r: u32)
    ensures
        r == 2,
{
    2
}

/// The age in days after which an unused practice goes.
pub fn default_max_age_days() -> (r: i64)
    ensures
        r == 90,
{
    90
}

/// Yes.
pub fn default_true() -> (r: bool)
    ensures
        r,
{
    true
}

/// The window in days over which metrics are tracked.
pub fn default_metric_window() -> (r: i64)
    ensures
        r == 30,
{
    30
}

/// How deep reflection goes.
pub fn default_reflection_depth() -> (r: String)
    ensures
        r@ == "detailed"@,
{
    String::from_str("detailed")
}

/// How many memories are retrieved.
pub fn default_memory_retrieval_count() -> (r: usize)
    ensures
        r == 5,
{
    5
}

/// How deep web crawls go.
pub fn default_crawl_depth() -> (r: u32)
    ensures
        r == 2,
{
    2
}

/// The most pages taken from one domain.
pub fn default_max_pages() -> (r: usize)
    ensures
        r == 50,
{
    50
}

/// The size of a text chunk.
pub fn default_chunk_size() -> (r: usize)
    ensures
        r == 1000,
{
    1000
}

/// How much consecutive chunks overlap.
pub fn default_chunk_overlap() -> (r: usize)
    ensures
        r == 200,
{
    200
}

/// Whether one of the keywords, lowercased, occurs in the lowercased task.
pub open spec fn keyword_matches(task: Seq<char>, keywords: Seq<Seq<char>>) -> bool {
    exists|k: int| 0 <= k < keywords.len() && contains_seq(lowercased(task), lowercased(#[trigger] keywords[k]))
}

/// Which task model serves `task`: the one named so; else the first, in
/// order, one of whose keywords the task mentions; else none, and the
/// default model serves it. `keywords` gives each task model's keywords by
/// name.
pub fn select_task_model(task: &str, keywords: &StrMap<Vec<String>>) -> (r: Option<String>)
    ensures
        keywords@.contains_key(task@) ==> (r matches Some(n) && n@ == task@),
        !keywords@.contains_key(task@) ==> match r {
            Some(n) => exists|i: int| 0 <= i < keywords.key_seq().len() && keywords.key_seq()[i] == n@
                && keyword_matches(task@, views(keywords.value_seq()[i]@))
                && forall|j: int| 0 <= j < i ==> !keyword_matches(task@, views(#[trigger] keywords.value_seq()[j]@)),
            None => forall|j: int| 0 <= j < keywords.value_seq().len() ==> !keyword_matches(task@, views(#[trigger] keywords.value_seq()[j]@)),
        },
{
    if keywords.contains_key(task) {
        return Some(String::from_str(task));
    }
    let lower = to_lowercase(task);
    let n = keywords.len();
    let mut i: usize = 0;
    while i < n
        invariant
            n == keywords.value_seq().len(),
            n == keywords.key_seq().len(),
            i <= n,
            lower@ == lowercased(task@),
            !keywords@.contains_key(task@),
            forall|j: int| 0 <= j < i ==> !keyword_matches(task@, views(#[trigger] keywords.value_seq()[j]@)),
        decreases n - i,
    {
        let (name, kws) = keywords.entry_at(i);
        let mut k: usize = 0;
        while k < kws.len()
            invariant
                k <= kws@.len(),
                lower@ == lowercased(task@),
                !keywords@.contains_key(task@),
                i < n,
                n == keywords.key_seq().len(),
                n == keywords.value_seq().len(),
                name@ == keywords.key_seq()[i as int],
                *kws == keywords.value_seq()[i as int],
                forall|j: int| 0 <= j < i ==> !keyword_matches(task@, views(#[trigger] keywords.value_seq()[j]@)),
                forall|m: int| 0 <= m < k ==> !contains_seq(lowercased(task@), lowercased(#[trigger] views(kws@)[m])),
            decreases kws@.len() - k,
        {
            let kw = to_lowercase(kws[k].as_str());
            if str_contains(lower.as_str(), kw.as_str()) {
                proof {
                    assert(views(kws@)[k as int] == kws@[k as int]@);
                    assert(keyword_matches(task@, views(kws@)));
                }
                return Some(name.clone());
            }
            proof {
                assert(views(kws@)[k as int] == kws@[k as int]@);
            }
            k = k + 1;
        }
        proof {
            assert(!keyword_matches(task@, views(keywords.value_seq()[i as int]@)));
        }
        i = i + 1;
    }
    None
}

} // verus!
