//! One store for suspended workflows, conversation threads, traces and
//! evaluation datasets, each kept apart by the resource it belongs to.
//! Instants are seconds since the Unix epoch.

use vstd::prelude::*;
use crate::error::AgentError;
use crate::strmap::StrMap;
use crate::text::{concat2, push_str, str_eq};

verus! {

/// The resource that data belongs to: a namespace and an identifier.
#[derive(Debug, Clone, PartialEq, Eq, Hash)]
pub struct ResourceId {
    pub namespace: String,
    pub id: String,
}

impl ResourceId {
    pub fn new(namespace: &str, id: &str) -> (r: Self)
        ensures
            r.namespace@ == namespace@,
            r.id@ == id@,
    {
        ResourceId { namespace: String::from_str(namespace), id: String::from_str(id) }
    }

    /// The key of the resource: namespace and identifier apart by a colon.
    pub fn to_key(&self) -> (k: String)
        ensures
            k@ == self.namespace@ + ":"@ + self.id@,
    {
        let mut k = self.namespace.clone();
        push_str(&mut k, ":");
        push_str(&mut k, self.id.as_str());
        k
    }
}

/// Whether two resources are the same one.
pub open spec fn same_resource(a: ResourceId, b: ResourceId) -> bool {
    a.namespace@ == b.namespace@ && a.id@ == b.id@
}

fn same_resource_exec(a: &ResourceId, b: &ResourceId) -> (r: bool)
    ensures
        r == same_resource(*a, *b),
{
    str_eq(a.namespace.as_str(), b.namespace.as_str()) && str_eq(a.id.as_str(), b.id.as_str())
}

/// Why a stored workflow was suspended.
#[derive(Debug, Clone)]
pub enum SuspendReason {
    UserPause,
    WaitingForEvent { event_id: String, timeout_ms: Option<u64> },
    Sleep { duration_ms: u64 },
    SleepUntil { timestamp_secs: u64 },
    ExternalDependency { dependency_type: String, details: String },
}

/// What resumes a stored workflow.
#[derive(Debug, Clone)]
pub enum ResumeCondition {
    ManualResume,
    EventReceived { event_id: String },
    TimeElapsed,
    ExternalConditionMet { condition: String },
}

/// A workflow kept while it is suspended.
#[derive(Debug)]
pub struct SuspendedWorkflow {
    pub workflow_id: String,
    pub resource_id: ResourceId,
    pub workflow_name: String,
    pub current_step: usize,
    pub context_state: serde_json::Value,
    pub metadata: StrMap<String>,
    pub suspended_at_secs: u64,
    pub suspend_reason: SuspendReason,
    pub resume_conditions: Vec<ResumeCondition>,
}

/// A conversation thread.
#[derive(Debug, Clone)]
pub struct MemoryThread {
    pub thread_id: String,
    pub resource_id: ResourceId,
    pub title: String,
    pub created_at_secs: u64,
    pub updated_at_secs: u64,
    pub metadata: StrMap<String>,
    pub message_count: usize,
}

/// Who wrote a message.
#[derive(Debug, Clone, Copy, PartialEq, Eq, Structural)]
pub enum MessageRole {
    User,
    Assistant,
    System,
    Tool,
}

/// A message of a conversation thread.
#[derive(Debug, Clone)]
pub struct MemoryMessage {
    pub message_id: String,
    pub thread_id: String,
    pub resource_id: ResourceId,
    pub role: MessageRole,
    pub content: String,
    pub timestamp_secs: u64,
    pub metadata: StrMap<String>,
    pub parent_message_id: Option<String>,
}

/// How a traced operation ended.
#[derive(Debug, Clone)]
pub enum TraceStatus {
    Success,
    Error { message: String },
    Timeout,
    Cancelled,
}

/// An event within a trace.
#[derive(Debug, Clone)]
pub struct TraceEvent {
    pub name: String,
    pub timestamp_secs: u64,
    pub attributes: StrMap<String>,
}

/// A traced operation.
#[derive(Debug, Clone)]
pub struct TraceData {
    pub trace_id: String,
    pub span_id: String,
    pub parent_span_id: Option<String>,
    pub resource_id: ResourceId,
    pub operation_name: String,
    pub start_time_secs: u64,
    pub end_time_secs: Option<u64>,
    pub duration_ms: Option<u64>,
    pub status: TraceStatus,
    pub attributes: StrMap<String>,
    pub events: Vec<TraceEvent>,
    pub component: String,
}

/// A dataset for evaluations.
#[derive(Debug, Clone)]
pub struct EvalDataset {
    pub dataset_id: String,
    pub name: String,
    pub description: String,
    pub resource_id: ResourceId,
    pub created_at_secs: u64,
    pub version: String,
    pub metadata: StrMap<String>,
}

/// How much the store holds.
#[derive(Debug, Clone, Copy, PartialEq, Eq, Structural)]
pub struct StorageStats {
    pub suspended_workflows: usize,
    pub memory_threads: usize,
    pub memory_messages: usize,
    pub traces: usize,
    pub eval_datasets: usize,
    pub eval_runs: usize,
    pub eval_scores: usize,
    pub storage_size_bytes: u64,
}

/// How long data is kept, in seconds.
#[derive(Debug, Clone, Copy, PartialEq, Eq, Structural)]
pub struct RetentionPolicy {
    pub traces_retention_secs: u64,
    pub memory_retention_secs: u64,
    pub eval_retention_secs: u64,
    pub suspended_workflows_retention_secs: u64,
}

/// What a cleanup removed.
#[derive(Debug, Clone, Copy, PartialEq, Eq, Structural)]
pub struct CleanupStats {
    pub traces_deleted: usize,
    pub messages_deleted: usize,
    pub workflows_deleted: usize,
    pub eval_data_deleted: usize,
    pub bytes_freed: u64,
}

/// Which traces a query keeps.
#[derive(Debug, Clone)]
pub struct TraceFilters {
    pub component: Option<String>,
    pub operation_name: Option<String>,
    pub status: Option<TraceStatus>,
    pub start_time_after_secs: Option<u64>,
    pub start_time_before_secs: Option<u64>,
    pub min_duration_ms: Option<u64>,
    pub max_duration_ms: Option<u64>,
}

impl Default for TraceFilters {
    /// No filter at all.
    fn default() -> (f: Self)
        ensures
            f.component is None,
            f.operation_name is None,
            f.status is None,
            f.start_time_after_secs is None,
            f.start_time_before_secs is None,
            f.min_duration_ms is None,
            f.max_duration_ms is None,
    {
        TraceFilters {
            component: None,
            operation_name: None,
            status: None,
            start_time_after_secs: None,
            start_time_before_secs: None,
            min_duration_ms: None,
            max_duration_ms: None,
        }
    }
}

/// The message of a workflow that is not stored.
pub open spec fn workflow_not_found(id: Seq<char>) -> Seq<char> {
    "Workflow "@ + id + " not found"@
}

/// The store, held in memory.
#[derive(Debug)]
pub struct InMemoryUnifiedStorage {
    pub workflows: StrMap<SuspendedWorkflow>,
    pub threads: StrMap<MemoryThread>,
    pub messages: StrMap<Vec<MemoryMessage>>,
    pub traces: StrMap<TraceData>,
    pub datasets: StrMap<EvalDataset>,
}

/// The values of `vals` that belong to resource `r`, in order.
pub open spec fn threads_of(vals: Seq<MemoryThread>, r: ResourceId) -> Seq<MemoryThread>
    decreases vals.len(),
{
    if vals.len() == 0 {
        Seq::empty()
    } else {
        let rest = threads_of(vals.drop_last(), r);
        if same_resource(vals.last().resource_id, r) { rest.push(vals.last()) } else { rest }
    }
}

/// The traces among `vals` of resource `r` that pass the component and
/// operation filters, in order.
pub open spec fn traces_matching(vals: Seq<TraceData>, r: ResourceId, component: Option<String>, operation: Option<String>) -> Seq<TraceData>
    decreases vals.len(),
{
    if vals.len() == 0 {
        Seq::empty()
    } else {
        let rest = traces_matching(vals.drop_last(), r, component, operation);
        let t = vals.last();
        let keep = same_resource(t.resource_id, r)
            && (component matches Some(c) ==> t.component@ == c@)
            && (operation matches Some(o) ==> t.operation_name@ == o@);
        if keep { rest.push(t) } else { rest }
    }
}

/// The number of traces among `vals` that started before `t`.
pub open spec fn count_started_before(vals: Seq<TraceData>, t: u64) -> nat
    decreases vals.len(),
{
    if vals.len() == 0 {
        0
    } else {
        count_started_before(vals.drop_last(), t) + if vals.last().start_time_secs < t { 1nat } else { 0nat }
    }
}

/// The derefs of a sequence of references.
pub open spec fn derefs<T>(s: Seq<&T>) -> Seq<T> {
    s.map_values(|x: &T| *x)
}

impl InMemoryUnifiedStorage {
    /// An empty store.
    pub fn new() -> (s: Self)
        ensures
            s.workflows@ == Map::<Seq<char>, SuspendedWorkflow>::empty(),
            s.threads@ == Map::<Seq<char>, MemoryThread>::empty(),
            s.messages@ == Map::<Seq<char>, Vec<MemoryMessage>>::empty(),
            s.traces@ == Map::<Seq<char>, TraceData>::empty(),
            s.datasets@ == Map::<Seq<char>, EvalDataset>::empty(),
    {
        InMemoryUnifiedStorage {
            workflows: StrMap::new(),
            threads: StrMap::new(),
            messages: StrMap::new(),
            traces: StrMap::new(),
            datasets: StrMap::new(),
        }
    }

    /// Keeps a suspended workflow under its identifier.
    pub fn store_suspended_workflow(&mut self, workflow: SuspendedWorkflow)
        ensures
            final(self).workflows@ == old(self).workflows@.insert(workflow.workflow_id@, workflow),
            final(self).threads@ == old(self).threads@,
            final(self).traces@ == old(self).traces@,
    {
        self.workflows.insert(workflow.workflow_id.clone(), workflow);
    }

    /// The suspended workflow kept under `id`.
    pub fn get_suspended_workflow(&self, id: &str) -> (r: Option<&SuspendedWorkflow>)
        ensures
            r == (if self.workflows@.contains_key(id@) { Some(&self.workflows@[id@]) } else { None::<&SuspendedWorkflow> }),
    {
        self.workflows.get(id)
    }

    /// Takes the workflow kept under `id` out of the store to resume it.
    pub fn resume_workflow(&mut self, id: &str) -> (r: Result<SuspendedWorkflow, AgentError>)
        ensures
            final(self).workflows@ == old(self).workflows@.remove(id@),
            old(self).workflows@.contains_key(id@) ==> r == Ok::<SuspendedWorkflow, AgentError>(old(self).workflows@[id@]),
            !old(self).workflows@.contains_key(id@) ==> (r matches Err(AgentError::Config(m)) && m@ == workflow_not_found(id@)),
    {
        match self.workflows.remove(id) {
            Some(w) => Ok(w),
            None => {
                let mut m = concat2("Workflow ", id);
                push_str(&mut m, " not found");
                Err(AgentError::Config(m))
            },
        }
    }

    /// Drops the workflow kept under `id`.
    pub fn delete_suspended_workflow(&mut self, id: &str)
        ensures
            final(self).workflows@ == old(self).workflows@.remove(id@),
    {
        self.workflows.remove(id);
    }

    /// Keeps a conversation thread under its identifier.
    pub fn create_memory_thread(&mut self, thread: MemoryThread)
        ensures
            final(self).threads@ == old(self).threads@.insert(thread.thread_id@, thread),
            final(self).messages@ == old(self).messages@,
            final(self).workflows@ == old(self).workflows@,
    {
        self.threads.insert(thread.thread_id.clone(), thread);
    }

    /// The thread kept under `id`.
    pub fn get_memory_thread(&self, id: &str) -> (r: Option<&MemoryThread>)
        ensures
            r == (if self.threads@.contains_key(id@) { Some(&self.threads@[id@]) } else { None::<&MemoryThread> }),
    {
        self.threads.get(id)
    }

    /// The threads of a resource, in store order.
    pub fn list_memory_threads(&self, resource_id: &ResourceId) -> (r: Vec<&MemoryThread>)
        ensures
            derefs(r@) == threads_of(self.threads.value_seq(), *resource_id),
    {
        let n = self.threads.len();
        let mut r: Vec<&MemoryThread> = Vec::new();
        let mut i: usize = 0;
        while i < n
            invariant
                n == self.threads.value_seq().len(),
                i <= n,
                derefs(r@) == threads_of(self.threads.value_seq().take(i as int), *resource_id),
            decreases n - i,
        {
            proof {
                assert(self.threads.value_seq().take(i + 1).drop_last() =~= self.threads.value_seq().take(i as int));
            }
            let (_, t) = self.threads.entry_at(i);
            if same_resource_exec(&t.resource_id, resource_id) {
                let ghost before = r@;
                r.push(t);
                proof {
                    assert(derefs(r@) =~= derefs(before).push(*t));
                }
            }
            i = i + 1;
        }
        proof {
            assert(self.threads.value_seq().take(n as int) =~= self.threads.value_seq());
        }
        r
    }

    /// Appends a message to the messages of its thread.
    pub fn add_memory_message(&mut self, message: MemoryMessage)
        ensures
            final(self).messages@.dom() == old(self).messages@.dom().insert(message.thread_id@),
            final(self).messages@[message.thread_id@]@ == (if old(self).messages@.contains_key(message.thread_id@) {
                old(self).messages@[message.thread_id@]@
            } else {
                Seq::empty()
            }).push(message),
            forall|k: Seq<char>| k != message.thread_id@ && old(self).messages@.contains_key(k)
                ==> final(self).messages@[k] == old(self).messages@[k],
            final(self).threads@ == old(self).threads@,
    {
        let key = message.thread_id.clone();
        let mut list = match self.messages.remove(key.as_str()) {
            Some(l) => l,
            None => Vec::new(),
        };
        list.push(message);
        self.messages.insert(key, list);
        proof {
            assert(self.messages@.dom() =~= old(self).messages@.dom().insert(key@));
        }
    }

    /// The first `limit` messages of a thread, or all without a limit.
    pub fn get_memory_messages(&self, thread_id: &str, limit: Option<usize>) -> (r: Vec<&MemoryMessage>)
        ensures
            !self.messages@.contains_key(thread_id@) ==> r@.len() == 0,
            self.messages@.contains_key(thread_id@) ==> {
                let all = self.messages@[thread_id@]@;
                derefs(r@) == match limit {
                    Some(l) => if all.len() > l { all.take(l as int) } else { all },
                    None => all,
                }
            },
    {
        let mut r: Vec<&MemoryMessage> = Vec::new();
        match self.messages.get(thread_id) {
            Some(list) => {
                let n = match limit {
                    Some(l) => if list.len() > l { l } else { list.len() },
                    None => list.len(),
                };
                let mut i: usize = 0;
                while i < n
                    invariant
                        n <= list@.len(),
                        i <= n,
                        derefs(r@) == list@.take(i as int),
                    decreases n - i,
                {
                    let ghost before = r@;
                    r.push(&list[i]);
                    proof {
                        assert(derefs(r@) =~= derefs(before).push(list@[i as int]));
                        assert(derefs(r@) =~= list@.take(i + 1));
                    }
                    i = i + 1;
                }
                proof {
                    assert(list@.take(list@.len() as int) =~= list@);
                }
            },
            None => {},
        }
        r
    }

    /// Drops a thread and its messages.
    pub fn delete_memory_thread(&mut self, thread_id: &str)
        ensures
            final(self).threads@ == old(self).threads@.remove(thread_id@),
            final(self).messages@ == old(self).messages@.remove(thread_id@),
    {
        self.threads.remove(thread_id);
        self.messages.remove(thread_id);
    }

    /// Keeps a trace under its identifier.
    pub fn store_trace(&mut self, trace: TraceData)
        ensures
            final(self).traces@ == old(self).traces@.insert(trace.trace_id@, trace),
            final(self).threads@ == old(self).threads@,
    {
        self.traces.insert(trace.trace_id.clone(), trace);
    }

    /// The trace kept under `id`.
    pub fn get_trace(&self, id: &str) -> (r: Option<&TraceData>)
        ensures
            r == (if self.traces@.contains_key(id@) { Some(&self.traces@[id@]) } else { None::<&TraceData> }),
    {
        self.traces.get(id)
    }

    /// The traces of a resource that pass the component and operation
    /// filters, in store order; the other filters are not applied.
    pub fn query_traces(&self, resource_id: &ResourceId, filters: &TraceFilters) -> (r: Vec<&TraceData>)
        ensures
            derefs(r@) == traces_matching(self.traces.value_seq(), *resource_id, filters.component, filters.operation_name),
    {
        let n = self.traces.len();
        let mut r: Vec<&TraceData> = Vec::new();
        let mut i: usize = 0;
        while i < n
            invariant
                n == self.traces.value_seq().len(),
                i <= n,
                derefs(r@) == traces_matching(self.traces.value_seq().take(i as int), *resource_id, filters.component, filters.operation_name),
            decreases n - i,
        {
            proof {
                assert(self.traces.value_seq().take(i + 1).drop_last() =~= self.traces.value_seq().take(i as int));
            }
            let (_, t) = self.traces.entry_at(i);
            let keep_component = match &filters.component {
                Some(c) => str_eq(t.component.as_str(), c.as_str()),
                None => true,
            };
            let keep_operation = match &filters.operation_name {
                Some(o) => str_eq(t.operation_name.as_str(), o.as_str()),
                None => true,
            };
            if same_resource_exec(&t.resource_id, resource_id) && keep_component && keep_operation {
                let ghost before = r@;
                r.push(t);
                proof {
                    assert(derefs(r@) =~= derefs(before).push(*t));
                }
            }
            i = i + 1;
        }
        proof {
            assert(self.traces.value_seq().take(n as int) =~= self.traces.value_seq());
        }
        r
    }

    /// Drops the traces that started before `timestamp_secs`, returning how
    /// many went.
    pub fn delete_traces_before(&mut self, timestamp_secs: u64) -> (n: usize)
        ensures
            n == count_started_before(old(self).traces.value_seq(), timestamp_secs),
            final(self).traces@.dom().subset_of(old(self).traces@.dom()),
            forall|k: Seq<char>| #[trigger] final(self).traces@.contains_key(k) ==> final(self).traces@[k] == old(self).traces@[k]
                && final(self).traces@[k].start_time_secs >= timestamp_secs,
            forall|k: Seq<char>| old(self).traces@.contains_key(k) && #[trigger] old(self).traces@[k].start_time_secs >= timestamp_secs
                ==> final(self).traces@.contains_key(k),
    {
        let keys = self.traces.keys();
        let ghost old_traces = self.traces@;
        let ghost old_vals = self.traces.value_seq();
        let ghost old_keys = self.traces.key_seq();
        let mut removed: usize = 0;
        let mut i: usize = 0;
        self.traces.entry_facts();
        proof {
            assert forall|j: int| 0 <= j < old_keys.len() implies old_traces.contains_key(old_keys[j]) && old_traces[old_keys[j]] == old_vals[j] by {
                assert(self.traces@.contains_key(self.traces.key_seq()[j]));
            }
        }
        while i < keys.len()
            invariant
                keys@.len() == old_keys.len(),
                old_vals.len() == old_keys.len(),
                forall|j: int| 0 <= j < keys@.len() ==> keys@[j]@ == old_keys[j],
                old_keys.no_duplicates(),
                forall|j: int| 0 <= j < old_keys.len() ==> old_traces.contains_key(old_keys[j]) && old_traces[old_keys[j]] == old_vals[j],
                forall|k: Seq<char>| old_traces.contains_key(k) ==> old_keys.contains(k),
                i <= keys@.len(),
                removed == count_started_before(old_vals.take(i as int), timestamp_secs),
                removed <= i,
                self.traces@.dom().subset_of(old_traces.dom()),
                forall|k: Seq<char>| #[trigger] self.traces@.contains_key(k) ==> self.traces@[k] == old_traces[k],
                forall|j: int| 0 <= j < i ==> (#[trigger] self.traces@.contains_key(old_keys[j]) <==> old_vals[j].start_time_secs >= timestamp_secs),
                forall|j: int| i <= j < old_keys.len() ==> #[trigger] self.traces@.contains_key(old_keys[j]),
            decreases keys@.len() - i,
        {
            proof {
                assert(old_vals.take(i + 1).drop_last() =~= old_vals.take(i as int));
            }
            let early = match self.traces.get(keys[i].as_str()) {
                Some(t) => t.start_time_secs < timestamp_secs,
                None => false,
            };
            proof {
                assert(self.traces@.contains_key(old_keys[i as int]));
            }
            if early {
                self.traces.remove(keys[i].as_str());
                removed = removed + 1;
                proof {
                    assert forall|j: int| i < j < old_keys.len() implies #[trigger] self.traces@.contains_key(old_keys[j]) by {
                        assert(old_keys[j] != old_keys[i as int]);
                    }
                    assert forall|j: int| 0 <= j < i implies (#[trigger] self.traces@.contains_key(old_keys[j]) <==> old_vals[j].start_time_secs >= timestamp_secs) by {
                        assert(old_keys[j] != old_keys[i as int]);
                    }
                }
            }
            i = i + 1;
        }
        proof {
            assert(old_vals.take(old_vals.len() as int) =~= old_vals);
            assert forall|k: Seq<char>| old_traces.contains_key(k) && #[trigger] old_traces[k].start_time_secs >= timestamp_secs
                implies self.traces@.contains_key(k) by {
                let j = choose|j: int| 0 <= j < old_keys.len() && old_keys[j] == k;
            }
            assert forall|k: Seq<char>| #[trigger] self.traces@.contains_key(k) implies self.traces@[k].start_time_secs >= timestamp_secs by {
                let j = choose|j: int| 0 <= j < old_keys.len() && old_keys[j] == k;
            }
        }
        removed
    }

    /// Keeps an evaluation dataset under its identifier.
    pub fn create_eval_dataset(&mut self, dataset: EvalDataset)
        ensures
            final(self).datasets@ == old(self).datasets@.insert(dataset.dataset_id@, dataset),
    {
        self.datasets.insert(dataset.dataset_id.clone(), dataset);
    }

    /// The dataset kept under `id`.
    pub fn get_eval_dataset(&self, id: &str) -> (r: Option<&EvalDataset>)
        ensures
            r == (if self.datasets@.contains_key(id@) { Some(&self.datasets@[id@]) } else { None::<&EvalDataset> }),
    {
        self.datasets.get(id)
    }
}

} // verus!
