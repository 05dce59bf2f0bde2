//! Workflow state: the context that steps read and change, the decisions
//! they take, and what a run of the engine returns.

pub mod engine;
pub mod steps;

use vstd::prelude::*;
use crate::llm::Message;
use crate::mcp::{ToolCall, ToolResult};
use crate::strmap::StrMap;
use crate::json::{json_shape, json_shape_of, JsonShape};
use crate::text::{str_eq, views};

verus! {

/// What the workflow reads of a memory that was retrieved for it.
#[derive(Debug, Clone)]
pub struct MemoryRecall {
    pub content: String,
}

/// Why a workflow was suspended. Instants are nanoseconds since the Unix
/// epoch.
#[derive(Debug, Clone)]
pub enum SuspendReason {
    Manual,
    WaitingForInput(String),
    WaitingForResource(String),
    RateLimit,
    Scheduled,
    Error(String),
    Sleep { duration_ms: u64, started_at: i64 },
    SleepUntil(i64),
    WaitingForEvent { event_id: String, timeout_ms: Option<u64>, started_at: i64 },
}

/// What a step decides.
#[derive(Debug)]
pub enum WorkflowDecision {
    Continue,
    Complete(String),
    Jump(String),
    ExecuteTools(Vec<ToolCall>),
    RetrieveMemories(String),
    Suspend(SuspendReason),
    WaitForInput(String),
    Sleep(u64),
    SleepUntil(i64),
    WaitForEvent { event_id: String, timeout_ms: Option<u64> },
}

/// How a conditional pause pauses.
#[derive(Debug, Clone)]
pub enum PauseType {
    Sleep(u64),
    SleepUntil(i64),
    WaitForEvent { event_id: String, timeout_ms: Option<u64> },
}

/// The two kinds of loop.
#[derive(Debug, Clone, Copy, PartialEq, Eq, Structural)]
pub enum LoopType {
    DoWhile,
    DoUntil,
}

/// The state handed from step to step.
#[derive(Debug, Clone)]
pub struct WorkflowContext {
    pub messages: Vec<Message>,
    pub memories: Vec<MemoryRecall>,
    pub available_tools: Vec<String>,
    pub tool_results: StrMap<ToolResult>,
    pub metadata: StrMap<String>,
    pub step_count: usize,
    pub max_steps: usize,
}

/// Whether `meta` maps `key` to the text `value`.
pub open spec fn meta_is(meta: Map<Seq<char>, String>, key: Seq<char>, value: Seq<char>) -> bool {
    meta.contains_key(key) && meta[key]@ == value
}

/// Whether `meta` maps `key` to the text `value`.
pub fn meta_equals(meta: &StrMap<String>, key: &str, value: &str) -> (r: bool)
    ensures
        r == meta_is(meta@, key@, value@),
{
    match meta.get(key) {
        Some(v) => str_eq(v.as_str(), value),
        None => false,
    }
}

impl WorkflowContext {
    /// An empty context that allows `max_steps` steps.
    pub fn new(max_steps: usize) -> (c: Self)
        ensures
            c.messages@.len() == 0,
            c.memories@.len() == 0,
            c.available_tools@.len() == 0,
            c.tool_results@ == Map::<Seq<char>, ToolResult>::empty(),
            c.metadata@ == Map::<Seq<char>, String>::empty(),
            c.step_count == 0,
            c.max_steps == max_steps,
    {
        WorkflowContext {
            messages: Vec::new(),
            memories: Vec::new(),
            available_tools: Vec::new(),
            tool_results: StrMap::new(),
            metadata: StrMap::new(),
            step_count: 0,
            max_steps,
        }
    }

    /// Appends a message to the conversation.
    pub fn add_message(&mut self, message: Message)
        ensures
            final(self).messages@ == old(self).messages@.push(message),
            final(self).memories@ == old(self).memories@,
            final(self).available_tools@ == old(self).available_tools@,
            final(self).tool_results@ == old(self).tool_results@,
            final(self).metadata@ == old(self).metadata@,
            final(self).step_count == old(self).step_count,
            final(self).max_steps == old(self).max_steps,
    {
        self.messages.push(message);
    }

    /// Records the result of the tool call `tool_call_id`.
    pub fn add_tool_result(&mut self, tool_call_id: String, result: ToolResult)
        ensures
            final(self).tool_results@ == old(self).tool_results@.insert(tool_call_id@, result),
            final(self).messages@ == old(self).messages@,
            final(self).memories@ == old(self).memories@,
            final(self).available_tools@ == old(self).available_tools@,
            final(self).metadata@ == old(self).metadata@,
            final(self).step_count == old(self).step_count,
            final(self).max_steps == old(self).max_steps,
    {
        self.tool_results.insert(tool_call_id, result);
    }

    /// Whether another step may run.
    pub fn should_continue(&self) -> (r: bool)
        ensures
            r == (self.step_count < self.max_steps),
    {
        self.step_count < self.max_steps
    }

    /// Counts one more step.
    pub fn increment_step(&mut self)
        requires
            old(self).step_count < usize::MAX,
        ensures
            final(self).step_count == old(self).step_count + 1,
            final(self).messages@ == old(self).messages@,
            final(self).memories@ == old(self).memories@,
            final(self).available_tools@ == old(self).available_tools@,
            final(self).tool_results@ == old(self).tool_results@,
            final(self).metadata@ == old(self).metadata@,
            final(self).max_steps == old(self).max_steps,
    {
        self.step_count = self.step_count + 1;
    }

    /// Whether the context may be suspended; nothing prevents it.
    pub fn can_suspend(&self) -> (r: bool)
        ensures
            r,
    {
        true
    }

    /// Notes that memories were retrieved for the latest input.
    pub fn mark_memories_retrieved(&mut self)
        ensures
            final(self).metadata@ == old(self).metadata@.insert("memories_retrieved"@, final(self).metadata@["memories_retrieved"@]),
            final(self).metadata@["memories_retrieved"@]@ == "true"@,
            final(self).messages@ == old(self).messages@,
            final(self).memories@ == old(self).memories@,
            final(self).available_tools@ == old(self).available_tools@,
            final(self).tool_results@ == old(self).tool_results@,
            final(self).step_count == old(self).step_count,
            final(self).max_steps == old(self).max_steps,
    {
        self.metadata.insert(String::from_str("memories_retrieved"), String::from_str("true"));
    }
}

/// Settings for checkpoints and snapshots.
#[derive(Debug, Clone)]
pub struct WorkflowSuspendConfig {
    pub auto_checkpoint: bool,
    pub checkpoint_interval: usize,
    pub max_snapshots: usize,
    pub snapshot_retention_secs: i64,
}

impl Default for WorkflowSuspendConfig {
    /// Checkpoints every third step, at most ten snapshots, kept a week.
    fn default() -> (c: Self)
        ensures
            c.auto_checkpoint,
            c.checkpoint_interval == 3,
            c.max_snapshots == 10,
            c.snapshot_retention_secs == 7 * 24 * 3600,
    {
        WorkflowSuspendConfig {
            auto_checkpoint: true,
            checkpoint_interval: 3,
            max_snapshots: 10,
            snapshot_retention_secs: 604800,
        }
    }
}

/// What a run of the workflow returns.
#[derive(Debug)]
pub struct WorkflowResult {
    pub response: String,
    pub context: WorkflowContext,
    pub completed: bool,
    pub steps_executed: usize,
    pub pending_tool_calls: Option<Vec<ToolCall>>,
    pub pending_memory_query: Option<String>,
}

impl WorkflowResult {
    /// The same result with tool calls waiting to run.
    pub fn with_tool_calls(self, tool_calls: Vec<ToolCall>) -> (r: Self)
        ensures
            r.pending_tool_calls == Some(tool_calls),
            r.response == self.response,
            r.context == self.context,
            r.completed == self.completed,
            r.steps_executed == self.steps_executed,
            r.pending_memory_query == self.pending_memory_query,
    {
        WorkflowResult { pending_tool_calls: Some(tool_calls), ..self }
    }

    /// The same result with a memory query waiting to run.
    pub fn with_memory_query(self, query: String) -> (r: Self)
        ensures
            r.pending_memory_query == Some(query),
            r.response == self.response,
            r.context == self.context,
            r.completed == self.completed,
            r.steps_executed == self.steps_executed,
            r.pending_tool_calls == self.pending_tool_calls,
    {
        WorkflowResult { pending_memory_query: Some(query), ..self }
    }

    /// Whether tool calls or a memory query wait to run.
    pub fn has_pending_actions(&self) -> (r: bool)
        ensures
            r == (self.pending_tool_calls is Some || self.pending_memory_query is Some),
    {
        self.pending_tool_calls.is_some() || self.pending_memory_query.is_some()
    }
}

/// Where snapshots are kept as files: one JSON file per snapshot in a
/// directory.
#[derive(Debug, Clone)]
pub struct FileSnapshotStorage {
    pub storage_dir: String,
}

impl FileSnapshotStorage {
    /// Snapshots kept in `storage_dir`.
    pub fn new(storage_dir: &str) -> (s: Self)
        ensures
            s.storage_dir@ == storage_dir@,
    {
        FileSnapshotStorage { storage_dir: String::from_str(storage_dir) }
    }

    /// The name of the file of snapshot `id` within the directory.
    pub fn snapshot_file_name(&self, id: &str) -> (r: String)
        ensures
            r@ == id@ + ".json"@,
    {
        let mut r = String::from_str(id);
        crate::text::push_str(&mut r, ".json");
        r
    }
}

/// The schema of the data a step takes or gives: its kind (`object`,
/// `array`, `string`, `number`, `boolean` or another), the type of each
/// property, the fields it requires, and free metadata.
#[derive(Debug, Clone)]
pub struct StepSchema {
    pub schema_type: String,
    pub properties: StrMap<String>,
    pub required: Vec<String>,
    pub metadata: StrMap<String>,
}

/// Whether data of shape `shape` meets a schema of kind `kind` that requires
/// the fields `required`: an object must hold each required field, the
/// other known kinds must match, and an unknown kind takes anything.
pub open spec fn schema_accepts(kind: Seq<char>, required: Seq<Seq<char>>, shape: JsonShape) -> bool {
    if kind == "object"@ {
        match shape {
            JsonShape::Object { keys } => forall|i: int| 0 <= i < required.len() ==> views(keys@).contains(#[trigger] required[i]),
            _ => false,
        }
    } else if kind == "array"@ {
        shape is Array
    } else if kind == "string"@ {
        shape is Text
    } else if kind == "number"@ {
        shape is Number
    } else if kind == "boolean"@ {
        shape is Boolean
    } else {
        true
    }
}

impl StepSchema {
    /// An object schema with no properties and no required fields.
    pub fn new_object() -> (s: Self)
        ensures
            s.schema_type@ == "object"@,
            s.properties@ == Map::<Seq<char>, String>::empty(),
            s.required@.len() == 0,
            s.metadata@ == Map::<Seq<char>, String>::empty(),
    {
        StepSchema {
            schema_type: String::from_str("object"),
            properties: StrMap::new(),
            required: Vec::new(),
            metadata: StrMap::new(),
        }
    }

    /// The schema with property `name` of type `property_type`.
    pub fn add_property(self, name: &str, property_type: &str) -> (s: Self)
        ensures
            s.schema_type == self.schema_type,
            s.properties@.dom() == self.properties@.dom().insert(name@),
            s.properties@[name@]@ == property_type@,
            forall|k: Seq<char>| k != name@ && #[trigger] self.properties@.contains_key(k) ==> s.properties@[k] == self.properties@[k],
            s.required@ == self.required@,
            s.metadata@ == self.metadata@,
    {
        let mut s = self;
        s.properties.insert(String::from_str(name), String::from_str(property_type));
        s
    }

    /// The schema with `field` required as well.
    pub fn add_required(self, field: &str) -> (s: Self)
        ensures
            s.schema_type == self.schema_type,
            s.properties@ == self.properties@,
            views(s.required@) == views(self.required@).push(field@),
            s.metadata@ == self.metadata@,
    {
        let mut s = self;
        let ghost before = s.required@;
        s.required.push(String::from_str(field));
        proof {
            assert(views(s.required@) =~= views(before).push(field@));
        }
        s
    }

    /// Whether data of shape `shape` meets this schema.
    pub fn accepts_shape(&self, shape: &JsonShape) -> (r: bool)
        ensures
            r == schema_accepts(self.schema_type@, views(self.required@), *shape),
    {
        let kind = self.schema_type.as_str();
        if str_eq(kind, "object") {
            match shape {
                JsonShape::Object { keys } => {
                    let mut i: usize = 0;
                    while i < self.required.len()
                        invariant
                            i <= self.required@.len(),
                            self.schema_type@ == "object"@,
                            *shape == (JsonShape::Object { keys: *keys }),
                            forall|j: int| 0 <= j < i ==> views(keys@).contains(#[trigger] views(self.required@)[j]),
                        decreases self.required@.len() - i,
                    {
                        let mut found = false;
                        let mut k: usize = 0;
                        while k < keys.len()
                            invariant
                                i < self.required@.len(),
                                k <= keys@.len(),
                                found == exists|m: int| 0 <= m < k && keys@[m]@ == self.required@[i as int]@,
                            decreases keys@.len() - k,
                        {
                            if str_eq(keys[k].as_str(), self.required[i].as_str()) {
                                found = true;
                            }
                            k = k + 1;
                        }
                        if !found {
                            proof {
                                if views(keys@).contains(views(self.required@)[i as int]) {
                                    let m = choose|m: int| 0 <= m < views(keys@).len() && views(keys@)[m] == views(self.required@)[i as int];
                                    assert(keys@[m]@ == self.required@[i as int]@);
                                }
                                assert(!views(keys@).contains(views(self.required@)[i as int]));
                                assert(!schema_accepts(self.schema_type@, views(self.required@), *shape));
                            }
                            return false;
                        }
                        proof {
                            let m = choose|m: int| 0 <= m < k && keys@[m]@ == self.required@[i as int]@;
                            assert(views(keys@)[m] == views(self.required@)[i as int]);
                        }
                        i = i + 1;
                    }
                    true
                },
                _ => false,
            }
        } else if str_eq(kind, "array") {
            matches!(shape, JsonShape::Array)
        } else if str_eq(kind, "string") {
            matches!(shape, JsonShape::Text)
        } else if str_eq(kind, "number") {
            matches!(shape, JsonShape::Number)
        } else if str_eq(kind, "boolean") {
            matches!(shape, JsonShape::Boolean)
        } else {
            true
        }
    }

    /// Whether `data` meets this schema, by the shape that `json_shape`
    /// reads off it.
    pub fn validates(&self, data: &serde_json::Value) -> (r: bool)
        ensures
            r == schema_accepts(self.schema_type@, views(self.required@), json_shape_of(*data)),
    {
        let shape = json_shape(data);
        self.accepts_shape(&shape)
    }
}

} // verus!
