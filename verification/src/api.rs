//! What the HTTP service decides: its messages, how a text is split into
//! chunks, what a node of a visual workflow reads, and the order in which
//! the nodes of a visual workflow run.

use vstd::prelude::*;
use crate::error::AgentError;
use crate::strmap::StrMap;
use crate::text::{chars_of, concat2, str_eq, string_of_range, views};

verus! {

/// The version of this library.
pub const VERSION: &'static str = "0.2.0";

/// The answer of the health check.
#[derive(Debug, Clone)]
pub struct HealthResponse {
    pub status: String,
    pub version: String,
}

/// A healthy service of this version.
pub fn health_response() -> (r: HealthResponse)
    ensures
        r.status@ == "ok"@,
        r.version@ == VERSION@,
{
    HealthResponse { status: String::from_str("ok"), version: String::from_str(VERSION) }
}

/// A message for the agent to process.
#[derive(Debug, Clone)]
pub struct ProcessRequest {
    pub message: String,
    pub max_steps: Option<usize>,
}

/// What processing a message gave.
#[derive(Debug, Clone)]
pub struct ProcessResponse {
    pub response: String,
    pub steps_executed: usize,
    pub completed: bool,
}

/// A request to create a workflow.
#[derive(Debug, Clone)]
pub struct CreateWorkflowRequest {
    pub workflow_id: String,
    pub initial_message: String,
    pub max_steps: usize,
}

/// The answer to a workflow creation.
#[derive(Debug, Clone)]
pub struct CreateWorkflowResponse {
    pub workflow_id: String,
    pub status: String,
}

/// A request to suspend a workflow.
#[derive(Debug, Clone)]
pub struct SuspendWorkflowRequest {
    pub reason: String,
}

/// A request to resume a workflow from a snapshot.
#[derive(Debug, Clone)]
pub struct ResumeWorkflowRequest {
    pub snapshot_id: String,
}

/// An error as the service reports it.
#[derive(Debug, Clone)]
pub struct ErrorResponse {
    pub error: String,
    pub details: Option<String>,
}

/// The chunks of `s` of `size` characters each, the last one shorter.
pub open spec fn chunks_spec(s: Seq<char>, size: nat) -> Seq<Seq<char>>
    decreases s.len(),
{
    if s.len() == 0 || size == 0 {
        Seq::empty()
    } else if s.len() <= size {
        seq![s]
    } else {
        seq![s.take(size as int)] + chunks_spec(s.skip(size as int), size)
    }
}

/// Splits `text` into chunks of `chunk_size` characters, the last one
/// shorter.
pub fn split_chunks(text: &str, chunk_size: usize) -> (r: Vec<String>)
    requires
        chunk_size > 0,
    ensures
        views(r@) == chunks_spec(text@, chunk_size as nat),
{
    let chars = chars_of(text);
    let n = chars.len();
    let mut r: Vec<String> = Vec::new();
    let mut pos: usize = 0;
    proof {
        assert(text@.skip(0) =~= text@);
        assert(views(r@) + chunks_spec(text@, chunk_size as nat) =~= chunks_spec(text@, chunk_size as nat));
    }
    while pos < n
        invariant
            chars@ == text@,
            n == chars@.len(),
            pos <= n,
            chunk_size > 0,
            views(r@) + chunks_spec(text@.skip(pos as int), chunk_size as nat) == chunks_spec(text@, chunk_size as nat),
        decreases n - pos,
    {
        let ghost rest = text@.skip(pos as int);
        let end: usize = if n - pos <= chunk_size { n } else { pos + chunk_size };
        let chunk = string_of_range(chars.as_slice(), pos, end);
        let ghost before = views(r@);
        r.push(chunk);
        proof {
            assert(views(r@) =~= before.push(chunk@));
            if n - pos <= chunk_size {
                assert(rest =~= text@.subrange(pos as int, n as int));
                assert(chunks_spec(rest, chunk_size as nat) =~= seq![rest]);
                assert(text@.skip(end as int) =~= Seq::<char>::empty());
                assert(chunks_spec(text@.skip(end as int), chunk_size as nat) =~= Seq::<Seq<char>>::empty());
            } else {
                assert(rest.take(chunk_size as int) =~= text@.subrange(pos as int, end as int));
                assert(rest.skip(chunk_size as int) =~= text@.skip(end as int));
            }
            assert(views(r@) + chunks_spec(text@.skip(end as int), chunk_size as nat)
                =~= before + chunks_spec(rest, chunk_size as nat));
        }
        pos = end;
    }
    proof {
        assert(text@.skip(n as int) =~= Seq::<char>::empty());
        assert(views(r@) + Seq::<Seq<char>>::empty() =~= views(r@));
    }
    r
}

/// The kinds of node a visual workflow knows.
#[derive(Debug, Clone, Copy, PartialEq, Eq, Structural)]
pub enum NodeKind {
    LlmGenerate,
    FileInput,
    FileOutput,
    TextSplitter,
    Conditional,
    ModelConfig,
    Unknown,
}

/// The kind that a node type names.
pub open spec fn node_kind_spec(t: Seq<char>) -> NodeKind {
    if t == "llm_generate"@ {
        NodeKind::LlmGenerate
    } else if t == "file_input"@ {
        NodeKind::FileInput
    } else if t == "file_output"@ {
        NodeKind::FileOutput
    } else if t == "text_splitter"@ {
        NodeKind::TextSplitter
    } else if t == "conditional"@ {
        NodeKind::Conditional
    } else if t == "model_config"@ {
        NodeKind::ModelConfig
    } else {
        NodeKind::Unknown
    }
}

/// The kind that a node type names.
pub fn node_kind(node_type: &str) -> (k: NodeKind)
    ensures
        k == node_kind_spec(node_type@),
{
    if str_eq(node_type, "llm_generate") {
        NodeKind::LlmGenerate
    } else if str_eq(node_type, "file_input") {
        NodeKind::FileInput
    } else if str_eq(node_type, "file_output") {
        NodeKind::FileOutput
    } else if str_eq(node_type, "text_splitter") {
        NodeKind::TextSplitter
    } else if str_eq(node_type, "conditional") {
        NodeKind::Conditional
    } else if str_eq(node_type, "model_config") {
        NodeKind::ModelConfig
    } else {
        NodeKind::Unknown
    }
}

/// Where a conditional node takes its output from: the input named
/// `true_value` when the condition holds, else `false_value`; and the value
/// it gives where that input is missing, the condition itself.
pub fn conditional_branch(condition: bool) -> (r: (&'static str, bool))
    ensures
        condition ==> r.0@ == "true_value"@,
        !condition ==> r.0@ == "false_value"@,
        r.1 == condition,
{
    if condition {
        ("true_value", true)
    } else {
        ("false_value", false)
    }
}

/// The warning that a node of an unknown type gives.
pub fn unknown_node_warning(node_type: &str) -> (r: String)
    ensures
        r@ == "Unknown node type: "@ + node_type@,
{
    concat2("Unknown node type: ", node_type)
}

/// What a node reads of an input value: a string, an object with its
/// string-valued fields, or something else; the last two with the value's
/// JSON text.
#[derive(Debug)]
pub enum NodeInput {
    Text(String),
    Object { text_fields: StrMap<String>, rendered: String },
    Other { rendered: String },
}

/// The prompt of a generation node: its "prompt" input when that is a
/// string, or the "content" field of an object there; without that input,
/// the prompt of its configuration; else nothing.
pub open spec fn prompt_spec(input: Option<NodeInput>, config_prompt: Option<String>) -> Seq<char> {
    match input {
        Some(NodeInput::Text(s)) => s@,
        Some(NodeInput::Object { text_fields, .. }) => if text_fields@.contains_key("content"@) {
            text_fields@["content"@]@
        } else {
            Seq::empty()
        },
        Some(NodeInput::Other { .. }) => Seq::empty(),
        None => match config_prompt {
            Some(p) => p@,
            None => Seq::empty(),
        },
    }
}

/// The prompt of a generation node.
pub fn node_prompt(input: Option<&NodeInput>, config_prompt: Option<&String>) -> (r: String)
    ensures
        r@ == prompt_spec(match input { Some(i) => Some(*i), None => None },
            match config_prompt { Some(p) => Some(*p), None => None }),
{
    match input {
        Some(NodeInput::Text(s)) => s.clone(),
        Some(NodeInput::Object { text_fields, .. }) => match text_fields.get("content") {
            Some(c) => c.clone(),
            None => String::new(),
        },
        Some(NodeInput::Other { .. }) => String::new(),
        None => match config_prompt {
            Some(p) => p.clone(),
            None => String::new(),
        },
    }
}

/// What a file output node writes: its "content" input when that is a
/// string, the "response" field of an object there or else the object's
/// JSON text, or the JSON text of another value; nothing without input.
pub open spec fn output_content_spec(input: Option<NodeInput>) -> Seq<char> {
    match input {
        Some(NodeInput::Text(s)) => s@,
        Some(NodeInput::Object { text_fields, rendered }) => if text_fields@.contains_key("response"@) {
            text_fields@["response"@]@
        } else {
            rendered@
        },
        Some(NodeInput::Other { rendered }) => rendered@,
        None => Seq::empty(),
    }
}

/// What a file output node writes.
pub fn output_content(input: Option<&NodeInput>) -> (r: String)
    ensures
        r@ == output_content_spec(match input { Some(i) => Some(*i), None => None }),
{
    match input {
        Some(NodeInput::Text(s)) => s.clone(),
        Some(NodeInput::Object { text_fields, rendered }) => match text_fields.get("response") {
            Some(c) => c.clone(),
            None => rendered.clone(),
        },
        Some(NodeInput::Other { rendered }) => rendered.clone(),
        None => String::new(),
    }
}

/// A connection of a visual workflow: the output of one node feeds an
/// input of another.
#[derive(Debug, Clone)]
pub struct VisualWorkflowConnection {
    pub id: String,
    pub from_node: String,
    pub from_output: String,
    pub to_node: String,
    pub to_input: String,
    pub label: Option<String>,
    pub description: Option<String>,
}

/// A connection between nodes in the workflow editor.
#[derive(Debug, Clone)]
pub struct UIConnection {
    pub id: String,
    pub from_node: String,
    pub from_output: String,
    pub to_node: String,
    pub to_input: String,
}

/// An input of a node type in the editor's palette; `value_type` is the
/// kind of value it takes.
#[derive(Debug, Clone)]
pub struct UINodeInput {
    pub name: String,
    pub value_type: String,
    pub required: bool,
    pub description: String,
}

/// An output of a node type in the editor's palette.
#[derive(Debug, Clone)]
pub struct UINodeOutput {
    pub name: String,
    pub value_type: String,
    pub description: String,
}

/// A node type of the editor's palette. `config_schema` is the JSON schema
/// of its settings, as JSON text.
#[derive(Debug, Clone)]
pub struct UINodeType {
    pub id: String,
    pub name: String,
    pub category: String,
    pub description: String,
    pub inputs: Vec<UINodeInput>,
    pub outputs: Vec<UINodeOutput>,
    pub config_schema: String,
}

fn palette_input(name: &str, value_type: &str, required: bool, description: &str) -> (r: UINodeInput)
    ensures
        r.name@ == name@,
        r.value_type@ == value_type@,
        r.required == required,
        r.description@ == description@,
{
    UINodeInput {
        name: String::from_str(name),
        value_type: String::from_str(value_type),
        required,
        description: String::from_str(description),
    }
}

fn palette_output(name: &str, value_type: &str, description: &str) -> (r: UINodeOutput)
    ensures
        r.name@ == name@,
        r.value_type@ == value_type@,
        r.description@ == description@,
{
    UINodeOutput { name: String::from_str(name), value_type: String::from_str(value_type), description: String::from_str(description) }
}

/// Whether a node type of `palette` is run as `k`.
pub open spec fn palette_offers(palette: Seq<UINodeType>, k: NodeKind) -> bool {
    exists|i: int| 0 <= i < palette.len() && node_kind_spec(#[trigger] palette[i].id@) == k
}

/// The node types that the editor offers, in the order in which they are
/// registered: each one a kind that a visual workflow runs, and each kind
/// that it runs among them.
pub fn default_ui_node_types() -> (r: Vec<UINodeType>)
    ensures
        r.len() == 6,
        r[0].id@ == "llm_generate"@,
        r[0].name@ == "LLM Generate"@,
        r[0].category@ == "LLM"@,
        r[0].description@ == "Generate text using a language model"@,
        r[0].inputs.len() == 2,
        r[0].inputs[0].name@ == "prompt"@ && r[0].inputs[0].value_type@ == "string"@,
        r[0].inputs[0].required == true && r[0].inputs[0].description@ == "The prompt to send to the LLM"@,
        r[0].inputs[1].name@ == "model"@ && r[0].inputs[1].value_type@ == "string"@,
        r[0].inputs[1].required == false && r[0].inputs[1].description@ == "LLM model to use (optional)"@,
        r[0].outputs.len() == 1,
        r[0].outputs[0].name@ == "response"@ && r[0].outputs[0].value_type@ == "string"@,
        r[0].outputs[0].description@ == "Generated text response"@,
        r[0].config_schema@ == "{\"type\":\"object\",\"properties\":{\"temperature\":{\"type\":\"number\",\"minimum\":0,\"maximum\":2,\"default\":0.7},\"max_tokens\":{\"type\":\"integer\",\"minimum\":1,\"maximum\":4096,\"default\":1000}}}"@,
        r[1].id@ == "model_config"@,
        r[1].name@ == "Model Configuration"@,
        r[1].category@ == "LLM"@,
        r[1].description@ == "Configure LLM server connection (Ollama, OpenAI, etc.)"@,
        r[1].inputs.len() == 0,
        r[1].outputs.len() == 1,
        r[1].outputs[0].name@ == "config"@ && r[1].outputs[0].value_type@ == "object"@,
        r[1].outputs[0].description@ == "LLM configuration"@,
        r[1].config_schema@ == "{\"type\":\"object\",\"properties\":{\"server_url\":{\"type\":\"string\",\"default\":\"http://localhost:11434\",\"description\":\"Ollama or LLM server URL\"},\"model\":{\"type\":\"string\",\"default\":\"llama2\",\"description\":\"Model name to use\"},\"temperature\":{\"type\":\"number\",\"minimum\":0,\"maximum\":2,\"default\":0.7,\"description\":\"Temperature for generation\"},\"max_tokens\":{\"type\":\"integer\",\"minimum\":1,\"maximum\":32000,\"default\":2048,\"description\":\"Maximum tokens to generate\"},\"top_p\":{\"type\":\"number\",\"minimum\":0,\"maximum\":1,\"default\":0.9,\"description\":\"Top-p sampling parameter\"},\"stream\":{\"type\":\"boolean\",\"default\":false,\"description\":\"Enable streaming responses\"}}}"@,
        r[2].id@ == "text_splitter"@,
        r[2].name@ == "Text Splitter"@,
        r[2].category@ == "Data Processing"@,
        r[2].description@ == "Split text into chunks"@,
        r[2].inputs.len() == 1,
        r[2].inputs[0].name@ == "text"@ && r[2].inputs[0].value_type@ == "string"@,
        r[2].inputs[0].required == true && r[2].inputs[0].description@ == "Text to split"@,
        r[2].outputs.len() == 1,
        r[2].outputs[0].name@ == "chunks"@ && r[2].outputs[0].value_type@ == "array"@,
        r[2].outputs[0].description@ == "Array of text chunks"@,
        r[2].config_schema@ == "{\"type\":\"object\",\"properties\":{\"chunk_size\":{\"type\":\"integer\",\"minimum\":100,\"maximum\":10000,\"default\":1000},\"overlap\":{\"type\":\"integer\",\"minimum\":0,\"maximum\":500,\"default\":200}}}"@,
        r[3].id@ == "conditional"@,
        r[3].name@ == "Conditional"@,
        r[3].category@ == "Control Flow"@,
        r[3].description@ == "Route execution based on conditions"@,
        r[3].inputs.len() == 3,
        r[3].inputs[0].name@ == "condition"@ && r[3].inputs[0].value_type@ == "boolean"@,
        r[3].inputs[0].required == true && r[3].inputs[0].description@ == "Boolean condition to evaluate"@,
        r[3].inputs[1].name@ == "true_value"@ && r[3].inputs[1].value_type@ == "any"@,
        r[3].inputs[1].required == false && r[3].inputs[1].description@ == "Value to pass when condition is true"@,
        r[3].inputs[2].name@ == "false_value"@ && r[3].inputs[2].value_type@ == "any"@,
        r[3].inputs[2].required == false && r[3].inputs[2].description@ == "Value to pass when condition is false"@,
        r[3].outputs.len() == 1,
        r[3].outputs[0].name@ == "output"@ && r[3].outputs[0].value_type@ == "any"@,
        r[3].outputs[0].description@ == "Selected output value"@,
        r[3].config_schema@ == "{}"@,
        r[4].id@ == "file_input"@,
        r[4].name@ == "File Input"@,
        r[4].category@ == "I/O"@,
        r[4].description@ == "Read data from a file"@,
        r[4].inputs.len() == 0,
        r[4].outputs.len() == 1,
        r[4].outputs[0].name@ == "content"@ && r[4].outputs[0].value_type@ == "string"@,
        r[4].outputs[0].description@ == "File content"@,
        r[4].config_schema@ == "{\"type\":\"object\",\"properties\":{\"file_path\":{\"type\":\"string\",\"description\":\"Path to the input file\"},\"encoding\":{\"type\":\"string\",\"enum\":[\"utf8\",\"binary\"],\"default\":\"utf8\"}},\"required\":[\"file_path\"]}"@,
        r[5].id@ == "file_output"@,
        r[5].name@ == "File Output"@,
        r[5].category@ == "I/O"@,
        r[5].description@ == "Write data to a file"@,
        r[5].inputs.len() == 1,
        r[5].inputs[0].name@ == "content"@ && r[5].inputs[0].value_type@ == "string"@,
        r[5].inputs[0].required == true && r[5].inputs[0].description@ == "Content to write"@,
        r[5].outputs.len() == 0,
        r[5].config_schema@ == "{\"type\":\"object\",\"properties\":{\"file_path\":{\"type\":\"string\",\"description\":\"Path to the output file\"},\"encoding\":{\"type\":\"string\",\"enum\":[\"utf8\",\"binary\"],\"default\":\"utf8\"},\"append\":{\"type\":\"boolean\",\"default\":false,\"description\":\"Append to file instead of overwriting\"}},\"required\":[\"file_path\"]}"@,
        forall|i: int| 0 <= i < r.len() ==> node_kind_spec(#[trigger] r[i].id@) != NodeKind::Unknown,
        forall|k: NodeKind| k != NodeKind::Unknown ==> #[trigger] palette_offers(r@, k),
{
    let mut r: Vec<UINodeType> = Vec::new();
    let mut inputs: Vec<UINodeInput> = Vec::new();
    inputs.push(palette_input("prompt", "string", true, "The prompt to send to the LLM"));
    inputs.push(palette_input("model", "string", false, "LLM model to use (optional)"));
    let mut outputs: Vec<UINodeOutput> = Vec::new();
    outputs.push(palette_output("response", "string", "Generated text response"));
    r.push(UINodeType {
        id: String::from_str("llm_generate"),
        name: String::from_str("LLM Generate"),
        category: String::from_str("LLM"),
        description: String::from_str("Generate text using a language model"),
        inputs,
        outputs,
        config_schema: String::from_str("{\"type\":\"object\",\"properties\":{\"temperature\":{\"type\":\"number\",\"minimum\":0,\"maximum\":2,\"default\":0.7},\"max_tokens\":{\"type\":\"integer\",\"minimum\":1,\"maximum\":4096,\"default\":1000}}}"),
    });
    let mut inputs: Vec<UINodeInput> = Vec::new();
    let mut outputs: Vec<UINodeOutput> = Vec::new();
    outputs.push(palette_output("config", "object", "LLM configuration"));
    r.push(UINodeType {
        id: String::from_str("model_config"),
        name: String::from_str("Model Configuration"),
        category: String::from_str("LLM"),
        description: String::from_str("Configure LLM server connection (Ollama, OpenAI, etc.)"),
        inputs,
        outputs,
        config_schema: String::from_str("{\"type\":\"object\",\"properties\":{\"server_url\":{\"type\":\"string\",\"default\":\"http://localhost:11434\",\"description\":\"Ollama or LLM server URL\"},\"model\":{\"type\":\"string\",\"default\":\"llama2\",\"description\":\"Model name to use\"},\"temperature\":{\"type\":\"number\",\"minimum\":0,\"maximum\":2,\"default\":0.7,\"description\":\"Temperature for generation\"},\"max_tokens\":{\"type\":\"integer\",\"minimum\":1,\"maximum\":32000,\"default\":2048,\"description\":\"Maximum tokens to generate\"},\"top_p\":{\"type\":\"number\",\"minimum\":0,\"maximum\":1,\"default\":0.9,\"description\":\"Top-p sampling parameter\"},\"stream\":{\"type\":\"boolean\",\"default\":false,\"description\":\"Enable streaming responses\"}}}"),
    });
    let mut inputs: Vec<UINodeInput> = Vec::new();
    inputs.push(palette_input("text", "string", true, "Text to split"));
    let mut outputs: Vec<UINodeOutput> = Vec::new();
    outputs.push(palette_output("chunks", "array", "Array of text chunks"));
    r.push(UINodeType {
        id: String::from_str("text_splitter"),
        name: String::from_str("Text Splitter"),
        category: String::from_str("Data Processing"),
        description: String::from_str("Split text into chunks"),
        inputs,
        outputs,
        config_schema: String::from_str("{\"type\":\"object\",\"properties\":{\"chunk_size\":{\"type\":\"integer\",\"minimum\":100,\"maximum\":10000,\"default\":1000},\"overlap\":{\"type\":\"integer\",\"minimum\":0,\"maximum\":500,\"default\":200}}}"),
    });
    let mut inputs: Vec<UINodeInput> = Vec::new();
    inputs.push(palette_input("condition", "boolean", true, "Boolean condition to evaluate"));
    inputs.push(palette_input("true_value", "any", false, "Value to pass when condition is true"));
    inputs.push(palette_input("false_value", "any", false, "Value to pass when condition is false"));
    let mut outputs: Vec<UINodeOutput> = Vec::new();
    outputs.push(palette_output("output", "any", "Selected output value"));
    r.push(UINodeType {
        id: String::from_str("conditional"),
        name: String::from_str("Conditional"),
        category: String::from_str("Control Flow"),
        description: String::from_str("Route execution based on conditions"),
        inputs,
        outputs,
        config_schema: String::from_str("{}"),
    });
    let mut inputs: Vec<UINodeInput> = Vec::new();
    let mut outputs: Vec<UINodeOutput> = Vec::new();
    outputs.push(palette_output("content", "string", "File content"));
    r.push(UINodeType {
        id: String::from_str("file_input"),
        name: String::from_str("File Input"),
        category: String::from_str("I/O"),
        description: String::from_str("Read data from a file"),
        inputs,
        outputs,
        config_schema: String::from_str("{\"type\":\"object\",\"properties\":{\"file_path\":{\"type\":\"string\",\"description\":\"Path to the input file\"},\"encoding\":{\"type\":\"string\",\"enum\":[\"utf8\",\"binary\"],\"default\":\"utf8\"}},\"required\":[\"file_path\"]}"),
    });
    let mut inputs: Vec<UINodeInput> = Vec::new();
    inputs.push(palette_input("content", "string", true, "Content to write"));
    let mut outputs: Vec<UINodeOutput> = Vec::new();
    r.push(UINodeType {
        id: String::from_str("file_output"),
        name: String::from_str("File Output"),
        category: String::from_str("I/O"),
        description: String::from_str("Write data to a file"),
        inputs,
        outputs,
        config_schema: String::from_str("{\"type\":\"object\",\"properties\":{\"file_path\":{\"type\":\"string\",\"description\":\"Path to the output file\"},\"encoding\":{\"type\":\"string\",\"enum\":[\"utf8\",\"binary\"],\"default\":\"utf8\"},\"append\":{\"type\":\"boolean\",\"default\":false,\"description\":\"Append to file instead of overwriting\"}},\"required\":[\"file_path\"]}"),
    });
    proof {
        reveal_strlit("conditional");
        reveal_strlit("file_input");
        reveal_strlit("file_output");
        reveal_strlit("llm_generate");
        reveal_strlit("model_config");
        reveal_strlit("text_splitter");
        assert(node_kind_spec(r[0].id@) == NodeKind::LlmGenerate);
        assert("model_config"@[0] != "llm_generate"@[0] && "model_config"@[0] != "file_input"@[0]);
        assert("model_config"@.len() != "file_output"@.len() && "model_config"@.len() != "text_splitter"@.len());
        assert("model_config"@.len() != "conditional"@.len());
        assert(node_kind_spec(r[1].id@) == NodeKind::ModelConfig);
        assert("text_splitter"@.len() != "llm_generate"@.len() && "text_splitter"@.len() != "file_input"@.len());
        assert("text_splitter"@.len() != "file_output"@.len());
        assert(node_kind_spec(r[2].id@) == NodeKind::TextSplitter);
        assert("conditional"@.len() != "llm_generate"@.len() && "conditional"@.len() != "file_input"@.len());
        assert("conditional"@[0] != "file_output"@[0] && "conditional"@.len() != "text_splitter"@.len());
        assert(node_kind_spec(r[3].id@) == NodeKind::Conditional);
        assert(node_kind_spec(r[4].id@) == NodeKind::FileInput);
        assert(node_kind_spec(r[5].id@) == NodeKind::FileOutput);
    }
    r
}

/// A request to create a workflow in the editor.
#[derive(Debug, Clone)]
pub struct CreateUIWorkflowRequest {
    pub name: String,
    pub description: String,
}

/// The connection of the editor as the visual workflow runs it.
pub fn visual_connection(c: &UIConnection) -> (r: VisualWorkflowConnection)
    ensures
        r.id == c.id,
        r.from_node == c.from_node,
        r.from_output == c.from_output,
        r.to_node == c.to_node,
        r.to_input == c.to_input,
        r.label is None,
        r.description is None,
{
    VisualWorkflowConnection {
        id: c.id.clone(),
        from_node: c.from_node.clone(),
        from_output: c.from_output.clone(),
        to_node: c.to_node.clone(),
        to_input: c.to_input.clone(),
        label: None,
        description: None,
    }
}

/// Whether some connection leads into node `id`.
pub open spec fn has_incoming(conns: Seq<VisualWorkflowConnection>, id: Seq<char>) -> bool {
    exists|j: int| 0 <= j < conns.len() && conns[j].to_node@ == id
}

/// Whether some connection leads out of node `id`.
pub open spec fn has_outgoing(conns: Seq<VisualWorkflowConnection>, id: Seq<char>) -> bool {
    exists|j: int| 0 <= j < conns.len() && conns[j].from_node@ == id
}

/// The nodes, in order, into which no connection leads.
pub open spec fn start_nodes(nodes: Seq<Seq<char>>, conns: Seq<VisualWorkflowConnection>) -> Seq<Seq<char>>
    decreases nodes.len(),
{
    if nodes.len() == 0 {
        Seq::empty()
    } else {
        let rest = start_nodes(nodes.drop_last(), conns);
        if has_incoming(conns, nodes.last()) { rest } else { rest.push(nodes.last()) }
    }
}

/// Whether every node that feeds node `id` has run.
pub open spec fn inputs_ready(conns: Seq<VisualWorkflowConnection>, done: Map<Seq<char>, bool>, id: Seq<char>) -> bool {
    forall|j: int| 0 <= j < conns.len() && conns[j].to_node@ == id ==> done.contains_key(#[trigger] conns[j].from_node@)
}

/// The nodes that become ready when node `id` has run, one for each
/// connection out of it (among `cs`, in order) whose target has not run and
/// has all its inputs ready.
pub open spec fn ready_successors(cs: Seq<VisualWorkflowConnection>, conns: Seq<VisualWorkflowConnection>, done: Map<Seq<char>, bool>, id: Seq<char>) -> Seq<Seq<char>>
    decreases cs.len(),
{
    if cs.len() == 0 {
        Seq::empty()
    } else {
        let rest = ready_successors(cs.drop_last(), conns, done, id);
        let c = cs.last();
        if c.from_node@ == id && !done.contains_key(c.to_node@) && inputs_ready(conns, done, c.to_node@) {
            rest.push(c.to_node@)
        } else {
            rest
        }
    }
}

/// For each connection into node `id`, in order, the input it feeds and the
/// node that feeds it.
pub open spec fn feeds(cs: Seq<VisualWorkflowConnection>, id: Seq<char>) -> Seq<(Seq<char>, Seq<char>)>
    decreases cs.len(),
{
    if cs.len() == 0 {
        Seq::empty()
    } else {
        let rest = feeds(cs.drop_last(), id);
        if cs.last().to_node@ == id { rest.push((cs.last().to_input@, cs.last().from_node@)) } else { rest }
    }
}

/// The views of a sequence of string pairs.
pub open spec fn pair_views(v: Seq<(String, String)>) -> Seq<(Seq<char>, Seq<char>)> {
    v.map_values(|p: (String, String)| (p.0@, p.1@))
}

/// A run of a visual workflow: which nodes ran, and which wait to run.
#[derive(Debug)]
pub struct VisualRun {
    pub nodes: Vec<String>,
    pub connections: Vec<VisualWorkflowConnection>,
    pub executed: StrMap<bool>,
    pub to_execute: Vec<String>,
    pub steps_executed: usize,
}

fn has_incoming_exec(conns: &Vec<VisualWorkflowConnection>, id: &str) -> (r: bool)
    ensures
        r == has_incoming(conns@, id@),
{
    let mut j: usize = 0;
    while j < conns.len()
        invariant
            j <= conns@.len(),
            forall|k: int| 0 <= k < j ==> conns@[k].to_node@ != id@,
        decreases conns@.len() - j,
    {
        if str_eq(conns[j].to_node.as_str(), id) {
            return true;
        }
        j = j + 1;
    }
    false
}

fn inputs_ready_exec(conns: &Vec<VisualWorkflowConnection>, done: &StrMap<bool>, id: &str) -> (r: bool)
    ensures
        r == inputs_ready(conns@, done@, id@),
{
    let mut j: usize = 0;
    while j < conns.len()
        invariant
            j <= conns@.len(),
            forall|k: int| 0 <= k < j && conns@[k].to_node@ == id@ ==> done@.contains_key(#[trigger] conns@[k].from_node@),
        decreases conns@.len() - j,
    {
        if str_eq(conns[j].to_node.as_str(), id) && !done.contains_key(conns[j].from_node.as_str()) {
            return false;
        }
        j = j + 1;
    }
    true
}

impl VisualRun {
    /// Starts a run with the nodes into which no connection leads; fails
    /// when there is none.
    pub fn start(nodes: Vec<String>, connections: Vec<VisualWorkflowConnection>) -> (r: Result<VisualRun, AgentError>)
        ensures
            match r {
                Ok(run) => {
                    &&& start_nodes(views(nodes@), connections@).len() > 0
                    &&& views(run.to_execute@) == start_nodes(views(nodes@), connections@)
                    &&& run.nodes@ == nodes@
                    &&& run.connections@ == connections@
                    &&& run.executed@ == Map::<Seq<char>, bool>::empty()
                    &&& run.steps_executed == 0
                },
                Err(e) => {
                    &&& start_nodes(views(nodes@), connections@).len() == 0
                    &&& e matches AgentError::Config(m) && m@ == "No start nodes found in workflow"@
                },
            },
    {
        let mut starts: Vec<String> = Vec::new();
        let mut i: usize = 0;
        while i < nodes.len()
            invariant
                i <= nodes@.len(),
                views(starts@) == start_nodes(views(nodes@).take(i as int), connections@),
            decreases nodes@.len() - i,
        {
            proof {
                assert(views(nodes@).take(i + 1).drop_last() =~= views(nodes@).take(i as int));
            }
            if !has_incoming_exec(&connections, nodes[i].as_str()) {
                let ghost before = starts@;
                starts.push(nodes[i].clone());
                proof {
                    assert(views(starts@) =~= views(before).push(nodes@[i as int]@));
                }
            }
            i = i + 1;
        }
        proof {
            assert(views(nodes@).take(nodes@.len() as int) =~= views(nodes@));
        }
        if starts.len() == 0 {
            return Err(AgentError::Config(String::from_str("No start nodes found in workflow")));
        }
        Ok(VisualRun { nodes, connections, executed: StrMap::new(), to_execute: starts, steps_executed: 0 })
    }

    /// Takes the next node to run off the queue, passing over nodes that
    /// already ran. A queued name that is no node is an error.
    pub fn next_node(&mut self) -> (r: Option<Result<String, AgentError>>)
        ensures
            final(self).executed@ == old(self).executed@,
            final(self).nodes@ == old(self).nodes@,
            final(self).connections@ == old(self).connections@,
            final(self).steps_executed == old(self).steps_executed,
            views(final(self).to_execute@).len() <= views(old(self).to_execute@).len(),
            views(final(self).to_execute@) == views(old(self).to_execute@).take(final(self).to_execute@.len() as int),
            forall|k: int| final(self).to_execute@.len() < k < old(self).to_execute@.len()
                ==> old(self).executed@.contains_key(#[trigger] old(self).to_execute@[k]@),
            match r {
                None => final(self).to_execute@.len() == 0
                    && (old(self).to_execute@.len() > 0 ==> old(self).executed@.contains_key(old(self).to_execute@[0]@)),
                Some(x) => {
                    let id = old(self).to_execute@[final(self).to_execute@.len() as int]@;
                    &&& final(self).to_execute@.len() < old(self).to_execute@.len()
                    &&& !old(self).executed@.contains_key(id)
                    &&& match x {
                        Ok(s) => s@ == id && views(old(self).nodes@).contains(id),
                        Err(e) => (e matches AgentError::Config(m) && m@ == "Node not found: "@ + id)
                            && !views(old(self).nodes@).contains(id),
                    }
                },
            },
    {
        let ghost old_q = self.to_execute@;
        while self.to_execute.len() > 0
            invariant
                self.executed@ == old(self).executed@,
                self.nodes@ == old(self).nodes@,
                self.connections@ == old(self).connections@,
                self.steps_executed == old(self).steps_executed,
                old_q == old(self).to_execute@,
                self.to_execute@.len() <= old_q.len(),
                self.to_execute@ == old_q.take(self.to_execute@.len() as int),
                forall|k: int| self.to_execute@.len() <= k < old_q.len()
                    ==> old(self).executed@.contains_key(#[trigger] old_q[k]@),
            decreases self.to_execute@.len(),
        {
            let id = self.to_execute.pop().unwrap();
            if !self.executed.contains_key(id.as_str()) {
                let mut found = false;
                let mut i: usize = 0;
                while i < self.nodes.len()
                    invariant
                        i <= self.nodes@.len(),
                        !found ==> forall|k: int| 0 <= k < i ==> self.nodes@[k]@ != id@,
                        found ==> views(self.nodes@).contains(id@),
                    decreases self.nodes@.len() - i,
                {
                    if str_eq(self.nodes[i].as_str(), id.as_str()) {
                        found = true;
                        proof {
                            assert(views(self.nodes@)[i as int] == id@);
                        }
                    }
                    i = i + 1;
                }
                proof {
                    assert(self.to_execute@ =~= old_q.take(self.to_execute@.len() as int));
                    assert(views(self.to_execute@) =~= views(old_q).take(self.to_execute@.len() as int));
                }
                if found {
                    return Some(Ok(id));
                } else {
                    proof {
                        assert(!views(self.nodes@).contains(id@));
                    }
                    return Some(Err(AgentError::Config(concat2("Node not found: ", id.as_str()))));
                }
            }
        }
        proof {
            assert(views(self.to_execute@) =~= views(old_q).take(0));
        }
        None
    }

    /// The inputs of node `id`: for each connection into it, in order, the
    /// input it feeds and the node that feeds it.
    pub fn inputs_for(&self, id: &str) -> (r: Vec<(String, String)>)
        ensures
            pair_views(r@) == feeds(self.connections@, id@),
    {
        let mut r: Vec<(String, String)> = Vec::new();
        let mut j: usize = 0;
        while j < self.connections.len()
            invariant
                j <= self.connections@.len(),
                pair_views(r@) == feeds(self.connections@.take(j as int), id@),
            decreases self.connections@.len() - j,
        {
            proof {
                assert(self.connections@.take(j + 1).drop_last() =~= self.connections@.take(j as int));
            }
            let c = &self.connections[j];
            if str_eq(c.to_node.as_str(), id) {
                let ghost before = r@;
                r.push((c.to_input.clone(), c.from_node.clone()));
                proof {
                    assert(pair_views(r@) =~= pair_views(before).push((c.to_input@, c.from_node@)));
                }
            }
            j = j + 1;
        }
        proof {
            assert(self.connections@.take(self.connections@.len() as int) =~= self.connections@);
        }
        r
    }

    /// Records that node `id` ran, and queues each node that this makes
    /// ready, in the order of the connections out of `id`.
    pub fn complete_node(&mut self, id: &str)
        requires
            old(self).steps_executed < usize::MAX,
        ensures
            final(self).executed@ == old(self).executed@.insert(id@, true),
            final(self).steps_executed == old(self).steps_executed + 1,
            views(final(self).to_execute@) == views(old(self).to_execute@)
                + ready_successors(old(self).connections@, old(self).connections@, final(self).executed@, id@),
            final(self).nodes@ == old(self).nodes@,
            final(self).connections@ == old(self).connections@,
    {
        self.executed.insert(String::from_str(id), true);
        self.steps_executed = self.steps_executed + 1;
        let ghost q0 = views(self.to_execute@);
        let mut j: usize = 0;
        while j < self.connections.len()
            invariant
                j <= self.connections@.len(),
                self.executed@ == old(self).executed@.insert(id@, true),
                self.steps_executed == old(self).steps_executed + 1,
                self.nodes@ == old(self).nodes@,
                self.connections@ == old(self).connections@,
                q0 == views(old(self).to_execute@),
                views(self.to_execute@) == q0 + ready_successors(self.connections@.take(j as int), self.connections@, self.executed@, id@),
            decreases self.connections@.len() - j,
        {
            proof {
                assert(self.connections@.take(j + 1).drop_last() =~= self.connections@.take(j as int));
            }
            let c = &self.connections[j];
            if str_eq(c.from_node.as_str(), id) && !self.executed.contains_key(c.to_node.as_str())
                && inputs_ready_exec(&self.connections, &self.executed, c.to_node.as_str()) {
                let next = c.to_node.clone();
                let ghost before = views(self.to_execute@);
                self.to_execute.push(next);
                proof {
                    assert(views(self.to_execute@) =~= before.push(next@));
                }
            }
            j = j + 1;
        }
        proof {
            assert(self.connections@.take(self.connections@.len() as int) =~= self.connections@);
        }
    }

    /// Whether node `id` feeds no other node, so that its output is part of
    /// the workflow's output.
    pub fn is_final_node(&self, id: &str) -> (r: bool)
        ensures
            r == !has_outgoing(self.connections@, id@),
    {
        let mut j: usize = 0;
        while j < self.connections.len()
            invariant
                j <= self.connections@.len(),
                forall|k: int| 0 <= k < j ==> self.connections@[k].from_node@ != id@,
            decreases self.connections@.len() - j,
        {
            if str_eq(self.connections[j].from_node.as_str(), id) {
                return false;
            }
            j = j + 1;
        }
        true
    }
}

/// Law: a node that becomes ready when node `id` has run is fed by `id`,
/// has not run yet, and every node with a connection into it has run; so no
/// node is queued before all of its inputs.
pub proof fn lemma_ready_nodes_have_all_inputs(
    cs: Seq<VisualWorkflowConnection>,
    conns: Seq<VisualWorkflowConnection>,
    done: Map<Seq<char>, bool>,
    id: Seq<char>,
    x: Seq<char>,
)
    requires
        ready_successors(cs, conns, done, id).contains(x),
    ensures
        !done.contains_key(x),
        exists|j: int| 0 <= j < cs.len() && #[trigger] cs[j].from_node@ == id && cs[j].to_node@ == x,
        forall|j: int| 0 <= j < conns.len() && conns[j].to_node@ == x ==> done.contains_key(#[trigger] conns[j].from_node@),
    decreases cs.len(),
{
    let rest = ready_successors(cs.drop_last(), conns, done, id);
    let c = cs.last();
    if c.from_node@ == id && !done.contains_key(c.to_node@) && inputs_ready(conns, done, c.to_node@) && x == c.to_node@ {
        assert(cs[cs.len() - 1].from_node@ == id);
    } else {
        if c.from_node@ == id && !done.contains_key(c.to_node@) && inputs_ready(conns, done, c.to_node@) {
            let k = choose|k: int| 0 <= k < rest.push(c.to_node@).len() && rest.push(c.to_node@)[k] == x;
            assert(k < rest.len());
            assert(rest[k] == x);
        }
        assert(rest.contains(x));
        lemma_ready_nodes_have_all_inputs(cs.drop_last(), conns, done, id, x);
        let j = choose|j: int| 0 <= j < cs.drop_last().len() && #[trigger] cs.drop_last()[j].from_node@ == id && cs.drop_last()[j].to_node@ == x;
        assert(cs[j].from_node@ == id);
    }
}

} // verus!
