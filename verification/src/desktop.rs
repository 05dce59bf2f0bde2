//! The pieces of a workflow as the desktop editor stores them, and the node
//! types that it offers.

use vstd::prelude::*;

verus! {

/// An input of a node type.
#[derive(Debug, Clone)]
pub struct Input {
    pub name: String,
}

/// An output of a node type.
#[derive(Debug, Clone)]
pub struct Output {
    pub name: String,
}

/// A connection from an output of one node to an input of another.
#[derive(Debug, Clone)]
pub struct Connection {
    pub id: String,
    pub from_node: String,
    pub from_output: String,
    pub to_node: String,
    pub to_input: String,
}

/// A kind of node that the desktop editor offers; its configuration schema
/// is JSON text.
#[derive(Debug, Clone)]
pub struct NodeType {
    pub id: String,
    pub name: String,
    pub category: String,
    pub description: String,
    pub inputs: Vec<Input>,
    pub outputs: Vec<Output>,
    pub config_schema: Option<String>,
}

fn inputs_named(names: &[&str]) -> (r: Vec<Input>)
    ensures
        r@.len() == names@.len(),
        forall|i: int| 0 <= i < names@.len() ==> #[trigger] r@[i].name@ == names@[i]@,
{
    let mut r: Vec<Input> = Vec::new();
    let mut i: usize = 0;
    while i < names.len()
        invariant
            i <= names@.len(),
            r@.len() == i,
            forall|j: int| 0 <= j < i ==> #[trigger] r@[j].name@ == names@[j]@,
        decreases names@.len() - i,
    {
        r.push(Input { name: String::from_str(names[i]) });
        i = i + 1;
    }
    r
}

fn outputs_named(names: &[&str]) -> (r: Vec<Output>)
    ensures
        r@.len() == names@.len(),
        forall|i: int| 0 <= i < names@.len() ==> #[trigger] r@[i].name@ == names@[i]@,
{
    let mut r: Vec<Output> = Vec::new();
    let mut i: usize = 0;
    while i < names.len()
        invariant
            i <= names@.len(),
            r@.len() == i,
            forall|j: int| 0 <= j < i ==> #[trigger] r@[j].name@ == names@[j]@,
        decreases names@.len() - i,
    {
        r.push(Output { name: String::from_str(names[i]) });
        i = i + 1;
    }
    r
}

fn node_type(id: &str, name: &str, category: &str, description: &str, inputs: Vec<Input>, outputs: Vec<Output>,
    config_schema: Option<&str>) -> (r: NodeType)
    ensures
        r.id@ == id@,
        r.name@ == name@,
        r.category@ == category@,
        r.description@ == description@,
        r.inputs == inputs,
        r.outputs == outputs,
        config_schema is None ==> r.config_schema is None,
        config_schema matches Some(c) ==> r.config_schema matches Some(t) && t@ == c@,
{
    NodeType {
        id: String::from_str(id),
        name: String::from_str(name),
        category: String::from_str(category),
        description: String::from_str(description),
        inputs,
        outputs,
        config_schema: match config_schema {
            Some(c) => Some(String::from_str(c)),
            None => None,
        },
    }
}

/// The node types that the desktop editor offers, in order: start, end, an
/// agent task, a condition and a transform.
pub fn desktop_node_types() -> (r: Vec<NodeType>)
    ensures
        r@.len() == 5,
        r@[0].id@ == "start"@ && r@[0].name@ == "Start"@ && r@[0].category@ == "Flow Control"@,
        r@[0].description@ == "Initiates workflow execution"@,
        r@[0].inputs@.len() == 0 && r@[0].outputs@.len() == 1 && r@[0].outputs@[0].name@ == "output"@,
        r@[0].config_schema is None,
        r@[1].id@ == "end"@ && r@[1].name@ == "End"@ && r@[1].category@ == "Flow Control"@,
        r@[1].description@ == "Terminates workflow execution"@,
        r@[1].inputs@.len() == 1 && r@[1].inputs@[0].name@ == "input"@ && r@[1].outputs@.len() == 0,
        r@[1].config_schema is None,
        r@[2].id@ == "agent_task"@ && r@[2].name@ == "Agent Task"@ && r@[2].category@ == "AI Agents"@,
        r@[2].description@ == "Executes a task using an AI agent"@,
        r@[2].inputs@.len() == 1 && r@[2].inputs@[0].name@ == "input"@,
        r@[2].outputs@.len() == 1 && r@[2].outputs@[0].name@ == "output"@,
        r@[2].config_schema matches Some(c) && c@ == "{\"properties\":{\"prompt\":{\"type\":\"string\",\"default\":\"Enter your prompt\"},\"model\":{\"type\":\"string\",\"default\":\"gpt-3.5-turbo\"}}}"@,
        r@[3].id@ == "condition"@ && r@[3].name@ == "Condition"@ && r@[3].category@ == "Flow Control"@,
        r@[3].description@ == "Branches workflow based on a condition"@,
        r@[3].inputs@.len() == 1 && r@[3].inputs@[0].name@ == "input"@,
        r@[3].outputs@.len() == 2 && r@[3].outputs@[0].name@ == "true"@ && r@[3].outputs@[1].name@ == "false"@,
        r@[3].config_schema matches Some(c) && c@ == "{\"properties\":{\"condition\":{\"type\":\"string\",\"default\":\"true\"}}}"@,
        r@[4].id@ == "transform"@ && r@[4].name@ == "Transform"@ && r@[4].category@ == "Data Processing"@,
        r@[4].description@ == "Transforms data using a template"@,
        r@[4].inputs@.len() == 1 && r@[4].inputs@[0].name@ == "input"@,
        r@[4].outputs@.len() == 1 && r@[4].outputs@[0].name@ == "output"@,
        r@[4].config_schema matches Some(c) && c@ == "{\"properties\":{\"template\":{\"type\":\"string\",\"default\":\"{{ input }}\"}}}"@,
{
    let mut r: Vec<NodeType> = Vec::new();
    r.push(node_type("start", "Start", "Flow Control", "Initiates workflow execution",
        inputs_named(&[]), outputs_named(&["output"]), None));
    r.push(node_type("end", "End", "Flow Control", "Terminates workflow execution",
        inputs_named(&["input"]), outputs_named(&[]), None));
    r.push(node_type("agent_task", "Agent Task", "AI Agents", "Executes a task using an AI agent",
        inputs_named(&["input"]), outputs_named(&["output"]),
        Some("{\"properties\":{\"prompt\":{\"type\":\"string\",\"default\":\"Enter your prompt\"},\"model\":{\"type\":\"string\",\"default\":\"gpt-3.5-turbo\"}}}")));
    r.push(node_type("condition", "Condition", "Flow Control", "Branches workflow based on a condition",
        inputs_named(&["input"]), outputs_named(&["true", "false"]),
        Some("{\"properties\":{\"condition\":{\"type\":\"string\",\"default\":\"true\"}}}")));
    r.push(node_type("transform", "Transform", "Data Processing", "Transforms data using a template",
        inputs_named(&["input"]), outputs_named(&["output"]),
        Some("{\"properties\":{\"template\":{\"type\":\"string\",\"default\":\"{{ input }}\"}}}")));
    r
}

} // verus!
