//! Error kinds of the agent and how they are classified.

use vstd::prelude::*;

verus! {

/// Errors of language-model operations.
#[derive(Debug, Clone, PartialEq, Eq)]
pub enum LlmError {
    ConnectionFailed(String),
    ModelNotFound(String),
    GenerationFailed(String),
    EmbeddingFailed(String),
    InvalidResponse(String),
    Timeout,
    AllProvidersFailed,
    Unauthorized,
    RateLimited,
    ServerError(String),
    Unknown(String),
}

/// Errors of the memory and vector store.
#[derive(Debug, Clone, PartialEq, Eq)]
pub enum MemoryError {
    NotInitialized,
    InvalidDimension { expected: usize, actual: usize },
    SearchFailed(String),
    StorageFailed(String),
    IndexNotFound(String),
}

/// Errors of MCP tool servers.
#[derive(Debug, Clone, PartialEq, Eq)]
pub enum McpError {
    ConnectionFailed(String),
    ToolNotFound(String),
    ToolExecutionFailed { tool: String, reason: String },
    InvalidParameters(String),
    ProtocolError(String),
    Timeout(String),
}

/// The agent's error. Failures that come from I/O, serialization, HTTP, the
/// database or elsewhere carry the text of the underlying error.
#[derive(Debug, Clone, PartialEq, Eq)]
pub enum AgentError {
    Llm(LlmError),
    Memory(MemoryError),
    Mcp(McpError),
    Config(String),
    Workflow(String),
    Io(String),
    Serialization(String),
    Http(String),
    Database(String),
    Generic(String),
    A2A(String),
    Network(String),
    NotFound(String),
}

/// Whether an operation that failed with `e` may succeed when tried again.
pub open spec fn retryable(e: AgentError) -> bool {
    match e {
        AgentError::Llm(LlmError::Timeout) => true,
        AgentError::Llm(LlmError::ConnectionFailed(_)) => true,
        AgentError::Mcp(McpError::ConnectionFailed(_)) => true,
        AgentError::Mcp(McpError::Timeout(_)) => true,
        AgentError::Http(_) => true,
        _ => false,
    }
}

/// The category name of an error, for logs and metrics.
pub open spec fn category_name(e: AgentError) -> Seq<char> {
    match e {
        AgentError::Llm(_) => "llm"@,
        AgentError::Memory(_) => "memory"@,
        AgentError::Mcp(_) => "mcp"@,
        AgentError::Config(_) => "config"@,
        AgentError::Workflow(_) => "workflow"@,
        AgentError::Io(_) => "io"@,
        AgentError::Serialization(_) => "serialization"@,
        AgentError::Http(_) => "http"@,
        AgentError::Database(_) => "database"@,
        AgentError::Generic(_) => "generic"@,
        AgentError::A2A(_) => "a2a"@,
        AgentError::Network(_) => "network"@,
        AgentError::NotFound(_) => "not_found"@,
    }
}

impl AgentError {
    /// Whether the error is worth retrying.
    pub fn is_retryable(&self) -> (r: bool)
        ensures
            r == retryable(*self),
    {
        match self {
            AgentError::Llm(LlmError::Timeout) => true,
            AgentError::Llm(LlmError::ConnectionFailed(_)) => true,
            AgentError::Mcp(McpError::ConnectionFailed(_)) => true,
            AgentError::Mcp(McpError::Timeout(_)) => true,
            AgentError::Http(_) => true,
            _ => false,
        }
    }

    /// The error's category for logging and metrics.
    pub fn category(&self) -> (r: &'static str)
        ensures
            r@ == category_name(*self),
    {
        match self {
            AgentError::Llm(_) => "llm",
            AgentError::Memory(_) => "memory",
            AgentError::Mcp(_) => "mcp",
            AgentError::Config(_) => "config",
            AgentError::Workflow(_) => "workflow",
            AgentError::Io(_) => "io",
            AgentError::Serialization(_) => "serialization",
            AgentError::Http(_) => "http",
            AgentError::Database(_) => "database",
            AgentError::Generic(_) => "generic",
            AgentError::A2A(_) => "a2a",
            AgentError::Network(_) => "network",
            AgentError::NotFound(_) => "not_found",
        }
    }
}

/// `e` is the language-model error for an unsuccessful HTTP `status`
/// whose response body read `body`.
pub open spec fn is_status_error(status: u16, body: Seq<char>, e: LlmError) -> bool {
    if status == 401 {
        e == LlmError::Unauthorized
    } else if status == 429 {
        e == LlmError::RateLimited
    } else if 500 <= status <= 599 {
        e matches LlmError::ServerError(t) && t@ == body
    } else {
        e matches LlmError::GenerationFailed(t) && t@ == body
    }
}

/// The language-model error for an unsuccessful HTTP response.
pub fn error_for_status(status: u16, body: String) -> (e: LlmError)
    ensures
        is_status_error(status, body@, e),
{
    if status == 401 {
        LlmError::Unauthorized
    } else if status == 429 {
        LlmError::RateLimited
    } else if 500 <= status && status <= 599 {
        LlmError::ServerError(body)
    } else {
        LlmError::GenerationFailed(body)
    }
}

} // verus!
