//! Provider kinds and fallback settings.

use vstd::prelude::*;

verus! {

/// The supported language-model providers.
#[derive(Debug, Clone, Copy, PartialEq, Eq, Structural)]
pub enum ProviderType {
    Ollama,
    OpenAI,
    Anthropic,
    Google,
    AzureOpenAI,
    Groq,
    Together,
    Replicate,
    HuggingFace,
    Cohere,
}

/// The lower-case name of a provider kind.
pub open spec fn provider_name(p: ProviderType) -> Seq<char> {
    match p {
        ProviderType::Ollama => "ollama"@,
        ProviderType::OpenAI => "openai"@,
        ProviderType::Anthropic => "anthropic"@,
        ProviderType::Google => "google"@,
        ProviderType::AzureOpenAI => "azure-openai"@,
        ProviderType::Groq => "groq"@,
        ProviderType::Together => "together"@,
        ProviderType::Replicate => "replicate"@,
        ProviderType::HuggingFace => "huggingface"@,
        ProviderType::Cohere => "cohere"@,
    }
}

impl ProviderType {
    /// The provider's lower-case name.
    pub fn to_string(&self) -> (s: String)
        ensures
            s@ == provider_name(*self),
    {
        let name = match self {
            ProviderType::Ollama => "ollama",
            ProviderType::OpenAI => "openai",
            ProviderType::Anthropic => "anthropic",
            ProviderType::Google => "google",
            ProviderType::AzureOpenAI => "azure-openai",
            ProviderType::Groq => "groq",
            ProviderType::Together => "together",
            ProviderType::Replicate => "replicate",
            ProviderType::HuggingFace => "huggingface",
            ProviderType::Cohere => "cohere",
        };
        String::from_str(name)
    }
}

/// How several providers share the work.
#[derive(Debug, Clone, Copy, PartialEq, Eq, Structural)]
pub enum FallbackStrategy {
    Priority,
    RoundRobin,
    CostOptimized,
    TaskBased,
}

impl Default for FallbackStrategy {
    fn default() -> (r: Self)
        ensures
            r == FallbackStrategy::Priority,
    {
        FallbackStrategy::Priority
    }
}

/// Settings for falling back from one provider to another.
#[derive(Debug, Clone)]
pub struct FallbackConfig {
    pub enabled: bool,
    pub max_retries: u32,
    pub retry_delay_ms: u64,
    pub strategy: FallbackStrategy,
}

/// The default fallback priority of a provider.
pub fn default_priority() -> (r: u8)
    ensures
        r == 10,
{
    10
}

/// The default token limit of a generation.
pub fn default_max_tokens() -> (r: u32)
    ensures
        r == 4096,
{
    4096
}

/// The default request timeout, in seconds.
pub fn default_timeout() -> (r: u64)
    ensures
        r == 60,
{
    60
}

/// The default number of retries per provider.
pub fn default_max_retries() -> (r: u32)
    ensures
        r == 3,
{
    3
}

/// The default delay between retries, in milliseconds.
pub fn default_retry_delay() -> (r: u64)
    ensures
        r == 1000,
{
    1000
}

impl Default for FallbackConfig {
    fn default() -> (r: Self)
        ensures
            !r.enabled,
            r.max_retries == 3,
            r.retry_delay_ms == 1000,
            r.strategy == FallbackStrategy::Priority,
    {
        FallbackConfig {
            enabled: false,
            max_retries: default_max_retries(),
            retry_delay_ms: default_retry_delay(),
            strategy: FallbackStrategy::Priority,
        }
    }
}

} // verus!
