use the_agency::error::{AgentError, LlmError, MemoryError};
use the_agency::llm::manager::{FallbackPlan, ManagerConfig, NextCall};
use the_agency::llm::providers::anthropic::AnthropicMessage;
use the_agency::llm::providers::base::OpenAICompatible;
use the_agency::llm::providers::google::GeminiContent;
use the_agency::llm::providers::openai::OpenAIAdapter;
use the_agency::llm::providers::openai_compatible::OpenAIMessage;
use the_agency::llm::providers::openai_variants::{AzureOpenAIAdapter, GroqAdapter, TogetherAdapter};
use the_agency::agent::limit_history;
use the_agency::api::conditional_branch;
use the_agency::llm::{
    assistant_message, is_success_status, ollama_api_url, ollama_failure, system_message, user_message, Message, Role,
};

struct TestProvider {
    base_url: String,
    api_key: Option<String>,
}

impl OpenAICompatible for TestProvider {
    fn base_url(&self) -> &str {
        &self.base_url
    }

    fn api_key(&self) -> Option<&str> {
        self.api_key.as_deref()
    }
}

#[test]
fn test_url_building() {
    let provider = TestProvider {
        base_url: "https://api.example.com/v1".to_string(),
        api_key: Some("test-key".to_string()),
    };
    let _base_url = provider.base_url().to_string();

    assert_eq!(provider.build_url("chat/completions"), "https://api.example.com/v1/chat/completions");
    assert_eq!(provider.build_url("/embeddings"), "https://api.example.com/v1/embeddings");
}

#[test]
fn test_auth_headers() {
    let provider = TestProvider {
        base_url: "https://api.example.com".to_string(),
        api_key: Some("test-key".to_string()),
    };

    let headers = provider.auth_headers();
    assert_eq!(headers.len(), 1);
    assert_eq!(headers[0].0, "Authorization");
    assert_eq!(headers[0].1, "Bearer test-key");
}

#[test]
fn test_adapter_creation() {
    let adapter = OpenAIAdapter::new(Some("test-key".to_string()), None);
    assert_eq!(adapter.base_url(), "https://api.openai.com/v1");
    assert_eq!(adapter.api_key(), Some("test-key"));
}

#[test]
fn test_custom_base_url() {
    let adapter = OpenAIAdapter::new(Some("test-key".to_string()), Some("https://custom.endpoint.com/v1".to_string()));
    assert_eq!(adapter.base_url(), "https://custom.endpoint.com/v1");
}

#[test]
fn test_groq_adapter() {
    let adapter = GroqAdapter::new(Some("test-key".to_string()));
    assert_eq!(adapter.base_url(), "https://api.groq.com/openai/v1");
    assert_eq!(adapter.api_key(), Some("test-key"));
}

#[test]
fn test_together_adapter() {
    let adapter = TogetherAdapter::new(Some("test-key".to_string()));
    assert_eq!(adapter.base_url(), "https://api.together.xyz/v1");
}

#[test]
fn test_azure_endpoint_transform() {
    let adapter = AzureOpenAIAdapter::new(
        "https://my-resource.openai.azure.com".to_string(),
        "gpt-4-deployment".to_string(),
        Some("test-key".to_string()),
        Some("2024-02-15-preview".to_string()),
    );

    let chat_endpoint = adapter.transform_endpoint("chat/completions");
    assert!(chat_endpoint.contains("gpt-4-deployment"));
    assert!(chat_endpoint.contains("2024-02-15-preview"));
}

#[test]
fn azure_urls_follow_the_deployment() {
    let a = AzureOpenAIAdapter::new("https://x.openai.azure.com/".to_string(), "dep".to_string(), None, None);
    assert_eq!(a.transform_endpoint("models"), "openai/models?api-version=2024-02-15-preview");
    assert_eq!(a.api_key(), None);
    assert!(a.auth_headers().is_empty());
    assert_eq!(
        a.build_url("embeddings"),
        "https://x.openai.azure.com/openai/deployments/dep/embeddings?api-version=2024-02-15-preview"
    );
}

#[test]
fn anthropic_test_message_conversion() {
    let msg = Message { role: Role::User, content: "Hello".to_string() };

    let anthropic_msg = AnthropicMessage::from(&msg);
    assert_eq!(anthropic_msg.role, "user");
    assert_eq!(anthropic_msg.content, "Hello");
}

#[test]
fn google_test_message_conversion() {
    let msg = Message { role: Role::User, content: "Hello".to_string() };

    let gemini_content = GeminiContent::from(&msg);
    assert_eq!(gemini_content.role, "user");
    assert_eq!(gemini_content.parts[0].text, "Hello");
}

#[test]
fn openai_compatible_test_message_conversion() {
    let msg = Message { role: Role::User, content: "Hello".to_string() };

    let openai_msg = OpenAIMessage::from(&msg);
    assert_eq!(openai_msg.role, "user");
    assert_eq!(openai_msg.content, "Hello");
}

#[test]
fn test_error_retryable() {
    let timeout_error = AgentError::Llm(LlmError::Timeout);
    assert!(timeout_error.is_retryable());

    let config_error = AgentError::Config("invalid config".to_string());
    assert!(!config_error.is_retryable());
}

#[test]
fn test_error_category() {
    let llm_error = AgentError::Llm(LlmError::Timeout);
    assert_eq!(llm_error.category(), "llm");

    let memory_error = AgentError::Memory(MemoryError::NotInitialized);
    assert_eq!(memory_error.category(), "memory");
}

#[test]
fn message_constructors_keep_role_and_content() {
    let s = system_message("You are a helpful assistant");
    let u = user_message("Hello");
    let a = assistant_message("Hi there!");
    assert_eq!(s.role, Role::System);
    assert_eq!(s.content, "You are a helpful assistant");
    assert_eq!(u.role, Role::User);
    assert_eq!(u.content, "Hello");
    assert_eq!(a.role, Role::Assistant);
    assert_eq!(a.content, "Hi there!");
}

#[test]
fn fallback_plan_retries_then_falls_back_then_gives_up() {
    let config = ManagerConfig { enable_fallback: true, max_retries: 2, retry_delay_ms: 10 };
    let (mut plan, first) = FallbackPlan::start(config, 1);
    assert!(matches!(first, NextCall::Call { provider: 0 }));
    let n = plan.record_failure(AgentError::Llm(LlmError::Timeout));
    assert!(matches!(n, NextCall::Retry { provider: 0, delay_ms: 10 }));
    let n = plan.record_failure(AgentError::Llm(LlmError::Timeout));
    assert!(matches!(n, NextCall::Call { provider: 1 }));
    let n = plan.record_failure(AgentError::Llm(LlmError::Timeout));
    assert!(matches!(n, NextCall::Retry { provider: 1, delay_ms: 10 }));
    let n = plan.record_failure(AgentError::Llm(LlmError::Timeout));
    assert!(matches!(n, NextCall::GiveUp(AgentError::Llm(LlmError::AllProvidersFailed))));
}

#[test]
fn fallback_plan_without_fallback_returns_primary_error() {
    let config = ManagerConfig { enable_fallback: false, max_retries: 1, retry_delay_ms: 0 };
    let (mut plan, first) = FallbackPlan::start(config, 3);
    assert!(matches!(first, NextCall::Call { provider: 0 }));
    let n = plan.record_failure(AgentError::Config("bad".to_string()));
    match n {
        NextCall::GiveUp(AgentError::Config(m)) => assert_eq!(m, "bad"),
        _ => panic!("expected the primary's error"),
    }
}

#[test]
fn fallback_plan_with_no_attempts_reports_no_error_recorded() {
    let config = ManagerConfig { enable_fallback: true, max_retries: 0, retry_delay_ms: 0 };
    let (_plan, first) = FallbackPlan::start(config, 0);
    match first {
        NextCall::GiveUp(AgentError::Llm(LlmError::Unknown(m))) => assert_eq!(m, "No error recorded"),
        _ => panic!("expected to give up"),
    }
}

#[test]
fn llm_test_message_creation() {
    let system_msg = system_message("You are a helpful assistant");
    assert_eq!(system_msg.role, Role::System);
    assert_eq!(system_msg.content, "You are a helpful assistant");

    let user_msg = user_message("Hello");
    assert_eq!(user_msg.role, Role::User);
    assert_eq!(user_msg.content, "Hello");

    let assistant_msg = assistant_message("Hi there!");
    assert_eq!(assistant_msg.role, Role::Assistant);
    assert_eq!(assistant_msg.content, "Hi there!");
}

#[test]
fn test_api_url_generation() {
    let base = "http://localhost:11434";
    assert_eq!(ollama_api_url(base, "chat"), "http://localhost:11434/api/chat");
    assert_eq!(ollama_api_url(base, "embeddings"), "http://localhost:11434/api/embeddings");
    assert_eq!(ollama_api_url("http://localhost:11434//", "chat"), "http://localhost:11434/api/chat");
}

#[test]
fn history_is_limited_to_the_maximum() {
    let conversation = vec![
        system_message("sys"),
        user_message("u1"),
        assistant_message("a1"),
        user_message("u2"),
        assistant_message("a2"),
    ];
    let limited = limit_history(conversation.clone(), 3);
    let contents: Vec<&str> = limited.iter().map(|m| m.content.as_str()).collect();
    assert_eq!(contents, vec!["sys", "u2", "a2"]);
    let plain = limit_history(conversation[1..].to_vec(), 2);
    let contents: Vec<&str> = plain.iter().map(|m| m.content.as_str()).collect();
    assert_eq!(contents, vec!["u2", "a2"]);
    assert_eq!(limit_history(conversation.clone(), 5).len(), 5);
    assert!(limit_history(conversation, 0).is_empty());
}

#[test]
fn unsuccessful_ollama_replies_become_errors() {
    assert!(is_success_status(200));
    assert!(is_success_status(299));
    assert!(!is_success_status(404));
    assert!(matches!(ollama_failure(Some("boom".to_string()), false), LlmError::GenerationFailed(t) if t == "boom"));
    assert!(matches!(ollama_failure(None, true), LlmError::EmbeddingFailed(t) if t == "Unknown error"));
}

#[test]
fn conditional_nodes_pick_a_branch() {
    assert_eq!(conditional_branch(true), ("true_value", true));
    assert_eq!(conditional_branch(false), ("false_value", false));
}
