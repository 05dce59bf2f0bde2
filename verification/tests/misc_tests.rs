use the_agency::a2a::{AgentCapabilities, AgentId, AgentRegistry, local_registration, A2AConfig, MessagePriority, priority_level};
use the_agency::api::{health_response, HealthResponse, VERSION};
use the_agency::cache::{eviction_count, is_expired};
use the_agency::config::{
    check_config, default_chunk_overlap, default_chunk_size, default_crawl_depth, default_hard_limit_best_practices,
    default_max_age_days, default_max_best_practices, default_max_failure_lessons, default_max_pages,
    default_memory_retrieval_count, default_metric_window, default_min_reuse_count, default_reflection_depth,
    default_true, select_task_model, ConfigProblem, McpConfig, McpServerConfig, WorkflowConfig,
};
use the_agency::error::AgentError;
use the_agency::strmap::StrMap;
use the_agency::tools::BuiltinTools;
use the_agency::unified_storage::{InMemoryUnifiedStorage, MemoryThread, ResourceId};

#[test]
fn test_version() {
    assert!(VERSION.starts_with(char::is_numeric));
}

#[test]
fn test_health_response() {
    let response = HealthResponse { status: "ok".to_string(), version: "0.2.0".to_string() };

    assert_eq!(response.status, "ok");
}

#[test]
fn health_response_reports_version() {
    let r = health_response();
    assert_eq!(r.status, "ok");
    assert_eq!(r.version, "0.2.0");
}

#[test]
fn test_agent_id_creation() {
    let agent_id = AgentId::new("test_namespace", "test_agent");
    assert_eq!(agent_id.namespace, "test_namespace");
    assert_eq!(agent_id.name, "test_agent");
    assert!(!agent_id.instance.is_empty());
}

#[test]
fn agent_id_text_joins_parts() {
    let id = AgentId { namespace: "ns".to_string(), name: "a".to_string(), instance: "1".to_string() };
    assert_eq!(id.to_string(), "ns:a:1");
}

#[test]
fn priority_levels() {
    assert_eq!(priority_level(MessagePriority::Low), 0);
    assert_eq!(priority_level(MessagePriority::Critical), 3);
    assert!(MessagePriority::High > MessagePriority::Normal);
}

fn caps(services: &[&str]) -> AgentCapabilities {
    AgentCapabilities {
        services: services.iter().map(|s| s.to_string()).collect(),
        protocols: vec![],
        message_types: vec![],
        metadata: StrMap::new(),
    }
}

#[test]
fn registry_registers_discovers_and_unregisters() {
    let mut reg = AgentRegistry::new();
    let a = AgentId { namespace: "test".to_string(), name: "agent1".to_string(), instance: "i1".to_string() };
    let b = AgentId { namespace: "test".to_string(), name: "agent2".to_string(), instance: "i2".to_string() };
    reg.register(local_registration(a.clone(), caps(&["test_service"]), 5));
    reg.register(local_registration(b.clone(), caps(&["other"]), 6));
    let found = reg.discover_agents("test_service");
    assert_eq!(found.len(), 1);
    assert_eq!(found[0].agent_id.name, "agent1");
    assert_eq!(found[0].endpoints.get("local").map(|s| s.as_str()), Some("inmemory"));
    assert!(reg.get_agent_info(&b).is_some());
    reg.unregister(&a);
    assert!(reg.get_agent_info(&a).is_none());
    match reg.recipient(&a) {
        Err(AgentError::NotFound(m)) => assert_eq!(m, "Agent test:agent1:i1 not found"),
        _ => panic!("expected not found"),
    }
}

#[test]
fn a2a_default_config() {
    let c = A2AConfig::default();
    assert_eq!(c.agent_id.namespace, "default");
    assert_eq!(c.protocols.len(), 1);
    assert_eq!(c.protocols[0].1.endpoint, "http://localhost:8080");
    assert_eq!(c.discovery.ttl_secs, 90);
    assert_eq!(c.routing.circuit_breaker.failure_threshold, 5);
}

#[test]
fn test_mcp_server_management() {
    let mut config = McpConfig::default();

    let server_config = McpServerConfig {
        transport: "http".to_string(),
        url: Some("http://localhost:8000".to_string()),
        command: None,
        env: None,
        timeout: Some(30),
        auth_token: None,
        enabled: true,
    };

    config.add_server("test-server".to_string(), server_config.clone());
    assert!(config.servers.contains_key("test-server"));

    let removed = config.remove_server("test-server");
    assert!(removed.is_some());
    assert!(!config.servers.contains_key("test-server"));
}

#[test]
fn config_defaults() {
    assert_eq!(default_max_best_practices(), 100);
    assert_eq!(default_hard_limit_best_practices(), 500);
    assert_eq!(default_max_failure_lessons(), 50);
    assert_eq!(default_min_reuse_count(), 2);
    assert_eq!(default_max_age_days(), 90);
    assert!(default_true());
    assert_eq!(default_metric_window(), 30);
    assert_eq!(default_reflection_depth(), "detailed");
    assert_eq!(default_memory_retrieval_count(), 5);
    assert_eq!(default_crawl_depth(), 2);
    assert_eq!(default_max_pages(), 50);
    assert_eq!(default_chunk_size(), 1000);
    assert_eq!(default_chunk_overlap(), 200);
    let w = WorkflowConfig::default();
    assert_eq!(w.checkpoint_interval, 5);
    assert!(!w.auto_checkpoint);
    let m = McpConfig::default();
    assert_eq!(m.default_timeout, 30);
    assert_eq!(m.max_concurrent_calls, 5);
}

#[test]
fn test_config_validation() {
    // The default configuration passes.
    assert!(check_config("http://localhost:11434", "llama3.2", "nomic-embed-text", 768, "Generic AI Agent", 20).is_none());
    // An Ollama URL that is not HTTP fails.
    assert!(check_config("invalid-url", "llama3.2", "nomic-embed-text", 768, "Generic AI Agent", 20).is_some());
    // An empty text model fails.
    assert!(check_config("http://localhost:11434", "", "nomic-embed-text", 768, "Generic AI Agent", 20).is_some());
}

#[test]
fn config_checks_in_order() {
    assert_eq!(check_config("http://localhost:11434", "llama3.2", "nomic-embed-text", 768, "Generic AI Agent", 20), None);
    assert_eq!(check_config("invalid-url", "m", "e", 1, "n", 1), Some(ConfigProblem::InvalidOllamaUrl));
    assert_eq!(check_config("http://x", "", "e", 1, "n", 1), Some(ConfigProblem::EmptyTextModel));
    assert_eq!(check_config("http://x", "m", "", 1, "n", 1), Some(ConfigProblem::EmptyEmbeddingModel));
    assert_eq!(check_config("http://x", "m", "e", 0, "n", 1), Some(ConfigProblem::ZeroEmbeddingDimension));
    assert_eq!(check_config("http://x", "m", "e", 1, "", 1), Some(ConfigProblem::EmptyAgentName));
    assert_eq!(check_config("http://x", "m", "e", 1, "n", 0), Some(ConfigProblem::ZeroHistoryLength));
}

#[test]
fn task_model_by_name_then_keyword() {
    let mut kw: StrMap<Vec<String>> = StrMap::new();
    kw.insert("code".to_string(), vec!["Rust".to_string(), "compile".to_string()]);
    kw.insert("summary".to_string(), vec!["summarize".to_string()]);
    assert_eq!(select_task_model("summary", &kw), Some("summary".to_string()));
    assert_eq!(select_task_model("Please SUMMARIZE this", &kw), Some("summary".to_string()));
    assert_eq!(select_task_model("write rust", &kw), Some("code".to_string()));
    assert_eq!(select_task_model("chat", &kw), None);
}

#[test]
fn cache_expiry_and_eviction() {
    let created = "2024-01-01T00:00:00Z";
    let base: i64 = 1_704_067_200;
    assert!(!is_expired(created, base + 3_600, 0, 3600));
    assert!(is_expired(created, base + 3_600, 1, 3600));
    // An instant that does not parse counts as created now.
    assert!(!is_expired("not a time", base, 0, 0));
    assert!(is_expired("not a time", base, 0, -1));
    // Instants outside the nanosecond range of an i64 still have an age.
    assert!(is_expired("1500-01-01T00:00:00Z", base, 0, 3600));
    assert!(!is_expired("3000-01-01T00:00:00Z", base, 0, 3600));
    assert_eq!(eviction_count(1005, 1000), 5);
    assert_eq!(eviction_count(10, 1000), 0);
}

#[test]
fn builtin_tools_are_listed() {
    let tools = BuiltinTools::new();
    let names = tools.list_tools();
    assert_eq!(names, vec!["system_info", "datetime_info", "location_info"]);
    assert!(tools.has_tool("datetime_info"));
    assert!(!tools.has_tool("weather"));
}

#[test]
fn resource_key_joins_namespace_and_id() {
    assert_eq!(ResourceId::new("ns", "id1").to_key(), "ns:id1");
}

#[test]
fn storage_reads_back_what_was_written() {
    let mut s = InMemoryUnifiedStorage::new();
    let r = ResourceId::new("ns", "r1");
    let t = MemoryThread {
        thread_id: "t1".to_string(),
        resource_id: r.clone(),
        title: "First".to_string(),
        created_at_secs: 1,
        updated_at_secs: 1,
        metadata: StrMap::new(),
        message_count: 0,
    };
    s.create_memory_thread(t);
    assert_eq!(s.get_memory_thread("t1").map(|t| t.title.clone()), Some("First".to_string()));
    assert_eq!(s.list_memory_threads(&r).len(), 1);
    assert_eq!(s.list_memory_threads(&ResourceId::new("ns", "r2")).len(), 0);
    s.delete_memory_thread("t1");
    assert!(s.get_memory_thread("t1").is_none());
    match s.resume_workflow("w9") {
        Err(AgentError::Config(m)) => assert_eq!(m, "Workflow w9 not found"),
        _ => panic!("expected not found"),
    }
}

#[test]
fn agent_instances_are_random_uuids() {
    let a = AgentId::new("ns", "agent");
    let b = AgentId::new("ns", "agent");
    assert_ne!(a.instance, b.instance);
    let text: Vec<char> = a.instance.chars().collect();
    assert_eq!(text.len(), 36);
    for (i, c) in text.iter().enumerate() {
        if i == 8 || i == 13 || i == 18 || i == 23 {
            assert_eq!(*c, '-');
        } else {
            assert!(c.is_ascii_hexdigit() && !c.is_ascii_uppercase());
        }
    }
    assert_eq!(text[14], '4');
    assert!(matches!(text[19], '8' | '9' | 'a' | 'b'));
}
