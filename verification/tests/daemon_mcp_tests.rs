use the_agency::daemon::{parse_daemon_args, parse_port, DaemonArgs, DaemonConfig};
use the_agency::knowledge::fetcher::FetchedContent;
use the_agency::mcp::{tool_result_from_reply, McpTool, ReplyItem, ToolCall, ToolCatalog, ToolContent};

fn args(list: &[&str]) -> Vec<String> {
    list.iter().map(|s| s.to_string()).collect()
}

#[test]
fn agency_daemon_test_default_config() {
    let config = DaemonConfig::default();
    assert_eq!(config.host, "127.0.0.1");
    assert_eq!(config.port, 8080);
    assert!(!config.daemon_mode);
}

#[test]
fn daemon_args_set_options() {
    match parse_daemon_args(&args(&["--host", "0.0.0.0", "--port", "9000", "--daemon", "--pid-file", "/tmp/a.pid"])) {
        DaemonArgs::Run(c) => {
            assert_eq!(c.host, "0.0.0.0");
            assert_eq!(c.port, 9000);
            assert!(c.daemon_mode);
            assert_eq!(c.pid_file.as_deref(), Some("/tmp/a.pid"));
            assert!(c.log_file.is_none());
        }
        _ => panic!("expected a configuration"),
    }
}

#[test]
fn daemon_bad_port_keeps_default() {
    match parse_daemon_args(&args(&["--port", "99999"])) {
        DaemonArgs::Run(c) => assert_eq!(c.port, 8080),
        _ => panic!("expected a configuration"),
    }
}

#[test]
fn daemon_option_without_value_is_ignored() {
    match parse_daemon_args(&args(&["--config"])) {
        DaemonArgs::Run(c) => assert_eq!(c.config_path, DaemonConfig::default().config_path),
        _ => panic!("expected a configuration"),
    }
}

#[test]
fn daemon_help_and_unknown() {
    assert!(matches!(parse_daemon_args(&args(&["-h"])), DaemonArgs::Help));
    assert!(matches!(parse_daemon_args(&args(&["--daemon", "--help"])), DaemonArgs::Help));
    match parse_daemon_args(&args(&["--verbose"])) {
        DaemonArgs::Unknown(a) => assert_eq!(a, "--verbose"),
        _ => panic!("expected an unknown argument"),
    }
}

#[test]
fn ports_parse_as_u16_does() {
    assert_eq!(parse_port("80"), Some(80));
    assert_eq!(parse_port("+80"), Some(80));
    assert_eq!(parse_port("65535"), Some(65535));
    assert_eq!(parse_port("65536"), None);
    assert_eq!(parse_port(""), None);
    assert_eq!(parse_port("+"), None);
    assert_eq!(parse_port("8a"), None);
    assert_eq!(parse_port("-1"), None);
}

#[test]
fn test_tool_call_creation() {
    let call = ToolCall {
        id: "test-id".to_string(),
        name: "test-tool".to_string(),
        arguments: serde_json::from_str("{\"param\": \"value\"}").unwrap(),
    };

    assert_eq!(call.name, "test-tool");
    assert_eq!(call.arguments["param"], "value");
}

#[test]
fn test_fetched_content_creation() {
    let content = FetchedContent {
        url: "https://example.com".to_string(),
        content: "Test content".to_string(),
        title: Some("Test".to_string()),
        metadata: serde_json::from_str("{\"author\": \"Test Author\"}").unwrap(),
        content_type: "html".to_string(),
        fetched_at: "2024-01-01T00:00:00+00:00".to_string(),
    };

    assert_eq!(content.url, "https://example.com");
    assert_eq!(content.content, "Test content");
    assert_eq!(content.title, Some("Test".to_string()));
}

#[test]
fn test_mcp_client_creation() {
    let catalog = ToolCatalog::new();
    assert_eq!(catalog.tool_names().len(), 0);
    assert_eq!(catalog.stats(0).servers.len(), 0);
}

fn tool(name: &str) -> McpTool {
    McpTool { name: name.to_string(), description: String::new(), input_schema: serde_json::Value::Null }
}

#[test]
fn catalog_finds_tools_by_server() {
    let mut catalog = ToolCatalog::new();
    catalog.set_tools("files".to_string(), vec![tool("read"), tool("write")]);
    catalog.set_tools("web".to_string(), vec![tool("fetch")]);
    let (server, found) = catalog.find_tool_server("fetch").unwrap();
    assert_eq!(server, "web");
    assert_eq!(found.name, "fetch");
    assert!(catalog.find_tool_server("delete").is_none());
    let stats = catalog.stats(2);
    assert_eq!(stats.total_tools, 3);
    assert_eq!(stats.connected_servers, 2);
    catalog.remove_server("web");
    assert!(catalog.find_tool_server("fetch").is_none());
    assert_eq!(catalog.tool_names().len(), 2);
}

#[test]
fn tool_replies_become_results() {
    let items = vec![
        ReplyItem { parsed: Some(ToolContent::Text { text: "a".to_string() }), text: Some("ignored".to_string()) },
        ReplyItem { parsed: None, text: Some("b".to_string()) },
        ReplyItem { parsed: None, text: None },
    ];
    let r = tool_result_from_reply("id1".to_string(), Some(items), "{}".to_string(), None);
    assert_eq!(r.id, "id1");
    assert!(!r.is_error);
    assert_eq!(r.content.len(), 2);
    assert!(matches!(&r.content[1], ToolContent::Text { text } if text == "b"));
    let r = tool_result_from_reply("id2".to_string(), None, "{\"x\":1}".to_string(), Some(true));
    assert!(r.is_error);
    assert!(matches!(&r.content[0], ToolContent::Text { text } if text == "{\"x\":1}"));
}
