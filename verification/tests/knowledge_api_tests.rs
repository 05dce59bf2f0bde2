use the_agency::api::{
    default_ui_node_types, node_kind, node_prompt, output_content, split_chunks, unknown_node_warning, NodeInput, NodeKind, VisualRun,
    VisualWorkflowConnection,
};
use the_agency::error::AgentError;
use the_agency::knowledge::chunker::{chunk_markdown, chunk_text};
use the_agency::knowledge::consolidator::{synthesize_text, ChunkText};
use the_agency::knowledge::fetcher::{extract_text_from_html, http_content_text, FetcherConfig, WebFetcher};
use the_agency::knowledge::manager::{plan_management, pruned_result, ManagementPlan, ManagementResult};
use the_agency::knowledge::types::{DocumentFormat, KnowledgeSource};
use the_agency::mcp::ToolContent;
use the_agency::strmap::StrMap;

#[test]
fn test_fetcher_config_default() {
    let config = FetcherConfig::default();
    assert_eq!(config.max_content_size, 1024 * 1024);
    assert_eq!(config.timeout, 30);
    assert!(config.extract_main_content);
}

#[test]
fn fetcher_keeps_its_settings() {
    let f = WebFetcher::new(FetcherConfig::default());
    assert_eq!(f.settings().user_agent, "the-agency/0.1.0");
}

#[test]
fn test_extract_text_from_html() {
    let html = r#"
            <html>
                <body>
                    <h1>Title</h1>
                    <p>Paragraph 1</p>
                    <p>Paragraph 2</p>
                </body>
            </html>
        "#;

    let text = extract_text_from_html(html);
    assert!(text.contains("Title"));
    assert!(text.contains("Paragraph 1"));
    assert!(text.contains("Paragraph 2"));
    assert!(!text.contains("<html>"));
}

#[test]
fn html_text_exact() {
    assert_eq!(extract_text_from_html("<p>a</p>\n\n  <b>b c</b> \n<i"), "a\nb c\n<i");
}

#[test]
fn http_text_joins_texts_and_resources() {
    let c = vec![
        ToolContent::Text { text: "ab".to_string() },
        ToolContent::Image { data: "x".to_string(), mime_type: "y".to_string() },
        ToolContent::Resource { uri: "u".to_string(), text: Some("cd".to_string()) },
    ];
    assert_eq!(http_content_text(&c), "abcd");
}

#[test]
fn test_chunk_short_text() {
    let text = "This is a short text.";
    let chunks = chunk_text(text, 1000, 200, None).unwrap();

    assert_eq!(chunks.len(), 1);
    assert_eq!(chunks[0], text);
}

#[test]
fn test_chunk_long_text() {
    let text = "This is sentence one. This is sentence two. This is sentence three. This is sentence four.";
    let chunks = chunk_text(text, 50, 10, Some(5)).unwrap();

    assert!(chunks.len() > 1, "Long text should be chunked");
    assert!(chunks.len() <= 5, "Should respect max_chunks limit");
}

#[test]
fn chunks_end_at_sentences() {
    let text = "This is sentence one. This is sentence two. This is sentence three. This is sentence four.";
    let chunks = chunk_text(text, 50, 10, Some(5)).unwrap();
    assert_eq!(chunks[0], "This is sentence one. This is sentence two.");
}

#[test]
fn chunk_text_overlapping_pieces() {
    let text = "This is sentence one. This is sentence two. This is sentence three. This is sentence four.";
    let chunks = chunk_text(text, 50, 10, Some(5)).unwrap();
    assert_eq!(
        chunks,
        vec![
            "This is sentence one. This is sentence two.",
            "tence two. This is sentence three.",
            "nce three. This is sentence four.",
            "ence four.",
            "nce four.",
        ]
    );
}

#[test]
fn chunk_text_counts_bytes_of_multibyte_text() {
    let text = "Héllo wörld. Ça va très bien! Encore une phrase ici.";
    let chunks = chunk_text(text, 19, 3, None).unwrap();
    assert_eq!(
        chunks,
        vec![
            "Héllo wörld.", "ld.", "d.", ".", " Ça va très bien!", "en!", "n!", "!",
            " Encore une phrase", "ase ici.", "ci.", "i.", ".",
        ]
    );
    let cjk = "日本語のテキストです。これは二番目の文です。";
    let chunks = chunk_text(cjk, 12, 0, None).unwrap();
    assert_eq!(chunks, vec!["日本語の", "テキスト", "です。こ", "れは二番", "目の文で", "す。"]);
}

#[test]
fn chunk_text_refuses_a_cut_inside_a_character() {
    let text = "Héllo wörld. Ça va très bien! Encore une phrase ici.";
    assert!(chunk_text(text, 20, 5, None).is_none());
    assert!(chunk_text("日本語のテキストです。これは二番目の文です。", 10, 0, None).is_none());
}

#[test]
fn test_chunk_markdown() {
    let markdown = "# Header 1\nContent 1\n\n## Header 2\nContent 2\n\n### Header 3\nContent 3";
    let chunks = chunk_markdown(markdown, 1000);

    assert!(!chunks.is_empty(), "Should produce chunks");
    assert!(chunks[0].contains("Header"), "Should preserve headers");
}

#[test]
fn markdown_splits_at_heading_past_half_size() {
    let chunks = chunk_markdown("aaaaaa\n# b\nc", 10);
    assert_eq!(chunks, vec!["aaaaaa", "# b\nc"]);
}

#[test]
fn markdown_closes_full_chunk() {
    let chunks = chunk_markdown("abcd\r\nefgh\nij", 10);
    assert_eq!(chunks, vec!["abcd\nefgh", "ij"]);
}

#[test]
fn markdown_counts_bytes() {
    // Four two-byte characters and a newline fill a chunk of nine bytes.
    let chunks = chunk_markdown("\u{e9}\u{e9}\u{e9}\u{e9}\nx", 9);
    assert_eq!(chunks, vec!["\u{e9}\u{e9}\u{e9}\u{e9}", "x"]);
}

#[test]
fn markdown_blank_gives_nothing() {
    assert!(chunk_markdown("\n  \n", 100).is_empty());
}

#[test]
fn management_plans() {
    assert_eq!(plan_management(5, 100, 500, true), ManagementPlan::Decided(ManagementResult::NoActionNeeded { current_count: 5 }));
    assert_eq!(plan_management(150, 100, 500, true), ManagementPlan::Decided(ManagementResult::ConsolidationNeeded { current_count: 150, threshold: 100 }));
    assert_eq!(plan_management(150, 100, 500, false), ManagementPlan::Decided(ManagementResult::NoActionNeeded { current_count: 150 }));
    assert_eq!(plan_management(600, 100, 500, true), ManagementPlan::Prune);
    assert_eq!(pruned_result(600, 500), ManagementResult::Pruned { removed_count: 500, remaining_count: 100 });
}

#[test]
fn knowledge_source_names() {
    let s = KnowledgeSource::Document { path: "a.md".to_string(), format: DocumentFormat::Markdown };
    assert_eq!(s.to_string(), "Document: a.md");
    let w = KnowledgeSource::Web { url: "https://x".to_string(), title: None, crawl_depth: 1 };
    assert_eq!(w.to_string(), "Web: https://x");
}

#[test]
fn text_splitter_chunks_characters() {
    assert_eq!(split_chunks("abcdefg", 3), vec!["abc", "def", "g"]);
    assert!(split_chunks("", 3).is_empty());
}

#[test]
fn node_kinds_and_inputs() {
    assert_eq!(node_kind("text_splitter"), NodeKind::TextSplitter);
    assert_eq!(node_kind("weird"), NodeKind::Unknown);
    assert_eq!(unknown_node_warning("weird"), "Unknown node type: weird");
    let mut fields = StrMap::new();
    fields.insert("content".to_string(), "from file".to_string());
    let obj = NodeInput::Object { text_fields: fields, rendered: "{}".to_string() };
    assert_eq!(node_prompt(Some(&obj), None), "from file");
    let cfg = "configured".to_string();
    assert_eq!(node_prompt(None, Some(&cfg)), "configured");
    assert_eq!(output_content(Some(&obj)), "{}");
    assert_eq!(output_content(Some(&NodeInput::Text("t".to_string()))), "t");
}

fn conn(from: &str, to: &str, input: &str) -> VisualWorkflowConnection {
    VisualWorkflowConnection {
        id: format!("{}-{}", from, to),
        from_node: from.to_string(),
        from_output: "out".to_string(),
        to_node: to.to_string(),
        to_input: input.to_string(),
        label: None,
        description: None,
    }
}

#[test]
fn visual_workflow_runs_in_dependency_order() {
    let nodes = vec!["a".to_string(), "b".to_string(), "c".to_string()];
    let conns = vec![conn("a", "c", "x"), conn("b", "c", "y")];
    let mut run = VisualRun::start(nodes, conns).unwrap();
    let mut order = Vec::new();
    while let Some(next) = run.next_node() {
        let id = next.unwrap();
        run.complete_node(&id);
        order.push(id);
    }
    assert_eq!(order, vec!["b", "a", "c"]);
    assert_eq!(run.steps_executed, 3);
    assert!(run.is_final_node("c"));
    assert!(!run.is_final_node("a"));
    assert_eq!(run.inputs_for("c"), vec![("x".to_string(), "a".to_string()), ("y".to_string(), "b".to_string())]);
}

#[test]
fn visual_workflow_without_start_fails() {
    let nodes = vec!["a".to_string(), "b".to_string()];
    let conns = vec![conn("a", "b", "x"), conn("b", "a", "y")];
    match VisualRun::start(nodes, conns) {
        Err(AgentError::Config(m)) => assert_eq!(m, "No start nodes found in workflow"),
        _ => panic!("expected an error"),
    }
}

#[test]
fn http_result_is_cut_to_limit() {
    let mut config = FetcherConfig::default();
    config.max_content_size = 5;
    let fetcher = WebFetcher::new(config);
    let content = vec![
        ToolContent::Text { text: "abc".to_string() },
        ToolContent::Image { data: "zz".to_string(), mime_type: "image/png".to_string() },
        ToolContent::Resource { uri: "u".to_string(), text: Some("defgh".to_string()) },
    ];
    let r = fetcher.parse_http_result("http://example.com", content).unwrap();
    assert_eq!(r.url, "http://example.com");
    assert_eq!(r.content, "abcde");
    assert_eq!(r.content_type, "text");
    assert!(r.title.is_none());
}

#[test]
fn cut_inside_character_is_refused() {
    let mut config = FetcherConfig::default();
    config.max_content_size = 1;
    let fetcher = WebFetcher::new(config);
    let content = vec![ToolContent::Text { text: "\u{e9}".to_string() }];
    assert!(fetcher.parse_http_result("http://example.com", content).is_none());
}

#[test]
fn browser_result_reads_json_fields() {
    let fetcher = WebFetcher::new(FetcherConfig::default());
    let content = vec![
        ToolContent::Text { text: "{\"content\":\"body\",\"title\":\"Page\",\"metadata\":{\"a\":1}}".to_string() },
        ToolContent::Resource { uri: "u".to_string(), text: Some(" and more".to_string()) },
    ];
    let r = fetcher.parse_browser_result("http://example.com", content).unwrap();
    assert_eq!(r.content, "body and more");
    assert_eq!(r.title.as_deref(), Some("Page"));
    assert_eq!(r.content_type, "html");
    let expected: serde_json::Value = serde_json::from_str("{\"a\":1}").unwrap();
    assert_eq!(r.metadata, expected);
}

#[test]
fn browser_plain_text_replaces_earlier_text() {
    let fetcher = WebFetcher::new(FetcherConfig::default());
    let content = vec![
        ToolContent::Text { text: "first".to_string() },
        ToolContent::Text { text: "not json {".to_string() },
    ];
    let r = fetcher.parse_browser_result("http://example.com", content).unwrap();
    assert_eq!(r.content, "not json {");
    assert!(r.title.is_none());
    assert_eq!(r.metadata, serde_json::Value::Object(serde_json::Map::new()));
}

#[test]
fn palette_offers_every_runnable_kind() {
    let palette = default_ui_node_types();
    let ids: Vec<&str> = palette.iter().map(|n| n.id.as_str()).collect();
    assert_eq!(ids, vec!["llm_generate", "model_config", "text_splitter", "conditional", "file_input", "file_output"]);
    for n in &palette {
        assert_ne!(node_kind(&n.id), NodeKind::Unknown);
    }
    assert_eq!(palette[0].inputs[0].name, "prompt");
    assert!(palette[0].inputs[0].required);
    assert_eq!(palette[3].config_schema, "{}");
    let schema: serde_json::Value = serde_json::from_str(&palette[1].config_schema).unwrap();
    assert_eq!(schema["properties"]["model"]["default"], "llama2");
}

fn chunk(content: &str, source: &str) -> ChunkText {
    ChunkText { content: content.to_string(), source: source.to_string() }
}

#[test]
fn test_synthesize() {
    let chunks = vec![
        chunk("First key point about Rust", "source1"),
        chunk("Second key point about Rust", "source2"),
    ];
    let result = synthesize_text(&chunks);
    assert_eq!(result.sources.len(), 2);
    assert_eq!(result.key_points.len(), 2);
}

#[test]
fn synthesis_of_few_chunks_joins_them() {
    let chunks = vec![
        chunk("First key point about Rust", "source1"),
        chunk("Second key point about Rust", "source2"),
    ];
    let s = synthesize_text(&chunks);
    assert_eq!(s.sources, vec!["source1", "source2"]);
    assert_eq!(s.key_points, vec!["First key point about Rust", "Second key point about Rust"]);
    assert_eq!(s.summary, "First key point about Rust\n\nSecond key point about Rust");
}

#[test]
fn synthesis_of_many_chunks_counts_sources() {
    let chunks = vec![
        chunk("alpha\r\nmore", "b"),
        chunk("   \nhidden", "a"),
        chunk("beta", "b"),
        chunk("gamma\nx", "c"),
    ];
    let s = synthesize_text(&chunks);
    assert_eq!(s.sources, vec!["a", "b", "c"]);
    assert_eq!(s.key_points, vec!["alpha", "beta", "gamma"]);
    assert_eq!(s.summary, "Knowledge consolidated from 3 sources covering: alpha; beta; gamma");
}

#[test]
fn synthesis_keeps_ten_key_points() {
    let chunks: Vec<ChunkText> = (0..12).map(|i| chunk(&format!("point {}", i), "s")).collect();
    let s = synthesize_text(&chunks);
    assert_eq!(s.key_points.len(), 10);
    assert_eq!(s.key_points[9], "point 9");
    assert_eq!(s.sources, vec!["s"]);
}

#[test]
fn synthesis_of_nothing() {
    let s = synthesize_text(&[]);
    assert_eq!(s.summary, "No knowledge available");
    assert!(s.key_points.is_empty());
    assert!(s.sources.is_empty());
}

#[test]
fn desktop_palette_lists_five_node_types() {
    let types = the_agency::desktop::desktop_node_types();
    let ids: Vec<&str> = types.iter().map(|t| t.id.as_str()).collect();
    assert_eq!(ids, vec!["start", "end", "agent_task", "condition", "transform"]);
    assert!(types[0].inputs.is_empty());
    assert_eq!(types[3].outputs.len(), 2);
    assert_eq!(types[3].outputs[1].name, "false");
    let schema: serde_json::Value = serde_json::from_str(types[2].config_schema.as_ref().unwrap()).unwrap();
    assert_eq!(schema["properties"]["model"]["default"], "gpt-3.5-turbo");
    let template: serde_json::Value = serde_json::from_str(types[4].config_schema.as_ref().unwrap()).unwrap();
    assert_eq!(template["properties"]["template"]["default"], "{{ input }}");
    assert!(types[1].config_schema.is_none());
}
