use the_agency::llm::{assistant_message, user_message};
use the_agency::mcp::{ToolContent, ToolResult};
use the_agency::workflow::engine::{
    apply_decision, excess_snapshots, loop_continues, loop_iteration_allowed, max_steps_result, should_checkpoint,
    suspended_result, StepOutcome,
};
use the_agency::workflow::steps::{
    general_response_text, ConditionalPauseStep, EnhancedMemoryRetrievalStep, HumanApprovalStep, MemoryRetrievalStep,
    RateLimitedApiStep,
    ResponseGenerationStep, SleepStep, ToolAnalysisStep, WaitForEventStep,
};
use the_agency::json::JsonShape;
use the_agency::workflow::{
    StepSchema, LoopType, MemoryRecall, PauseType, SuspendReason, WorkflowContext, WorkflowDecision, WorkflowSuspendConfig,
};

#[test]
fn context_basics() {
    let mut context = WorkflowContext::new(10);
    assert_eq!(context.step_count, 0);
    assert_eq!(context.max_steps, 10);
    assert!(context.should_continue());
    context.add_message(user_message("Hello"));
    assert_eq!(context.messages.len(), 1);
    context.increment_step();
    assert_eq!(context.step_count, 1);
    context.mark_memories_retrieved();
    assert_eq!(context.metadata.get("memories_retrieved").map(|s| s.as_str()), Some("true"));
}

#[test]
fn memory_step_asks_once_for_memory_questions() {
    let mut context = WorkflowContext::new(10);
    context.add_message(user_message("What is Rust?"));
    assert!(matches!(MemoryRetrievalStep.execute(&context), WorkflowDecision::Continue));
    let mut context = WorkflowContext::new(10);
    context.add_message(user_message("What did we discuss before?"));
    match MemoryRetrievalStep.execute(&context) {
        WorkflowDecision::RetrieveMemories(q) => assert_eq!(q, "What did we discuss before?"),
        _ => panic!("expected memory retrieval"),
    }
    context.mark_memories_retrieved();
    assert!(matches!(MemoryRetrievalStep.execute(&context), WorkflowDecision::Continue));
}

#[test]
fn tool_step_calls_system_info() {
    let mut context = WorkflowContext::new(10);
    context.available_tools = vec!["system_info".to_string()];
    context.add_message(user_message("Hello"));
    assert!(matches!(ToolAnalysisStep.execute(&context), WorkflowDecision::Continue));
    context.add_message(user_message("Show me system info"));
    match ToolAnalysisStep.execute(&context) {
        WorkflowDecision::ExecuteTools(calls) => {
            assert_eq!(calls.len(), 1);
            assert_eq!(calls[0].name, "system_info");
            assert_eq!(calls[0].id.len(), 36);
        }
        _ => panic!("expected a tool call"),
    }
}

#[test]
fn response_step_summarizes_tools_and_memories() {
    let mut context = WorkflowContext::new(10);
    match ResponseGenerationStep.execute(&context) {
        WorkflowDecision::Complete(t) => {
            assert!(!t.is_empty());
            assert_eq!(t, general_response_text());
        }
        _ => panic!("expected completion"),
    }
    context.add_tool_result(
        "c1".to_string(),
        ToolResult { id: "c1".to_string(), content: vec![ToolContent::Text { text: "OS: linux".to_string() }], is_error: false },
    );
    for m in ["one", "two", "three", "four"] {
        context.memories.push(MemoryRecall { content: m.to_string() });
    }
    match ResponseGenerationStep.execute(&context) {
        WorkflowDecision::Complete(t) => assert_eq!(
            t,
            "Based on the tools I called:\n\nOS: linux\n\nBased on our previous conversations, I found 4 relevant memories:\n\n1. one\n\n2. two\n\n3. three"
        ),
        _ => panic!("expected completion"),
    }
}

#[test]
fn human_approval_step() {
    let step = HumanApprovalStep::new("Approve this action?".to_string());
    let mut context = WorkflowContext::new(10);
    match step.execute(&context) {
        WorkflowDecision::Suspend(SuspendReason::WaitingForInput(m)) => assert_eq!(m, "Approve this action?"),
        _ => panic!("expected suspension"),
    }
    context.metadata.insert("human_approval".to_string(), "granted".to_string());
    assert!(matches!(step.execute(&context), WorkflowDecision::Continue));
    context.metadata.insert("human_approval".to_string(), "denied".to_string());
    match step.execute(&context) {
        WorkflowDecision::Complete(m) => assert_eq!(m, "Workflow stopped by user denial."),
        _ => panic!("expected completion"),
    }
}

#[test]
fn rate_limited_step() {
    let step = RateLimitedApiStep::new("test_api".to_string(), 60);
    let mut context = WorkflowContext::new(10);
    let now: i64 = 1_704_067_200;
    let first = step.execute_at(&mut context, now, 0, "2024-01-01T00:00:00+00:00".to_string());
    assert!(matches!(first, WorkflowDecision::Continue));
    assert!(context.metadata.contains_key("test_api_last_call"));
    let second = step.execute_at(&mut context, now, 500_000_000, "later".to_string());
    assert!(matches!(second, WorkflowDecision::Suspend(SuspendReason::RateLimit)));
    let third = step.execute_at(&mut context, now + 1, 0, "2024-01-01T00:00:01+00:00".to_string());
    assert!(matches!(third, WorkflowDecision::Continue));
    assert!(matches!(step.execute(&mut WorkflowContext::new(1)), WorkflowDecision::Continue));
}

#[test]
fn enhanced_memory_step() {
    let mut context = WorkflowContext::new(10);
    context.add_message(user_message("What did we discuss before?"));
    context.metadata.insert("external_memory_unavailable".to_string(), "true".to_string());
    match EnhancedMemoryRetrievalStep.execute(&context) {
        WorkflowDecision::Suspend(SuspendReason::WaitingForResource(m)) => {
            assert_eq!(m, "External memory service unavailable")
        }
        _ => panic!("expected suspension"),
    }
    assert_eq!(EnhancedMemoryRetrievalStep.suspend_points(), vec!["external_memory_unavailable", "rate_limit_exceeded"]);
}

#[test]
fn pause_steps() {
    let context = WorkflowContext::new(10);
    assert!(matches!(SleepStep::new(100).execute(&context), WorkflowDecision::Sleep(100)));
    let w = WaitForEventStep::new("test_event".to_string(), Some(5000));
    match w.execute(&context) {
        WorkflowDecision::WaitForEvent { event_id, timeout_ms } => {
            assert_eq!(event_id, "test_event");
            assert_eq!(timeout_ms, Some(5000));
        }
        _ => panic!("expected a wait"),
    }
    assert_eq!(w.suspend_points(), vec!["waiting_for_event_test_event"]);
    let c = ConditionalPauseStep::new("should_pause".to_string(), PauseType::Sleep(200));
    assert!(matches!(c.execute(&context), WorkflowDecision::Continue));
    let mut context = WorkflowContext::new(10);
    context.metadata.insert("should_pause".to_string(), "true".to_string());
    assert!(matches!(c.execute(&context), WorkflowDecision::Sleep(200)));
}

#[test]
fn suspend_config_and_checkpoints() {
    let config = WorkflowSuspendConfig::default();
    assert!(config.auto_checkpoint);
    assert_eq!(config.checkpoint_interval, 3);
    assert_eq!(config.max_snapshots, 10);
    assert!(should_checkpoint(&config, 0));
    assert!(!should_checkpoint(&config, 1));
    assert!(should_checkpoint(&config, 3));
    assert_eq!(excess_snapshots(12, 10), (10, 12));
    assert_eq!(excess_snapshots(3, 10), (3, 3));
}

#[test]
fn decisions_become_outcomes() {
    let context = WorkflowContext::new(10);
    match apply_decision(context, 0, 2, WorkflowDecision::Complete("done".to_string()), 0) {
        StepOutcome::Finished(r) => {
            assert!(r.completed);
            assert_eq!(r.response, "done");
            // The steps at 0, 1 and 2 ran.
            assert_eq!(r.steps_executed, 3);
        }
        _ => panic!("expected a finished run"),
    }
    let context = WorkflowContext::new(10);
    match apply_decision(context, 1, 2, WorkflowDecision::Sleep(10), 7) {
        StepOutcome::Suspend(p) => {
            assert_eq!(p.step_index, 2);
            assert_eq!(p.steps_executed, 2);
            assert!(matches!(p.reason, SuspendReason::Sleep { duration_ms: 10, started_at: 7 }));
            let r = suspended_result(p, "abc");
            assert_eq!(r.response, "Sleeping for 10ms (Suspended with ID: abc)");
            assert_eq!(r.steps_executed, 2);
            assert!(!r.completed);
        }
        _ => panic!("expected a suspension"),
    }
    let context = WorkflowContext::new(10);
    match apply_decision(context, 0, 1, WorkflowDecision::WaitForEvent { event_id: "user_action".to_string(), timeout_ms: Some(1000) }, 0) {
        StepOutcome::Suspend(p) => {
            let r = suspended_result(p, "x1");
            assert_eq!(r.response, "Waiting for event 'user_action' (Suspended with ID: x1)");
        }
        _ => panic!("expected a suspension"),
    }
    let context = WorkflowContext::new(10);
    assert!(matches!(apply_decision(context, 0, 0, WorkflowDecision::Jump("s".to_string()), 0), StepOutcome::Failed(_)));
    let context = WorkflowContext::new(10);
    match apply_decision(context, 0, 0, WorkflowDecision::RetrieveMemories("q".to_string()), 0) {
        StepOutcome::Finished(r) => {
            assert!(r.has_pending_actions());
            assert_eq!(r.pending_memory_query, Some("q".to_string()));
            assert_eq!(r.steps_executed, 1);
        }
        _ => panic!("expected a finished run"),
    }
    let mut context = WorkflowContext::new(10);
    context.add_message(assistant_message("x"));
    let r = max_steps_result(context, 0, 3);
    assert_eq!(r.response, "Workflow reached maximum steps.");
    assert_eq!(r.steps_executed, 3);
}

#[test]
fn loop_controls() {
    assert!(loop_iteration_allowed(1000));
    assert!(!loop_iteration_allowed(1001));
    assert!(loop_continues(LoopType::DoWhile, true));
    assert!(!loop_continues(LoopType::DoUntil, true));
}

#[test]
fn test_step_schema() {
    let schema = StepSchema::new_object()
        .add_property("name", "string")
        .add_property("age", "number")
        .add_required("name");

    // Valid data
    let valid_data: serde_json::Value = serde_json::from_str("{\"name\": \"John\", \"age\": 30}").unwrap();
    assert!(schema.validates(&valid_data));

    // Invalid data (missing required field)
    let invalid_data: serde_json::Value = serde_json::from_str("{\"age\": 30}").unwrap();
    assert!(!schema.validates(&invalid_data));

    // Wrong type
    let wrong_type = serde_json::Value::from("just a string");
    assert!(!schema.validates(&wrong_type));
}

#[test]
fn schema_kinds_check_shapes() {
    let mut schema = StepSchema::new_object();
    schema.schema_type = "array".to_string();
    assert!(schema.accepts_shape(&JsonShape::Array));
    assert!(!schema.accepts_shape(&JsonShape::Text));
    schema.schema_type = "boolean".to_string();
    assert!(schema.accepts_shape(&JsonShape::Boolean));
    schema.schema_type = "mystery".to_string();
    assert!(schema.accepts_shape(&JsonShape::Null));
    let object = StepSchema::new_object().add_required("a").add_required("b");
    assert!(object.accepts_shape(&JsonShape::Object { keys: vec!["b".to_string(), "a".to_string()] }));
    assert!(!object.accepts_shape(&JsonShape::Object { keys: vec!["a".to_string()] }));
    assert!(!object.accepts_shape(&JsonShape::Array));
    assert_eq!(object.properties.len(), 0);
    let typed = StepSchema::new_object().add_property("x", "string");
    assert_eq!(typed.properties.get("x").map(|s| s.as_str()), Some("string"));
}

#[test]
fn test_workflow_engine() {
    // The default engine's steps, run one after another as the engine does.
    let mut context = WorkflowContext::new(10);
    context.add_message(user_message("Hello, how are you?"));
    context.increment_step();
    let mut outcome = None;
    let decisions = [
        MemoryRetrievalStep.execute(&context),
        ToolAnalysisStep.execute(&context),
        ResponseGenerationStep.execute(&context),
    ];
    for (index, decision) in decisions.into_iter().enumerate() {
        match apply_decision(context.clone(), 0, index, decision, 0) {
            StepOutcome::Next(c) => context = c,
            other => {
                outcome = Some(other);
                break;
            }
        }
    }
    match outcome {
        Some(StepOutcome::Finished(result)) => {
            assert!(result.completed);
            assert!(!result.response.is_empty());
            assert_eq!(result.steps_executed, 3);
        }
        _ => panic!("expected a finished run"),
    }
}
