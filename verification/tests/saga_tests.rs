use the_agency::saga::{
    backoff_delay_ms, saga_step_decision, SagaContext, SagaOrchestrator, SagaPhase, SagaResult, SagaRun, SagaStepConfig,
    SagaStepState,
};
use the_agency::workflow::{WorkflowContext, WorkflowDecision};

fn run_to_end(orch: &SagaOrchestrator, mut run: SagaRun, fail_at: Option<usize>, fail_comp: Option<usize>) -> SagaRun {
    loop {
        match &run.phase {
            SagaPhase::Running { index, .. } => {
                let outcome = if Some(*index) == fail_at {
                    Err("Intentional failure".to_string())
                } else {
                    Ok(serde_json::Value::from(*index as u64))
                };
                let _delay = orch.on_step_result(&mut run, outcome);
            }
            SagaPhase::Compensating { current: None, .. } => {
                orch.next_compensation(&mut run);
            }
            SagaPhase::Compensating { current: Some(j), .. } => {
                let outcome = if Some(*j) == fail_comp { Err("undo failed".to_string()) } else { Ok(()) };
                orch.on_compensation_result(&mut run, outcome);
            }
            SagaPhase::Finished => return run,
        }
    }
}

#[test]
fn saga_success_completes_every_step() {
    let orch = SagaOrchestrator::new()
        .add_step(SagaStepConfig::new("step1", "First Step"))
        .add_step(SagaStepConfig::new("step2", "Second Step"));
    let run = orch.start(SagaContext::new("test-saga".to_string(), WorkflowContext::new(10)));
    let run = run_to_end(&orch, run, None, None);
    assert!(matches!(run.result, Some(SagaResult::Completed(_))));
    assert!(run.context.is_step_completed("step1"));
    assert!(run.context.is_step_completed("step2"));
}

#[test]
fn saga_failure_compensates_in_reverse_order() {
    let orch = SagaOrchestrator::new()
        .add_step(SagaStepConfig::new("step1", "First Step"))
        .add_step(SagaStepConfig::new("step2", "Second Step"))
        .add_step(SagaStepConfig::new("step3", "Failing Step").non_retryable());
    let run = orch.start(SagaContext::new("test-saga".to_string(), WorkflowContext::new(10)));
    let run = run_to_end(&orch, run, Some(2), None);
    match run.result {
        Some(SagaResult::Compensated { error, compensated_steps }) => {
            assert_eq!(error, "Failing Step");
            assert_eq!(compensated_steps, vec!["Second Step".to_string(), "First Step".to_string()]);
        }
        _ => panic!("expected compensation"),
    }
    assert!(matches!(run.context.step_states.get("step3"), Some(SagaStepState::Failed(_))));
    assert!(matches!(run.context.step_states.get("step1"), Some(SagaStepState::Compensated)));
}

#[test]
fn saga_retries_before_failing() {
    let orch = SagaOrchestrator::new().add_step(SagaStepConfig::new("s", "Only").with_retries(2));
    let mut run = orch.start(SagaContext::new("r".to_string(), WorkflowContext::new(1)));
    assert_eq!(orch.on_step_result(&mut run, Err("e".to_string())), Some(100));
    assert_eq!(orch.on_step_result(&mut run, Err("e".to_string())), Some(200));
    assert_eq!(orch.on_step_result(&mut run, Err("e".to_string())), None);
    assert_eq!(run.context.retry_counts.get("s"), Some(&2));
    assert!(matches!(run.phase, SagaPhase::Compensating { failed_at: 0, .. }));
}

#[test]
fn saga_compensation_failure_is_reported() {
    let orch = SagaOrchestrator::new()
        .add_step(SagaStepConfig::new("a", "A"))
        .add_step(SagaStepConfig::new("b", "B"))
        .add_step(SagaStepConfig::new("c", "C").non_retryable());
    let run = orch.start(SagaContext::new("x".to_string(), WorkflowContext::new(1)));
    let run = run_to_end(&orch, run, Some(2), Some(1));
    match run.result {
        Some(SagaResult::CompensationFailed { error, compensation_error, failed_at_step }) => {
            assert_eq!(error, "C");
            assert_eq!(compensation_error, "undo failed");
            assert_eq!(failed_at_step, "B");
        }
        _ => panic!("expected a failed compensation"),
    }
}

#[test]
fn backoff_doubles() {
    assert_eq!(backoff_delay_ms(1), 100);
    assert_eq!(backoff_delay_ms(4), 800);
}

#[test]
fn saga_result_decides_the_step() {
    let mut ctx = WorkflowContext::new(1);
    let mut obj = serde_json::Map::new();
    obj.insert("k".to_string(), serde_json::Value::from(1u64));
    let r = saga_step_decision(SagaResult::Completed(serde_json::Value::Object(obj)), &mut ctx);
    assert!(matches!(r, Ok(WorkflowDecision::Continue)));
    assert_eq!(ctx.metadata.get("saga_result").map(|s| s.as_str()), Some("{\"k\":1}"));
    let r = saga_step_decision(SagaResult::Compensated { error: "E".to_string(), compensated_steps: vec![] }, &mut ctx);
    match r {
        Err(the_agency::error::AgentError::Workflow(m)) => assert_eq!(m, "Saga failed and was compensated: E"),
        _ => panic!("expected an error"),
    }
}
