//! The decisions of the workflow engine: when to checkpoint, and what a
//! step's decision does to the run. The engine's loop, which awaits each
//! step and stores snapshots, hands these functions what happened.

use vstd::prelude::*;
use crate::error::AgentError;
use crate::ids::{format_utc, utc_display};
use crate::text::{decimal, push_str, u64_to_string};
use super::{LoopType, SuspendReason, WorkflowContext, WorkflowDecision, WorkflowResult, WorkflowSuspendConfig};

verus! {

/// Whether a checkpoint is stored before the step at `step_index`.
pub fn should_checkpoint(config: &WorkflowSuspendConfig, step_index: usize) -> (r: bool)
    requires
        config.auto_checkpoint ==> config.checkpoint_interval > 0,
    ensures
        r == (config.auto_checkpoint && step_index % config.checkpoint_interval == 0),
{
    config.auto_checkpoint && step_index % config.checkpoint_interval == 0
}

/// What the response of a suspended run reports.
#[derive(Debug, Clone)]
pub enum SuspendNotice {
    Suspended,
    WaitingForInput(String),
    Sleeping(u64),
    SleepingUntil(i64),
    WaitingForEvent(String),
}

/// A run that stops at a step until a snapshot of it is stored.
#[derive(Debug)]
pub struct PendingSuspension {
    pub context: WorkflowContext,
    pub step_index: usize,
    /// The steps that the run executed, the suspending one included.
    pub steps_executed: usize,
    pub reason: SuspendReason,
    pub notice: SuspendNotice,
}

/// What a step's decision does to the run.
#[derive(Debug)]
pub enum StepOutcome {
    /// Go on with the next step.
    Next(WorkflowContext),
    /// The run ends with this result.
    Finished(WorkflowResult),
    /// The run stops once a snapshot is stored.
    Suspend(PendingSuspension),
    /// The run fails.
    Failed(AgentError),
}

/// A result that is not complete, after `n` executed steps.
pub open spec fn open_result(r: WorkflowResult, c: WorkflowContext, n: usize) -> bool {
    &&& r.context == c
    &&& !r.completed
    &&& r.steps_executed == n
}

/// The number of steps a run that started at step `start` has executed when
/// the step at `i` decides: from `start` to `i`, both included.
pub open spec fn executed_through(start: usize, i: usize) -> int {
    i - start + 1
}

/// Whether `p` suspends the run with context `c` at step `i`, after `n`
/// executed steps.
pub open spec fn suspends_at(p: PendingSuspension, c: WorkflowContext, i: usize, n: int) -> bool {
    p.context == c && p.step_index == i && p.steps_executed == n
}

/// What `apply_decision` returns.
pub open spec fn decision_outcome(
    c: WorkflowContext,
    start: usize,
    i: usize,
    d: WorkflowDecision,
    now: i64,
    o: StepOutcome,
) -> bool {
    let n = executed_through(start, i);
    match d {
        WorkflowDecision::Continue => o == StepOutcome::Next(c),
        WorkflowDecision::Complete(text) => o matches StepOutcome::Finished(r)
            && r.response == text && r.context == c && r.completed && r.steps_executed == n
            && r.pending_tool_calls is None && r.pending_memory_query is None,
        WorkflowDecision::Jump(_) => o matches StepOutcome::Failed(AgentError::Workflow(m))
            && m@ == "Step jumping not implemented"@,
        WorkflowDecision::ExecuteTools(calls) => o matches StepOutcome::Finished(r)
            && open_result(r, c, n as usize) && r.response@ == Seq::<char>::empty()
            && r.pending_tool_calls == Some(calls) && r.pending_memory_query is None,
        WorkflowDecision::RetrieveMemories(q) => o matches StepOutcome::Finished(r)
            && open_result(r, c, n as usize) && r.response@ == Seq::<char>::empty()
            && r.pending_tool_calls is None && r.pending_memory_query == Some(q),
        WorkflowDecision::Suspend(reason) => o matches StepOutcome::Suspend(p)
            && suspends_at(p, c, i, n) && p.reason == reason && p.notice is Suspended,
        WorkflowDecision::WaitForInput(m) => o matches StepOutcome::Suspend(p)
            && suspends_at(p, c, i, n)
            && (p.reason matches SuspendReason::WaitingForInput(m2) && m2@ == m@)
            && (p.notice matches SuspendNotice::WaitingForInput(m3) && m3@ == m@),
        WorkflowDecision::Sleep(ms) => o matches StepOutcome::Suspend(p)
            && suspends_at(p, c, i, n)
            && p.reason == (SuspendReason::Sleep { duration_ms: ms, started_at: now })
            && p.notice == SuspendNotice::Sleeping(ms),
        WorkflowDecision::SleepUntil(t) => o matches StepOutcome::Suspend(p)
            && suspends_at(p, c, i, n)
            && p.reason == SuspendReason::SleepUntil(t)
            && p.notice == SuspendNotice::SleepingUntil(t),
        WorkflowDecision::WaitForEvent { event_id, timeout_ms } => o matches StepOutcome::Suspend(p)
            && suspends_at(p, c, i, n)
            && (p.reason matches SuspendReason::WaitingForEvent { event_id: e, timeout_ms: t, started_at: s }
                && e@ == event_id@ && t == timeout_ms && s == now)
            && (p.notice matches SuspendNotice::WaitingForEvent(e2) && e2@ == event_id@),
    }
}

fn open_result_of(context: WorkflowContext, steps: usize) -> (r: WorkflowResult)
    ensures
        open_result(r, context, steps),
        r.response@ == Seq::<char>::empty(),
        r.pending_tool_calls is None,
        r.pending_memory_query is None,
{
    WorkflowResult {
        response: String::new(),
        context,
        completed: false,
        steps_executed: steps,
        pending_tool_calls: None,
        pending_memory_query: None,
    }
}

/// What the decision `decision` of the step at `step_index` does to the run
/// with context `context` that started at step `start_step`; `now` is the
/// instant at which a sleep or a wait starts. A result counts the steps
/// that the run executed.
pub fn apply_decision(context: WorkflowContext, start_step: usize, step_index: usize, decision: WorkflowDecision, now: i64) -> (o: StepOutcome)
    requires
        start_step <= step_index < usize::MAX,
    ensures
        decision_outcome(context, start_step, step_index, decision, now, o),
{
    let steps = step_index - start_step + 1;
    match decision {
        WorkflowDecision::Continue => StepOutcome::Next(context),
        WorkflowDecision::Complete(response) => {
            StepOutcome::Finished(WorkflowResult {
                response,
                context,
                completed: true,
                steps_executed: steps,
                pending_tool_calls: None,
                pending_memory_query: None,
            })
        },
        WorkflowDecision::Jump(_) => StepOutcome::Failed(
            AgentError::Workflow(String::from_str("Step jumping not implemented")),
        ),
        WorkflowDecision::ExecuteTools(calls) => StepOutcome::Finished(open_result_of(context, steps).with_tool_calls(calls)),
        WorkflowDecision::RetrieveMemories(query) => StepOutcome::Finished(open_result_of(context, steps).with_memory_query(query)),
        WorkflowDecision::Suspend(reason) => StepOutcome::Suspend(PendingSuspension {
            context,
            step_index,
            steps_executed: steps,
            reason,
            notice: SuspendNotice::Suspended,
        }),
        WorkflowDecision::WaitForInput(message) => {
            let reason = SuspendReason::WaitingForInput(message.clone());
            StepOutcome::Suspend(PendingSuspension {
                context,
                step_index,
                steps_executed: steps,
                reason,
                notice: SuspendNotice::WaitingForInput(message),
            })
        },
        WorkflowDecision::Sleep(ms) => StepOutcome::Suspend(PendingSuspension {
            context,
            step_index,
            steps_executed: steps,
            reason: SuspendReason::Sleep { duration_ms: ms, started_at: now },
            notice: SuspendNotice::Sleeping(ms),
        }),
        WorkflowDecision::SleepUntil(t) => StepOutcome::Suspend(PendingSuspension {
            context,
            step_index,
            steps_executed: steps,
            reason: SuspendReason::SleepUntil(t),
            notice: SuspendNotice::SleepingUntil(t),
        }),
        WorkflowDecision::WaitForEvent { event_id, timeout_ms } => {
            let reason = SuspendReason::WaitingForEvent { event_id: event_id.clone(), timeout_ms, started_at: now };
            StepOutcome::Suspend(PendingSuspension {
                context,
                step_index,
                steps_executed: steps,
                reason,
                notice: SuspendNotice::WaitingForEvent(event_id),
            })
        },
    }
}

/// The response of a run suspended with `notice` under snapshot `id`.
pub open spec fn suspend_response(notice: SuspendNotice, id: Seq<char>) -> Seq<char> {
    let tail = " (Suspended with ID: "@ + id + ")"@;
    match notice {
        SuspendNotice::Suspended => "Workflow suspended (ID: "@ + id + ")"@,
        SuspendNotice::WaitingForInput(m) => "Waiting for input: "@ + m@ + tail,
        SuspendNotice::Sleeping(ms) => "Sleeping for "@ + decimal(ms as nat) + "ms"@ + tail,
        SuspendNotice::SleepingUntil(t) => "Sleeping until "@ + utc_display(t) + tail,
        SuspendNotice::WaitingForEvent(e) => "Waiting for event '"@ + e@ + "'"@ + tail,
    }
}

/// The result of a run whose snapshot was stored under `snapshot_id`.
pub fn suspended_result(pending: PendingSuspension, snapshot_id: &str) -> (r: WorkflowResult)
    ensures
        open_result(r, pending.context, pending.steps_executed),
        r.response@ == suspend_response(pending.notice, snapshot_id@),
        r.pending_tool_calls is None,
        r.pending_memory_query is None,
{
    let mut response = String::new();
    match &pending.notice {
        SuspendNotice::Suspended => {
            push_str(&mut response, "Workflow suspended (ID: ");
            push_str(&mut response, snapshot_id);
            push_str(&mut response, ")");
        },
        SuspendNotice::WaitingForInput(m) => {
            push_str(&mut response, "Waiting for input: ");
            push_str(&mut response, m.as_str());
        },
        SuspendNotice::Sleeping(ms) => {
            push_str(&mut response, "Sleeping for ");
            push_str(&mut response, u64_to_string(*ms).as_str());
            push_str(&mut response, "ms");
        },
        SuspendNotice::SleepingUntil(t) => {
            push_str(&mut response, "Sleeping until ");
            push_str(&mut response, format_utc(*t).as_str());
        },
        SuspendNotice::WaitingForEvent(e) => {
            push_str(&mut response, "Waiting for event '");
            push_str(&mut response, e.as_str());
            push_str(&mut response, "'");
        },
    }
    if !matches!(pending.notice, SuspendNotice::Suspended) {
        push_str(&mut response, " (Suspended with ID: ");
        push_str(&mut response, snapshot_id);
        push_str(&mut response, ")");
    }
    proof {
        assert(response@ =~= suspend_response(pending.notice, snapshot_id@));
    }
    let steps = pending.steps_executed;
    WorkflowResult {
        response,
        context: pending.context,
        completed: false,
        steps_executed: steps,
        pending_tool_calls: None,
        pending_memory_query: None,
    }
}

/// The result of a run that started at step `start_step` and went through
/// every one of the `step_total` steps without an end: it executed those
/// from `start_step` on.
pub fn max_steps_result(context: WorkflowContext, start_step: usize, step_total: usize) -> (r: WorkflowResult)
    ensures
        r.response@ == "Workflow reached maximum steps."@,
        r.context == context,
        r.completed,
        r.steps_executed == (if start_step < step_total { step_total - start_step } else { 0 }),
        r.pending_tool_calls is None,
        r.pending_memory_query is None,
{
    let steps = if start_step < step_total { step_total - start_step } else { 0 };
    WorkflowResult {
        response: String::from_str("Workflow reached maximum steps."),
        context,
        completed: true,
        steps_executed: steps,
        pending_tool_calls: None,
        pending_memory_query: None,
    }
}

/// The positions of the snapshots that cleanup deletes, from first to
/// last exclusive: those past the newest `max_snapshots` of `count`.
pub fn excess_snapshots(count: usize, max_snapshots: usize) -> (r: (usize, usize))
    ensures
        count > max_snapshots ==> r == (max_snapshots, count),
        count <= max_snapshots ==> r.0 == r.1,
{
    if count > max_snapshots {
        (max_snapshots, count)
    } else {
        (count, count)
    }
}

/// The most iterations a loop step runs.
pub const MAX_LOOP_ITERATIONS: usize = 1000;

/// Whether a loop may run its `iteration`-th iteration (counting from one).
pub fn loop_iteration_allowed(iteration: usize) -> (r: bool)
    ensures
        r == (iteration <= MAX_LOOP_ITERATIONS),
{
    iteration <= MAX_LOOP_ITERATIONS
}

/// Whether a loop goes on after an iteration whose condition was
/// `condition`: a do-while loop while it holds, a do-until loop until it does.
pub fn loop_continues(loop_type: LoopType, condition: bool) -> (r: bool)
    ensures
        loop_type == LoopType::DoWhile ==> r == condition,
        loop_type == LoopType::DoUntil ==> r == !condition,
{
    match loop_type {
        LoopType::DoWhile => condition,
        LoopType::DoUntil => !condition,
    }
}

/// Records the item that a for-each step is at.
pub fn enter_foreach_item(context: &mut WorkflowContext, item_text: String, index: usize)
    ensures
        final(context).metadata@.contains_key("foreach_current_item"@),
        final(context).metadata@["foreach_current_item"@]@ == item_text@,
        final(context).metadata@.contains_key("foreach_current_index"@),
        final(context).metadata@["foreach_current_index"@]@ == decimal(index as nat),
        final(context).metadata@.dom() == old(context).metadata@.dom().insert("foreach_current_item"@).insert("foreach_current_index"@),
        forall|k: Seq<char>| k != "foreach_current_item"@ && k != "foreach_current_index"@ && old(context).metadata@.contains_key(k)
            ==> final(context).metadata@[k] == old(context).metadata@[k],
        final(context).messages@ == old(context).messages@,
        final(context).tool_results@ == old(context).tool_results@,
        final(context).step_count == old(context).step_count,
{
    proof {
        reveal_strlit("foreach_current_item");
        reveal_strlit("foreach_current_index");
        assert("foreach_current_item"@.len() != "foreach_current_index"@.len());
    }
    context.metadata.insert(String::from_str("foreach_current_item"), item_text);
    context.metadata.insert(String::from_str("foreach_current_index"), u64_to_string(index as u64));
}

/// Removes what a for-each step recorded.
pub fn leave_foreach(context: &mut WorkflowContext)
    ensures
        final(context).metadata@ == old(context).metadata@.remove("foreach_current_item"@).remove("foreach_current_index"@),
        final(context).messages@ == old(context).messages@,
        final(context).tool_results@ == old(context).tool_results@,
        final(context).step_count == old(context).step_count,
{
    context.metadata.remove("foreach_current_item");
    context.metadata.remove("foreach_current_index");
}

} // verus!
