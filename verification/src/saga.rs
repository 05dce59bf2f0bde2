//! Sagas: a sequence of steps, each with a compensation. When a step fails
//! for good, the steps that completed before it are compensated in reverse
//! order.
//!
//! The actions and compensations are the caller's code. A run is driven by
//! the caller: it starts a run, performs the action or compensation that the
//! run's phase names, and reports the outcome back; the run decides what
//! comes next.

use vstd::prelude::*;
use vstd::arithmetic::power2::{pow2, lemma2_to64, lemma2_to64_rest, lemma_pow2_unfold, lemma_pow2_strictly_increases};
use crate::error::AgentError;
use crate::ids::{clock_now, is_uuid_v4_text, new_uuid_string};
use crate::json::{empty_json_object, json_text_of, json_to_string};
use crate::strmap::StrMap;
use crate::text::{concat2, push_str, views};
use crate::workflow::{WorkflowContext, WorkflowDecision};

verus! {

/// The state of one saga step.
#[derive(Debug, Clone)]
pub enum SagaStepState {
    Pending,
    Executing,
    Completed,
    Failed(String),
    Compensating,
    Compensated,
    CompensationFailed(String),
}

/// How a saga ended.
#[derive(Debug)]
pub enum SagaResult {
    /// Every step completed; holds the result of the last one.
    Completed(serde_json::Value),
    /// A step failed and the completed steps were compensated.
    Compensated { error: String, compensated_steps: Vec<String> },
    /// A step failed and a compensation failed too.
    CompensationFailed { error: String, compensation_error: String, failed_at_step: String },
}

/// A saga step: its identity and how often it is retried. Its action and
/// compensation are held by the caller, at the same position.
#[derive(Debug, Clone)]
pub struct SagaStepConfig {
    pub id: String,
    pub name: String,
    pub retryable: bool,
    pub max_retries: usize,
}

impl SagaStepConfig {
    /// A retryable step with three retries.
    pub fn new(id: &str, name: &str) -> (s: Self)
        ensures
            s.id@ == id@,
            s.name@ == name@,
            s.retryable,
            s.max_retries == 3,
    {
        SagaStepConfig { id: String::from_str(id), name: String::from_str(name), retryable: true, max_retries: 3 }
    }

    /// The same step with `max_retries` retries.
    pub fn with_retries(self, max_retries: usize) -> (s: Self)
        ensures
            s.id == self.id,
            s.name == self.name,
            s.retryable == self.retryable,
            s.max_retries == max_retries,
    {
        SagaStepConfig { max_retries, ..self }
    }

    /// The same step, run once and never retried.
    pub fn non_retryable(self) -> (s: Self)
        ensures
            s.id == self.id,
            s.name == self.name,
            !s.retryable,
            s.max_retries == 0,
    {
        SagaStepConfig { retryable: false, max_retries: 0, ..self }
    }
}

/// How many times a step is attempted before it fails for good.
pub open spec fn max_attempts(s: SagaStepConfig) -> int {
    if s.retryable { s.max_retries + 1 } else { 1 }
}

/// The delay before the attempt after attempt number `attempt`, in
/// milliseconds: 100 ms, doubled for each earlier attempt.
pub open spec fn backoff_spec(attempt: nat) -> nat {
    100 * pow2((attempt - 1) as nat)
}

/// The delay before the attempt after attempt number `attempt`.
pub fn backoff_delay_ms(attempt: usize) -> (d: u64)
    requires
        1 <= attempt <= 58,
    ensures
        d == backoff_spec(attempt as nat),
{
    let mut d: u64 = 100;
    let mut k: usize = 0;
    proof {
        lemma2_to64();
        lemma2_to64_rest();
    }
    while k + 1 < attempt
        invariant
            k + 1 <= attempt <= 58,
            d == 100 * pow2(k as nat),
            pow2(57) == 0x200000000000000,
        decreases attempt - k,
    {
        proof {
            lemma_pow2_unfold((k + 1) as nat);
            if k + 1 < 57 {
                lemma_pow2_strictly_increases((k + 1) as nat, 57);
            }
        }
        d = d * 2;
        k = k + 1;
    }
    d
}

/// The running state of a saga.
#[derive(Debug)]
pub struct SagaContext {
    pub id: String,
    pub name: String,
    pub started_at: String,
    pub ended_at: Option<String>,
    pub step_states: StrMap<SagaStepState>,
    pub step_results: StrMap<serde_json::Value>,
    pub retry_counts: StrMap<usize>,
    pub workflow_context: WorkflowContext,
}

/// The parts of a saga context that marking a step leaves alone.
pub open spec fn same_but_states(a: SagaContext, b: SagaContext) -> bool {
    &&& a.step_results@ == b.step_results@
    &&& a.retry_counts@ == b.retry_counts@
    &&& a.workflow_context == b.workflow_context
    &&& a.ended_at == b.ended_at
    &&& a.name == b.name
}

impl SagaContext {
    /// A fresh saga context with a random identifier, started now.
    pub fn new(name: String, workflow_context: WorkflowContext) -> (c: Self)
        ensures
            c.name == name,
            c.workflow_context == workflow_context,
            is_uuid_v4_text(c.id@),
            c.ended_at is None,
            c.step_states@ == Map::<Seq<char>, SagaStepState>::empty(),
            c.step_results@ == Map::<Seq<char>, serde_json::Value>::empty(),
            c.retry_counts@ == Map::<Seq<char>, usize>::empty(),
    {
        SagaContext {
            id: new_uuid_string(),
            name,
            started_at: clock_now().rfc3339,
            ended_at: None,
            step_states: StrMap::new(),
            step_results: StrMap::new(),
            retry_counts: StrMap::new(),
            workflow_context,
        }
    }

    /// Whether step `step_id` has completed.
    pub fn is_step_completed(&self, step_id: &str) -> (r: bool)
        ensures
            r == (self.step_states@.contains_key(step_id@) && self.step_states@[step_id@] is Completed),
    {
        match self.step_states.get(step_id) {
            Some(SagaStepState::Completed) => true,
            _ => false,
        }
    }

    pub fn mark_step_executing(&mut self, step_id: &str)
        ensures
            final(self).step_states@ == old(self).step_states@.insert(step_id@, SagaStepState::Executing),
            same_but_states(*final(self), *old(self)),
    {
        self.step_states.insert(String::from_str(step_id), SagaStepState::Executing);
    }

    pub fn mark_step_completed(&mut self, step_id: &str, result: serde_json::Value)
        ensures
            final(self).step_states@ == old(self).step_states@.insert(step_id@, SagaStepState::Completed),
            final(self).step_results@ == old(self).step_results@.insert(step_id@, result),
            final(self).step_results.key_seq() == (if old(self).step_results@.contains_key(step_id@) {
                old(self).step_results.key_seq()
            } else {
                old(self).step_results.key_seq().push(step_id@)
            }),
            final(self).retry_counts@ == old(self).retry_counts@,
            final(self).workflow_context == old(self).workflow_context,
            final(self).ended_at == old(self).ended_at,
            final(self).name == old(self).name,
    {
        self.step_states.insert(String::from_str(step_id), SagaStepState::Completed);
        self.step_results.insert(String::from_str(step_id), result);
    }

    pub fn mark_step_failed(&mut self, step_id: &str, error: String)
        ensures
            final(self).step_states@ == old(self).step_states@.insert(step_id@, SagaStepState::Failed(error)),
            same_but_states(*final(self), *old(self)),
    {
        self.step_states.insert(String::from_str(step_id), SagaStepState::Failed(error));
    }

    pub fn mark_step_compensating(&mut self, step_id: &str)
        ensures
            final(self).step_states@ == old(self).step_states@.insert(step_id@, SagaStepState::Compensating),
            same_but_states(*final(self), *old(self)),
    {
        self.step_states.insert(String::from_str(step_id), SagaStepState::Compensating);
    }

    pub fn mark_step_compensated(&mut self, step_id: &str)
        ensures
            final(self).step_states@ == old(self).step_states@.insert(step_id@, SagaStepState::Compensated),
            same_but_states(*final(self), *old(self)),
    {
        self.step_states.insert(String::from_str(step_id), SagaStepState::Compensated);
    }

    pub fn mark_step_compensation_failed(&mut self, step_id: &str, error: String)
        ensures
            final(self).step_states@ == old(self).step_states@.insert(step_id@, SagaStepState::CompensationFailed(error)),
            same_but_states(*final(self), *old(self)),
    {
        self.step_states.insert(String::from_str(step_id), SagaStepState::CompensationFailed(error));
    }

    /// Counts one more retry of step `step_id` and returns the new count.
    pub fn increment_retry(&mut self, step_id: &str) -> (n: usize)
        requires
            old(self).retry_counts@.contains_key(step_id@) ==> old(self).retry_counts@[step_id@] < usize::MAX,
        ensures
            n == (if old(self).retry_counts@.contains_key(step_id@) { old(self).retry_counts@[step_id@] + 1 } else { 1 }),
            final(self).retry_counts@ == old(self).retry_counts@.insert(step_id@, n),
            final(self).step_states@ == old(self).step_states@,
            final(self).step_results@ == old(self).step_results@,
            final(self).workflow_context == old(self).workflow_context,
            final(self).ended_at == old(self).ended_at,
            final(self).name == old(self).name,
    {
        let n = match self.retry_counts.get(step_id) {
            Some(c) => *c + 1,
            None => 1,
        };
        self.retry_counts.insert(String::from_str(step_id), n);
        n
    }
}

/// The steps of a saga, in the order they run.
#[derive(Debug)]
pub struct SagaOrchestrator {
    pub steps: Vec<SagaStepConfig>,
}

/// Where a run of a saga stands.
#[derive(Debug)]
pub enum SagaPhase {
    /// The action of step `index` is to be run for the `attempt`-th time.
    Running { index: usize, attempt: usize },
    /// Step `failed_at` failed for good; the steps before `next` are still to
    /// be looked at, from the last down. `current` is the step whose
    /// compensation is to be run, and `compensated` names the steps
    /// compensated so far.
    Compensating { failed_at: usize, next: usize, current: Option<usize>, compensated: Vec<String> },
    /// The run is over; its result is set.
    Finished,
}

/// A run of a saga.
#[derive(Debug)]
pub struct SagaRun {
    pub context: SagaContext,
    pub phase: SagaPhase,
    pub result: Option<SagaResult>,
}

/// The names of steps `hi - 1` down to `lo`.
pub open spec fn rev_names(steps: Seq<SagaStepConfig>, lo: int, hi: int) -> Seq<Seq<char>>
    decreases hi - lo,
{
    if hi <= lo {
        Seq::empty()
    } else {
        seq![steps[hi - 1].name@] + rev_names(steps, lo, hi - 1)
    }
}

proof fn lemma_rev_names_low(steps: Seq<SagaStepConfig>, lo: int, hi: int)
    requires
        lo < hi,
    ensures
        rev_names(steps, lo, hi) == rev_names(steps, lo + 1, hi).push(steps[lo].name@),
    decreases hi - lo,
{
    if hi - lo == 1 {
        assert(rev_names(steps, lo, lo) =~= Seq::<Seq<char>>::empty());
        assert(rev_names(steps, lo + 1, hi) =~= Seq::<Seq<char>>::empty());
        assert(rev_names(steps, lo, hi) =~= seq![steps[lo].name@]);
    } else {
        lemma_rev_names_low(steps, lo, hi - 1);
        assert(rev_names(steps, lo, hi) =~= rev_names(steps, lo + 1, hi).push(steps[lo].name@));
    }
}

/// Whether the saga context records step `id` as completed.
pub open spec fn completed_in(c: SagaContext, id: Seq<char>) -> bool {
    c.step_states@.contains_key(id) && c.step_states@[id] is Completed
}

impl SagaOrchestrator {
    /// A saga without steps.
    pub fn new() -> (o: Self)
        ensures
            o.steps@.len() == 0,
    {
        SagaOrchestrator { steps: Vec::new() }
    }

    /// The same saga with `step` appended.
    pub fn add_step(self, step: SagaStepConfig) -> (o: Self)
        ensures
            o.steps@ == self.steps@.push(step),
    {
        let mut steps = self.steps;
        steps.push(step);
        SagaOrchestrator { steps }
    }

    /// Whether no two steps share an identifier.
    pub open spec fn ids_distinct(&self) -> bool {
        forall|i: int, j: int| 0 <= i < j < self.steps@.len() ==> self.steps@[i].id@ != self.steps@[j].id@
    }

    /// Whether the step that `run` is at can take an outcome without an
    /// overflow: its count of attempts fits, its retry count can grow, and
    /// where it `failed` and is tried again, the backoff delay fits in 64
    /// bits.
    pub open spec fn attempt_fits(&self, run: SagaRun, failed: bool) -> bool {
        let (i, a) = match run.phase {
            SagaPhase::Running { index, attempt } => (index, attempt),
            _ => (0, 0),
        };
        let step = self.steps@[i as int];
        &&& step.retryable ==> step.max_retries < usize::MAX
        &&& failed && (a as int) < max_attempts(step) ==> a <= 58
        &&& run.context.retry_counts@.contains_key(step.id@) ==> run.context.retry_counts@[step.id@] < usize::MAX
    }

    /// What holds of a run of this saga between two calls.
    pub open spec fn wf(&self, run: SagaRun) -> bool {
        let steps = self.steps@;
        let st = run.context.step_states@;
        match run.phase {
            SagaPhase::Running { index, attempt } => {
                &&& index < steps.len()
                &&& 1 <= attempt <= max_attempts(steps[index as int])
                &&& run.result is None
                &&& st.contains_key(steps[index as int].id@)
                &&& st[steps[index as int].id@] is Executing
                &&& self.ids_distinct() ==> forall|j: int| 0 <= j < index ==> completed_in(run.context, #[trigger] steps[j].id@)
            },
            SagaPhase::Compensating { failed_at, next, current, compensated } => {
                &&& failed_at < steps.len()
                &&& next <= failed_at
                &&& run.result is None
                &&& match current {
                    None => self.ids_distinct() ==> {
                        &&& views(compensated@) == rev_names(steps, next as int, failed_at as int)
                        &&& forall|j: int| 0 <= j < next ==> completed_in(run.context, #[trigger] steps[j].id@)
                    },
                    Some(c) => {
                        &&& c == next
                        &&& next < failed_at
                        &&& st.contains_key(steps[c as int].id@)
                        &&& st[steps[c as int].id@] is Compensating
                        &&& self.ids_distinct() ==> {
                            &&& views(compensated@) == rev_names(steps, next + 1, failed_at as int)
                            &&& forall|j: int| 0 <= j < next ==> completed_in(run.context, #[trigger] steps[j].id@)
                        }
                    },
                }
            },
            SagaPhase::Finished => run.result is Some,
        }
    }

    /// Starts a run: with no steps it completes at once with an empty
    /// result, otherwise the first step is marked executing.
    pub fn start(&self, context: SagaContext) -> (run: SagaRun)
        ensures
            self.wf(run),
            self.steps@.len() == 0 ==> (run.result matches Some(SagaResult::Completed(_)) && run.phase is Finished
                && run.context.step_states@ == context.step_states@ && run.context.ended_at is Some),
            self.steps@.len() > 0 ==> run.phase == (SagaPhase::Running { index: 0, attempt: 1 })
                && run.context.step_states@ == context.step_states@.insert(self.steps@[0].id@, SagaStepState::Executing)
                && same_but_states(run.context, context),
    {
        let mut context = context;
        if self.steps.len() == 0 {
            context.ended_at = Some(clock_now().rfc3339);
            return SagaRun { context, phase: SagaPhase::Finished, result: Some(SagaResult::Completed(empty_json_object())) };
        }
        context.mark_step_executing(self.steps[0].id.as_str());
        let run = SagaRun { context, phase: SagaPhase::Running { index: 0, attempt: 1 }, result: None };
        proof {
            if self.steps[0].retryable {
                assert(max_attempts(self.steps@[0]) >= 1);
            }
        }
        run
    }

    /// Takes the outcome of running the action of the step that the run is
    /// at: its result, or the text of its error. Returns the delay in
    /// milliseconds to wait before the step is attempted again, if it is.
    pub fn on_step_result(&self, run: &mut SagaRun, outcome: Result<serde_json::Value, String>) -> (delay: Option<u64>)
        requires
            self.wf(*old(run)),
            old(run).phase is Running,
            self.attempt_fits(*old(run), outcome is Err),
        ensures
            self.wf(*final(run)),
            ({
                let (i, a) = match old(run).phase { SagaPhase::Running { index, attempt } => (index, attempt), _ => (0, 0) };
                let step = self.steps@[i as int];
                let id = step.id@;
                let ctx = old(run).context;
                match outcome {
                    Ok(v) => {
                        &&& delay is None
                        &&& i + 1 < self.steps@.len() ==> {
                            &&& final(run).phase == (SagaPhase::Running { index: (i + 1) as usize, attempt: 1 })
                            &&& final(run).context.step_states@ == ctx.step_states@.insert(id, SagaStepState::Completed)
                                .insert(self.steps@[i + 1].id@, SagaStepState::Executing)
                            &&& final(run).context.step_results@ == ctx.step_results@.insert(id, v)
                        }
                        &&& i + 1 == self.steps@.len() ==> {
                            &&& final(run).phase is Finished
                            &&& final(run).result == Some(SagaResult::Completed(v))
                            &&& final(run).context.step_states@ == ctx.step_states@.insert(id, SagaStepState::Completed)
                            &&& final(run).context.ended_at is Some
                            &&& self.ids_distinct() ==> forall|j: int| 0 <= j < self.steps@.len()
                                ==> completed_in(final(run).context, #[trigger] self.steps@[j].id@)
                        }
                    },
                    Err(e) => {
                        &&& (a as int) < max_attempts(step) ==> {
                            &&& delay == Some(backoff_spec(a as nat) as u64)
                            &&& final(run).phase == (SagaPhase::Running { index: i, attempt: (a + 1) as usize })
                            &&& final(run).context.step_states@ == ctx.step_states@
                            &&& final(run).context.retry_counts@ == ctx.retry_counts@.insert(id,
                                if ctx.retry_counts@.contains_key(id) { (ctx.retry_counts@[id] + 1) as usize } else { 1 })
                        }
                        &&& (a as int) >= max_attempts(step) ==> {
                            &&& delay is None
                            &&& final(run).phase matches SagaPhase::Compensating { failed_at, next, current, compensated }
                                && failed_at == i && next == i && current is None && compensated@.len() == 0
                            &&& final(run).context.step_states@ == ctx.step_states@.insert(id, SagaStepState::Failed(e))
                        }
                    },
                }
            }),
            final(run).context.workflow_context == old(run).context.workflow_context,
    {
        let ghost old_run = *run;
        let mut phase = SagaPhase::Finished;
        std::mem::swap(&mut phase, &mut run.phase);
        let (i, a) = match phase {
            SagaPhase::Running { index, attempt } => (index, attempt),
            _ => (0, 0),
        };
        let n = self.steps.len();
        let step = &self.steps[i];
        match outcome {
            Ok(v) => {
                if i + 1 < n {
                    run.context.mark_step_completed(step.id.as_str(), v);
                    run.context.mark_step_executing(self.steps[i + 1].id.as_str());
                    run.phase = SagaPhase::Running { index: i + 1, attempt: 1 };
                    proof {
                        if self.ids_distinct() {
                            assert forall|j: int| 0 <= j < i + 1 implies completed_in(run.context, #[trigger] self.steps@[j].id@) by {
                                if j < i {
                                    assert(completed_in(old_run.context, self.steps@[j].id@));
                                }
                            }
                        }
                    }
                } else {
                    run.context.step_states.insert(String::from_str(step.id.as_str()), SagaStepState::Completed);
                    run.context.ended_at = Some(clock_now().rfc3339);
                    run.result = Some(SagaResult::Completed(v));
                    proof {
                        if self.ids_distinct() {
                            assert forall|j: int| 0 <= j < n implies completed_in(run.context, #[trigger] self.steps@[j].id@) by {
                                if j < i {
                                    assert(completed_in(old_run.context, self.steps@[j].id@));
                                }
                            }
                        }
                    }
                }
                None
            },
            Err(e) => {
                let max: usize = if step.retryable { step.max_retries + 1 } else { 1 };
                if a < max {
                    run.context.increment_retry(step.id.as_str());
                    run.phase = SagaPhase::Running { index: i, attempt: a + 1 };
                    Some(backoff_delay_ms(a))
                } else {
                    run.context.mark_step_failed(step.id.as_str(), e);
                    run.phase = SagaPhase::Compensating { failed_at: i, next: i, current: None, compensated: Vec::new() };
                    proof {
                        assert(views(Seq::<String>::empty()) =~= rev_names(self.steps@, i as int, i as int));
                    }
                    None
                }
            },
        }
    }

    /// Looks for the next completed step to compensate, from the last one
    /// before the failed step down. Marks it compensating and returns its
    /// position; when none is left, ends the run as compensated.
    pub fn next_compensation(&self, run: &mut SagaRun) -> (r: Option<usize>)
        requires
            self.wf(*old(run)),
            old(run).phase matches SagaPhase::Compensating { current, .. } && current is None,
        ensures
            self.wf(*final(run)),
            ({
                let (f, nx) = match old(run).phase { SagaPhase::Compensating { failed_at, next, .. } => (failed_at, next), _ => (0, 0) };
                let done = match old(run).phase { SagaPhase::Compensating { compensated, .. } => compensated@, _ => Seq::empty() };
                match r {
                    Some(j) => {
                        &&& j < nx
                        &&& completed_in(old(run).context, self.steps@[j as int].id@)
                        &&& forall|k: int| j < k < nx ==> !completed_in(old(run).context, #[trigger] self.steps@[k].id@)
                        &&& final(run).phase matches SagaPhase::Compensating { failed_at, next, current, compensated }
                            && failed_at == f && next == j && current == Some(j) && compensated@ == done
                        &&& final(run).context.step_states@ == old(run).context.step_states@.insert(self.steps@[j as int].id@, SagaStepState::Compensating)
                    },
                    None => {
                        &&& forall|k: int| 0 <= k < nx ==> !completed_in(old(run).context, #[trigger] self.steps@[k].id@)
                        &&& final(run).phase is Finished
                        &&& final(run).result matches Some(SagaResult::Compensated { error, compensated_steps })
                            && error@ == self.steps@[f as int].name@ && compensated_steps@ == done
                        &&& final(run).context.step_states@ == old(run).context.step_states@
                        &&& final(run).context.ended_at is Some
                        // The steps before the failed one are compensated in reverse order.
                        &&& self.ids_distinct() ==> (final(run).result matches Some(SagaResult::Compensated { compensated_steps, .. })
                            && views(compensated_steps@) == rev_names(self.steps@, 0, f as int))
                    },
                }
            }),
            final(run).context.workflow_context == old(run).context.workflow_context,
            final(run).context.step_results@ == old(run).context.step_results@,
    {
        let ghost old_run = *run;
        let mut phase = SagaPhase::Finished;
        std::mem::swap(&mut phase, &mut run.phase);
        match phase {
            SagaPhase::Compensating { failed_at, next, current, compensated } => {
                let mut k = next;
                while k > 0
                    invariant
                        k <= next,
                        next <= failed_at < self.steps@.len(),
                        run.context == old_run.context,
                        old_run == *old(run),
                        run.result is None,
                        run.phase is Finished,
                        self.wf(old_run),
                        old_run.phase matches SagaPhase::Compensating { failed_at: f0, next: n0, compensated: c0, current: c1 }
                            && f0 == failed_at && n0 == next && c0@ == compensated@ && c1 is None,
                        forall|m: int| k <= m < next ==> !completed_in(old_run.context, #[trigger] self.steps@[m].id@),
                        self.ids_distinct() ==> forall|j: int| 0 <= j < next ==> completed_in(old_run.context, #[trigger] self.steps@[j].id@),
                        self.ids_distinct() ==> views(compensated@) == rev_names(self.steps@, next as int, failed_at as int),
                    decreases k,
                {
                    k = k - 1;
                    if run.context.is_step_completed(self.steps[k].id.as_str()) {
                        run.context.mark_step_compensating(self.steps[k].id.as_str());
                        run.phase = SagaPhase::Compensating { failed_at, next: k, current: Some(k), compensated };
                        proof {
                            if self.ids_distinct() {
                                assert(k + 1 == next) by {
                                    if k + 1 < next {
                                        assert(completed_in(old_run.context, self.steps@[k + 1].id@));
                                    }
                                }
                                assert forall|j: int| 0 <= j < k implies completed_in(run.context, #[trigger] self.steps@[j].id@) by {
                                    assert(completed_in(old_run.context, self.steps@[j].id@));
                                }
                            }
                        }
                        return Some(k);
                    }
                }
                proof {
                    if self.ids_distinct() && next > 0 {
                        assert(completed_in(old_run.context, self.steps@[next - 1].id@));
                    }
                }
                run.context.ended_at = Some(clock_now().rfc3339);
                let error = self.steps[failed_at].name.clone();
                run.result = Some(SagaResult::Compensated { error, compensated_steps: compensated });
                None
            },
            _ => None,
        }
    }

    /// Takes the outcome of the compensation that the run is at: success, or
    /// the text of its error. A failed compensation ends the run.
    pub fn on_compensation_result(&self, run: &mut SagaRun, outcome: Result<(), String>)
        requires
            self.wf(*old(run)),
            old(run).phase matches SagaPhase::Compensating { current, .. } && current is Some,
        ensures
            self.wf(*final(run)),
            ({
                let (f, nx, j) = match old(run).phase {
                    SagaPhase::Compensating { failed_at, next, current, .. } => (failed_at, next, current->0),
                    _ => (0, 0, 0),
                };
                let done = match old(run).phase { SagaPhase::Compensating { compensated, .. } => compensated@, _ => Seq::empty() };
                let id = self.steps@[j as int].id@;
                match outcome {
                    Ok(()) => {
                        &&& final(run).phase matches SagaPhase::Compensating { failed_at, next, current, compensated }
                            && failed_at == f && next == nx && current is None
                            && compensated@ == done.push(compensated@.last())
                            && compensated@.last()@ == self.steps@[j as int].name@
                        &&& final(run).context.step_states@ == old(run).context.step_states@.insert(id, SagaStepState::Compensated)
                    },
                    Err(e) => {
                        &&& final(run).phase is Finished
                        &&& final(run).result matches Some(SagaResult::CompensationFailed { error, compensation_error, failed_at_step })
                            && error@ == self.steps@[f as int].name@ && compensation_error@ == e@
                            && failed_at_step@ == self.steps@[j as int].name@
                        &&& final(run).context.step_states@.dom() == old(run).context.step_states@.dom().insert(id)
                        &&& final(run).context.step_states@[id] matches SagaStepState::CompensationFailed(m) && m@ == e@
                        &&& final(run).context.ended_at is Some
                    },
                }
            }),
            final(run).context.workflow_context == old(run).context.workflow_context,
            final(run).context.step_results@ == old(run).context.step_results@,
    {
        let ghost old_run = *run;
        let mut phase = SagaPhase::Finished;
        std::mem::swap(&mut phase, &mut run.phase);
        match phase {
            SagaPhase::Compensating { failed_at, next, current, compensated } => {
                let j = match current { Some(c) => c, None => 0 };
                let step = &self.steps[j];
                match outcome {
                    Ok(()) => {
                        run.context.mark_step_compensated(step.id.as_str());
                        let mut compensated = compensated;
                        let ghost before = compensated@;
                        compensated.push(step.name.clone());
                        proof {
                            if self.ids_distinct() {
                                lemma_rev_names_low(self.steps@, j as int, failed_at as int);
                                assert(views(compensated@) =~= views(before).push(step.name@));
                                assert forall|m: int| 0 <= m < next implies completed_in(run.context, #[trigger] self.steps@[m].id@) by {
                                    assert(completed_in(old_run.context, self.steps@[m].id@));
                                }
                            }
                        }
                        run.phase = SagaPhase::Compensating { failed_at, next, current: None, compensated };
                    },
                    Err(e) => {
                        run.context.mark_step_compensation_failed(step.id.as_str(), e.clone());
                        run.context.ended_at = Some(clock_now().rfc3339);
                        run.result = Some(SagaResult::CompensationFailed {
                            error: self.steps[failed_at].name.clone(),
                            compensation_error: e,
                            failed_at_step: step.name.clone(),
                        });
                    },
                }
            },
            _ => {},
        }
    }
}

/// What a workflow step that ran a saga decides from the saga's result: a
/// completed saga stores the JSON text of its result under "saga_result"
/// and continues; a failed one fails the step with a message naming what
/// failed.
pub fn saga_step_decision(result: SagaResult, context: &mut WorkflowContext) -> (r: Result<WorkflowDecision, AgentError>)
    ensures
        match result {
            SagaResult::Completed(v) => r matches Ok(WorkflowDecision::Continue)
                && final(context).metadata@ == old(context).metadata@.insert("saga_result"@, final(context).metadata@["saga_result"@])
                && final(context).metadata@["saga_result"@]@ == json_text_of(v),
            SagaResult::Compensated { error, .. } => r matches Err(AgentError::Workflow(m))
                && m@ == "Saga failed and was compensated: "@ + error@
                && final(context).metadata@ == old(context).metadata@,
            SagaResult::CompensationFailed { error, compensation_error, failed_at_step } => r matches Err(AgentError::Workflow(m))
                && m@ == "Saga failed ("@ + error@ + ") and compensation also failed at '"@ + failed_at_step@ + "': "@ + compensation_error@
                && final(context).metadata@ == old(context).metadata@,
        },
        final(context).messages@ == old(context).messages@,
        final(context).step_count == old(context).step_count,
{
    match result {
        SagaResult::Completed(value) => {
            context.metadata.insert(String::from_str("saga_result"), json_to_string(&value));
            Ok(WorkflowDecision::Continue)
        },
        SagaResult::Compensated { error, .. } => {
            Err(AgentError::Workflow(concat2("Saga failed and was compensated: ", error.as_str())))
        },
        SagaResult::CompensationFailed { error, compensation_error, failed_at_step } => {
            let mut m = String::from_str("Saga failed (");
            push_str(&mut m, error.as_str());
            push_str(&mut m, ") and compensation also failed at '");
            push_str(&mut m, failed_at_step.as_str());
            push_str(&mut m, "': ");
            push_str(&mut m, compensation_error.as_str());
            proof {
                assert(m@ =~= "Saga failed ("@ + error@ + ") and compensation also failed at '"@ + failed_at_step@ + "': "@ + compensation_error@);
            }
            Err(AgentError::Workflow(m))
        },
    }
}

} // verus!
