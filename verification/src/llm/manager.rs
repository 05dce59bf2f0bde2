//! Retrying a language-model call and falling back to other providers.
//!
//! The calls themselves are made by the caller; this module decides, after
//! each failure, whether to retry the same provider, move to the next one or
//! give up, and with which error.

use vstd::prelude::*;
use crate::error::{AgentError, LlmError};

verus! {

/// Settings of the provider manager.
#[derive(Debug, Clone)]
pub struct ManagerConfig {
    pub enable_fallback: bool,
    pub max_retries: usize,
    pub retry_delay_ms: u64,
}

impl Default for ManagerConfig {
    fn default() -> (r: Self)
        ensures
            r.enable_fallback,
            r.max_retries == 2,
            r.retry_delay_ms == 1000,
    {
        ManagerConfig { enable_fallback: true, max_retries: 2, retry_delay_ms: 1000 }
    }
}

/// What the caller does next. Provider 0 is the primary provider; providers
/// `1..=fallbacks` are the fallbacks in order.
#[derive(Debug, Clone)]
pub enum NextCall {
    /// Call the provider now.
    Call { provider: usize },
    /// Wait `delay_ms` milliseconds, then call the provider again.
    Retry { provider: usize, delay_ms: u64 },
    /// Give up with this error.
    GiveUp(AgentError),
}

/// `e` is the error reported when a provider was never tried.
pub open spec fn is_no_error_recorded(e: AgentError) -> bool {
    e matches AgentError::Llm(LlmError::Unknown(t)) && t@ == "No error recorded"@
}

/// The progress of one managed call.
#[derive(Debug)]
pub struct FallbackPlan {
    config: ManagerConfig,
    fallbacks: usize,
    provider: usize,
    attempts: usize,
    finished: bool,
}

/// What follows once provider `p` has used up its attempts and failed with
/// `err`: the primary's own error where fallback is off or there is none,
/// a call to the next provider, or a failure of all providers.
pub open spec fn after_exhausted(cfg: ManagerConfig, fallbacks: usize, p: usize, err: AgentError) -> NextCall {
    if p == 0 && (!cfg.enable_fallback || fallbacks == 0) {
        NextCall::GiveUp(err)
    } else if p >= fallbacks || cfg.max_retries == 0 {
        NextCall::GiveUp(AgentError::Llm(LlmError::AllProvidersFailed))
    } else {
        NextCall::Call { provider: (p + 1) as usize }
    }
}

impl FallbackPlan {
    /// The settings the plan follows.
    pub closed spec fn config_spec(&self) -> ManagerConfig {
        self.config
    }

    /// The number of fallback providers.
    pub closed spec fn fallbacks_spec(&self) -> usize {
        self.fallbacks
    }

    /// The provider that the last call went to.
    pub closed spec fn provider_spec(&self) -> usize {
        self.provider
    }

    /// How many calls the current provider has received.
    pub closed spec fn attempts_spec(&self) -> usize {
        self.attempts
    }

    /// Whether the plan has given up.
    pub closed spec fn finished_spec(&self) -> bool {
        self.finished
    }

    /// Whether a call is outstanding, so that its failure can be recorded.
    pub open spec fn awaiting_result(&self) -> bool {
        !self.finished_spec() && self.provider_spec() <= self.fallbacks_spec()
            && 1 <= self.attempts_spec() <= self.config_spec().max_retries
    }

    fn exhausted(&mut self, err: AgentError) -> (next: NextCall)
        requires
            !old(self).finished,
            old(self).provider <= old(self).fallbacks,
        ensures
            next == after_exhausted(old(self).config, old(self).fallbacks, old(self).provider, err),
            final(self).config == old(self).config,
            final(self).fallbacks == old(self).fallbacks,
            next is Call ==> final(self).provider == old(self).provider + 1 && final(self).attempts == 1
                && !final(self).finished,
            next is GiveUp ==> final(self).finished,
    {
        if self.provider == 0 && (!self.config.enable_fallback || self.fallbacks == 0) {
            self.finished = true;
            NextCall::GiveUp(err)
        } else if self.provider >= self.fallbacks || self.config.max_retries == 0 {
            self.finished = true;
            NextCall::GiveUp(AgentError::Llm(LlmError::AllProvidersFailed))
        } else {
            self.provider = self.provider + 1;
            self.attempts = 1;
            NextCall::Call { provider: self.provider }
        }
    }

    /// Starts a managed call over a primary provider and `fallbacks`
    /// fallback providers.
    pub fn start(config: ManagerConfig, fallbacks: usize) -> (r: (FallbackPlan, NextCall))
        ensures
            r.0.config_spec() == config,
            r.0.fallbacks_spec() == fallbacks,
            config.max_retries > 0 ==> r.1 == (NextCall::Call { provider: 0 }) && r.0.provider_spec() == 0
                && r.0.attempts_spec() == 1 && r.0.awaiting_result(),
            config.max_retries == 0 ==> (r.1 matches NextCall::GiveUp(e) && (
                if !config.enable_fallback || fallbacks == 0 {
                    is_no_error_recorded(e)
                } else {
                    e == AgentError::Llm(LlmError::AllProvidersFailed)
                })) && r.0.finished_spec(),
    {
        let mut plan = FallbackPlan { config, fallbacks, provider: 0, attempts: 0, finished: false };
        if plan.config.max_retries == 0 {
            let err = AgentError::Llm(LlmError::Unknown(String::from_str("No error recorded")));
            let next = plan.exhausted(err);
            (plan, next)
        } else {
            plan.attempts = 1;
            (plan, NextCall::Call { provider: 0 })
        }
    }

    /// Records that the outstanding call failed with `err` and says what to
    /// do next: retry the same provider after the configured delay while it
    /// has attempts left, otherwise fall back or give up.
    pub fn record_failure(&mut self, err: AgentError) -> (next: NextCall)
        requires
            old(self).awaiting_result(),
        ensures
            final(self).config_spec() == old(self).config_spec(),
            final(self).fallbacks_spec() == old(self).fallbacks_spec(),
            old(self).attempts_spec() < old(self).config_spec().max_retries ==> (
                next == (NextCall::Retry {
                    provider: old(self).provider_spec(),
                    delay_ms: old(self).config_spec().retry_delay_ms,
                })
                && final(self).provider_spec() == old(self).provider_spec()
                && final(self).attempts_spec() == old(self).attempts_spec() + 1),
            old(self).attempts_spec() == old(self).config_spec().max_retries ==> next == after_exhausted(
                old(self).config_spec(),
                old(self).fallbacks_spec(),
                old(self).provider_spec(),
                err,
            ),
            next is GiveUp <==> final(self).finished_spec(),
            !(next is GiveUp) ==> final(self).awaiting_result(),
    {
        if self.attempts < self.config.max_retries {
            self.attempts = self.attempts + 1;
            NextCall::Retry { provider: self.provider, delay_ms: self.config.retry_delay_ms }
        } else {
            self.exhausted(err)
        }
    }
}

} // verus!
