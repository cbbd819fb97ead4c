//! Retrying the store connection at start-up with capped exponential backoff.
//!
//! The decisions are made here; the caller makes each connection attempt and
//! sleeps for the delay it is told.
use vstd::prelude::*;

verus! {

/// Settings of the connection retry loop.
#[derive(Debug, Clone, Copy)]
pub struct ConnectionConfig {
    /// Most connection attempts in all.
    pub max_retries: u32,
    /// Delay before the second attempt, in milliseconds.
    pub initial_delay_ms: u64,
    /// Upper bound of the delay, in milliseconds.
    pub max_delay_ms: u64,
}

impl ConnectionConfig {
    /// Five attempts, 500 ms first delay, 5 s cap.
    pub fn new() -> (r: ConnectionConfig)
        ensures
            r.max_retries == 5,
            r.initial_delay_ms == 500,
            r.max_delay_ms == 5000,
    {
        ConnectionConfig { max_retries: 5, initial_delay_ms: 500, max_delay_ms: 5000 }
    }

    /// The settings with each given value in place of the default.
    pub fn with_overrides(max_retries: Option<u32>, initial_delay_ms: Option<u64>, max_delay_ms: Option<u64>) -> (r: ConnectionConfig)
        ensures
            r.max_retries == match max_retries { Some(v) => v, None => 5u32 },
            r.initial_delay_ms == match initial_delay_ms { Some(v) => v, None => 500u64 },
            r.max_delay_ms == match max_delay_ms { Some(v) => v, None => 5000u64 },
    {
        let d = ConnectionConfig::new();
        ConnectionConfig {
            max_retries: match max_retries { Some(v) => v, None => d.max_retries },
            initial_delay_ms: match initial_delay_ms { Some(v) => v, None => d.initial_delay_ms },
            max_delay_ms: match max_delay_ms { Some(v) => v, None => d.max_delay_ms },
        }
    }
}

impl Default for ConnectionConfig {
    fn default() -> (r: ConnectionConfig)
        ensures
            r.max_retries == 5,
            r.initial_delay_ms == 500,
            r.max_delay_ms == 5000,
    {
        ConnectionConfig::new()
    }
}

pub open spec fn spec_next_delay(delay: int, cap: int) -> int {
    if 2 * delay <= cap { 2 * delay } else { cap }
}

/// The delay after `delay`: doubled, but never above `cap`.
pub fn next_delay(delay_ms: u64, max_delay_ms: u64) -> (r: u64)
    ensures
        r == spec_next_delay(delay_ms as int, max_delay_ms as int),
{
    if delay_ms <= max_delay_ms / 2 {
        delay_ms * 2
    } else {
        max_delay_ms
    }
}

/// The delay before retry number `k + 1`, starting from `initial`.
pub open spec fn backoff_delay(initial: int, cap: int, k: nat) -> int
    decreases k,
{
    if k == 0 {
        initial
    } else {
        spec_next_delay(backoff_delay(initial, cap, (k - 1) as nat), cap)
    }
}

/// What to do after a failed connection attempt.
#[derive(Debug, Clone, Copy, PartialEq, Eq, Structural)]
pub enum RetryDecision {
    /// The last allowed attempt failed: the error is final.
    GiveUp,
    /// Sleep this many milliseconds, then try again.
    RetryAfter(u64),
}

/// Progress of the retry loop: attempts made so far and the next delay.
#[derive(Debug, Clone, Copy)]
pub struct RetryState {
    pub attempt: u32,
    pub delay_ms: u64,
}

impl RetryState {
    pub open spec fn follows(&self, cfg: ConnectionConfig) -> bool {
        self.delay_ms == backoff_delay(cfg.initial_delay_ms as int, cfg.max_delay_ms as int, self.attempt as nat)
    }

    pub fn start(cfg: &ConnectionConfig) -> (r: RetryState)
        ensures
            r.attempt == 0,
            r.delay_ms == cfg.initial_delay_ms,
            r.follows(*cfg),
    {
        RetryState { attempt: 0, delay_ms: cfg.initial_delay_ms }
    }

    /// Counts a failed attempt. Gives up once `max_retries` attempts have
    /// failed; otherwise says to wait the current delay and doubles it up to the cap.
    pub fn on_failure(&mut self, cfg: &ConnectionConfig) -> (r: RetryDecision)
        requires
            old(self).attempt < cfg.max_retries,
        ensures
            final(self).attempt == old(self).attempt + 1,
            final(self).attempt >= cfg.max_retries ==> r == RetryDecision::GiveUp && final(self).delay_ms == old(self).delay_ms,
            final(self).attempt < cfg.max_retries ==> r == RetryDecision::RetryAfter(old(self).delay_ms)
                && final(self).delay_ms == spec_next_delay(old(self).delay_ms as int, cfg.max_delay_ms as int),
            old(self).follows(*cfg) && r != RetryDecision::GiveUp ==> final(self).follows(*cfg),
    {
        self.attempt = self.attempt + 1;
        if self.attempt >= cfg.max_retries {
            RetryDecision::GiveUp
        } else {
            let d = self.delay_ms;
            self.delay_ms = next_delay(d, cfg.max_delay_ms);
            RetryDecision::RetryAfter(d)
        }
    }
}

/// Backoff monotonicity: from a first delay no larger than the cap, each delay
/// is the previous one doubled while that stays within the cap, and the cap
/// after that; the sequence never decreases and, once at the cap, stays there.
pub proof fn lemma_backoff_monotone(initial: int, cap: int, k: nat)
    requires
        0 <= initial <= cap,
    ensures
        backoff_delay(initial, cap, k + 1) == if 2 * backoff_delay(initial, cap, k) <= cap {
            2 * backoff_delay(initial, cap, k)
        } else {
            cap
        },
        0 <= backoff_delay(initial, cap, k) <= backoff_delay(initial, cap, k + 1) <= cap,
        backoff_delay(initial, cap, k) == cap ==> backoff_delay(initial, cap, k + 1) == cap,
    decreases k,
{
    if k > 0 {
        lemma_backoff_monotone(initial, cap, (k - 1) as nat);
    }
}

} // verus!
