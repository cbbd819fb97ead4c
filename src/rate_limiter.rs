//! Token-bucket pacing of calls to the source feed.
//!
//! The bucket's decisions are made here from the current time in
//! milliseconds; the caller holds the lock, reads the clock and sleeps.
use vstd::prelude::*;

verus! {

/// A token bucket: up to `max_tokens` tokens, one more every `refill_interval_ms`.
#[derive(Debug, Clone, Copy)]
pub struct RateLimiter {
    pub max_tokens: u32,
    pub refill_interval_ms: u64,
    pub tokens: u32,
    pub last_refill_ms: u64,
}

/// Milliseconds since the last refill; none when the clock reads earlier.
pub open spec fn elapsed_since(last: u64, now: u64) -> int {
    if now >= last { now - last } else { 0 }
}

/// Tokens and refill time after refilling at `now`: whole intervals elapsed are
/// added, up to the capacity, and the refill time moves to `now` when any was added.
pub open spec fn refilled(s: RateLimiter, now: u64) -> (int, int) {
    let add = elapsed_since(s.last_refill_ms, now) / (s.refill_interval_ms as int);
    if add > 0 {
        let sum = s.tokens + add;
        (if sum > s.max_tokens { s.max_tokens as int } else { sum }, now as int)
    } else {
        (s.tokens as int, s.last_refill_ms as int)
    }
}

/// One acquisition attempt at `now`: refill, then take a token if there is one.
pub open spec fn acquired(pre: RateLimiter, now: u64, post: RateLimiter, granted: bool) -> bool {
    let (t, l) = refilled(pre, now);
    &&& post.max_tokens == pre.max_tokens
    &&& post.refill_interval_ms == pre.refill_interval_ms
    &&& post.last_refill_ms == l
    &&& granted == (t > 0)
    &&& post.tokens == if t > 0 { t - 1 } else { t }
}

impl RateLimiter {
    pub open spec fn wf(&self) -> bool {
        self.refill_interval_ms > 0
    }

    /// A bucket holding a single token, so that one call may go at once
    /// without a burst at start-up.
    pub fn new(max_tokens: u32, refill_interval_ms: u64, now_ms: u64) -> (r: RateLimiter)
        requires
            refill_interval_ms > 0,
        ensures
            r.wf(),
            r.max_tokens == max_tokens,
            r.refill_interval_ms == refill_interval_ms,
            r.tokens == 1,
            r.last_refill_ms == now_ms,
    {
        RateLimiter { max_tokens, refill_interval_ms, tokens: 1, last_refill_ms: now_ms }
    }

    /// Refills from the time elapsed, then takes one token if available.
    /// Returns whether the call may proceed; when not, the caller waits
    /// `retry_delay_ms` and asks again.
    pub fn try_acquire(&mut self, now_ms: u64) -> (granted: bool)
        requires
            old(self).wf(),
        ensures
            final(self).wf(),
            acquired(*old(self), now_ms, *final(self), granted),
    {
        let elapsed: u64 = if now_ms >= self.last_refill_ms { now_ms - self.last_refill_ms } else { 0 };
        let add: u64 = elapsed / self.refill_interval_ms;
        if add > 0 {
            let sum: u128 = self.tokens as u128 + add as u128;
            self.tokens = if sum > self.max_tokens as u128 { self.max_tokens } else { sum as u32 };
            self.last_refill_ms = now_ms;
        }
        if self.tokens > 0 {
            self.tokens = self.tokens - 1;
            true
        } else {
            false
        }
    }

    /// How long to sleep before asking again: half a refill interval.
    pub fn retry_delay_ms(&self) -> (r: u64)
        ensures
            r == self.refill_interval_ms / 2,
    {
        self.refill_interval_ms / 2
    }
}

/// Refill interval for a rate given in requests per minute.
pub fn refill_interval_for_rate(per_minute: u32) -> (r: u64)
    requires
        per_minute > 0,
    ensures
        r == 60_000int / (per_minute as int),
{
    60_000u64 / (per_minute as u64)
}

proof fn lemma_div_zero_below(e: int, d: int)
    requires
        0 <= e < d,
    ensures
        e / d == 0,
{
    assert(e / d == 0) by (nonlinear_arith)
        requires
            0 <= e < d,
    ;
}

proof fn lemma_div_positive_from(e: int, d: int)
    requires
        0 < d <= e,
    ensures
        e / d >= 1,
{
    assert(e / d >= 1) by (nonlinear_arith)
        requires
            0 < d <= e,
    ;
}

/// Pacing: a fresh bucket grants its first call at once, the call right after
/// it waits for a full refill interval, and from an empty bucket every call
/// is granted exactly when an interval has passed since the last refill
/// (for a capacity of at least one).
pub proof fn lemma_pacing(
    fresh: RateLimiter,
    t0: u64,
    after_first: RateLimiter,
    g1: bool,
    t: u64,
    after_second: RateLimiter,
    g2: bool,
)
    requires
        fresh.wf(),
        fresh.tokens == 1,
        fresh.last_refill_ms == t0,
        fresh.max_tokens >= 1,
        acquired(fresh, t0, after_first, g1),
        acquired(after_first, t, after_second, g2),
        t >= t0,
    ensures
        g1,
        after_first.tokens == 0,
        g2 <==> t >= t0 + fresh.refill_interval_ms,
{
    lemma_div_zero_below(0, fresh.refill_interval_ms as int);
    lemma_empty_bucket(after_first, t, after_second, g2);
}

/// From an empty bucket, a call at `now` is granted exactly when a full
/// refill interval has passed since the last refill.
pub proof fn lemma_empty_bucket(s: RateLimiter, now: u64, post: RateLimiter, granted: bool)
    requires
        s.wf(),
        s.tokens == 0,
        s.max_tokens >= 1,
        now >= s.last_refill_ms,
        acquired(s, now, post, granted),
    ensures
        granted <==> now >= s.last_refill_ms + s.refill_interval_ms,
        granted ==> post.last_refill_ms == now && post.tokens + 1 <= s.max_tokens,
        !granted ==> post == s,
{
    let e = now - s.last_refill_ms;
    if e < s.refill_interval_ms {
        lemma_div_zero_below(e, s.refill_interval_ms as int);
    } else {
        lemma_div_positive_from(e, s.refill_interval_ms as int);
    }
}

} // verus!
