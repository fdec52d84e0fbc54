//! Per-(bucket, scope-key) rate limiting over a lazily evaluated time window.
//!
//! A bucket admits at most `ceiling` invocations per scope key within a
//! window of `window` time units. The window is evaluated lazily: state for
//! a key is reset on the first call after its window has elapsed. The first
//! denial within a window is marked, so that a delayed side effect can fire
//! at most once per window per scope.

use vstd::prelude::*;
use std::collections::HashMap;

verus! {

broadcast use vstd::std_specs::hash::group_hash_axioms;

/// Which identifier a bucket's counters are partitioned by.
#[derive(Clone, Copy, PartialEq, Eq, Structural, Debug)]
pub enum Granularity {
    PerChannel,
    PerGuild,
}

/// A rate-limit policy: scope granularity, window duration and ceiling.
#[derive(Clone, Copy, PartialEq, Eq, Structural, Debug)]
pub struct Bucket {
    pub granularity: Granularity,
    pub window: u64,
    pub ceiling: u64,
}

impl Bucket {
    /// A usable policy: a non-degenerate window and a ceiling that leaves
    /// room to count one invocation past it.
    pub open spec fn wf(self) -> bool {
        self.window >= 1 && self.ceiling >= 1 && self.ceiling < u64::MAX
    }
}

/// Counters for one (bucket, scope-key) pair: when its current window began
/// and how many calls it has seen in that window.
#[derive(Clone, Copy, PartialEq, Eq, Structural, Debug)]
pub struct BucketState {
    pub start: u64,
    pub count: u64,
}

/// The outcome of one rate-limit check.
#[derive(Clone, Copy, PartialEq, Eq, Structural, Debug)]
pub enum RateDecision {
    Allowed,
    Denied { retry_after: u64, first: bool },
}

/// Time elapsed since `start`, floored at zero if the clock ran backwards.
pub open spec fn elapsed(start: u64, now: u64) -> int {
    if now >= start {
        now - start
    } else {
        0
    }
}

/// One rate-limit transition: from the stored state for a key (if any) and
/// the current time to the new state and the decision.
pub open spec fn step(b: Bucket, st: Option<BucketState>, now: u64) -> (BucketState, RateDecision) {
    match st {
        None => (BucketState { start: now, count: 1 }, RateDecision::Allowed),
        Some(s) => {
            if elapsed(s.start, now) >= b.window {
                (BucketState { start: now, count: 1 }, RateDecision::Allowed)
            } else {
                let c: u64 = if s.count < u64::MAX {
                    (s.count + 1) as u64
                } else {
                    s.count
                };
                let s2 = BucketState { start: s.start, count: c };
                if c <= b.ceiling {
                    (s2, RateDecision::Allowed)
                } else {
                    (
                        s2,
                        RateDecision::Denied {
                            retry_after: (b.window - elapsed(s.start, now)) as u64,
                            first: c == b.ceiling + 1,
                        },
                    )
                }
            }
        },
    }
}

/// The stored state for `key`, if any.
pub open spec fn state_of(m: Map<u64, BucketState>, key: u64) -> Option<BucketState> {
    if m.contains_key(key) {
        Some(m[key])
    } else {
        None
    }
}

/// Tracks invocation counts for one bucket policy, partitioned by scope key.
pub struct RateLimiter {
    pub bucket: Bucket,
    pub states: HashMap<u64, BucketState>,
}

impl RateLimiter {
    /// The policy this limiter enforces.
    pub open spec fn policy(self) -> Bucket {
        self.bucket
    }

    /// The per-scope-key counters as a map.
    pub open spec fn view(self) -> Map<u64, BucketState> {
        self.states@
    }

    /// An empty limiter for the given policy.
    pub fn new(granularity: Granularity, window: u64, ceiling: u64) -> (r: RateLimiter)
        ensures
            r.policy() == (Bucket { granularity, window, ceiling }),
            r@ == Map::<u64, BucketState>::empty(),
    {
        RateLimiter { bucket: Bucket { granularity, window, ceiling }, states: HashMap::new() }
    }

    /// The policy, readable at run time.
    pub fn bucket(&self) -> (b: Bucket)
        ensures
            b == self.policy(),
    {
        self.bucket
    }

    /// Checks one invocation for `scope_key` at time `now`: allowed while
    /// the count within the current window stays at or under the ceiling,
    /// denied past it, with the first denial of the window marked.
    pub fn check(&mut self, scope_key: u64, now: u64) -> (d: RateDecision)
        ensures
            ({
                let (s2, d2) = step(old(self).policy(), state_of(old(self)@, scope_key), now);
                &&& d == d2
                &&& final(self)@ == old(self)@.insert(scope_key, s2)
                &&& final(self).policy() == old(self).policy()
            }),
    {
        let prev: Option<BucketState> = match self.states.get(&scope_key) {
            Some(s) => Some(*s),
            None => None,
        };
        let (s2, d) = match prev {
            None => (BucketState { start: now, count: 1 }, RateDecision::Allowed),
            Some(s) => {
                let el: u64 = if now >= s.start {
                    now - s.start
                } else {
                    0
                };
                if el >= self.bucket.window {
                    (BucketState { start: now, count: 1 }, RateDecision::Allowed)
                } else {
                    let c: u64 = if s.count < u64::MAX {
                        s.count + 1
                    } else {
                        s.count
                    };
                    let s2 = BucketState { start: s.start, count: c };
                    if c <= self.bucket.ceiling {
                        (s2, RateDecision::Allowed)
                    } else {
                        (
                            s2,
                            RateDecision::Denied {
                                retry_after: self.bucket.window - el,
                                first: self.bucket.ceiling < u64::MAX && c == self.bucket.ceiling
                                    + 1,
                            },
                        )
                    }
                }
            },
        };
        self.states.insert(scope_key, s2);
        d
    }
}

/// For a fresh key, and again once a key's window has elapsed, a check is
/// allowed and the counter restarts at one, with a new window starting now.
pub proof fn lemma_window_reset(b: Bucket, st: Option<BucketState>, now: u64)
    requires
        match st {
            None => true,
            Some(s) => elapsed(s.start, now) >= b.window,
        },
    ensures
        step(b, st, now) == (BucketState { start: now, count: 1 }, RateDecision::Allowed),
{
}

/// Within one window, the call that first passes the ceiling is denied and
/// marked as the window's first denial; every later call in the same window
/// is denied unmarked, so the delayed side effect fires at most once per
/// window per scope.
pub proof fn lemma_first_denial_marked(b: Bucket, s: BucketState, now: u64)
    requires
        b.wf(),
        elapsed(s.start, now) < b.window,
    ensures
        s.count == b.ceiling ==> step(b, Some(s), now).1 == (RateDecision::Denied {
            retry_after: (b.window - elapsed(s.start, now)) as u64,
            first: true,
        }),
        b.ceiling < s.count < u64::MAX ==> step(b, Some(s), now).1 == (RateDecision::Denied {
            retry_after: (b.window - elapsed(s.start, now)) as u64,
            first: false,
        }),
{
}

/// How many of `n` successive calls, all at time `now`, are allowed when
/// starting from state `st`.
pub open spec fn allowed_of(b: Bucket, st: Option<BucketState>, now: u64, n: nat) -> nat
    decreases n,
{
    if n == 0 {
        0
    } else {
        let (s2, d) = step(b, st, now);
        (if d is Allowed {
            1nat
        } else {
            0nat
        }) + allowed_of(b, Some(s2), now, (n - 1) as nat)
    }
}

proof fn lemma_counting(b: Bucket, now: u64, c: u64, n: nat)
    requires
        b.wf(),
        c >= 1,
    ensures
        allowed_of(b, Some(BucketState { start: now, count: c }), now, n) == if c >= b.ceiling {
            0nat
        } else if n <= b.ceiling - c {
            n
        } else {
            (b.ceiling - c) as nat
        },
    decreases n,
{
    if n > 0 {
        let st = BucketState { start: now, count: c };
        let (s2, d) = step(b, Some(st), now);
        assert(elapsed(now, now) == 0);
        let c2: u64 = if c < u64::MAX {
            (c + 1) as u64
        } else {
            c
        };
        lemma_counting(b, now, c2, (n - 1) as nat);
    }
}

/// No overshoot: for a fresh scope key, any burst of `n` calls within one
/// window yields exactly `min(n, ceiling)` allowed calls; in particular,
/// for `n` above the ceiling, exactly `ceiling` are allowed and the other
/// `n - ceiling` are denied.
pub proof fn lemma_no_overshoot(b: Bucket, now: u64, n: nat)
    requires
        b.wf(),
    ensures
        allowed_of(b, None, now, n) == if n <= b.ceiling {
            n
        } else {
            b.ceiling as nat
        },
        n > b.ceiling ==> n - allowed_of(b, None, now, n) == n - b.ceiling,
{
    if n > 0 {
        let (s1, d1) = step(b, None, now);
        assert(d1 is Allowed);
        lemma_counting(b, now, 1, (n - 1) as nat);
    }
}

} // verus!
