//! A token bucket for inbound client frames.
//!
//! The gateway admits at most `capacity` frames per window; the bucket
//! starts full and regains one token every `per_token_ms` milliseconds.
//! The clock value is an argument, so the decision is verified for every
//! reading the I/O shell may pass in; a clock that jumps backwards simply
//! refills nothing.

use vstd::prelude::*;

verus! {

/// Frames admitted per window on one connection.
pub const RATE_LIMIT_FRAMES: u32 = 1000;

/// The window, in milliseconds.
pub const RATE_LIMIT_WINDOW_MS: u64 = 60000;

#[derive(Clone, Copy, PartialEq, Eq, Structural, Debug)]
pub struct RateLimiter {
    pub capacity: u32,
    pub per_token_ms: u64,
    pub tokens: u32,
    pub last_refill_ms: u64,
}

/// The state after crediting the tokens earned by `now_ms`.
pub open spec fn refilled(st: RateLimiter, now_ms: u64) -> RateLimiter {
    if now_ms > st.last_refill_ms && st.per_token_ms > 0 {
        let gained = (now_ms - st.last_refill_ms) as int / st.per_token_ms as int;
        if gained >= st.capacity - st.tokens {
            RateLimiter {
                capacity: st.capacity,
                per_token_ms: st.per_token_ms,
                tokens: st.capacity,
                last_refill_ms: now_ms,
            }
        } else {
            RateLimiter {
                capacity: st.capacity,
                per_token_ms: st.per_token_ms,
                tokens: (st.tokens + gained) as u32,
                last_refill_ms: (st.last_refill_ms + gained * st.per_token_ms) as u64,
            }
        }
    } else {
        st
    }
}

impl RateLimiter {
    pub open spec fn wf(self) -> bool {
        &&& self.capacity > 0
        &&& self.per_token_ms > 0
        &&& self.tokens <= self.capacity
    }

    /// A full bucket.
    pub fn new(capacity: u32, per_token_ms: u64, now_ms: u64) -> (r: RateLimiter)
        requires
            capacity > 0,
            per_token_ms > 0,
        ensures
            r == (RateLimiter { capacity, per_token_ms, tokens: capacity, last_refill_ms: now_ms }),
            r.wf(),
    {
        RateLimiter { capacity, per_token_ms, tokens: capacity, last_refill_ms: now_ms }
    }

    /// The gateway's limit: `RATE_LIMIT_FRAMES` per `RATE_LIMIT_WINDOW_MS`.
    pub fn for_gateway(now_ms: u64) -> (r: RateLimiter)
        ensures
            r.wf(),
            r.capacity == RATE_LIMIT_FRAMES,
            r.per_token_ms == RATE_LIMIT_WINDOW_MS as int / RATE_LIMIT_FRAMES as int,
            r.tokens == RATE_LIMIT_FRAMES,
            r.last_refill_ms == now_ms,
    {
        RateLimiter::new(RATE_LIMIT_FRAMES, RATE_LIMIT_WINDOW_MS / RATE_LIMIT_FRAMES as u64, now_ms)
    }

    /// Admit one frame at time `now_ms`: refill earned tokens, then spend
    /// one if any is available.  Returns whether the frame is admitted.
    pub fn check(&mut self, now_ms: u64) -> (admitted: bool)
        requires
            old(self).wf(),
        ensures
            final (self).wf(),
            admitted == (refilled(*old(self), now_ms).tokens > 0),
            final (self).capacity == old(self).capacity,
            final (self).per_token_ms == old(self).per_token_ms,
            final (self).last_refill_ms == refilled(*old(self), now_ms).last_refill_ms,
            final (self).tokens == if refilled(*old(self), now_ms).tokens > 0 {
                refilled(*old(self), now_ms).tokens - 1
            } else {
                0int
            },
    {
        if now_ms > self.last_refill_ms {
            let elapsed: u64 = now_ms - self.last_refill_ms;
            let gained: u64 = elapsed / self.per_token_ms;
            let missing: u32 = self.capacity - self.tokens;
            if gained >= missing as u64 {
                self.tokens = self.capacity;
                self.last_refill_ms = now_ms;
            } else {
                proof {
                    assert(gained * self.per_token_ms <= elapsed) by (nonlinear_arith)
                        requires
                            gained == elapsed as int / self.per_token_ms as int,
                            self.per_token_ms > 0,
                            elapsed >= 0,
                    ;
                }
                self.tokens = self.tokens + gained as u32;
                self.last_refill_ms = self.last_refill_ms + gained * self.per_token_ms;
            }
        }
        if self.tokens > 0 {
            self.tokens = self.tokens - 1;
            true
        } else {
            false
        }
    }
}

} // verus!
