//! Pacing of requests by the rate-limit information that an endpoint returns.
//!
//! Instants are milliseconds since the Unix epoch on the local clock, except
//! `reset`, which the endpoint reports (in seconds) on its own clock.

use vstd::prelude::*;
use vstd::string::StringSliceAdditionalSpecFns;

use crate::decimal::{
    parse_u64,
    unsigned_u64,
};

verus! {

/// What one response said of the endpoint's rate-limit window.
///
/// `start` is when the request that got it was issued; `reset` when the
/// window refills.
#[derive(Clone, Copy, Debug, PartialEq, Eq, Structural)]
pub struct RateLimitInfo {
    pub limit: u64,
    pub remaining: u64,
    pub start: u64,
    pub reset: u64,
}

/// The window of the request in flight (`cur`) and of the one before it
/// (`prev`).
#[derive(Clone, Copy, Debug, PartialEq, Eq, Structural)]
pub struct RateLimit {
    pub cur: Option<RateLimitInfo>,
    pub prev: Option<RateLimitInfo>,
}

pub open spec fn min_u64(a: u64, b: u64) -> u64 {
    if a < b {
        a
    } else {
        b
    }
}

pub open spec fn max_u64(a: u64, b: u64) -> u64 {
    if a < b {
        b
    } else {
        a
    }
}

/// A window combined with a newer reading of it: the more restrictive value of
/// each field, and the start of the first.
pub open spec fn merged(old: RateLimitInfo, new: RateLimitInfo) -> RateLimitInfo {
    RateLimitInfo {
        limit: min_u64(old.limit, new.limit),
        remaining: min_u64(old.remaining, new.remaining),
        start: old.start,
        reset: max_u64(old.reset, new.reset),
    }
}

/// A header value read as an unsigned integer; absent when missing or malformed.
pub open spec fn header_u64(h: Option<&str>) -> Option<u64> {
    match h {
        Some(s) => unsigned_u64(s.spec_bytes()),
        None => None,
    }
}

/// The window that three header values describe, for a request issued at
/// `start`; absent when one of them is missing or malformed, or the reset
/// instant does not fit in milliseconds.
pub open spec fn window_of(
    start: u64,
    limit: Option<&str>,
    remaining: Option<&str>,
    reset: Option<&str>,
) -> Option<RateLimitInfo> {
    match (header_u64(limit), header_u64(remaining), header_u64(reset)) {
        (Some(l), Some(r), Some(s)) => if s * 1000 <= u64::MAX {
            Some(RateLimitInfo { limit: l, remaining: r, start, reset: (s * 1000) as u64 })
        } else {
            None
        },
        _ => None,
    }
}

/// The state after a response: its window is merged into `cur`, or becomes
/// `cur` when there is none; nothing changes without a complete window.
pub open spec fn observed(rl: RateLimit, w: Option<RateLimitInfo>) -> RateLimit {
    match w {
        Some(n) => RateLimit {
            cur: Some(
                match rl.cur {
                    Some(c) => merged(c, n),
                    None => n,
                },
            ),
            prev: rl.prev,
        },
        None => rl,
    }
}

/// The spacing between requests that a window's remaining budget allows:
/// what is left of the window, shared among the requests that remain.
pub open spec fn allowed_interval(c: RateLimitInfo) -> int {
    (c.reset - c.start) / (c.remaining as int)
}

/// When the next request may go, given that it was planned for `next`.
pub open spec fn adjusted(rl: RateLimit, next: u64) -> u64 {
    match (rl.prev, rl.cur) {
        (_, None) => next,
        (None, Some(c)) => if next >= c.reset || c.remaining > 0 {
            next
        } else {
            c.reset
        },
        (Some(p), Some(c)) => if next >= c.reset {
            next
        } else if c.remaining < 1 {
            c.reset
        } else if c.start < p.start || c.reset < c.start {
            next
        } else if c.start - p.start > allowed_interval(c) {
            next
        } else {
            (c.start + allowed_interval(c)) as u64
        },
    }
}

impl Default for RateLimit {
    fn default() -> (r: Self)
        ensures
            r.cur is None,
            r.prev is None,
    {
        RateLimit { cur: None, prev: None }
    }
}

impl RateLimit {
    /// Starts pacing a new request: the current window becomes the previous.
    pub fn start(&mut self)
        ensures
            final(self).prev == old(self).cur,
            final(self).cur is None,
    {
        self.prev = self.cur;
        self.cur = None;
    }

    /// Forgets all rate-limit information.
    pub fn reset(&mut self)
        ensures
            final(self).cur is None,
            final(self).prev is None,
    {
        self.cur = None;
        self.prev = None;
    }

    /// Absorbs the `x-ratelimit-limit`, `x-ratelimit-remaining` and
    /// `x-ratelimit-reset` header values of a response to the request issued
    /// at `start`.
    pub fn update_from_response(
        &mut self,
        start: u64,
        limit: Option<&str>,
        remaining: Option<&str>,
        reset: Option<&str>,
    )
        ensures
            *final(self) == observed(*old(self), window_of(start, limit, remaining, reset)),
    {
        let limit = match limit {
            Some(h) => match parse_u64(h) {
                Some(v) => v,
                None => return ,
            },
            None => return ,
        };
        let remaining = match remaining {
            Some(h) => match parse_u64(h) {
                Some(v) => v,
                None => return ,
            },
            None => return ,
        };
        let reset_secs = match reset {
            Some(h) => match parse_u64(h) {
                Some(v) => v,
                None => return ,
            },
            None => return ,
        };
        let reset = match reset_secs.checked_mul(1000) {
            Some(v) => v,
            None => return ,
        };
        let info = RateLimitInfo { limit, remaining, start, reset };
        match self.cur {
            Some(cur) => {
                let mut m = cur;
                if m.reset < info.reset {
                    m.reset = info.reset;
                }
                if m.remaining > info.remaining {
                    m.remaining = info.remaining;
                }
                if m.limit > info.limit {
                    m.limit = info.limit;
                }
                self.cur = Some(m);
            },
            None => {
                self.cur = Some(info);
            },
        }
    }

    /// Moves the planned instant of the next request so that it honours the
    /// endpoint's published quota.
    pub fn ts_next_req_adjust(&self, ts_next_req: &mut u64)
        ensures
            *final(ts_next_req) == adjusted(*self, *old(ts_next_req)),
    {
        let prev = match self.prev {
            Some(p) => p,
            None => return self.ts_next_req_adjust_prev_none(ts_next_req),
        };
        let cur = match self.cur {
            Some(c) => c,
            None => return ,
        };
        if *ts_next_req >= cur.reset {
            return ;
        }
        if cur.remaining < 1 {
            *ts_next_req = cur.reset;
            return ;
        }
        if cur.start < prev.start {
            return ;
        }
        let request_interval = cur.start - prev.start;
        if cur.reset < cur.start {
            return ;
        }
        let win_duration = cur.reset - cur.start;
        let allowed = win_duration / cur.remaining;
        if request_interval > allowed {
            return ;
        }
        proof {
            vstd::arithmetic::div_mod::lemma_div_is_ordered_by_denominator(
                win_duration as int,
                1,
                cur.remaining as int,
            );
        }
        *ts_next_req = cur.start + allowed;
    }

    /// The adjustment for the first request, when no earlier window is known.
    fn ts_next_req_adjust_prev_none(&self, ts_next_req: &mut u64)
        requires
            self.prev is None,
        ensures
            *final(ts_next_req) == adjusted(*self, *old(ts_next_req)),
    {
        let cur = match self.cur {
            Some(c) => c,
            None => return ,
        };
        if *ts_next_req >= cur.reset {
            return ;
        }
        if cur.remaining > 0 {
            return ;
        }
        if cur.reset > *ts_next_req {
            *ts_next_req = cur.reset;
        }
    }
}

/// With no requests left in the window, a request planned no later than the
/// window's reset is moved to exactly the reset.
pub proof fn lemma_exhausted_window_waits_for_reset(rl: RateLimit, next: u64)
    requires
        rl.cur is Some,
        rl.cur->Some_0.remaining == 0,
        next <= rl.cur->Some_0.reset,
    ensures
        adjusted(rl, next) == rl.cur->Some_0.reset,
{
}

/// Merging a reading with fewer requests remaining never shortens the
/// allowed interval between requests.
pub proof fn lemma_allowed_interval_grows(old: RateLimitInfo, new: RateLimitInfo)
    requires
        old.reset >= old.start,
        0 < new.remaining < old.remaining,
    ensures
        allowed_interval(merged(old, new)) >= allowed_interval(old),
{
    let m = merged(old, new);
    let w_old = old.reset - old.start;
    let w_new = m.reset - m.start;
    vstd::arithmetic::div_mod::lemma_div_is_ordered(w_old, w_new, old.remaining as int);
    vstd::arithmetic::div_mod::lemma_div_is_ordered_by_denominator(
        w_new,
        new.remaining as int,
        old.remaining as int,
    );
}

/// Once requests are already spaced no wider than the window's budget allows,
/// the next one is put at least that budget's interval after the current
/// request's start.
pub proof fn lemma_next_request_paced(rl: RateLimit, next: u64)
    requires
        rl.prev is Some,
        rl.cur is Some,
        rl.cur->Some_0.remaining > 0,
        rl.cur->Some_0.start >= rl.prev->Some_0.start,
        rl.cur->Some_0.reset >= rl.cur->Some_0.start,
        rl.cur->Some_0.start - rl.prev->Some_0.start <= allowed_interval(rl.cur->Some_0),
    ensures
        adjusted(rl, next) >= rl.cur->Some_0.start + allowed_interval(rl.cur->Some_0),
{
    let c = rl.cur->Some_0;
    vstd::arithmetic::div_mod::lemma_div_is_ordered_by_denominator(
        c.reset - c.start,
        1,
        c.remaining as int,
    );
}

} // verus!
