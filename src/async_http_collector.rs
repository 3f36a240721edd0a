//! The polling stage's configuration and the decisions of its loop.

use vstd::prelude::*;

use crate::channel::try_send;
use crate::price_info::PriceInfo;
use crate::rate_limit::{
    adjusted,
    RateLimit,
};

verus! {

/// Milliseconds between requests unless configured otherwise.
pub const DEFAULT_REQUEST_PERIOD: u64 = 1000;

/// Where the polling stage asks, how often, and where it sends samples.
pub struct AsyncHTTPCollector {
    pub tx: tokio::sync::mpsc::Sender<PriceInfo>,
    pub url: String,
    pub request_period: u64,
}

/// `a + b`, or `u64::MAX` when that does not fit.
pub open spec fn saturated_sum(a: u64, b: u64) -> u64 {
    if a + b <= u64::MAX {
        (a + b) as u64
    } else {
        u64::MAX
    }
}

/// How long to wait before the request planned for `next`, at `now`; none
/// when it is already due.
pub open spec fn wait_before(next: u64, now: u64) -> Option<u64> {
    if next > now {
        Some((next - now) as u64)
    } else {
        None
    }
}

/// The milliseconds to sleep before the request planned for `next`, at `now`;
/// none when the loop is late and goes on at once.
pub fn sleep_millis(next: u64, now: u64) -> (r: Option<u64>)
    ensures
        r == wait_before(next, now),
{
    if next > now {
        Some(next - now)
    } else {
        None
    }
}

impl AsyncHTTPCollector {
    pub fn new(url: &str, tx: tokio::sync::mpsc::Sender<PriceInfo>) -> (r: Self)
        ensures
            r.url@ == url@,
            r.tx == tx,
            r.request_period == DEFAULT_REQUEST_PERIOD,
    {
        AsyncHTTPCollector { tx, url: url.to_owned(), request_period: DEFAULT_REQUEST_PERIOD }
    }

    /// Sets the milliseconds between requests. Some 500 or more spare the
    /// endpoint.
    pub fn request_period_millis_set(&mut self, request_period: u64)
        ensures
            final(self).request_period == request_period,
            final(self).url == old(self).url,
            final(self).tx == old(self).tx,
    {
        self.request_period = request_period;
    }

    /// When the request after the one issued at `start` may go: one period
    /// later, moved as the rate limit requires.
    pub fn next_request_at(&self, rate_limit: &RateLimit, start: u64) -> (r: u64)
        ensures
            r == adjusted(*rate_limit, saturated_sum(start, self.request_period)),
    {
        let mut next = start.saturating_add(self.request_period);
        rate_limit.ts_next_req_adjust(&mut next);
        next
    }

    /// Queues a sample without waiting; false when it was dropped because the
    /// queue was full or closed.
    pub fn deliver(&self, info: PriceInfo) -> bool {
        try_send(&self.tx, info)
    }
}

} // verus!
