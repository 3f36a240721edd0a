use service_demo::rate_limit::{RateLimit, RateLimitInfo};

fn window(limit: u64, remaining: u64, start: u64, reset: u64) -> RateLimitInfo {
    RateLimitInfo { limit, remaining, start, reset }
}

#[test]
fn default_start_and_reset_rotate_windows() {
    let mut rl = RateLimit::default();
    assert_eq!(rl.cur, None);
    assert_eq!(rl.prev, None);
    rl.update_from_response(1000, Some("100"), Some("5"), Some("10"));
    assert_eq!(rl.cur, Some(window(100, 5, 1000, 10000)));
    rl.start();
    assert_eq!(rl.prev, Some(window(100, 5, 1000, 10000)));
    assert_eq!(rl.cur, None);
    rl.reset();
    assert_eq!(rl.prev, None);
    assert_eq!(rl.cur, None);
}

#[test]
fn missing_or_malformed_headers_change_nothing() {
    let mut rl = RateLimit::default();
    rl.update_from_response(1000, None, Some("5"), Some("10"));
    assert_eq!(rl.cur, None);
    rl.update_from_response(1000, Some("100"), Some("five"), Some("10"));
    assert_eq!(rl.cur, None);
    rl.update_from_response(1000, Some("100"), Some("5"), Some("-10"));
    assert_eq!(rl.cur, None);
    rl.update_from_response(1000, Some("100"), Some("5"), Some("18446744073709551615"));
    assert_eq!(rl.cur, None);
}

#[test]
fn repeated_headers_merge_to_the_stricter_values() {
    let mut rl = RateLimit::default();
    rl.update_from_response(1000, Some("100"), Some("5"), Some("10"));
    rl.update_from_response(2000, Some("80"), Some("7"), Some("12"));
    assert_eq!(rl.cur, Some(window(80, 5, 1000, 12000)));
    rl.update_from_response(3000, Some("90"), Some("2"), Some("11"));
    assert_eq!(rl.cur, Some(window(80, 2, 1000, 12000)));
}

#[test]
fn rate_limit_tightening() {
    let now: u64 = 1_700_000_000_000;
    let mut rl = RateLimit::default();
    rl.start();
    rl.update_from_response(now - 1000, Some("100"), Some("6"), Some("1700000010"));
    rl.start();
    rl.update_from_response(now, Some("100"), Some("5"), Some("1700000010"));
    let mut next = now + 800;
    rl.ts_next_req_adjust(&mut next);
    assert_eq!(next, now + 2000);

    rl.update_from_response(now, Some("100"), Some("1"), Some("1700000010"));
    let mut next = now + 800;
    rl.ts_next_req_adjust(&mut next);
    assert_eq!(next, 1_700_000_010_000);
}

#[test]
fn exhausted_window_waits_for_reset() {
    let mut rl = RateLimit { cur: Some(window(10, 0, 1000, 9000)), prev: None };
    let mut next = 2000;
    rl.ts_next_req_adjust(&mut next);
    assert_eq!(next, 9000);

    rl.prev = Some(window(10, 3, 500, 9000));
    let mut next = 2000;
    rl.ts_next_req_adjust(&mut next);
    assert_eq!(next, 9000);
}

#[test]
fn first_request_with_budget_keeps_cadence() {
    let rl = RateLimit { cur: Some(window(10, 4, 1000, 9000)), prev: None };
    let mut next = 2000;
    rl.ts_next_req_adjust(&mut next);
    assert_eq!(next, 2000);
}

#[test]
fn no_window_keeps_cadence() {
    let rl = RateLimit { cur: None, prev: Some(window(10, 4, 1000, 9000)) };
    let mut next = 2000;
    rl.ts_next_req_adjust(&mut next);
    assert_eq!(next, 2000);
    let rl = RateLimit::default();
    rl.ts_next_req_adjust(&mut next);
    assert_eq!(next, 2000);
}

#[test]
fn request_after_reset_is_untouched() {
    let rl = RateLimit { cur: Some(window(10, 0, 1000, 9000)), prev: Some(window(10, 1, 0, 9000)) };
    let mut next = 9500;
    rl.ts_next_req_adjust(&mut next);
    assert_eq!(next, 9500);
}

#[test]
fn clock_skew_keeps_cadence() {
    let rl = RateLimit { cur: Some(window(10, 2, 1000, 9000)), prev: Some(window(10, 3, 1500, 9000)) };
    let mut next = 2000;
    rl.ts_next_req_adjust(&mut next);
    assert_eq!(next, 2000);

    let rl = RateLimit { cur: Some(window(10, 2, 10000, 9000)), prev: Some(window(10, 3, 9500, 9000)) };
    let mut next = 8000;
    rl.ts_next_req_adjust(&mut next);
    assert_eq!(next, 8000);
}

#[test]
fn slow_requests_keep_cadence() {
    // allowed interval (12000 - 4000) / 4 = 2000; requests already 3000 apart
    let rl = RateLimit { cur: Some(window(10, 4, 4000, 12000)), prev: Some(window(10, 5, 1000, 12000)) };
    let mut next = 4800;
    rl.ts_next_req_adjust(&mut next);
    assert_eq!(next, 4800);
}

#[test]
fn allowed_interval_grows_as_remaining_falls() {
    let start: u64 = 10_000;
    let mut rl = RateLimit { cur: None, prev: Some(window(100, 9, 9_000, 30_000)) };
    rl.update_from_response(start, Some("100"), Some("8"), Some("30"));
    let mut a = start;
    rl.ts_next_req_adjust(&mut a);
    assert_eq!(a, start + 2_500);
    rl.update_from_response(start, Some("100"), Some("4"), Some("30"));
    let mut b = start;
    rl.ts_next_req_adjust(&mut b);
    assert_eq!(b, start + 5_000);
    rl.update_from_response(start, Some("100"), Some("2"), Some("30"));
    let mut c = start;
    rl.ts_next_req_adjust(&mut c);
    assert_eq!(c, start + 10_000);
    assert!(a <= b && b <= c);
}
