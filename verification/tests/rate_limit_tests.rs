use dulacmycamp_api::rate_limit::{client_ip, RateLimiter, RateLimits};

#[test]
fn allows_up_to_the_limit_then_rejects() {
    let mut rl = RateLimiter::new(2, 60);
    assert!(rl.check("a").is_ok());
    assert!(rl.check("a").is_ok());
    let retry = rl.check("a").expect_err("third attempt should be refused");
    assert!(retry > 0 && retry <= 60, "retry was {retry}");
}

#[test]
fn keys_are_independent() {
    let mut rl = RateLimiter::new(1, 60);
    assert!(rl.check("a").is_ok());
    assert!(rl.check("b").is_ok(), "one key must not limit another");
    assert!(rl.check("a").is_err());
}

const SEC: u128 = 1_000_000_000;

#[test]
fn window_expiry_lets_the_caller_back_in() {
    let mut rl = RateLimiter::with_window_nanos(1, 40_000_000);
    assert!(rl.check_at("a", 0).is_ok());
    assert!(rl.check_at("a", 10_000_000).is_err());
    assert!(rl.check_at("a", 60_000_000).is_ok(), "limit should lapse with the window");
}

#[test]
fn rejected_attempts_do_not_extend_the_lockout() {
    let mut rl = RateLimiter::with_window_nanos(1, 60_000_000);
    assert!(rl.check_at("a", 0).is_ok());
    for i in 0..20u128 {
        assert!(rl.check_at("a", i * 2_000_000).is_err());
    }
    assert!(rl.check_at("a", 60_000_000).is_ok());
}

#[test]
fn retry_counts_down_to_the_oldest_hit_leaving() {
    let mut rl = RateLimiter::with_window_nanos(1, 600 * SEC);
    assert!(rl.check_at("ip", 0).is_ok());
    assert_eq!(rl.check_at("ip", 0), Err(600));
    assert_eq!(rl.check_at("ip", 100 * SEC), Err(500));
    assert_eq!(rl.check_at("ip", 599 * SEC + 1), Err(1));
    assert!(rl.check_at("ip", 600 * SEC).is_ok());
}

#[test]
fn a_zero_attempt_budget_refuses_everything_with_at_least_a_second() {
    let mut rl = RateLimiter::with_window_nanos(0, SEC / 2);
    assert_eq!(rl.check_at("a", 5), Err(1));
}

#[test]
fn many_idle_keys_are_swept_without_touching_live_ones() {
    let mut rl = RateLimiter::with_window_nanos(1, 10 * SEC);
    for i in 0..1100u32 {
        assert!(rl.check_at(&format!("k{i}"), 0).is_ok());
    }
    assert!(rl.check_at("live", 5 * SEC).is_ok());
    assert!(rl.check_at("live", 12 * SEC).is_err());
    for i in 0..3u32 {
        assert!(rl.check_at(&format!("k{i}"), 20 * SEC).is_ok());
    }
    assert!(rl.check_at("k0", 21 * SEC).is_err());
}

#[test]
fn defaults_give_the_documented_budgets() {
    let l = RateLimits::default();
    assert_eq!(l.otp_per_email.max(), 1);
    assert_eq!(l.otp_per_email.window_nanos(), 60 * SEC);
    assert_eq!(l.otp_per_ip.max(), 5);
    assert_eq!(l.otp_per_ip.window_nanos(), 600 * SEC);
    assert_eq!(l.password_per_ip.max(), 5);
    assert_eq!(l.password_per_ip.window_nanos(), 900 * SEC);
    assert_eq!(l.password_per_email.window_nanos(), 900 * SEC);
}

#[test]
fn forwarded_header_wins_over_the_socket_address() {
    assert_eq!(client_ip(Some("203.0.113.7, 70.41.3.18"), Some("10.0.0.1")), "203.0.113.7");
}

#[test]
fn falls_back_to_the_socket_address_then_to_unknown() {
    assert_eq!(client_ip(None, Some("10.0.0.1")), "10.0.0.1");
    assert_eq!(client_ip(None, None), "unknown");
}

#[test]
fn a_blank_forwarded_entry_falls_back() {
    assert_eq!(client_ip(Some("  , 70.41.3.18"), Some("10.0.0.1")), "10.0.0.1");
    assert_eq!(client_ip(Some(" 198.51.100.2 "), None), "198.51.100.2");
}

#[test]
fn a_new_limiter_keeps_the_window_it_was_given() {
    let rl = RateLimiter::new(3, 90);
    assert_eq!(rl.max(), 3);
    assert_eq!(rl.window_nanos(), 90 * SEC);
    let mut none = RateLimiter::new(0, 60);
    assert_eq!(none.check("a"), Err(60));
}
