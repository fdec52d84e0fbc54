use discord_search::delivery::{advance, chain_start, ChainState, SendResult};
use discord_search::ratelimit::{Granularity, RateDecision, RateLimiter};

#[test]
fn eleventh_call_is_first_denial() {
    let mut lim = RateLimiter::new(Granularity::PerChannel, 600, 10);
    for _ in 0..10 {
        assert_eq!(lim.check(42, 0), RateDecision::Allowed);
    }
    assert_eq!(
        lim.check(42, 0),
        RateDecision::Denied { retry_after: 600, first: true }
    );
    assert_eq!(
        lim.check(42, 0),
        RateDecision::Denied { retry_after: 600, first: false }
    );
}

#[test]
fn window_elapse_resets_counter() {
    let mut lim = RateLimiter::new(Granularity::PerChannel, 600, 10);
    for _ in 0..12 {
        lim.check(7, 0);
    }
    // The window has elapsed: allowed again, and the counter restarts at 1,
    // so ten calls fit before the next denial.
    assert_eq!(lim.check(7, 600), RateDecision::Allowed);
    for _ in 0..9 {
        assert_eq!(lim.check(7, 600), RateDecision::Allowed);
    }
    assert!(matches!(lim.check(7, 600), RateDecision::Denied { first: true, .. }));
}

#[test]
fn retry_after_counts_down() {
    let mut lim = RateLimiter::new(Granularity::PerGuild, 600, 1);
    assert_eq!(lim.check(1, 0), RateDecision::Allowed);
    assert_eq!(
        lim.check(1, 100),
        RateDecision::Denied { retry_after: 500, first: true }
    );
    assert_eq!(
        lim.check(1, 599),
        RateDecision::Denied { retry_after: 1, first: false }
    );
}

#[test]
fn burst_has_no_overshoot() {
    let n = 25;
    let mut lim = RateLimiter::new(Granularity::PerChannel, 600, 10);
    let mut allowed = 0;
    let mut denied = 0;
    for _ in 0..n {
        match lim.check(9, 5) {
            RateDecision::Allowed => allowed += 1,
            RateDecision::Denied { .. } => denied += 1,
        }
    }
    assert_eq!(allowed, 10);
    assert_eq!(denied, n - 10);
}

#[test]
fn scopes_are_independent() {
    let mut lim = RateLimiter::new(Granularity::PerChannel, 600, 1);
    assert_eq!(lim.check(1, 0), RateDecision::Allowed);
    assert_eq!(lim.check(2, 0), RateDecision::Allowed);
    assert!(matches!(lim.check(1, 0), RateDecision::Denied { .. }));
}

#[test]
fn chain_stops_when_notice_succeeds() {
    let s = chain_start("the reply".to_string());
    let s = advance(s, &SendResult::Failed("no permission".to_string()));
    let notice = match &s {
        ChainState::Notice { text } => text.clone(),
        _ => panic!("expected the plain-text notice step"),
    };
    assert!(notice.contains("no permission"));
    // The notice goes through: the chain is done, so no direct message is
    // attempted and nothing reaches the operational log.
    let s = advance(s, &SendResult::Sent);
    assert!(matches!(s, ChainState::Done));
}

#[test]
fn chain_records_all_three_causes() {
    let s = chain_start("the reply".to_string());
    let s = advance(s, &SendResult::Failed("cause one".to_string()));
    let s = advance(s, &SendResult::Failed("cause two".to_string()));
    let s = advance(s, &SendResult::Failed("cause three".to_string()));
    let entry = match &s {
        ChainState::Log { text } => text.clone(),
        _ => panic!("expected the operational-log step"),
    };
    assert!(entry.contains("cause one"));
    assert!(entry.contains("cause two"));
    assert!(entry.contains("cause three"));
    // The record attempt ends the chain whatever it reports.
    let s2 = advance(s, &SendResult::Failed("disk full".to_string()));
    assert!(matches!(s2, ChainState::Done));
}

#[test]
fn primary_success_is_quiet() {
    let s = chain_start("all fine".to_string());
    let s = advance(s, &SendResult::Sent);
    assert!(matches!(s, ChainState::Done));
}
