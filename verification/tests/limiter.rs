use actix_governor::limiter::MAX_CLOCK_NANOS;
use actix_governor::{
    Admission, Decision, Decoration, Governor, GovernorConfigBuilder, GovernorResult, Header,
    KeyedLimiter, ManualClock, Method, NotUntil, PeerIp, RequestView, StateSnapshot,
};

const MS: u64 = 1_000_000;

fn positive(burst_size: u32, remaining_burst_capacity: u32) -> Decision {
    Decision::Positive(StateSnapshot { burst_size, remaining_burst_capacity })
}

fn negative(burst_size: u32, wait_nanos: u64) -> Decision {
    Decision::Negative(NotUntil {
        burst_size,
        wait_secs: wait_nanos / 1_000_000_000,
        wait_subsec_nanos: (wait_nanos % 1_000_000_000) as u32,
    })
}

fn limiter(clock: &ManualClock, period: u64, burst_size: u32) -> KeyedLimiter<u64> {
    KeyedLimiter::with_clock(clock, period as u128, burst_size).unwrap()
}

#[test]
fn manual_clock_moves_only_when_advanced() {
    let mut clock = ManualClock::new();
    assert_eq!(clock.now(), 0);
    assert!(clock.advance(5));
    assert!(clock.advance(0));
    assert_eq!(clock.now(), 5);
    assert!(clock.advance(90 * MS));
    assert_eq!(clock.now(), 90 * MS + 5);
}

#[test]
fn manual_clock_stops_at_its_end() {
    let mut clock = ManualClock::new();
    assert!(clock.advance(MAX_CLOCK_NANOS - 1));
    assert!(!clock.advance(2));
    assert_eq!(clock.now(), MAX_CLOCK_NANOS - 1);
    assert!(clock.advance(1));
    assert!(!clock.advance(1));
    assert!(!clock.advance(u64::MAX));
    assert_eq!(clock.now(), MAX_CLOCK_NANOS);
}

#[test]
fn limiter_is_made_for_usable_quotas_only() {
    let clock = ManualClock::new();
    assert!(KeyedLimiter::<u64>::with_clock(&clock, 0, 1).is_none());
    assert!(KeyedLimiter::<u64>::with_clock(&clock, 1, 0).is_none());
    assert!(KeyedLimiter::<u64>::with_clock(&clock, 1, 1).is_some());
    assert!(KeyedLimiter::<u64>::with_clock(&clock, 1 << 62, 1).is_none());
    assert!(KeyedLimiter::<u64>::with_clock(&clock, (1 << 62) - 1, 1).is_some());
    assert!(KeyedLimiter::<u64>::with_clock(&clock, u128::MAX, u32::MAX).is_none());
    assert!(KeyedLimiter::<u64>::new(0, 1).is_none());
    assert!(KeyedLimiter::<u64>::new(1, 0).is_none());
    assert!(KeyedLimiter::<u64>::new(500 * MS as u128, 8).is_some());
}

#[test]
fn first_burst_is_admitted_at_once() {
    let clock = ManualClock::new();
    let limiter = limiter(&clock, 90 * MS, 5);
    for remaining in (0..5).rev() {
        assert_eq!(limiter.check(&7), positive(5, remaining));
    }
    assert_eq!(limiter.check(&7), negative(5, 90 * MS));
}

#[test]
fn first_burst_is_admitted_however_late() {
    let mut clock = ManualClock::new();
    let limiter = limiter(&clock, 90 * MS, 3);
    assert!(clock.advance(1_000_000 * MS));
    assert_eq!(limiter.check(&7), positive(3, 2));
    assert!(clock.advance(10 * MS));
    assert_eq!(limiter.check(&7), positive(3, 1));
    assert_eq!(limiter.check(&7), positive(3, 0));
    assert_eq!(limiter.check(&7), negative(3, 80 * MS));
}

#[test]
fn check_past_the_burst_waits_at_most_one_period() {
    let mut clock = ManualClock::new();
    let limiter = limiter(&clock, 3_000 * MS, 2);
    assert_eq!(limiter.check(&1), positive(2, 1));
    assert!(clock.advance(1));
    assert_eq!(limiter.check(&1), positive(2, 0));
    assert!(clock.advance(499 * MS));
    // the second token was taken from a full bucket one period ago at the latest
    assert_eq!(limiter.check(&1), negative(2, 2_501 * MS - 1));
    assert_eq!(limiter.check(&1), negative(2, 2_501 * MS - 1));
}

#[test]
fn token_is_back_after_the_wait() {
    let mut clock = ManualClock::new();
    let limiter = limiter(&clock, 90 * MS, 2);
    assert_eq!(limiter.check(&1), positive(2, 1));
    assert_eq!(limiter.check(&1), positive(2, 0));
    assert_eq!(limiter.check(&1), negative(2, 90 * MS));
    assert!(clock.advance(90 * MS - 1));
    assert_eq!(limiter.check(&1), negative(2, 1));
    assert!(clock.advance(1));
    assert_eq!(limiter.check(&1), positive(2, 0));
    assert_eq!(limiter.check(&1), negative(2, 90 * MS));
}

#[test]
fn idle_time_does_not_pile_up_tokens() {
    let mut clock = ManualClock::new();
    let limiter = limiter(&clock, 90 * MS, 2);
    assert_eq!(limiter.check(&1), positive(2, 1));
    assert_eq!(limiter.check(&1), positive(2, 0));
    assert!(clock.advance(1_000_000 * MS));
    // a million periods later the bucket is full, and no fuller
    assert!(matches!(limiter.check(&1), Decision::Positive(_)));
    assert!(matches!(limiter.check(&1), Decision::Positive(_)));
    let third = limiter.check(&1);
    let fourth = limiter.check(&1);
    assert!(matches!(third, Decision::Negative(_)) || matches!(fourth, Decision::Negative(_)));
    assert_eq!(fourth, negative(2, 90 * MS));
}

#[test]
fn exhausting_one_key_leaves_the_others_alone() {
    let clock = ManualClock::new();
    let limiter = limiter(&clock, 90 * MS, 2);
    assert_eq!(limiter.check(&1), positive(2, 1));
    assert_eq!(limiter.check(&1), positive(2, 0));
    assert_eq!(limiter.check(&1), negative(2, 90 * MS));
    assert_eq!(limiter.check(&2), positive(2, 1));
    assert_eq!(limiter.check(&1), negative(2, 90 * MS));
    assert_eq!(limiter.check(&2), positive(2, 0));
    assert_eq!(limiter.check(&2), negative(2, 90 * MS));
    assert_eq!(limiter.check(&3), positive(2, 1));
}

#[test]
fn shared_handles_draw_from_the_same_buckets() {
    let clock = ManualClock::new();
    let first = limiter(&clock, 90 * MS, 2);
    let second = first.share();
    assert_eq!(first.check(&1), positive(2, 1));
    assert_eq!(second.check(&1), positive(2, 0));
    assert_eq!(first.check(&1), negative(2, 90 * MS));
    assert_eq!(second.check(&1), negative(2, 90 * MS));
}

#[test]
fn wait_is_split_into_seconds_and_nanoseconds() {
    let mut clock = ManualClock::new();
    let limiter = limiter(&clock, 2_500 * MS, 1);
    assert_eq!(limiter.check(&1), positive(1, 0));
    let expected = NotUntil { burst_size: 1, wait_secs: 2, wait_subsec_nanos: 500_000_000 };
    assert_eq!(limiter.check(&1), Decision::Negative(expected));
    assert_eq!(expected.wait_time_secs(), 2);
    assert!(clock.advance(501 * MS));
    assert_eq!(
        limiter.check(&1),
        Decision::Negative(NotUntil { burst_size: 1, wait_secs: 1, wait_subsec_nanos: 999_000_000 })
    );
}

#[test]
fn scenario_two_in_ninety_milliseconds() {
    let mut clock = ManualClock::new();
    let config = GovernorConfigBuilder::default()
        .milliseconds_per_request(90)
        .burst_size(2)
        .use_headers()
        .finish_with_clock(&clock)
        .unwrap();
    let app = Governor::new(&config).new_transform();
    let request = RequestView {
        method: Method::Get,
        peer_addr: Some(PeerIp::V4(0x7f00_0001)),
        headers: vec![],
    };
    let admitted = |remaining: u32| Admission::Forward {
        result: GovernorResult::Allowed { burst_size: Some(2), remaining: Some(remaining) },
        decoration: Decoration::RateLimit { burst_size: 2, remaining },
    };
    assert_eq!(app.call(&request), admitted(1));
    assert_eq!(app.call(&request), admitted(0));
    match app.call(&request) {
        Admission::Reject { result, headers, response } => {
            assert_eq!(result, GovernorResult::Wait { wait: 0, burst_size: Some(2) });
            assert_eq!(headers[0], Header { name: "x-ratelimit-after".into(), value: "0".into() });
            assert_eq!(response.status_code, 429);
            assert_eq!(response.body, "Too many requests, retry in 0s");
        }
        other => panic!("not rejected: {:?}", other),
    }
    assert!(clock.advance(100 * MS));
    assert_eq!(app.call(&request), admitted(0));
    assert!(matches!(app.call(&request), Admission::Reject { .. }));
}

#[test]
fn rejection_names_the_wait_in_whole_seconds() {
    let mut clock = ManualClock::new();
    let config = GovernorConfigBuilder::default()
        .seconds_per_request(75)
        .burst_size(1)
        .finish_with_clock(&clock)
        .unwrap();
    let app = Governor::new(&config).new_transform();
    let request = RequestView {
        method: Method::Get,
        peer_addr: Some(PeerIp::V6(1)),
        headers: vec![],
    };
    assert!(matches!(app.call(&request), Admission::Forward { .. }));
    assert!(clock.advance(1));
    match app.call(&request) {
        Admission::Reject { result, headers, response } => {
            assert_eq!(result, GovernorResult::Wait { wait: 74, burst_size: None });
            assert_eq!(
                headers,
                vec![Header { name: "x-ratelimit-after".into(), value: "74".into() }]
            );
            assert_eq!(response.body, "Too many requests, retry in 74s");
        }
        other => panic!("not rejected: {:?}", other),
    }
}
