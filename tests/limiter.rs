use std::cell::Cell;
use std::time::Duration;

use actix_limitation::{
    track_window, verdict_of, DataSource, Error, Limiter, MemoryStore, Status, Verdict, Window,
    DEFAULT_PERIOD_SECS, DEFAULT_REQUEST_LIMIT,
};

/// A store that answers every call with a fixed result and counts the calls.
struct FixedStore {
    answer: Result<(usize, u64), String>,
    calls: Cell<usize>,
}

impl FixedStore {
    fn new(answer: Result<(usize, u64), String>) -> Self {
        FixedStore { answer, calls: Cell::new(0) }
    }
}

impl DataSource for FixedStore {
    fn track(&self, _key: &str, _expires: u64) -> Result<(usize, u64), String> {
        self.calls.set(self.calls.get() + 1);
        self.answer.clone()
    }
}

fn limiter_of<T>(client: T, limit: usize, period: u64) -> Limiter<T> {
    Limiter::builder(client).limit(limit).period(period).build().unwrap()
}

#[test]
fn test_create_limiter() {
    let mut builder = Limiter::builder("redis://127.0.0.1:6379/1");
    let limiter = builder.build();
    assert!(limiter.is_ok());

    let limiter = limiter.unwrap();
    assert_eq!(limiter.limit, 5000);
    assert_eq!(Duration::from_secs(limiter.period), Duration::from_secs(3600));
}

#[test]
fn builder_defaults_and_overrides() {
    let b = Limiter::builder(());
    assert_eq!(b.limit, DEFAULT_REQUEST_LIMIT);
    assert_eq!(b.period, DEFAULT_PERIOD_SECS);
    assert_eq!(b.cookie_name, "sid");
    let b = b.limit(7).period(30).cookie_name("uid");
    assert_eq!(b.limit, 7);
    assert_eq!(b.period, 30);
    assert_eq!(b.cookie_name, "uid");
}

#[test]
fn second_build_fails() {
    let mut b = Limiter::builder(());
    assert!(b.build().is_ok());
    assert!(matches!(b.build(), Err(Error::Other(_))));
    let limiter = Limiter::builder(()).cookie_name("uid").build().unwrap();
    assert_eq!(limiter.cookie_name, "uid");
}

#[test]
fn scenario_two_allowed_then_exceeded() {
    let limiter = limiter_of((), 2, 60);
    let mut store = MemoryStore::new();
    let s = limiter.count_in(&mut store, "u1", 1000).unwrap();
    assert_eq!((s.count(), s.remaining()), (1, 1));
    let s = limiter.count_in(&mut store, "u1", 1001).unwrap();
    assert_eq!((s.count(), s.remaining()), (2, 0));
    match limiter.count_in(&mut store, "u1", 1002) {
        Err(Error::LimitExceeded(s)) => assert_eq!(s.count(), 3),
        other => panic!("expected the limit to be exceeded, got {:?}", other),
    }
}

#[test]
fn scenario_window_elapsed() {
    let limiter = limiter_of((), 2, 60);
    let mut store = MemoryStore::new();
    for t in [1000u64, 1001, 1002] {
        let _ = limiter.count_in(&mut store, "u1", t);
    }
    let s = limiter.count_in(&mut store, "u1", 1061).unwrap();
    assert_eq!((s.count(), s.remaining()), (1, 1));
    assert_eq!(s.reset(), 1061 + 60);
}

#[test]
fn scenario_no_identity_is_forwarded_uncounted() {
    let limiter = limiter_of(FixedStore::new(Err("down".to_string())), 2, 60);
    match limiter.decide(None) {
        Verdict::Forward(None) => {}
        other => panic!("expected an uncounted forward, got {:?}", other),
    }
    assert_eq!(limiter.client.calls.get(), 0);
}

#[test]
fn first_calls_count_up_to_the_limit() {
    let limiter = limiter_of((), 3, 10);
    let mut store = MemoryStore::new();
    for n in 1..=3usize {
        let s = limiter.count_in(&mut store, "k", 500 + n as u64).unwrap();
        assert_eq!(s.count(), n);
        assert_eq!(s.remaining(), 3 - n);
        assert_eq!(s.limit(), 3);
    }
    match limiter.count_in(&mut store, "k", 505) {
        Err(Error::LimitExceeded(s)) => {
            assert_eq!(s.count(), 4);
            assert_eq!(s.remaining(), 0);
        }
        other => panic!("expected the limit to be exceeded, got {:?}", other),
    }
}

#[test]
fn keys_are_counted_apart() {
    let limiter = limiter_of((), 1, 10);
    let mut store = MemoryStore::new();
    assert!(limiter.count_in(&mut store, "a", 0).is_ok());
    assert!(limiter.count_in(&mut store, "b", 0).is_ok());
    assert!(limiter.count_in(&mut store, "a", 1).is_err());
}

#[test]
fn racing_first_calls_open_one_window() {
    let first = track_window(None, 60, 100).unwrap();
    assert_eq!(first.0, Window { count: 1, expires_at: 160 });
    let second = track_window(Some(first.0), 60, 100).unwrap();
    assert_eq!(second.0, Window { count: 2, expires_at: 160 });
    assert_eq!(second.1, 60);
}

#[test]
fn track_window_refuses_bad_expiry_and_overflow() {
    assert!(matches!(track_window(None, 0, 5), Err(Error::Track(_))));
    assert!(matches!(track_window(None, 10, u64::MAX - 3), Err(Error::Track(_))));
    let full = Window { count: usize::MAX, expires_at: 50 };
    assert!(matches!(track_window(Some(full), 10, 5), Err(Error::Track(_))));
    let expired = Window { count: usize::MAX, expires_at: 50 };
    assert_eq!(track_window(Some(expired), 10, 50).unwrap(), (Window { count: 1, expires_at: 60 }, 10));
}

#[test]
fn store_failure_leaves_store_unchanged() {
    let limiter = limiter_of((), 5, 0);
    let mut store = MemoryStore::new();
    assert!(matches!(limiter.count_in(&mut store, "k", 1), Err(Error::Track(_))));
    let limiter = limiter_of((), 5, 10);
    assert_eq!(limiter.count_in(&mut store, "k", 1).unwrap().count(), 1);
}

#[test]
fn remaining_never_negative() {
    assert_eq!(Status::new(10, 5, 0).remaining(), 0);
    assert_eq!(Status::new(5, 5, 0).remaining(), 0);
    assert_eq!(Status::new(2, 5, 0).remaining(), 3);
    assert_eq!(Status::new(0, 0, 0).remaining(), 0);
}

#[test]
fn reset_stays_within_window_and_moves_with_new_window() {
    let limiter = limiter_of((), 100, 60);
    let mut store = MemoryStore::new();
    let a = limiter.count_in(&mut store, "k", 1000).unwrap().reset();
    let b = limiter.count_in(&mut store, "k", 1030).unwrap().reset();
    assert_eq!(a, 1060);
    assert!(b <= a);
    let c = limiter.count_in(&mut store, "k", 1060).unwrap().reset();
    assert_eq!(c, 1120);
}

#[test]
fn exceeding_request_is_rejected_without_forwarding() {
    let limiter = limiter_of(FixedStore::new(Ok((3, 99))), 2, 60);
    let v = limiter.decide(Some("u1"));
    assert_eq!(v.reject_code(), Some(429));
    match v {
        Verdict::TooManyRequests(s) => {
            assert_eq!(s.count(), 3);
            assert!(s.reset() > 1_600_000_000 + 99);
        }
        other => panic!("expected a rejection, got {:?}", other),
    }
    assert_eq!(limiter.client.calls.get(), 1);
}

#[test]
fn allowed_request_is_forwarded_with_status() {
    let limiter = limiter_of(FixedStore::new(Ok((2, 99))), 2, 60);
    match limiter.decide(Some("u1")) {
        Verdict::Forward(Some(s)) => assert_eq!((s.count(), s.remaining()), (2, 0)),
        other => panic!("expected a forward, got {:?}", other),
    }
}

#[test]
fn store_error_is_a_server_error() {
    let limiter = limiter_of(FixedStore::new(Err("connection refused".to_string())), 2, 60);
    let r = limiter.count("u1");
    match &r {
        Err(Error::Track(s)) => assert_eq!(s, "connection refused"),
        other => panic!("expected a track error, got {:?}", other),
    }
    let v = verdict_of(r);
    assert_eq!(v.reject_code(), Some(500));
    assert_eq!(limiter.decide(Some("u1")).reject_code(), Some(500));
}

#[test]
fn evaluate_is_strictly_greater_than() {
    let limiter = limiter_of((), 4, 60);
    assert!(limiter.evaluate(4, 7).is_ok());
    assert!(matches!(limiter.evaluate(5, 7), Err(Error::LimitExceeded(_))));
    assert_eq!(verdict_of(limiter.evaluate(1, 7)).reject_code(), None);
}

#[test]
fn reset_at_adds_ttl_to_now() {
    assert_eq!(Status::reset_at(1000, 60).unwrap(), 1060);
    assert!(matches!(Status::reset_at(-1, 60), Err(Error::Other(_))));
    assert!(matches!(Status::reset_at(i64::MAX, 1), Err(_)));
}

#[test]
fn reset_beyond_representable_dates_is_a_time_error() {
    let e = Status::reset_at(1000, 300_000_000_000).unwrap_err();
    assert!(matches!(e, Error::Time(_)));
    assert_eq!(e.message(), "Time conversion failed");
}

#[test]
fn conclude_turns_ttl_into_reset() {
    let limiter = limiter_of((), 2, 60);
    let s = limiter.conclude(Ok((1, 60)), 1000).unwrap();
    assert_eq!((s.count(), s.remaining(), s.reset()), (1, 1, 1060));
    match limiter.conclude(Ok((3, 5)), 1000) {
        Err(Error::LimitExceeded(s)) => assert_eq!((s.count(), s.reset()), (3, 1005)),
        other => panic!("expected the limit to be exceeded, got {:?}", other),
    }
    assert!(matches!(limiter.conclude(Ok((1, 300_000_000_000)), 1000), Err(Error::Time(_))));
    assert!(matches!(limiter.conclude(Err("x".to_string()), 1000), Err(Error::Track(_))));
}

#[test]
fn count_reports_time_error_for_unrepresentable_reset() {
    let limiter = limiter_of(FixedStore::new(Ok((1, 300_000_000_000))), 2, 60);
    assert!(matches!(limiter.count("u1"), Err(Error::Time(_))));
    assert_eq!(limiter.decide(Some("u1")).reject_code(), Some(500));
}

#[test]
fn settle_uses_the_clock() {
    let limiter = limiter_of((), 2, 60);
    let s = limiter.settle(Ok((2, 30))).unwrap();
    assert_eq!((s.count(), s.remaining()), (2, 0));
    assert!(s.reset() > 1_600_000_000 + 30);
}

#[test]
fn error_messages() {
    assert_eq!(Error::Track(String::new()).message(), "Failed to Track connection");
    assert_eq!(Error::LimitExceeded(Status::new(1, 0, 0)).message(), "Limit is exceeded for a key");
    assert_eq!(Error::Other(String::new()).message(), "Generic error");
}
