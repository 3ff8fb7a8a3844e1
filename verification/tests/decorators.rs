use std::sync::atomic::AtomicU64;
use std::sync::atomic::Ordering;
use std::sync::Arc;

use axtel::clock::clamp_millis;
use axtel::clock::Clock;
use axtel::clock::SystemClock;
use axtel::http::method::Method;
use axtel::http::request::Request;
use axtel::http::response::Response;
use axtel::http::status::StatusCode;
use axtel::limit::RateLimitLayer;
use axtel::limit::RateLimiter;
use axtel::log::LogLayer;
use axtel::middleware::Identity;
use axtel::middleware::Layer;
use axtel::middleware::Middleware;
use axtel::middleware::Service;
use axtel::middleware::Stack;
use axtel::router::method_router::get;
use axtel::router::Router;
use axtel::timeout::settle;
use axtel::timeout::time_between;
use axtel::timeout::TimeoutLayer;

/// A clock that the test sets.
#[derive(Clone)]
struct FakeClock(Arc<AtomicU64>);

impl FakeClock {
    fn new() -> FakeClock {
        FakeClock(Arc::new(AtomicU64::new(0)))
    }

    fn set(&self, millis: u64) {
        self.0.store(millis, Ordering::SeqCst);
    }

    fn advance(&self, millis: u64) {
        self.0.fetch_add(millis, Ordering::SeqCst);
    }
}

impl Clock for FakeClock {
    fn millis(&self) -> u64 {
        self.0.load(Ordering::SeqCst)
    }
}

fn get_root() -> Request {
    Request::new(Method::Get, "/", "")
}

#[test]
fn limiter_admits_the_budget_and_refuses_the_next() {
    let mut limiter = RateLimiter::new(100, 1000);
    for i in 0..100u64 {
        assert!(limiter.acquire(i * 9));
    }
    assert!(!limiter.acquire(999));
    assert!(!limiter.acquire(999));
}

#[test]
fn limiter_window_slides() {
    let mut limiter = RateLimiter::new(2, 1000);
    assert!(limiter.acquire(0));
    assert!(limiter.acquire(600));
    assert!(!limiter.acquire(999));
    assert!(limiter.acquire(1000));
    assert!(!limiter.acquire(1599));
    assert!(limiter.acquire(1600));
    assert!(!limiter.acquire(1999));
    assert!(limiter.acquire(2000));
}

#[test]
fn limiter_never_admits_more_than_budget_in_a_window() {
    let mut limiter = RateLimiter::new(3, 100);
    let mut admitted: Vec<u64> = Vec::new();
    let mut now = 0u64;
    for step in 0..2000u64 {
        now += (step * 7 + 3) % 23;
        if limiter.acquire(now) {
            admitted.push(now);
        }
    }
    assert!(admitted.len() > 3);
    for i in 0..admitted.len() - 3 {
        assert!(admitted[i + 3] - admitted[i] >= 100);
    }
}

#[test]
fn limiter_with_no_budget_refuses_everything() {
    let mut limiter = RateLimiter::new(0, 1000);
    assert!(!limiter.acquire(0));
    assert!(!limiter.acquire(5000));
    assert!(!limiter.acquire(u64::MAX));
}

#[test]
fn limiter_with_no_window_admits_everything() {
    let mut limiter = RateLimiter::new(1, 0);
    for _ in 0..10 {
        assert!(limiter.acquire(7));
    }
}

#[test]
fn limiter_holds_the_time_when_the_clock_goes_back() {
    let mut limiter = RateLimiter::new(1, 1000);
    assert!(limiter.acquire(5000));
    assert!(!limiter.acquire(0));
    assert!(!limiter.acquire(5999));
    assert!(limiter.acquire(6000));
    assert!(limiter.acquire(u64::MAX - 1));
    assert!(!limiter.acquire(6999));
    assert!(!limiter.acquire(u64::MAX));
}

#[test]
fn stack_refuses_the_request_after_the_budget_within_a_second() {
    let clock = FakeClock::new();
    let mut service = Router::new()
        .route("/", get(|| "hello"))
        .layer(TimeoutLayer::new(1000, clock.clone()))
        .layer(RateLimitLayer::new(100, 1000, clock.clone()))
        .service();
    clock.set(10_000);
    for i in 0..100 {
        clock.set(10_000 + i * 9);
        let response = service.call(get_root());
        assert_eq!(response.status.as_u16(), 200);
        assert_eq!(response.body, "hello");
    }
    clock.set(10_999);
    let response = service.call(get_root());
    assert_eq!(response.status.as_u16(), 429);
    assert_eq!(response.body, "");
    assert!(response.headers.is_empty());
    clock.set(11_000);
    let response = service.call(get_root());
    assert_eq!(response.status.as_u16(), 200);
    clock.set(11_001);
    let response = service.call(get_root());
    assert_eq!(response.status.as_u16(), 429);
}

#[test]
fn refused_request_does_not_reach_the_handler() {
    let clock = FakeClock::new();
    let calls = Arc::new(AtomicU64::new(0));
    let counter = calls.clone();
    let mut service = Router::new()
        .route("/", get(move || {
            counter.fetch_add(1, Ordering::SeqCst);
        }))
        .layer(RateLimitLayer::new(1, 50, clock.clone()))
        .service();
    assert_eq!(service.call(get_root()).status.as_u16(), 200);
    assert_eq!(service.call(get_root()).status.as_u16(), 429);
    assert_eq!(calls.load(Ordering::SeqCst), 1);
}

#[test]
fn settle_keeps_answers_within_the_bound() {
    let answer = || Response::new(StatusCode::ok(), "done".to_string());
    let kept = settle(1000, 0, answer());
    assert_eq!((kept.status.as_u16(), kept.body.as_str()), (200, "done"));
    let kept = settle(1000, 1000, answer());
    assert_eq!((kept.status.as_u16(), kept.body.as_str()), (200, "done"));
    let late = settle(1000, 1001, answer());
    assert_eq!((late.status.as_u16(), late.body.as_str()), (408, ""));
    assert!(late.headers.is_empty());
    let late = settle(0, 1, answer());
    assert_eq!(late.status.as_u16(), 408);
    let kept = settle(u64::MAX, u64::MAX, answer());
    assert_eq!(kept.status.as_u16(), 200);
}

#[test]
fn time_between_is_never_negative() {
    assert_eq!(time_between(5, 12), 7);
    assert_eq!(time_between(5, 5), 0);
    assert_eq!(time_between(12, 5), 0);
    assert_eq!(time_between(0, u64::MAX), u64::MAX);
}

#[test]
fn slow_handler_behind_a_timeout_times_out_and_the_service_stays_usable() {
    let clock = FakeClock::new();
    let sleeper = clock.clone();
    let mut service = Router::new()
        .route("/loop", get(move || {
            sleeper.advance(10_000);
        }))
        .route("/", get(|| "hello"))
        .layer(TimeoutLayer::new(1000, clock.clone()))
        .service();
    let response = service.call(Request::new(Method::Get, "/loop", ""));
    assert_eq!(response.status.as_u16(), 408);
    assert_eq!(response.body, "");
    let response = service.call(get_root());
    assert_eq!(response.status.as_u16(), 200);
    assert_eq!(response.body, "hello");
    let response = service.call(Request::new(Method::Get, "/missing", ""));
    assert_eq!(response.status.as_u16(), 404);
}

#[test]
fn answer_at_the_bound_is_in_time() {
    let clock = FakeClock::new();
    let sleeper = clock.clone();
    let mut service = Router::new()
        .route("/", get(move || {
            sleeper.advance(1000);
            "just in time"
        }))
        .layer(TimeoutLayer::new(1000, clock.clone()))
        .service();
    let response = service.call(get_root());
    assert_eq!((response.status.as_u16(), response.body.as_str()), (200, "just in time"));
}

#[test]
fn logger_notes_the_request_and_forwards_it() {
    let mut service = Router::new()
        .route("/", get(|| "hello"))
        .layer(LogLayer::new("test log"))
        .service();
    assert_eq!(service.target, "test log");
    let response = service.call(get_root());
    assert_eq!((response.status.as_u16(), response.body.as_str()), (200, "hello"));
    let response = service.call(Request::new(Method::Post, "/nowhere", "x"));
    assert_eq!(response.status.as_u16(), 404);
    let entries = service.drain();
    assert_eq!(entries.len(), 2);
    assert!(entries[0].method == Method::Get);
    assert_eq!(entries[0].path, "/");
    assert!(entries[1].method == Method::Post);
    assert_eq!(entries[1].path, "/nowhere");
    assert!(service.drain().is_empty());
    service.note(&Request::new(Method::Put, "/noted", ""));
    let entries = service.drain();
    assert_eq!(entries.len(), 1);
    assert!(entries[0].method == Method::Put);
    assert_eq!(entries[0].path, "/noted");
}

#[test]
fn first_registered_decorator_is_outermost() {
    let clock = FakeClock::new();
    let mut logged_outside = Router::new()
        .route("/", get(|| "hello"))
        .layer(LogLayer::new("outer"))
        .layer(RateLimitLayer::new(0, 1000, clock.clone()))
        .service();
    assert_eq!(logged_outside.call(get_root()).status.as_u16(), 429);
    assert_eq!(logged_outside.entries.len(), 1);
    let mut logged_inside = Router::new()
        .route("/", get(|| "hello"))
        .layer(RateLimitLayer::new(0, 1000, clock.clone()))
        .layer(LogLayer::new("inner"))
        .service();
    assert_eq!(logged_inside.call(get_root()).status.as_u16(), 429);
    assert!(logged_inside.inner.entries.is_empty());
}

#[test]
fn middleware_from_an_empty_stack() {
    let mut service = Router::new()
        .route("/", get(|| "hello"))
        .middleware()
        .layer(LogLayer::new("a"))
        .route("/late", get(|| "late"))
        .layer(LogLayer::new("b"))
        .service();
    assert_eq!(service.target, "a");
    assert_eq!(service.service.target, "b");
    let response = service.call(Request::new(Method::Get, "/late", ""));
    assert_eq!(response.body, "late");
    assert_eq!(service.entries.len(), 1);
    assert_eq!(service.service.entries.len(), 1);
    let mut bare = Middleware::new(Router::new().route("/", get(|| "hello"))).service();
    assert_eq!(bare.call(get_root()).body, "hello");
}

#[test]
fn identity_and_stack_compose() {
    let router = Identity::new().layer(Router::new().route("/", get(|| "hello")));
    assert_eq!(router.dispatch(get_root()).body, "hello");
    let stack = Stack::new(LogLayer::new("inner"), LogLayer::new("outer"));
    let mut service = stack.layer(Router::new());
    assert_eq!(service.target, "outer");
    assert_eq!(service.service.target, "inner");
    assert_eq!(service.call(get_root()).status.as_u16(), 404);
}

#[test]
fn router_is_a_service() {
    let mut router = Router::new().route("/", get(|| "hello"));
    assert_eq!(router.call(get_root()).body, "hello");
    assert_eq!(router.call(get_root()).body, "hello");
}

#[test]
fn millis_are_cut_to_sixty_four_bits() {
    assert_eq!(clamp_millis(0), 0);
    assert_eq!(clamp_millis(1234), 1234);
    assert_eq!(clamp_millis(u128::from(u64::MAX)), u64::MAX);
    assert_eq!(clamp_millis(u128::from(u64::MAX) + 1), u64::MAX);
    assert_eq!(clamp_millis(u128::MAX), u64::MAX);
}

#[test]
fn system_clock_starts_near_zero() {
    let clock = SystemClock::new();
    let first = clock.millis();
    let second = clock.millis();
    assert!(first < 60_000);
    assert!(second >= first);
}
