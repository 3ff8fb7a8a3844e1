use std::sync::atomic::AtomicUsize;
use std::sync::atomic::Ordering;
use std::sync::Arc;
use std::sync::Mutex;

use axtel::http::method::Method;
use axtel::http::request::FromRequest;
use axtel::http::request::FromRequestParts;
use axtel::http::request::Parts;
use axtel::http::request::Path;
use axtel::http::request::Request;
use axtel::http::response::Rejection;
use axtel::http::status::StatusCode;
use axtel::router::handler::Handler;
use axtel::router::handler::IntoHandler;
use axtel::router::method_router::get;
use axtel::router::method_router::post;
use axtel::router::method_router::Route;
use axtel::router::Router;

/// An extractor that notes each extraction and then gives its own number.
struct Numbered<const N: usize>(usize);

static ORDER: Mutex<Vec<usize>> = Mutex::new(Vec::new());

impl<const N: usize> FromRequestParts for Numbered<N> {
    fn from_request_parts(_parts: &Parts) -> Result<Self, Rejection> {
        ORDER.lock().unwrap().push(N);
        Ok(Numbered(N))
    }
}

/// An extractor that always fails.
struct Refused;

impl FromRequestParts for Refused {
    fn from_request_parts(parts: &Parts) -> Result<Self, Rejection> {
        Err(Rejection::new(&format!("refused {}", parts.path)))
    }
}

/// An extractor that counts how often the body is taken.
struct CountedBody(String);

static BODY_READS: AtomicUsize = AtomicUsize::new(0);

impl FromRequest for CountedBody {
    fn from_request(request: Request) -> Result<Self, Rejection> {
        BODY_READS.fetch_add(1, Ordering::SeqCst);
        Ok(CountedBody(request.into_body()))
    }
}

#[test]
fn function_without_parameters_is_a_handler() {
    let handler = (|| "plain").into_handler();
    let response = handler.call(Request::new(Method::Get, "/", "ignored"));
    assert_eq!(response.status.as_u16(), 200);
    assert_eq!(response.body, "plain");
}

#[test]
fn values_arrive_in_declaration_order() {
    let router = Router::new().route(
        "/order",
        post(|method: Method, Path(path): Path, body: String| {
            format!("{} {} {}", method.as_str(), path, body)
        }),
    );
    let response = router.dispatch(Request::new(Method::Post, "/order", "payload"));
    assert_eq!(response.status.as_u16(), 200);
    assert_eq!(response.body, "POST /order payload");
}

#[test]
fn extractions_run_in_declaration_order_and_body_is_read_once() {
    let handler = (|a: Numbered<1>, b: Numbered<2>, c: Numbered<3>, d: Numbered<4>, body: CountedBody| {
        format!("{}{}{}{}:{}", a.0, b.0, c.0, d.0, body.0)
    })
    .into_handler();
    ORDER.lock().unwrap().clear();
    let before = BODY_READS.load(Ordering::SeqCst);
    let response = handler.call(Request::new(Method::Post, "/", "the body"));
    assert_eq!(response.body, "1234:the body");
    assert_eq!(*ORDER.lock().unwrap(), vec![1, 2, 3, 4]);
    assert_eq!(BODY_READS.load(Ordering::SeqCst), before + 1);
}

#[test]
fn fourteen_parameters_are_supported() {
    let handler = (|_: Method,
                    _: Path,
                    _: Method,
                    _: Path,
                    _: Method,
                    _: Path,
                    _: Method,
                    _: Path,
                    _: Method,
                    _: Path,
                    _: Method,
                    _: Path,
                    Path(path): Path,
                    body: String| { format!("{path}|{body}") })
    .into_handler();
    let response = handler.call(Request::new(Method::Put, "/wide", "b"));
    assert_eq!(response.status.as_u16(), 200);
    assert_eq!(response.body, "/wide|b");
}

#[test]
fn last_parameter_may_come_from_the_head() {
    let router = Router::new().route("/m", get(|Path(path): Path, method: Method| {
        format!("{} {}", method.as_str(), path)
    }));
    let response = router.dispatch(Request::new(Method::Get, "/m", "unused"));
    assert_eq!(response.body, "GET /m");
}

#[test]
fn failed_extraction_is_bad_request_and_function_is_not_called() {
    let calls = Arc::new(AtomicUsize::new(0));
    let counter = calls.clone();
    let router = Router::new().route(
        "/guarded",
        get(move |_: Path, _: Refused, _: String| {
            counter.fetch_add(1, Ordering::SeqCst);
            "reached"
        }),
    );
    let response = router.dispatch(Request::new(Method::Get, "/guarded", "body"));
    assert_eq!(response.status.as_u16(), 400);
    assert_eq!(response.body, "refused /guarded");
    assert_eq!(calls.load(Ordering::SeqCst), 0);
}

#[test]
fn first_failure_ends_the_extraction() {
    let handler = (|_: Numbered<7>, _: Refused, _: Numbered<9>, body: CountedBody| body.0)
        .into_handler();
    let response = handler.call(Request::new(Method::Get, "/stop", "x"));
    assert_eq!(response.status.as_u16(), 400);
    assert_eq!(response.body, "refused /stop");
    assert!(!ORDER.lock().unwrap().contains(&9));
}

#[test]
fn failing_last_parameter_is_bad_request() {
    let handler = (|_: Path, _: Refused| "reached").into_handler();
    let response = handler.call(Request::new(Method::Get, "/last", ""));
    assert_eq!(response.status.as_u16(), 400);
    assert_eq!(response.body, "refused /last");
}

#[test]
fn result_of_the_function_becomes_the_response() {
    let router = Router::new()
        .route("/unit", get(|| ()))
        .route("/status", get(|| -> Result<&'static str, StatusCode> {
            Err(StatusCode::from_u16(503).unwrap())
        }))
        .route("/text", get(|| String::from("text")));
    let response = router.dispatch(Request::new(Method::Get, "/unit", ""));
    assert_eq!((response.status.as_u16(), response.body.as_str()), (200, ""));
    let response = router.dispatch(Request::new(Method::Get, "/status", ""));
    assert_eq!((response.status.as_u16(), response.body.as_str()), (503, ""));
    let response = router.dispatch(Request::new(Method::Get, "/text", ""));
    assert_eq!((response.status.as_u16(), response.body.as_str()), (200, "text"));
}

/// A handler that is written by hand.
struct Fixed;

impl Handler for Fixed {
    fn call(&self, request: Request) -> axtel::http::response::Response {
        axtel::http::response::Response::new(StatusCode::im_a_teapot(), request.body)
    }
}

#[test]
fn hand_written_handler_can_be_routed() {
    let router = Router::new().route("/fixed", (Route(Box::new(Fixed)), Method::Get));
    let response = router.dispatch(Request::new(Method::Get, "/fixed", "tea"));
    assert_eq!((response.status.as_u16(), response.body.as_str()), (418, "tea"));
}
