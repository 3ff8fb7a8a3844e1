use std::sync::atomic::AtomicUsize;
use std::sync::atomic::Ordering;
use std::sync::Arc;

use axtel::http::method::Method;
use axtel::http::request::Path;
use axtel::http::request::Request;
use axtel::router::method_router::delete;
use axtel::router::method_router::get;
use axtel::router::method_router::post;
use axtel::router::method_router::put;
use axtel::router::InnerRouter;
use axtel::router::Router;

#[test]
fn get_root_returns_hello() {
    let router = Router::new().route("/", get(|| "hello"));
    let response = router.dispatch(Request::new(Method::Get, "/", ""));
    assert_eq!(response.status.as_u16(), 200);
    assert_eq!(response.body, "hello");
}

#[test]
fn unregistered_path_is_not_found() {
    let router = Router::new().route("/", get(|| "hello"));
    let response = router.dispatch(Request::new(Method::Get, "/missing", ""));
    assert_eq!(response.status.as_u16(), 404);
    assert_eq!(response.body, "");
    assert!(response.headers.is_empty());
}

#[test]
fn unregistered_key_is_not_found_for_every_method() {
    let router = Router::new().route("/", get(|| "hello")).route("/only-post", post(|| "posted"));
    let methods = vec![
        Method::Get,
        Method::Head,
        Method::Post,
        Method::Put,
        Method::Delete,
        Method::Connect,
        Method::Options,
        Method::Trace,
        Method::Patch,
        Method::Extension("PURGE".to_string()),
    ];
    for method in methods {
        let response = router.dispatch(Request::new(method.clone(), "/missing", "body"));
        assert_eq!(response.status.as_u16(), 404);
        assert_eq!(response.body, "");
        assert!(response.headers.is_empty());
        if method != Method::Get {
            let response = router.dispatch(Request::new(method.clone(), "/", ""));
            assert_eq!(response.status.as_u16(), 404);
            assert_eq!(response.body, "");
        }
        if method != Method::Post {
            let response = router.dispatch(Request::new(method, "/only-post", ""));
            assert_eq!(response.status.as_u16(), 404);
        }
    }
}

#[test]
fn empty_router_answers_not_found() {
    let router = Router::new();
    let response = router.dispatch(Request::new(Method::Get, "/", ""));
    assert_eq!(response.status.as_u16(), 404);
    assert_eq!(response.body, "");
    let router = Router::default();
    let response = router.dispatch(Request::new(Method::Get, "/", ""));
    assert_eq!(response.status.as_u16(), 404);
}

#[test]
fn registered_handler_runs_once_and_no_other() {
    let first = Arc::new(AtomicUsize::new(0));
    let second = Arc::new(AtomicUsize::new(0));
    let third = Arc::new(AtomicUsize::new(0));
    let (a, b, c) = (first.clone(), second.clone(), third.clone());
    let router = Router::new()
        .route("/a", get(move || {
            a.fetch_add(1, Ordering::SeqCst);
            "a"
        }))
        .route("/a", post(move || {
            b.fetch_add(1, Ordering::SeqCst);
            "b"
        }))
        .route("/b", get(move || {
            c.fetch_add(1, Ordering::SeqCst);
            "c"
        }));
    let response = router.dispatch(Request::new(Method::Post, "/a", ""));
    assert_eq!(response.status.as_u16(), 200);
    assert_eq!(response.body, "b");
    assert_eq!(first.load(Ordering::SeqCst), 0);
    assert_eq!(second.load(Ordering::SeqCst), 1);
    assert_eq!(third.load(Ordering::SeqCst), 0);
    let response = router.dispatch(Request::new(Method::Get, "/a", ""));
    assert_eq!(response.body, "a");
    assert_eq!(first.load(Ordering::SeqCst), 1);
    assert_eq!(second.load(Ordering::SeqCst), 1);
    assert_eq!(third.load(Ordering::SeqCst), 0);
    let response = router.dispatch(Request::new(Method::Get, "/missing", ""));
    assert_eq!(response.status.as_u16(), 404);
    assert_eq!(first.load(Ordering::SeqCst), 1);
    assert_eq!(second.load(Ordering::SeqCst), 1);
    assert_eq!(third.load(Ordering::SeqCst), 0);
}

#[test]
fn later_registration_replaces_earlier() {
    let earlier = Arc::new(AtomicUsize::new(0));
    let counter = earlier.clone();
    let router = Router::new()
        .route("/", get(move || {
            counter.fetch_add(1, Ordering::SeqCst);
            "first"
        }))
        .route("/other", get(|| "other"))
        .route("/", get(|| "second"));
    for _ in 0..3 {
        let response = router.dispatch(Request::new(Method::Get, "/", ""));
        assert_eq!(response.status.as_u16(), 200);
        assert_eq!(response.body, "second");
    }
    assert_eq!(earlier.load(Ordering::SeqCst), 0);
    let response = router.dispatch(Request::new(Method::Get, "/other", ""));
    assert_eq!(response.body, "other");
    assert_eq!(router.routes().len(), 2);
}

#[test]
fn paths_are_matched_exactly() {
    let router = Router::new().route("/users", get(|| "users"));
    for path in ["/users/", "/user", "/users/1", "users", "/Users", ""] {
        let response = router.dispatch(Request::new(Method::Get, path, ""));
        assert_eq!(response.status.as_u16(), 404);
    }
    let response = router.dispatch(Request::new(Method::Get, "/users", ""));
    assert_eq!(response.body, "users");
}

#[test]
fn path_extractor_receives_the_path() {
    let router = Router::new().route("/path", get(|Path(path): Path| path));
    let response = router.dispatch(Request::new(Method::Get, "/path", ""));
    assert_eq!(response.status.as_u16(), 200);
    assert_eq!(response.body, "/path");
}

#[test]
fn extension_method_can_be_routed() {
    let handler = get(|| "purged");
    let router = Router::new().route("/cache", (handler.0, Method::Extension("PURGE".to_string())));
    let response =
        router.dispatch(Request::new(Method::Extension("PURGE".to_string()), "/cache", ""));
    assert_eq!(response.status.as_u16(), 200);
    assert_eq!(response.body, "purged");
    let response = router.dispatch(Request::new(Method::Get, "/cache", ""));
    assert_eq!(response.status.as_u16(), 404);
}

#[test]
fn method_constructors_name_their_methods() {
    assert!(get(|| "x").1 == Method::Get);
    assert!(post(|| "x").1 == Method::Post);
    assert!(put(|| "x").1 == Method::Put);
    assert!(delete(|| "x").1 == Method::Delete);
    assert!(axtel::router::method_router::head(|| "x").1 == Method::Head);
    assert!(axtel::router::method_router::connect(|| "x").1 == Method::Connect);
    assert!(axtel::router::method_router::options(|| "x").1 == Method::Options);
    assert!(axtel::router::method_router::trace(|| "x").1 == Method::Trace);
    assert!(axtel::router::method_router::patch(|| "x").1 == Method::Patch);
}

#[test]
fn routes_lists_each_key_once() {
    let router = Router::new()
        .route("/", get(|| "a"))
        .route("/", post(|| "b"))
        .route("/x", get(|| "c"))
        .route("/", get(|| "d"));
    let keys = router.routes();
    assert_eq!(keys.len(), 3);
    assert!(keys[0].0 == Method::Get && keys[0].1 == "/");
    assert!(keys[1].0 == Method::Post && keys[1].1 == "/");
    assert!(keys[2].0 == Method::Get && keys[2].1 == "/x");
    assert!(Router::new().routes().is_empty());
}

#[test]
fn inner_router_routes_and_answers() {
    let mut table = InnerRouter::new();
    assert!(table.routes().is_empty());
    table.route("/", get(|| "one"));
    table.route("/", get(|| "two"));
    table.route("/put", put(|| "put"));
    let response = table.handle_request(Request::new(Method::Get, "/", ""));
    assert_eq!(response.status.as_u16(), 200);
    assert_eq!(response.body, "two");
    let response = table.handle_request(Request::new(Method::Put, "/put", ""));
    assert_eq!(response.body, "put");
    let response = table.handle_request(Request::new(Method::Delete, "/put", ""));
    assert_eq!(response.status.as_u16(), 404);
    assert_eq!(table.routes().len(), 2);
}

#[test]
fn service_returns_the_router() {
    let router = Router::new().route("/", get(|| "hello")).service();
    let response = router.dispatch(Request::new(Method::Get, "/", ""));
    assert_eq!(response.body, "hello");
}

#[test]
fn listing_has_a_line_for_each_key_in_order() {
    let router = Router::new()
        .route("/", get(|| "a"))
        .route("/user", post(|| "b"))
        .route("/", get(|| "c"))
        .route("/date", get(|| "d"));
    assert_eq!(
        router.listing(),
        "method: GET,path: /\nmethod: POST,path: /user\nmethod: GET,path: /date\n"
    );
    assert_eq!(Router::new().listing(), "");
    let mut table = InnerRouter::new();
    table.route("/x", put(|| "x"));
    assert_eq!(table.listing(), "method: PUT,path: /x\n");
}

