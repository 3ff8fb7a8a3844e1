use axtel::http::method::same_text;
use axtel::http::method::Method;
use axtel::http::method::ParseError;
use axtel::http::request::FromRequest;
use axtel::http::request::FromRequestParts;
use axtel::http::request::Parts;
use axtel::http::request::Path;
use axtel::http::request::Request;
use axtel::http::response::IntoResponse;
use axtel::http::response::Rejection;
use axtel::http::response::Response;
use axtel::http::status::StatusCode;

#[test]
fn status_codes_have_three_digits() {
    assert!(StatusCode::from_u16(0).is_none());
    assert!(StatusCode::from_u16(99).is_none());
    assert_eq!(StatusCode::from_u16(100).map(|s| s.as_u16()), Some(100));
    assert_eq!(StatusCode::from_u16(200).map(|s| s.as_u16()), Some(200));
    assert_eq!(StatusCode::from_u16(999).map(|s| s.as_u16()), Some(999));
    assert!(StatusCode::from_u16(1000).is_none());
    assert!(StatusCode::from_u16(u16::MAX).is_none());
}

#[test]
fn named_status_codes() {
    assert_eq!(StatusCode::ok().as_u16(), 200);
    assert_eq!(StatusCode::bad_request().as_u16(), 400);
    assert_eq!(StatusCode::not_found().as_u16(), 404);
    assert_eq!(StatusCode::request_timeout().as_u16(), 408);
    assert_eq!(StatusCode::im_a_teapot().as_u16(), 418);
    assert_eq!(StatusCode::too_many_requests().as_u16(), 429);
    assert_eq!(StatusCode::internal_server_error().as_u16(), 500);
    assert_eq!(axtel::http::status::OK, 200);
    assert_eq!(axtel::http::status::NOT_FOUND, 404);
    assert!(StatusCode::ok() == StatusCode::from_u16(200).unwrap());
}

#[test]
fn four_method_names_parse() {
    assert!(matches!(Method::parse("GET"), Ok(Method::Get)));
    assert!(matches!(Method::parse("POST"), Ok(Method::Post)));
    assert!(matches!(Method::parse("PUT"), Ok(Method::Put)));
    assert!(matches!(Method::parse("DELETE"), Ok(Method::Delete)));
}

#[test]
fn other_texts_do_not_parse_as_methods() {
    for text in [
        "", "get", "Get", "GET ", " GET", "GETS", "PURGE", "POST\n", "G", "HEAD", "CONNECT",
        "OPTIONS", "TRACE", "PATCH", "delete",
    ] {
        assert!(matches!(Method::parse(text), Err(ParseError::UnknownMethod)));
    }
    assert_eq!(ParseError::UnknownMethod.message(), "failed to parse method");
}

#[test]
fn method_names_round_trip() {
    let standard = [
        (Method::Get, "GET"),
        (Method::Head, "HEAD"),
        (Method::Post, "POST"),
        (Method::Put, "PUT"),
        (Method::Delete, "DELETE"),
        (Method::Connect, "CONNECT"),
        (Method::Options, "OPTIONS"),
        (Method::Trace, "TRACE"),
        (Method::Patch, "PATCH"),
    ];
    for (method, name) in standard {
        assert_eq!(method.as_str(), name);
        let named = Method::from_name(name);
        assert!(!matches!(named, Method::Extension(_)));
        assert!(named == method);
        assert_eq!(std::mem::discriminant(&named), std::mem::discriminant(&method));
    }
    for name in ["GET", "POST", "PUT", "DELETE"] {
        assert_eq!(Method::parse(name).unwrap().as_str(), name);
    }
    let purge = Method::from_name("PURGE");
    assert!(matches!(purge, Method::Extension(_)));
    assert_eq!(purge.as_str(), "PURGE");
    assert!(matches!(Method::from_name("get"), Method::Extension(_)));
}

#[test]
fn methods_are_equal_when_their_names_are() {
    assert!(Method::Get == Method::Get);
    assert!(Method::Get != Method::Post);
    assert!(Method::Extension("GET".to_string()) == Method::Get);
    assert!(Method::Extension("PURGE".to_string()) == Method::Extension("PURGE".to_string()));
    assert!(Method::Extension("PURGE".to_string()) != Method::Extension("purge".to_string()));
    assert!(Method::Patch.clone() == Method::Patch);
    assert!(Method::Extension("X".to_string()).clone() == Method::Extension("X".to_string()));
}

#[test]
fn same_text_compares_characters() {
    assert!(same_text("", ""));
    assert!(same_text("abc", "abc"));
    assert!(!same_text("abc", "abd"));
    assert!(!same_text("abc", "ab"));
    assert!(same_text("h\u{e9}", "h\u{e9}"));
}

#[test]
fn requests_come_apart_and_together() {
    let request = Request::new(Method::Post, "/json", "{}");
    assert!(*request.method() == Method::Post);
    assert_eq!(request.path(), "/json");
    let (head, body) = request.into_parts();
    assert_eq!(head.path, "/json");
    assert!(head.headers.is_empty());
    assert_eq!(body, "{}");
    let request = Request::from_parts(head.with_header("Accept", "*/*"), body);
    assert_eq!(request.head.headers, vec![("Accept".to_string(), "*/*".to_string())]);
    assert_eq!(request.into_body(), "{}");
}

#[test]
fn body_bytes_must_be_utf8() {
    let head = Parts::new(Method::Post, "/");
    let request = Request::from_bytes(head, "h\u{e9}llo".as_bytes().to_vec()).unwrap();
    assert_eq!(request.body, "h\u{e9}llo");
    assert_eq!(request.path(), "/");
    let head = Parts::new(Method::Post, "/");
    let rejection = Request::from_bytes(head, vec![0x68, 0xff, 0x69]).unwrap_err();
    assert_eq!(rejection.reason, "request body is not valid UTF-8");
    assert_eq!(rejection.into_response().status.as_u16(), 400);
    let head = Parts::new(Method::Post, "/");
    let request = Request::from_bytes(head, Vec::new()).unwrap();
    assert_eq!(request.body, "");
    let head = Parts::new(Method::Post, "/");
    assert!(Request::from_bytes(head, vec![0xc3]).is_err());
}

#[test]
fn head_extractors_read_the_head() {
    let parts = Parts::new(Method::Delete, "/thing").with_header("A", "b");
    let method = Method::from_request_parts(&parts).unwrap();
    assert!(method == Method::Delete);
    let Path(path) = Path::from_request_parts(&parts).unwrap();
    assert_eq!(path, "/thing");
    let Path(again) = Path::from_request_parts(&parts).unwrap();
    assert_eq!(again, "/thing");
}

#[test]
fn request_extractors_read_the_request() {
    let body = String::from_request(Request::new(Method::Post, "/p", "the body")).unwrap();
    assert_eq!(body, "the body");
    let whole = Request::from_request(Request::new(Method::Post, "/p", "the body")).unwrap();
    assert_eq!(whole.path(), "/p");
    assert_eq!(whole.body, "the body");
    let Path(path) = <Path as FromRequest>::from_request(Request::new(Method::Post, "/p", "x"))
        .unwrap();
    assert_eq!(path, "/p");
    let method = <Method as FromRequest>::from_request(Request::new(Method::Put, "/p", "x"))
        .unwrap();
    assert!(method == Method::Put);
}

#[test]
fn unit_becomes_an_empty_ok() {
    let response = ().into_response();
    assert_eq!(response.status.as_u16(), 200);
    assert_eq!(response.body, "");
    assert!(response.headers.is_empty());
}

#[test]
fn text_becomes_an_ok_with_that_body() {
    let response = "hello".into_response();
    assert_eq!(response.status.as_u16(), 200);
    assert_eq!(response.body, "hello");
    assert!(response.headers.is_empty());
    let response = String::from("owned").into_response();
    assert_eq!(response.status.as_u16(), 200);
    assert_eq!(response.body, "owned");
}

#[test]
fn status_error_becomes_that_status() {
    let ok: Result<&str, StatusCode> = Ok("fine");
    let response = ok.into_response();
    assert_eq!(response.status.as_u16(), 200);
    assert_eq!(response.body, "fine");
    let err: Result<&str, StatusCode> = Err(StatusCode::from_u16(503).unwrap());
    let response = err.into_response();
    assert_eq!(response.status.as_u16(), 503);
    assert_eq!(response.body, "");
    assert!(response.headers.is_empty());
}

#[test]
fn either_side_of_a_result_converts() {
    let ok: Result<String, Rejection> = Ok("fine".to_string());
    assert_eq!(ok.into_response().body, "fine");
    let err: Result<String, Rejection> = Err(Rejection::new("no good"));
    let response = err.into_response();
    assert_eq!(response.status.as_u16(), 400);
    assert_eq!(response.body, "no good");
    let nested: Result<Result<(), StatusCode>, Rejection> = Ok(Err(StatusCode::not_found()));
    assert_eq!(nested.into_response().status.as_u16(), 404);
}

#[test]
fn rejection_becomes_bad_request() {
    let response = Rejection::new("missing field").into_response();
    assert_eq!(response.status.as_u16(), 400);
    assert_eq!(response.body, "missing field");
    assert!(response.headers.is_empty());
}

#[test]
fn response_converts_to_itself() {
    let response = Response::new(StatusCode::im_a_teapot(), "tea".to_string())
        .with_header("X-A", "1")
        .with_header("X-B", "2")
        .into_response();
    assert_eq!(response.status.as_u16(), 418);
    assert_eq!(response.body, "tea");
    assert_eq!(
        response.headers,
        vec![("X-A".to_string(), "1".to_string()), ("X-B".to_string(), "2".to_string())]
    );
    let empty = Response::empty(StatusCode::not_found());
    assert_eq!(empty.status.as_u16(), 404);
    assert_eq!(empty.body, "");
    assert!(empty.headers.is_empty());
}
