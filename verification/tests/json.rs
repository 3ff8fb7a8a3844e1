use std::sync::Arc;
use std::sync::Mutex;

use axtel::http::method::Method;
use axtel::http::request::FromRequest;
use axtel::http::request::Request;
use axtel::http::response::IntoResponse;
use axtel::json::respond_json;
use axtel::json::FromJson;
use axtel::json::Json;
use axtel::json::ToJson;
use axtel::router::method_router::post;
use axtel::router::Router;

#[test]
fn json_body_reaches_the_function_decoded() {
    let seen: Arc<Mutex<Option<serde_json::Value>>> = Arc::new(Mutex::new(None));
    let sink = seen.clone();
    let router = Router::new().route(
        "/json",
        post(move |Json(data): Json<serde_json::Value>| {
            *sink.lock().unwrap() = Some(data);
        }),
    );
    let response = router.dispatch(Request::new(Method::Post, "/json", "{\"hello\":\"world\"}"));
    assert_eq!(response.status.as_u16(), 200);
    assert_eq!(response.body, "");
    let value = seen.lock().unwrap().take().unwrap();
    let object = value.as_object().unwrap();
    assert_eq!(object.len(), 1);
    assert_eq!(object.get("hello").and_then(|v| v.as_str()), Some("world"));
}

#[test]
fn malformed_json_body_is_bad_request() {
    let called = Arc::new(Mutex::new(false));
    let flag = called.clone();
    let router = Router::new().route(
        "/json",
        post(move |Json(_): Json<serde_json::Value>| {
            *flag.lock().unwrap() = true;
        }),
    );
    for body in ["{\"hello\":", "", "{hello: world}", "{\"a\":1} trailing", "[1,2"] {
        let response = router.dispatch(Request::new(Method::Post, "/json", body));
        assert_eq!(response.status.as_u16(), 400);
        assert!(!response.body.is_empty());
    }
    assert!(!*called.lock().unwrap());
    let response = router.dispatch(Request::new(Method::Post, "/json", "{\"ok\":true}"));
    assert_eq!(response.status.as_u16(), 200);
    assert!(*called.lock().unwrap());
}

#[test]
fn documents_decode_from_text() {
    let value = serde_json::Value::from_json("[1, 2, {\"a\": null}]").unwrap();
    assert_eq!(value.as_array().map(|a| a.len()), Some(3));
    assert_eq!(value[0].as_i64(), Some(1));
    assert!(value[2]["a"].is_null());
    let rejection = serde_json::Value::from_json("{\"a\" 1}").unwrap_err();
    assert_eq!(rejection.reason, "expected `:` at line 1 column 6");
    let rejection = serde_json::Value::from_json("").unwrap_err();
    assert_eq!(rejection.reason, "EOF while parsing a value at line 1 column 0");
}

#[test]
fn json_extractor_wraps_the_decoded_value() {
    let Json(value) =
        Json::<serde_json::Value>::from_request(Request::new(Method::Post, "/", "\"text\""))
            .unwrap();
    assert_eq!(value.as_str(), Some("text"));
    let rejection =
        Json::<serde_json::Value>::from_request(Request::new(Method::Post, "/", "nope"))
            .err()
            .unwrap();
    assert_eq!(rejection.into_response().status.as_u16(), 400);
}

#[test]
fn a_text_decodes_to_the_same_document_every_time() {
    let text = "{\"b\": [1, 2.5, \"x\"], \"a\": {\"c\": null}}";
    let first = serde_json::Value::from_json(text).unwrap();
    let second = serde_json::Value::from_json(text).unwrap();
    assert!(first == second);
    assert_eq!(first.to_json(), second.to_json());
    assert_eq!(first.to_json(), Ok("{\"a\":{\"c\":null},\"b\":[1,2.5,\"x\"]}".to_string()));
}

#[test]
fn documents_encode_as_text() {
    let value = serde_json::Value::from_json("{ \"name\" : \"foo\", \"n\": [1, 2] }").unwrap();
    assert_eq!(value.to_json(), Ok("{\"n\":[1,2],\"name\":\"foo\"}".to_string()));
    assert_eq!(serde_json::Value::Null.to_json(), Ok("null".to_string()));
}

#[test]
fn json_value_becomes_a_json_response() {
    let value = serde_json::Value::from_json("{\"name\":\"foo\",\"nick_name\":\"bar\"}").unwrap();
    let response = Json(value).into_response();
    assert_eq!(response.status.as_u16(), 200);
    assert_eq!(
        response.headers,
        vec![("Content-Type".to_string(), "application/json".to_string())]
    );
    assert_eq!(response.body, "{\"name\":\"foo\",\"nick_name\":\"bar\"}");
}

#[test]
fn encoding_outcome_decides_the_response() {
    let response = respond_json(Ok("[1]".to_string()));
    assert_eq!(response.status.as_u16(), 200);
    assert_eq!(response.body, "[1]");
    assert_eq!(
        response.headers,
        vec![("Content-Type".to_string(), "application/json".to_string())]
    );
    let response = respond_json(Err("key must be a string".to_string()));
    assert_eq!(response.status.as_u16(), 418);
    assert_eq!(response.body, "key must be a string");
    assert!(response.headers.is_empty());
}

/// A value with a codec written by hand.
struct Point {
    x: i64,
    y: i64,
}

impl ToJson for Point {
    fn to_json(&self) -> Result<String, String> {
        if self.x < 0 {
            Err("negative".to_string())
        } else {
            Ok(format!("{{\"x\":{},\"y\":{}}}", self.x, self.y))
        }
    }
}

#[test]
fn failed_encoding_is_a_teapot() {
    let response = Json(Point { x: 1, y: 2 }).into_response();
    assert_eq!(response.status.as_u16(), 200);
    assert_eq!(response.body, "{\"x\":1,\"y\":2}");
    let response = Json(Point { x: -1, y: 2 }).into_response();
    assert_eq!(response.status.as_u16(), 418);
    assert_eq!(response.body, "negative");
}
