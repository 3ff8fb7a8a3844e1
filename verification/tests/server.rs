use axtel::http::method::Method;
use axtel::http::request::Request;
use axtel::http::response::Rejection;
use axtel::http::response::Response;
use axtel::http::status::StatusCode;
use axtel::limit::RateLimitLayer;
use axtel::clock::SystemClock;
use axtel::router::method_router::get;
use axtel::router::Router;
use axtel::server::accept::Action;
use axtel::server::accept::Event;
use axtel::server::accept::Phase;
use axtel::server::accept::Server;
use axtel::server::exchange::conclude;
use axtel::server::exchange::Exchange;
use axtel::server::serve::ArcWrapper;

fn accepting() -> Server {
    let mut server = Server::new();
    assert_eq!(server.step(Event::Bound), Action::Accept);
    server
}

#[test]
fn server_starts_idle_and_listens_once_bound() {
    let mut server = Server::new();
    assert_eq!(server.phase(), Phase::Idle);
    assert_eq!(server.step(Event::Accepted), Action::Nothing);
    assert_eq!(server.step(Event::Failed(0)), Action::Nothing);
    assert_eq!(server.phase(), Phase::Idle);
    assert_eq!(server.step(Event::Bound), Action::Accept);
    assert_eq!(server.phase(), Phase::Accepting);
    assert_eq!(server.step(Event::Bound), Action::Nothing);
    assert_eq!(server.phase(), Phase::Accepting);
}

#[test]
fn failure_to_bind_ends_the_server() {
    let mut server = Server::new();
    assert_eq!(server.step(Event::BindFailed), Action::Fail);
    assert_eq!(server.phase(), Phase::Closed);
    assert_eq!(server.step(Event::Bound), Action::Nothing);
    assert_eq!(server.step(Event::Accepted), Action::Nothing);
    assert_eq!(server.phase(), Phase::Closed);
}

#[test]
fn connections_are_numbered_in_turn() {
    let mut server = accepting();
    assert_eq!(server.step(Event::Accepted), Action::Serve(0));
    assert_eq!(server.step(Event::Accepted), Action::Serve(1));
    assert_eq!(server.step(Event::Accepted), Action::Serve(2));
    assert!(server.is_open(0) && server.is_open(1) && server.is_open(2));
    assert!(!server.is_open(3));
}

#[test]
fn failed_connection_leaves_the_others_and_the_loop() {
    let mut server = accepting();
    assert_eq!(server.step(Event::Accepted), Action::Serve(0));
    assert_eq!(server.step(Event::Accepted), Action::Serve(1));
    assert_eq!(server.step(Event::Accepted), Action::Serve(2));
    assert_eq!(server.step(Event::Failed(1)), Action::Report(1));
    assert_eq!(server.phase(), Phase::Accepting);
    assert!(server.is_open(0));
    assert!(!server.is_open(1));
    assert!(server.is_open(2));
    assert_eq!(server.step(Event::Accepted), Action::Serve(3));
    assert_eq!(server.step(Event::Finished(0)), Action::Accept);
    assert!(!server.is_open(0));
    assert!(server.is_open(2) && server.is_open(3));
    assert_eq!(server.step(Event::Failed(77)), Action::Report(77));
    assert!(server.is_open(2) && server.is_open(3));
    assert_eq!(server.phase(), Phase::Accepting);
}

#[test]
fn failed_accept_is_reported_and_the_loop_goes_on() {
    let mut server = accepting();
    assert_eq!(server.step(Event::Accepted), Action::Serve(0));
    assert_eq!(server.step(Event::AcceptFailed), Action::ReportAccept);
    assert_eq!(server.phase(), Phase::Accepting);
    assert!(server.is_open(0));
    assert_eq!(server.step(Event::Accepted), Action::Serve(1));
}

#[test]
fn shutdown_closes_everything() {
    let mut server = accepting();
    assert_eq!(server.step(Event::Accepted), Action::Serve(0));
    assert_eq!(server.step(Event::Shutdown), Action::Stop);
    assert_eq!(server.phase(), Phase::Closed);
    assert!(!server.is_open(0));
    assert_eq!(server.step(Event::Accepted), Action::Nothing);
    assert_eq!(server.step(Event::Shutdown), Action::Nothing);
    let mut idle = Server::new();
    assert_eq!(idle.step(Event::Shutdown), Action::Stop);
    assert_eq!(idle.phase(), Phase::Closed);
}

#[test]
fn shared_service_answers_through_every_clone() {
    let service = Router::new()
        .route("/", get(|| "hello"))
        .layer(RateLimitLayer::new(2, 3_600_000, SystemClock::new()))
        .service();
    let first = ArcWrapper::new(service);
    let second = first.clone();
    let third = second.clone();
    assert_eq!(first.call(Request::new(Method::Get, "/", "")).status.as_u16(), 200);
    assert_eq!(second.call(Request::new(Method::Get, "/", "")).status.as_u16(), 200);
    assert_eq!(third.call(Request::new(Method::Get, "/", "")).status.as_u16(), 429);
    assert_eq!(first.call(Request::new(Method::Get, "/", "")).status.as_u16(), 429);
}

#[test]
fn shared_router_answers() {
    let shared = ArcWrapper::new(Router::new().route("/", get(|| "hello")));
    let response = shared.clone().call(Request::new(Method::Get, "/", ""));
    assert_eq!((response.status.as_u16(), response.body.as_str()), (200, "hello"));
    let response = shared.call(Request::new(Method::Get, "/missing", ""));
    assert_eq!((response.status.as_u16(), response.body.as_str()), (404, ""));
}

#[test]
fn serve_pairs_listener_and_service() {
    let runtime = tokio::runtime::Builder::new_current_thread().enable_all().build().unwrap();
    let listener =
        runtime.block_on(async { tokio::net::TcpListener::bind("127.0.0.1:0").await }).unwrap();
    let address = listener.local_addr().unwrap();
    let server = axtel::server::serve(listener, Router::new().route("/", get(|| "hello")));
    let (listener, service) = server.into_parts();
    assert_eq!(listener.local_addr().unwrap(), address);
    assert_eq!(service.dispatch(Request::new(Method::Get, "/", "")).body, "hello");
    let server = axtel::server::serve::Serve::new(listener, service);
    let (listener, _) = server.into_parts();
    assert_eq!(listener.local_addr().unwrap(), address);
}

#[test]
fn every_exchange_ends_with_a_response() {
    let response = conclude(Exchange::Unreadable);
    assert_eq!(response.status.as_u16(), 400);
    assert_eq!(response.body, "request body could not be read");
    let response = conclude(Exchange::Rejected(Rejection::new("request body is not valid UTF-8")));
    assert_eq!(response.status.as_u16(), 400);
    assert_eq!(response.body, "request body is not valid UTF-8");
    let response = conclude(Exchange::TimedOut);
    assert_eq!((response.status.as_u16(), response.body.as_str()), (408, ""));
    assert!(response.headers.is_empty());
    let response = conclude(Exchange::Faulted);
    assert_eq!((response.status.as_u16(), response.body.as_str()), (500, ""));
    assert!(response.headers.is_empty());
    let answer = Response::new(StatusCode::ok(), "hello".to_string()).with_header("A", "b");
    let response = conclude(Exchange::Answered(answer));
    assert_eq!((response.status.as_u16(), response.body.as_str()), (200, "hello"));
    assert_eq!(response.headers, vec![("A".to_string(), "b".to_string())]);
}

