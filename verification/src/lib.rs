//! A small HTTP request-dispatch engine.
//!
//! - [`http`] holds the model of requests and responses, the extraction of
//!   typed values from a request and the conversion of values into
//!   responses.
//! - [`json`] carries values as JSON, in both directions.
//! - [`router`] maps an exact `(method, path)` pair to a handler. A handler
//!   is an ordinary function: its parameters are extracted from the request
//!   and its result is turned into the response.
//! - [`middleware`] wraps the router in an ordered stack of decorators;
//!   [`timeout`], [`limit`] and [`log`] are the decorators that come with
//!   the crate, and [`clock`] is where they read the time.
//! - [`server`] holds the decisions of the connection loop and of each
//!   exchange, and the wrapper through which connections share one service.
//!
//! Every function of this crate is verified against its contract. The few
//! items that rest on code outside the crate say so where they are declared.
pub mod clock;
pub mod http;
pub mod json;
pub mod limit;
pub mod log;
pub mod middleware;
pub mod router;
pub mod server;
pub mod timeout;
