//! The request and response model: plain values that the rest of the crate
//! reads and builds.
pub mod method;
pub mod request;
pub mod response;
pub mod status;

