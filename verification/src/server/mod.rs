//! The server: what is handed to the connection loop, the decisions of that
//! loop and of each exchange, and the wrapper that lets connections share a
//! service.
pub mod accept;
pub mod exchange;
pub mod serve;

use vstd::prelude::*;
use crate::middleware::Service;
use crate::server::serve::Serve;

verus! {

/// Pairs a bound listener with the composed service that is to answer the
/// connections accepted on it.
pub fn serve<S>(listener: tokio::net::TcpListener, service: S) -> (server: Serve<S>) where
    S: Service,

    ensures
        server.listener() == listener,
        server.service() == service,
{
    Serve::new(listener, service)
}

} // verus!
