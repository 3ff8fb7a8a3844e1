use vstd::prelude::*;
use vstd::rwlock::RwLock;
use vstd::rwlock::RwLockPredicate;
use std::sync::Arc;
use crate::http::request::Request;
use crate::http::request::RequestView;
use crate::http::response::Response;
use crate::http::response::ResponseView;
use crate::middleware::Service;

verus! {

/// A listening TCP socket of `tokio`. It is carried, never used, here.
#[verifier::external_type_specification]
#[verifier::external_body]
pub struct ExTcpListener(tokio::net::TcpListener);

/// A listener and the service for its connections, ready to be run.
pub struct Serve<S> {
    listener: tokio::net::TcpListener,
    service: S,
}

impl<S> Serve<S> {
    /// The listener.
    pub closed spec fn listener(self) -> tokio::net::TcpListener {
        self.listener
    }

    /// The service.
    pub closed spec fn service(self) -> S {
        self.service
    }

    pub fn new(listener: tokio::net::TcpListener, service: S) -> (server: Serve<S>)
        ensures
            server.listener() == listener,
            server.service() == service,
    {
        Serve { listener, service }
    }

    /// Gives the listener and the service back, to whoever runs the loop.
    pub fn into_parts(self) -> (parts: (tokio::net::TcpListener, S))
        ensures
            parts.0 == self.listener(),
            parts.1 == self.service(),
    {
        (self.listener, self.service)
    }
}

/// Whether `to` is a state that a service in the state `from` is in after
/// answering `steps` requests.
pub open spec fn reaches<T: Service>(from: T, to: T, steps: nat) -> bool
    decreases steps,
{
    if steps == 0 {
        to == from
    } else {
        exists|middle: T, request: RequestView, response: ResponseView|
            reaches(from, middle, (steps - 1) as nat) && #[trigger] middle.serves(
                request,
                to,
                response,
            )
    }
}

/// Whether `to` is a state that a service in the state `from` is in after
/// answering some number of requests.
pub open spec fn descends<T: Service>(from: T, to: T) -> bool {
    exists|steps: nat| reaches(from, to, steps)
}

/// What a shared service is held to: it descends from the service that was
/// wrapped.
pub struct Lineage<T> {
    pub origin: T,
}

impl<T: Service> RwLockPredicate<T> for Lineage<T> {
    open spec fn inv(self, service: T) -> bool {
        descends(self.origin, service)
    }
}

/// A service behind a reference-counted lock, for a service that cannot be
/// duplicated. Every clone answers with the one service; calls take the lock
/// in turn, so they are answered one after another. This makes the wrapper a
/// point of contention: a service that can be shared by reference, as a
/// router can, is better shared that way. A call that panics keeps the lock.
pub struct ArcWrapper<T: Service>(pub Arc<RwLock<T, Lineage<T>>>);

/// Calls `Arc::clone`: the result points to the same value.
#[verifier::external_body]
fn share<T>(pointer: &Arc<T>) -> (shared: Arc<T>)
    ensures
        shared == *pointer,
{
    Arc::clone(pointer)
}

impl<T: Service> ArcWrapper<T> {
    /// The service that was wrapped.
    pub closed spec fn origin(&self) -> T {
        self.0.pred().origin
    }

    pub fn new(data: T) -> (wrapper: ArcWrapper<T>)
        ensures
            wrapper.origin() == data,
    {
        let ghost lineage = Lineage { origin: data };
        assert(reaches(data, data, 0));
        ArcWrapper(Arc::new(RwLock::new(data, Ghost(lineage))))
    }

    /// Answers `request` with the shared service, in whatever state the
    /// calls before this one have left it.
    pub fn call(&self, request: Request) -> (response: Response)
        ensures
            exists|before: T, after: T|
                descends(self.origin(), before) && #[trigger] before.serves(
                    request@,
                    after,
                    response@,
                ),
    {
        let (mut service, handle) = self.0.acquire_write();
        let ghost before = service;
        let response = service.call(request);
        proof {
            let steps = choose|steps: nat| reaches(self.origin(), before, steps);
            assert(reaches(self.origin(), service, steps + 1)) by {
                assert(before.serves(request@, service, response@));
            }
        }
        handle.release_write(service);
        response
    }
}

impl<T: Service> Clone for ArcWrapper<T> {
    fn clone(&self) -> (wrapper: ArcWrapper<T>)
        ensures
            wrapper == *self,
    {
        ArcWrapper(share(&self.0))
    }
}

} // verus!
