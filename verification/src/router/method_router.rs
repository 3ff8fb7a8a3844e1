use vstd::prelude::*;
use crate::http::method::Method;
use crate::http::request::RequestView;
use crate::http::response::ResponseView;
use crate::router::handler::accepts_everything;
use crate::router::handler::answers_as_handler;
use crate::router::handler::Handler;
use crate::router::handler::IntoHandler;

verus! {

/// An entry of the route table: a handler whose type has been erased.
pub struct Route(pub Box<dyn Handler>);

impl Route {
    /// Whether the handler may be called on every request.
    pub open spec fn total(&self) -> bool {
        self.0.total()
    }

    /// Whether `response` is an answer of the handler to `request`.
    pub open spec fn handles(&self, request: RequestView, response: ResponseView) -> bool {
        self.0.handles(request, response)
    }

    /// Whether this route answers as `handler` does.
    pub open spec fn same_as<H: Handler>(&self, handler: H) -> bool {
        &&& self.total() == handler.total()
        &&& forall|request: RequestView, response: ResponseView|
            self.handles(request, response) == handler.handles(request, response)
    }

    /// Whether this route answers as `function` does once it is wrapped as
    /// a handler.
    pub open spec fn wraps<T: IntoHandler<U>, U>(&self, function: T) -> bool {
        &&& self.total() == accepts_everything::<T, U>(function)
        &&& forall|request: RequestView, response: ResponseView|
            self.handles(request, response) == answers_as_handler::<T, U>(
                function,
                request,
                response,
            )
    }
}

/// Boxes a handler as a trait object, with `Box::new`. A call through the
/// trait object runs the method of the value that was boxed, which the
/// verifier does not model: the contract states it.
#[verifier::external_body]
fn erase<H: Handler + 'static>(handler: H) -> (route: Route)
    ensures
        route.same_as(handler),
{
    Route(Box::new(handler))
}

/// A route that answers `GET` requests with `handler`: a function of up to
/// fourteen parameters. What such a function is as a handler is said, for a
/// function of `n` parameters, by `lemma_function_n`.
pub fn get<T, U>(handler: T) -> (route: (Route, Method)) where
    T: IntoHandler<U> + 'static,
    U: 'static,

    ensures
        route.0.wraps::<T, U>(handler),
        route.1 == Method::Get,
{
    (erase(handler.into_handler()), Method::Get)
}

/// A route that answers `HEAD` requests with `handler`: a function of up to
/// fourteen parameters. What such a function is as a handler is said, for a
/// function of `n` parameters, by `lemma_function_n`.
pub fn head<T, U>(handler: T) -> (route: (Route, Method)) where
    T: IntoHandler<U> + 'static,
    U: 'static,

    ensures
        route.0.wraps::<T, U>(handler),
        route.1 == Method::Head,
{
    (erase(handler.into_handler()), Method::Head)
}

/// A route that answers `POST` requests with `handler`: a function of up to
/// fourteen parameters. What such a function is as a handler is said, for a
/// function of `n` parameters, by `lemma_function_n`.
pub fn post<T, U>(handler: T) -> (route: (Route, Method)) where
    T: IntoHandler<U> + 'static,
    U: 'static,

    ensures
        route.0.wraps::<T, U>(handler),
        route.1 == Method::Post,
{
    (erase(handler.into_handler()), Method::Post)
}

/// A route that answers `PUT` requests with `handler`: a function of up to
/// fourteen parameters. What such a function is as a handler is said, for a
/// function of `n` parameters, by `lemma_function_n`.
pub fn put<T, U>(handler: T) -> (route: (Route, Method)) where
    T: IntoHandler<U> + 'static,
    U: 'static,

    ensures
        route.0.wraps::<T, U>(handler),
        route.1 == Method::Put,
{
    (erase(handler.into_handler()), Method::Put)
}

/// A route that answers `DELETE` requests with `handler`: a function of up to
/// fourteen parameters. What such a function is as a handler is said, for a
/// function of `n` parameters, by `lemma_function_n`.
pub fn delete<T, U>(handler: T) -> (route: (Route, Method)) where
    T: IntoHandler<U> + 'static,
    U: 'static,

    ensures
        route.0.wraps::<T, U>(handler),
        route.1 == Method::Delete,
{
    (erase(handler.into_handler()), Method::Delete)
}

/// A route that answers `CONNECT` requests with `handler`: a function of up to
/// fourteen parameters. What such a function is as a handler is said, for a
/// function of `n` parameters, by `lemma_function_n`.
pub fn connect<T, U>(handler: T) -> (route: (Route, Method)) where
    T: IntoHandler<U> + 'static,
    U: 'static,

    ensures
        route.0.wraps::<T, U>(handler),
        route.1 == Method::Connect,
{
    (erase(handler.into_handler()), Method::Connect)
}

/// A route that answers `OPTIONS` requests with `handler`: a function of up to
/// fourteen parameters. What such a function is as a handler is said, for a
/// function of `n` parameters, by `lemma_function_n`.
pub fn options<T, U>(handler: T) -> (route: (Route, Method)) where
    T: IntoHandler<U> + 'static,
    U: 'static,

    ensures
        route.0.wraps::<T, U>(handler),
        route.1 == Method::Options,
{
    (erase(handler.into_handler()), Method::Options)
}

/// A route that answers `TRACE` requests with `handler`: a function of up to
/// fourteen parameters. What such a function is as a handler is said, for a
/// function of `n` parameters, by `lemma_function_n`.
pub fn trace<T, U>(handler: T) -> (route: (Route, Method)) where
    T: IntoHandler<U> + 'static,
    U: 'static,

    ensures
        route.0.wraps::<T, U>(handler),
        route.1 == Method::Trace,
{
    (erase(handler.into_handler()), Method::Trace)
}

/// A route that answers `PATCH` requests with `handler`: a function of up to
/// fourteen parameters. What such a function is as a handler is said, for a
/// function of `n` parameters, by `lemma_function_n`.
pub fn patch<T, U>(handler: T) -> (route: (Route, Method)) where
    T: IntoHandler<U> + 'static,
    U: 'static,

    ensures
        route.0.wraps::<T, U>(handler),
        route.1 == Method::Patch,
{
    (erase(handler.into_handler()), Method::Patch)
}

} // verus!
