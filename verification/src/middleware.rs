use vstd::prelude::*;
use crate::http::method::Method;
use crate::http::request::Request;
use crate::http::request::RequestView;
use crate::http::response::Response;
use crate::http::response::ResponseView;
use crate::router::method_router::Route;
use crate::router::order_with;
use crate::router::Router;

verus! {

/// Something that answers one request with one response, and may change
/// its own state in doing so.
pub trait Service: Sized {
    /// Whether a call in the state `self` may answer `request` with
    /// `response` and leave the service in the state `after`.
    /// Where an impl does not say, nothing is known.
    open spec fn serves(&self, request: RequestView, after: Self, response: ResponseView) -> bool {
        true
    }

    fn call(&mut self, request: Request) -> (response: Response)
        ensures
            old(self).serves(request@, *final(self), response@),
    ;
}

/// Whether a service that starts in the first of `states` answers
/// `requests` in turn with `responses`, and is in the next of `states` after
/// each.
pub open spec fn is_run<S: Service>(
    states: Seq<S>,
    requests: Seq<RequestView>,
    responses: Seq<ResponseView>,
) -> bool {
    &&& states.len() == requests.len() + 1
    &&& responses.len() == requests.len()
    &&& forall|i: int|
        0 <= i < requests.len() ==> states[i].serves(
            #[trigger] requests[i],
            states[i + 1],
            responses[i],
        )
}

/// A decorator: it wraps a service in another one.
pub trait Layer<S> {
    type Service;

    /// Whether `outer` is `inner` wrapped by this decorator.
    /// Where an impl does not say, nothing is known.
    open spec fn wraps(&self, inner: S, outer: Self::Service) -> bool {
        true
    }

    fn layer(&self, inner: S) -> (outer: Self::Service)
        ensures
            self.wraps(inner, outer),
    ;
}

/// The decorator that adds nothing.
#[derive(Clone, Copy, Debug, PartialEq, Eq, Structural)]
pub struct Identity;

impl Identity {
    pub fn new() -> (identity: Identity)
        ensures
            identity == Identity,
    {
        Identity
    }
}

impl<S> Layer<S> for Identity {
    type Service = S;

    open spec fn wraps(&self, inner: S, outer: S) -> bool {
        outer == inner
    }

    fn layer(&self, inner: S) -> (outer: S) {
        inner
    }
}

/// Two decorators as one: `inner` is applied first, so it ends up next to
/// the service, and `outer` is applied to the result.
#[derive(Debug)]
pub struct Stack<Inner, Outer> {
    pub inner: Inner,
    pub outer: Outer,
}

impl<Inner, Outer> Stack<Inner, Outer> {
    pub fn new(inner: Inner, outer: Outer) -> (stack: Stack<Inner, Outer>)
        ensures
            stack == (Stack { inner, outer }),
    {
        Stack { inner, outer }
    }
}

impl<S, Inner, Outer> Layer<S> for Stack<Inner, Outer> where
    Inner: Layer<S>,
    Outer: Layer<Inner::Service>,
 {
    type Service = Outer::Service;

    open spec fn wraps(&self, inner: S, outer: Self::Service) -> bool {
        exists|middle: Inner::Service| #[trigger]
            self.inner.wraps(inner, middle) && self.outer.wraps(middle, outer)
    }

    fn layer(&self, inner: S) -> (outer: Self::Service) {
        let middle = self.inner.layer(inner);
        self.outer.layer(middle)
    }
}

/// A router together with the decorators that are to go around it.
///
/// The decorator that is registered first is the outermost: it sees a
/// request before all the others and its response after them. Each later
/// one goes inside those before it, next to the router.
pub struct Middleware<L> {
    layer: L,
    router: Router,
}

impl Middleware<Identity> {
    /// An empty stack around `router`.
    pub fn new(router: Router) -> (middleware: Middleware<Identity>)
        ensures
            middleware.layers() == Identity,
            middleware.base() == router,
    {
        Middleware { layer: Identity::new(), router }
    }
}

impl<L> Middleware<L> {
    /// The decorators, as one.
    pub closed spec fn layers(self) -> L {
        self.layer
    }

    /// The router that they go around.
    pub closed spec fn base(self) -> Router {
        self.router
    }

    /// A stack that holds `layer` alone, around `router`.
    pub(crate) fn with_layer(layer: L, router: Router) -> (middleware: Middleware<L>)
        ensures
            middleware.layers() == layer,
            middleware.base() == router,
    {
        Middleware { layer, router }
    }

    /// The stack with `layer` added inside the decorators that it holds.
    pub fn layer<T>(self, layer: T) -> (middleware: Middleware<Stack<T, L>>)
        ensures
            middleware.layers() == (Stack { inner: layer, outer: self.layers() }),
            middleware.base() == self.base(),
    {
        Middleware { layer: Stack::new(layer, self.layer), router: self.router }
    }

    /// The stack around the router with one more route.
    pub fn route(self, path: &str, route: (Route, Method)) -> (middleware: Middleware<L>)
        requires
            route.0.total(),
        ensures
            middleware.layers() == self.layers(),
            middleware.base().table() == self.base().table().insert(
                (route.1@, path@),
                route.0,
            ),
            middleware.base().order() == order_with(
                self.base().table(),
                self.base().order(),
                (route.1@, path@),
            ),
    {
        let Middleware { layer, router } = self;
        Middleware { layer, router: router.route(path, route) }
    }

    /// The router wrapped in the decorators: the composed service.
    pub fn service(self) -> (service: L::Service) where L: Layer<Router>
        ensures
            self.layers().wraps(self.base(), service),
    {
        self.layer.layer(self.router)
    }
}

/// Of two decorators that are registered one after the other on an empty
/// stack, the first is the outermost: the composed service is the first
/// decorator around the second around the service.
pub proof fn lemma_first_registered_is_outermost<S, A, B>(
    first: A,
    second: B,
    inner: S,
    outer: A::Service,
) where B: Layer<S>, A: Layer<B::Service>
    ensures
        (Stack { inner: second, outer: Stack { inner: first, outer: Identity } }).wraps(
            inner,
            outer,
        ) <==> exists|middle: B::Service| #[trigger]
            second.wraps(inner, middle) && first.wraps(middle, outer),
{
    let stack = Stack { inner: second, outer: Stack { inner: first, outer: Identity } };
    if stack.wraps(inner, outer) {
        let middle = choose|middle: B::Service| #[trigger]
            stack.inner.wraps(inner, middle) && stack.outer.wraps(middle, outer);
        let last = choose|last: A::Service| #[trigger]
            stack.outer.inner.wraps(middle, last) && stack.outer.outer.wraps(last, outer);
        assert(second.wraps(inner, middle) && first.wraps(middle, outer));
    }
    if exists|middle: B::Service| #[trigger]
        second.wraps(inner, middle) && first.wraps(middle, outer) {
        let middle = choose|middle: B::Service| #[trigger]
            second.wraps(inner, middle) && first.wraps(middle, outer);
        assert(stack.outer.inner.wraps(middle, outer) && stack.outer.outer.wraps(outer, outer));
        assert(stack.outer.wraps(middle, outer));
        assert(stack.inner.wraps(inner, middle));
    }
}

} // verus!
