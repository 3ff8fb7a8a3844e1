use vstd::prelude::*;
use std::marker::PhantomData;
use crate::http::request::FromRequest;
use crate::http::request::FromRequestParts;
use crate::http::request::Request;
use crate::http::request::RequestView;
use crate::http::response::IntoResponse;
use crate::http::response::Rejection;
use crate::http::response::Response;
use crate::http::response::ResponseView;

verus! {

/// The uniform unit of the route table: it answers one request with one
/// response. A handler is shared by every connection and called through a
/// shared reference, so it keeps no state between calls.
pub trait Handler: Send + Sync {
    /// Whether the handler may be called on every request: what it wraps
    /// sets no condition that an extracted argument could break.
    /// Where an impl does not say, it may.
    open spec fn total(&self) -> bool {
        true
    }

    /// Whether `response` is an answer of this handler to `request`.
    /// Where an impl does not say, nothing is known.
    open spec fn handles(&self, request: RequestView, response: ResponseView) -> bool {
        true
    }

    fn call(&self, request: Request) -> (response: Response)
        requires
            self.total(),
        ensures
            self.handles(request@, response@),
    ;
}

/// A function of some number of extracted arguments, seen as a handler.
///
/// `T` is the function's signature: the tuple of its parameter types, paired
/// with the type of its result. All parameters but the last are extracted
/// from the head of the request, in the order in which they are declared; the
/// last is extracted from the whole request, which is the one step that
/// takes the body. The first extraction that fails ends the call: its
/// rejection becomes the response and the function is not called. Otherwise
/// the function is called once, on the extracted values, and its result
/// becomes the response.
///
/// For a function of `n` parameters, `accepts_n` says when the handler may
/// be called and `answers_n` what it answers.
pub struct FunctionHandler<T, F> {
    pub f: F,
    pub marker: PhantomData<T>,
}

/// A function that can be wrapped as a handler. `Input` is its signature:
/// the tuple of its parameter types, paired with the type of its result.
pub trait IntoHandler<Input>: Sized {
    type Handler: Handler;

    /// Whether the function may be called on whatever is extracted for it.
    spec fn accepts_all(&self) -> bool;

    /// Whether `response` is an answer of the wrapped function to `request`.
    spec fn answers(&self, request: RequestView, response: ResponseView) -> bool;

    /// Whether two requests are the same to the wrapped function: they have
    /// one head, and what is extracted for the last parameter, the one that
    /// is given the body, is the same for both.
    spec fn reads_alike(first: RequestView, second: RequestView) -> bool;

    fn into_handler(self) -> (handler: Self::Handler)
        ensures
            handler.total() == self.accepts_all(),
            forall|request: RequestView, response: ResponseView|
                handler.handles(request, response) == self.answers(request, response),
    ;

    /// However many parameters the function has, the body of a request
    /// reaches it through the extraction of the last one alone: two requests
    /// that differ in nothing but what that extraction makes of them are
    /// answered alike.
    proof fn lemma_body_is_read_once(
        &self,
        first: RequestView,
        second: RequestView,
        response: ResponseView,
    )
        requires
            Self::reads_alike(first, second),
        ensures
            self.answers(first, response) == self.answers(second, response),
    ;
}

/// Whether `function` may be called on whatever is extracted for it.
pub open spec fn accepts_everything<T: IntoHandler<U>, U>(function: T) -> bool {
    function.accepts_all()
}

/// Whether `response` is an answer of `function`, wrapped, to `request`.
pub open spec fn answers_as_handler<T: IntoHandler<U>, U>(
    function: T,
    request: RequestView,
    response: ResponseView,
) -> bool {
    function.answers(request, response)
}

/// One step of a handler: a value of type `T` is extracted from the head of
/// `request`. If that fails, the rejection becomes the response; otherwise
/// `next` says what follows for the value.
pub open spec fn from_head<T: FromRequestParts>(
    request: RequestView,
    response: ResponseView,
    next: spec_fn(T) -> bool,
) -> bool {
    exists|outcome: Result<T, Rejection>| #[trigger]
        T::extracted(request.head, outcome) && match outcome {
            Err(rejection) => rejection.converts_to(response),
            Ok(value) => next(value),
        }
}

/// The last extraction of a handler: a value of type `T` is extracted from
/// the whole of `request`, body included. If that fails, the rejection
/// becomes the response; otherwise `next` says what follows for the value.
pub open spec fn from_whole<T: FromRequest>(
    request: RequestView,
    response: ResponseView,
    next: spec_fn(T) -> bool,
) -> bool {
    exists|outcome: Result<T, Rejection>| #[trigger]
        T::extracted_from(request, outcome) && match outcome {
            Err(rejection) => rejection.converts_to(response),
            Ok(value) => next(value),
        }
}

/// The end of a handler: some result that the function may return, as
/// `returned` says, is converted into the response.
pub open spec fn from_result<Res: IntoResponse>(
    response: ResponseView,
    returned: spec_fn(Res) -> bool,
) -> bool {
    exists|result: Res| returned(result) && #[trigger] result.converts_to(response)
}

/// An extraction from the head does not see the body: for two requests
/// with one head, whatever their bodies are, the step is the same. So of the
/// steps of a handler only the last one, which is given the whole request,
/// reads the body, however many steps come before it.
pub proof fn lemma_head_step_ignores_body<T: FromRequestParts>(
    first: RequestView,
    second: RequestView,
    response: ResponseView,
    next: spec_fn(T) -> bool,
)
    requires
        first.head == second.head,
    ensures
        from_head::<T>(first, response, next) == from_head::<T>(second, response, next),
{
}

/// Whether a function of no parameters may be called on every argument.
pub open spec fn accepts_0<F, Res>(f: F) -> bool where
    F: Fn() -> Res + Send + Sync,
    Res: IntoResponse + Send + Sync,
 {
    call_requires(f, ())
}

/// Whether `response` is an answer to `request` of a function of
/// no parameters that is wrapped as a handler.
pub open spec fn answers_0<F, Res>(
    f: F,
    request: RequestView,
    response: ResponseView,
) -> bool where
    F: Fn() -> Res + Send + Sync,
    Res: IntoResponse + Send + Sync,
 {
    from_result::<Res>(response, |result: Res| call_ensures(f, (), result))
}

impl<F, Res> Handler for FunctionHandler<((), Res), F> where
    F: Fn() -> Res + Send + Sync,
    Res: IntoResponse + Send + Sync,
 {
    open spec fn total(&self) -> bool {
        accepts_0::<F, Res>(self.f)
    }

    open spec fn handles(&self, request: RequestView, response: ResponseView) -> bool {
        answers_0::<F, Res>(self.f, request, response)
    }

    fn call(&self, request: Request) -> (response: Response) {
        let result = (self.f)();
        result.into_response()
    }
}

impl<F, Res> IntoHandler<((), Res)> for F where
    F: Fn() -> Res + Send + Sync,
    Res: IntoResponse + Send + Sync,
 {
    type Handler = FunctionHandler<((), Res), F>;

    open spec fn accepts_all(&self) -> bool {
        accepts_0::<F, Res>(*self)
    }

    open spec fn answers(&self, request: RequestView, response: ResponseView) -> bool {
        answers_0::<F, Res>(*self, request, response)
    }

    open spec fn reads_alike(first: RequestView, second: RequestView) -> bool {
        true
    }

    fn into_handler(self) -> (handler: Self::Handler) {
        FunctionHandler { f: self, marker: PhantomData }
    }

    proof fn lemma_body_is_read_once(
        &self,
        first: RequestView,
        second: RequestView,
        response: ResponseView,
    ) {
    }
}

/// What a function of no parameters is as a handler: it may be called when
/// `accepts_0` holds of it, and it answers as `answers_0` says.
pub proof fn lemma_function_0<F, Res>(f: F) where
    F: Fn() -> Res + Send + Sync,
    Res: IntoResponse + Send + Sync,

    ensures
        accepts_everything::<F, ((), Res)>(f)
            == accepts_0::<F, Res>(f),
        forall|request: RequestView, response: ResponseView| #[trigger]
            answers_as_handler::<F, ((), Res)>(f, request, response)
                == answers_0::<F, Res>(f, request, response),
{
}

/// Whether a function of one parameter may be called on every argument.
pub open spec fn accepts_1<F, Res, T1>(f: F) -> bool where
    F: Fn(T1) -> Res + Send + Sync,
    Res: IntoResponse + Send + Sync,
    T1: FromRequest + Send + Sync,
 {
    forall|a1: T1| call_requires(f, (a1,))
}

/// Whether `response` is an answer to `request` of a function of
/// one parameter that is wrapped as a handler.
pub open spec fn answers_1<F, Res, T1>(
    f: F,
    request: RequestView,
    response: ResponseView,
) -> bool where
    F: Fn(T1) -> Res + Send + Sync,
    Res: IntoResponse + Send + Sync,
    T1: FromRequest + Send + Sync,
 {
    from_whole::<T1>(request, response, |a1: T1|
        from_result::<Res>(response, |result: Res| call_ensures(f, (a1,), result)))
}

impl<F, Res, T1> Handler for FunctionHandler<((T1,), Res), F> where
    F: Fn(T1) -> Res + Send + Sync,
    Res: IntoResponse + Send + Sync,
    T1: FromRequest + Send + Sync,
 {
    open spec fn total(&self) -> bool {
        accepts_1::<F, Res, T1>(self.f)
    }

    open spec fn handles(&self, request: RequestView, response: ResponseView) -> bool {
        answers_1::<F, Res, T1>(self.f, request, response)
    }

    fn call(&self, request: Request) -> (response: Response) {
        let a1 = match T1::from_request(request) {
            Ok(value) => value,
            Err(rejection) => {
                return rejection.into_response();
            },
        };
        let result = (self.f)(a1);
        result.into_response()
    }
}

impl<F, Res, T1> IntoHandler<((T1,), Res)> for F where
    F: Fn(T1) -> Res + Send + Sync,
    Res: IntoResponse + Send + Sync,
    T1: FromRequest + Send + Sync,
 {
    type Handler = FunctionHandler<((T1,), Res), F>;

    open spec fn accepts_all(&self) -> bool {
        accepts_1::<F, Res, T1>(*self)
    }

    open spec fn answers(&self, request: RequestView, response: ResponseView) -> bool {
        answers_1::<F, Res, T1>(*self, request, response)
    }

    open spec fn reads_alike(first: RequestView, second: RequestView) -> bool {
        &&& first.head == second.head
        &&& forall|outcome: Result<T1, Rejection>|
            T1::extracted_from(first, outcome) == T1::extracted_from(second, outcome)
    }

    fn into_handler(self) -> (handler: Self::Handler) {
        FunctionHandler { f: self, marker: PhantomData }
    }

    proof fn lemma_body_is_read_once(
        &self,
        first: RequestView,
        second: RequestView,
        response: ResponseView,
    ) {
    }
}

/// What a function of one parameter is as a handler: it may be called when
/// `accepts_1` holds of it, and it answers as `answers_1` says.
pub proof fn lemma_function_1<F, Res, T1>(f: F) where
    F: Fn(T1) -> Res + Send + Sync,
    Res: IntoResponse + Send + Sync,
    T1: FromRequest + Send + Sync,

    ensures
        accepts_everything::<F, ((T1,), Res)>(f)
            == accepts_1::<F, Res, T1>(f),
        forall|request: RequestView, response: ResponseView| #[trigger]
            answers_as_handler::<F, ((T1,), Res)>(f, request, response)
                == answers_1::<F, Res, T1>(f, request, response),
{
}

/// Whether a function of 2 parameters may be called on every argument.
pub open spec fn accepts_2<F, Res, T1, T2>(f: F) -> bool where
    F: Fn(T1, T2) -> Res + Send + Sync,
    Res: IntoResponse + Send + Sync,
    T1: FromRequestParts + Send + Sync,
    T2: FromRequest + Send + Sync,
 {
    forall|a1: T1, a2: T2| call_requires(f, (a1, a2))
}

/// Whether `response` is an answer to `request` of a function of
/// 2 parameters that is wrapped as a handler.
pub open spec fn answers_2<F, Res, T1, T2>(
    f: F,
    request: RequestView,
    response: ResponseView,
) -> bool where
    F: Fn(T1, T2) -> Res + Send + Sync,
    Res: IntoResponse + Send + Sync,
    T1: FromRequestParts + Send + Sync,
    T2: FromRequest + Send + Sync,
 {
    from_head::<T1>(request, response, |a1: T1|
    from_whole::<T2>(request, response, |a2: T2|
        from_result::<Res>(response, |result: Res| call_ensures(f, (a1, a2), result))))
}

impl<F, Res, T1, T2> Handler for FunctionHandler<((T1, T2), Res), F> where
    F: Fn(T1, T2) -> Res + Send + Sync,
    Res: IntoResponse + Send + Sync,
    T1: FromRequestParts + Send + Sync,
    T2: FromRequest + Send + Sync,
 {
    open spec fn total(&self) -> bool {
        accepts_2::<F, Res, T1, T2>(self.f)
    }

    open spec fn handles(&self, request: RequestView, response: ResponseView) -> bool {
        answers_2::<F, Res, T1, T2>(self.f, request, response)
    }

    fn call(&self, request: Request) -> (response: Response) {
        let ghost whole = request@;
        let (parts, body) = request.into_parts();
        assert(parts@ == whole.head);
        let a1 = match T1::from_request_parts(&parts) {
            Ok(value) => value,
            Err(rejection) => {
                return rejection.into_response();
            },
        };
        let request = Request::from_parts(parts, body);
        assert(request@ == whole);
        let a2 = match T2::from_request(request) {
            Ok(value) => value,
            Err(rejection) => {
                return rejection.into_response();
            },
        };
        let result = (self.f)(a1, a2);
        result.into_response()
    }
}

impl<F, Res, T1, T2> IntoHandler<((T1, T2), Res)> for F where
    F: Fn(T1, T2) -> Res + Send + Sync,
    Res: IntoResponse + Send + Sync,
    T1: FromRequestParts + Send + Sync,
    T2: FromRequest + Send + Sync,
 {
    type Handler = FunctionHandler<((T1, T2), Res), F>;

    open spec fn accepts_all(&self) -> bool {
        accepts_2::<F, Res, T1, T2>(*self)
    }

    open spec fn answers(&self, request: RequestView, response: ResponseView) -> bool {
        answers_2::<F, Res, T1, T2>(*self, request, response)
    }

    open spec fn reads_alike(first: RequestView, second: RequestView) -> bool {
        &&& first.head == second.head
        &&& forall|outcome: Result<T2, Rejection>|
            T2::extracted_from(first, outcome) == T2::extracted_from(second, outcome)
    }

    fn into_handler(self) -> (handler: Self::Handler) {
        FunctionHandler { f: self, marker: PhantomData }
    }

    proof fn lemma_body_is_read_once(
        &self,
        first: RequestView,
        second: RequestView,
        response: ResponseView,
    ) {
    }
}

/// What a function of 2 parameters is as a handler: it may be called when
/// `accepts_2` holds of it, and it answers as `answers_2` says.
pub proof fn lemma_function_2<F, Res, T1, T2>(f: F) where
    F: Fn(T1, T2) -> Res + Send + Sync,
    Res: IntoResponse + Send + Sync,
    T1: FromRequestParts + Send + Sync,
    T2: FromRequest + Send + Sync,

    ensures
        accepts_everything::<F, ((T1, T2), Res)>(f)
            == accepts_2::<F, Res, T1, T2>(f),
        forall|request: RequestView, response: ResponseView| #[trigger]
            answers_as_handler::<F, ((T1, T2), Res)>(f, request, response)
                == answers_2::<F, Res, T1, T2>(f, request, response),
{
}

/// Whether a function of 3 parameters may be called on every argument.
pub open spec fn accepts_3<F, Res, T1, T2, T3>(f: F) -> bool where
    F: Fn(T1, T2, T3) -> Res + Send + Sync,
    Res: IntoResponse + Send + Sync,
    T1: FromRequestParts + Send + Sync,
    T2: FromRequestParts + Send + Sync,
    T3: FromRequest + Send + Sync,
 {
    forall|a1: T1, a2: T2, a3: T3| call_requires(f, (a1, a2, a3))
}

/// Whether `response` is an answer to `request` of a function of
/// 3 parameters that is wrapped as a handler.
pub open spec fn answers_3<F, Res, T1, T2, T3>(
    f: F,
    request: RequestView,
    response: ResponseView,
) -> bool where
    F: Fn(T1, T2, T3) -> Res + Send + Sync,
    Res: IntoResponse + Send + Sync,
    T1: FromRequestParts + Send + Sync,
    T2: FromRequestParts + Send + Sync,
    T3: FromRequest + Send + Sync,
 {
    from_head::<T1>(request, response, |a1: T1|
    from_head::<T2>(request, response, |a2: T2|
    from_whole::<T3>(request, response, |a3: T3|
        from_result::<Res>(response, |result: Res| call_ensures(f, (a1, a2, a3), result)))))
}

impl<F, Res, T1, T2, T3> Handler for FunctionHandler<((T1, T2, T3), Res), F> where
    F: Fn(T1, T2, T3) -> Res + Send + Sync,
    Res: IntoResponse + Send + Sync,
    T1: FromRequestParts + Send + Sync,
    T2: FromRequestParts + Send + Sync,
    T3: FromRequest + Send + Sync,
 {
    open spec fn total(&self) -> bool {
        accepts_3::<F, Res, T1, T2, T3>(self.f)
    }

    open spec fn handles(&self, request: RequestView, response: ResponseView) -> bool {
        answers_3::<F, Res, T1, T2, T3>(self.f, request, response)
    }

    fn call(&self, request: Request) -> (response: Response) {
        let ghost whole = request@;
        let (parts, body) = request.into_parts();
        assert(parts@ == whole.head);
        let a1 = match T1::from_request_parts(&parts) {
            Ok(value) => value,
            Err(rejection) => {
                return rejection.into_response();
            },
        };
        let a2 = match T2::from_request_parts(&parts) {
            Ok(value) => value,
            Err(rejection) => {
                return rejection.into_response();
            },
        };
        let request = Request::from_parts(parts, body);
        assert(request@ == whole);
        let a3 = match T3::from_request(request) {
            Ok(value) => value,
            Err(rejection) => {
                return rejection.into_response();
            },
        };
        let result = (self.f)(a1, a2, a3);
        result.into_response()
    }
}

impl<F, Res, T1, T2, T3> IntoHandler<((T1, T2, T3), Res)> for F where
    F: Fn(T1, T2, T3) -> Res + Send + Sync,
    Res: IntoResponse + Send + Sync,
    T1: FromRequestParts + Send + Sync,
    T2: FromRequestParts + Send + Sync,
    T3: FromRequest + Send + Sync,
 {
    type Handler = FunctionHandler<((T1, T2, T3), Res), F>;

    open spec fn accepts_all(&self) -> bool {
        accepts_3::<F, Res, T1, T2, T3>(*self)
    }

    open spec fn answers(&self, request: RequestView, response: ResponseView) -> bool {
        answers_3::<F, Res, T1, T2, T3>(*self, request, response)
    }

    open spec fn reads_alike(first: RequestView, second: RequestView) -> bool {
        &&& first.head == second.head
        &&& forall|outcome: Result<T3, Rejection>|
            T3::extracted_from(first, outcome) == T3::extracted_from(second, outcome)
    }

    fn into_handler(self) -> (handler: Self::Handler) {
        FunctionHandler { f: self, marker: PhantomData }
    }

    proof fn lemma_body_is_read_once(
        &self,
        first: RequestView,
        second: RequestView,
        response: ResponseView,
    ) {
    }
}

/// What a function of 3 parameters is as a handler: it may be called when
/// `accepts_3` holds of it, and it answers as `answers_3` says.
pub proof fn lemma_function_3<F, Res, T1, T2, T3>(f: F) where
    F: Fn(T1, T2, T3) -> Res + Send + Sync,
    Res: IntoResponse + Send + Sync,
    T1: FromRequestParts + Send + Sync,
    T2: FromRequestParts + Send + Sync,
    T3: FromRequest + Send + Sync,

    ensures
        accepts_everything::<F, ((T1, T2, T3), Res)>(f)
            == accepts_3::<F, Res, T1, T2, T3>(f),
        forall|request: RequestView, response: ResponseView| #[trigger]
            answers_as_handler::<F, ((T1, T2, T3), Res)>(f, request, response)
                == answers_3::<F, Res, T1, T2, T3>(f, request, response),
{
}

/// Whether a function of 4 parameters may be called on every argument.
pub open spec fn accepts_4<F, Res, T1, T2, T3, T4>(f: F) -> bool where
    F: Fn(T1, T2, T3, T4) -> Res + Send + Sync,
    Res: IntoResponse + Send + Sync,
    T1: FromRequestParts + Send + Sync,
    T2: FromRequestParts + Send + Sync,
    T3: FromRequestParts + Send + Sync,
    T4: FromRequest + Send + Sync,
 {
    forall|a1: T1, a2: T2, a3: T3, a4: T4| call_requires(f, (a1, a2, a3, a4))
}

/// Whether `response` is an answer to `request` of a function of
/// 4 parameters that is wrapped as a handler.
pub open spec fn answers_4<F, Res, T1, T2, T3, T4>(
    f: F,
    request: RequestView,
    response: ResponseView,
) -> bool where
    F: Fn(T1, T2, T3, T4) -> Res + Send + Sync,
    Res: IntoResponse + Send + Sync,
    T1: FromRequestParts + Send + Sync,
    T2: FromRequestParts + Send + Sync,
    T3: FromRequestParts + Send + Sync,
    T4: FromRequest + Send + Sync,
 {
    from_head::<T1>(request, response, |a1: T1|
    from_head::<T2>(request, response, |a2: T2|
    from_head::<T3>(request, response, |a3: T3|
    from_whole::<T4>(request, response, |a4: T4|
        from_result::<Res>(response, |result: Res| call_ensures(f, (a1, a2, a3, a4), result))))))
}

impl<F, Res, T1, T2, T3, T4> Handler for FunctionHandler<((T1, T2, T3, T4), Res), F> where
    F: Fn(T1, T2, T3, T4) -> Res + Send + Sync,
    Res: IntoResponse + Send + Sync,
    T1: FromRequestParts + Send + Sync,
    T2: FromRequestParts + Send + Sync,
    T3: FromRequestParts + Send + Sync,
    T4: FromRequest + Send + Sync,
 {
    open spec fn total(&self) -> bool {
        accepts_4::<F, Res, T1, T2, T3, T4>(self.f)
    }

    open spec fn handles(&self, request: RequestView, response: ResponseView) -> bool {
        answers_4::<F, Res, T1, T2, T3, T4>(self.f, request, response)
    }

    fn call(&self, request: Request) -> (response: Response) {
        let ghost whole = request@;
        let (parts, body) = request.into_parts();
        assert(parts@ == whole.head);
        let a1 = match T1::from_request_parts(&parts) {
            Ok(value) => value,
            Err(rejection) => {
                return rejection.into_response();
            },
        };
        let a2 = match T2::from_request_parts(&parts) {
            Ok(value) => value,
            Err(rejection) => {
                return rejection.into_response();
            },
        };
        let a3 = match T3::from_request_parts(&parts) {
            Ok(value) => value,
            Err(rejection) => {
                return rejection.into_response();
            },
        };
        let request = Request::from_parts(parts, body);
        assert(request@ == whole);
        let a4 = match T4::from_request(request) {
            Ok(value) => value,
            Err(rejection) => {
                return rejection.into_response();
            },
        };
        let result = (self.f)(a1, a2, a3, a4);
        result.into_response()
    }
}

impl<F, Res, T1, T2, T3, T4> IntoHandler<((T1, T2, T3, T4), Res)> for F where
    F: Fn(T1, T2, T3, T4) -> Res + Send + Sync,
    Res: IntoResponse + Send + Sync,
    T1: FromRequestParts + Send + Sync,
    T2: FromRequestParts + Send + Sync,
    T3: FromRequestParts + Send + Sync,
    T4: FromRequest + Send + Sync,
 {
    type Handler = FunctionHandler<((T1, T2, T3, T4), Res), F>;

    open spec fn accepts_all(&self) -> bool {
        accepts_4::<F, Res, T1, T2, T3, T4>(*self)
    }

    open spec fn answers(&self, request: RequestView, response: ResponseView) -> bool {
        answers_4::<F, Res, T1, T2, T3, T4>(*self, request, response)
    }

    open spec fn reads_alike(first: RequestView, second: RequestView) -> bool {
        &&& first.head == second.head
        &&& forall|outcome: Result<T4, Rejection>|
            T4::extracted_from(first, outcome) == T4::extracted_from(second, outcome)
    }

    fn into_handler(self) -> (handler: Self::Handler) {
        FunctionHandler { f: self, marker: PhantomData }
    }

    proof fn lemma_body_is_read_once(
        &self,
        first: RequestView,
        second: RequestView,
        response: ResponseView,
    ) {
    }
}

/// What a function of 4 parameters is as a handler: it may be called when
/// `accepts_4` holds of it, and it answers as `answers_4` says.
pub proof fn lemma_function_4<F, Res, T1, T2, T3, T4>(f: F) where
    F: Fn(T1, T2, T3, T4) -> Res + Send + Sync,
    Res: IntoResponse + Send + Sync,
    T1: FromRequestParts + Send + Sync,
    T2: FromRequestParts + Send + Sync,
    T3: FromRequestParts + Send + Sync,
    T4: FromRequest + Send + Sync,

    ensures
        accepts_everything::<F, ((T1, T2, T3, T4), Res)>(f)
            == accepts_4::<F, Res, T1, T2, T3, T4>(f),
        forall|request: RequestView, response: ResponseView| #[trigger]
            answers_as_handler::<F, ((T1, T2, T3, T4), Res)>(f, request, response)
                == answers_4::<F, Res, T1, T2, T3, T4>(f, request, response),
{
}

/// Whether a function of 5 parameters may be called on every argument.
pub open spec fn accepts_5<F, Res, T1, T2, T3, T4, T5>(f: F) -> bool where
    F: Fn(T1, T2, T3, T4, T5) -> Res + Send + Sync,
    Res: IntoResponse + Send + Sync,
    T1: FromRequestParts + Send + Sync,
    T2: FromRequestParts + Send + Sync,
    T3: FromRequestParts + Send + Sync,
    T4: FromRequestParts + Send + Sync,
    T5: FromRequest + Send + Sync,
 {
    forall|a1: T1, a2: T2, a3: T3, a4: T4, a5: T5| call_requires(f, (a1, a2, a3, a4, a5))
}

/// Whether `response` is an answer to `request` of a function of
/// 5 parameters that is wrapped as a handler.
pub open spec fn answers_5<F, Res, T1, T2, T3, T4, T5>(
    f: F,
    request: RequestView,
    response: ResponseView,
) -> bool where
    F: Fn(T1, T2, T3, T4, T5) -> Res + Send + Sync,
    Res: IntoResponse + Send + Sync,
    T1: FromRequestParts + Send + Sync,
    T2: FromRequestParts + Send + Sync,
    T3: FromRequestParts + Send + Sync,
    T4: FromRequestParts + Send + Sync,
    T5: FromRequest + Send + Sync,
 {
    from_head::<T1>(request, response, |a1: T1|
    from_head::<T2>(request, response, |a2: T2|
    from_head::<T3>(request, response, |a3: T3|
    from_head::<T4>(request, response, |a4: T4|
    from_whole::<T5>(request, response, |a5: T5|
        from_result::<Res>(response, |result: Res|
            call_ensures(f, (a1, a2, a3, a4, a5), result)))))))
}

impl<F, Res, T1, T2, T3, T4, T5> Handler for FunctionHandler<((T1, T2, T3, T4, T5), Res), F> where
    F: Fn(T1, T2, T3, T4, T5) -> Res + Send + Sync,
    Res: IntoResponse + Send + Sync,
    T1: FromRequestParts + Send + Sync,
    T2: FromRequestParts + Send + Sync,
    T3: FromRequestParts + Send + Sync,
    T4: FromRequestParts + Send + Sync,
    T5: FromRequest + Send + Sync,
 {
    open spec fn total(&self) -> bool {
        accepts_5::<F, Res, T1, T2, T3, T4, T5>(self.f)
    }

    open spec fn handles(&self, request: RequestView, response: ResponseView) -> bool {
        answers_5::<F, Res, T1, T2, T3, T4, T5>(self.f, request, response)
    }

    fn call(&self, request: Request) -> (response: Response) {
        let ghost whole = request@;
        let (parts, body) = request.into_parts();
        assert(parts@ == whole.head);
        let a1 = match T1::from_request_parts(&parts) {
            Ok(value) => value,
            Err(rejection) => {
                return rejection.into_response();
            },
        };
        let a2 = match T2::from_request_parts(&parts) {
            Ok(value) => value,
            Err(rejection) => {
                return rejection.into_response();
            },
        };
        let a3 = match T3::from_request_parts(&parts) {
            Ok(value) => value,
            Err(rejection) => {
                return rejection.into_response();
            },
        };
        let a4 = match T4::from_request_parts(&parts) {
            Ok(value) => value,
            Err(rejection) => {
                return rejection.into_response();
            },
        };
        let request = Request::from_parts(parts, body);
        assert(request@ == whole);
        let a5 = match T5::from_request(request) {
            Ok(value) => value,
            Err(rejection) => {
                return rejection.into_response();
            },
        };
        let result = (self.f)(a1, a2, a3, a4, a5);
        result.into_response()
    }
}

impl<F, Res, T1, T2, T3, T4, T5> IntoHandler<((T1, T2, T3, T4, T5), Res)> for F where
    F: Fn(T1, T2, T3, T4, T5) -> Res + Send + Sync,
    Res: IntoResponse + Send + Sync,
    T1: FromRequestParts + Send + Sync,
    T2: FromRequestParts + Send + Sync,
    T3: FromRequestParts + Send + Sync,
    T4: FromRequestParts + Send + Sync,
    T5: FromRequest + Send + Sync,
 {
    type Handler = FunctionHandler<((T1, T2, T3, T4, T5), Res), F>;

    open spec fn accepts_all(&self) -> bool {
        accepts_5::<F, Res, T1, T2, T3, T4, T5>(*self)
    }

    open spec fn answers(&self, request: RequestView, response: ResponseView) -> bool {
        answers_5::<F, Res, T1, T2, T3, T4, T5>(*self, request, response)
    }

    open spec fn reads_alike(first: RequestView, second: RequestView) -> bool {
        &&& first.head == second.head
        &&& forall|outcome: Result<T5, Rejection>|
            T5::extracted_from(first, outcome) == T5::extracted_from(second, outcome)
    }

    fn into_handler(self) -> (handler: Self::Handler) {
        FunctionHandler { f: self, marker: PhantomData }
    }

    proof fn lemma_body_is_read_once(
        &self,
        first: RequestView,
        second: RequestView,
        response: ResponseView,
    ) {
    }
}

/// What a function of 5 parameters is as a handler: it may be called when
/// `accepts_5` holds of it, and it answers as `answers_5` says.
pub proof fn lemma_function_5<F, Res, T1, T2, T3, T4, T5>(f: F) where
    F: Fn(T1, T2, T3, T4, T5) -> Res + Send + Sync,
    Res: IntoResponse + Send + Sync,
    T1: FromRequestParts + Send + Sync,
    T2: FromRequestParts + Send + Sync,
    T3: FromRequestParts + Send + Sync,
    T4: FromRequestParts + Send + Sync,
    T5: FromRequest + Send + Sync,

    ensures
        accepts_everything::<F, ((T1, T2, T3, T4, T5), Res)>(f)
            == accepts_5::<F, Res, T1, T2, T3, T4, T5>(f),
        forall|request: RequestView, response: ResponseView| #[trigger]
            answers_as_handler::<F, ((T1, T2, T3, T4, T5), Res)>(f, request, response)
                == answers_5::<F, Res, T1, T2, T3, T4, T5>(f, request, response),
{
}

/// Whether a function of 6 parameters may be called on every argument.
pub open spec fn accepts_6<F, Res, T1, T2, T3, T4, T5, T6>(f: F) -> bool where
    F: Fn(T1, T2, T3, T4, T5, T6) -> Res + Send + Sync,
    Res: IntoResponse + Send + Sync,
    T1: FromRequestParts + Send + Sync,
    T2: FromRequestParts + Send + Sync,
    T3: FromRequestParts + Send + Sync,
    T4: FromRequestParts + Send + Sync,
    T5: FromRequestParts + Send + Sync,
    T6: FromRequest + Send + Sync,
 {
    forall|
        a1: T1, a2: T2, a3: T3, a4: T4, a5: T5, a6: T6,
    |
        call_requires(f, (a1, a2, a3, a4, a5, a6))
}

/// Whether `response` is an answer to `request` of a function of
/// 6 parameters that is wrapped as a handler.
pub open spec fn answers_6<F, Res, T1, T2, T3, T4, T5, T6>(
    f: F,
    request: RequestView,
    response: ResponseView,
) -> bool where
    F: Fn(T1, T2, T3, T4, T5, T6) -> Res + Send + Sync,
    Res: IntoResponse + Send + Sync,
    T1: FromRequestParts + Send + Sync,
    T2: FromRequestParts + Send + Sync,
    T3: FromRequestParts + Send + Sync,
    T4: FromRequestParts + Send + Sync,
    T5: FromRequestParts + Send + Sync,
    T6: FromRequest + Send + Sync,
 {
    from_head::<T1>(request, response, |a1: T1|
    from_head::<T2>(request, response, |a2: T2|
    from_head::<T3>(request, response, |a3: T3|
    from_head::<T4>(request, response, |a4: T4|
    from_head::<T5>(request, response, |a5: T5|
    from_whole::<T6>(request, response, |a6: T6|
        from_result::<Res>(response, |result: Res|
            call_ensures(f, (a1, a2, a3, a4, a5, a6), result))))))))
}

impl<F, Res, T1, T2, T3, T4, T5, T6> Handler for FunctionHandler<(
    (T1, T2, T3, T4, T5, T6),
    Res,
), F> where
    F: Fn(T1, T2, T3, T4, T5, T6) -> Res + Send + Sync,
    Res: IntoResponse + Send + Sync,
    T1: FromRequestParts + Send + Sync,
    T2: FromRequestParts + Send + Sync,
    T3: FromRequestParts + Send + Sync,
    T4: FromRequestParts + Send + Sync,
    T5: FromRequestParts + Send + Sync,
    T6: FromRequest + Send + Sync,
 {
    open spec fn total(&self) -> bool {
        accepts_6::<F, Res, T1, T2, T3, T4, T5, T6>(self.f)
    }

    open spec fn handles(&self, request: RequestView, response: ResponseView) -> bool {
        answers_6::<F, Res, T1, T2, T3, T4, T5, T6>(self.f, request, response)
    }

    fn call(&self, request: Request) -> (response: Response) {
        let ghost whole = request@;
        let (parts, body) = request.into_parts();
        assert(parts@ == whole.head);
        let a1 = match T1::from_request_parts(&parts) {
            Ok(value) => value,
            Err(rejection) => {
                return rejection.into_response();
            },
        };
        let a2 = match T2::from_request_parts(&parts) {
            Ok(value) => value,
            Err(rejection) => {
                return rejection.into_response();
            },
        };
        let a3 = match T3::from_request_parts(&parts) {
            Ok(value) => value,
            Err(rejection) => {
                return rejection.into_response();
            },
        };
        let a4 = match T4::from_request_parts(&parts) {
            Ok(value) => value,
            Err(rejection) => {
                return rejection.into_response();
            },
        };
        let a5 = match T5::from_request_parts(&parts) {
            Ok(value) => value,
            Err(rejection) => {
                return rejection.into_response();
            },
        };
        let request = Request::from_parts(parts, body);
        assert(request@ == whole);
        let a6 = match T6::from_request(request) {
            Ok(value) => value,
            Err(rejection) => {
                return rejection.into_response();
            },
        };
        let result = (self.f)(a1, a2, a3, a4, a5, a6);
        result.into_response()
    }
}

impl<F, Res, T1, T2, T3, T4, T5, T6> IntoHandler<((T1, T2, T3, T4, T5, T6), Res)> for F where
    F: Fn(T1, T2, T3, T4, T5, T6) -> Res + Send + Sync,
    Res: IntoResponse + Send + Sync,
    T1: FromRequestParts + Send + Sync,
    T2: FromRequestParts + Send + Sync,
    T3: FromRequestParts + Send + Sync,
    T4: FromRequestParts + Send + Sync,
    T5: FromRequestParts + Send + Sync,
    T6: FromRequest + Send + Sync,
 {
    type Handler = FunctionHandler<((T1, T2, T3, T4, T5, T6), Res), F>;

    open spec fn accepts_all(&self) -> bool {
        accepts_6::<F, Res, T1, T2, T3, T4, T5, T6>(*self)
    }

    open spec fn answers(&self, request: RequestView, response: ResponseView) -> bool {
        answers_6::<F, Res, T1, T2, T3, T4, T5, T6>(*self, request, response)
    }

    open spec fn reads_alike(first: RequestView, second: RequestView) -> bool {
        &&& first.head == second.head
        &&& forall|outcome: Result<T6, Rejection>|
            T6::extracted_from(first, outcome) == T6::extracted_from(second, outcome)
    }

    fn into_handler(self) -> (handler: Self::Handler) {
        FunctionHandler { f: self, marker: PhantomData }
    }

    proof fn lemma_body_is_read_once(
        &self,
        first: RequestView,
        second: RequestView,
        response: ResponseView,
    ) {
    }
}

/// What a function of 6 parameters is as a handler: it may be called when
/// `accepts_6` holds of it, and it answers as `answers_6` says.
pub proof fn lemma_function_6<F, Res, T1, T2, T3, T4, T5, T6>(f: F) where
    F: Fn(T1, T2, T3, T4, T5, T6) -> Res + Send + Sync,
    Res: IntoResponse + Send + Sync,
    T1: FromRequestParts + Send + Sync,
    T2: FromRequestParts + Send + Sync,
    T3: FromRequestParts + Send + Sync,
    T4: FromRequestParts + Send + Sync,
    T5: FromRequestParts + Send + Sync,
    T6: FromRequest + Send + Sync,

    ensures
        accepts_everything::<F, ((T1, T2, T3, T4, T5, T6), Res)>(f)
            == accepts_6::<F, Res, T1, T2, T3, T4, T5, T6>(f),
        forall|request: RequestView, response: ResponseView| #[trigger]
            answers_as_handler::<F, ((T1, T2, T3, T4, T5, T6), Res)>(f, request, response)
                == answers_6::<F, Res, T1, T2, T3, T4, T5, T6>(f, request, response),
{
}

/// Whether a function of 7 parameters may be called on every argument.
pub open spec fn accepts_7<F, Res, T1, T2, T3, T4, T5, T6, T7>(f: F) -> bool where
    F: Fn(T1, T2, T3, T4, T5, T6, T7) -> Res + Send + Sync,
    Res: IntoResponse + Send + Sync,
    T1: FromRequestParts + Send + Sync,
    T2: FromRequestParts + Send + Sync,
    T3: FromRequestParts + Send + Sync,
    T4: FromRequestParts + Send + Sync,
    T5: FromRequestParts + Send + Sync,
    T6: FromRequestParts + Send + Sync,
    T7: FromRequest + Send + Sync,
 {
    forall|
        a1: T1, a2: T2, a3: T3, a4: T4, a5: T5, a6: T6, a7: T7,
    |
        call_requires(f, (a1, a2, a3, a4, a5, a6, a7))
}

/// Whether `response` is an answer to `request` of a function of
/// 7 parameters that is wrapped as a handler.
pub open spec fn answers_7<F, Res, T1, T2, T3, T4, T5, T6, T7>(
    f: F,
    request: RequestView,
    response: ResponseView,
) -> bool where
    F: Fn(T1, T2, T3, T4, T5, T6, T7) -> Res + Send + Sync,
    Res: IntoResponse + Send + Sync,
    T1: FromRequestParts + Send + Sync,
    T2: FromRequestParts + Send + Sync,
    T3: FromRequestParts + Send + Sync,
    T4: FromRequestParts + Send + Sync,
    T5: FromRequestParts + Send + Sync,
    T6: FromRequestParts + Send + Sync,
    T7: FromRequest + Send + Sync,
 {
    from_head::<T1>(request, response, |a1: T1|
    from_head::<T2>(request, response, |a2: T2|
    from_head::<T3>(request, response, |a3: T3|
    from_head::<T4>(request, response, |a4: T4|
    from_head::<T5>(request, response, |a5: T5|
    from_head::<T6>(request, response, |a6: T6|
    from_whole::<T7>(request, response, |a7: T7|
        from_result::<Res>(response, |result: Res|
            call_ensures(f, (a1, a2, a3, a4, a5, a6, a7), result)))))))))
}

impl<F, Res, T1, T2, T3, T4, T5, T6, T7> Handler for FunctionHandler<(
    (T1, T2, T3, T4, T5, T6, T7),
    Res,
), F> where
    F: Fn(T1, T2, T3, T4, T5, T6, T7) -> Res + Send + Sync,
    Res: IntoResponse + Send + Sync,
    T1: FromRequestParts + Send + Sync,
    T2: FromRequestParts + Send + Sync,
    T3: FromRequestParts + Send + Sync,
    T4: FromRequestParts + Send + Sync,
    T5: FromRequestParts + Send + Sync,
    T6: FromRequestParts + Send + Sync,
    T7: FromRequest + Send + Sync,
 {
    open spec fn total(&self) -> bool {
        accepts_7::<F, Res, T1, T2, T3, T4, T5, T6, T7>(self.f)
    }

    open spec fn handles(&self, request: RequestView, response: ResponseView) -> bool {
        answers_7::<F, Res, T1, T2, T3, T4, T5, T6, T7>(self.f, request, response)
    }

    fn call(&self, request: Request) -> (response: Response) {
        let ghost whole = request@;
        let (parts, body) = request.into_parts();
        assert(parts@ == whole.head);
        let a1 = match T1::from_request_parts(&parts) {
            Ok(value) => value,
            Err(rejection) => {
                return rejection.into_response();
            },
        };
        let a2 = match T2::from_request_parts(&parts) {
            Ok(value) => value,
            Err(rejection) => {
                return rejection.into_response();
            },
        };
        let a3 = match T3::from_request_parts(&parts) {
            Ok(value) => value,
            Err(rejection) => {
                return rejection.into_response();
            },
        };
        let a4 = match T4::from_request_parts(&parts) {
            Ok(value) => value,
            Err(rejection) => {
                return rejection.into_response();
            },
        };
        let a5 = match T5::from_request_parts(&parts) {
            Ok(value) => value,
            Err(rejection) => {
                return rejection.into_response();
            },
        };
        let a6 = match T6::from_request_parts(&parts) {
            Ok(value) => value,
            Err(rejection) => {
                return rejection.into_response();
            },
        };
        let request = Request::from_parts(parts, body);
        assert(request@ == whole);
        let a7 = match T7::from_request(request) {
            Ok(value) => value,
            Err(rejection) => {
                return rejection.into_response();
            },
        };
        let result = (self.f)(a1, a2, a3, a4, a5, a6, a7);
        result.into_response()
    }
}

impl<F, Res, T1, T2, T3, T4, T5, T6, T7> IntoHandler<(
    (T1, T2, T3, T4, T5, T6, T7),
    Res,
)> for F where
    F: Fn(T1, T2, T3, T4, T5, T6, T7) -> Res + Send + Sync,
    Res: IntoResponse + Send + Sync,
    T1: FromRequestParts + Send + Sync,
    T2: FromRequestParts + Send + Sync,
    T3: FromRequestParts + Send + Sync,
    T4: FromRequestParts + Send + Sync,
    T5: FromRequestParts + Send + Sync,
    T6: FromRequestParts + Send + Sync,
    T7: FromRequest + Send + Sync,
 {
    type Handler = FunctionHandler<((T1, T2, T3, T4, T5, T6, T7), Res), F>;

    open spec fn accepts_all(&self) -> bool {
        accepts_7::<F, Res, T1, T2, T3, T4, T5, T6, T7>(*self)
    }

    open spec fn answers(&self, request: RequestView, response: ResponseView) -> bool {
        answers_7::<F, Res, T1, T2, T3, T4, T5, T6, T7>(*self, request, response)
    }

    open spec fn reads_alike(first: RequestView, second: RequestView) -> bool {
        &&& first.head == second.head
        &&& forall|outcome: Result<T7, Rejection>|
            T7::extracted_from(first, outcome) == T7::extracted_from(second, outcome)
    }

    fn into_handler(self) -> (handler: Self::Handler) {
        FunctionHandler { f: self, marker: PhantomData }
    }

    proof fn lemma_body_is_read_once(
        &self,
        first: RequestView,
        second: RequestView,
        response: ResponseView,
    ) {
    }
}

/// What a function of 7 parameters is as a handler: it may be called when
/// `accepts_7` holds of it, and it answers as `answers_7` says.
pub proof fn lemma_function_7<F, Res, T1, T2, T3, T4, T5, T6, T7>(f: F) where
    F: Fn(T1, T2, T3, T4, T5, T6, T7) -> Res + Send + Sync,
    Res: IntoResponse + Send + Sync,
    T1: FromRequestParts + Send + Sync,
    T2: FromRequestParts + Send + Sync,
    T3: FromRequestParts + Send + Sync,
    T4: FromRequestParts + Send + Sync,
    T5: FromRequestParts + Send + Sync,
    T6: FromRequestParts + Send + Sync,
    T7: FromRequest + Send + Sync,

    ensures
        accepts_everything::<F, ((T1, T2, T3, T4, T5, T6, T7), Res)>(f)
            == accepts_7::<F, Res, T1, T2, T3, T4, T5, T6, T7>(f),
        forall|request: RequestView, response: ResponseView| #[trigger]
            answers_as_handler::<F, ((T1, T2, T3, T4, T5, T6, T7), Res)>(f, request, response)
                == answers_7::<F, Res, T1, T2, T3, T4, T5, T6, T7>(f, request, response),
{
}

/// Whether a function of 8 parameters may be called on every argument.
pub open spec fn accepts_8<F, Res, T1, T2, T3, T4, T5, T6, T7, T8>(f: F) -> bool where
    F: Fn(T1, T2, T3, T4, T5, T6, T7, T8) -> Res + Send + Sync,
    Res: IntoResponse + Send + Sync,
    T1: FromRequestParts + Send + Sync,
    T2: FromRequestParts + Send + Sync,
    T3: FromRequestParts + Send + Sync,
    T4: FromRequestParts + Send + Sync,
    T5: FromRequestParts + Send + Sync,
    T6: FromRequestParts + Send + Sync,
    T7: FromRequestParts + Send + Sync,
    T8: FromRequest + Send + Sync,
 {
    forall|
        a1: T1, a2: T2, a3: T3, a4: T4, a5: T5, a6: T6, a7: T7, a8: T8,
    |
        call_requires(f, (a1, a2, a3, a4, a5, a6, a7, a8))
}

/// Whether `response` is an answer to `request` of a function of
/// 8 parameters that is wrapped as a handler.
pub open spec fn answers_8<F, Res, T1, T2, T3, T4, T5, T6, T7, T8>(
    f: F,
    request: RequestView,
    response: ResponseView,
) -> bool where
    F: Fn(T1, T2, T3, T4, T5, T6, T7, T8) -> Res + Send + Sync,
    Res: IntoResponse + Send + Sync,
    T1: FromRequestParts + Send + Sync,
    T2: FromRequestParts + Send + Sync,
    T3: FromRequestParts + Send + Sync,
    T4: FromRequestParts + Send + Sync,
    T5: FromRequestParts + Send + Sync,
    T6: FromRequestParts + Send + Sync,
    T7: FromRequestParts + Send + Sync,
    T8: FromRequest + Send + Sync,
 {
    from_head::<T1>(request, response, |a1: T1|
    from_head::<T2>(request, response, |a2: T2|
    from_head::<T3>(request, response, |a3: T3|
    from_head::<T4>(request, response, |a4: T4|
    from_head::<T5>(request, response, |a5: T5|
    from_head::<T6>(request, response, |a6: T6|
    from_head::<T7>(request, response, |a7: T7|
    from_whole::<T8>(request, response, |a8: T8|
        from_result::<Res>(response, |result: Res|
            call_ensures(f, (a1, a2, a3, a4, a5, a6, a7, a8), result))))))))))
}

impl<F, Res, T1, T2, T3, T4, T5, T6, T7, T8> Handler for FunctionHandler<(
    (T1, T2, T3, T4, T5, T6, T7, T8),
    Res,
), F> where
    F: Fn(T1, T2, T3, T4, T5, T6, T7, T8) -> Res + Send + Sync,
    Res: IntoResponse + Send + Sync,
    T1: FromRequestParts + Send + Sync,
    T2: FromRequestParts + Send + Sync,
    T3: FromRequestParts + Send + Sync,
    T4: FromRequestParts + Send + Sync,
    T5: FromRequestParts + Send + Sync,
    T6: FromRequestParts + Send + Sync,
    T7: FromRequestParts + Send + Sync,
    T8: FromRequest + Send + Sync,
 {
    open spec fn total(&self) -> bool {
        accepts_8::<F, Res, T1, T2, T3, T4, T5, T6, T7, T8>(self.f)
    }

    open spec fn handles(&self, request: RequestView, response: ResponseView) -> bool {
        answers_8::<F, Res, T1, T2, T3, T4, T5, T6, T7, T8>(self.f, request, response)
    }

    fn call(&self, request: Request) -> (response: Response) {
        let ghost whole = request@;
        let (parts, body) = request.into_parts();
        assert(parts@ == whole.head);
        let a1 = match T1::from_request_parts(&parts) {
            Ok(value) => value,
            Err(rejection) => {
                return rejection.into_response();
            },
        };
        let a2 = match T2::from_request_parts(&parts) {
            Ok(value) => value,
            Err(rejection) => {
                return rejection.into_response();
            },
        };
        let a3 = match T3::from_request_parts(&parts) {
            Ok(value) => value,
            Err(rejection) => {
                return rejection.into_response();
            },
        };
        let a4 = match T4::from_request_parts(&parts) {
            Ok(value) => value,
            Err(rejection) => {
                return rejection.into_response();
            },
        };
        let a5 = match T5::from_request_parts(&parts) {
            Ok(value) => value,
            Err(rejection) => {
                return rejection.into_response();
            },
        };
        let a6 = match T6::from_request_parts(&parts) {
            Ok(value) => value,
            Err(rejection) => {
                return rejection.into_response();
            },
        };
        let a7 = match T7::from_request_parts(&parts) {
            Ok(value) => value,
            Err(rejection) => {
                return rejection.into_response();
            },
        };
        let request = Request::from_parts(parts, body);
        assert(request@ == whole);
        let a8 = match T8::from_request(request) {
            Ok(value) => value,
            Err(rejection) => {
                return rejection.into_response();
            },
        };
        let result = (self.f)(a1, a2, a3, a4, a5, a6, a7, a8);
        result.into_response()
    }
}

impl<F, Res, T1, T2, T3, T4, T5, T6, T7, T8> IntoHandler<(
    (T1, T2, T3, T4, T5, T6, T7, T8),
    Res,
)> for F where
    F: Fn(T1, T2, T3, T4, T5, T6, T7, T8) -> Res + Send + Sync,
    Res: IntoResponse + Send + Sync,
    T1: FromRequestParts + Send + Sync,
    T2: FromRequestParts + Send + Sync,
    T3: FromRequestParts + Send + Sync,
    T4: FromRequestParts + Send + Sync,
    T5: FromRequestParts + Send + Sync,
    T6: FromRequestParts + Send + Sync,
    T7: FromRequestParts + Send + Sync,
    T8: FromRequest + Send + Sync,
 {
    type Handler = FunctionHandler<((T1, T2, T3, T4, T5, T6, T7, T8), Res), F>;

    open spec fn accepts_all(&self) -> bool {
        accepts_8::<F, Res, T1, T2, T3, T4, T5, T6, T7, T8>(*self)
    }

    open spec fn answers(&self, request: RequestView, response: ResponseView) -> bool {
        answers_8::<F, Res, T1, T2, T3, T4, T5, T6, T7, T8>(*self, request, response)
    }

    open spec fn reads_alike(first: RequestView, second: RequestView) -> bool {
        &&& first.head == second.head
        &&& forall|outcome: Result<T8, Rejection>|
            T8::extracted_from(first, outcome) == T8::extracted_from(second, outcome)
    }

    fn into_handler(self) -> (handler: Self::Handler) {
        FunctionHandler { f: self, marker: PhantomData }
    }

    proof fn lemma_body_is_read_once(
        &self,
        first: RequestView,
        second: RequestView,
        response: ResponseView,
    ) {
    }
}

/// What a function of 8 parameters is as a handler: it may be called when
/// `accepts_8` holds of it, and it answers as `answers_8` says.
pub proof fn lemma_function_8<F, Res, T1, T2, T3, T4, T5, T6, T7, T8>(f: F) where
    F: Fn(T1, T2, T3, T4, T5, T6, T7, T8) -> Res + Send + Sync,
    Res: IntoResponse + Send + Sync,
    T1: FromRequestParts + Send + Sync,
    T2: FromRequestParts + Send + Sync,
    T3: FromRequestParts + Send + Sync,
    T4: FromRequestParts + Send + Sync,
    T5: FromRequestParts + Send + Sync,
    T6: FromRequestParts + Send + Sync,
    T7: FromRequestParts + Send + Sync,
    T8: FromRequest + Send + Sync,

    ensures
        accepts_everything::<F, ((T1, T2, T3, T4, T5, T6, T7, T8), Res)>(f)
            == accepts_8::<F, Res, T1, T2, T3, T4, T5, T6, T7, T8>(f),
        forall|request: RequestView, response: ResponseView| #[trigger]
            answers_as_handler::<F, ((T1, T2, T3, T4, T5, T6, T7, T8), Res)>(f, request, response)
                == answers_8::<F, Res, T1, T2, T3, T4, T5, T6, T7, T8>(f, request, response),
{
}

/// Whether a function of 9 parameters may be called on every argument.
pub open spec fn accepts_9<F, Res, T1, T2, T3, T4, T5, T6, T7, T8, T9>(f: F) -> bool where
    F: Fn(T1, T2, T3, T4, T5, T6, T7, T8, T9) -> Res + Send + Sync,
    Res: IntoResponse + Send + Sync,
    T1: FromRequestParts + Send + Sync,
    T2: FromRequestParts + Send + Sync,
    T3: FromRequestParts + Send + Sync,
    T4: FromRequestParts + Send + Sync,
    T5: FromRequestParts + Send + Sync,
    T6: FromRequestParts + Send + Sync,
    T7: FromRequestParts + Send + Sync,
    T8: FromRequestParts + Send + Sync,
    T9: FromRequest + Send + Sync,
 {
    forall|
        a1: T1, a2: T2, a3: T3, a4: T4, a5: T5, a6: T6, a7: T7, a8: T8, a9: T9,
    |
        call_requires(f, (a1, a2, a3, a4, a5, a6, a7, a8, a9))
}

/// Whether `response` is an answer to `request` of a function of
/// 9 parameters that is wrapped as a handler.
pub open spec fn answers_9<F, Res, T1, T2, T3, T4, T5, T6, T7, T8, T9>(
    f: F,
    request: RequestView,
    response: ResponseView,
) -> bool where
    F: Fn(T1, T2, T3, T4, T5, T6, T7, T8, T9) -> Res + Send + Sync,
    Res: IntoResponse + Send + Sync,
    T1: FromRequestParts + Send + Sync,
    T2: FromRequestParts + Send + Sync,
    T3: FromRequestParts + Send + Sync,
    T4: FromRequestParts + Send + Sync,
    T5: FromRequestParts + Send + Sync,
    T6: FromRequestParts + Send + Sync,
    T7: FromRequestParts + Send + Sync,
    T8: FromRequestParts + Send + Sync,
    T9: FromRequest + Send + Sync,
 {
    from_head::<T1>(request, response, |a1: T1|
    from_head::<T2>(request, response, |a2: T2|
    from_head::<T3>(request, response, |a3: T3|
    from_head::<T4>(request, response, |a4: T4|
    from_head::<T5>(request, response, |a5: T5|
    from_head::<T6>(request, response, |a6: T6|
    from_head::<T7>(request, response, |a7: T7|
    from_head::<T8>(request, response, |a8: T8|
    from_whole::<T9>(request, response, |a9: T9|
        from_result::<Res>(response, |result: Res|
            call_ensures(f, (a1, a2, a3, a4, a5, a6, a7, a8, a9), result)))))))))))
}

impl<F, Res, T1, T2, T3, T4, T5, T6, T7, T8, T9> Handler for FunctionHandler<(
    (T1, T2, T3, T4, T5, T6, T7, T8, T9),
    Res,
), F> where
    F: Fn(T1, T2, T3, T4, T5, T6, T7, T8, T9) -> Res + Send + Sync,
    Res: IntoResponse + Send + Sync,
    T1: FromRequestParts + Send + Sync,
    T2: FromRequestParts + Send + Sync,
    T3: FromRequestParts + Send + Sync,
    T4: FromRequestParts + Send + Sync,
    T5: FromRequestParts + Send + Sync,
    T6: FromRequestParts + Send + Sync,
    T7: FromRequestParts + Send + Sync,
    T8: FromRequestParts + Send + Sync,
    T9: FromRequest + Send + Sync,
 {
    open spec fn total(&self) -> bool {
        accepts_9::<F, Res, T1, T2, T3, T4, T5, T6, T7, T8, T9>(self.f)
    }

    open spec fn handles(&self, request: RequestView, response: ResponseView) -> bool {
        answers_9::<F, Res, T1, T2, T3, T4, T5, T6, T7, T8, T9>(self.f, request, response)
    }

    fn call(&self, request: Request) -> (response: Response) {
        let ghost whole = request@;
        let (parts, body) = request.into_parts();
        assert(parts@ == whole.head);
        let a1 = match T1::from_request_parts(&parts) {
            Ok(value) => value,
            Err(rejection) => {
                return rejection.into_response();
            },
        };
        let a2 = match T2::from_request_parts(&parts) {
            Ok(value) => value,
            Err(rejection) => {
                return rejection.into_response();
            },
        };
        let a3 = match T3::from_request_parts(&parts) {
            Ok(value) => value,
            Err(rejection) => {
                return rejection.into_response();
            },
        };
        let a4 = match T4::from_request_parts(&parts) {
            Ok(value) => value,
            Err(rejection) => {
                return rejection.into_response();
            },
        };
        let a5 = match T5::from_request_parts(&parts) {
            Ok(value) => value,
            Err(rejection) => {
                return rejection.into_response();
            },
        };
        let a6 = match T6::from_request_parts(&parts) {
            Ok(value) => value,
            Err(rejection) => {
                return rejection.into_response();
            },
        };
        let a7 = match T7::from_request_parts(&parts) {
            Ok(value) => value,
            Err(rejection) => {
                return rejection.into_response();
            },
        };
        let a8 = match T8::from_request_parts(&parts) {
            Ok(value) => value,
            Err(rejection) => {
                return rejection.into_response();
            },
        };
        let request = Request::from_parts(parts, body);
        assert(request@ == whole);
        let a9 = match T9::from_request(request) {
            Ok(value) => value,
            Err(rejection) => {
                return rejection.into_response();
            },
        };
        let result = (self.f)(a1, a2, a3, a4, a5, a6, a7, a8, a9);
        result.into_response()
    }
}

impl<F, Res, T1, T2, T3, T4, T5, T6, T7, T8, T9> IntoHandler<(
    (T1, T2, T3, T4, T5, T6, T7, T8, T9),
    Res,
)> for F where
    F: Fn(T1, T2, T3, T4, T5, T6, T7, T8, T9) -> Res + Send + Sync,
    Res: IntoResponse + Send + Sync,
    T1: FromRequestParts + Send + Sync,
    T2: FromRequestParts + Send + Sync,
    T3: FromRequestParts + Send + Sync,
    T4: FromRequestParts + Send + Sync,
    T5: FromRequestParts + Send + Sync,
    T6: FromRequestParts + Send + Sync,
    T7: FromRequestParts + Send + Sync,
    T8: FromRequestParts + Send + Sync,
    T9: FromRequest + Send + Sync,
 {
    type Handler = FunctionHandler<((T1, T2, T3, T4, T5, T6, T7, T8, T9), Res), F>;

    open spec fn accepts_all(&self) -> bool {
        accepts_9::<F, Res, T1, T2, T3, T4, T5, T6, T7, T8, T9>(*self)
    }

    open spec fn answers(&self, request: RequestView, response: ResponseView) -> bool {
        answers_9::<F, Res, T1, T2, T3, T4, T5, T6, T7, T8, T9>(*self, request, response)
    }

    open spec fn reads_alike(first: RequestView, second: RequestView) -> bool {
        &&& first.head == second.head
        &&& forall|outcome: Result<T9, Rejection>|
            T9::extracted_from(first, outcome) == T9::extracted_from(second, outcome)
    }

    fn into_handler(self) -> (handler: Self::Handler) {
        FunctionHandler { f: self, marker: PhantomData }
    }

    proof fn lemma_body_is_read_once(
        &self,
        first: RequestView,
        second: RequestView,
        response: ResponseView,
    ) {
    }
}

/// What a function of 9 parameters is as a handler: it may be called when
/// `accepts_9` holds of it, and it answers as `answers_9` says.
pub proof fn lemma_function_9<F, Res, T1, T2, T3, T4, T5, T6, T7, T8, T9>(f: F) where
    F: Fn(T1, T2, T3, T4, T5, T6, T7, T8, T9) -> Res + Send + Sync,
    Res: IntoResponse + Send + Sync,
    T1: FromRequestParts + Send + Sync,
    T2: FromRequestParts + Send + Sync,
    T3: FromRequestParts + Send + Sync,
    T4: FromRequestParts + Send + Sync,
    T5: FromRequestParts + Send + Sync,
    T6: FromRequestParts + Send + Sync,
    T7: FromRequestParts + Send + Sync,
    T8: FromRequestParts + Send + Sync,
    T9: FromRequest + Send + Sync,

    ensures
        accepts_everything::<F, ((T1, T2, T3, T4, T5, T6, T7, T8, T9), Res)>(f)
            == accepts_9::<F, Res, T1, T2, T3, T4, T5, T6, T7, T8, T9>(f),
        forall|request: RequestView, response: ResponseView| #[trigger]
            answers_as_handler::<F, (
                (T1, T2, T3, T4, T5, T6, T7, T8, T9),
                Res,
            )>(f, request, response)
                == answers_9::<F, Res, T1, T2, T3, T4, T5, T6, T7, T8, T9>(f, request, response),
{
}

/// Whether a function of 10 parameters may be called on every argument.
pub open spec fn accepts_10<F, Res, T1, T2, T3, T4, T5, T6, T7, T8, T9, T10>(f: F) -> bool where
    F: Fn(T1, T2, T3, T4, T5, T6, T7, T8, T9, T10) -> Res + Send + Sync,
    Res: IntoResponse + Send + Sync,
    T1: FromRequestParts + Send + Sync,
    T2: FromRequestParts + Send + Sync,
    T3: FromRequestParts + Send + Sync,
    T4: FromRequestParts + Send + Sync,
    T5: FromRequestParts + Send + Sync,
    T6: FromRequestParts + Send + Sync,
    T7: FromRequestParts + Send + Sync,
    T8: FromRequestParts + Send + Sync,
    T9: FromRequestParts + Send + Sync,
    T10: FromRequest + Send + Sync,
 {
    forall|
        a1: T1, a2: T2, a3: T3, a4: T4, a5: T5, a6: T6, a7: T7, a8: T8, a9: T9, a10: T10,
    |
        call_requires(f, (a1, a2, a3, a4, a5, a6, a7, a8, a9, a10))
}

/// Whether `response` is an answer to `request` of a function of
/// 10 parameters that is wrapped as a handler.
pub open spec fn answers_10<F, Res, T1, T2, T3, T4, T5, T6, T7, T8, T9, T10>(
    f: F,
    request: RequestView,
    response: ResponseView,
) -> bool where
    F: Fn(T1, T2, T3, T4, T5, T6, T7, T8, T9, T10) -> Res + Send + Sync,
    Res: IntoResponse + Send + Sync,
    T1: FromRequestParts + Send + Sync,
    T2: FromRequestParts + Send + Sync,
    T3: FromRequestParts + Send + Sync,
    T4: FromRequestParts + Send + Sync,
    T5: FromRequestParts + Send + Sync,
    T6: FromRequestParts + Send + Sync,
    T7: FromRequestParts + Send + Sync,
    T8: FromRequestParts + Send + Sync,
    T9: FromRequestParts + Send + Sync,
    T10: FromRequest + Send + Sync,
 {
    from_head::<T1>(request, response, |a1: T1|
    from_head::<T2>(request, response, |a2: T2|
    from_head::<T3>(request, response, |a3: T3|
    from_head::<T4>(request, response, |a4: T4|
    from_head::<T5>(request, response, |a5: T5|
    from_head::<T6>(request, response, |a6: T6|
    from_head::<T7>(request, response, |a7: T7|
    from_head::<T8>(request, response, |a8: T8|
    from_head::<T9>(request, response, |a9: T9|
    from_whole::<T10>(request, response, |a10: T10|
        from_result::<Res>(response, |result: Res|
            call_ensures(f, (a1, a2, a3, a4, a5, a6, a7, a8, a9, a10), result))))))))))))
}

impl<F, Res, T1, T2, T3, T4, T5, T6, T7, T8, T9, T10> Handler for FunctionHandler<(
    (T1, T2, T3, T4, T5, T6, T7, T8, T9, T10),
    Res,
), F> where
    F: Fn(T1, T2, T3, T4, T5, T6, T7, T8, T9, T10) -> Res + Send + Sync,
    Res: IntoResponse + Send + Sync,
    T1: FromRequestParts + Send + Sync,
    T2: FromRequestParts + Send + Sync,
    T3: FromRequestParts + Send + Sync,
    T4: FromRequestParts + Send + Sync,
    T5: FromRequestParts + Send + Sync,
    T6: FromRequestParts + Send + Sync,
    T7: FromRequestParts + Send + Sync,
    T8: FromRequestParts + Send + Sync,
    T9: FromRequestParts + Send + Sync,
    T10: FromRequest + Send + Sync,
 {
    open spec fn total(&self) -> bool {
        accepts_10::<F, Res, T1, T2, T3, T4, T5, T6, T7, T8, T9, T10>(self.f)
    }

    open spec fn handles(&self, request: RequestView, response: ResponseView) -> bool {
        answers_10::<F, Res, T1, T2, T3, T4, T5, T6, T7, T8, T9, T10>(self.f, request, response)
    }

    fn call(&self, request: Request) -> (response: Response) {
        let ghost whole = request@;
        let (parts, body) = request.into_parts();
        assert(parts@ == whole.head);
        let a1 = match T1::from_request_parts(&parts) {
            Ok(value) => value,
            Err(rejection) => {
                return rejection.into_response();
            },
        };
        let a2 = match T2::from_request_parts(&parts) {
            Ok(value) => value,
            Err(rejection) => {
                return rejection.into_response();
            },
        };
        let a3 = match T3::from_request_parts(&parts) {
            Ok(value) => value,
            Err(rejection) => {
                return rejection.into_response();
            },
        };
        let a4 = match T4::from_request_parts(&parts) {
            Ok(value) => value,
            Err(rejection) => {
                return rejection.into_response();
            },
        };
        let a5 = match T5::from_request_parts(&parts) {
            Ok(value) => value,
            Err(rejection) => {
                return rejection.into_response();
            },
        };
        let a6 = match T6::from_request_parts(&parts) {
            Ok(value) => value,
            Err(rejection) => {
                return rejection.into_response();
            },
        };
        let a7 = match T7::from_request_parts(&parts) {
            Ok(value) => value,
            Err(rejection) => {
                return rejection.into_response();
            },
        };
        let a8 = match T8::from_request_parts(&parts) {
            Ok(value) => value,
            Err(rejection) => {
                return rejection.into_response();
            },
        };
        let a9 = match T9::from_request_parts(&parts) {
            Ok(value) => value,
            Err(rejection) => {
                return rejection.into_response();
            },
        };
        let request = Request::from_parts(parts, body);
        assert(request@ == whole);
        let a10 = match T10::from_request(request) {
            Ok(value) => value,
            Err(rejection) => {
                return rejection.into_response();
            },
        };
        let result = (self.f)(a1, a2, a3, a4, a5, a6, a7, a8, a9, a10);
        result.into_response()
    }
}

impl<F, Res, T1, T2, T3, T4, T5, T6, T7, T8, T9, T10> IntoHandler<(
    (T1, T2, T3, T4, T5, T6, T7, T8, T9, T10),
    Res,
)> for F where
    F: Fn(T1, T2, T3, T4, T5, T6, T7, T8, T9, T10) -> Res + Send + Sync,
    Res: IntoResponse + Send + Sync,
    T1: FromRequestParts + Send + Sync,
    T2: FromRequestParts + Send + Sync,
    T3: FromRequestParts + Send + Sync,
    T4: FromRequestParts + Send + Sync,
    T5: FromRequestParts + Send + Sync,
    T6: FromRequestParts + Send + Sync,
    T7: FromRequestParts + Send + Sync,
    T8: FromRequestParts + Send + Sync,
    T9: FromRequestParts + Send + Sync,
    T10: FromRequest + Send + Sync,
 {
    type Handler = FunctionHandler<((T1, T2, T3, T4, T5, T6, T7, T8, T9, T10), Res), F>;

    open spec fn accepts_all(&self) -> bool {
        accepts_10::<F, Res, T1, T2, T3, T4, T5, T6, T7, T8, T9, T10>(*self)
    }

    open spec fn answers(&self, request: RequestView, response: ResponseView) -> bool {
        answers_10::<F, Res, T1, T2, T3, T4, T5, T6, T7, T8, T9, T10>(*self, request, response)
    }

    open spec fn reads_alike(first: RequestView, second: RequestView) -> bool {
        &&& first.head == second.head
        &&& forall|outcome: Result<T10, Rejection>|
            T10::extracted_from(first, outcome) == T10::extracted_from(second, outcome)
    }

    fn into_handler(self) -> (handler: Self::Handler) {
        FunctionHandler { f: self, marker: PhantomData }
    }

    proof fn lemma_body_is_read_once(
        &self,
        first: RequestView,
        second: RequestView,
        response: ResponseView,
    ) {
    }
}

/// What a function of 10 parameters is as a handler: it may be called when
/// `accepts_10` holds of it, and it answers as `answers_10` says.
pub proof fn lemma_function_10<F, Res, T1, T2, T3, T4, T5, T6, T7, T8, T9, T10>(f: F) where
    F: Fn(T1, T2, T3, T4, T5, T6, T7, T8, T9, T10) -> Res + Send + Sync,
    Res: IntoResponse + Send + Sync,
    T1: FromRequestParts + Send + Sync,
    T2: FromRequestParts + Send + Sync,
    T3: FromRequestParts + Send + Sync,
    T4: FromRequestParts + Send + Sync,
    T5: FromRequestParts + Send + Sync,
    T6: FromRequestParts + Send + Sync,
    T7: FromRequestParts + Send + Sync,
    T8: FromRequestParts + Send + Sync,
    T9: FromRequestParts + Send + Sync,
    T10: FromRequest + Send + Sync,

    ensures
        accepts_everything::<F, ((T1, T2, T3, T4, T5, T6, T7, T8, T9, T10), Res)>(f)
            == accepts_10::<F, Res, T1, T2, T3, T4, T5, T6, T7, T8, T9, T10>(f),
        forall|request: RequestView, response: ResponseView| #[trigger]
            answers_as_handler::<F, (
                (T1, T2, T3, T4, T5, T6, T7, T8, T9, T10),
                Res,
            )>(f, request, response)
                == answers_10::<
                    F, Res, T1, T2, T3, T4, T5, T6, T7, T8, T9, T10,
                >(f, request, response),
{
}

/// Whether a function of 11 parameters may be called on every argument.
pub open spec fn accepts_11<
    F, Res, T1, T2, T3, T4, T5, T6, T7, T8, T9, T10, T11,
>(f: F) -> bool where
    F: Fn(T1, T2, T3, T4, T5, T6, T7, T8, T9, T10, T11) -> Res + Send + Sync,
    Res: IntoResponse + Send + Sync,
    T1: FromRequestParts + Send + Sync,
    T2: FromRequestParts + Send + Sync,
    T3: FromRequestParts + Send + Sync,
    T4: FromRequestParts + Send + Sync,
    T5: FromRequestParts + Send + Sync,
    T6: FromRequestParts + Send + Sync,
    T7: FromRequestParts + Send + Sync,
    T8: FromRequestParts + Send + Sync,
    T9: FromRequestParts + Send + Sync,
    T10: FromRequestParts + Send + Sync,
    T11: FromRequest + Send + Sync,
 {
    forall|
        a1: T1, a2: T2, a3: T3, a4: T4, a5: T5, a6: T6, a7: T7, a8: T8, a9: T9, a10: T10, a11: T11,
    |
        call_requires(f, (a1, a2, a3, a4, a5, a6, a7, a8, a9, a10, a11))
}

/// Whether `response` is an answer to `request` of a function of
/// 11 parameters that is wrapped as a handler.
pub open spec fn answers_11<F, Res, T1, T2, T3, T4, T5, T6, T7, T8, T9, T10, T11>(
    f: F,
    request: RequestView,
    response: ResponseView,
) -> bool where
    F: Fn(T1, T2, T3, T4, T5, T6, T7, T8, T9, T10, T11) -> Res + Send + Sync,
    Res: IntoResponse + Send + Sync,
    T1: FromRequestParts + Send + Sync,
    T2: FromRequestParts + Send + Sync,
    T3: FromRequestParts + Send + Sync,
    T4: FromRequestParts + Send + Sync,
    T5: FromRequestParts + Send + Sync,
    T6: FromRequestParts + Send + Sync,
    T7: FromRequestParts + Send + Sync,
    T8: FromRequestParts + Send + Sync,
    T9: FromRequestParts + Send + Sync,
    T10: FromRequestParts + Send + Sync,
    T11: FromRequest + Send + Sync,
 {
    from_head::<T1>(request, response, |a1: T1|
    from_head::<T2>(request, response, |a2: T2|
    from_head::<T3>(request, response, |a3: T3|
    from_head::<T4>(request, response, |a4: T4|
    from_head::<T5>(request, response, |a5: T5|
    from_head::<T6>(request, response, |a6: T6|
    from_head::<T7>(request, response, |a7: T7|
    from_head::<T8>(request, response, |a8: T8|
    from_head::<T9>(request, response, |a9: T9|
    from_head::<T10>(request, response, |a10: T10|
    from_whole::<T11>(request, response, |a11: T11|
        from_result::<Res>(response, |result: Res|
            call_ensures(f, (a1, a2, a3, a4, a5, a6, a7, a8, a9, a10, a11), result)))))))))))))
}

impl<F, Res, T1, T2, T3, T4, T5, T6, T7, T8, T9, T10, T11> Handler for FunctionHandler<(
    (T1, T2, T3, T4, T5, T6, T7, T8, T9, T10, T11),
    Res,
), F> where
    F: Fn(T1, T2, T3, T4, T5, T6, T7, T8, T9, T10, T11) -> Res + Send + Sync,
    Res: IntoResponse + Send + Sync,
    T1: FromRequestParts + Send + Sync,
    T2: FromRequestParts + Send + Sync,
    T3: FromRequestParts + Send + Sync,
    T4: FromRequestParts + Send + Sync,
    T5: FromRequestParts + Send + Sync,
    T6: FromRequestParts + Send + Sync,
    T7: FromRequestParts + Send + Sync,
    T8: FromRequestParts + Send + Sync,
    T9: FromRequestParts + Send + Sync,
    T10: FromRequestParts + Send + Sync,
    T11: FromRequest + Send + Sync,
 {
    open spec fn total(&self) -> bool {
        accepts_11::<F, Res, T1, T2, T3, T4, T5, T6, T7, T8, T9, T10, T11>(self.f)
    }

    open spec fn handles(&self, request: RequestView, response: ResponseView) -> bool {
        answers_11::<
            F, Res, T1, T2, T3, T4, T5, T6, T7, T8, T9, T10, T11,
        >(self.f, request, response)
    }

    fn call(&self, request: Request) -> (response: Response) {
        let ghost whole = request@;
        let (parts, body) = request.into_parts();
        assert(parts@ == whole.head);
        let a1 = match T1::from_request_parts(&parts) {
            Ok(value) => value,
            Err(rejection) => {
                return rejection.into_response();
            },
        };
        let a2 = match T2::from_request_parts(&parts) {
            Ok(value) => value,
            Err(rejection) => {
                return rejection.into_response();
            },
        };
        let a3 = match T3::from_request_parts(&parts) {
            Ok(value) => value,
            Err(rejection) => {
                return rejection.into_response();
            },
        };
        let a4 = match T4::from_request_parts(&parts) {
            Ok(value) => value,
            Err(rejection) => {
                return rejection.into_response();
            },
        };
        let a5 = match T5::from_request_parts(&parts) {
            Ok(value) => value,
            Err(rejection) => {
                return rejection.into_response();
            },
        };
        let a6 = match T6::from_request_parts(&parts) {
            Ok(value) => value,
            Err(rejection) => {
                return rejection.into_response();
            },
        };
        let a7 = match T7::from_request_parts(&parts) {
            Ok(value) => value,
            Err(rejection) => {
                return rejection.into_response();
            },
        };
        let a8 = match T8::from_request_parts(&parts) {
            Ok(value) => value,
            Err(rejection) => {
                return rejection.into_response();
            },
        };
        let a9 = match T9::from_request_parts(&parts) {
            Ok(value) => value,
            Err(rejection) => {
                return rejection.into_response();
            },
        };
        let a10 = match T10::from_request_parts(&parts) {
            Ok(value) => value,
            Err(rejection) => {
                return rejection.into_response();
            },
        };
        let request = Request::from_parts(parts, body);
        assert(request@ == whole);
        let a11 = match T11::from_request(request) {
            Ok(value) => value,
            Err(rejection) => {
                return rejection.into_response();
            },
        };
        let result = (self.f)(a1, a2, a3, a4, a5, a6, a7, a8, a9, a10, a11);
        result.into_response()
    }
}

impl<F, Res, T1, T2, T3, T4, T5, T6, T7, T8, T9, T10, T11> IntoHandler<(
    (T1, T2, T3, T4, T5, T6, T7, T8, T9, T10, T11),
    Res,
)> for F where
    F: Fn(T1, T2, T3, T4, T5, T6, T7, T8, T9, T10, T11) -> Res + Send + Sync,
    Res: IntoResponse + Send + Sync,
    T1: FromRequestParts + Send + Sync,
    T2: FromRequestParts + Send + Sync,
    T3: FromRequestParts + Send + Sync,
    T4: FromRequestParts + Send + Sync,
    T5: FromRequestParts + Send + Sync,
    T6: FromRequestParts + Send + Sync,
    T7: FromRequestParts + Send + Sync,
    T8: FromRequestParts + Send + Sync,
    T9: FromRequestParts + Send + Sync,
    T10: FromRequestParts + Send + Sync,
    T11: FromRequest + Send + Sync,
 {
    type Handler = FunctionHandler<((T1, T2, T3, T4, T5, T6, T7, T8, T9, T10, T11), Res), F>;

    open spec fn accepts_all(&self) -> bool {
        accepts_11::<F, Res, T1, T2, T3, T4, T5, T6, T7, T8, T9, T10, T11>(*self)
    }

    open spec fn answers(&self, request: RequestView, response: ResponseView) -> bool {
        answers_11::<F, Res, T1, T2, T3, T4, T5, T6, T7, T8, T9, T10, T11>(*self, request, response)
    }

    open spec fn reads_alike(first: RequestView, second: RequestView) -> bool {
        &&& first.head == second.head
        &&& forall|outcome: Result<T11, Rejection>|
            T11::extracted_from(first, outcome) == T11::extracted_from(second, outcome)
    }

    fn into_handler(self) -> (handler: Self::Handler) {
        FunctionHandler { f: self, marker: PhantomData }
    }

    proof fn lemma_body_is_read_once(
        &self,
        first: RequestView,
        second: RequestView,
        response: ResponseView,
    ) {
    }
}

/// What a function of 11 parameters is as a handler: it may be called when
/// `accepts_11` holds of it, and it answers as `answers_11` says.
pub proof fn lemma_function_11<F, Res, T1, T2, T3, T4, T5, T6, T7, T8, T9, T10, T11>(f: F) where
    F: Fn(T1, T2, T3, T4, T5, T6, T7, T8, T9, T10, T11) -> Res + Send + Sync,
    Res: IntoResponse + Send + Sync,
    T1: FromRequestParts + Send + Sync,
    T2: FromRequestParts + Send + Sync,
    T3: FromRequestParts + Send + Sync,
    T4: FromRequestParts + Send + Sync,
    T5: FromRequestParts + Send + Sync,
    T6: FromRequestParts + Send + Sync,
    T7: FromRequestParts + Send + Sync,
    T8: FromRequestParts + Send + Sync,
    T9: FromRequestParts + Send + Sync,
    T10: FromRequestParts + Send + Sync,
    T11: FromRequest + Send + Sync,

    ensures
        accepts_everything::<F, ((T1, T2, T3, T4, T5, T6, T7, T8, T9, T10, T11), Res)>(f)
            == accepts_11::<F, Res, T1, T2, T3, T4, T5, T6, T7, T8, T9, T10, T11>(f),
        forall|request: RequestView, response: ResponseView| #[trigger]
            answers_as_handler::<F, (
                (T1, T2, T3, T4, T5, T6, T7, T8, T9, T10, T11),
                Res,
            )>(f, request, response)
                == answers_11::<
                    F, Res, T1, T2, T3, T4, T5, T6, T7, T8, T9, T10, T11,
                >(f, request, response),
{
}

/// Whether a function of 12 parameters may be called on every argument.
pub open spec fn accepts_12<
    F, Res, T1, T2, T3, T4, T5, T6, T7, T8, T9, T10, T11, T12,
>(f: F) -> bool where
    F: Fn(T1, T2, T3, T4, T5, T6, T7, T8, T9, T10, T11, T12) -> Res + Send + Sync,
    Res: IntoResponse + Send + Sync,
    T1: FromRequestParts + Send + Sync,
    T2: FromRequestParts + Send + Sync,
    T3: FromRequestParts + Send + Sync,
    T4: FromRequestParts + Send + Sync,
    T5: FromRequestParts + Send + Sync,
    T6: FromRequestParts + Send + Sync,
    T7: FromRequestParts + Send + Sync,
    T8: FromRequestParts + Send + Sync,
    T9: FromRequestParts + Send + Sync,
    T10: FromRequestParts + Send + Sync,
    T11: FromRequestParts + Send + Sync,
    T12: FromRequest + Send + Sync,
 {
    forall|
        a1: T1, a2: T2, a3: T3, a4: T4, a5: T5, a6: T6, a7: T7, a8: T8, a9: T9, a10: T10, a11: T11,
        a12: T12,
    |
        call_requires(f, (a1, a2, a3, a4, a5, a6, a7, a8, a9, a10, a11, a12))
}

/// Whether `response` is an answer to `request` of a function of
/// 12 parameters that is wrapped as a handler.
pub open spec fn answers_12<F, Res, T1, T2, T3, T4, T5, T6, T7, T8, T9, T10, T11, T12>(
    f: F,
    request: RequestView,
    response: ResponseView,
) -> bool where
    F: Fn(T1, T2, T3, T4, T5, T6, T7, T8, T9, T10, T11, T12) -> Res + Send + Sync,
    Res: IntoResponse + Send + Sync,
    T1: FromRequestParts + Send + Sync,
    T2: FromRequestParts + Send + Sync,
    T3: FromRequestParts + Send + Sync,
    T4: FromRequestParts + Send + Sync,
    T5: FromRequestParts + Send + Sync,
    T6: FromRequestParts + Send + Sync,
    T7: FromRequestParts + Send + Sync,
    T8: FromRequestParts + Send + Sync,
    T9: FromRequestParts + Send + Sync,
    T10: FromRequestParts + Send + Sync,
    T11: FromRequestParts + Send + Sync,
    T12: FromRequest + Send + Sync,
 {
    from_head::<T1>(request, response, |a1: T1|
    from_head::<T2>(request, response, |a2: T2|
    from_head::<T3>(request, response, |a3: T3|
    from_head::<T4>(request, response, |a4: T4|
    from_head::<T5>(request, response, |a5: T5|
    from_head::<T6>(request, response, |a6: T6|
    from_head::<T7>(request, response, |a7: T7|
    from_head::<T8>(request, response, |a8: T8|
    from_head::<T9>(request, response, |a9: T9|
    from_head::<T10>(request, response, |a10: T10|
    from_head::<T11>(request, response, |a11: T11|
    from_whole::<T12>(request, response, |a12: T12|
        from_result::<Res>(response, |result: Res|
            call_ensures(f, (
                a1, a2, a3, a4, a5, a6, a7, a8, a9, a10, a11, a12,
            ), result))))))))))))))
}

impl<F, Res, T1, T2, T3, T4, T5, T6, T7, T8, T9, T10, T11, T12> Handler for FunctionHandler<(
    (T1, T2, T3, T4, T5, T6, T7, T8, T9, T10, T11, T12),
    Res,
), F> where
    F: Fn(T1, T2, T3, T4, T5, T6, T7, T8, T9, T10, T11, T12) -> Res + Send + Sync,
    Res: IntoResponse + Send + Sync,
    T1: FromRequestParts + Send + Sync,
    T2: FromRequestParts + Send + Sync,
    T3: FromRequestParts + Send + Sync,
    T4: FromRequestParts + Send + Sync,
    T5: FromRequestParts + Send + Sync,
    T6: FromRequestParts + Send + Sync,
    T7: FromRequestParts + Send + Sync,
    T8: FromRequestParts + Send + Sync,
    T9: FromRequestParts + Send + Sync,
    T10: FromRequestParts + Send + Sync,
    T11: FromRequestParts + Send + Sync,
    T12: FromRequest + Send + Sync,
 {
    open spec fn total(&self) -> bool {
        accepts_12::<F, Res, T1, T2, T3, T4, T5, T6, T7, T8, T9, T10, T11, T12>(self.f)
    }

    open spec fn handles(&self, request: RequestView, response: ResponseView) -> bool {
        answers_12::<
            F, Res, T1, T2, T3, T4, T5, T6, T7, T8, T9, T10, T11, T12,
        >(self.f, request, response)
    }

    fn call(&self, request: Request) -> (response: Response) {
        let ghost whole = request@;
        let (parts, body) = request.into_parts();
        assert(parts@ == whole.head);
        let a1 = match T1::from_request_parts(&parts) {
            Ok(value) => value,
            Err(rejection) => {
                return rejection.into_response();
            },
        };
        let a2 = match T2::from_request_parts(&parts) {
            Ok(value) => value,
            Err(rejection) => {
                return rejection.into_response();
            },
        };
        let a3 = match T3::from_request_parts(&parts) {
            Ok(value) => value,
            Err(rejection) => {
                return rejection.into_response();
            },
        };
        let a4 = match T4::from_request_parts(&parts) {
            Ok(value) => value,
            Err(rejection) => {
                return rejection.into_response();
            },
        };
        let a5 = match T5::from_request_parts(&parts) {
            Ok(value) => value,
            Err(rejection) => {
                return rejection.into_response();
            },
        };
        let a6 = match T6::from_request_parts(&parts) {
            Ok(value) => value,
            Err(rejection) => {
                return rejection.into_response();
            },
        };
        let a7 = match T7::from_request_parts(&parts) {
            Ok(value) => value,
            Err(rejection) => {
                return rejection.into_response();
            },
        };
        let a8 = match T8::from_request_parts(&parts) {
            Ok(value) => value,
            Err(rejection) => {
                return rejection.into_response();
            },
        };
        let a9 = match T9::from_request_parts(&parts) {
            Ok(value) => value,
            Err(rejection) => {
                return rejection.into_response();
            },
        };
        let a10 = match T10::from_request_parts(&parts) {
            Ok(value) => value,
            Err(rejection) => {
                return rejection.into_response();
            },
        };
        let a11 = match T11::from_request_parts(&parts) {
            Ok(value) => value,
            Err(rejection) => {
                return rejection.into_response();
            },
        };
        let request = Request::from_parts(parts, body);
        assert(request@ == whole);
        let a12 = match T12::from_request(request) {
            Ok(value) => value,
            Err(rejection) => {
                return rejection.into_response();
            },
        };
        let result = (self.f)(a1, a2, a3, a4, a5, a6, a7, a8, a9, a10, a11, a12);
        result.into_response()
    }
}

impl<F, Res, T1, T2, T3, T4, T5, T6, T7, T8, T9, T10, T11, T12> IntoHandler<(
    (T1, T2, T3, T4, T5, T6, T7, T8, T9, T10, T11, T12),
    Res,
)> for F where
    F: Fn(T1, T2, T3, T4, T5, T6, T7, T8, T9, T10, T11, T12) -> Res + Send + Sync,
    Res: IntoResponse + Send + Sync,
    T1: FromRequestParts + Send + Sync,
    T2: FromRequestParts + Send + Sync,
    T3: FromRequestParts + Send + Sync,
    T4: FromRequestParts + Send + Sync,
    T5: FromRequestParts + Send + Sync,
    T6: FromRequestParts + Send + Sync,
    T7: FromRequestParts + Send + Sync,
    T8: FromRequestParts + Send + Sync,
    T9: FromRequestParts + Send + Sync,
    T10: FromRequestParts + Send + Sync,
    T11: FromRequestParts + Send + Sync,
    T12: FromRequest + Send + Sync,
 {
    type Handler = FunctionHandler<((T1, T2, T3, T4, T5, T6, T7, T8, T9, T10, T11, T12), Res), F>;

    open spec fn accepts_all(&self) -> bool {
        accepts_12::<F, Res, T1, T2, T3, T4, T5, T6, T7, T8, T9, T10, T11, T12>(*self)
    }

    open spec fn answers(&self, request: RequestView, response: ResponseView) -> bool {
        answers_12::<
            F, Res, T1, T2, T3, T4, T5, T6, T7, T8, T9, T10, T11, T12,
        >(*self, request, response)
    }

    open spec fn reads_alike(first: RequestView, second: RequestView) -> bool {
        &&& first.head == second.head
        &&& forall|outcome: Result<T12, Rejection>|
            T12::extracted_from(first, outcome) == T12::extracted_from(second, outcome)
    }

    fn into_handler(self) -> (handler: Self::Handler) {
        FunctionHandler { f: self, marker: PhantomData }
    }

    proof fn lemma_body_is_read_once(
        &self,
        first: RequestView,
        second: RequestView,
        response: ResponseView,
    ) {
    }
}

/// What a function of 12 parameters is as a handler: it may be called when
/// `accepts_12` holds of it, and it answers as `answers_12` says.
pub proof fn lemma_function_12<
    F, Res, T1, T2, T3, T4, T5, T6, T7, T8, T9, T10, T11, T12,
>(f: F) where
    F: Fn(T1, T2, T3, T4, T5, T6, T7, T8, T9, T10, T11, T12) -> Res + Send + Sync,
    Res: IntoResponse + Send + Sync,
    T1: FromRequestParts + Send + Sync,
    T2: FromRequestParts + Send + Sync,
    T3: FromRequestParts + Send + Sync,
    T4: FromRequestParts + Send + Sync,
    T5: FromRequestParts + Send + Sync,
    T6: FromRequestParts + Send + Sync,
    T7: FromRequestParts + Send + Sync,
    T8: FromRequestParts + Send + Sync,
    T9: FromRequestParts + Send + Sync,
    T10: FromRequestParts + Send + Sync,
    T11: FromRequestParts + Send + Sync,
    T12: FromRequest + Send + Sync,

    ensures
        accepts_everything::<F, ((T1, T2, T3, T4, T5, T6, T7, T8, T9, T10, T11, T12), Res)>(f)
            == accepts_12::<F, Res, T1, T2, T3, T4, T5, T6, T7, T8, T9, T10, T11, T12>(f),
        forall|request: RequestView, response: ResponseView| #[trigger]
            answers_as_handler::<F, (
                (T1, T2, T3, T4, T5, T6, T7, T8, T9, T10, T11, T12),
                Res,
            )>(f, request, response)
                == answers_12::<
                    F, Res, T1, T2, T3, T4, T5, T6, T7, T8, T9, T10, T11, T12,
                >(f, request, response),
{
}

/// Whether a function of 13 parameters may be called on every argument.
pub open spec fn accepts_13<
    F, Res, T1, T2, T3, T4, T5, T6, T7, T8, T9, T10, T11, T12, T13,
>(f: F) -> bool where
    F: Fn(T1, T2, T3, T4, T5, T6, T7, T8, T9, T10, T11, T12, T13) -> Res + Send + Sync,
    Res: IntoResponse + Send + Sync,
    T1: FromRequestParts + Send + Sync,
    T2: FromRequestParts + Send + Sync,
    T3: FromRequestParts + Send + Sync,
    T4: FromRequestParts + Send + Sync,
    T5: FromRequestParts + Send + Sync,
    T6: FromRequestParts + Send + Sync,
    T7: FromRequestParts + Send + Sync,
    T8: FromRequestParts + Send + Sync,
    T9: FromRequestParts + Send + Sync,
    T10: FromRequestParts + Send + Sync,
    T11: FromRequestParts + Send + Sync,
    T12: FromRequestParts + Send + Sync,
    T13: FromRequest + Send + Sync,
 {
    forall|
        a1: T1, a2: T2, a3: T3, a4: T4, a5: T5, a6: T6, a7: T7, a8: T8, a9: T9, a10: T10, a11: T11,
        a12: T12, a13: T13,
    |
        call_requires(f, (a1, a2, a3, a4, a5, a6, a7, a8, a9, a10, a11, a12, a13))
}

/// Whether `response` is an answer to `request` of a function of
/// 13 parameters that is wrapped as a handler.
pub open spec fn answers_13<F, Res, T1, T2, T3, T4, T5, T6, T7, T8, T9, T10, T11, T12, T13>(
    f: F,
    request: RequestView,
    response: ResponseView,
) -> bool where
    F: Fn(T1, T2, T3, T4, T5, T6, T7, T8, T9, T10, T11, T12, T13) -> Res + Send + Sync,
    Res: IntoResponse + Send + Sync,
    T1: FromRequestParts + Send + Sync,
    T2: FromRequestParts + Send + Sync,
    T3: FromRequestParts + Send + Sync,
    T4: FromRequestParts + Send + Sync,
    T5: FromRequestParts + Send + Sync,
    T6: FromRequestParts + Send + Sync,
    T7: FromRequestParts + Send + Sync,
    T8: FromRequestParts + Send + Sync,
    T9: FromRequestParts + Send + Sync,
    T10: FromRequestParts + Send + Sync,
    T11: FromRequestParts + Send + Sync,
    T12: FromRequestParts + Send + Sync,
    T13: FromRequest + Send + Sync,
 {
    from_head::<T1>(request, response, |a1: T1|
    from_head::<T2>(request, response, |a2: T2|
    from_head::<T3>(request, response, |a3: T3|
    from_head::<T4>(request, response, |a4: T4|
    from_head::<T5>(request, response, |a5: T5|
    from_head::<T6>(request, response, |a6: T6|
    from_head::<T7>(request, response, |a7: T7|
    from_head::<T8>(request, response, |a8: T8|
    from_head::<T9>(request, response, |a9: T9|
    from_head::<T10>(request, response, |a10: T10|
    from_head::<T11>(request, response, |a11: T11|
    from_head::<T12>(request, response, |a12: T12|
    from_whole::<T13>(request, response, |a13: T13|
        from_result::<Res>(response, |result: Res|
            call_ensures(f, (
                a1, a2, a3, a4, a5, a6, a7, a8, a9, a10, a11, a12, a13,
            ), result)))))))))))))))
}

impl<F, Res, T1, T2, T3, T4, T5, T6, T7, T8, T9, T10, T11, T12, T13> Handler for FunctionHandler<(
    (T1, T2, T3, T4, T5, T6, T7, T8, T9, T10, T11, T12, T13),
    Res,
), F> where
    F: Fn(T1, T2, T3, T4, T5, T6, T7, T8, T9, T10, T11, T12, T13) -> Res + Send + Sync,
    Res: IntoResponse + Send + Sync,
    T1: FromRequestParts + Send + Sync,
    T2: FromRequestParts + Send + Sync,
    T3: FromRequestParts + Send + Sync,
    T4: FromRequestParts + Send + Sync,
    T5: FromRequestParts + Send + Sync,
    T6: FromRequestParts + Send + Sync,
    T7: FromRequestParts + Send + Sync,
    T8: FromRequestParts + Send + Sync,
    T9: FromRequestParts + Send + Sync,
    T10: FromRequestParts + Send + Sync,
    T11: FromRequestParts + Send + Sync,
    T12: FromRequestParts + Send + Sync,
    T13: FromRequest + Send + Sync,
 {
    open spec fn total(&self) -> bool {
        accepts_13::<F, Res, T1, T2, T3, T4, T5, T6, T7, T8, T9, T10, T11, T12, T13>(self.f)
    }

    open spec fn handles(&self, request: RequestView, response: ResponseView) -> bool {
        answers_13::<
            F, Res, T1, T2, T3, T4, T5, T6, T7, T8, T9, T10, T11, T12, T13,
        >(self.f, request, response)
    }

    fn call(&self, request: Request) -> (response: Response) {
        let ghost whole = request@;
        let (parts, body) = request.into_parts();
        assert(parts@ == whole.head);
        let a1 = match T1::from_request_parts(&parts) {
            Ok(value) => value,
            Err(rejection) => {
                return rejection.into_response();
            },
        };
        let a2 = match T2::from_request_parts(&parts) {
            Ok(value) => value,
            Err(rejection) => {
                return rejection.into_response();
            },
        };
        let a3 = match T3::from_request_parts(&parts) {
            Ok(value) => value,
            Err(rejection) => {
                return rejection.into_response();
            },
        };
        let a4 = match T4::from_request_parts(&parts) {
            Ok(value) => value,
            Err(rejection) => {
                return rejection.into_response();
            },
        };
        let a5 = match T5::from_request_parts(&parts) {
            Ok(value) => value,
            Err(rejection) => {
                return rejection.into_response();
            },
        };
        let a6 = match T6::from_request_parts(&parts) {
            Ok(value) => value,
            Err(rejection) => {
                return rejection.into_response();
            },
        };
        let a7 = match T7::from_request_parts(&parts) {
            Ok(value) => value,
            Err(rejection) => {
                return rejection.into_response();
            },
        };
        let a8 = match T8::from_request_parts(&parts) {
            Ok(value) => value,
            Err(rejection) => {
                return rejection.into_response();
            },
        };
        let a9 = match T9::from_request_parts(&parts) {
            Ok(value) => value,
            Err(rejection) => {
                return rejection.into_response();
            },
        };
        let a10 = match T10::from_request_parts(&parts) {
            Ok(value) => value,
            Err(rejection) => {
                return rejection.into_response();
            },
        };
        let a11 = match T11::from_request_parts(&parts) {
            Ok(value) => value,
            Err(rejection) => {
                return rejection.into_response();
            },
        };
        let a12 = match T12::from_request_parts(&parts) {
            Ok(value) => value,
            Err(rejection) => {
                return rejection.into_response();
            },
        };
        let request = Request::from_parts(parts, body);
        assert(request@ == whole);
        let a13 = match T13::from_request(request) {
            Ok(value) => value,
            Err(rejection) => {
                return rejection.into_response();
            },
        };
        let result = (self.f)(a1, a2, a3, a4, a5, a6, a7, a8, a9, a10, a11, a12, a13);
        result.into_response()
    }
}

impl<F, Res, T1, T2, T3, T4, T5, T6, T7, T8, T9, T10, T11, T12, T13> IntoHandler<(
    (T1, T2, T3, T4, T5, T6, T7, T8, T9, T10, T11, T12, T13),
    Res,
)> for F where
    F: Fn(T1, T2, T3, T4, T5, T6, T7, T8, T9, T10, T11, T12, T13) -> Res + Send + Sync,
    Res: IntoResponse + Send + Sync,
    T1: FromRequestParts + Send + Sync,
    T2: FromRequestParts + Send + Sync,
    T3: FromRequestParts + Send + Sync,
    T4: FromRequestParts + Send + Sync,
    T5: FromRequestParts + Send + Sync,
    T6: FromRequestParts + Send + Sync,
    T7: FromRequestParts + Send + Sync,
    T8: FromRequestParts + Send + Sync,
    T9: FromRequestParts + Send + Sync,
    T10: FromRequestParts + Send + Sync,
    T11: FromRequestParts + Send + Sync,
    T12: FromRequestParts + Send + Sync,
    T13: FromRequest + Send + Sync,
 {
    type Handler = FunctionHandler<(
        (T1, T2, T3, T4, T5, T6, T7, T8, T9, T10, T11, T12, T13),
        Res,
    ), F>;

    open spec fn accepts_all(&self) -> bool {
        accepts_13::<F, Res, T1, T2, T3, T4, T5, T6, T7, T8, T9, T10, T11, T12, T13>(*self)
    }

    open spec fn answers(&self, request: RequestView, response: ResponseView) -> bool {
        answers_13::<
            F, Res, T1, T2, T3, T4, T5, T6, T7, T8, T9, T10, T11, T12, T13,
        >(*self, request, response)
    }

    open spec fn reads_alike(first: RequestView, second: RequestView) -> bool {
        &&& first.head == second.head
        &&& forall|outcome: Result<T13, Rejection>|
            T13::extracted_from(first, outcome) == T13::extracted_from(second, outcome)
    }

    fn into_handler(self) -> (handler: Self::Handler) {
        FunctionHandler { f: self, marker: PhantomData }
    }

    proof fn lemma_body_is_read_once(
        &self,
        first: RequestView,
        second: RequestView,
        response: ResponseView,
    ) {
    }
}

/// What a function of 13 parameters is as a handler: it may be called when
/// `accepts_13` holds of it, and it answers as `answers_13` says.
pub proof fn lemma_function_13<
    F, Res, T1, T2, T3, T4, T5, T6, T7, T8, T9, T10, T11, T12, T13,
>(f: F) where
    F: Fn(T1, T2, T3, T4, T5, T6, T7, T8, T9, T10, T11, T12, T13) -> Res + Send + Sync,
    Res: IntoResponse + Send + Sync,
    T1: FromRequestParts + Send + Sync,
    T2: FromRequestParts + Send + Sync,
    T3: FromRequestParts + Send + Sync,
    T4: FromRequestParts + Send + Sync,
    T5: FromRequestParts + Send + Sync,
    T6: FromRequestParts + Send + Sync,
    T7: FromRequestParts + Send + Sync,
    T8: FromRequestParts + Send + Sync,
    T9: FromRequestParts + Send + Sync,
    T10: FromRequestParts + Send + Sync,
    T11: FromRequestParts + Send + Sync,
    T12: FromRequestParts + Send + Sync,
    T13: FromRequest + Send + Sync,

    ensures
        accepts_everything::<F, ((T1, T2, T3, T4, T5, T6, T7, T8, T9, T10, T11, T12, T13), Res)>(f)
            == accepts_13::<F, Res, T1, T2, T3, T4, T5, T6, T7, T8, T9, T10, T11, T12, T13>(f),
        forall|request: RequestView, response: ResponseView| #[trigger]
            answers_as_handler::<F, (
                (T1, T2, T3, T4, T5, T6, T7, T8, T9, T10, T11, T12, T13),
                Res,
            )>(f, request, response)
                == answers_13::<
                    F, Res, T1, T2, T3, T4, T5, T6, T7, T8, T9, T10, T11, T12, T13,
                >(f, request, response),
{
}

/// Whether a function of 14 parameters may be called on every argument.
pub open spec fn accepts_14<
    F, Res, T1, T2, T3, T4, T5, T6, T7, T8, T9, T10, T11, T12, T13, T14,
>(f: F) -> bool where
    F: Fn(T1, T2, T3, T4, T5, T6, T7, T8, T9, T10, T11, T12, T13, T14) -> Res + Send + Sync,
    Res: IntoResponse + Send + Sync,
    T1: FromRequestParts + Send + Sync,
    T2: FromRequestParts + Send + Sync,
    T3: FromRequestParts + Send + Sync,
    T4: FromRequestParts + Send + Sync,
    T5: FromRequestParts + Send + Sync,
    T6: FromRequestParts + Send + Sync,
    T7: FromRequestParts + Send + Sync,
    T8: FromRequestParts + Send + Sync,
    T9: FromRequestParts + Send + Sync,
    T10: FromRequestParts + Send + Sync,
    T11: FromRequestParts + Send + Sync,
    T12: FromRequestParts + Send + Sync,
    T13: FromRequestParts + Send + Sync,
    T14: FromRequest + Send + Sync,
 {
    forall|
        a1: T1, a2: T2, a3: T3, a4: T4, a5: T5, a6: T6, a7: T7, a8: T8, a9: T9, a10: T10, a11: T11,
        a12: T12, a13: T13, a14: T14,
    |
        call_requires(f, (a1, a2, a3, a4, a5, a6, a7, a8, a9, a10, a11, a12, a13, a14))
}

/// Whether `response` is an answer to `request` of a function of
/// 14 parameters that is wrapped as a handler.
pub open spec fn answers_14<F, Res, T1, T2, T3, T4, T5, T6, T7, T8, T9, T10, T11, T12, T13, T14>(
    f: F,
    request: RequestView,
    response: ResponseView,
) -> bool where
    F: Fn(T1, T2, T3, T4, T5, T6, T7, T8, T9, T10, T11, T12, T13, T14) -> Res + Send + Sync,
    Res: IntoResponse + Send + Sync,
    T1: FromRequestParts + Send + Sync,
    T2: FromRequestParts + Send + Sync,
    T3: FromRequestParts + Send + Sync,
    T4: FromRequestParts + Send + Sync,
    T5: FromRequestParts + Send + Sync,
    T6: FromRequestParts + Send + Sync,
    T7: FromRequestParts + Send + Sync,
    T8: FromRequestParts + Send + Sync,
    T9: FromRequestParts + Send + Sync,
    T10: FromRequestParts + Send + Sync,
    T11: FromRequestParts + Send + Sync,
    T12: FromRequestParts + Send + Sync,
    T13: FromRequestParts + Send + Sync,
    T14: FromRequest + Send + Sync,
 {
    from_head::<T1>(request, response, |a1: T1|
    from_head::<T2>(request, response, |a2: T2|
    from_head::<T3>(request, response, |a3: T3|
    from_head::<T4>(request, response, |a4: T4|
    from_head::<T5>(request, response, |a5: T5|
    from_head::<T6>(request, response, |a6: T6|
    from_head::<T7>(request, response, |a7: T7|
    from_head::<T8>(request, response, |a8: T8|
    from_head::<T9>(request, response, |a9: T9|
    from_head::<T10>(request, response, |a10: T10|
    from_head::<T11>(request, response, |a11: T11|
    from_head::<T12>(request, response, |a12: T12|
    from_head::<T13>(request, response, |a13: T13|
    from_whole::<T14>(request, response, |a14: T14|
        from_result::<Res>(response, |result: Res|
            call_ensures(f, (
                a1, a2, a3, a4, a5, a6, a7, a8, a9, a10, a11, a12, a13, a14,
            ), result))))))))))))))))
}

impl<
    F, Res, T1, T2, T3, T4, T5, T6, T7, T8, T9, T10, T11, T12, T13, T14,
> Handler for FunctionHandler<
    ((T1, T2, T3, T4, T5, T6, T7, T8, T9, T10, T11, T12, T13, T14), Res),
    F,
> where
    F: Fn(T1, T2, T3, T4, T5, T6, T7, T8, T9, T10, T11, T12, T13, T14) -> Res + Send + Sync,
    Res: IntoResponse + Send + Sync,
    T1: FromRequestParts + Send + Sync,
    T2: FromRequestParts + Send + Sync,
    T3: FromRequestParts + Send + Sync,
    T4: FromRequestParts + Send + Sync,
    T5: FromRequestParts + Send + Sync,
    T6: FromRequestParts + Send + Sync,
    T7: FromRequestParts + Send + Sync,
    T8: FromRequestParts + Send + Sync,
    T9: FromRequestParts + Send + Sync,
    T10: FromRequestParts + Send + Sync,
    T11: FromRequestParts + Send + Sync,
    T12: FromRequestParts + Send + Sync,
    T13: FromRequestParts + Send + Sync,
    T14: FromRequest + Send + Sync,
 {
    open spec fn total(&self) -> bool {
        accepts_14::<F, Res, T1, T2, T3, T4, T5, T6, T7, T8, T9, T10, T11, T12, T13, T14>(self.f)
    }

    open spec fn handles(&self, request: RequestView, response: ResponseView) -> bool {
        answers_14::<
            F, Res, T1, T2, T3, T4, T5, T6, T7, T8, T9, T10, T11, T12, T13, T14,
        >(self.f, request, response)
    }

    fn call(&self, request: Request) -> (response: Response) {
        let ghost whole = request@;
        let (parts, body) = request.into_parts();
        assert(parts@ == whole.head);
        let a1 = match T1::from_request_parts(&parts) {
            Ok(value) => value,
            Err(rejection) => {
                return rejection.into_response();
            },
        };
        let a2 = match T2::from_request_parts(&parts) {
            Ok(value) => value,
            Err(rejection) => {
                return rejection.into_response();
            },
        };
        let a3 = match T3::from_request_parts(&parts) {
            Ok(value) => value,
            Err(rejection) => {
                return rejection.into_response();
            },
        };
        let a4 = match T4::from_request_parts(&parts) {
            Ok(value) => value,
            Err(rejection) => {
                return rejection.into_response();
            },
        };
        let a5 = match T5::from_request_parts(&parts) {
            Ok(value) => value,
            Err(rejection) => {
                return rejection.into_response();
            },
        };
        let a6 = match T6::from_request_parts(&parts) {
            Ok(value) => value,
            Err(rejection) => {
                return rejection.into_response();
            },
        };
        let a7 = match T7::from_request_parts(&parts) {
            Ok(value) => value,
            Err(rejection) => {
                return rejection.into_response();
            },
        };
        let a8 = match T8::from_request_parts(&parts) {
            Ok(value) => value,
            Err(rejection) => {
                return rejection.into_response();
            },
        };
        let a9 = match T9::from_request_parts(&parts) {
            Ok(value) => value,
            Err(rejection) => {
                return rejection.into_response();
            },
        };
        let a10 = match T10::from_request_parts(&parts) {
            Ok(value) => value,
            Err(rejection) => {
                return rejection.into_response();
            },
        };
        let a11 = match T11::from_request_parts(&parts) {
            Ok(value) => value,
            Err(rejection) => {
                return rejection.into_response();
            },
        };
        let a12 = match T12::from_request_parts(&parts) {
            Ok(value) => value,
            Err(rejection) => {
                return rejection.into_response();
            },
        };
        let a13 = match T13::from_request_parts(&parts) {
            Ok(value) => value,
            Err(rejection) => {
                return rejection.into_response();
            },
        };
        let request = Request::from_parts(parts, body);
        assert(request@ == whole);
        let a14 = match T14::from_request(request) {
            Ok(value) => value,
            Err(rejection) => {
                return rejection.into_response();
            },
        };
        let result = (self.f)(a1, a2, a3, a4, a5, a6, a7, a8, a9, a10, a11, a12, a13, a14);
        result.into_response()
    }
}

impl<F, Res, T1, T2, T3, T4, T5, T6, T7, T8, T9, T10, T11, T12, T13, T14> IntoHandler<(
    (T1, T2, T3, T4, T5, T6, T7, T8, T9, T10, T11, T12, T13, T14),
    Res,
)> for F where
    F: Fn(T1, T2, T3, T4, T5, T6, T7, T8, T9, T10, T11, T12, T13, T14) -> Res + Send + Sync,
    Res: IntoResponse + Send + Sync,
    T1: FromRequestParts + Send + Sync,
    T2: FromRequestParts + Send + Sync,
    T3: FromRequestParts + Send + Sync,
    T4: FromRequestParts + Send + Sync,
    T5: FromRequestParts + Send + Sync,
    T6: FromRequestParts + Send + Sync,
    T7: FromRequestParts + Send + Sync,
    T8: FromRequestParts + Send + Sync,
    T9: FromRequestParts + Send + Sync,
    T10: FromRequestParts + Send + Sync,
    T11: FromRequestParts + Send + Sync,
    T12: FromRequestParts + Send + Sync,
    T13: FromRequestParts + Send + Sync,
    T14: FromRequest + Send + Sync,
 {
    type Handler = FunctionHandler<(
        (T1, T2, T3, T4, T5, T6, T7, T8, T9, T10, T11, T12, T13, T14),
        Res,
    ), F>;

    open spec fn accepts_all(&self) -> bool {
        accepts_14::<F, Res, T1, T2, T3, T4, T5, T6, T7, T8, T9, T10, T11, T12, T13, T14>(*self)
    }

    open spec fn answers(&self, request: RequestView, response: ResponseView) -> bool {
        answers_14::<
            F, Res, T1, T2, T3, T4, T5, T6, T7, T8, T9, T10, T11, T12, T13, T14,
        >(*self, request, response)
    }

    open spec fn reads_alike(first: RequestView, second: RequestView) -> bool {
        &&& first.head == second.head
        &&& forall|outcome: Result<T14, Rejection>|
            T14::extracted_from(first, outcome) == T14::extracted_from(second, outcome)
    }

    fn into_handler(self) -> (handler: Self::Handler) {
        FunctionHandler { f: self, marker: PhantomData }
    }

    proof fn lemma_body_is_read_once(
        &self,
        first: RequestView,
        second: RequestView,
        response: ResponseView,
    ) {
    }
}

/// What a function of 14 parameters is as a handler: it may be called when
/// `accepts_14` holds of it, and it answers as `answers_14` says.
pub proof fn lemma_function_14<
    F, Res, T1, T2, T3, T4, T5, T6, T7, T8, T9, T10, T11, T12, T13, T14,
>(f: F) where
    F: Fn(T1, T2, T3, T4, T5, T6, T7, T8, T9, T10, T11, T12, T13, T14) -> Res + Send + Sync,
    Res: IntoResponse + Send + Sync,
    T1: FromRequestParts + Send + Sync,
    T2: FromRequestParts + Send + Sync,
    T3: FromRequestParts + Send + Sync,
    T4: FromRequestParts + Send + Sync,
    T5: FromRequestParts + Send + Sync,
    T6: FromRequestParts + Send + Sync,
    T7: FromRequestParts + Send + Sync,
    T8: FromRequestParts + Send + Sync,
    T9: FromRequestParts + Send + Sync,
    T10: FromRequestParts + Send + Sync,
    T11: FromRequestParts + Send + Sync,
    T12: FromRequestParts + Send + Sync,
    T13: FromRequestParts + Send + Sync,
    T14: FromRequest + Send + Sync,

    ensures
        accepts_everything::<F, (
            (T1, T2, T3, T4, T5, T6, T7, T8, T9, T10, T11, T12, T13, T14),
            Res,
        )>(f)
            == accepts_14::<F, Res, T1, T2, T3, T4, T5, T6, T7, T8, T9, T10, T11, T12, T13, T14>(f),
        forall|request: RequestView, response: ResponseView| #[trigger]
            answers_as_handler::<F, (
                (T1, T2, T3, T4, T5, T6, T7, T8, T9, T10, T11, T12, T13, T14),
                Res,
            )>(f, request, response)
                == answers_14::<
                    F, Res, T1, T2, T3, T4, T5, T6, T7, T8, T9, T10, T11, T12, T13, T14,
                >(f, request, response),
{
}

} // verus!
