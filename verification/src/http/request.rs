use vstd::prelude::*;
use vstd::utf8::decode_utf8;
use vstd::utf8::valid_utf8;
use crate::http::method::Method;
use crate::http::response::HeadersView;
use crate::http::response::Rejection;

verus! {

/// The error of `String::from_utf8`.
#[verifier::external_type_specification]
#[verifier::external_body]
pub struct ExFromUtf8Error(std::string::FromUtf8Error);

/// `String::from_utf8` checks that the bytes are valid UTF-8 and, if they
/// are, makes a string of them; otherwise it returns an error.
pub assume_specification[ String::from_utf8 ](bytes: Vec<u8>) -> (r: Result<
    String,
    std::string::FromUtf8Error,
>)
    ensures
        r is Ok <==> valid_utf8(bytes@),
        r matches Ok(text) ==> text@ == decode_utf8(bytes@),
;

/// The head of a request: everything but the body.
#[derive(Debug)]
pub struct Parts {
    pub method: Method,
    pub path: String,
    pub headers: Vec<(String, String)>,
}

/// The head of a request as a mathematical value.
pub struct PartsView {
    pub method: Seq<char>,
    pub path: Seq<char>,
    pub headers: HeadersView,
}

/// The body of a request, fully read.
pub type Body = String;

/// A request: a head and a body that has been read into memory.
#[derive(Debug)]
pub struct Request {
    pub head: Parts,
    pub body: Body,
}

/// A request as a mathematical value.
pub struct RequestView {
    pub head: PartsView,
    pub body: Seq<char>,
}

impl View for Parts {
    type V = PartsView;

    open spec fn view(&self) -> PartsView {
        PartsView {
            method: self.method@,
            path: self.path@,
            headers: self.headers.deep_view(),
        }
    }
}

impl View for Request {
    type V = RequestView;

    open spec fn view(&self) -> RequestView {
        RequestView { head: self.head@, body: self.body@ }
    }
}

impl Parts {
    /// A head with the given method and path and no header fields.
    pub fn new(method: Method, path: &str) -> (parts: Parts)
        ensures
            parts@ == (PartsView { method: method@, path: path@, headers: Seq::empty() }),
    {
        let parts = Parts { method, path: path.to_owned(), headers: Vec::new() };
        assert(parts.headers.deep_view() =~= Seq::empty());
        parts
    }

    /// The same head with one more header field at the end.
    pub fn with_header(self, name: &str, value: &str) -> (parts: Parts)
        ensures
            parts@ == (PartsView { headers: self@.headers.push((name@, value@)), ..self@ }),
    {
        let Parts { method, path, mut headers } = self;
        let ghost before = headers.deep_view();
        headers.push((name.to_owned(), value.to_owned()));
        assert(headers.deep_view() =~= before.push((name@, value@)));
        Parts { method, path, headers }
    }
}

impl Request {
    /// A request with the given method, path and body and no header fields.
    pub fn new(method: Method, path: &str, body: &str) -> (request: Request)
        ensures
            request@.head == (PartsView { method: method@, path: path@, headers: Seq::empty() }),
            request@.body == body@,
    {
        Request { head: Parts::new(method, path), body: body.to_owned() }
    }

    /// Puts a head and the bytes of a body together. The bytes have to be
    /// text in UTF-8; if they are not, the request is rejected.
    pub fn from_bytes(head: Parts, body: Vec<u8>) -> (r: Result<Request, Rejection>)
        ensures
            valid_utf8(body@) ==> (r matches Ok(request) && request.head == head && request.body@
                == decode_utf8(body@)),
            !valid_utf8(body@) ==> (r matches Err(rejection) && rejection.reason@
                == "request body is not valid UTF-8"@),
    {
        match String::from_utf8(body) {
            Ok(text) => Ok(Request { head, body: text }),
            Err(_) => Err(Rejection::new("request body is not valid UTF-8")),
        }
    }

    /// Puts a head and a body together.
    pub fn from_parts(head: Parts, body: Body) -> (request: Request)
        ensures
            request.head == head,
            request.body == body,
    {
        Request { head, body }
    }

    /// Takes the request apart into its head and its body.
    pub fn into_parts(self) -> (parts: (Parts, Body))
        ensures
            parts.0 == self.head,
            parts.1 == self.body,
    {
        (self.head, self.body)
    }

    /// The body alone; the head is dropped.
    pub fn into_body(self) -> (body: Body)
        ensures
            body == self.body,
    {
        self.body
    }

    /// The request's method.
    pub fn method(&self) -> (method: &Method)
        ensures
            *method == self.head.method,
    {
        &self.head.method
    }

    /// The request's path.
    pub fn path(&self) -> (path: &str)
        ensures
            path@ == self@.head.path,
    {
        self.head.path.as_str()
    }
}

/// A value that is extracted from the head of a request alone. The body is
/// not within reach, so such an extraction can be repeated, and several can be
/// made in any order.
pub trait FromRequestParts: Sized {
    /// Whether `outcome` is what extracting from `parts` gives.
    /// Where an impl does not say, nothing is known.
    open spec fn extracted(parts: PartsView, outcome: Result<Self, Rejection>) -> bool {
        true
    }

    fn from_request_parts(parts: &Parts) -> (outcome: Result<Self, Rejection>)
        ensures
            Self::extracted(parts@, outcome),
    ;
}

/// A value that is extracted from a whole request, which it consumes, body
/// included.
pub trait FromRequest: Sized {
    /// Whether `outcome` is what extracting from `request` gives.
    /// Where an impl does not say, nothing is known.
    open spec fn extracted_from(request: RequestView, outcome: Result<Self, Rejection>) -> bool {
        true
    }

    fn from_request(request: Request) -> (outcome: Result<Self, Rejection>)
        ensures
            Self::extracted_from(request@, outcome),
    ;
}

impl FromRequestParts for Method {
    open spec fn extracted(parts: PartsView, outcome: Result<Self, Rejection>) -> bool {
        outcome matches Ok(method) && method@ == parts.method
    }

    fn from_request_parts(parts: &Parts) -> (outcome: Result<Self, Rejection>) {
        Ok(parts.method.clone())
    }
}

/// The whole path of a request.
#[derive(Debug)]
pub struct Path(pub String);

impl FromRequestParts for Path {
    open spec fn extracted(parts: PartsView, outcome: Result<Self, Rejection>) -> bool {
        outcome matches Ok(path) && path.0@ == parts.path
    }

    fn from_request_parts(parts: &Parts) -> (outcome: Result<Self, Rejection>) {
        Ok(Path(parts.path.clone()))
    }
}

impl FromRequest for Body {
    open spec fn extracted_from(request: RequestView, outcome: Result<Self, Rejection>) -> bool {
        outcome matches Ok(body) && body@ == request.body
    }

    fn from_request(request: Request) -> (outcome: Result<Self, Rejection>) {
        let (_, body) = request.into_parts();
        Ok(body)
    }
}

impl FromRequest for Request {
    open spec fn extracted_from(request: RequestView, outcome: Result<Self, Rejection>) -> bool {
        outcome matches Ok(whole) && whole@ == request
    }

    fn from_request(request: Request) -> (outcome: Result<Self, Rejection>) {
        Ok(request)
    }
}

/// Whatever is extracted from a head is extracted from a request in the same
/// way: from its head, the body being dropped.
impl<T> FromRequest for T where T: FromRequestParts {
    open spec fn extracted_from(request: RequestView, outcome: Result<Self, Rejection>) -> bool {
        T::extracted(request.head, outcome)
    }

    fn from_request(request: Request) -> (outcome: Result<Self, Rejection>) {
        let (parts, _) = request.into_parts();
        T::from_request_parts(&parts)
    }
}

} // verus!
