use vstd::prelude::*;
use crate::http::status::StatusCode;
use crate::http::status::OK;
use crate::http::status::BAD_REQUEST;

verus! {

/// A list of header fields as mathematical values: name and value of each,
/// in the order in which they were added.
pub type HeadersView = Seq<(Seq<char>, Seq<char>)>;

/// An HTTP response: status code, header fields and a body of text.
#[derive(Debug)]
pub struct Response {
    pub status: StatusCode,
    pub headers: Vec<(String, String)>,
    pub body: String,
}

/// A response as a mathematical value.
pub struct ResponseView {
    pub status: u16,
    pub headers: HeadersView,
    pub body: Seq<char>,
}

impl View for Response {
    type V = ResponseView;

    open spec fn view(&self) -> ResponseView {
        ResponseView {
            status: self.status@,
            headers: self.headers.deep_view(),
            body: self.body@,
        }
    }
}

/// The response with the given status and body and no header fields.
pub open spec fn plain(status: u16, body: Seq<char>) -> ResponseView {
    ResponseView { status, headers: Seq::empty(), body }
}

/// Why a value could not be extracted from a request. It becomes a
/// 400 Bad Request response whose body is the reason.
#[derive(Debug)]
pub struct Rejection {
    pub reason: String,
}

impl Response {
    /// A response with the given status and body and no header fields.
    pub fn new(status: StatusCode, body: String) -> (r: Response)
        ensures
            r@ == plain(status@, body@),
    {
        let r = Response { status, headers: Vec::new(), body };
        assert(r.headers.deep_view() =~= Seq::empty());
        r
    }

    /// A response with the given status, no header fields and an empty body.
    pub fn empty(status: StatusCode) -> (r: Response)
        ensures
            r@ == plain(status@, Seq::empty()),
    {
        Response::new(status, String::new())
    }

    /// The same response with one more header field at the end.
    pub fn with_header(self, name: &str, value: &str) -> (r: Response)
        ensures
            r@ == (ResponseView { headers: self@.headers.push((name@, value@)), ..self@ }),
    {
        let Response { status, mut headers, body } = self;
        let ghost before = headers.deep_view();
        headers.push((name.to_owned(), value.to_owned()));
        assert(headers.deep_view() =~= before.push((name@, value@)));
        Response { status, headers, body }
    }
}

/// A value that can be turned into a response. The conversion is total: it
/// has no precondition and always yields a response.
pub trait IntoResponse: Sized {
    /// Whether `response` is what `self` converts to.
    /// Where an impl does not say, nothing is known.
    open spec fn converts_to(self, response: ResponseView) -> bool {
        true
    }

    fn into_response(self) -> (response: Response)
        ensures
            self.converts_to(response@),
    ;
}

impl IntoResponse for Response {
    open spec fn converts_to(self, response: ResponseView) -> bool {
        response == self@
    }

    fn into_response(self) -> (response: Response) {
        self
    }
}

impl IntoResponse for () {
    open spec fn converts_to(self, response: ResponseView) -> bool {
        response == plain(OK, Seq::empty())
    }

    fn into_response(self) -> (response: Response) {
        Response::empty(StatusCode::ok())
    }
}

impl<T> IntoResponse for Result<T, StatusCode> where T: IntoResponse {
    open spec fn converts_to(self, response: ResponseView) -> bool {
        match self {
            Ok(value) => value.converts_to(response),
            Err(status) => response == plain(status@, Seq::empty()),
        }
    }

    fn into_response(self) -> (response: Response) {
        match self {
            Ok(value) => value.into_response(),
            Err(status) => Response::empty(status),
        }
    }
}

impl<T, E> IntoResponse for Result<T, E> where T: IntoResponse, E: IntoResponse {
    open spec fn converts_to(self, response: ResponseView) -> bool {
        match self {
            Ok(value) => value.converts_to(response),
            Err(error) => error.converts_to(response),
        }
    }

    fn into_response(self) -> (response: Response) {
        match self {
            Ok(value) => value.into_response(),
            Err(error) => error.into_response(),
        }
    }
}

impl IntoResponse for String {
    open spec fn converts_to(self, response: ResponseView) -> bool {
        response == plain(OK, self@)
    }

    fn into_response(self) -> (response: Response) {
        Response::new(StatusCode::ok(), self)
    }
}

impl IntoResponse for &str {
    open spec fn converts_to(self, response: ResponseView) -> bool {
        response == plain(OK, self@)
    }

    fn into_response(self) -> (response: Response) {
        Response::new(StatusCode::ok(), self.to_owned())
    }
}

impl IntoResponse for Rejection {
    open spec fn converts_to(self, response: ResponseView) -> bool {
        response == plain(BAD_REQUEST, self.reason@)
    }

    fn into_response(self) -> (response: Response) {
        Response::new(StatusCode::bad_request(), self.reason)
    }
}

impl Rejection {
    /// A rejection with the given reason.
    pub fn new(reason: &str) -> (r: Rejection)
        ensures
            r.reason@ == reason@,
    {
        Rejection { reason: reason.to_owned() }
    }
}

} // verus!
