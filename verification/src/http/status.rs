use vstd::prelude::*;

verus! {

/// 200 OK.
pub const OK: u16 = 200;

/// 400 Bad Request.
pub const BAD_REQUEST: u16 = 400;

/// 404 Not Found.
pub const NOT_FOUND: u16 = 404;

/// 408 Request Timeout.
pub const REQUEST_TIMEOUT: u16 = 408;

/// 418 I'm a teapot.
pub const IM_A_TEAPOT: u16 = 418;

/// 429 Too Many Requests.
pub const TOO_MANY_REQUESTS: u16 = 429;

/// 500 Internal Server Error.
pub const INTERNAL_SERVER_ERROR: u16 = 500;

/// Whether `code` can stand in a status line: three decimal digits.
pub open spec fn is_status(code: u16) -> bool {
    100 <= code <= 999
}

/// An HTTP status code. Every value holds a code of three digits.
#[derive(Clone, Copy, Debug, PartialEq, Eq, Structural)]
pub struct StatusCode {
    code: u16,
}

impl View for StatusCode {
    type V = u16;

    closed spec fn view(&self) -> u16 {
        self.code
    }
}

impl StatusCode {
    #[verifier::type_invariant]
    spec fn three_digits(self) -> bool {
        is_status(self.code)
    }

    /// The status with the given code, if the code has three digits.
    pub fn from_u16(code: u16) -> (r: Option<StatusCode>)
        ensures
            is_status(code) ==> (r matches Some(s) && s@ == code),
            !is_status(code) ==> r is None,
    {
        if 100 <= code && code <= 999 {
            Some(StatusCode { code })
        } else {
            None
        }
    }

    /// The numeric code.
    pub fn as_u16(&self) -> (code: u16)
        ensures
            code == self@,
            is_status(code),
    {
        proof {
            use_type_invariant(self);
        }
        self.code
    }

    /// 200 OK.
    pub fn ok() -> (s: StatusCode)
        ensures
            s@ == OK,
    {
        StatusCode { code: OK }
    }

    /// 400 Bad Request.
    pub fn bad_request() -> (s: StatusCode)
        ensures
            s@ == BAD_REQUEST,
    {
        StatusCode { code: BAD_REQUEST }
    }

    /// 404 Not Found.
    pub fn not_found() -> (s: StatusCode)
        ensures
            s@ == NOT_FOUND,
    {
        StatusCode { code: NOT_FOUND }
    }

    /// 408 Request Timeout.
    pub fn request_timeout() -> (s: StatusCode)
        ensures
            s@ == REQUEST_TIMEOUT,
    {
        StatusCode { code: REQUEST_TIMEOUT }
    }

    /// 418 I'm a teapot.
    pub fn im_a_teapot() -> (s: StatusCode)
        ensures
            s@ == IM_A_TEAPOT,
    {
        StatusCode { code: IM_A_TEAPOT }
    }

    /// 429 Too Many Requests.
    pub fn too_many_requests() -> (s: StatusCode)
        ensures
            s@ == TOO_MANY_REQUESTS,
    {
        StatusCode { code: TOO_MANY_REQUESTS }
    }

    /// 500 Internal Server Error.
    pub fn internal_server_error() -> (s: StatusCode)
        ensures
            s@ == INTERNAL_SERVER_ERROR,
    {
        StatusCode { code: INTERNAL_SERVER_ERROR }
    }
}

} // verus!
