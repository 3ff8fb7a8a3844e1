use vstd::prelude::*;
use crate::http::response::plain;
use crate::http::response::IntoResponse;
use crate::http::response::Rejection;
use crate::http::response::Response;
use crate::http::response::ResponseView;
use crate::http::status::StatusCode;
use crate::http::status::BAD_REQUEST;
use crate::http::status::INTERNAL_SERVER_ERROR;
use crate::timeout::settled;
use crate::timeout::timed_out;

verus! {

/// How the exchange of one request has ended, as whoever runs the
/// connection reports it.
#[derive(Debug)]
pub enum Exchange {
    /// The body of the request could not be read from the connection.
    Unreadable,
    /// The request was rejected before it reached the service.
    Rejected(Rejection),
    /// The answer did not come in time, and the wait for it was cut.
    TimedOut,
    /// The task that was to answer ended in a fault.
    Faulted,
    /// The service has answered.
    Answered(Response),
}

/// The response that an exchange ends with. Whatever has happened, the
/// client gets a response: 400 with the reason for a request that could not
/// be read or was rejected, the timeout response for an answer that did not
/// come in time, an empty 500 for a fault, and the answer itself otherwise.
pub open spec fn concluded(exchange: Exchange) -> ResponseView {
    match exchange {
        Exchange::Unreadable => plain(BAD_REQUEST, "request body could not be read"@),
        Exchange::Rejected(rejection) => plain(BAD_REQUEST, rejection.reason@),
        Exchange::TimedOut => timed_out(),
        Exchange::Faulted => plain(INTERNAL_SERVER_ERROR, Seq::empty()),
        Exchange::Answered(response) => response@,
    }
}

/// Decides on the response that an exchange ends with.
pub fn conclude(exchange: Exchange) -> (response: Response)
    ensures
        response@ == concluded(exchange),
{
    match exchange {
        Exchange::Unreadable => Rejection::new("request body could not be read").into_response(),
        Exchange::Rejected(rejection) => rejection.into_response(),
        Exchange::TimedOut => Response::empty(StatusCode::request_timeout()),
        Exchange::Faulted => Response::empty(StatusCode::internal_server_error()),
        Exchange::Answered(response) => response,
    }
}

/// A wait that is cut at the bound of a timeout ends as the timeout itself
/// decides for an answer that takes longer than the bound.
pub proof fn lemma_cut_agrees_with_timeout(limit: u64, elapsed: u64, answer: ResponseView)
    requires
        elapsed > limit,
    ensures
        concluded(Exchange::TimedOut) == settled(limit, elapsed, answer),
{
}

} // verus!
