use vstd::prelude::*;
use crate::clock::Clock;
use crate::http::request::Request;
use crate::http::request::RequestView;
use crate::http::response::plain;
use crate::http::response::Response;
use crate::http::response::ResponseView;
use crate::http::status::StatusCode;
use crate::http::status::REQUEST_TIMEOUT;
use crate::middleware::is_run;
use crate::middleware::Layer;
use crate::middleware::Service;

verus! {

/// The response to a request whose answer came too late: 408, no header
/// fields, an empty body.
pub open spec fn timed_out() -> ResponseView {
    plain(REQUEST_TIMEOUT, Seq::empty())
}

/// The time from `start` to `end`, or nothing if the clock has gone back.
pub open spec fn span(start: u64, end: u64) -> u64 {
    if end >= start {
        (end - start) as u64
    } else {
        0
    }
}

/// What is returned for an answer that took `elapsed` under a bound of
/// `limit`: the answer itself if it came within the bound, the timeout
/// response otherwise.
pub open spec fn settled(limit: u64, elapsed: u64, response: ResponseView) -> ResponseView {
    if elapsed > limit {
        timed_out()
    } else {
        response
    }
}

/// The time from `start` to `end`.
pub fn time_between(start: u64, end: u64) -> (r: u64)
    ensures
        r == span(start, end),
{
    if end >= start {
        end - start
    } else {
        0
    }
}

/// Decides what to return for an answer that took `elapsed` milliseconds
/// under a bound of `limit`.
pub fn settle(limit: u64, elapsed: u64, response: Response) -> (r: Response)
    ensures
        r@ == settled(limit, elapsed, response@),
{
    if elapsed > limit {
        Response::empty(StatusCode::request_timeout())
    } else {
        response
    }
}

/// The timeout decorator: a bound of `limit` milliseconds, by the time that
/// `clock` reads.
pub struct TimeoutLayer<C> {
    pub limit: u64,
    pub clock: C,
}

/// A service that bounds the time of the inner service's answer. An answer
/// that takes longer than `limit` is dropped and the timeout response is
/// returned in its place. The inner call is not cut short: the decision is
/// taken when it returns.
pub struct Timeout<S, C> {
    pub inner: S,
    pub limit: u64,
    pub clock: C,
}

impl<C> TimeoutLayer<C> {
    pub fn new(limit: u64, clock: C) -> (layer: TimeoutLayer<C>)
        ensures
            layer.limit == limit,
            layer.clock == clock,
    {
        TimeoutLayer { limit, clock }
    }
}

impl<S, C> Layer<S> for TimeoutLayer<C> where C: Clock + Clone {
    type Service = Timeout<S, C>;

    open spec fn wraps(&self, inner: S, outer: Timeout<S, C>) -> bool {
        &&& outer.inner == inner
        &&& outer.limit == self.limit
    }

    fn layer(&self, inner: S) -> (outer: Timeout<S, C>) {
        Timeout { inner, limit: self.limit, clock: self.clock.clone() }
    }
}

/// Whether a service with a timeout in the state `before`, whose inner
/// service answers `request` with `answer` after `elapsed` milliseconds, may
/// return `response` and be in the state `after`.
pub open spec fn bounds<S: Service, C>(
    before: Timeout<S, C>,
    elapsed: u64,
    answer: ResponseView,
    request: RequestView,
    after: Timeout<S, C>,
    response: ResponseView,
) -> bool {
    &&& after.clock == before.clock
    &&& after.limit == before.limit
    &&& before.inner.serves(request, after.inner, answer)
    &&& response == settled(before.limit, elapsed, answer)
}

impl<S, C> Service for Timeout<S, C> where S: Service, C: Clock {
    open spec fn serves(&self, request: RequestView, after: Self, response: ResponseView) -> bool {
        exists|elapsed: u64, answer: ResponseView| #[trigger]
            bounds(*self, elapsed, answer, request, after, response)
    }

    fn call(&mut self, request: Request) -> (response: Response) {
        let ghost before = *self;
        let start = self.clock.millis();
        let answer = self.inner.call(request);
        let end = self.clock.millis();
        let took = time_between(start, end);
        let response = settle(self.limit, took, answer);
        assert(bounds(before, took, answer@, request@, *self, response@));
        response
    }
}

/// Whether a service with a timeout answers `requests` in turn with
/// `responses`, where its inner service answers them with `answers` and
/// takes `spans` to do so.
pub open spec fn is_bounded_run<S: Service, C>(
    states: Seq<Timeout<S, C>>,
    spans: Seq<u64>,
    answers: Seq<ResponseView>,
    requests: Seq<RequestView>,
    responses: Seq<ResponseView>,
) -> bool {
    &&& states.len() == requests.len() + 1
    &&& responses.len() == requests.len()
    &&& spans.len() == requests.len()
    &&& answers.len() == requests.len()
    &&& forall|i: int|
        0 <= i < requests.len() ==> bounds(
            states[i],
            spans[i],
            answers[i],
            #[trigger] requests[i],
            states[i + 1],
            responses[i],
        )
}

/// The inner services of the states of a service with a timeout.
pub open spec fn inner_states<S, C>(states: Seq<Timeout<S, C>>) -> Seq<S> {
    states.map_values(|state: Timeout<S, C>| state.inner)
}

/// In every run of a service with a timeout, each call has an answer of the
/// inner service and a time that the answer took.
pub proof fn lemma_run_has_answers<S: Service, C: Clock>(
    states: Seq<Timeout<S, C>>,
    requests: Seq<RequestView>,
    responses: Seq<ResponseView>,
)
    requires
        is_run(states, requests, responses),
    ensures
        exists|spans: Seq<u64>, answers: Seq<ResponseView>|
            is_bounded_run(states, spans, answers, requests, responses),
{
    let pick = |i: int|
        choose|pair: (u64, ResponseView)|
            bounds(states[i], pair.0, pair.1, requests[i], states[i + 1], responses[i]);
    let spans = Seq::new(requests.len(), |i: int| pick(i).0);
    let answers = Seq::new(requests.len(), |i: int| pick(i).1);
    assert forall|i: int| 0 <= i < requests.len() implies bounds(
        states[i],
        spans[i],
        answers[i],
        #[trigger] requests[i],
        states[i + 1],
        responses[i],
    ) by {
        assert(states[i].serves(requests[i], states[i + 1], responses[i]));
        let elapsed = choose|elapsed: u64, answer: ResponseView| #[trigger]
            bounds(states[i], elapsed, answer, requests[i], states[i + 1], responses[i]);
        assert(bounds(
            states[i],
            (elapsed.0, elapsed.1).0,
            (elapsed.0, elapsed.1).1,
            requests[i],
            states[i + 1],
            responses[i],
        ));
    }
    assert(is_bounded_run(states, spans, answers, requests, responses));
}

/// Whether the response of the index `i` of a run is what the timeout of
/// the run's first state settles for the inner service's answer.
pub open spec fn is_settled<S, C>(
    states: Seq<Timeout<S, C>>,
    spans: Seq<u64>,
    answers: Seq<ResponseView>,
    responses: Seq<ResponseView>,
    i: int,
) -> bool {
    responses[i] == settled(states[0].limit, spans[i], answers[i])
}

/// A run of a service with a timeout is a run of its inner service: the
/// inner service answers the same requests, in the same turn, and each
/// response is what the timeout settles for the answer, by the bound that
/// the service started with.
pub proof fn lemma_timeout_keeps_the_run<S: Service, C: Clock>(
    states: Seq<Timeout<S, C>>,
    spans: Seq<u64>,
    answers: Seq<ResponseView>,
    requests: Seq<RequestView>,
    responses: Seq<ResponseView>,
)
    requires
        is_bounded_run(states, spans, answers, requests, responses),
    ensures
        is_run(inner_states(states), requests, answers),
        forall|i: int|
            0 <= i < requests.len() ==> #[trigger] is_settled(states, spans, answers, responses, i),
{
    assert forall|i: int| 0 <= i < requests.len() implies inner_states(states)[i].serves(
        #[trigger] requests[i],
        inner_states(states)[i + 1],
        answers[i],
    ) by {
        assert(bounds(states[i], spans[i], answers[i], requests[i], states[i + 1], responses[i]));
    }
    assert forall|i: int| 0 <= i < requests.len() implies #[trigger] is_settled(
        states,
        spans,
        answers,
        responses,
        i,
    ) by {
        lemma_limit_stays(states, spans, answers, requests, responses, i);
        assert(bounds(states[i], spans[i], answers[i], requests[i], states[i + 1], responses[i]));
    }
}

/// The bound of a service with a timeout is the same in every state of a
/// run.
proof fn lemma_limit_stays<S: Service, C: Clock>(
    states: Seq<Timeout<S, C>>,
    spans: Seq<u64>,
    answers: Seq<ResponseView>,
    requests: Seq<RequestView>,
    responses: Seq<ResponseView>,
    i: int,
)
    requires
        is_bounded_run(states, spans, answers, requests, responses),
        0 <= i <= requests.len(),
    ensures
        states[i].limit == states[0].limit,
    decreases i,
{
    if i > 0 {
        lemma_limit_stays(states, spans, answers, requests, responses, i - 1);
        assert(bounds(
            states[i - 1],
            spans[i - 1],
            answers[i - 1],
            requests[i - 1],
            states[i - 1 + 1],
            responses[i - 1],
        ));
    }
}

} // verus!
