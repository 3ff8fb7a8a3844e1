use vstd::prelude::*;
use std::collections::VecDeque;
use crate::clock::Clock;
use crate::http::request::Request;
use crate::http::request::RequestView;
use crate::http::response::plain;
use crate::http::response::Response;
use crate::http::response::ResponseView;
use crate::http::status::StatusCode;
use crate::http::status::TOO_MANY_REQUESTS;
use crate::middleware::is_run;
use crate::middleware::Layer;
use crate::middleware::Service;
use crate::timeout::inner_states;
use crate::timeout::is_bounded_run;
use crate::timeout::is_settled;
use crate::timeout::lemma_timeout_keeps_the_run;
use crate::timeout::Timeout;

verus! {

/// The state of a rate limiter as a mathematical value.
///
/// `recent` holds the times of the latest admissions, oldest first, at most
/// `budget` of them. `last` is the latest time that the limiter has seen.
pub struct LimiterView {
    pub budget: nat,
    pub window: nat,
    pub recent: Seq<u64>,
    pub last: u64,
}

/// The time that a request counts for: the time it came with, or the latest
/// time seen before it if the clock has gone back.
pub open spec fn effective(state: LimiterView, now: u64) -> u64 {
    if now > state.last {
        now
    } else {
        state.last
    }
}

/// Whether a limiter in `state` admits a request at `now`: the budget is not
/// zero, and fewer than `budget` admissions lie less than `window` before the
/// request.
pub open spec fn admits(state: LimiterView, now: u64) -> bool {
    &&& state.budget > 0
    &&& (state.recent.len() < state.budget || effective(state, now) - state.recent[0]
        >= state.window)
}

/// The state of a limiter that was in `state` and has decided on a request
/// at `now`.
pub open spec fn after_request(state: LimiterView, now: u64) -> LimiterView {
    let time = effective(state, now);
    let recent = if !admits(state, now) {
        state.recent
    } else if state.recent.len() < state.budget {
        state.recent.push(time)
    } else {
        state.recent.subrange(1, state.recent.len() as int).push(time)
    };
    LimiterView { recent, last: time, ..state }
}

/// The state of a limiter that has not seen a request yet.
pub open spec fn fresh(budget: nat, window: nat) -> LimiterView {
    LimiterView { budget, window, recent: Seq::empty(), last: 0 }
}

/// What every state of a limiter satisfies: it holds at most `budget` times,
/// in the order of time, none later than the latest time seen.
pub open spec fn orderly(state: LimiterView) -> bool {
    &&& state.recent.len() <= state.budget
    &&& forall|i: int, j: int| 0 <= i <= j < state.recent.len() ==> state.recent[i] <= state.recent[j]
    &&& forall|i: int| 0 <= i < state.recent.len() ==> state.recent[i] <= state.last
}

/// A sliding-window rate limiter: of the requests that it decides on, it
/// admits at most `budget` in any span of time shorter than `window`.
/// Times are in milliseconds.
pub struct RateLimiter {
    budget: usize,
    window: u64,
    recent: VecDeque<u64>,
    last: u64,
}

impl View for RateLimiter {
    type V = LimiterView;

    closed spec fn view(&self) -> LimiterView {
        LimiterView {
            budget: self.budget as nat,
            window: self.window as nat,
            recent: self.recent@,
            last: self.last,
        }
    }
}

impl RateLimiter {
    #[verifier::type_invariant]
    spec fn inv(self) -> bool {
        orderly(self@)
    }

    /// A limiter that admits `budget` requests per `window` milliseconds.
    pub fn new(budget: usize, window: u64) -> (limiter: RateLimiter)
        ensures
            limiter@ == fresh(budget as nat, window as nat),
    {
        RateLimiter { budget, window, recent: VecDeque::new(), last: 0 }
    }

    /// The limiter after deciding on a request at `now`, and the decision.
    fn decided(self, now: u64) -> (r: (RateLimiter, bool))
        ensures
            r.0@ == after_request(self@, now),
            r.1 == admits(self@, now),
    {
        proof {
            use_type_invariant(&self);
        }
        let RateLimiter { budget, window, mut recent, last } = self;
        let time = if now > last {
            now
        } else {
            last
        };
        let admitted = budget > 0 && (recent.len() < budget || time - recent[0] >= window);
        if admitted {
            if recent.len() >= budget {
                let _ = recent.pop_front();
            }
            recent.push_back(time);
        }
        (RateLimiter { budget, window, recent, last: time }, admitted)
    }

    /// Decides on a request at `now`, and remembers it if it is admitted.
    pub fn acquire(&mut self, now: u64) -> (admitted: bool)
        ensures
            admitted == admits(old(self)@, now),
            final(self)@ == after_request(old(self)@, now),
    {
        let mut taken = RateLimiter::new(0, 0);
        std::mem::swap(self, &mut taken);
        let (next, admitted) = taken.decided(now);
        *self = next;
        admitted
    }
}

/// The response to a request that is over the budget: 429, no header
/// fields, an empty body.
pub open spec fn too_many_requests() -> ResponseView {
    plain(TOO_MANY_REQUESTS, Seq::empty())
}

/// The rate-limiting decorator: `budget` requests per `window` milliseconds,
/// by the time that `clock` reads.
pub struct RateLimitLayer<C> {
    pub budget: usize,
    pub window: u64,
    pub clock: C,
}

/// A service that hands a request on only if its limiter admits it, and
/// answers it with a 429 response otherwise. A refused request does not
/// reach the inner service.
pub struct RateLimit<S, C> {
    pub inner: S,
    pub limiter: RateLimiter,
    pub clock: C,
}

impl<C> RateLimitLayer<C> {
    pub fn new(budget: usize, window: u64, clock: C) -> (layer: RateLimitLayer<C>)
        ensures
            layer.budget == budget,
            layer.window == window,
            layer.clock == clock,
    {
        RateLimitLayer { budget, window, clock }
    }
}

impl<S, C> Layer<S> for RateLimitLayer<C> where C: Clock + Clone {
    type Service = RateLimit<S, C>;

    open spec fn wraps(&self, inner: S, outer: RateLimit<S, C>) -> bool {
        &&& outer.inner == inner
        &&& outer.limiter@ == fresh(self.budget as nat, self.window as nat)
    }

    fn layer(&self, inner: S) -> (outer: RateLimit<S, C>) {
        RateLimit {
            inner,
            limiter: RateLimiter::new(self.budget, self.window),
            clock: self.clock.clone(),
        }
    }
}

/// Whether a rate-limited service in the state `before` that reads the time
/// `now` may answer `request` with `response` and be in the state `after`.
pub open spec fn limits<S: Service, C>(
    before: RateLimit<S, C>,
    now: u64,
    request: RequestView,
    after: RateLimit<S, C>,
    response: ResponseView,
) -> bool {
    &&& after.clock == before.clock
    &&& after.limiter@ == after_request(before.limiter@, now)
    &&& if admits(before.limiter@, now) {
        before.inner.serves(request, after.inner, response)
    } else {
        after.inner == before.inner && response == too_many_requests()
    }
}

impl<S, C> Service for RateLimit<S, C> where S: Service, C: Clock {
    open spec fn serves(&self, request: RequestView, after: Self, response: ResponseView) -> bool {
        exists|now: u64| #[trigger] limits(*self, now, request, after, response)
    }

    fn call(&mut self, request: Request) -> (response: Response) {
        let ghost before = *self;
        let now = self.clock.millis();
        let response = if self.limiter.acquire(now) {
            self.inner.call(request)
        } else {
            Response::empty(StatusCode::too_many_requests())
        };
        assert(limits(before, now, request@, *self, response@));
        response
    }
}

/// The state of a limiter that was in `state` and has decided on a request
/// at each of `times`, in turn.
pub open spec fn after_all(state: LimiterView, times: Seq<u64>) -> LimiterView
    decreases times.len(),
{
    if times.len() == 0 {
        state
    } else {
        after_request(after_all(state, times.drop_last()), times.last())
    }
}

/// Whether a limiter that starts in `state` and decides on a request at each
/// of `times`, in turn, admits the one at the index `i`.
pub open spec fn admits_nth(state: LimiterView, times: Seq<u64>, i: int) -> bool {
    admits(after_all(state, times.take(i)), times[i])
}

/// The times that the admitted ones among `times` count for, in turn.
pub open spec fn admissions(state: LimiterView, times: Seq<u64>) -> Seq<u64>
    decreases times.len(),
{
    if times.len() == 0 {
        Seq::empty()
    } else {
        let before = after_all(state, times.drop_last());
        let earlier = admissions(state, times.drop_last());
        if admits(before, times.last()) {
            earlier.push(effective(before, times.last()))
        } else {
            earlier
        }
    }
}

/// Whether `recent` holds the latest `budget` of the admissions `history`,
/// or all of them if they are fewer.
spec fn is_tail(recent: Seq<u64>, history: Seq<u64>, budget: nat) -> bool {
    let kept = if history.len() < budget {
        history.len()
    } else {
        budget
    };
    &&& recent.len() == kept
    &&& forall|i: int| 0 <= i < kept ==> recent[i] == history[history.len() - kept + i]
}

/// What holds of a fresh limiter after any requests: its state is orderly
/// and holds the latest admissions; the admissions are in the order of
/// time, and any `budget + 1` of them in a row span at least `window`.
proof fn lemma_history(budget: nat, window: nat, times: Seq<u64>)
    ensures
        ({
            let state = after_all(fresh(budget, window), times);
            let history = admissions(fresh(budget, window), times);
            &&& state.budget == budget
            &&& state.window == window
            &&& orderly(state)
            &&& is_tail(state.recent, history, budget)
            &&& forall|i: int| 0 <= i < history.len() ==> history[i] <= state.last
            &&& forall|i: int, j: int| 0 <= i <= j < history.len() ==> history[i] <= history[j]
            &&& forall|i: int|
                0 <= i && i + budget < history.len() ==> history[i + budget] - #[trigger] history[i]
                    >= window
        }),
    decreases times.len(),
{
    if times.len() > 0 {
        lemma_history(budget, window, times.drop_last());
        let before = after_all(fresh(budget, window), times.drop_last());
        let earlier = admissions(fresh(budget, window), times.drop_last());
        let state = after_all(fresh(budget, window), times);
        let history = admissions(fresh(budget, window), times);
        let time = effective(before, times.last());
        if admits(before, times.last()) {
            assert(history == earlier.push(time));
            assert(forall|i: int| 0 <= i < earlier.len() ==> history[i] == earlier[i]);
            assert(history[earlier.len() as int] == time);
            if before.recent.len() < budget {
                assert(state.recent == before.recent.push(time));
            } else {
                assert(state.recent == before.recent.subrange(
                    1,
                    before.recent.len() as int,
                ).push(time));
                assert(before.recent[0] == earlier[earlier.len() - budget]);
            }
            assert(is_tail(state.recent, history, budget));
        }
    }
}

/// Of the requests that a fresh limiter decides on, whatever their times,
/// it admits at most `budget` in any span of time shorter than `window`:
/// the admissions are in the order of time, and between an admission and the
/// one that comes `budget` admissions later at least `window` has passed.
pub proof fn lemma_at_most_budget_per_window(budget: nat, window: nat, times: Seq<u64>)
    ensures
        forall|i: int, j: int|
            0 <= i <= j < admissions(fresh(budget, window), times).len() ==> admissions(
                fresh(budget, window),
                times,
            )[i] <= admissions(fresh(budget, window), times)[j],
        forall|i: int|
            0 <= i && i + budget < admissions(fresh(budget, window), times).len()
                ==> admissions(fresh(budget, window), times)[i + budget] - #[trigger] admissions(
                fresh(budget, window),
                times,
            )[i] >= window,
{
    lemma_history(budget, window, times);
}

/// A fresh limiter that has decided on requests at `times` admits the next
/// one, at `now`, exactly when there is room for it: the budget is not zero,
/// and either fewer than `budget` requests have been admitted so far, or
/// the one that was admitted `budget` admissions ago lies at least `window`
/// back. As the admissions are in the order of time, this is to say that
/// fewer than `budget` of them lie less than `window` before the request.
pub proof fn lemma_admitted_when_room(budget: nat, window: nat, times: Seq<u64>, now: u64)
    ensures
        ({
            let state = after_all(fresh(budget, window), times);
            let history = admissions(fresh(budget, window), times);
            admits(state, now) <==> budget > 0 && (history.len() < budget || effective(state, now)
                - history[history.len() - budget] >= window)
        }),
{
    lemma_history(budget, window, times);
}

/// What holds of a fresh limiter after `count` requests, no more than its
/// budget, whose times do not go back: it has admitted them all.
proof fn lemma_prefix(budget: nat, window: nat, times: Seq<u64>, count: int)
    requires
        0 <= count <= times.len(),
        count <= budget,
        forall|i: int, j: int| 0 <= i <= j < times.len() ==> times[i] <= times[j],
    ensures
        ({
            let state = after_all(fresh(budget, window), times.take(count));
            &&& state.budget == budget
            &&& state.window == window
            &&& state.recent == times.take(count)
            &&& count > 0 ==> state.last == times[count - 1]
            &&& count == 0 ==> state.last == 0
        }),
    decreases count,
{
    if count > 0 {
        lemma_prefix(budget, window, times, count - 1);
        assert(times.take(count).drop_last() == times.take(count - 1));
        assert(times.take(count).last() == times[count - 1]);
        let before = after_all(fresh(budget, window), times.take(count - 1));
        if count > 1 {
            assert(times[count - 2] <= times[count - 1]);
        }
        assert(effective(before, times[count - 1]) == times[count - 1]);
        assert(admits(before, times[count - 1]));
        assert(times.take(count - 1).push(times[count - 1]) == times.take(count));
    } else {
        assert(times.take(0) == Seq::<u64>::empty());
    }
}

/// A fresh limiter with a budget of `budget` that sees `budget + 1` requests
/// or more, at times that do not go back, admits the first `budget` of them;
/// and if the next one comes less than `window` after the first, it refuses
/// that one.
pub proof fn lemma_burst(budget: nat, window: nat, times: Seq<u64>)
    requires
        budget < times.len(),
        forall|i: int, j: int| 0 <= i <= j < times.len() ==> times[i] <= times[j],
    ensures
        forall|i: int| 0 <= i < budget ==> admits_nth(fresh(budget, window), times, i),
        times[budget as int] - times[0] < window ==> !admits_nth(
            fresh(budget, window),
            times,
            budget as int,
        ),
{
    assert forall|i: int| 0 <= i < budget implies admits_nth(
        fresh(budget, window),
        times,
        i,
    ) by {
        lemma_prefix(budget, window, times, i);
    }
    lemma_prefix(budget, window, times, budget as int);
    if budget > 0 {
        let before = after_all(fresh(budget, window), times.take(budget as int));
        assert(times[budget - 1] <= times[budget as int]);
        assert(effective(before, times[budget as int]) == times[budget as int]);
        assert(before.recent[0] == times[0]);
    }
}

/// Whether a rate-limited service answers `requests` in turn with
/// `responses`, where `times` are the times that it reads, one for each
/// request.
pub open spec fn is_limited_run<S: Service, C>(
    states: Seq<RateLimit<S, C>>,
    times: Seq<u64>,
    requests: Seq<RequestView>,
    responses: Seq<ResponseView>,
) -> bool {
    &&& states.len() == requests.len() + 1
    &&& responses.len() == requests.len()
    &&& times.len() == requests.len()
    &&& forall|i: int|
        0 <= i < requests.len() ==> limits(
            states[i],
            times[i],
            #[trigger] requests[i],
            states[i + 1],
            responses[i],
        )
}

/// In every run of a rate-limited service, each call has a time that the
/// service read.
pub proof fn lemma_run_reads_times<S: Service, C: Clock>(
    states: Seq<RateLimit<S, C>>,
    requests: Seq<RequestView>,
    responses: Seq<ResponseView>,
)
    requires
        is_run(states, requests, responses),
    ensures
        exists|times: Seq<u64>| is_limited_run(states, times, requests, responses),
{
    let times = Seq::new(
        requests.len(),
        |i: int|
            choose|now: u64| #[trigger]
                limits(states[i], now, requests[i], states[i + 1], responses[i]),
    );
    assert forall|i: int| 0 <= i < requests.len() implies limits(
        states[i],
        times[i],
        #[trigger] requests[i],
        states[i + 1],
        responses[i],
    ) by {
        assert(states[i].serves(requests[i], states[i + 1], responses[i]));
    }
    assert(is_limited_run(states, times, requests, responses));
}

/// The limiter of a rate-limited service that started fresh is, before the
/// call of the index `i` of a run, in the state that the model gives for the
/// times read so far.
proof fn lemma_limiter_follows<S: Service, C>(
    states: Seq<RateLimit<S, C>>,
    times: Seq<u64>,
    requests: Seq<RequestView>,
    responses: Seq<ResponseView>,
    budget: nat,
    window: nat,
    i: int,
)
    requires
        is_limited_run(states, times, requests, responses),
        states[0].limiter@ == fresh(budget, window),
        0 <= i <= requests.len(),
    ensures
        states[i].limiter@ == after_all(fresh(budget, window), times.take(i)),
    decreases i,
{
    if i > 0 {
        lemma_limiter_follows(states, times, requests, responses, budget, window, i - 1);
        assert(limits(
            states[i - 1],
            times[i - 1],
            requests[i - 1],
            states[i - 1 + 1],
            responses[i - 1],
        ));
        assert(times.take(i).drop_last() == times.take(i - 1));
        assert(times.take(i).last() == times[i - 1]);
    } else {
        assert(times.take(0) == Seq::<u64>::empty());
    }
}

/// Whether the call of the index `i` of a run goes as the model of the
/// limiter says for the times read: a request that the model admits reaches
/// the inner service, whose answer is the response; one that the model
/// refuses does not reach it and is answered with the 429 response.
pub open spec fn goes_as_limited<S: Service, C>(
    states: Seq<RateLimit<S, C>>,
    times: Seq<u64>,
    requests: Seq<RequestView>,
    responses: Seq<ResponseView>,
    budget: nat,
    window: nat,
    i: int,
) -> bool {
    if admits_nth(fresh(budget, window), times, i) {
        states[i].inner.serves(requests[i], states[i + 1].inner, responses[i])
    } else {
        states[i + 1].inner == states[i].inner && responses[i] == too_many_requests()
    }
}

/// A run of a rate-limited service that started fresh goes as the model of
/// the limiter says, at every call.
pub proof fn lemma_run_follows_the_limiter<S: Service, C>(
    states: Seq<RateLimit<S, C>>,
    times: Seq<u64>,
    requests: Seq<RequestView>,
    responses: Seq<ResponseView>,
    budget: nat,
    window: nat,
)
    requires
        is_limited_run(states, times, requests, responses),
        states[0].limiter@ == fresh(budget, window),
    ensures
        forall|i: int|
            0 <= i < requests.len() ==> #[trigger] goes_as_limited(
                states,
                times,
                requests,
                responses,
                budget,
                window,
                i,
            ),
{
    assert forall|i: int| 0 <= i < requests.len() implies #[trigger] goes_as_limited(
        states,
        times,
        requests,
        responses,
        budget,
        window,
        i,
    ) by {
        lemma_limiter_follows(states, times, requests, responses, budget, window, i);
        assert(limits(states[i], times[i], requests[i], states[i + 1], responses[i]));
    }
}

/// A rate-limited service that started fresh with a budget of `budget` and
/// is called `budget + 1` times or more, at times that do not go back, hands
/// the first `budget` requests on to the inner service and returns its
/// answers; and if the next request comes less than `window` after the
/// first, it does not hand that one on and answers it with the 429
/// response.
pub proof fn lemma_burst_of_calls<S: Service, C>(
    states: Seq<RateLimit<S, C>>,
    times: Seq<u64>,
    requests: Seq<RequestView>,
    responses: Seq<ResponseView>,
    budget: nat,
    window: nat,
)
    requires
        is_limited_run(states, times, requests, responses),
        states[0].limiter@ == fresh(budget, window),
        budget < requests.len(),
        forall|i: int, j: int| 0 <= i <= j < times.len() ==> times[i] <= times[j],
    ensures
        forall|i: int|
            0 <= i < budget ==> states[i].inner.serves(
                #[trigger] requests[i],
                states[i + 1].inner,
                responses[i],
            ),
        times[budget as int] - times[0] < window ==> responses[budget as int]
            == too_many_requests(),
        times[budget as int] - times[0] < window ==> states[budget as int + 1].inner
            == states[budget as int].inner,
{
    lemma_run_follows_the_limiter(states, times, requests, responses, budget, window);
    lemma_burst(budget, window, times);
    assert forall|i: int| 0 <= i < budget implies states[i].inner.serves(
        #[trigger] requests[i],
        states[i + 1].inner,
        responses[i],
    ) by {
        assert(admits_nth(fresh(budget, window), times, i));
        assert(goes_as_limited(states, times, requests, responses, budget, window, i));
    }
    if times[budget as int] - times[0] < window {
        assert(!admits_nth(fresh(budget, window), times, budget as int));
        assert(goes_as_limited(
            states,
            times,
            requests,
            responses,
            budget,
            window,
            budget as int,
        ));
    }
}

/// The same for a rate-limited service behind a timeout, the timeout being
/// the outer of the two. Where every answer of the rate-limited service
/// comes within the bound of the timeout, the composed service hands the
/// first `budget` requests of a run on to the innermost service and returns
/// its answers; and if the next request comes less than `window` after the
/// first, the innermost service does not see it and the response is the 429
/// response.
pub proof fn lemma_burst_behind_timeout<S: Service, C: Clock, D: Clock>(
    states: Seq<Timeout<RateLimit<S, C>, D>>,
    spans: Seq<u64>,
    answers: Seq<ResponseView>,
    times: Seq<u64>,
    requests: Seq<RequestView>,
    responses: Seq<ResponseView>,
    budget: nat,
    window: nat,
)
    requires
        is_bounded_run(states, spans, answers, requests, responses),
        is_limited_run(inner_states(states), times, requests, answers),
        states[0].inner.limiter@ == fresh(budget, window),
        budget < requests.len(),
        forall|i: int, j: int| 0 <= i <= j < times.len() ==> times[i] <= times[j],
        forall|i: int| 0 <= i < spans.len() ==> #[trigger] spans[i] <= states[0].limit,
    ensures
        forall|i: int|
            0 <= i < budget ==> states[i].inner.inner.serves(
                #[trigger] requests[i],
                states[i + 1].inner.inner,
                responses[i],
            ),
        times[budget as int] - times[0] < window ==> responses[budget as int]
            == too_many_requests(),
        times[budget as int] - times[0] < window ==> states[budget as int + 1].inner.inner
            == states[budget as int].inner.inner,
{
    let inner = inner_states(states);
    lemma_timeout_keeps_the_run(states, spans, answers, requests, responses);
    lemma_burst_of_calls(inner, times, requests, answers, budget, window);
    assert forall|i: int| 0 <= i < requests.len() implies responses[i] == answers[i] by {
        assert(is_settled(states, spans, answers, responses, i));
        assert(spans[i] <= states[0].limit);
    }
    assert forall|i: int| 0 <= i < budget implies states[i].inner.inner.serves(
        #[trigger] requests[i],
        states[i + 1].inner.inner,
        responses[i],
    ) by {
        assert(inner[i].inner.serves(requests[i], inner[i + 1].inner, answers[i]));
    }
}

} // verus!
