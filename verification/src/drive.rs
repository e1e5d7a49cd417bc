//! Carrying an exchange through with a backend at hand.
//!
//! A backend here is any function that answers one request. It may reach a
//! node over the network or look into a table; nothing is assumed of what it
//! answers, and it may answer the same request differently each time. Where
//! it does answer each request in one way only, as the node and the index do
//! while nothing changes, it is modelled by a mathematical function.

use crate::answer::{Answer, AnswerView};
use crate::backend::{outcome_view, Failure, FailureView, Reply, ReplyView, Request, RequestView};
use crate::error::{Operation, QueryError, QueryErrorView};
use crate::exchange::{
    law_result_has_kind, law_resume_keeps_kind, result_view, settle, Exchange, ExchangeView,
};
use vstd::prelude::*;

verus! {

/// The result of an exchange whose requests `backend` answers.
pub open spec fn run(
    exchange: ExchangeView,
    backend: spec_fn(RequestView) -> Result<ReplyView, FailureView>,
) -> Result<AnswerView, QueryErrorView>
    decreases exchange.steps_left(),
{
    match exchange.pending() {
        Some(request) => run(exchange.resume(backend(request)), backend),
        None => exchange.result().unwrap(),
    }
}

/// The exchange after it was resumed with each of the outcomes in turn.
pub open spec fn replay(
    exchange: ExchangeView,
    outcomes: Seq<Result<ReplyView, FailureView>>,
) -> ExchangeView
    decreases outcomes.len(),
{
    if outcomes.len() == 0 {
        exchange
    } else {
        replay(exchange, outcomes.drop_last()).resume(outcomes.last())
    }
}

/// Whether `outcome` is something that `backend` can answer to `request`.
pub open spec fn may_answer<B: Fn(&Request) -> Result<Reply, Failure>>(
    backend: B,
    request: RequestView,
    outcome: Result<ReplyView, FailureView>,
) -> bool {
    exists|asked: Request, given: Result<Reply, Failure>|
        asked@ == request && call_ensures(backend, (&asked,), given) && outcome_view(given)
            == outcome
}

/// Whether `backend` answers each request in one way only, the way that
/// `answers` gives: so the node and the index behave while nothing changes.
pub open spec fn answers_as<B: Fn(&Request) -> Result<Reply, Failure>>(
    backend: B,
    answers: spec_fn(RequestView) -> Result<ReplyView, FailureView>,
) -> bool {
    forall|request: RequestView, outcome: Result<ReplyView, FailureView>|
        may_answer(backend, request, outcome) ==> outcome == answers(request)
}

/// Whether the outcomes are what `backend` answered to the requests that the
/// exchange made one after another: the first outcome to the request that
/// the exchange starts with, each further one to the request that is pending
/// after the outcomes before it.
pub open spec fn answered_by<B: Fn(&Request) -> Result<Reply, Failure>>(
    backend: B,
    exchange: ExchangeView,
    outcomes: Seq<Result<ReplyView, FailureView>>,
) -> bool
    decreases outcomes.len(),
{
    outcomes.len() == 0 || {
        let before = replay(exchange, outcomes.drop_last());
        &&& answered_by(backend, exchange, outcomes.drop_last())
        &&& before.pending() is Some
        &&& may_answer(backend, before.pending().unwrap(), outcomes.last())
    }
}

/// Whether `result` is what the exchange ends with when `backend` answers
/// its requests: there are outcomes, one for each request that the exchange
/// made, each of them something that the backend can answer to that request,
/// and `result` is the result that the exchange has after them.
pub open spec fn completes<B: Fn(&Request) -> Result<Reply, Failure>>(
    backend: B,
    exchange: ExchangeView,
    result: Result<AnswerView, QueryErrorView>,
) -> bool {
    exists|outcomes: Seq<Result<ReplyView, FailureView>>|
        {
            &&& #[trigger] answered_by(backend, exchange, outcomes)
            &&& replay(exchange, outcomes).result() == Some(result)
            &&& outcomes.len() <= exchange.steps_left()
        }
}

/// Resuming an exchange any number of times does not change the kind of
/// answer that it ends with.
pub proof fn law_replay_keeps_kind(
    exchange: ExchangeView,
    outcomes: Seq<Result<ReplyView, FailureView>>,
)
    ensures
        replay(exchange, outcomes).gives() is None || replay(exchange, outcomes).gives()
            == exchange.gives(),
        replay(exchange, outcomes).result() matches Some(Ok(answer)) ==> Some(answer.kind())
            == exchange.gives(),
    decreases outcomes.len(),
{
    if outcomes.len() > 0 {
        law_replay_keeps_kind(exchange, outcomes.drop_last());
        law_resume_keeps_kind(replay(exchange, outcomes.drop_last()), outcomes.last());
    }
    law_result_has_kind(replay(exchange, outcomes));
}

/// Carries an exchange through: asks `backend` each request that the
/// exchange makes, in order, resumes the exchange with what came back, and
/// returns the result once no request is left.
///
/// The result is the one that the exchange reaches on the outcomes that the
/// backend gave, the backend is asked no more often than the exchange has
/// steps, and an answer is of the kind that the exchange gives.
pub fn complete<B: Fn(&Request) -> Result<Reply, Failure>>(
    exchange: Exchange,
    backend: &B,
) -> (result: Result<Answer, QueryError>)
    requires
        forall|request: &Request| #[trigger] call_requires(*backend, (request,)),
    ensures
        completes(*backend, exchange@, result_view(result)),
        result matches Ok(answer) ==> Some(answer@.kind()) == exchange@.gives(),
{
    let ghost start = exchange@;
    let ghost mut outcomes: Seq<Result<ReplyView, FailureView>> = Seq::empty();
    let mut current = exchange;
    loop
        invariant
            forall|request: &Request| #[trigger] call_requires(*backend, (request,)),
            start == exchange@,
            answered_by(*backend, start, outcomes),
            replay(start, outcomes) == current@,
            outcomes.len() + current@.steps_left() <= start.steps_left(),
        decreases current@.steps_left(),
    {
        match current.request() {
            Some(request) => {
                let outcome = backend(&request);
                proof {
                    let longer = outcomes.push(outcome_view(outcome));
                    assert(longer.drop_last() =~= outcomes);
                    assert(may_answer(*backend, request@, outcome_view(outcome)));
                    outcomes = longer;
                }
                current = current.resume(outcome);
            },
            None => {
                proof {
                    law_replay_keeps_kind(start, outcomes);
                }
                let result = current.result();
                match result {
                    Some(result) => {
                        return result;
                    },
                    None => {
                        proof {
                            assert(false);
                        }
                        return unreached();
                    },
                }
            },
        }
    }
}

/// Carrying an exchange through with a backend that answers each request in
/// one way only gives the result of the exchange run against those answers.
pub proof fn law_complete_runs<B: Fn(&Request) -> Result<Reply, Failure>>(
    backend: B,
    answers: spec_fn(RequestView) -> Result<ReplyView, FailureView>,
    exchange: ExchangeView,
    outcomes: Seq<Result<ReplyView, FailureView>>,
)
    requires
        answers_as(backend, answers),
        answered_by(backend, exchange, outcomes),
    ensures
        run(replay(exchange, outcomes), answers) == run(exchange, answers),
        replay(exchange, outcomes).pending() is None ==> replay(exchange, outcomes).result()
            == Some(run(exchange, answers)),
    decreases outcomes.len(),
{
    if outcomes.len() > 0 {
        law_complete_runs(backend, answers, exchange, outcomes.drop_last());
        let before = replay(exchange, outcomes.drop_last());
        let request = before.pending().unwrap();
        assert(run(before, answers) == run(before.resume(answers(request)), answers));
    }
    let reached = replay(exchange, outcomes);
    if reached.pending() is None {
        assert(run(reached, answers) == reached.result().unwrap());
    }
}

/// An exchange of one request ends with what the operation makes of one
/// outcome that the backend gave for that request.
pub proof fn law_single_completes<B: Fn(&Request) -> Result<Reply, Failure>>(
    backend: B,
    operation: Operation,
    request: RequestView,
    result: Result<AnswerView, QueryErrorView>,
)
    requires
        completes(backend, ExchangeView::Single { operation, request }, result),
    ensures
        exists|outcome: Result<ReplyView, FailureView>| #[trigger]
            may_answer(backend, request, outcome) && result == settle(operation, request, outcome),
{
    let exchange = ExchangeView::Single { operation, request };
    let outcomes = choose|outcomes: Seq<Result<ReplyView, FailureView>>|
        {
            &&& #[trigger] answered_by(backend, exchange, outcomes)
            &&& replay(exchange, outcomes).result() == Some(result)
            &&& outcomes.len() <= exchange.steps_left()
        };
    assert(outcomes.len() == 1);
    assert(outcomes.drop_last().len() == 0);
    assert(replay(exchange, outcomes.drop_last()) == exchange);
    assert(may_answer(backend, request, outcomes.last()));
}

/// With a backend that answers each request in one way only, the result
/// that an exchange ends with is the result of running it against those
/// answers.
pub proof fn law_completes_as_run<B: Fn(&Request) -> Result<Reply, Failure>>(
    backend: B,
    answers: spec_fn(RequestView) -> Result<ReplyView, FailureView>,
    exchange: ExchangeView,
    result: Result<AnswerView, QueryErrorView>,
)
    requires
        answers_as(backend, answers),
        completes(backend, exchange, result),
    ensures
        result == run(exchange, answers),
{
    let outcomes = choose|outcomes: Seq<Result<ReplyView, FailureView>>|
        {
            &&& #[trigger] answered_by(backend, exchange, outcomes)
            &&& replay(exchange, outcomes).result() == Some(result)
            &&& outcomes.len() <= exchange.steps_left()
        };
    law_complete_runs(backend, answers, exchange, outcomes);
}

} // verus!
