//! What holds of the facade's operations.
//!
//! The first part is about exchanges run against a function from requests to
//! outcomes: the node and the index as they answer while nothing changes.
//! The second part is about the results that the facade returns over a
//! backend, in the terms in which its operations are specified.

use crate::answer::{estimate_number, max_height, relay_number, AnswerView};
use crate::backend::{
    Failure, FailureKind, FailureView, Reply, ReplyView, Request, RequestView, Utxo,
};
use crate::drive::{
    answers_as, completes, law_completes_as_run, law_single_completes, may_answer, run,
};
use crate::error::{malformed_error, CauseView, ErrorKind, Operation, QueryErrorView, Shape};
use crate::exchange::{
    begin_broadcast, begin_estimate_fee, begin_get_block_hash, begin_get_header,
    begin_get_header_by_hash, begin_get_headers, begin_get_tip, begin_get_tip_height,
    begin_list_unspent, begin_relay_fee, hash_request, header_request, settle, ExchangeView,
};
use crate::fee::{rate_of, sat_per_byte, FeeRate};
use crate::ident::{BlockId, Fingerprint};
use vstd::prelude::*;

verus! {

/// The same error, reported by another operation.
pub open spec fn reported_by(error: QueryErrorView, operation: Operation) -> QueryErrorView {
    QueryErrorView { operation, ..error }
}

/// The same result, with its error reported by another operation.
pub open spec fn result_reported_by(
    result: Result<AnswerView, QueryErrorView>,
    operation: Operation,
) -> Result<AnswerView, QueryErrorView> {
    match result {
        Ok(answer) => Ok(answer),
        Err(error) => Err(reported_by(error, operation)),
    }
}

/// An operation of one request makes that request and settles its outcome.
pub proof fn law_run_single(
    operation: Operation,
    request: RequestView,
    backend: spec_fn(RequestView) -> Result<ReplyView, FailureView>,
)
    ensures
        run(ExchangeView::Single { operation, request }, backend) == settle(
            operation,
            request,
            backend(request),
        ),
{
    let first = ExchangeView::Single { operation, request };
    assert(run(first, backend) == run(first.resume(backend(request)), backend));
}

/// The header of a block is a text or an error.
pub proof fn law_run_header_is_text(
    block: BlockId,
    backend: spec_fn(RequestView) -> Result<ReplyView, FailureView>,
)
    ensures
        run(begin_get_header_by_hash(block), backend) is Err || run(
            begin_get_header_by_hash(block),
            backend,
        ) matches Ok(AnswerView::Text(_)),
{
    law_run_single(Operation::GetHeaderByHash, header_request(block), backend);
}

/// The block at a height is a block or an error, and the header at a height
/// is a text or an error.
pub proof fn law_run_lookups_are_typed(
    height: u32,
    backend: spec_fn(RequestView) -> Result<ReplyView, FailureView>,
)
    ensures
        run(begin_get_block_hash(height), backend) is Err || run(
            begin_get_block_hash(height),
            backend,
        ) matches Ok(AnswerView::Block(_)),
        run(begin_get_header(height), backend) is Err || run(
            begin_get_header(height),
            backend,
        ) matches Ok(AnswerView::Text(_)),
{
    law_run_single(Operation::GetBlockHash, hash_request(height), backend);
    law_run_header_composes(height, backend);
    match run(begin_get_block_hash(height), backend) {
        Ok(AnswerView::Block(found)) => {
            law_run_header_is_text(found, backend);
        },
        _ => {},
    }
}

/// A header by height is the header of the block at that height: where the
/// node names a block for the height, `get_header` ends as
/// `get_header_by_hash` ends for that block; where it names none,
/// `get_header` ends with the error of `get_block_hash`. Only the operation
/// that an error names differs.
pub proof fn law_run_header_composes(
    height: u32,
    backend: spec_fn(RequestView) -> Result<ReplyView, FailureView>,
)
    ensures
        run(begin_get_header(height), backend) == match run(
            begin_get_block_hash(height),
            backend,
        ) {
            Ok(AnswerView::Block(block)) => result_reported_by(
                run(begin_get_header_by_hash(block), backend),
                Operation::GetHeader,
            ),
            other => result_reported_by(other, Operation::GetHeader),
        },
{
    let first = begin_get_header(height);
    let second = first.resume(backend(hash_request(height)));
    assert(run(first, backend) == run(second, backend));
    law_run_single(Operation::GetBlockHash, hash_request(height), backend);
    match second {
        ExchangeView::Single { operation, request } => {
            law_run_single(operation, request, backend);
            let block = request->BlockHeader_block;
            law_run_single(Operation::GetHeaderByHash, header_request(block), backend);
        },
        _ => {
            assert(run(second, backend) == second.result().unwrap());
        },
    }
}

/// The block that an outcome names, if it names one.
pub open spec fn named_block(outcome: Result<ReplyView, FailureView>) -> Option<BlockId> {
    match outcome {
        Ok(ReplyView::Block(block)) => Some(block),
        _ => None,
    }
}

/// Whether an outcome is a text.
pub open spec fn is_text(outcome: Result<ReplyView, FailureView>) -> bool {
    match outcome {
        Ok(ReplyView::Text(_)) => true,
        _ => false,
    }
}

/// A backend that follows one chain: it counts the blocks, names a block for
/// every height up to that count and has the header of each block it names.
pub open spec fn serves_chain(
    backend: spec_fn(RequestView) -> Result<ReplyView, FailureView>,
    tip: u32,
) -> bool {
    &&& backend(RequestView::BlockCount) == Ok::<ReplyView, FailureView>(
        ReplyView::Count(tip as u64),
    )
    &&& forall|height: u32|
        height <= tip ==> {
            let named = named_block(#[trigger] backend(hash_request(height)));
            named is Some && is_text(backend(header_request(named.unwrap())))
        }
}

/// For every height up to the tip of a backend that follows one chain,
/// `get_header` succeeds, and it returns the text that `get_header_by_hash`
/// returns for the block that `get_block_hash` returns for the height.
pub proof fn law_run_header_by_height(
    height: u32,
    tip: u32,
    backend: spec_fn(RequestView) -> Result<ReplyView, FailureView>,
)
    requires
        serves_chain(backend, tip),
        height <= tip,
    ensures
        run(begin_get_header(height), backend) matches Ok(AnswerView::Text(_)),
        run(begin_get_block_hash(height), backend) matches Ok(AnswerView::Block(block)) && run(
            begin_get_header(height),
            backend,
        ) == run(begin_get_header_by_hash(block), backend),
{
    law_run_header_composes(height, backend);
    law_run_single(Operation::GetBlockHash, hash_request(height), backend);
    let block = named_block(backend(hash_request(height))).unwrap();
    law_run_single(Operation::GetHeaderByHash, header_request(block), backend);
}

/// The text of a result that is a text.
pub open spec fn text_of(result: Result<AnswerView, QueryErrorView>) -> Seq<char> {
    match result {
        Ok(AnswerView::Text(text)) => text,
        _ => Seq::empty(),
    }
}

/// The headers that `get_header` returns for each of the heights.
pub open spec fn each_header(
    heights: Seq<u32>,
    backend: spec_fn(RequestView) -> Result<ReplyView, FailureView>,
) -> Seq<Seq<char>> {
    Seq::new(heights.len(), |i: int| text_of(run(begin_get_header(heights[i]), backend)))
}

/// A batch that has just found the block at the next height.
proof fn lemma_batch_step(
    heights: Seq<u32>,
    collected: Seq<Seq<char>>,
    backend: spec_fn(RequestView) -> Result<ReplyView, FailureView>,
)
    requires
        collected.len() < heights.len(),
    ensures
        run(ExchangeView::Batch { heights, collected, block: None }, backend) == match run(
            begin_get_header(heights[collected.len() as int]),
            backend,
        ) {
            Ok(AnswerView::Text(header)) => run(
                ExchangeView::Batch { heights, collected: collected.push(header), block: None },
                backend,
            ),
            other => result_reported_by(other, Operation::GetHeaders),
        },
{
    let height = heights[collected.len() as int];
    law_run_header_composes(height, backend);
    law_run_single(Operation::GetBlockHash, hash_request(height), backend);
    let first = ExchangeView::Batch { heights, collected, block: None };
    let second = first.resume(backend(hash_request(height)));
    assert(run(first, backend) == run(second, backend));
    match second {
        ExchangeView::Batch { block: Some(block), .. } => {
            law_run_single(Operation::GetHeaderByHash, header_request(block), backend);
            let third = second.resume(backend(header_request(block)));
            assert(run(second, backend) == run(third, backend));
            match third {
                ExchangeView::Batch { .. } => {},
                _ => {
                    assert(run(third, backend) == third.result().unwrap());
                },
            }
        },
        _ => {
            assert(run(second, backend) == second.result().unwrap());
        },
    }
}

/// A batch whose remaining heights all have a header ends with all headers.
proof fn lemma_batch_succeeds(
    heights: Seq<u32>,
    collected: Seq<Seq<char>>,
    backend: spec_fn(RequestView) -> Result<ReplyView, FailureView>,
)
    requires
        collected.len() <= heights.len(),
        collected == each_header(heights, backend).take(collected.len() as int),
        forall|i: int|
            collected.len() <= i < heights.len() ==> run(
                begin_get_header(#[trigger] heights[i]),
                backend,
            ) is Ok,
    ensures
        run(ExchangeView::Batch { heights, collected, block: None }, backend) == Ok::<
            AnswerView,
            QueryErrorView,
        >(AnswerView::Headers(each_header(heights, backend))),
    decreases heights.len() - collected.len(),
{
    let all = each_header(heights, backend);
    let state = ExchangeView::Batch { heights, collected, block: None };
    if collected.len() == heights.len() {
        assert(collected =~= all);
        assert(run(state, backend) == state.result().unwrap());
    } else {
        let height = heights[collected.len() as int];
        lemma_batch_step(heights, collected, backend);
        law_run_lookups_are_typed(height, backend);
        let header = text_of(run(begin_get_header(height), backend));
        let longer = collected.push(header);
        assert(longer =~= all.take(longer.len() as int));
        lemma_batch_succeeds(heights, longer, backend);
    }
}

/// A batch ends with the first failure among its remaining heights.
proof fn lemma_batch_fails(
    heights: Seq<u32>,
    collected: Seq<Seq<char>>,
    failing: int,
    backend: spec_fn(RequestView) -> Result<ReplyView, FailureView>,
)
    requires
        collected.len() <= failing < heights.len(),
        forall|i: int|
            collected.len() <= i < failing ==> run(
                begin_get_header(#[trigger] heights[i]),
                backend,
            ) is Ok,
        run(begin_get_header(heights[failing]), backend) is Err,
    ensures
        run(ExchangeView::Batch { heights, collected, block: None }, backend)
            == result_reported_by(
            run(begin_get_header(heights[failing]), backend),
            Operation::GetHeaders,
        ),
    decreases failing - collected.len(),
{
    lemma_batch_step(heights, collected, backend);
    if collected.len() < failing {
        let height = heights[collected.len() as int];
        law_run_lookups_are_typed(height, backend);
        let header = text_of(run(begin_get_header(height), backend));
        lemma_batch_fails(heights, collected.push(header), failing, backend);
    }
}

/// Where `get_header` succeeds for each of the heights, `get_headers`
/// returns what `get_header` returns for each, in the order of the heights.
pub proof fn law_run_headers_in_order(
    heights: Seq<u32>,
    backend: spec_fn(RequestView) -> Result<ReplyView, FailureView>,
)
    requires
        forall|i: int|
            0 <= i < heights.len() ==> run(begin_get_header(#[trigger] heights[i]), backend) is Ok,
    ensures
        run(begin_get_headers(heights), backend) matches Ok(AnswerView::Headers(headers))
            && headers.len() == heights.len() && forall|i: int|
            0 <= i < heights.len() ==> run(begin_get_header(heights[i]), backend) == Ok::<
                AnswerView,
                QueryErrorView,
            >(AnswerView::Text(#[trigger] headers[i])),
{
    let collected = Seq::<Seq<char>>::empty();
    assert(collected =~= each_header(heights, backend).take(0));
    lemma_batch_succeeds(heights, collected, backend);
    let headers = each_header(heights, backend);
    assert forall|i: int| 0 <= i < heights.len() implies run(begin_get_header(heights[i]), backend)
        == Ok::<AnswerView, QueryErrorView>(AnswerView::Text(#[trigger] headers[i])) by {
        law_run_lookups_are_typed(heights[i], backend);
    }
}

/// Where `get_header` fails for one of the heights, `get_headers` returns no
/// header: it ends with the error of the first height for which
/// `get_header` fails.
pub proof fn law_run_headers_abort(
    heights: Seq<u32>,
    failing: int,
    backend: spec_fn(RequestView) -> Result<ReplyView, FailureView>,
)
    requires
        0 <= failing < heights.len(),
        forall|i: int|
            0 <= i < failing ==> run(begin_get_header(#[trigger] heights[i]), backend) is Ok,
        run(begin_get_header(heights[failing]), backend) is Err,
    ensures
        run(begin_get_headers(heights), backend) == result_reported_by(
            run(begin_get_header(heights[failing]), backend),
            Operation::GetHeaders,
        ),
        run(begin_get_headers(heights), backend) is Err,
{
    lemma_batch_fails(heights, Seq::empty(), failing, backend);
}

/// The tip is the height that the node counts and the block that it names
/// for that height; a failure of either request is the failure of `get_tip`.
pub proof fn law_run_tip_composes(backend: spec_fn(RequestView) -> Result<ReplyView, FailureView>)
    ensures
        run(begin_get_tip(), backend) == match settle(
            Operation::GetTip,
            RequestView::BlockCount,
            backend(RequestView::BlockCount),
        ) {
            Ok(AnswerView::Height(height)) => match settle(
                Operation::GetTip,
                hash_request(height),
                backend(hash_request(height)),
            ) {
                Ok(AnswerView::Block(block)) => Ok(AnswerView::Tip { height, block }),
                other => other,
            },
            other => other,
        },
{
    let first = begin_get_tip();
    let second = first.resume(backend(RequestView::BlockCount));
    assert(run(first, backend) == run(second, backend));
    match second {
        ExchangeView::TipHash { height } => {
            let third = second.resume(backend(hash_request(height)));
            assert(run(second, backend) == run(third, backend));
            assert(run(third, backend) == third.result().unwrap());
        },
        _ => {
            assert(run(second, backend) == second.result().unwrap());
        },
    }
}

/// The height of a tip is the count that the node gave, never a count cut
/// down to fit, and the block is the one that the node named for that
/// height. A count that is too large to be a height ends `get_tip` with
/// `MalformedReply`, and no block is asked for.
pub proof fn law_run_tip_is_the_count(
    backend: spec_fn(RequestView) -> Result<ReplyView, FailureView>,
)
    ensures
        run(begin_get_tip(), backend) matches Ok(AnswerView::Tip { height, block }) ==> backend(
            RequestView::BlockCount,
        ) == Ok::<ReplyView, FailureView>(ReplyView::Count(height as u64)) && backend(
            hash_request(height),
        ) == Ok::<ReplyView, FailureView>(ReplyView::Block(block)),
        run(begin_get_tip(), backend) is Ok ==> run(begin_get_tip(), backend) matches Ok(
            AnswerView::Tip { .. },
        ),
        backend(RequestView::BlockCount) matches Ok(ReplyView::Count(count)) && count
            > max_height() ==> run(begin_get_tip(), backend) == Err::<
            AnswerView,
            QueryErrorView,
        >(malformed_error(Operation::GetTip, RequestView::BlockCount, Shape::Count)),
{
    law_run_tip_composes(backend);
}

/// Asked twice while the chain does not change, `get_tip` returns the same
/// both times: its result depends on nothing but the node's count and the
/// block that the node names for that height.
pub proof fn law_run_tip_repeats(
    first: spec_fn(RequestView) -> Result<ReplyView, FailureView>,
    second: spec_fn(RequestView) -> Result<ReplyView, FailureView>,
)
    requires
        first(RequestView::BlockCount) == second(RequestView::BlockCount),
        forall|height: u32| #[trigger]
            first(hash_request(height)) == second(hash_request(height)),
    ensures
        run(begin_get_tip(), first) == run(begin_get_tip(), second),
{
    law_run_tip_composes(first);
    law_run_tip_composes(second);
}

/// For every height up to the tip of a backend that follows one chain and
/// answers each request in one way only, `get_header` succeeds, and it
/// returns what `get_header_by_hash` returns for the block that
/// `get_block_hash` returns for the height.
pub proof fn law_header_by_height<B: Fn(&Request) -> Result<Reply, Failure>>(
    backend: B,
    answers: spec_fn(RequestView) -> Result<ReplyView, FailureView>,
    tip: u32,
    height: u32,
    block: BlockId,
    by_height: Result<AnswerView, QueryErrorView>,
    by_hash: Result<AnswerView, QueryErrorView>,
)
    requires
        answers_as(backend, answers),
        serves_chain(answers, tip),
        height <= tip,
        completes(backend, begin_get_header(height), by_height),
        completes(
            backend,
            begin_get_block_hash(height),
            Ok::<AnswerView, QueryErrorView>(AnswerView::Block(block)),
        ),
        completes(backend, begin_get_header_by_hash(block), by_hash),
    ensures
        by_height is Ok,
        by_height == by_hash,
{
    law_completes_as_run(backend, answers, begin_get_header(height), by_height);
    law_completes_as_run(
        backend,
        answers,
        begin_get_block_hash(height),
        Ok::<AnswerView, QueryErrorView>(AnswerView::Block(block)),
    );
    law_completes_as_run(backend, answers, begin_get_header_by_hash(block), by_hash);
    law_run_header_by_height(height, tip, answers);
}

/// Over a backend that answers each request in one way only: where
/// `get_header` succeeds for each of the heights, `get_headers` returns what
/// `get_header` returns for each, in the order of the heights.
pub proof fn law_headers_in_order<B: Fn(&Request) -> Result<Reply, Failure>>(
    backend: B,
    answers: spec_fn(RequestView) -> Result<ReplyView, FailureView>,
    heights: Seq<u32>,
    one_by_one: Seq<Result<AnswerView, QueryErrorView>>,
    together: Result<AnswerView, QueryErrorView>,
)
    requires
        answers_as(backend, answers),
        one_by_one.len() == heights.len(),
        forall|i: int|
            0 <= i < heights.len() ==> completes(
                backend,
                begin_get_header(heights[i]),
                #[trigger] one_by_one[i],
            ),
        forall|i: int| 0 <= i < heights.len() ==> (#[trigger] one_by_one[i]) is Ok,
        completes(backend, begin_get_headers(heights), together),
    ensures
        together matches Ok(AnswerView::Headers(headers)) && headers.len() == heights.len()
            && forall|i: int|
            0 <= i < heights.len() ==> one_by_one[i] == Ok::<AnswerView, QueryErrorView>(
                AnswerView::Text(#[trigger] headers[i]),
            ),
{
    assert forall|i: int| 0 <= i < heights.len() implies run(
        begin_get_header(#[trigger] heights[i]),
        answers,
    ) == one_by_one[i] by {
        law_completes_as_run(backend, answers, begin_get_header(heights[i]), one_by_one[i]);
    }
    law_completes_as_run(backend, answers, begin_get_headers(heights), together);
    law_run_headers_in_order(heights, answers);
}

/// Over a backend that answers each request in one way only: where
/// `get_header` fails for one of the heights, `get_headers` returns no
/// header. It fails as `get_header` fails for the first such height; only
/// the operation that the error names differs.
pub proof fn law_headers_abort<B: Fn(&Request) -> Result<Reply, Failure>>(
    backend: B,
    answers: spec_fn(RequestView) -> Result<ReplyView, FailureView>,
    heights: Seq<u32>,
    one_by_one: Seq<Result<AnswerView, QueryErrorView>>,
    failing: int,
    together: Result<AnswerView, QueryErrorView>,
)
    requires
        answers_as(backend, answers),
        one_by_one.len() == heights.len(),
        forall|i: int|
            0 <= i < heights.len() ==> completes(
                backend,
                begin_get_header(heights[i]),
                #[trigger] one_by_one[i],
            ),
        0 <= failing < heights.len(),
        forall|i: int| 0 <= i < failing ==> (#[trigger] one_by_one[i]) is Ok,
        one_by_one[failing] is Err,
        completes(backend, begin_get_headers(heights), together),
    ensures
        together is Err,
        together == result_reported_by(one_by_one[failing], Operation::GetHeaders),
{
    assert forall|i: int| 0 <= i < heights.len() implies run(
        begin_get_header(#[trigger] heights[i]),
        answers,
    ) == one_by_one[i] by {
        law_completes_as_run(backend, answers, begin_get_header(heights[i]), one_by_one[i]);
    }
    law_completes_as_run(backend, answers, begin_get_headers(heights), together);
    law_run_headers_abort(heights, failing, answers);
}

/// Asked twice of a backend that answers each request in one way only, as
/// the node does while the chain does not change, `get_tip` returns the same
/// both times.
pub proof fn law_tip_repeats<B: Fn(&Request) -> Result<Reply, Failure>>(
    backend: B,
    answers: spec_fn(RequestView) -> Result<ReplyView, FailureView>,
    first: Result<AnswerView, QueryErrorView>,
    second: Result<AnswerView, QueryErrorView>,
)
    requires
        answers_as(backend, answers),
        completes(backend, begin_get_tip(), first),
        completes(backend, begin_get_tip(), second),
    ensures
        first == second,
{
    law_completes_as_run(backend, answers, begin_get_tip(), first);
    law_completes_as_run(backend, answers, begin_get_tip(), second);
}

/// What `get_tip_height` returns is a count that the backend gave: the
/// height is that count itself, never a count cut down to fit. Where the
/// backend gave a count that is too large to be a height, `get_tip_height`
/// fails with `MalformedReply`.
pub proof fn law_height_is_the_count<B: Fn(&Request) -> Result<Reply, Failure>>(
    backend: B,
    result: Result<AnswerView, QueryErrorView>,
)
    requires
        completes(backend, begin_get_tip_height(), result),
    ensures
        exists|outcome: Result<ReplyView, FailureView>| #[trigger]
            may_answer(backend, RequestView::BlockCount, outcome) && match outcome {
                Ok(ReplyView::Count(count)) => if count <= max_height() {
                    result == Ok::<AnswerView, QueryErrorView>(AnswerView::Height(count as u32))
                } else {
                    result == Err::<AnswerView, QueryErrorView>(
                        malformed_error(
                            Operation::GetTipHeight,
                            RequestView::BlockCount,
                            Shape::Count,
                        ),
                    )
                },
                _ => result is Err,
            },
        result matches Ok(AnswerView::Height(height)) ==> may_answer(
            backend,
            RequestView::BlockCount,
            Ok(ReplyView::Count(height as u64)),
        ),
        result is Ok ==> result matches Ok(AnswerView::Height(_)),
{
    law_single_completes(backend, Operation::GetTipHeight, RequestView::BlockCount, result);
}

/// Over a backend that answers each request in one way only, the tip that
/// `get_tip` returns holds the count that the backend gives as its height,
/// never a count cut down to fit, and the block that the backend names for
/// that height.
pub proof fn law_tip_is_the_count<B: Fn(&Request) -> Result<Reply, Failure>>(
    backend: B,
    answers: spec_fn(RequestView) -> Result<ReplyView, FailureView>,
    result: Result<AnswerView, QueryErrorView>,
)
    requires
        answers_as(backend, answers),
        completes(backend, begin_get_tip(), result),
    ensures
        result matches Ok(AnswerView::Tip { height, block }) ==> answers(RequestView::BlockCount)
            == Ok::<ReplyView, FailureView>(ReplyView::Count(height as u64)) && answers(
            hash_request(height),
        ) == Ok::<ReplyView, FailureView>(ReplyView::Block(block)),
        result is Ok ==> result matches Ok(AnswerView::Tip { .. }),
        answers(RequestView::BlockCount) matches Ok(ReplyView::Count(count)) && count
            > max_height() ==> result is Err,
{
    law_completes_as_run(backend, answers, begin_get_tip(), result);
    law_run_tip_is_the_count(answers);
}

/// What `estimate_fee` returns is a rate only where the backend answered
/// with an estimate that holds a number in the place of the rate, and then
/// it is the rate for that number. An estimate without a rate gives no rate
/// and no error.
pub proof fn law_estimate_needs_rate<B: Fn(&Request) -> Result<Reply, Failure>>(
    backend: B,
    target: u16,
    result: Result<AnswerView, QueryErrorView>,
)
    requires
        completes(backend, begin_estimate_fee(target), result),
    ensures
        exists|outcome: Result<ReplyView, FailureView>| #[trigger]
            may_answer(backend, RequestView::SmartFee { target }, outcome) && match outcome {
                Ok(ReplyView::FeeEstimate { feerate }) => result == Ok::<
                    AnswerView,
                    QueryErrorView,
                >(AnswerView::Fee(rate_of(estimate_number(feerate)))) && (feerate is None
                    ==> result == Ok::<AnswerView, QueryErrorView>(AnswerView::Fee(None))),
                _ => result is Err,
            },
{
    law_single_completes(
        backend,
        Operation::EstimateFee,
        RequestView::SmartFee { target },
        result,
    );
}

/// What `relay_fee` returns is a rate where the backend answered with a
/// document that holds a number under `minrelaytxfee`, and then the rate for
/// that number; where the backend answered with a document without such a
/// member, or with one that is no number, `relay_fee` fails with
/// `MalformedReply`.
pub proof fn law_relay_fee_needs_number<B: Fn(&Request) -> Result<Reply, Failure>>(
    backend: B,
    result: Result<AnswerView, QueryErrorView>,
)
    requires
        completes(backend, begin_relay_fee(), result),
    ensures
        exists|outcome: Result<ReplyView, FailureView>| #[trigger]
            may_answer(backend, RequestView::MempoolInfo, outcome) && match outcome {
                Ok(ReplyView::Json(document)) => match relay_number(document) {
                    Some(number) => result == Ok::<AnswerView, QueryErrorView>(
                        AnswerView::RelayFee(FeeRate { bits: sat_per_byte(number) }),
                    ),
                    None => result == Err::<AnswerView, QueryErrorView>(
                        malformed_error(
                            Operation::RelayFee,
                            RequestView::MempoolInfo,
                            Shape::MinRelayFee,
                        ),
                    ),
                },
                _ => result is Err,
            },
{
    law_single_completes(backend, Operation::RelayFee, RequestView::MempoolInfo, result);
}

/// Where the index answers with outputs that all have at least `min_conf`
/// confirmations, as it is bound to, `list_unspent` returns no output with
/// fewer.
pub proof fn law_unspent_are_confirmed<B: Fn(&Request) -> Result<Reply, Failure>>(
    backend: B,
    fingerprint: Fingerprint,
    min_conf: u32,
    result: Result<AnswerView, QueryErrorView>,
)
    requires
        completes(backend, begin_list_unspent(fingerprint, min_conf), result),
        forall|outputs: Seq<Utxo>, i: int|
            #![trigger outputs[i]]
            may_answer(
                backend,
                RequestView::Unspent { fingerprint, min_conf },
                Ok(ReplyView::Unspent(outputs)),
            ) && 0 <= i < outputs.len() ==> outputs[i].confirmations >= min_conf,
    ensures
        result matches Ok(AnswerView::Unspent(outputs)) ==> forall|i: int|
            0 <= i < outputs.len() ==> (#[trigger] outputs[i]).confirmations >= min_conf,
        result is Ok ==> result matches Ok(AnswerView::Unspent(_)),
{
    law_single_completes(
        backend,
        Operation::ListUnspent,
        RequestView::Unspent { fingerprint, min_conf },
        result,
    );
}

/// Where the node refuses a transaction, `broadcast` returns no identity: it
/// fails with `Rejected`, and the error holds the node's refusal as it came.
pub proof fn law_refused_broadcast_is_rejected<B: Fn(&Request) -> Result<Reply, Failure>>(
    backend: B,
    tx_hex: Seq<char>,
    result: Result<AnswerView, QueryErrorView>,
)
    requires
        completes(backend, begin_broadcast(tx_hex), result),
        forall|outcome: Result<ReplyView, FailureView>| #[trigger]
            may_answer(backend, RequestView::SendRawTransaction { tx_hex }, outcome) ==> (
            outcome matches Err(failure) && failure.kind == FailureKind::Refused),
    ensures
        result matches Err(error) && error.kind == ErrorKind::Rejected && (
        error.cause matches CauseView::Backend(failure) && may_answer(
            backend,
            RequestView::SendRawTransaction { tx_hex },
            Err(failure),
        )),
{
    law_single_completes(
        backend,
        Operation::Broadcast,
        RequestView::SendRawTransaction { tx_hex },
        result,
    );
}

} // verus!
