//! One operation of the facade in progress.
//!
//! An [`Exchange`] names the request that is to be made next. The caller has
//! the collaborator answer it and resumes the exchange with the reply or the
//! failure, until there is no request left and the exchange holds the
//! operation's result. An exchange makes its requests one after another and
//! ends at the first failure.

use crate::answer::{
    answer_kind, law_reshape_keeps_kind, reshape, reshape_view, texts, Answer, AnswerKind,
    AnswerView,
};
use crate::backend::{outcome_view, Failure, FailureView, Reply, ReplyView, Request, RequestView};
use crate::error::{backend_error, malformed_error, Operation, QueryError, QueryErrorView};
use crate::ident::{BlockId, Fingerprint, TxId};
use vstd::prelude::*;

verus! {

/// An [`Exchange`] as a mathematical value.
pub enum ExchangeView {
    /// One request is left, and its reply is the answer.
    Single { operation: Operation, request: RequestView },
    /// The tip is asked for, and the height of the chain is not known yet.
    TipCount,
    /// The tip is asked for, and the block at `height` is not known yet.
    TipHash { height: u32 },
    /// A header is asked for by height, and the block is not known yet.
    HeaderHash { height: u32 },
    /// Headers are asked for by height. `collected` holds the headers of the
    /// first heights; `block` is the block at the next height once the node
    /// has named it.
    Batch { heights: Seq<u32>, collected: Seq<Seq<char>>, block: Option<BlockId> },
    /// The operation has ended.
    Done { result: Result<AnswerView, QueryErrorView> },
}

/// The result of an operation as a mathematical value.
pub open spec fn result_view(result: Result<Answer, QueryError>) -> Result<
    AnswerView,
    QueryErrorView,
> {
    match result {
        Ok(answer) => Ok(answer@),
        Err(error) => Err(error@),
    }
}

/// What an operation makes of the outcome of its last request: the answer
/// that the reply amounts to, or the error for the failure or for a reply of
/// the wrong shape.
pub open spec fn settle(
    operation: Operation,
    request: RequestView,
    outcome: Result<ReplyView, FailureView>,
) -> Result<AnswerView, QueryErrorView> {
    match outcome {
        Err(failure) => Err(backend_error(operation, request, failure)),
        Ok(reply) => match reshape_view(request, reply) {
            Ok(answer) => Ok(answer),
            Err(expected) => Err(malformed_error(operation, request, expected)),
        },
    }
}

/// The request for the header of a block as the node stores it.
pub open spec fn header_request(block: BlockId) -> RequestView {
    RequestView::BlockHeader { block, verbose: false }
}

/// The request for the block at a height.
pub open spec fn hash_request(height: u32) -> RequestView {
    RequestView::BlockHash { height: height as u64 }
}

impl ExchangeView {
    /// The request to make next; none when the operation has ended.
    pub open spec fn pending(self) -> Option<RequestView> {
        match self {
            ExchangeView::Single { request, .. } => Some(request),
            ExchangeView::TipCount => Some(RequestView::BlockCount),
            ExchangeView::TipHash { height } => Some(hash_request(height)),
            ExchangeView::HeaderHash { height } => Some(hash_request(height)),
            ExchangeView::Batch { heights, collected, block } => match block {
                Some(block) => Some(header_request(block)),
                None => if collected.len() < heights.len() {
                    Some(hash_request(heights[collected.len() as int]))
                } else {
                    None
                },
            },
            ExchangeView::Done { .. } => None,
        }
    }

    /// The result of the operation, once it has ended. A batch of headers
    /// has ended when there is a header for each height.
    pub open spec fn result(self) -> Option<Result<AnswerView, QueryErrorView>> {
        match self {
            ExchangeView::Done { result } => Some(result),
            ExchangeView::Batch { collected, .. } => if self.pending() is None {
                Some(Ok(AnswerView::Headers(collected)))
            } else {
                None
            },
            _ => None,
        }
    }

    /// The exchange after the pending request had the given outcome. An
    /// exchange that has ended stays as it is.
    ///
    /// A failure, or a reply of the wrong shape, ends the operation with the
    /// error for it. Otherwise the tip goes from the height to the block at
    /// that height; a header by height goes from the block at the height to
    /// the header of that block; a batch does the same for one height after
    /// another, and keeps the headers in that order.
    pub open spec fn resume(self, outcome: Result<ReplyView, FailureView>) -> ExchangeView {
        match self {
            ExchangeView::Single { operation, request } => ExchangeView::Done {
                result: settle(operation, request, outcome),
            },
            ExchangeView::TipCount => match settle(
                Operation::GetTip,
                RequestView::BlockCount,
                outcome,
            ) {
                Ok(AnswerView::Height(height)) => ExchangeView::TipHash { height },
                settled => ExchangeView::Done { result: settled },
            },
            ExchangeView::TipHash { height } => match settle(
                Operation::GetTip,
                hash_request(height),
                outcome,
            ) {
                Ok(AnswerView::Block(block)) => ExchangeView::Done {
                    result: Ok(AnswerView::Tip { height, block }),
                },
                settled => ExchangeView::Done { result: settled },
            },
            ExchangeView::HeaderHash { height } => match settle(
                Operation::GetHeader,
                hash_request(height),
                outcome,
            ) {
                Ok(AnswerView::Block(block)) => ExchangeView::Single {
                    operation: Operation::GetHeader,
                    request: header_request(block),
                },
                settled => ExchangeView::Done { result: settled },
            },
            ExchangeView::Batch { heights, collected, block } => match self.pending() {
                None => self,
                Some(request) => match (block, settle(Operation::GetHeaders, request, outcome)) {
                    (None, Ok(AnswerView::Block(found))) => ExchangeView::Batch {
                        heights,
                        collected,
                        block: Some(found),
                    },
                    (Some(_), Ok(AnswerView::Text(header))) => ExchangeView::Batch {
                        heights,
                        collected: collected.push(header),
                        block: None,
                    },
                    (_, settled) => ExchangeView::Done { result: settled },
                },
            },
            ExchangeView::Done { .. } => self,
        }
    }

    /// The kind of answer that the exchange ends with, unless it ends or has
    /// ended with an error.
    pub open spec fn gives(self) -> Option<AnswerKind> {
        match self {
            ExchangeView::Single { request, .. } => Some(answer_kind(request)),
            ExchangeView::TipCount | ExchangeView::TipHash { .. } => Some(AnswerKind::Tip),
            ExchangeView::HeaderHash { .. } => Some(AnswerKind::Text),
            ExchangeView::Batch { .. } => Some(AnswerKind::Headers),
            ExchangeView::Done { result } => match result {
                Ok(answer) => Some(answer.kind()),
                Err(_) => None,
            },
        }
    }

    /// A bound on the number of requests that the exchange still makes.
    pub open spec fn steps_left(self) -> nat {
        match self {
            ExchangeView::Single { .. } => 1,
            ExchangeView::TipCount => 2,
            ExchangeView::TipHash { .. } => 1,
            ExchangeView::HeaderHash { .. } => 2,
            ExchangeView::Batch { heights, collected, block } => {
                let open = if collected.len() < heights.len() {
                    (heights.len() - collected.len()) as nat
                } else {
                    0
                };
                match block {
                    Some(_) => if open > 0 {
                        (2 * open - 1) as nat
                    } else {
                        1
                    },
                    None => 2 * open,
                }
            },
            ExchangeView::Done { .. } => 0,
        }
    }
}

/// The exchange that `get_tip` starts.
pub open spec fn begin_get_tip() -> ExchangeView {
    ExchangeView::TipCount
}

/// The exchange that `get_tip_height` starts.
pub open spec fn begin_get_tip_height() -> ExchangeView {
    ExchangeView::Single { operation: Operation::GetTipHeight, request: RequestView::BlockCount }
}

/// The exchange that `get_header` starts.
pub open spec fn begin_get_header(height: u32) -> ExchangeView {
    ExchangeView::HeaderHash { height }
}

/// The exchange that `get_headers` starts.
pub open spec fn begin_get_headers(heights: Seq<u32>) -> ExchangeView {
    ExchangeView::Batch { heights, collected: Seq::empty(), block: None }
}

/// The exchange that `get_header_by_hash` starts.
pub open spec fn begin_get_header_by_hash(block: BlockId) -> ExchangeView {
    ExchangeView::Single { operation: Operation::GetHeaderByHash, request: header_request(block) }
}

/// The exchange that `get_block_hash` starts.
pub open spec fn begin_get_block_hash(height: u32) -> ExchangeView {
    ExchangeView::Single { operation: Operation::GetBlockHash, request: hash_request(height) }
}

/// The exchange that `get_block_txids` starts.
pub open spec fn begin_get_block_txids(block: BlockId) -> ExchangeView {
    ExchangeView::Single {
        operation: Operation::GetBlockTxids,
        request: RequestView::BlockInfo { block },
    }
}

/// The exchange that `estimate_fee` starts.
pub open spec fn begin_estimate_fee(target: u16) -> ExchangeView {
    ExchangeView::Single {
        operation: Operation::EstimateFee,
        request: RequestView::SmartFee { target },
    }
}

/// The exchange that `relay_fee` starts.
pub open spec fn begin_relay_fee() -> ExchangeView {
    ExchangeView::Single { operation: Operation::RelayFee, request: RequestView::MempoolInfo }
}

/// The exchange that `get_history` starts.
pub open spec fn begin_get_history(fingerprint: Fingerprint) -> ExchangeView {
    ExchangeView::Single {
        operation: Operation::GetHistory,
        request: RequestView::History { fingerprint },
    }
}

/// The exchange that `list_unspent` starts.
pub open spec fn begin_list_unspent(fingerprint: Fingerprint, min_conf: u32) -> ExchangeView {
    ExchangeView::Single {
        operation: Operation::ListUnspent,
        request: RequestView::Unspent { fingerprint, min_conf },
    }
}

/// The exchange that `get_balance` starts.
pub open spec fn begin_get_balance(fingerprint: Fingerprint) -> ExchangeView {
    ExchangeView::Single {
        operation: Operation::GetBalance,
        request: RequestView::Balance { fingerprint },
    }
}

/// The exchange that `get_transaction_hex` starts.
pub open spec fn begin_get_transaction_hex(txid: TxId) -> ExchangeView {
    ExchangeView::Single {
        operation: Operation::GetTransactionHex,
        request: RequestView::RawTransaction { txid, verbose: false },
    }
}

/// The exchange that `get_transaction_decoded` starts.
pub open spec fn begin_get_transaction_decoded(txid: TxId) -> ExchangeView {
    ExchangeView::Single {
        operation: Operation::GetTransactionDecoded,
        request: RequestView::RawTransaction { txid, verbose: true },
    }
}

/// The exchange that `broadcast` starts.
pub open spec fn begin_broadcast(tx_hex: Seq<char>) -> ExchangeView {
    ExchangeView::Single {
        operation: Operation::Broadcast,
        request: RequestView::SendRawTransaction { tx_hex },
    }
}

/// The exchange that `get_raw_mempool` starts.
pub open spec fn begin_get_raw_mempool() -> ExchangeView {
    ExchangeView::Single {
        operation: Operation::GetRawMempool,
        request: RequestView::RawMempool { verbose: true },
    }
}

/// Resuming an exchange does not change the kind of answer that it ends
/// with; it can only end it with an error.
pub proof fn law_resume_keeps_kind(exchange: ExchangeView, outcome: Result<ReplyView, FailureView>)
    ensures
        exchange.resume(outcome).gives() is None || exchange.resume(outcome).gives()
            == exchange.gives(),
{
    match (exchange.pending(), outcome) {
        (Some(request), Ok(reply)) => {
            law_reshape_keeps_kind(request, reply);
        },
        _ => {},
    }
}

/// The answer that an exchange has ended with is of the kind that the
/// exchange gives.
pub proof fn law_result_has_kind(exchange: ExchangeView)
    ensures
        exchange.result() matches Some(Ok(answer)) ==> Some(answer.kind()) == exchange.gives(),
{
}

#[derive(Debug)]
enum State {
    Single { operation: Operation, request: Request },
    TipCount,
    TipHash { height: u32 },
    HeaderHash { height: u32 },
    Batch { heights: Vec<u32>, collected: Vec<String>, block: Option<BlockId> },
    Done { result: Result<Answer, QueryError> },
}

/// One operation of the facade in progress.
#[derive(Debug)]
pub struct Exchange {
    state: State,
}

impl View for Exchange {
    type V = ExchangeView;

    closed spec fn view(&self) -> ExchangeView {
        match self.state {
            State::Single { operation, request } => ExchangeView::Single {
                operation,
                request: request@,
            },
            State::TipCount => ExchangeView::TipCount,
            State::TipHash { height } => ExchangeView::TipHash { height },
            State::HeaderHash { height } => ExchangeView::HeaderHash { height },
            State::Batch { heights, collected, block } => ExchangeView::Batch {
                heights: heights@,
                collected: texts(collected@),
                block,
            },
            State::Done { result } => ExchangeView::Done { result: result_view(result) },
        }
    }
}

/// Wraps the outcome of the last request of an operation.
fn settle_outcome(
    operation: Operation,
    request: Request,
    outcome: Result<Reply, Failure>,
) -> (settled: Result<Answer, QueryError>)
    ensures
        result_view(settled) == settle(operation, request@, outcome_view(outcome)),
{
    match outcome {
        Err(failure) => Err(QueryError::from_backend(operation, request, failure)),
        Ok(reply) => match reshape(&request, reply) {
            Ok(answer) => Ok(answer),
            Err(expected) => Err(QueryError::malformed(operation, request, expected)),
        },
    }
}

impl Exchange {
    /// An exchange of one request whose reply is the answer.
    fn single(operation: Operation, request: Request) -> (exchange: Exchange)
        ensures
            exchange@ == (ExchangeView::Single { operation, request: request@ }),
    {
        Exchange { state: State::Single { operation, request } }
    }

    /// The height of the best chain and the block at that height. The node is
    /// asked for the height first and then for the block at it, so the two
    /// are not taken at one instant.
    pub fn get_tip() -> (exchange: Exchange)
        ensures
            exchange@ == begin_get_tip(),
    {
        Exchange { state: State::TipCount }
    }

    /// The height of the best chain: the count that the node gives. A count
    /// that is too large for the 32 bits of a height is a malformed reply.
    pub fn get_tip_height() -> (exchange: Exchange)
        ensures
            exchange@ == begin_get_tip_height(),
    {
        Exchange::single(Operation::GetTipHeight, Request::BlockCount)
    }

    /// The header of the block at a height: the node is asked for the block
    /// at the height and then for the header of that block.
    pub fn get_header(height: u32) -> (exchange: Exchange)
        ensures
            exchange@ == begin_get_header(height),
    {
        Exchange { state: State::HeaderHash { height } }
    }

    /// The headers of the blocks at the given heights, in that order, each
    /// found as `get_header` finds it. The first failure ends the operation,
    /// and no header is returned then.
    pub fn get_headers(heights: &[u32]) -> (exchange: Exchange)
        ensures
            exchange@ == begin_get_headers(heights@),
    {
        let mut wanted: Vec<u32> = Vec::new();
        let mut i: usize = 0;
        while i < heights.len()
            invariant
                i <= heights.len(),
                wanted@ == heights@.take(i as int),
            decreases heights.len() - i,
        {
            wanted.push(heights[i]);
            assert(heights@.take(i + 1) =~= heights@.take(i as int).push(heights@[i as int]));
            i = i + 1;
        }
        assert(heights@.take(i as int) =~= heights@);
        let collected: Vec<String> = Vec::new();
        assert(texts(collected@) =~= Seq::empty());
        Exchange { state: State::Batch { heights: wanted, collected, block: None } }
    }

    /// The header of a block, as the node stores it.
    pub fn get_header_by_hash(blockhash: &BlockId) -> (exchange: Exchange)
        ensures
            exchange@ == begin_get_header_by_hash(*blockhash),
    {
        Exchange::single(
            Operation::GetHeaderByHash,
            Request::BlockHeader { block: *blockhash, verbose: false },
        )
    }

    /// The block at a height.
    pub fn get_block_hash(height: u32) -> (exchange: Exchange)
        ensures
            exchange@ == begin_get_block_hash(height),
    {
        Exchange::single(Operation::GetBlockHash, Request::BlockHash { height: height as u64 })
    }

    /// The transactions of a block, in block order.
    pub fn get_block_txids(blockhash: &BlockId) -> (exchange: Exchange)
        ensures
            exchange@ == begin_get_block_txids(*blockhash),
    {
        Exchange::single(Operation::GetBlockTxids, Request::BlockInfo { block: *blockhash })
    }

    /// A fee rate, in satoshis per byte, that should confirm within `target`
    /// blocks. That the node has no estimate is an answer, not an error.
    pub fn estimate_fee(target: u16) -> (exchange: Exchange)
        ensures
            exchange@ == begin_estimate_fee(target),
    {
        Exchange::single(Operation::EstimateFee, Request::SmartFee { target })
    }

    /// The least fee rate that the node relays, in satoshis per byte.
    pub fn relay_fee() -> (exchange: Exchange)
        ensures
            exchange@ == begin_relay_fee(),
    {
        Exchange::single(Operation::RelayFee, Request::MempoolInfo)
    }

    /// The history of an address, in the order of the index.
    pub fn get_history(scripthash: &Fingerprint) -> (exchange: Exchange)
        ensures
            exchange@ == begin_get_history(*scripthash),
    {
        Exchange::single(Operation::GetHistory, Request::History { fingerprint: *scripthash })
    }

    /// The unspent outputs of an address that have at least `min_conf`
    /// confirmations. The index does the filtering.
    pub fn list_unspent(scripthash: &Fingerprint, min_conf: u32) -> (exchange: Exchange)
        ensures
            exchange@ == begin_list_unspent(*scripthash, min_conf),
    {
        Exchange::single(
            Operation::ListUnspent,
            Request::Unspent { fingerprint: *scripthash, min_conf },
        )
    }

    /// The confirmed and the unconfirmed balance of an address.
    pub fn get_balance(scripthash: &Fingerprint) -> (exchange: Exchange)
        ensures
            exchange@ == begin_get_balance(*scripthash),
    {
        Exchange::single(Operation::GetBalance, Request::Balance { fingerprint: *scripthash })
    }

    /// A transaction in hexadecimal.
    pub fn get_transaction_hex(txid: &TxId) -> (exchange: Exchange)
        ensures
            exchange@ == begin_get_transaction_hex(*txid),
    {
        Exchange::single(
            Operation::GetTransactionHex,
            Request::RawTransaction { txid: *txid, verbose: false },
        )
    }

    /// A transaction as the node decodes it.
    pub fn get_transaction_decoded(txid: &TxId) -> (exchange: Exchange)
        ensures
            exchange@ == begin_get_transaction_decoded(*txid),
    {
        Exchange::single(
            Operation::GetTransactionDecoded,
            Request::RawTransaction { txid: *txid, verbose: true },
        )
    }

    /// Hands a transaction to the node for the network. The node alone
    /// decides whether it is valid; the facade checks nothing.
    pub fn broadcast(tx_hex: &str) -> (exchange: Exchange)
        ensures
            exchange@ == begin_broadcast(tx_hex@),
    {
        Exchange::single(
            Operation::Broadcast,
            Request::SendRawTransaction { tx_hex: tx_hex.to_owned() },
        )
    }

    /// The content of the node's mempool with the node's details, as the
    /// node gives it.
    pub fn get_raw_mempool() -> (exchange: Exchange)
        ensures
            exchange@ == begin_get_raw_mempool(),
    {
        Exchange::single(Operation::GetRawMempool, Request::RawMempool { verbose: true })
    }

    /// The request to make next, or `None` when the operation has ended.
    pub fn request(&self) -> (request: Option<Request>)
        ensures
            request is Some <==> self@.pending() is Some,
            request matches Some(next) ==> self@.pending() == Some(next@),
    {
        match &self.state {
            State::Single { request, .. } => Some(copy_of(request)),
            State::TipCount => Some(Request::BlockCount),
            State::TipHash { height } => Some(Request::BlockHash { height: *height as u64 }),
            State::HeaderHash { height } => Some(Request::BlockHash { height: *height as u64 }),
            State::Batch { heights, collected, block } => match block {
                Some(block) => Some(Request::BlockHeader { block: *block, verbose: false }),
                None => if collected.len() < heights.len() {
                    Some(Request::BlockHash { height: heights[collected.len()] as u64 })
                } else {
                    None
                },
            },
            State::Done { .. } => None,
        }
    }

    /// Whether the operation has ended.
    pub fn is_finished(&self) -> (finished: bool)
        ensures
            finished == (self@.pending() is None),
            finished == (self@.result() is Some),
    {
        match &self.state {
            State::Batch { heights, collected, block } => block.is_none() && collected.len()
                >= heights.len(),
            State::Done { .. } => true,
            _ => false,
        }
    }

    /// Takes the outcome of the pending request and moves on: to the next
    /// request, or to the result. An exchange that has ended stays as it is.
    pub fn resume(self, outcome: Result<Reply, Failure>) -> (next: Exchange)
        ensures
            next@ == self@.resume(outcome_view(outcome)),
            self@.pending() is Some ==> next@.steps_left() < self@.steps_left(),
    {
        match self.state {
            State::Single { operation, request } => {
                let result = settle_outcome(operation, request, outcome);
                Exchange { state: State::Done { result } }
            },
            State::TipCount => {
                match settle_outcome(Operation::GetTip, Request::BlockCount, outcome) {
                    Ok(Answer::Height(height)) => Exchange { state: State::TipHash { height } },
                    result => Exchange { state: State::Done { result } },
                }
            },
            State::TipHash { height } => {
                let request = Request::BlockHash { height: height as u64 };
                match settle_outcome(Operation::GetTip, request, outcome) {
                    Ok(Answer::Block(block)) => Exchange {
                        state: State::Done { result: Ok(Answer::Tip { height, block }) },
                    },
                    result => Exchange { state: State::Done { result } },
                }
            },
            State::HeaderHash { height } => {
                let request = Request::BlockHash { height: height as u64 };
                match settle_outcome(Operation::GetHeader, request, outcome) {
                    Ok(Answer::Block(block)) => Exchange {
                        state: State::Single {
                            operation: Operation::GetHeader,
                            request: Request::BlockHeader { block, verbose: false },
                        },
                    },
                    result => Exchange { state: State::Done { result } },
                }
            },
            State::Batch { heights, collected, block } => {
                match block {
                    Some(block) => {
                        let request = Request::BlockHeader { block, verbose: false };
                        match settle_outcome(Operation::GetHeaders, request, outcome) {
                            Ok(Answer::Text(header)) => {
                                let mut collected = collected;
                                let ghost before = texts(collected@);
                                collected.push(header);
                                assert(texts(collected@) =~= before.push(header@));
                                Exchange { state: State::Batch { heights, collected, block: None } }
                            },
                            result => Exchange { state: State::Done { result } },
                        }
                    },
                    None => {
                        if collected.len() < heights.len() {
                            let request = Request::BlockHash {
                                height: heights[collected.len()] as u64,
                            };
                            match settle_outcome(Operation::GetHeaders, request, outcome) {
                                Ok(Answer::Block(found)) => Exchange {
                                    state: State::Batch { heights, collected, block: Some(found) },
                                },
                                result => Exchange { state: State::Done { result } },
                            }
                        } else {
                            Exchange { state: State::Batch { heights, collected, block: None } }
                        }
                    },
                }
            },
            State::Done { result } => Exchange { state: State::Done { result } },
        }
    }

    /// The result of the operation, or `None` while a request is pending.
    pub fn result(self) -> (result: Option<Result<Answer, QueryError>>)
        ensures
            match result {
                Some(result) => self@.result() == Some(result_view(result)),
                None => self@.result() is None,
            },
    {
        match self.state {
            State::Batch { heights, collected, block } => {
                if block.is_none() && collected.len() >= heights.len() {
                    Some(Ok(Answer::Headers(collected)))
                } else {
                    None
                }
            },
            State::Done { result } => Some(result),
            _ => None,
        }
    }
}

/// A request equal to the given one.
fn copy_of(request: &Request) -> (copy: Request)
    ensures
        copy@ == request@,
{
    match request {
        Request::BlockCount => Request::BlockCount,
        Request::BlockHash { height } => Request::BlockHash { height: *height },
        Request::BlockHeader { block, verbose } => Request::BlockHeader {
            block: *block,
            verbose: *verbose,
        },
        Request::BlockInfo { block } => Request::BlockInfo { block: *block },
        Request::RawTransaction { txid, verbose } => Request::RawTransaction {
            txid: *txid,
            verbose: *verbose,
        },
        Request::SmartFee { target } => Request::SmartFee { target: *target },
        Request::MempoolInfo => Request::MempoolInfo,
        Request::RawMempool { verbose } => Request::RawMempool { verbose: *verbose },
        Request::SendRawTransaction { tx_hex } => Request::SendRawTransaction {
            tx_hex: tx_hex.clone(),
        },
        Request::History { fingerprint } => Request::History { fingerprint: *fingerprint },
        Request::Unspent { fingerprint, min_conf } => Request::Unspent {
            fingerprint: *fingerprint,
            min_conf: *min_conf,
        },
        Request::Balance { fingerprint } => Request::Balance { fingerprint: *fingerprint },
    }
}

} // verus!
