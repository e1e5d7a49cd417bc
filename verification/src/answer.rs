//! What the facade returns, and how a reply becomes an answer.

use crate::backend::{HistoryEntry, Reply, ReplyView, Request, RequestView, Utxo};
use crate::error::Shape;
use crate::fee::{rate_of, FeeRate};
use crate::ident::{BlockId, TxId};
use crate::json::{json_member, json_number, member, number};
use serde_json::Value;
use vstd::prelude::*;

verus! {

/// The result of an operation of the facade.
#[derive(Debug, PartialEq)]
pub enum Answer {
    /// The height of the best chain.
    Height(u32),
    /// The height of the best chain and the block found at that height.
    Tip { height: u32, block: BlockId },
    /// The identity of a block.
    Block(BlockId),
    /// A header or a transaction in hexadecimal.
    Text(String),
    /// Headers in hexadecimal, one for each height asked for, in that order.
    Headers(Vec<String>),
    /// The transactions of a block, in block order.
    Txids(Vec<TxId>),
    /// A fee estimate in satoshis per byte, if the node has one.
    Fee(Option<FeeRate>),
    /// The least fee rate that the node relays, in satoshis per byte.
    RelayFee(FeeRate),
    /// A document as the node gave it.
    Json(Value),
    /// The identity of a transaction.
    Txid(TxId),
    /// The history of an address, in the order of the index.
    History(Vec<HistoryEntry>),
    /// Unspent outputs of an address.
    Unspent(Vec<Utxo>),
    /// Balance of an address in satoshis.
    Balance { confirmed: u64, unconfirmed: u64 },
}

/// An [`Answer`] as a mathematical value.
pub enum AnswerView {
    Height(u32),
    Tip { height: u32, block: BlockId },
    Block(BlockId),
    Text(Seq<char>),
    Headers(Seq<Seq<char>>),
    Txids(Seq<TxId>),
    Fee(Option<FeeRate>),
    RelayFee(FeeRate),
    Json(Value),
    Txid(TxId),
    History(Seq<HistoryEntry>),
    Unspent(Seq<Utxo>),
    Balance { confirmed: u64, unconfirmed: u64 },
}

/// The texts of a list of strings.
pub open spec fn texts(strings: Seq<String>) -> Seq<Seq<char>> {
    Seq::new(strings.len(), |i: int| strings[i]@)
}

impl View for Answer {
    type V = AnswerView;

    open spec fn view(&self) -> AnswerView {
        match *self {
            Answer::Height(height) => AnswerView::Height(height),
            Answer::Tip { height, block } => AnswerView::Tip { height, block },
            Answer::Block(block) => AnswerView::Block(block),
            Answer::Text(text) => AnswerView::Text(text@),
            Answer::Headers(headers) => AnswerView::Headers(texts(headers@)),
            Answer::Txids(txids) => AnswerView::Txids(txids@),
            Answer::Fee(rate) => AnswerView::Fee(rate),
            Answer::RelayFee(rate) => AnswerView::RelayFee(rate),
            Answer::Json(document) => AnswerView::Json(document),
            Answer::Txid(txid) => AnswerView::Txid(txid),
            Answer::History(entries) => AnswerView::History(entries@),
            Answer::Unspent(outputs) => AnswerView::Unspent(outputs@),
            Answer::Balance { confirmed, unconfirmed } => AnswerView::Balance {
                confirmed,
                unconfirmed,
            },
        }
    }
}

/// The largest height: heights have 32 bits.
pub open spec fn max_height() -> u64 {
    0xffff_ffff
}

/// The height that a block count stands for: the count itself where it is a
/// height, and none where it is too large to be one.
pub open spec fn height_of(count: u64) -> Option<u32> {
    if count <= max_height() {
        Some(count as u32)
    } else {
        None
    }
}

/// The member of the mempool state that holds the least relayed fee rate.
pub open spec fn min_relay_fee_key() -> Seq<char> {
    "minrelaytxfee"@
}

/// The shape of reply that answers a request.
pub open spec fn expected_shape(request: RequestView) -> Shape {
    match request {
        RequestView::BlockCount => Shape::Count,
        RequestView::BlockHash { .. } => Shape::Block,
        RequestView::BlockHeader { verbose, .. } => if verbose {
            Shape::Json
        } else {
            Shape::Text
        },
        RequestView::BlockInfo { .. } => Shape::BlockInfo,
        RequestView::RawTransaction { verbose, .. } => if verbose {
            Shape::Json
        } else {
            Shape::Text
        },
        RequestView::SmartFee { .. } => Shape::FeeEstimate,
        RequestView::MempoolInfo => Shape::Json,
        RequestView::RawMempool { .. } => Shape::Json,
        RequestView::SendRawTransaction { .. } => Shape::Txid,
        RequestView::History { .. } => Shape::History,
        RequestView::Unspent { .. } => Shape::Unspent,
        RequestView::Balance { .. } => Shape::Balance,
    }
}

/// The shape of a reply.
pub open spec fn shape_of(reply: ReplyView) -> Shape {
    match reply {
        ReplyView::Count(_) => Shape::Count,
        ReplyView::Block(_) => Shape::Block,
        ReplyView::Text(_) => Shape::Text,
        ReplyView::BlockInfo { .. } => Shape::BlockInfo,
        ReplyView::FeeEstimate { .. } => Shape::FeeEstimate,
        ReplyView::Json(_) => Shape::Json,
        ReplyView::Txid(_) => Shape::Txid,
        ReplyView::History(_) => Shape::History,
        ReplyView::Unspent(_) => Shape::Unspent,
        ReplyView::Balance { .. } => Shape::Balance,
    }
}

/// What the node's estimate holds in the place of a rate: nothing where the
/// node left the rate out, and nothing where it is not a number.
pub open spec fn estimate_number(feerate: Option<Value>) -> Option<u64> {
    match feerate {
        Some(value) => json_number(value),
        None => None,
    }
}

/// What the mempool state holds in the place of the least relayed rate: the
/// number under `minrelaytxfee`, and nothing where the document has no such
/// member or the member is not a number.
pub open spec fn relay_number(document: Value) -> Option<u64> {
    match json_member(document, min_relay_fee_key()) {
        Some(value) => json_number(value),
        None => None,
    }
}

/// The answer that a reply to `request` amounts to, or the shape that the
/// reply should have had.
///
/// A reply of another shape than the request calls for is no answer.
/// Otherwise a block count becomes the height that it is, and is no answer
/// where it is too large for a height; a fee estimate becomes a rate in
/// satoshis per byte, or none; the mempool state becomes its least relayed
/// rate and is no answer without one; everything else is handed on as it
/// came.
pub open spec fn reshape_view(request: RequestView, reply: ReplyView) -> Result<AnswerView, Shape> {
    if shape_of(reply) != expected_shape(request) {
        Err(expected_shape(request))
    } else {
        match reply {
            ReplyView::Count(count) => match height_of(count) {
                Some(height) => Ok(AnswerView::Height(height)),
                None => Err(Shape::Count),
            },
            ReplyView::Block(block) => Ok(AnswerView::Block(block)),
            ReplyView::Text(text) => Ok(AnswerView::Text(text)),
            ReplyView::BlockInfo { txids } => Ok(AnswerView::Txids(txids)),
            ReplyView::FeeEstimate { feerate } => Ok(
                AnswerView::Fee(rate_of(estimate_number(feerate))),
            ),
            ReplyView::Json(document) => if request is MempoolInfo {
                match rate_of(relay_number(document)) {
                    Some(rate) => Ok(AnswerView::RelayFee(rate)),
                    None => Err(Shape::MinRelayFee),
                }
            } else {
                Ok(AnswerView::Json(document))
            },
            ReplyView::Txid(txid) => Ok(AnswerView::Txid(txid)),
            ReplyView::History(entries) => Ok(AnswerView::History(entries)),
            ReplyView::Unspent(outputs) => Ok(AnswerView::Unspent(outputs)),
            ReplyView::Balance { confirmed, unconfirmed } => Ok(
                AnswerView::Balance { confirmed, unconfirmed },
            ),
        }
    }
}

/// The kinds of answer.
pub enum AnswerKind {
    Height,
    Tip,
    Block,
    Text,
    Headers,
    Txids,
    Fee,
    RelayFee,
    Json,
    Txid,
    History,
    Unspent,
    Balance,
}

impl AnswerView {
    /// The kind of the answer.
    pub open spec fn kind(self) -> AnswerKind {
        match self {
            AnswerView::Height(_) => AnswerKind::Height,
            AnswerView::Tip { .. } => AnswerKind::Tip,
            AnswerView::Block(_) => AnswerKind::Block,
            AnswerView::Text(_) => AnswerKind::Text,
            AnswerView::Headers(_) => AnswerKind::Headers,
            AnswerView::Txids(_) => AnswerKind::Txids,
            AnswerView::Fee(_) => AnswerKind::Fee,
            AnswerView::RelayFee(_) => AnswerKind::RelayFee,
            AnswerView::Json(_) => AnswerKind::Json,
            AnswerView::Txid(_) => AnswerKind::Txid,
            AnswerView::History(_) => AnswerKind::History,
            AnswerView::Unspent(_) => AnswerKind::Unspent,
            AnswerView::Balance { .. } => AnswerKind::Balance,
        }
    }
}

/// The kind of answer that a reply to a request amounts to.
pub open spec fn answer_kind(request: RequestView) -> AnswerKind {
    match request {
        RequestView::BlockCount => AnswerKind::Height,
        RequestView::BlockHash { .. } => AnswerKind::Block,
        RequestView::BlockHeader { verbose, .. } => if verbose {
            AnswerKind::Json
        } else {
            AnswerKind::Text
        },
        RequestView::BlockInfo { .. } => AnswerKind::Txids,
        RequestView::RawTransaction { verbose, .. } => if verbose {
            AnswerKind::Json
        } else {
            AnswerKind::Text
        },
        RequestView::SmartFee { .. } => AnswerKind::Fee,
        RequestView::MempoolInfo => AnswerKind::RelayFee,
        RequestView::RawMempool { .. } => AnswerKind::Json,
        RequestView::SendRawTransaction { .. } => AnswerKind::Txid,
        RequestView::History { .. } => AnswerKind::History,
        RequestView::Unspent { .. } => AnswerKind::Unspent,
        RequestView::Balance { .. } => AnswerKind::Balance,
    }
}

/// A reply amounts to an answer of the kind that goes with the request, or
/// to none.
pub proof fn law_reshape_keeps_kind(request: RequestView, reply: ReplyView)
    ensures
        reshape_view(request, reply) matches Ok(answer) ==> answer.kind() == answer_kind(request),
{
}

/// An answer or the expected shape, as a mathematical value.
pub open spec fn reshaped_view(reshaped: Result<Answer, Shape>) -> Result<AnswerView, Shape> {
    match reshaped {
        Ok(answer) => Ok(answer@),
        Err(expected) => Err(expected),
    }
}

impl Request {
    /// The shape of reply that answers the request.
    pub fn expected_shape(&self) -> (shape: Shape)
        ensures
            shape == expected_shape(self@),
    {
        match self {
            Request::BlockCount => Shape::Count,
            Request::BlockHash { .. } => Shape::Block,
            Request::BlockHeader { verbose, .. } => if *verbose {
                Shape::Json
            } else {
                Shape::Text
            },
            Request::BlockInfo { .. } => Shape::BlockInfo,
            Request::RawTransaction { verbose, .. } => if *verbose {
                Shape::Json
            } else {
                Shape::Text
            },
            Request::SmartFee { .. } => Shape::FeeEstimate,
            Request::MempoolInfo => Shape::Json,
            Request::RawMempool { .. } => Shape::Json,
            Request::SendRawTransaction { .. } => Shape::Txid,
            Request::History { .. } => Shape::History,
            Request::Unspent { .. } => Shape::Unspent,
            Request::Balance { .. } => Shape::Balance,
        }
    }
}

/// The height that a block count stands for, or `None` for a count that is
/// too large to be a height. A count is never cut down to fit.
pub fn height_from_count(count: u64) -> (height: Option<u32>)
    ensures
        height == height_of(count),
        height matches Some(found) ==> found as u64 == count,
        height is Some <==> count <= max_height(),
{
    if count <= 0xffff_ffff {
        Some(count as u32)
    } else {
        None
    }
}

/// The fee estimate for what the node's estimate holds in the place of a
/// rate.
pub fn estimate_answer(number: Option<u64>) -> (answer: Answer)
    ensures
        answer@ == AnswerView::Fee(rate_of(number)),
{
    Answer::Fee(FeeRate::from_number(number))
}

/// The least relayed fee rate for what the mempool state holds in its place:
/// an answer exactly where that is a number.
pub fn relay_answer(number: Option<u64>) -> (answer: Result<Answer, Shape>)
    ensures
        reshaped_view(answer) == match rate_of(number) {
            Some(rate) => Ok::<AnswerView, Shape>(AnswerView::RelayFee(rate)),
            None => Err(Shape::MinRelayFee),
        },
        answer is Ok <==> number is Some,
{
    match FeeRate::from_number(number) {
        Some(rate) => Ok(Answer::RelayFee(rate)),
        None => Err(Shape::MinRelayFee),
    }
}

/// Turns the reply to `request` into an answer.
pub fn reshape(request: &Request, reply: Reply) -> (reshaped: Result<Answer, Shape>)
    ensures
        reshaped_view(reshaped) == reshape_view(request@, reply@),
{
    let expected = request.expected_shape();
    match reply {
        Reply::Count(count) => match expected {
            Shape::Count => match height_from_count(count) {
                Some(height) => Ok(Answer::Height(height)),
                None => Err(Shape::Count),
            },
            _ => Err(expected),
        },
        Reply::Block(block) => match expected {
            Shape::Block => Ok(Answer::Block(block)),
            _ => Err(expected),
        },
        Reply::Text(text) => match expected {
            Shape::Text => Ok(Answer::Text(text)),
            _ => Err(expected),
        },
        Reply::BlockInfo { txids } => match expected {
            Shape::BlockInfo => Ok(Answer::Txids(txids)),
            _ => Err(expected),
        },
        Reply::FeeEstimate { feerate } => match expected {
            Shape::FeeEstimate => {
                let found = match &feerate {
                    Some(value) => number(value),
                    None => None,
                };
                Ok(estimate_answer(found))
            },
            _ => Err(expected),
        },
        Reply::Json(document) => match expected {
            Shape::Json => match request {
                Request::MempoolInfo => {
                    let found = number(member(&document, "minrelaytxfee"));
                    relay_answer(found)
                },
                _ => Ok(Answer::Json(document)),
            },
            _ => Err(expected),
        },
        Reply::Txid(txid) => match expected {
            Shape::Txid => Ok(Answer::Txid(txid)),
            _ => Err(expected),
        },
        Reply::History(entries) => match expected {
            Shape::History => Ok(Answer::History(entries)),
            _ => Err(expected),
        },
        Reply::Unspent(outputs) => match expected {
            Shape::Unspent => Ok(Answer::Unspent(outputs)),
            _ => Err(expected),
        },
        Reply::Balance { confirmed, unconfirmed } => match expected {
            Shape::Balance => Ok(Answer::Balance { confirmed, unconfirmed }),
            _ => Err(expected),
        },
    }
}

} // verus!
