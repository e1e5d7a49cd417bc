//! What the facade asks of its two collaborators, and what they answer.
//!
//! The node answers questions about the chain and the mempool and accepts
//! transactions. The address index answers questions about one address
//! fingerprint. Neither is implemented here: a [`Request`] says what is to be
//! asked, and the caller hands back a [`Reply`] or a [`Failure`].

use crate::ident::{BlockId, Fingerprint, TxId};
use serde_json::Value;
use vstd::prelude::*;

verus! {

/// The two collaborators behind the facade.
#[derive(Clone, Copy, Debug, PartialEq, Eq)]
pub enum Collaborator {
    /// The full node.
    Node,
    /// The address index.
    Index,
}

/// One transaction in the history of an address.
#[derive(Clone, Copy, Debug, PartialEq, Eq)]
pub struct HistoryEntry {
    pub txid: TxId,
    /// Height of the block that confirmed the transaction, if one did.
    pub confirmed_at: Option<u32>,
    /// What the transaction added to the address, in satoshis.
    pub delta: i64,
}

/// One unspent output.
#[derive(Clone, Copy, Debug, PartialEq, Eq)]
pub struct Utxo {
    pub txid: TxId,
    pub vout: u32,
    /// Value in satoshis.
    pub value: u64,
    pub confirmations: u32,
}

/// A question for one of the collaborators.
#[derive(Clone, Debug, PartialEq)]
pub enum Request {
    /// The number of blocks in the best chain.
    BlockCount,
    /// The identity of the block at a height.
    BlockHash { height: u64 },
    /// The header of a block, decoded by the node if `verbose`.
    BlockHeader { block: BlockId, verbose: bool },
    /// What the node knows of a block, its transactions among it.
    BlockInfo { block: BlockId },
    /// A transaction, decoded by the node if `verbose`.
    RawTransaction { txid: TxId, verbose: bool },
    /// A fee rate that should confirm within `target` blocks.
    SmartFee { target: u16 },
    /// The state of the node's mempool.
    MempoolInfo,
    /// The content of the node's mempool, with details if `verbose`.
    RawMempool { verbose: bool },
    /// Hand a transaction, in hexadecimal, to the network.
    SendRawTransaction { tx_hex: String },
    /// The history of an address.
    History { fingerprint: Fingerprint },
    /// The unspent outputs of an address with at least `min_conf`
    /// confirmations.
    Unspent { fingerprint: Fingerprint, min_conf: u32 },
    /// The confirmed and unconfirmed balance of an address.
    Balance { fingerprint: Fingerprint },
}

/// A [`Request`] as a mathematical value.
pub enum RequestView {
    BlockCount,
    BlockHash { height: u64 },
    BlockHeader { block: BlockId, verbose: bool },
    BlockInfo { block: BlockId },
    RawTransaction { txid: TxId, verbose: bool },
    SmartFee { target: u16 },
    MempoolInfo,
    RawMempool { verbose: bool },
    SendRawTransaction { tx_hex: Seq<char> },
    History { fingerprint: Fingerprint },
    Unspent { fingerprint: Fingerprint, min_conf: u32 },
    Balance { fingerprint: Fingerprint },
}

impl View for Request {
    type V = RequestView;

    open spec fn view(&self) -> RequestView {
        match *self {
            Request::BlockCount => RequestView::BlockCount,
            Request::BlockHash { height } => RequestView::BlockHash { height },
            Request::BlockHeader { block, verbose } => RequestView::BlockHeader { block, verbose },
            Request::BlockInfo { block } => RequestView::BlockInfo { block },
            Request::RawTransaction { txid, verbose } => RequestView::RawTransaction {
                txid,
                verbose,
            },
            Request::SmartFee { target } => RequestView::SmartFee { target },
            Request::MempoolInfo => RequestView::MempoolInfo,
            Request::RawMempool { verbose } => RequestView::RawMempool { verbose },
            Request::SendRawTransaction { tx_hex } => RequestView::SendRawTransaction {
                tx_hex: tx_hex@,
            },
            Request::History { fingerprint } => RequestView::History { fingerprint },
            Request::Unspent { fingerprint, min_conf } => RequestView::Unspent {
                fingerprint,
                min_conf,
            },
            Request::Balance { fingerprint } => RequestView::Balance { fingerprint },
        }
    }
}

impl RequestView {
    /// The collaborator that answers the request: the index for what concerns
    /// one address, the node for everything else.
    pub open spec fn collaborator(self) -> Collaborator {
        match self {
            RequestView::History { .. }
            | RequestView::Unspent { .. }
            | RequestView::Balance { .. } => Collaborator::Index,
            _ => Collaborator::Node,
        }
    }

    /// Whether the request names a height, a block, a transaction or an
    /// address that the collaborator may not know.
    pub open spec fn looks_up(self) -> bool {
        match self {
            RequestView::BlockHash { .. }
            | RequestView::BlockHeader { .. }
            | RequestView::BlockInfo { .. }
            | RequestView::RawTransaction { .. }
            | RequestView::History { .. }
            | RequestView::Unspent { .. }
            | RequestView::Balance { .. } => true,
            _ => false,
        }
    }

    /// Whether the request asks the collaborator to change its state.
    pub open spec fn changes_state(self) -> bool {
        self is SendRawTransaction
    }
}

impl Request {
    /// The collaborator that answers the request.
    pub fn collaborator(&self) -> (who: Collaborator)
        ensures
            who == self@.collaborator(),
    {
        match self {
            Request::History { .. } | Request::Unspent { .. } | Request::Balance { .. } => {
                Collaborator::Index
            },
            _ => Collaborator::Node,
        }
    }
}

/// How a collaborator failed to answer.
#[derive(Clone, Copy, Debug, PartialEq, Eq)]
pub enum FailureKind {
    /// The collaborator could not be reached.
    Unreachable,
    /// The collaborator reported that the request was cancelled or timed out.
    Interrupted,
    /// The collaborator answered that it will not or cannot do what was asked.
    Refused,
    /// The collaborator answered, and the answer could not be read.
    Unreadable,
}

/// A failure as a collaborator reported it.
#[derive(Clone, Debug, PartialEq, Eq)]
pub struct Failure {
    pub kind: FailureKind,
    /// The collaborator's error code, where it gave one.
    pub code: Option<i32>,
    /// The collaborator's own words.
    pub message: String,
}

/// A [`Failure`] as a mathematical value.
pub struct FailureView {
    pub kind: FailureKind,
    pub code: Option<i32>,
    pub message: Seq<char>,
}

impl View for Failure {
    type V = FailureView;

    open spec fn view(&self) -> FailureView {
        FailureView { kind: self.kind, code: self.code, message: self.message@ }
    }
}

/// An answer of a collaborator.
#[derive(Debug, PartialEq)]
pub enum Reply {
    /// A number of blocks.
    Count(u64),
    /// The identity of a block.
    Block(BlockId),
    /// A header or a transaction in hexadecimal.
    Text(String),
    /// What the node knows of a block; the facade reads the transactions.
    BlockInfo { txids: Vec<TxId> },
    /// A fee estimate; the node leaves the rate out where it has none.
    FeeEstimate { feerate: Option<Value> },
    /// A document whose schema the node defines.
    Json(Value),
    /// The identity of a transaction.
    Txid(TxId),
    /// The history of an address, in the order of the index.
    History(Vec<HistoryEntry>),
    /// Unspent outputs of an address.
    Unspent(Vec<Utxo>),
    /// Balance of an address in satoshis.
    Balance { confirmed: u64, unconfirmed: u64 },
}

/// A [`Reply`] as a mathematical value.
pub enum ReplyView {
    Count(u64),
    Block(BlockId),
    Text(Seq<char>),
    BlockInfo { txids: Seq<TxId> },
    FeeEstimate { feerate: Option<Value> },
    Json(Value),
    Txid(TxId),
    History(Seq<HistoryEntry>),
    Unspent(Seq<Utxo>),
    Balance { confirmed: u64, unconfirmed: u64 },
}

impl View for Reply {
    type V = ReplyView;

    open spec fn view(&self) -> ReplyView {
        match *self {
            Reply::Count(count) => ReplyView::Count(count),
            Reply::Block(block) => ReplyView::Block(block),
            Reply::Text(text) => ReplyView::Text(text@),
            Reply::BlockInfo { txids } => ReplyView::BlockInfo { txids: txids@ },
            Reply::FeeEstimate { feerate } => ReplyView::FeeEstimate { feerate },
            Reply::Json(document) => ReplyView::Json(document),
            Reply::Txid(txid) => ReplyView::Txid(txid),
            Reply::History(entries) => ReplyView::History(entries@),
            Reply::Unspent(outputs) => ReplyView::Unspent(outputs@),
            Reply::Balance { confirmed, unconfirmed } => ReplyView::Balance {
                confirmed,
                unconfirmed,
            },
        }
    }
}

/// What comes back for a request: a reply or a failure.
pub open spec fn outcome_view(outcome: Result<Reply, Failure>) -> Result<ReplyView, FailureView> {
    match outcome {
        Ok(reply) => Ok(reply@),
        Err(failure) => Err(failure@),
    }
}

} // verus!
