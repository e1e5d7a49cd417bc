//! The facade: one entry point for every question about the chain, the
//! mempool and the addresses that the index follows.

use crate::answer::{texts, Answer, AnswerView};
use crate::backend::{Failure, HistoryEntry, Reply, Request, Utxo};
use crate::drive::{complete, completes};
use crate::error::QueryError;
use crate::exchange::{
    begin_broadcast, begin_estimate_fee, begin_get_balance, begin_get_block_hash,
    begin_get_block_txids, begin_get_header, begin_get_header_by_hash, begin_get_headers,
    begin_get_history, begin_get_raw_mempool, begin_get_tip, begin_get_tip_height,
    begin_get_transaction_decoded, begin_get_transaction_hex, begin_list_unspent,
    begin_relay_fee, Exchange,
};
use crate::fee::FeeRate;
use crate::ident::{BlockId, Fingerprint, TxId};
use serde_json::Value;
use vstd::prelude::*;

verus! {

/// The query facade over a backend: a function that hands a request to the
/// node or to the index and brings back the reply or the failure.
///
/// The facade keeps nothing between operations and changes nothing. Each
/// operation makes its requests one after another, never retries, and ends
/// at the first failure.
pub struct Query<B: Fn(&Request) -> Result<Reply, Failure>> {
    backend: B,
}

impl<B: Fn(&Request) -> Result<Reply, Failure>> Query<B> {
    /// The backend that the facade asks.
    pub closed spec fn backend(&self) -> B {
        self.backend
    }

    /// A facade is only ever made over a backend that takes every request.
    #[verifier::type_invariant]
    spec fn ready(&self) -> bool {
        forall|request: &Request| #[trigger] call_requires(self.backend, (request,))
    }

    /// The facade over a backend that takes every request.
    pub fn new(backend: B) -> (query: Self)
        requires
            forall|request: &Request| #[trigger] call_requires(backend, (request,)),
        ensures
            query.backend() == backend,
    {
        Query { backend }
    }

    /// The height of the best chain and the block at that height. The
    /// backend is asked for the height first and then for the block at it, so
    /// the two are not taken at one instant: where the chain changes in
    /// between, the block is the one that then stands at the height.
    pub fn get_tip(&self) -> (result: Result<(u32, BlockId), QueryError>)
        ensures
            completes(
                self.backend(),
                begin_get_tip(),
                match result {
                    Ok((height, block)) => Ok(AnswerView::Tip { height, block }),
                    Err(error) => Err(error@),
                },
            ),
    {
        proof {
            use_type_invariant(self);
        }
        match complete(Exchange::get_tip(), &self.backend) {
            Ok(Answer::Tip { height, block }) => Ok((height, block)),
            Ok(_) => unreached(),
            Err(error) => Err(error),
        }
    }

    /// The height of the best chain: the count that the node gives. A count
    /// that is too large for the 32 bits of a height is a malformed reply.
    pub fn get_tip_height(&self) -> (result: Result<u32, QueryError>)
        ensures
            completes(
                self.backend(),
                begin_get_tip_height(),
                match result {
                    Ok(height) => Ok(AnswerView::Height(height)),
                    Err(error) => Err(error@),
                },
            ),
    {
        proof {
            use_type_invariant(self);
        }
        match complete(Exchange::get_tip_height(), &self.backend) {
            Ok(Answer::Height(height)) => Ok(height),
            Ok(_) => unreached(),
            Err(error) => Err(error),
        }
    }

    /// The header of the block at a height, in hexadecimal: the backend is
    /// asked for the block at the height and then for the header of that
    /// block. A failure of either request is the failure of the operation.
    pub fn get_header(&self, height: u32) -> (result: Result<String, QueryError>)
        ensures
            completes(
                self.backend(),
                begin_get_header(height),
                match result {
                    Ok(header) => Ok(AnswerView::Text(header@)),
                    Err(error) => Err(error@),
                },
            ),
    {
        proof {
            use_type_invariant(self);
        }
        match complete(Exchange::get_header(height), &self.backend) {
            Ok(Answer::Text(header)) => Ok(header),
            Ok(_) => unreached(),
            Err(error) => Err(error),
        }
    }

    /// The headers of the blocks at the given heights, one for each height
    /// and in that order, each found as `get_header` finds it. The first
    /// failure ends the operation: nothing more is asked, and no header is
    /// returned.
    pub fn get_headers(&self, heights: &[u32]) -> (result: Result<Vec<String>, QueryError>)
        ensures
            completes(
                self.backend(),
                begin_get_headers(heights@),
                match result {
                    Ok(headers) => Ok(AnswerView::Headers(texts(headers@))),
                    Err(error) => Err(error@),
                },
            ),
    {
        proof {
            use_type_invariant(self);
        }
        match complete(Exchange::get_headers(heights), &self.backend) {
            Ok(Answer::Headers(headers)) => Ok(headers),
            Ok(_) => unreached(),
            Err(error) => Err(error),
        }
    }

    /// The header of a block, in hexadecimal, as the node stores it.
    pub fn get_header_by_hash(&self, blockhash: &BlockId) -> (result: Result<String, QueryError>)
        ensures
            completes(
                self.backend(),
                begin_get_header_by_hash(*blockhash),
                match result {
                    Ok(header) => Ok(AnswerView::Text(header@)),
                    Err(error) => Err(error@),
                },
            ),
    {
        proof {
            use_type_invariant(self);
        }
        match complete(Exchange::get_header_by_hash(blockhash), &self.backend) {
            Ok(Answer::Text(header)) => Ok(header),
            Ok(_) => unreached(),
            Err(error) => Err(error),
        }
    }

    /// The block at a height.
    pub fn get_block_hash(&self, height: u32) -> (result: Result<BlockId, QueryError>)
        ensures
            completes(
                self.backend(),
                begin_get_block_hash(height),
                match result {
                    Ok(block) => Ok(AnswerView::Block(block)),
                    Err(error) => Err(error@),
                },
            ),
    {
        proof {
            use_type_invariant(self);
        }
        match complete(Exchange::get_block_hash(height), &self.backend) {
            Ok(Answer::Block(block)) => Ok(block),
            Ok(_) => unreached(),
            Err(error) => Err(error),
        }
    }

    /// The transactions of a block, in block order.
    pub fn get_block_txids(&self, blockhash: &BlockId) -> (result: Result<Vec<TxId>, QueryError>)
        ensures
            completes(
                self.backend(),
                begin_get_block_txids(*blockhash),
                match result {
                    Ok(txids) => Ok(AnswerView::Txids(txids@)),
                    Err(error) => Err(error@),
                },
            ),
    {
        proof {
            use_type_invariant(self);
        }
        match complete(Exchange::get_block_txids(blockhash), &self.backend) {
            Ok(Answer::Txids(txids)) => Ok(txids),
            Ok(_) => unreached(),
            Err(error) => Err(error),
        }
    }

    /// A fee rate, in satoshis per byte, that should confirm within `target`
    /// blocks. That the node has no estimate is an answer, not an error.
    pub fn estimate_fee(&self, target: u16) -> (result: Result<Option<FeeRate>, QueryError>)
        ensures
            completes(
                self.backend(),
                begin_estimate_fee(target),
                match result {
                    Ok(rate) => Ok(AnswerView::Fee(rate)),
                    Err(error) => Err(error@),
                },
            ),
    {
        proof {
            use_type_invariant(self);
        }
        match complete(Exchange::estimate_fee(target), &self.backend) {
            Ok(Answer::Fee(rate)) => Ok(rate),
            Ok(_) => unreached(),
            Err(error) => Err(error),
        }
    }

    /// The least fee rate that the node relays, in satoshis per byte.
    pub fn relay_fee(&self) -> (result: Result<FeeRate, QueryError>)
        ensures
            completes(
                self.backend(),
                begin_relay_fee(),
                match result {
                    Ok(rate) => Ok(AnswerView::RelayFee(rate)),
                    Err(error) => Err(error@),
                },
            ),
    {
        proof {
            use_type_invariant(self);
        }
        match complete(Exchange::relay_fee(), &self.backend) {
            Ok(Answer::RelayFee(rate)) => Ok(rate),
            Ok(_) => unreached(),
            Err(error) => Err(error),
        }
    }

    /// The history of an address, in the order of the index.
    pub fn get_history(&self, scripthash: &Fingerprint) -> (result: Result<
        Vec<HistoryEntry>,
        QueryError,
    >)
        ensures
            completes(
                self.backend(),
                begin_get_history(*scripthash),
                match result {
                    Ok(entries) => Ok(AnswerView::History(entries@)),
                    Err(error) => Err(error@),
                },
            ),
    {
        proof {
            use_type_invariant(self);
        }
        match complete(Exchange::get_history(scripthash), &self.backend) {
            Ok(Answer::History(entries)) => Ok(entries),
            Ok(_) => unreached(),
            Err(error) => Err(error),
        }
    }

    /// The unspent outputs of an address that have at least `min_conf`
    /// confirmations. The index does the filtering; the facade hands the
    /// threshold to it and returns what it answers.
    pub fn list_unspent(&self, scripthash: &Fingerprint, min_conf: u32) -> (result: Result<
        Vec<Utxo>,
        QueryError,
    >)
        ensures
            completes(
                self.backend(),
                begin_list_unspent(*scripthash, min_conf),
                match result {
                    Ok(outputs) => Ok(AnswerView::Unspent(outputs@)),
                    Err(error) => Err(error@),
                },
            ),
    {
        proof {
            use_type_invariant(self);
        }
        match complete(Exchange::list_unspent(scripthash, min_conf), &self.backend) {
            Ok(Answer::Unspent(outputs)) => Ok(outputs),
            Ok(_) => unreached(),
            Err(error) => Err(error),
        }
    }

    /// The confirmed and the unconfirmed balance of an address.
    pub fn get_balance(&self, scripthash: &Fingerprint) -> (result: Result<(u64, u64), QueryError>)
        ensures
            completes(
                self.backend(),
                begin_get_balance(*scripthash),
                match result {
                    Ok((confirmed, unconfirmed)) => Ok(
                        AnswerView::Balance { confirmed, unconfirmed },
                    ),
                    Err(error) => Err(error@),
                },
            ),
    {
        proof {
            use_type_invariant(self);
        }
        match complete(Exchange::get_balance(scripthash), &self.backend) {
            Ok(Answer::Balance { confirmed, unconfirmed }) => Ok((confirmed, unconfirmed)),
            Ok(_) => unreached(),
            Err(error) => Err(error),
        }
    }

    /// A transaction in hexadecimal.
    pub fn get_transaction_hex(&self, txid: &TxId) -> (result: Result<String, QueryError>)
        ensures
            completes(
                self.backend(),
                begin_get_transaction_hex(*txid),
                match result {
                    Ok(transaction) => Ok(AnswerView::Text(transaction@)),
                    Err(error) => Err(error@),
                },
            ),
    {
        proof {
            use_type_invariant(self);
        }
        match complete(Exchange::get_transaction_hex(txid), &self.backend) {
            Ok(Answer::Text(transaction)) => Ok(transaction),
            Ok(_) => unreached(),
            Err(error) => Err(error),
        }
    }

    /// A transaction as the node decodes it.
    pub fn get_transaction_decoded(&self, txid: &TxId) -> (result: Result<Value, QueryError>)
        ensures
            completes(
                self.backend(),
                begin_get_transaction_decoded(*txid),
                match result {
                    Ok(transaction) => Ok(AnswerView::Json(transaction)),
                    Err(error) => Err(error@),
                },
            ),
    {
        proof {
            use_type_invariant(self);
        }
        match complete(Exchange::get_transaction_decoded(txid), &self.backend) {
            Ok(Answer::Json(transaction)) => Ok(transaction),
            Ok(_) => unreached(),
            Err(error) => Err(error),
        }
    }

    /// Hands a transaction to the node for the network and returns its
    /// identity. The node alone decides whether the transaction is valid;
    /// the facade checks nothing, and a refusal is reported as it came.
    pub fn broadcast(&self, tx_hex: &str) -> (result: Result<TxId, QueryError>)
        ensures
            completes(
                self.backend(),
                begin_broadcast(tx_hex@),
                match result {
                    Ok(txid) => Ok(AnswerView::Txid(txid)),
                    Err(error) => Err(error@),
                },
            ),
    {
        proof {
            use_type_invariant(self);
        }
        match complete(Exchange::broadcast(tx_hex), &self.backend) {
            Ok(Answer::Txid(txid)) => Ok(txid),
            Ok(_) => unreached(),
            Err(error) => Err(error),
        }
    }

    /// The content of the node's mempool with the node's details, as the
    /// node gives it.
    pub fn get_raw_mempool(&self) -> (result: Result<Value, QueryError>)
        ensures
            completes(
                self.backend(),
                begin_get_raw_mempool(),
                match result {
                    Ok(mempool) => Ok(AnswerView::Json(mempool)),
                    Err(error) => Err(error@),
                },
            ),
    {
        proof {
            use_type_invariant(self);
        }
        match complete(Exchange::get_raw_mempool(), &self.backend) {
            Ok(Answer::Json(mempool)) => Ok(mempool),
            Ok(_) => unreached(),
            Err(error) => Err(error),
        }
    }
}

} // verus!
