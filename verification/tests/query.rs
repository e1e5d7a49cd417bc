use std::cell::RefCell;

use chain_query::backend::{Failure, FailureKind, HistoryEntry, Reply, Request, Utxo};
use chain_query::drive::complete;
use chain_query::error::{Cause, ErrorKind, Operation, QueryError, Shape};
use chain_query::exchange::Exchange;
use chain_query::fee::FeeRate;
use chain_query::ident::{BlockId, Fingerprint, TxId};
use chain_query::query::Query;
use serde_json::{Number, Value};

fn block(n: u8) -> BlockId {
    let mut bytes = [0u8; 32];
    bytes[0] = n;
    bytes[31] = 0xb0;
    BlockId { bytes }
}

fn txid(n: u8) -> TxId {
    let mut bytes = [0u8; 32];
    bytes[0] = n;
    bytes[31] = 0x7a;
    TxId { bytes }
}

fn fingerprint(n: u8) -> Fingerprint {
    Fingerprint { bytes: [n; 32] }
}

fn refused(code: i32, message: &str) -> Failure {
    Failure { kind: FailureKind::Refused, code: Some(code), message: message.to_string() }
}

fn object(members: Vec<(&str, Value)>) -> Value {
    let mut map = serde_json::Map::new();
    for (key, value) in members {
        map.insert(key.to_string(), value);
    }
    Value::Object(map)
}

fn float(value: f64) -> Value {
    Value::Number(Number::from_f64(value).unwrap())
}

/// A chain of `length` blocks, a mempool and an index with three outputs.
struct World {
    length: u8,
    feerate: Option<Value>,
    mempool_info: Value,
    asked: RefCell<Vec<Request>>,
}

impl World {
    fn new(length: u8) -> World {
        World {
            length,
            feerate: Some(float(0.00001)),
            mempool_info: object(vec![("minrelaytxfee", float(0.00001))]),
            asked: RefCell::new(Vec::new()),
        }
    }

    fn unspent() -> Vec<Utxo> {
        vec![
            Utxo { txid: txid(1), vout: 0, value: 1_000, confirmations: 5 },
            Utxo { txid: txid(2), vout: 1, value: 2_000, confirmations: 6 },
            Utxo { txid: txid(3), vout: 0, value: 3_000, confirmations: 7 },
        ]
    }

    fn history() -> Vec<HistoryEntry> {
        vec![
            HistoryEntry { txid: txid(2), confirmed_at: Some(3), delta: 2_000 },
            HistoryEntry { txid: txid(1), confirmed_at: Some(4), delta: 1_000 },
            HistoryEntry { txid: txid(4), confirmed_at: None, delta: -500 },
        ]
    }

    fn answer(&self, request: &Request) -> Result<Reply, Failure> {
        self.asked.borrow_mut().push(request.clone());
        match request {
            Request::BlockCount => Ok(Reply::Count(self.length as u64 - 1)),
            Request::BlockHash { height } => {
                if *height < self.length as u64 {
                    Ok(Reply::Block(block(*height as u8)))
                } else {
                    Err(refused(-8, "Block height out of range"))
                }
            }
            Request::BlockHeader { block: wanted, .. } => {
                if wanted.bytes[31] == 0xb0 && wanted.bytes[0] < self.length {
                    Ok(Reply::Text(format!("header-{}", wanted.bytes[0])))
                } else {
                    Err(refused(-5, "Block not found"))
                }
            }
            Request::BlockInfo { .. } => Ok(Reply::BlockInfo { txids: vec![txid(2), txid(1)] }),
            Request::RawTransaction { verbose, .. } => {
                if *verbose {
                    Ok(Reply::Json(object(vec![("size", Value::from(225u64))])))
                } else {
                    Ok(Reply::Text("01000000".to_string()))
                }
            }
            Request::SmartFee { .. } => Ok(Reply::FeeEstimate { feerate: self.feerate.clone() }),
            Request::MempoolInfo => Ok(Reply::Json(self.mempool_info.clone())),
            Request::RawMempool { .. } => Ok(Reply::Json(object(vec![("ab", Value::Null)]))),
            Request::SendRawTransaction { tx_hex } => {
                if tx_hex == "double-spend" {
                    Err(refused(-26, "txn-mempool-conflict"))
                } else {
                    Ok(Reply::Txid(txid(9)))
                }
            }
            Request::History { .. } => Ok(Reply::History(World::history())),
            Request::Unspent { min_conf, .. } => Ok(Reply::Unspent(
                World::unspent().into_iter().filter(|u| u.confirmations >= *min_conf).collect(),
            )),
            Request::Balance { .. } => Ok(Reply::Balance { confirmed: 6_000, unconfirmed: -0i64 as u64 }),
        }
    }
}

#[test]
fn get_tip_is_the_height_and_the_block_at_it() {
    let world = World::new(12);
    let query = Query::new(|request: &Request| world.answer(request));
    assert_eq!(query.get_tip(), Ok((11, block(11))));
    assert_eq!(
        *world.asked.borrow(),
        vec![Request::BlockCount, Request::BlockHash { height: 11 }]
    );
}

#[test]
fn get_tip_called_twice_returns_identical_pairs() {
    let world = World::new(12);
    let query = Query::new(|request: &Request| world.answer(request));
    let first = query.get_tip();
    let second = query.get_tip();
    assert!(first.is_ok());
    assert_eq!(first, second);
}

#[test]
fn get_tip_height_is_the_count_of_the_node() {
    let world = World::new(12);
    let query = Query::new(|request: &Request| world.answer(request));
    assert_eq!(query.get_tip_height(), Ok(11));
}

#[test]
fn get_header_equals_get_header_by_hash_of_get_block_hash_up_to_the_tip() {
    let world = World::new(9);
    let query = Query::new(|request: &Request| world.answer(request));
    let tip = query.get_tip_height().unwrap();
    assert_eq!(tip, 8);
    let mut height = 0;
    while height <= tip {
        let by_height = query.get_header(height);
        let by_hash = query.get_header_by_hash(&query.get_block_hash(height).unwrap());
        assert!(by_height.is_ok());
        assert_eq!(by_height, by_hash);
        height += 1;
    }
    assert_eq!(query.get_header(3), Ok("header-3".to_string()));
    assert_eq!(query.get_header(tip + 1).unwrap_err().kind, ErrorKind::NotFound);
}

#[test]
fn get_headers_equals_get_header_for_each_height_in_order() {
    let world = World::new(9);
    let query = Query::new(|request: &Request| world.answer(request));
    let (h1, h2, h3) = (5u32, 0u32, 8u32);
    assert_eq!(
        query.get_headers(&[h1, h2, h3]),
        Ok(vec![
            query.get_header(h1).unwrap(),
            query.get_header(h2).unwrap(),
            query.get_header(h3).unwrap(),
        ])
    );
    assert_eq!(
        query.get_headers(&[h1, h2, h3]),
        Ok(vec!["header-5".to_string(), "header-0".to_string(), "header-8".to_string()])
    );
    assert_eq!(query.get_headers(&[]), Ok(Vec::new()));
}

#[test]
fn get_headers_returns_nothing_when_one_header_fails() {
    let world = World::new(9);
    let query = Query::new(|request: &Request| world.answer(request));
    let alone = query.get_header(200).unwrap_err();
    world.asked.borrow_mut().clear();
    let error = query.get_headers(&[1, 200, 3]).unwrap_err();
    assert_eq!(
        error,
        QueryError { operation: Operation::GetHeaders, ..alone }
    );
    assert_eq!(
        *world.asked.borrow(),
        vec![
            Request::BlockHash { height: 1 },
            Request::BlockHeader { block: block(1), verbose: false },
            Request::BlockHash { height: 200 },
        ]
    );
}

#[test]
fn get_block_hash_and_txids() {
    let world = World::new(9);
    let query = Query::new(|request: &Request| world.answer(request));
    assert_eq!(query.get_block_hash(4), Ok(block(4)));
    assert_eq!(query.get_block_txids(&block(4)), Ok(vec![txid(2), txid(1)]));
}

#[test]
fn estimate_fee_of_one_thousand_satoshis_per_kilobyte_is_one_per_byte() {
    let world = World::new(2);
    let query = Query::new(|request: &Request| world.answer(request));
    let rate = query.estimate_fee(6).unwrap().unwrap();
    assert_eq!(f32::from_bits(rate.bits), 1.0f32);
    assert_eq!(*world.asked.borrow(), vec![Request::SmartFee { target: 6 }]);
}

#[test]
fn estimate_fee_never_returns_a_rate_for_a_null_feerate() {
    let mut world = World::new(2);
    world.feerate = None;
    assert_eq!(Query::new(|request: &Request| world.answer(request)).estimate_fee(6), Ok(None));
    world.feerate = Some(Value::Null);
    assert_eq!(Query::new(|request: &Request| world.answer(request)).estimate_fee(6), Ok(None));
}

#[test]
fn relay_fee_returns_a_value_for_a_numeric_member() {
    let mut world = World::new(2);
    let query = Query::new(|request: &Request| world.answer(request));
    assert_eq!(query.relay_fee(), Ok(FeeRate { bits: 1.0f32.to_bits() }));
    world.mempool_info = object(vec![("minrelaytxfee", Value::from(3u64))]);
    let query = Query::new(|request: &Request| world.answer(request));
    assert_eq!(query.relay_fee(), Ok(FeeRate { bits: 300_000.0f32.to_bits() }));
}

#[test]
fn relay_fee_fails_for_a_missing_or_non_numeric_member() {
    let mut world = World::new(2);
    world.mempool_info = object(vec![("size", Value::from(1u64))]);
    let error = Query::new(|request: &Request| world.answer(request)).relay_fee().unwrap_err();
    assert_eq!(error.kind, ErrorKind::MalformedReply);
    assert_eq!(error.cause, Cause::Malformed { expected: Shape::MinRelayFee });
    world.mempool_info = object(vec![("minrelaytxfee", Value::String("1".to_string()))]);
    let error = Query::new(|request: &Request| world.answer(request)).relay_fee().unwrap_err();
    assert_eq!(error.kind, ErrorKind::MalformedReply);
}

#[test]
fn list_unspent_with_six_confirmations_includes_six_and_excludes_five() {
    let world = World::new(2);
    let query = Query::new(|request: &Request| world.answer(request));
    let outputs = query.list_unspent(&fingerprint(1), 6).unwrap();
    assert!(outputs.iter().all(|output| output.confirmations >= 6));
    assert!(outputs.iter().any(|output| output.confirmations == 6));
    assert!(!outputs.iter().any(|output| output.confirmations == 5));
    assert_eq!(outputs.len(), 2);
    assert_eq!(query.list_unspent(&fingerprint(1), 0).unwrap().len(), 3);
}

#[test]
fn history_and_balance_come_from_the_index() {
    let world = World::new(2);
    let query = Query::new(|request: &Request| world.answer(request));
    assert_eq!(query.get_history(&fingerprint(1)), Ok(World::history()));
    assert_eq!(query.get_balance(&fingerprint(1)), Ok((6_000, 0)));
    assert_eq!(
        *world.asked.borrow(),
        vec![
            Request::History { fingerprint: fingerprint(1) },
            Request::Balance { fingerprint: fingerprint(1) },
        ]
    );
}

#[test]
fn transactions_in_both_forms() {
    let world = World::new(2);
    let query = Query::new(|request: &Request| world.answer(request));
    assert_eq!(query.get_transaction_hex(&txid(1)), Ok("01000000".to_string()));
    assert_eq!(
        query.get_transaction_decoded(&txid(1)),
        Ok(object(vec![("size", Value::from(225u64))]))
    );
    assert_eq!(query.get_raw_mempool(), Ok(object(vec![("ab", Value::Null)])));
}

#[test]
fn broadcast_of_a_double_spending_transaction_is_rejected() {
    let world = World::new(2);
    let query = Query::new(|request: &Request| world.answer(request));
    assert_eq!(query.broadcast("0100beef"), Ok(txid(9)));
    let error = query.broadcast("double-spend").unwrap_err();
    assert_eq!(error.kind, ErrorKind::Rejected);
    assert_eq!(error.cause, Cause::Backend(refused(-26, "txn-mempool-conflict")));
}

#[test]
fn a_backend_that_is_down_fails_every_operation() {
    let down = |_: &Request| -> Result<Reply, Failure> {
        Err(Failure { kind: FailureKind::Unreachable, code: None, message: "down".to_string() })
    };
    let query = Query::new(down);
    assert_eq!(query.get_tip().unwrap_err().kind, ErrorKind::BackendUnavailable);
    assert_eq!(query.get_tip_height().unwrap_err().kind, ErrorKind::BackendUnavailable);
    assert_eq!(query.get_header(1).unwrap_err().kind, ErrorKind::BackendUnavailable);
    assert_eq!(query.get_headers(&[1, 2]).unwrap_err().kind, ErrorKind::BackendUnavailable);
    assert_eq!(query.get_headers(&[]), Ok(Vec::new()));
    assert_eq!(query.get_header_by_hash(&block(1)).unwrap_err().kind, ErrorKind::BackendUnavailable);
    assert_eq!(query.get_block_hash(1).unwrap_err().kind, ErrorKind::BackendUnavailable);
    assert_eq!(query.get_block_txids(&block(1)).unwrap_err().kind, ErrorKind::BackendUnavailable);
    assert_eq!(query.estimate_fee(1).unwrap_err().kind, ErrorKind::BackendUnavailable);
    assert_eq!(query.relay_fee().unwrap_err().kind, ErrorKind::BackendUnavailable);
    assert_eq!(query.get_history(&fingerprint(1)).unwrap_err().kind, ErrorKind::BackendUnavailable);
    assert_eq!(query.list_unspent(&fingerprint(1), 1).unwrap_err().kind, ErrorKind::BackendUnavailable);
    assert_eq!(query.get_balance(&fingerprint(1)).unwrap_err().kind, ErrorKind::BackendUnavailable);
    assert_eq!(query.get_transaction_hex(&txid(1)).unwrap_err().kind, ErrorKind::BackendUnavailable);
    assert_eq!(query.get_transaction_decoded(&txid(1)).unwrap_err().kind, ErrorKind::BackendUnavailable);
    assert_eq!(query.broadcast("00").unwrap_err().kind, ErrorKind::BackendUnavailable);
    assert_eq!(query.get_raw_mempool().unwrap_err().kind, ErrorKind::BackendUnavailable);
}

#[test]
fn a_chain_that_grows_between_the_two_requests_of_get_tip_is_seen_as_it_is() {
    let count = RefCell::new(10u64);
    let growing = |request: &Request| -> Result<Reply, Failure> {
        match request {
            Request::BlockCount => {
                let seen = *count.borrow();
                *count.borrow_mut() += 1;
                Ok(Reply::Count(seen))
            }
            Request::BlockHash { height } => Ok(Reply::Block(block(*height as u8))),
            _ => Err(refused(1, "not here")),
        }
    };
    let query = Query::new(growing);
    assert_eq!(query.get_tip(), Ok((10, block(10))));
    assert_eq!(query.get_tip(), Ok((11, block(11))));
}

#[test]
fn complete_asks_until_the_exchange_has_ended() {
    let world = World::new(9);
    let backend = |request: &Request| world.answer(request);
    let result = complete(Exchange::get_headers(&[1, 2, 3, 4]), &backend);
    assert!(result.is_ok());
    assert_eq!(world.asked.borrow().len(), 8);
    world.asked.borrow_mut().clear();
    let result = complete(Exchange::get_tip_height(), &backend);
    assert!(result.is_ok());
    assert_eq!(world.asked.borrow().len(), 1);
}

#[test]
fn a_count_beyond_32_bits_is_never_returned_as_a_height() {
    for count in [0x1_0000_0000u64, 0x1_0000_0005, 0xffff_ffff_ffff_ffff] {
        let asked = RefCell::new(Vec::new());
        let backend = |request: &Request| -> Result<Reply, Failure> {
            asked.borrow_mut().push(request.clone());
            match request {
                Request::BlockCount => Ok(Reply::Count(count)),
                Request::BlockHash { height } => Ok(Reply::Block(block(*height as u8))),
                _ => Err(refused(1, "not here")),
            }
        };
        let query = Query::new(backend);
        let error = query.get_tip_height().unwrap_err();
        assert_eq!(error.kind, ErrorKind::MalformedReply);
        assert_eq!(error.operation, Operation::GetTipHeight);
        assert_eq!(error.cause, Cause::Malformed { expected: Shape::Count });
        let error = query.get_tip().unwrap_err();
        assert_eq!(error.kind, ErrorKind::MalformedReply);
        assert_eq!(error.operation, Operation::GetTip);
        assert_eq!(error.request, Request::BlockCount);
        assert_eq!(*asked.borrow(), vec![Request::BlockCount, Request::BlockCount]);
    }
}

#[test]
fn a_height_that_is_returned_is_the_count_of_the_node() {
    for count in [0u64, 1, 840_000, 0xffff_fffe, 0xffff_ffff] {
        let backend = |request: &Request| -> Result<Reply, Failure> {
            match request {
                Request::BlockCount => Ok(Reply::Count(count)),
                Request::BlockHash { height } => {
                    assert_eq!(*height, count);
                    Ok(Reply::Block(block(7)))
                }
                _ => Err(refused(1, "not here")),
            }
        };
        let query = Query::new(backend);
        assert_eq!(query.get_tip_height().map(|height| height as u64), Ok(count));
        assert_eq!(query.get_tip(), Ok((count as u32, block(7))));
    }
}
