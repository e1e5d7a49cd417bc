use chain_query::answer::{estimate_answer, height_from_count, relay_answer, reshape, Answer};
use chain_query::backend::{Collaborator, Failure, FailureKind, Reply, Request};
use chain_query::error::{Cause, ErrorKind, Operation, QueryError, Shape};
use chain_query::fee::FeeRate;
use chain_query::ident::{BlockId, Fingerprint, TxId};
use chain_query::wire::{Command, Param};
use serde_json::Value;

fn counting() -> [u8; 32] {
    let mut bytes = [0u8; 32];
    let mut i = 0;
    while i < 32 {
        bytes[i] = i as u8;
        i += 1;
    }
    bytes
}

const COUNTING_HEX: &str = "1f1e1d1c1b1a191817161514131211100f0e0d0c0b0a09080706050403020100";

#[test]
fn header_command_names_the_block_in_hexadecimal() {
    let request = Request::BlockHeader { block: BlockId { bytes: counting() }, verbose: false };
    assert_eq!(
        request.command(),
        Some(Command {
            method: "getblockheader",
            params: vec![Param::Text(COUNTING_HEX.to_string()), Param::Flag(false)],
        })
    );
}

#[test]
fn transaction_command_names_the_transaction_in_hexadecimal() {
    let txid = TxId { bytes: counting() };
    assert_eq!(
        Request::RawTransaction { txid, verbose: false }.command(),
        Some(Command {
            method: "getrawtransaction",
            params: vec![Param::Text(COUNTING_HEX.to_string()), Param::Flag(false)],
        })
    );
    assert_eq!(
        Request::RawTransaction { txid, verbose: true }.command(),
        Some(Command {
            method: "getrawtransaction",
            params: vec![Param::Text(COUNTING_HEX.to_string()), Param::Flag(true)],
        })
    );
}

#[test]
fn fee_and_mempool_commands() {
    assert_eq!(
        Request::SmartFee { target: 6 }.command(),
        Some(Command { method: "estimatesmartfee", params: vec![Param::Number(6)] })
    );
    assert_eq!(
        Request::MempoolInfo.command(),
        Some(Command { method: "getmempoolinfo", params: vec![] })
    );
    assert_eq!(
        Request::RawMempool { verbose: true }.command(),
        Some(Command { method: "getrawmempool", params: vec![Param::Flag(true)] })
    );
}

#[test]
fn requests_with_a_call_of_their_own_have_no_command() {
    let fingerprint = Fingerprint { bytes: [1; 32] };
    for request in [
        Request::BlockCount,
        Request::BlockHash { height: 1 },
        Request::BlockInfo { block: BlockId { bytes: [0; 32] } },
        Request::SendRawTransaction { tx_hex: "00".to_string() },
        Request::History { fingerprint },
        Request::Unspent { fingerprint, min_conf: 1 },
        Request::Balance { fingerprint },
    ] {
        assert_eq!(request.command(), None);
    }
}

#[test]
fn the_index_answers_for_addresses_and_the_node_for_the_rest() {
    let fingerprint = Fingerprint { bytes: [1; 32] };
    assert_eq!(Request::History { fingerprint }.collaborator(), Collaborator::Index);
    assert_eq!(Request::Unspent { fingerprint, min_conf: 1 }.collaborator(), Collaborator::Index);
    assert_eq!(Request::Balance { fingerprint }.collaborator(), Collaborator::Index);
    for request in [
        Request::BlockCount,
        Request::BlockHash { height: 1 },
        Request::BlockHeader { block: BlockId { bytes: [0; 32] }, verbose: false },
        Request::BlockInfo { block: BlockId { bytes: [0; 32] } },
        Request::RawTransaction { txid: TxId { bytes: [0; 32] }, verbose: true },
        Request::SmartFee { target: 1 },
        Request::MempoolInfo,
        Request::RawMempool { verbose: true },
        Request::SendRawTransaction { tx_hex: "00".to_string() },
    ] {
        assert_eq!(request.collaborator(), Collaborator::Node);
    }
}

#[test]
fn each_request_expects_one_shape() {
    let block = BlockId { bytes: [0; 32] };
    let txid = TxId { bytes: [0; 32] };
    let fingerprint = Fingerprint { bytes: [0; 32] };
    assert_eq!(Request::BlockCount.expected_shape(), Shape::Count);
    assert_eq!(Request::BlockHash { height: 0 }.expected_shape(), Shape::Block);
    assert_eq!(Request::BlockHeader { block, verbose: false }.expected_shape(), Shape::Text);
    assert_eq!(Request::BlockHeader { block, verbose: true }.expected_shape(), Shape::Json);
    assert_eq!(Request::BlockInfo { block }.expected_shape(), Shape::BlockInfo);
    assert_eq!(Request::RawTransaction { txid, verbose: false }.expected_shape(), Shape::Text);
    assert_eq!(Request::RawTransaction { txid, verbose: true }.expected_shape(), Shape::Json);
    assert_eq!(Request::SmartFee { target: 1 }.expected_shape(), Shape::FeeEstimate);
    assert_eq!(Request::MempoolInfo.expected_shape(), Shape::Json);
    assert_eq!(Request::RawMempool { verbose: false }.expected_shape(), Shape::Json);
    assert_eq!(Request::SendRawTransaction { tx_hex: String::new() }.expected_shape(), Shape::Txid);
    assert_eq!(Request::History { fingerprint }.expected_shape(), Shape::History);
    assert_eq!(Request::Unspent { fingerprint, min_conf: 0 }.expected_shape(), Shape::Unspent);
    assert_eq!(Request::Balance { fingerprint }.expected_shape(), Shape::Balance);
}

#[test]
fn reshape_hands_on_what_fits_and_names_the_shape_of_what_does_not() {
    let block = BlockId { bytes: [7; 32] };
    assert_eq!(reshape(&Request::BlockCount, Reply::Count(9)), Ok(Answer::Height(9)));
    assert_eq!(reshape(&Request::BlockCount, Reply::Block(block)), Err(Shape::Count));
    assert_eq!(reshape(&Request::BlockHash { height: 1 }, Reply::Block(block)), Ok(Answer::Block(block)));
    assert_eq!(reshape(&Request::BlockHash { height: 1 }, Reply::Count(1)), Err(Shape::Block));
    assert_eq!(
        reshape(&Request::BlockHeader { block, verbose: true }, Reply::Json(Value::Bool(true))),
        Ok(Answer::Json(Value::Bool(true)))
    );
    assert_eq!(
        reshape(&Request::BlockHeader { block, verbose: true }, Reply::Text("00".into())),
        Err(Shape::Json)
    );
    assert_eq!(
        reshape(&Request::SendRawTransaction { tx_hex: "00".into() }, Reply::Block(block)),
        Err(Shape::Txid)
    );
    assert_eq!(
        reshape(&Request::MempoolInfo, Reply::Json(Value::Null)),
        Err(Shape::MinRelayFee)
    );
    assert_eq!(
        reshape(&Request::RawMempool { verbose: true }, Reply::Json(Value::Null)),
        Ok(Answer::Json(Value::Null))
    );
}

#[test]
fn a_height_is_the_count_itself_or_nothing() {
    assert_eq!(height_from_count(0), Some(0));
    assert_eq!(height_from_count(840_000), Some(840_000));
    assert_eq!(height_from_count(0xffff_ffff), Some(0xffff_ffff));
    assert_eq!(height_from_count(0x1_0000_0000), None);
    assert_eq!(height_from_count(0x1_0000_0005), None);
    assert_eq!(height_from_count(u64::MAX), None);
}

#[test]
fn a_count_that_is_no_height_is_no_answer() {
    assert_eq!(reshape(&Request::BlockCount, Reply::Count(0xffff_ffff)), Ok(Answer::Height(u32::MAX)));
    assert_eq!(reshape(&Request::BlockCount, Reply::Count(0x1_0000_0000)), Err(Shape::Count));
    assert_eq!(reshape(&Request::BlockCount, Reply::Count(u64::MAX)), Err(Shape::Count));
}

#[test]
fn there_is_a_rate_exactly_where_there_is_a_number() {
    assert_eq!(FeeRate::from_number(None), None);
    assert_eq!(
        FeeRate::from_number(Some(0.00001f64.to_bits())),
        Some(FeeRate { bits: 1.0f32.to_bits() })
    );
    assert_eq!(estimate_answer(None), Answer::Fee(None));
    assert_eq!(
        estimate_answer(Some(0.0002f64.to_bits())),
        Answer::Fee(Some(FeeRate { bits: 20.0f32.to_bits() }))
    );
    assert_eq!(relay_answer(None), Err(Shape::MinRelayFee));
    assert_eq!(
        relay_answer(Some(0.00001f64.to_bits())),
        Ok(Answer::RelayFee(FeeRate { bits: 1.0f32.to_bits() }))
    );
}

#[test]
fn errors_keep_the_failure_as_it_came() {
    let failure = Failure {
        kind: FailureKind::Refused,
        code: Some(-26),
        message: "bad-txns-inputs-missingorspent".to_string(),
    };
    let request = Request::SendRawTransaction { tx_hex: "beef".to_string() };
    let error = QueryError::from_backend(Operation::Broadcast, request.clone(), failure.clone());
    assert_eq!(error.kind, ErrorKind::Rejected);
    assert_eq!(error.operation, Operation::Broadcast);
    assert_eq!(error.request, request);
    assert_eq!(error.cause, Cause::Backend(failure));
}

#[test]
fn malformed_errors_name_what_was_expected() {
    let error = QueryError::malformed(Operation::RelayFee, Request::MempoolInfo, Shape::MinRelayFee);
    assert_eq!(error.kind, ErrorKind::MalformedReply);
    assert_eq!(error.cause, Cause::Malformed { expected: Shape::MinRelayFee });
}
