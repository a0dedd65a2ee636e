use bitcoin::blockdata::constants::genesis_block;
use bitcoin::network::constants::Network;
use bitcoin::network::serialize::{serialize, BitcoinHash};
use bitcoin::util::hash::Sha256dHash;
use bitcoincore_rpc::error::{ClientError, DecodeError, RpcError, TransportError};
use bitcoincore_rpc::hexcode::HexError;
use bitcoincore_rpc::json::Json;
use bitcoincore_rpc::response::{self, Reply, Response};

const GENESIS: &str = "000000000019d6689c085ae165831e934ff763ae46a2a6c172b3f1b60a8ce26f";

fn with_result(result: Json) -> Reply {
    Ok(Response { result: Some(result), error: None })
}

fn without_result() -> Reply {
    Ok(Response { result: None, error: None })
}

fn text(s: &str) -> Json {
    Json::Text(s.to_string())
}

fn daemon_error() -> RpcError {
    RpcError { code: -5, message: "No such mempool or blockchain transaction".to_string(), data: None }
}

fn genesis_hex() -> String {
    hex::encode(serialize(&genesis_block(Network::Bitcoin)).unwrap())
}

fn genesis_header_hex() -> String {
    hex::encode(serialize(&genesis_block(Network::Bitcoin).header).unwrap())
}

fn coinbase_hex() -> String {
    hex::encode(serialize(&genesis_block(Network::Bitcoin).txdata[0]).unwrap())
}

#[test]
fn getblockcount_decodes_bare_integer() {
    assert!(matches!(response::getblockcount(with_result(Json::Integer(481824))), Ok(481824)));
    assert!(matches!(response::getblockcount(with_result(Json::Integer(0))), Ok(0)));
}

#[test]
fn getblockcount_refuses_what_is_no_count() {
    assert!(matches!(
        response::getblockcount(with_result(Json::Integer(-1))),
        Err(ClientError::Decode(DecodeError::OutOfRange))
    ));
    assert!(matches!(
        response::getblockcount(with_result(Json::Integer(1 << 64))),
        Err(ClientError::Decode(DecodeError::OutOfRange))
    ));
    assert!(matches!(
        response::getblockcount(with_result(text("7"))),
        Err(ClientError::Decode(DecodeError::WrongType))
    ));
    assert!(matches!(
        response::getblockcount(with_result(Json::Real(7.0f64.to_bits()))),
        Err(ClientError::Decode(DecodeError::WrongType))
    ));
    assert!(matches!(
        response::getblockcount(without_result()),
        Err(ClientError::Decode(DecodeError::Missing))
    ));
}

#[test]
fn getblockhash_decodes_a_hash() {
    let hash = response::getblockhash(with_result(text(GENESIS))).unwrap();
    assert_eq!(hash, Sha256dHash::from_hex(GENESIS).unwrap());
    assert_eq!(hash, genesis_block(Network::Bitcoin).bitcoin_hash());
}

#[test]
fn getblockhash_refuses_what_is_no_hash() {
    assert!(matches!(
        response::getblockhash(with_result(text("00ff"))),
        Err(ClientError::Decode(DecodeError::NotAHash))
    ));
    let mut bad = GENESIS.to_string();
    bad.replace_range(10..11, "g");
    assert!(matches!(
        response::getblockhash(with_result(text(&bad))),
        Err(ClientError::Decode(DecodeError::NotAHash))
    ));
    assert!(matches!(
        response::getblockhash(with_result(Json::Null)),
        Err(ClientError::Decode(DecodeError::WrongType))
    ));
    assert!(matches!(
        response::getblockhash(without_result()),
        Err(ClientError::Decode(DecodeError::Missing))
    ));
}

#[test]
fn getblock_raw_decodes_a_block() {
    let block = response::getblock_raw(with_result(text(&genesis_hex()))).unwrap();
    assert_eq!(block, genesis_block(Network::Bitcoin));
    assert_eq!(block.bitcoin_hash(), Sha256dHash::from_hex(GENESIS).unwrap());
}

#[test]
fn getblock_raw_reads_upper_case_digits() {
    let block = response::getblock_raw(with_result(text(&genesis_hex().to_uppercase()))).unwrap();
    assert_eq!(block, genesis_block(Network::Bitcoin));
}

#[test]
fn getblockheader_decodes_a_header() {
    let header = response::getblockheader(with_result(text(&genesis_header_hex()))).unwrap();
    assert_eq!(header, genesis_block(Network::Bitcoin).header);
}

#[test]
fn getrawtransaction_decodes_a_transaction() {
    let tx = response::getrawtransaction(with_result(text(&coinbase_hex()))).unwrap();
    assert_eq!(tx, Some(genesis_block(Network::Bitcoin).txdata[0].clone()));
}

#[test]
fn raw_null_for_optional_result_is_no_value() {
    assert!(matches!(response::getrawtransaction(with_result(Json::Null)), Ok(None)));
    assert!(matches!(response::result_raw_option(with_result(Json::Null)), Ok(None)));
}

#[test]
fn getrawtransaction_unknown_txid_is_no_value() {
    assert!(matches!(response::getrawtransaction(without_result()), Ok(None)));
    assert!(matches!(response::getrawtransaction_verbose(without_result()), Ok(None)));
    assert!(matches!(response::getrawtransaction_verbose(with_result(Json::Null)), Ok(None)));
}

#[test]
fn raw_null_for_plain_result_is_an_error() {
    assert!(matches!(
        response::getblock_raw(with_result(Json::Null)),
        Err(ClientError::Decode(DecodeError::WrongType))
    ));
    assert!(matches!(
        response::getblock_raw(without_result()),
        Err(ClientError::Decode(DecodeError::Missing))
    ));
}

#[test]
fn truncated_payload_is_a_consensus_error() {
    let mut hex = genesis_hex();
    hex.truncate(100);
    assert!(matches!(
        response::getblock_raw(with_result(text(&hex))),
        Err(ClientError::Consensus(_))
    ));
    let mut hex = genesis_header_hex();
    hex.truncate(158);
    assert!(matches!(
        response::getblockheader(with_result(text(&hex))),
        Err(ClientError::Consensus(_))
    ));
    let mut hex = coinbase_hex();
    hex.truncate(20);
    assert!(matches!(
        response::getrawtransaction(with_result(text(&hex))),
        Err(ClientError::Consensus(_))
    ));
}

#[test]
fn empty_payload_is_a_consensus_error() {
    assert!(matches!(
        response::getblock_raw(with_result(text(""))),
        Err(ClientError::Consensus(_))
    ));
    assert!(matches!(
        response::getrawtransaction(with_result(text(""))),
        Err(ClientError::Consensus(_))
    ));
}

#[test]
fn malformed_hex_is_a_hex_error() {
    assert!(matches!(
        response::getblock_raw(with_result(text("abc"))),
        Err(ClientError::Hex(HexError::OddLength))
    ));
    assert!(matches!(
        response::getblock_raw(with_result(text("00zz"))),
        Err(ClientError::Hex(HexError::InvalidHexCharacter { c: 'z', index: 2 }))
    ));
    assert!(matches!(
        response::getrawtransaction(with_result(text("0g"))),
        Err(ClientError::Hex(HexError::InvalidHexCharacter { c: 'g', index: 1 }))
    ));
    assert!(matches!(
        response::getblockheader(with_result(text("x"))),
        Err(ClientError::Hex(HexError::OddLength))
    ));
}

#[test]
fn payload_is_the_bytes_the_digits_spell() {
    assert_eq!(response::result_payload(text("00ff1A")).unwrap(), vec![0x00, 0xff, 0x1a]);
    assert_eq!(response::result_payload(text("")).unwrap(), Vec::<u8>::new());
    assert_eq!(response::result_raw(with_result(text("0a0B"))).unwrap(), vec![0x0a, 0x0b]);
    assert_eq!(
        response::result_raw_option(with_result(text("c0de"))).unwrap(),
        Some(vec![0xc0, 0xde])
    );
    assert!(matches!(
        response::result_payload(Json::Integer(5)),
        Err(ClientError::Decode(DecodeError::WrongType))
    ));
}

#[test]
fn daemon_error_comes_through() {
    let reply: Reply = Ok(Response { result: Some(text("00")), error: Some(daemon_error()) });
    match response::getrawtransaction(reply) {
        Err(ClientError::Transport(TransportError::Rpc(e))) => assert_eq!(e, daemon_error()),
        other => panic!("{:?}", other),
    }
    let reply: Reply = Ok(Response { result: None, error: Some(daemon_error()) });
    assert!(matches!(
        response::gettxout(reply),
        Err(ClientError::Transport(TransportError::Rpc(_)))
    ));
}

#[test]
fn transport_failure_comes_through() {
    let failed = || -> Reply {
        Err(ClientError::Transport(TransportError::Http("connection refused".to_string())))
    };
    match response::getblockcount(failed()) {
        Err(ClientError::Transport(TransportError::Http(m))) => {
            assert_eq!(m, "connection refused")
        }
        other => panic!("{:?}", other),
    }
    assert!(matches!(response::getblock_raw(failed()), Err(ClientError::Transport(_))));
    assert!(matches!(response::getrawtransaction(failed()), Err(ClientError::Transport(_))));
    assert!(matches!(response::listunspent(failed()), Err(ClientError::Transport(_))));
    assert!(matches!(response::into_result(failed()), Err(ClientError::Transport(_))));
    let mismatch: Reply = Err(ClientError::Transport(TransportError::NonceMismatch));
    assert!(matches!(
        response::getblockhash(mismatch),
        Err(ClientError::Transport(TransportError::NonceMismatch))
    ));
    let version: Reply = Err(ClientError::Transport(TransportError::VersionMismatch));
    assert!(matches!(
        response::signrawtransaction(version),
        Err(ClientError::Transport(TransportError::VersionMismatch))
    ));
}

#[test]
fn structured_results_come_as_they_are() {
    let facts = || Json::Object(vec![("height".to_string(), Json::Integer(0))]);
    assert_eq!(response::getblock_info(with_result(facts())).unwrap(), facts());
    assert_eq!(response::getblockheader_verbose(with_result(facts())).unwrap(), facts());
    assert_eq!(response::signrawtransaction(with_result(facts())).unwrap(), facts());
    assert_eq!(response::gettxout(with_result(facts())).unwrap(), Some(facts()));
    assert_eq!(response::getrawtransaction_verbose(with_result(facts())).unwrap(), Some(facts()));
    assert_eq!(response::result_json(with_result(Json::Null)).unwrap(), Json::Null);
    assert_eq!(response::into_result(with_result(Json::Null)).unwrap(), Some(Json::Null));
    assert!(matches!(
        response::getblock_info(without_result()),
        Err(ClientError::Decode(DecodeError::Missing))
    ));
}

#[test]
fn what_is_no_object_is_no_record() {
    let wrong = |r: Result<Json, ClientError>| {
        matches!(r, Err(ClientError::Decode(DecodeError::WrongType)))
    };
    assert!(wrong(response::signrawtransaction(with_result(Json::Null))));
    assert!(wrong(response::signrawtransaction(with_result(text("complete")))));
    assert!(wrong(response::getblock_info(with_result(Json::Null))));
    assert!(wrong(response::getblock_info(with_result(Json::Array(vec![])))));
    assert!(wrong(response::getblockheader_verbose(with_result(Json::Integer(1)))));
    assert!(wrong(response::result_record(with_result(Json::Bool(true)))));
    assert!(matches!(
        response::gettxout(with_result(text("spent"))),
        Err(ClientError::Decode(DecodeError::WrongType))
    ));
    assert!(matches!(
        response::getrawtransaction_verbose(with_result(Json::Array(vec![]))),
        Err(ClientError::Decode(DecodeError::WrongType))
    ));
    assert!(matches!(
        response::signrawtransaction(without_result()),
        Err(ClientError::Decode(DecodeError::Missing))
    ));
    assert_eq!(response::result_record(with_result(Json::Object(vec![]))).unwrap(), Json::Object(vec![]));
}

#[test]
fn header_is_read_from_eighty_bytes() {
    let zeros = |n: usize| text(&"00".repeat(n));
    assert!(matches!(
        response::getblockheader(with_result(zeros(79))),
        Err(ClientError::Consensus(_))
    ));
    assert!(matches!(
        response::getblockheader(with_result(zeros(1))),
        Err(ClientError::Consensus(_))
    ));
    let header = response::getblockheader(with_result(zeros(80))).unwrap();
    assert_eq!(header.version, 0);
    assert_eq!(header.nonce, 0);
    assert_eq!(header.prev_blockhash, Sha256dHash::default());
    let longer = response::getblockheader(with_result(zeros(81))).unwrap();
    assert_eq!(longer, header);
    let mut hex = genesis_header_hex();
    assert_eq!(hex.len(), 160);
    hex.push_str("ff");
    assert_eq!(
        response::getblockheader(with_result(text(&hex))).unwrap(),
        genesis_block(Network::Bitcoin).header
    );
}

#[test]
fn gettxout_spent_output_is_no_value() {
    assert!(matches!(response::gettxout(with_result(Json::Null)), Ok(None)));
    assert!(matches!(response::gettxout(without_result()), Ok(None)));
}

#[test]
fn listunspent_decodes_a_list() {
    let items = || {
        vec![Json::Object(vec![("vout".to_string(), Json::Integer(1))]), Json::Object(vec![])]
    };
    assert_eq!(response::listunspent(with_result(Json::Array(items()))).unwrap(), items());
    let mixed = vec![Json::Object(vec![]), Json::Null];
    assert!(matches!(
        response::listunspent(with_result(Json::Array(mixed))),
        Err(ClientError::Decode(DecodeError::WrongType))
    ));
    assert!(matches!(
        response::listunspent(with_result(Json::Array(vec![Json::Integer(1)]))),
        Err(ClientError::Decode(DecodeError::WrongType))
    ));
    assert_eq!(response::listunspent(with_result(Json::Array(vec![]))).unwrap(), vec![]);
    assert!(matches!(
        response::listunspent(with_result(Json::Object(vec![]))),
        Err(ClientError::Decode(DecodeError::WrongType))
    ));
    assert!(matches!(
        response::listunspent(without_result()),
        Err(ClientError::Decode(DecodeError::Missing))
    ));
}
