use reserve_tracker::verification::{LedgerEvent, LedgerRequest, Resolver, VerifyStep};
use snarkvm::prelude::{Address, PrivateKey, TestnetV0};
use std::str::FromStr;

const ENDPOINT: &str = "https://api.example/v1";
const KEY: &str = "APrivateKey1zkp8CZNn3yeCseEtxuVPbDCwSyhGW6yZKUYKfgXmcpoGPWH";

fn signer() -> String {
    Address::<TestnetV0>::try_from(&PrivateKey::<TestnetV0>::from_str(KEY).unwrap()).unwrap().to_string()
}

fn answer(body: &str) -> LedgerEvent {
    LedgerEvent::Answer { body: body.to_string() }
}

fn url_of(r: &Resolver) -> String {
    match r.next_request() {
        LedgerRequest::Get { url } => url,
        LedgerRequest::Done => panic!("expected a request"),
    }
}

fn walk_to_transaction(r: &mut Resolver) {
    assert_eq!(url_of(r), "https://api.example/v1/testnet/find/blockHash/at1rec");
    r.on_event(answer("\"ab1block\""));
    assert_eq!(url_of(r), "https://api.example/v1/testnet/height/ab1block");
    r.on_event(answer("100"));
    assert_eq!(url_of(r), "https://api.example/v1/testnet/block/100");
    r.on_event(answer("{\"header\":{\"metadata\":{\"timestamp\":1700000000}}}"));
    assert_eq!(url_of(r), "https://api.example/v1/testnet/transaction/confirmed/at1rec");
}

fn mapping_url(hash: &str) -> String {
    format!(
        "https://api.example/v1/testnet/program/proof_of_reserves_v0_1_0.aleo/mapping/data/{{user:{},hash:{},height:100u32}}",
        signer(),
        hash
    )
}

#[test]
fn recorded_attestation_resolves_to_its_reserve_value() {
    let mut r = Resolver::new("at1rec", KEY, ENDPOINT, "testnet");
    walk_to_transaction(&mut r);
    r.on_committed_argument(Some(Some("123field".to_string())));
    assert_eq!(url_of(&r), mapping_url("123field"));
    r.on_event(answer("\"42\""));
    assert!(r.is_finished());
    assert!(matches!(r.next_request(), LedgerRequest::Done));
    let v = r.into_outcome().unwrap().unwrap();
    assert_eq!(v.height, "100");
    assert_eq!(v.timestamp, "2023-11-14 22:13:20 UTC");
    assert_eq!(v.reserve_value, "42");
}

#[test]
fn transaction_without_future_uses_the_placeholder_hash() {
    let mut r = Resolver::new("at1rec", KEY, ENDPOINT, "testnet");
    walk_to_transaction(&mut r);
    r.on_committed_argument(Some(None));
    assert_eq!(url_of(&r), mapping_url("Could not find data hash."));
    r.on_event(answer("\"7\""));
    let v = r.into_outcome().unwrap().unwrap();
    assert_eq!(v.reserve_value, "7");
}

#[test]
fn unreadable_transaction_fails_at_that_step() {
    let mut r = Resolver::new("at1rec", KEY, ENDPOINT, "testnet");
    walk_to_transaction(&mut r);
    r.on_event(answer("{\"not\":\"a transaction\"}"));
    assert!(matches!(r.next_request(), LedgerRequest::Done));
    let err = r.into_outcome().unwrap().unwrap_err();
    assert_eq!(err.step, VerifyStep::ConfirmedTransaction);
}

#[test]
fn bad_signing_key_fails_at_signer() {
    let mut r = Resolver::new("at1rec", "not a key", ENDPOINT, "testnet");
    walk_to_transaction(&mut r);
    r.on_committed_argument(Some(Some("1field".to_string())));
    let err = r.into_outcome().unwrap().unwrap_err();
    assert_eq!(err.step, VerifyStep::Signer);
    assert_eq!(err.cause, "the signing key could not be read");
}

#[test]
fn failed_height_lookup_stops_the_chain() {
    let mut r = Resolver::new("at1rec", KEY, ENDPOINT, "testnet");
    let mut requests = 0;
    url_of(&r);
    requests += 1;
    r.on_event(LedgerEvent::QueryFailed { cause: "timeout".to_string() });
    let later = vec![
        answer("100"),
        answer("{\"header\":{\"metadata\":{\"timestamp\":1}}}"),
        answer("{}"),
        answer("\"42\""),
    ];
    for e in later {
        if let LedgerRequest::Get { .. } = r.next_request() {
            requests += 1;
        }
        r.on_event(e);
    }
    r.on_committed_argument(Some(None));
    assert_eq!(requests, 1);
    let err = r.into_outcome().unwrap().unwrap_err();
    assert_eq!(err.step, VerifyStep::BlockHash);
    assert_eq!(err.cause, "timeout");
}

#[test]
fn second_hop_failure_is_reported_as_height() {
    let mut r = Resolver::new("at1rec", KEY, ENDPOINT, "testnet");
    r.on_event(answer("\"ab1block\""));
    r.on_event(answer("{oops"));
    assert!(matches!(r.next_request(), LedgerRequest::Done));
    let err = r.into_outcome().unwrap().unwrap_err();
    assert_eq!(err.step, VerifyStep::BlockHeight);
    assert_eq!(err.cause, "the ledger's answer could not be read");
}

#[test]
fn block_without_timestamp_fails_at_block() {
    let mut r = Resolver::new("at1rec", KEY, ENDPOINT, "testnet");
    r.on_event(answer("\"ab1block\""));
    r.on_event(answer("100"));
    r.on_event(answer("{\"header\":{}}"));
    assert_eq!(r.into_outcome().unwrap().unwrap_err().step, VerifyStep::Block);
}

#[test]
fn missing_mapping_value_fails_at_mapping() {
    let mut r = Resolver::new("at1rec", KEY, ENDPOINT, "testnet");
    walk_to_transaction(&mut r);
    r.on_committed_argument(Some(None));
    r.on_event(answer("null"));
    assert_eq!(r.into_outcome().unwrap().unwrap_err().step, VerifyStep::MappingValue);
}

#[test]
fn transaction_query_failure_names_its_step() {
    let mut r = Resolver::new("at1rec", KEY, ENDPOINT, "testnet");
    walk_to_transaction(&mut r);
    r.on_event(LedgerEvent::QueryFailed { cause: "404".to_string() });
    assert_eq!(r.into_outcome().unwrap().unwrap_err().step, VerifyStep::ConfirmedTransaction);
}

#[test]
fn argument_out_of_turn_changes_nothing() {
    let mut r = Resolver::new("at1rec", KEY, ENDPOINT, "testnet");
    r.on_committed_argument(Some(Some("1field".to_string())));
    assert_eq!(url_of(&r), "https://api.example/v1/testnet/find/blockHash/at1rec");
    assert!(r.into_outcome().is_none());
}
