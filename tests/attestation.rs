use reserve_tracker::attestation::{
    function_name, program_id, AttestationError, AttestationEvent, AttestationRun, AttestationStep,
};
use reserve_tracker::registry::{AddressBook, TransactionLog};
use snarkvm::prelude::{Address, PrivateKey, TestnetV0};
use std::str::FromStr;

const ENDPOINT: &str = "https://api.example/v1";
const KEY: &str = "APrivateKey1zkp8CZNn3yeCseEtxuVPbDCwSyhGW6yZKUYKfgXmcpoGPWH";

fn address_of(key: &PrivateKey<TestnetV0>) -> String {
    Address::<TestnetV0>::try_from(key).unwrap().to_string()
}

fn signer() -> String {
    address_of(&PrivateKey::<TestnetV0>::from_str(KEY).unwrap())
}

fn fresh_address() -> String {
    address_of(&PrivateKey::<TestnetV0>::new(&mut rand::rngs::OsRng).unwrap())
}

fn book_of(items: &[String]) -> AddressBook {
    let mut book = AddressBook::new();
    for a in items {
        book.add(a);
    }
    book
}

/// A run that has executed and is about to broadcast `id`.
fn executed_run(id: &str) -> AttestationRun {
    let mut run = AttestationRun::new(&AddressBook::new(), KEY, ENDPOINT, "testnet");
    run.on_event(AttestationEvent::Executed { transaction_id: id.to_string() });
    run
}

#[test]
fn successful_run_broadcasts_once_and_records_the_id() {
    let watched = vec![fresh_address(), fresh_address()];
    let book = book_of(&watched);
    let mut log = TransactionLog::from_list(vec!["at1old".to_string()]);
    let mut run = AttestationRun::new(&book, KEY, ENDPOINT, "testnet");
    let mut broadcasts = 0;
    let mut executions = 0;
    loop {
        match run.next_step() {
            AttestationStep::Execute(req) => {
                executions += 1;
                assert_eq!(req.program_id, "proof_of_reserves_v0_1_0.aleo");
                assert_eq!(req.function_name, "record_balances2");
                assert_eq!(req.signer, signer());
                assert_ne!(req.signer, KEY);
                assert_eq!(req.addresses, watched);
                assert_eq!(req.priority_fee, 0);
                assert_eq!(req.query_endpoint, ENDPOINT);
                run.on_event(AttestationEvent::Executed { transaction_id: "at1new".to_string() });
            }
            AttestationStep::Broadcast { url, transaction_id } => {
                broadcasts += 1;
                assert_eq!(url, "https://api.example/v1/testnet/transaction/broadcast");
                assert_eq!(transaction_id, "at1new");
                run.on_event(AttestationEvent::Broadcasted);
            }
            AttestationStep::Record { transaction_id } => {
                assert_eq!(transaction_id, "at1new");
                assert!(run.record(&mut log));
            }
            AttestationStep::Persist => run.on_event(AttestationEvent::Persisted),
            AttestationStep::Finished => break,
        }
    }
    assert_eq!(executions, 1);
    assert_eq!(broadcasts, 1);
    assert_eq!(log.entries(), vec!["at1old".to_string(), "at1new".to_string()]);
    assert!(run.is_finished());
    assert_eq!(run.into_outcome().unwrap().unwrap(), "at1new");
}

#[test]
fn execution_inputs_keep_the_tracked_order() {
    let (a1, a2, a3) = (fresh_address(), fresh_address(), fresh_address());
    let book = book_of(&[a3.clone(), a1.clone(), a2.clone(), a1.clone()]);
    let run = AttestationRun::new(&book, KEY, ENDPOINT, "testnet");
    match run.next_step() {
        AttestationStep::Execute(req) => assert_eq!(req.addresses, vec![a3, a1, a2]),
        _ => panic!("expected an execution"),
    }
}

#[test]
fn no_addresses_goes_straight_to_execution() {
    let run = AttestationRun::new(&AddressBook::new(), KEY, ENDPOINT, "testnet");
    match run.next_step() {
        AttestationStep::Execute(req) => assert!(req.addresses.is_empty()),
        _ => panic!("expected an execution"),
    }
}

#[test]
fn bad_key_stops_the_run() {
    let book = book_of(&[fresh_address()]);
    let run = AttestationRun::new(&book, "not a key", ENDPOINT, "testnet");
    assert!(matches!(run.next_step(), AttestationStep::Finished));
    match run.into_outcome().unwrap().unwrap_err() {
        AttestationError::KeyParse { .. } => {}
        other => panic!("unexpected error {:?}", other),
    }
}

#[test]
fn first_bad_address_is_reported_with_its_text() {
    let book = book_of(&[fresh_address(), "oops".to_string(), "also_bad".to_string()]);
    let run = AttestationRun::new(&book, KEY, ENDPOINT, "testnet");
    assert!(matches!(run.next_step(), AttestationStep::Finished));
    match run.into_outcome().unwrap().unwrap_err() {
        AttestationError::AddressParse { address, .. } => assert_eq!(address, "oops"),
        other => panic!("unexpected error {:?}", other),
    }
}

#[test]
fn address_error_message_names_the_address() {
    let err = AttestationError::AddressParse { address: "oops".to_string(), cause: "too short".to_string() };
    assert_eq!(err.message(), "Failed to parse address 'oops': too short");
    let err = AttestationError::KeyParse { cause: "bad".to_string() };
    assert_eq!(err.message(), "Failed to parse private key: bad");
}

#[test]
fn failures_at_execution_are_told_apart() {
    let cases: Vec<(AttestationEvent, &str)> = vec![
        (AttestationEvent::ExecutionFailed { cause: "c".to_string() }, "Failed to execute VM: c"),
        (AttestationEvent::JoinFailed { cause: "c".to_string() }, "task join error: c"),
        (AttestationEvent::EngineUnavailable { cause: "c".to_string() }, "Failed to initialize the engine: c"),
    ];
    for (event, text) in cases {
        let mut run = AttestationRun::new(&AddressBook::new(), KEY, ENDPOINT, "testnet");
        run.on_event(event);
        assert_eq!(run.into_outcome().unwrap().unwrap_err().message(), text);
    }
}

#[test]
fn failed_broadcast_records_nothing() {
    let mut log = TransactionLog::new();
    let mut run = executed_run("at1x");
    run.on_event(AttestationEvent::BroadcastFailed { cause: "503".to_string() });
    assert!(!run.record(&mut log));
    assert_eq!(log.len(), 0);
    assert_eq!(run.into_outcome().unwrap().unwrap_err().message(), "Failed to broadcast transaction: 503");
}

#[test]
fn persist_failure_keeps_the_record() {
    let mut log = TransactionLog::new();
    let mut run = executed_run("at1x");
    run.on_event(AttestationEvent::Broadcasted);
    assert!(run.record(&mut log));
    run.on_event(AttestationEvent::PersistFailed { cause: "disk full".to_string() });
    assert_eq!(log.entries(), vec!["at1x".to_string()]);
    assert_eq!(run.into_outcome().unwrap().unwrap_err().message(), "Failed to save transactions: disk full");
}

#[test]
fn unfinished_run_has_no_outcome() {
    let run = AttestationRun::new(&AddressBook::new(), KEY, ENDPOINT, "testnet");
    assert!(!run.is_finished());
    assert!(run.into_outcome().is_none());
}

#[test]
fn program_names() {
    assert_eq!(program_id(), "proof_of_reserves_v0_1_0.aleo");
    assert_eq!(function_name(), "record_balances2");
}
