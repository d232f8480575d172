use reserve_tracker::ledger::{
    block_hash_url, block_url, broadcast_url, confirmed_transaction_url, height_url, mapping_url,
    read_block_time, read_mapping_value, read_plain_field,
};
use reserve_tracker::text::{same_text, strip_quotes};

#[test]
fn routes_follow_the_ledger_api() {
    let ep = "https://api.example/v1";
    assert_eq!(broadcast_url(ep, "testnet"), "https://api.example/v1/testnet/transaction/broadcast");
    assert_eq!(block_hash_url(ep, "testnet", "at1x"), "https://api.example/v1/testnet/find/blockHash/at1x");
    assert_eq!(height_url(ep, "testnet", "ab1h"), "https://api.example/v1/testnet/height/ab1h");
    assert_eq!(block_url(ep, "testnet", "100"), "https://api.example/v1/testnet/block/100");
    assert_eq!(
        confirmed_transaction_url(ep, "testnet", "at1x"),
        "https://api.example/v1/testnet/transaction/confirmed/at1x"
    );
    assert_eq!(
        mapping_url(ep, "testnet", "prog.aleo", "data", "{k}"),
        "https://api.example/v1/testnet/program/prog.aleo/mapping/data/{k}"
    );
}

#[test]
fn plain_fields_lose_their_quotes() {
    assert_eq!(read_plain_field("\"ab1hash\"").unwrap(), "ab1hash");
    assert_eq!(read_plain_field(" 100 ").unwrap(), "100");
    assert_eq!(read_plain_field("not json"), None);
}

#[test]
fn block_time_is_written_in_utc() {
    let body = "{\"header\":{\"metadata\":{\"timestamp\":1700000000,\"height\":100}}}";
    assert_eq!(read_block_time(body).unwrap(), "2023-11-14 22:13:20 UTC");
    let quoted = "{\"header\":{\"metadata\":{\"timestamp\":\"0\"}}}";
    assert_eq!(read_block_time(quoted).unwrap(), "1970-01-01 00:00:00 UTC");
}

#[test]
fn block_without_timestamp_is_unreadable() {
    assert_eq!(read_block_time("{\"header\":{}}"), None);
    assert_eq!(read_block_time("{\"header\":{\"metadata\":{\"timestamp\":\"soon\"}}}"), None);
    assert_eq!(read_block_time("[1,2"), None);
}

#[test]
fn mapping_value_must_be_a_string() {
    assert_eq!(read_mapping_value("\"42u64\"").unwrap(), "42u64");
    assert_eq!(read_mapping_value("null"), None);
    assert_eq!(read_mapping_value("42"), None);
}

#[test]
fn quotes_are_stripped_everywhere() {
    assert_eq!(strip_quotes("\"a\"b\""), "ab");
    assert_eq!(strip_quotes(""), "");
    assert_eq!(strip_quotes("plain"), "plain");
}

#[test]
fn same_text_compares_contents() {
    assert!(same_text("abc", "abc"));
    assert!(!same_text("abc", "abd"));
    assert!(!same_text("abc", "ab"));
}
