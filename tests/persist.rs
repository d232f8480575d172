use reserve_tracker::persist::{encode_list, list_from_contents, LoadError};

#[test]
fn stored_list_reads_back_the_same() {
    let list = vec!["aleo1abc".to_string(), "quote \" and \\ slash".to_string(), "aleo1def".to_string()];
    let text = encode_list(&list);
    assert_eq!(list_from_contents(Some(text)).unwrap(), list);
}

#[test]
fn empty_list_round_trip() {
    let list: Vec<String> = Vec::new();
    let text = encode_list(&list);
    assert_eq!(text, "[]");
    assert_eq!(list_from_contents(Some(text)).unwrap(), list);
}

#[test]
fn encoding_is_a_json_array() {
    let list = vec!["a".to_string(), "b".to_string()];
    assert_eq!(encode_list(&list), "[\"a\",\"b\"]");
}

#[test]
fn missing_file_is_an_empty_list() {
    assert_eq!(list_from_contents(None).unwrap(), Vec::<String>::new());
}

#[test]
fn malformed_file_is_an_error() {
    assert_eq!(list_from_contents(Some("{not json".to_string())).unwrap_err(), LoadError::Malformed);
    assert_eq!(list_from_contents(Some("[1, 2]".to_string())).unwrap_err(), LoadError::Malformed);
}
