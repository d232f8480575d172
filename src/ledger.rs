use vstd::prelude::*;
use crate::text::{strip_quotes, unquoted};

verus! {

// ---- Routes of the ledger's REST surface ----

/// `{endpoint}/{network}` followed by `tail`.
pub open spec fn route(endpoint: Seq<char>, network: Seq<char>, tail: Seq<char>) -> Seq<char> {
    endpoint + "/"@ + network + tail
}

fn route_to(endpoint: &str, network: &str, tail: &str) -> (r: String)
    ensures
        r@ == route(endpoint@, network@, tail@),
{
    let r = endpoint.to_owned().concat("/").concat(network).concat(tail);
    assert(r@ =~= route(endpoint@, network@, tail@));
    r
}

/// Where a transaction is broadcast.
pub fn broadcast_url(endpoint: &str, network: &str) -> (r: String)
    ensures
        r@ == route(endpoint@, network@, "/transaction/broadcast"@),
{
    route_to(endpoint, network, "/transaction/broadcast")
}

/// Where the hash of the block holding a transaction is found.
pub fn block_hash_url(endpoint: &str, network: &str, transaction_id: &str) -> (r: String)
    ensures
        r@ == route(endpoint@, network@, "/find/blockHash/"@ + transaction_id@),
{
    let tail = "/find/blockHash/".to_owned().concat(transaction_id);
    route_to(endpoint, network, tail.as_str())
}

/// Where the height of a block is found from its hash.
pub fn height_url(endpoint: &str, network: &str, block_hash: &str) -> (r: String)
    ensures
        r@ == route(endpoint@, network@, "/height/"@ + block_hash@),
{
    let tail = "/height/".to_owned().concat(block_hash);
    route_to(endpoint, network, tail.as_str())
}

/// Where the block at a height is found.
pub fn block_url(endpoint: &str, network: &str, height: &str) -> (r: String)
    ensures
        r@ == route(endpoint@, network@, "/block/"@ + height@),
{
    let tail = "/block/".to_owned().concat(height);
    route_to(endpoint, network, tail.as_str())
}

/// Where a confirmed transaction is found.
pub fn confirmed_transaction_url(endpoint: &str, network: &str, transaction_id: &str) -> (r: String)
    ensures
        r@ == route(endpoint@, network@, "/transaction/confirmed/"@ + transaction_id@),
{
    let tail = "/transaction/confirmed/".to_owned().concat(transaction_id);
    route_to(endpoint, network, tail.as_str())
}

/// Where an entry of a program's published mapping is found.
pub fn mapping_url(endpoint: &str, network: &str, program_id: &str, mapping: &str, key: &str) -> (r: String)
    ensures
        r@ == route(
            endpoint@,
            network@,
            "/program/"@ + program_id@ + "/mapping/"@ + mapping@ + "/"@ + key@,
        ),
{
    let tail = "/program/".to_owned().concat(program_id).concat("/mapping/").concat(mapping).concat(
        "/",
    ).concat(key);
    route_to(endpoint, network, tail.as_str())
}

// ---- Reading the ledger's JSON answers ----

/// The compact JSON text of the document `body`, where `body` is JSON.
pub uninterp spec fn json_rendering(body: Seq<char>) -> Option<Seq<char>>;

/// The compact JSON text of the value at `pointer` in the document `body`,
/// where `body` is JSON and holds such a value.
pub uninterp spec fn json_rendering_at(body: Seq<char>, pointer: Seq<char>) -> Option<Seq<char>>;

/// The content of the document `body`, where it is a JSON string.
pub uninterp spec fn json_string_content(body: Seq<char>) -> Option<Seq<char>>;

/// The UTC instant `secs` seconds after the Unix epoch, written as
/// `YYYY-MM-DD hh:mm:ss UTC`, where it is in the representable range.
pub uninterp spec fn utc_rendering(secs: int) -> Option<Seq<char>>;

/// Relies on `serde_json::from_str` into a `serde_json::Value` and on that
/// value's `Display`, which writes it back as compact JSON.
#[verifier::external_body]
fn render_json(body: &str) -> (r: Option<String>)
    ensures
        match r {
            Some(t) => json_rendering(body@) == Some(t@),
            None => json_rendering(body@) is None,
        },
{
    serde_json::from_str::<serde_json::Value>(body).ok().map(|v| v.to_string())
}

/// Relies on `serde_json::from_str` into a `serde_json::Value`, on
/// `Value::pointer` to look the field up, and on `Display` to write it back.
#[verifier::external_body]
fn render_json_at(body: &str, pointer: &str) -> (r: Option<String>)
    ensures
        match r {
            Some(t) => json_rendering_at(body@, pointer@) == Some(t@),
            None => json_rendering_at(body@, pointer@) is None,
        },
{
    let value = serde_json::from_str::<serde_json::Value>(body).ok()?;
    value.pointer(pointer).map(|v| v.to_string())
}

/// Relies on `serde_json::from_str` into a `serde_json::Value` and on
/// `Value::as_str`, which gives the content of a JSON string and nothing else.
#[verifier::external_body]
fn json_string(body: &str) -> (r: Option<String>)
    ensures
        match r {
            Some(t) => json_string_content(body@) == Some(t@),
            None => json_string_content(body@) is None,
        },
{
    let value = serde_json::from_str::<serde_json::Value>(body).ok()?;
    value.as_str().map(|s| s.to_string())
}

/// Relies on `chrono::DateTime::<Utc>::from_timestamp`, which gives `None` out of
/// its range, and on the `Display` of the instant.
#[verifier::external_body]
fn render_utc(secs: i64) -> (r: Option<String>)
    ensures
        match r {
            Some(t) => utc_rendering(secs as int) == Some(t@),
            None => utc_rendering(secs as int) is None,
        },
{
    chrono::DateTime::<chrono::Utc>::from_timestamp(secs, 0).map(|d| d.to_string())
}

/// The value of a decimal digit.
pub open spec fn digit_value(c: char) -> int {
    (c as u32) as int - ('0' as u32) as int
}

pub open spec fn is_digits(s: Seq<char>) -> bool {
    s.len() > 0 && forall|i: int| 0 <= i < s.len() ==> '0' <= #[trigger] s[i] <= '9'
}

/// The number that a string of decimal digits writes.
pub open spec fn digits_value(s: Seq<char>) -> int
    decreases s.len(),
{
    if s.len() == 0 {
        0
    } else {
        digits_value(s.drop_last()) * 10 + digit_value(s.last())
    }
}

/// The integer that `s` writes in decimal, with an optional sign.
pub open spec fn signed_decimal(s: Seq<char>) -> Option<int> {
    if s.len() > 0 && s[0] == '-' && is_digits(s.drop_first()) {
        Some(-digits_value(s.drop_first()))
    } else if s.len() > 0 && s[0] == '+' && is_digits(s.drop_first()) {
        Some(digits_value(s.drop_first()))
    } else if is_digits(s) {
        Some(digits_value(s))
    } else {
        None
    }
}

/// `i64` parse of `s`: the value where `s` writes one in range.
pub open spec fn i64_of(s: Seq<char>) -> Option<i64> {
    match signed_decimal(s) {
        Some(v) => if i64::MIN <= v <= i64::MAX {
            Some(v as i64)
        } else {
            None
        },
        None => None,
    }
}

/// Relies on `<i64 as FromStr>::from_str`: an optional `+` or `-` sign followed
/// by decimal digits only, whose value fits.
#[verifier::external_body]
fn parse_i64(s: &str) -> (r: Option<i64>)
    ensures
        r == i64_of(s@),
{
    s.parse::<i64>().ok()
}

/// A field of a ledger answer as the ledger means it: the answer's JSON text
/// without its quote characters.
pub open spec fn plain_field(body: Seq<char>) -> Option<Seq<char>> {
    match json_rendering(body) {
        Some(t) => Some(unquoted(t)),
        None => None,
    }
}

/// Reads a bare field (a block hash, a height) from a ledger answer.
pub fn read_plain_field(body: &str) -> (r: Option<String>)
    ensures
        match r {
            Some(t) => plain_field(body@) == Some(t@),
            None => plain_field(body@) is None,
        },
{
    match render_json(body) {
        Some(t) => Some(strip_quotes(t.as_str())),
        None => None,
    }
}

/// The timestamp of a block, as its metadata writes it.
pub open spec fn block_seconds(body: Seq<char>) -> Option<i64> {
    match json_rendering_at(body, "/header/metadata/timestamp"@) {
        Some(t) => i64_of(unquoted(t)),
        None => None,
    }
}

/// The readable time of a block.
pub open spec fn block_time(body: Seq<char>) -> Option<Seq<char>> {
    match block_seconds(body) {
        Some(secs) => utc_rendering(secs as int),
        None => None,
    }
}

/// Reads the timestamp from the metadata of a block and writes it as a UTC time.
pub fn read_block_time(body: &str) -> (r: Option<String>)
    ensures
        match r {
            Some(t) => block_time(body@) == Some(t@),
            None => block_time(body@) is None,
        },
{
    let field = match render_json_at(body, "/header/metadata/timestamp") {
        Some(t) => t,
        None => return None,
    };
    let digits = strip_quotes(field.as_str());
    match parse_i64(digits.as_str()) {
        Some(secs) => render_utc(secs),
        None => None,
    }
}

/// Reads a mapping entry's value, which the ledger sends as a JSON string.
pub fn read_mapping_value(body: &str) -> (r: Option<String>)
    ensures
        match r {
            Some(t) => json_string_content(body@) == Some(t@),
            None => json_string_content(body@) is None,
        },
{
    json_string(body)
}

} // verus!
