use vstd::prelude::*;
use crate::registry::texts;

verus! {

/// The JSON text of a list of strings: an array of JSON strings, in order.
pub uninterp spec fn json_list_text(list: Seq<Seq<char>>) -> Seq<char>;

/// The strings of `text`, where it is a JSON array of strings.
pub uninterp spec fn json_list_of(text: Seq<char>) -> Option<Seq<Seq<char>>>;

/// Relies on `serde_json::to_string` on a list of strings. It fails only where a
/// `Serialize` impl fails or a map has keys that are not strings, neither of
/// which a list of strings has; `serde_json::from_str` reads the array it
/// writes back as the same strings.
#[verifier::external_body]
fn to_json_list(list: &Vec<String>) -> (r: Option<String>)
    ensures
        r is Some,
        match r {
            Some(t) => t@ == json_list_text(texts(list@)) && json_list_of(t@) == Some(texts(list@)),
            None => true,
        },
{
    serde_json::to_string(list).ok()
}

/// Relies on `serde_json::from_str` into a list of strings.
#[verifier::external_body]
fn from_json_list(text: &str) -> (r: Option<Vec<String>>)
    ensures
        match r {
            Some(v) => json_list_of(text@) == Some(texts(v@)),
            None => json_list_of(text@) is None,
        },
{
    serde_json::from_str::<Vec<String>>(text).ok()
}

/// The stored form of a list of addresses or transaction ids.
pub fn encode_list(list: &Vec<String>) -> (r: String)
    ensures
        r@ == json_list_text(texts(list@)),
        json_list_of(r@) == Some(texts(list@)),
{
    match to_json_list(list) {
        Some(t) => t,
        None => String::new(),
    }
}

/// Why a stored list could not be read.
#[derive(Clone, Copy, Debug, PartialEq, Eq, Structural)]
pub enum LoadError {
    /// The file does not hold a JSON array of strings.
    Malformed,
}

/// The list that a stored file holds, given its contents, or `None` where the
/// file does not exist, which stands for an empty list.
pub fn list_from_contents(contents: Option<String>) -> (r: Result<Vec<String>, LoadError>)
    ensures
        contents is None ==> (r matches Ok(v) && v@.len() == 0),
        contents matches Some(t) ==> match json_list_of(t@) {
            Some(l) => r matches Ok(v) && texts(v@) == l,
            None => r == Err::<Vec<String>, LoadError>(LoadError::Malformed),
        },
{
    match contents {
        None => Ok(Vec::new()),
        Some(t) => match from_json_list(t.as_str()) {
            Some(v) => Ok(v),
            None => Err(LoadError::Malformed),
        },
    }
}

} // verus!
