use vstd::prelude::*;
use std::str::FromStr;
use snarkvm::prelude::{Address, Argument, ConfirmedTransaction, Output, PrivateKey, TestnetV0};

verus! {

/// Whether `s` is the text of an account address of the test network.
pub uninterp spec fn is_address(s: Seq<char>) -> bool;

/// The address that the private key written as `key` derives, where `key` is one.
pub uninterp spec fn signer_of_key(key: Seq<char>) -> Option<Seq<char>>;

/// What the confirmed transaction written as the JSON text `body` commits to,
/// where `body` is one with an execution that has a transition:
/// `Some(Some(text))` where the first output of the first transition is a future
/// whose first argument is a plaintext, written as `text`; `Some(None)` where
/// there is no such output, it is no future, or its first argument is no
/// plaintext; `None` also where that future has no argument.
pub uninterp spec fn committed_argument(body: Seq<char>) -> Option<Option<Seq<char>>>;

/// Relies on `<Address<TestnetV0> as FromStr>::from_str`, which accepts the
/// bech32m text of an account address and refuses anything else.
#[verifier::external_body]
pub(crate) fn check_address(s: &str) -> (r: Result<(), String>)
    ensures
        r is Ok <==> is_address(s@),
{
    Address::<TestnetV0>::from_str(s).map(|_| ()).map_err(|e| e.to_string())
}

/// Relies on `<PrivateKey<TestnetV0> as FromStr>::from_str` to read the key and
/// on `Address::try_from(&PrivateKey)` to derive its address, written out by
/// the address's `Display`.
#[verifier::external_body]
pub(crate) fn derive_signer(key: &str) -> (r: Result<String, String>)
    ensures
        match r {
            Ok(a) => signer_of_key(key@) == Some(a@),
            Err(_) => signer_of_key(key@) is None,
        },
{
    let private_key = PrivateKey::<TestnetV0>::from_str(key).map_err(|e| e.to_string())?;
    Address::try_from(&private_key).map(|a| a.to_string()).map_err(|e| e.to_string())
}

/// Relies on serde_json's decoding of `ConfirmedTransaction<TestnetV0>` and on
/// its getters, down to the first argument of the future of the first output of
/// the first transition, which a plaintext's `Display` writes out.
#[verifier::external_body]
pub(crate) fn read_committed_argument(body: &str) -> (r: Option<Option<String>>)
    ensures
        match r {
            Some(Some(t)) => committed_argument(body@) == Some(Some(t@)),
            Some(None) => committed_argument(body@) == Some(None::<Seq<char>>),
            None => committed_argument(body@) is None,
        },
{
    let tx = serde_json::from_str::<ConfirmedTransaction<TestnetV0>>(body).ok()?;
    let transition = tx.execution()?.transitions().next()?;
    match transition.outputs().first() {
        Some(Output::Future(_, Some(future))) => match future.arguments().first()? {
            Argument::Plaintext(plaintext) => Some(Some(plaintext.to_string())),
            _ => Some(None),
        },
        _ => Some(None),
    }
}

} // verus!
