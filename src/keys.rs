use vstd::prelude::*;

use crate::error::HtlcError;

verus! {

/// Length of a secret key.
pub const SECRET_KEY_LEN: usize = 32;

/// The secret key that a wallet-import-format string encodes, if it is one.
pub uninterp spec fn wif_secret_key(wif: Seq<char>) -> Option<Seq<u8>>;

/// Relies on bitcoin's `PrivateKey::from_wif`: decodes a base58check WIF string
/// into its 32-byte secret key, or fails; the result depends on the string alone.
#[verifier::external_body]
fn decode_wif(wif: &str) -> (r: Option<Vec<u8>>)
    ensures
        r is Some <==> wif_secret_key(wif@) is Some,
        r is Some ==> r->Some_0@ == wif_secret_key(wif@)->Some_0,
        r is Some ==> r->Some_0@.len() == SECRET_KEY_LEN,
{
    bitcoin::PrivateKey::from_wif(wif).ok().map(|sk| sk.key[..].to_vec())
}

/// The secret key behind a WIF string that the wallet handed out; a string
/// that is none is a communication error.
pub fn secret_key_from_wif(wif: &str) -> (r: Result<Vec<u8>, HtlcError>)
    ensures
        r is Ok <==> wif_secret_key(wif@) is Some,
        r is Ok ==> r->Ok_0@ == wif_secret_key(wif@)->Some_0 && r->Ok_0@.len() == SECRET_KEY_LEN,
        r is Err ==> r->Err_0 == HtlcError::CommunicationError,
{
    match decode_wif(wif) {
        Some(k) => Ok(k),
        None => Err(HtlcError::CommunicationError),
    }
}

} // verus!
