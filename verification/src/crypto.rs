//! Hashing and message authentication.

use hmac::digest::InvalidLength;
use hmac::{Hmac, Mac};
use sha2::{Digest, Sha256};
use vstd::prelude::*;

verus! {

/// The SHA-256 digest of a message, as `Sha256::digest` gives it.
pub uninterp spec fn sha256(message: Seq<u8>) -> Seq<u8>;

/// The HMAC-SHA-256 tag of a message under a key, as `Mac::finalize` of `Hmac<Sha256>` gives it.
pub uninterp spec fn hmac_sha256(key: Seq<u8>, message: Seq<u8>) -> Seq<u8>;

/// The error with which a MAC refuses the length of a key.
#[verifier::external_type_specification]
#[verifier::external_body]
pub struct ExInvalidLength(InvalidLength);

/// Calls `Sha256::digest`. The digest has 32 bytes; nothing more is said of it than that it is
/// a function of the message.
#[verifier::external_body]
pub(crate) fn sha256_digest(message: &[u8]) -> (res: Vec<u8>)
    ensures
        res@ == sha256(message@),
        res@.len() == 32,
{
    Sha256::digest(message).to_vec()
}

/// Calls `Mac::new_from_slice`, `Mac::chain_update` and `Mac::finalize` of `Hmac<Sha256>`. An
/// HMAC takes a key of any length, so there is always a tag, and it has 32 bytes; nothing more is
/// said of it than that it is a function of key and message.
#[verifier::external_body]
pub(crate) fn hmac_tag(key: &[u8], message: &[u8]) -> (res: Result<Vec<u8>, InvalidLength>)
    ensures
        res is Ok,
        res matches Ok(tag) ==> tag@ == hmac_sha256(key@, message@),
        res matches Ok(tag) ==> tag@.len() == 32,
{
    let mac = Hmac::<Sha256>::new_from_slice(key)?;
    Ok(mac.chain_update(message).finalize().into_bytes().to_vec())
}

/// Calls `Mac::verify_slice` of `Hmac<Sha256>`, which accepts a tag exactly if it is, in full
/// length, the tag of the message under the key. A tag of another length than 32 bytes is refused.
#[verifier::external_body]
pub(crate) fn hmac_verifies(key: &[u8], message: &[u8], tag: &[u8]) -> (res: bool)
    ensures
        res == (tag@ == hmac_sha256(key@, message@)),
        res ==> tag@.len() == 32,
{
    match Hmac::<Sha256>::new_from_slice(key) {
        Ok(mac) => mac.chain_update(message).verify_slice(tag).is_ok(),
        Err(_) => false,
    }
}

} // verus!
