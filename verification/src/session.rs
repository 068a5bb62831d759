//! Opaque session tokens.

use crate::crypto::{sha256, sha256_digest};
use crate::encoding::{
    base64_bytes, base64_encode, base64_round_trip, base64_text, base64_text_injective,
    base64_text_is_url_safe, hex_bytes, hex_encode, hex_round_trip, hex_text,
    hex_text_is_lower_case, is_base64_symbol, is_lower_hex,
};
use rand::rngs::OsRng;
use rand::RngCore;
use vstd::prelude::*;
use vstd::utf8::encode_utf8;

verus! {

/// The text of the token made from 32 bytes of entropy.
pub open spec fn token_text(entropy: Seq<u8>) -> Seq<char> {
    base64_text(entropy)
}

/// The hash of a token value: the SHA-256 digest of its UTF-8 bytes, in hexadecimal.
pub open spec fn token_hash(value: Seq<char>) -> Seq<char> {
    hex_text(sha256(encode_utf8(value)))
}

/// Calls `RngCore::fill_bytes` of `OsRng` on 32 bytes. Which bytes come is left to chance. Like
/// `OsRng` itself it panics where the operating system has no entropy to give.
#[verifier::external_body]
pub(crate) fn random_bytes() -> (res: [u8; 32]) {
    let mut bytes = [0_u8; 32];
    OsRng.fill_bytes(&mut bytes);
    bytes
}

/// Whether 32 bytes are what a draw from the random source of the operating system gave.
pub closed spec fn is_drawn(bytes: [u8; 32]) -> bool {
    call_ensures(random_bytes, (), bytes)
}

/// An opaque, randomly generated browser-session token.
#[derive(PartialEq, Eq)]
pub struct SessionToken(String);

impl Clone for SessionToken {
    fn clone(&self) -> (res: Self)
        ensures
            res@ == self@,
    {
        proof {
            use_type_invariant(self);
        }
        SessionToken(self.0.clone())
    }
}

impl View for SessionToken {
    type V = Seq<char>;

    closed spec fn view(&self) -> Seq<char> {
        self.0@
    }
}

impl SessionToken {
    #[verifier::type_invariant]
    spec fn made_from_entropy(self) -> bool {
        exists|entropy: Seq<u8>| entropy.len() == 32 && self.0@ == #[trigger] token_text(entropy)
    }

    /// Generate a new 256-bit token encoded without padding.
    ///
    /// Its bytes are drawn from the random source of the operating system; which bytes come is
    /// left to chance.
    #[must_use]
    pub fn generate() -> (res: Self)
        ensures
            exists|bytes: [u8; 32]| #[trigger] is_drawn(bytes) && res@ == token_text(bytes@),
            exists|bytes: [u8; 32]| #[trigger] is_drawn(bytes) && res@ == base64_text(bytes@),
    {
        let bytes = random_bytes();
        assert(is_drawn(bytes));
        Self::from_entropy(&bytes)
    }

    /// The token for the given bytes of entropy, encoded without padding.
    #[must_use]
    pub fn from_entropy(entropy: &[u8; 32]) -> (res: Self)
        ensures
            res@ == token_text(entropy@),
            res@ == base64_text(entropy@),
    {
        let text = base64_encode(entropy.as_slice());
        assert(text@ == token_text(entropy@));
        SessionToken(text)
    }

    /// Return the opaque token for setting a browser cookie or persisting it.
    pub fn as_str(&self) -> (res: &str)
        ensures
            res@ == self@,
    {
        self.0.as_str()
    }

    /// Hash the token for persistence without storing the bearer value.
    #[must_use]
    pub fn hash(&self) -> (res: String)
        ensures
            res@ == token_hash(self@),
            res@ == hex_text(sha256(encode_utf8(self@))),
            res@ != self@,
    {
        proof {
            use_type_invariant(self);
        }
        Self::hash_value(self.0.as_str())
    }

    /// Hash an arbitrary token value with SHA-256.
    #[must_use]
    pub fn hash_value(value: &str) -> (res: String)
        ensures
            res@ == token_hash(value@),
            res@ == hex_text(sha256(encode_utf8(value@))),
            res@.len() == 64,
            forall|i: int| 0 <= i < 64 ==> is_lower_hex(#[trigger] res@[i]),
    {
        let digest = sha256_digest(value.as_bytes());
        proof {
            hex_text_is_lower_case(digest@);
        }
        hex_encode(digest.as_slice())
    }

    /// What a debugging output may show of a token: that it is one, and nothing of its value.
    pub fn redacted(&self) -> (res: String)
        ensures
            res@ == "SessionToken(REDACTED)"@,
    {
        "SessionToken(REDACTED)".to_owned()
    }
}

/// A token has 43 characters, all of the URL-safe Base64 alphabet, so a cookie can hold it as it
/// is.
pub proof fn token_is_cookie_safe(entropy: Seq<u8>)
    requires
        entropy.len() == 32,
    ensures
        token_text(entropy).len() == 43,
        forall|i: int| 0 <= i < 43 ==> is_base64_symbol(#[trigger] token_text(entropy)[i]),
{
    base64_text_is_url_safe(entropy);
}

/// Tokens made from different entropy differ: no bit of it is lost.
pub proof fn token_keeps_all_entropy(a: Seq<u8>, b: Seq<u8>)
    requires
        a != b,
    ensures
        token_text(a) != token_text(b),
{
    if token_text(a) == token_text(b) {
        base64_text_injective(a, b);
    }
}

/// The bytes of a token can be read back from it, all of them.
pub proof fn token_gives_back_its_entropy(entropy: Seq<u8>)
    ensures
        base64_bytes(token_text(entropy)) == Some(entropy),
{
    base64_round_trip(entropy);
}

/// The digits of a hash spell the SHA-256 digest of the very value: of its own UTF-8 bytes, as
/// they are.
pub proof fn hash_spells_the_digest(value: Seq<char>)
    ensures
        hex_bytes(token_hash(value)) == Some(sha256(encode_utf8(value))),
        token_hash(value) == hex_text(sha256(encode_utf8(value))),
{
    hex_round_trip(sha256(encode_utf8(value)));
}

/// Two values have the same hash exactly if the SHA-256 digests of their UTF-8 bytes are the same.
pub proof fn hashes_differ_with_digests(a: Seq<char>, b: Seq<char>)
    ensures
        token_hash(a) == token_hash(b) <==> sha256(encode_utf8(a)) == sha256(encode_utf8(b)),
{
    hash_spells_the_digest(a);
    hash_spells_the_digest(b);
}

/// Drawn bytes are what the random source gave.
pub(crate) proof fn drawn_bytes_were_drawn(bytes: [u8; 32])
    requires
        is_drawn(bytes),
    ensures
        call_ensures(random_bytes, (), bytes),
{
}

} // verus!
