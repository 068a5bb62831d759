//! Login state that a browser keeps in a signed cookie.

use crate::clock::{is_current_time, unix_time_seconds};
use crate::crypto::{hmac_sha256, hmac_tag, hmac_verifies};
use crate::encoding::{
    base64_bytes, base64_decode, base64_encode, base64_round_trip, base64_text,
    base64_text_is_url_safe, hex_bytes, hex_decode, hex_encode, hex_round_trip, hex_text,
    hex_text_is_lower_case, is_lower_hex,
};
use crate::error::{AuthError, Failure};
use crate::text::{split_at_first, split_at_first_of_joined, split_at_first_rejoins, split_text};
use crate::transaction::{is_live, LoginTransaction};
use vstd::prelude::*;
use vstd::string::StringExecFns;
use vstd::utf8::encode_utf8;

verus! {

/// The tag of a payload text under a secret.
pub open spec fn payload_tag(secret: Seq<u8>, text: Seq<char>) -> Seq<u8> {
    hmac_sha256(secret, encode_utf8(text))
}

/// The cookie for an encoded transaction: its Base64 text, a dot, and the hexadecimal tag of that
/// text.
pub open spec fn sealed(secret: Seq<u8>, payload: Seq<u8>) -> Seq<char> {
    base64_text(payload) + seq!['.'] + hex_text(payload_tag(secret, base64_text(payload)))
}

/// The encoded transaction of a cookie that is authentic under a secret.
pub open spec fn opened(secret: Seq<u8>, cookie: Seq<char>) -> Option<Seq<u8>> {
    match split_at_first(cookie, '.') {
        Some((text, tag)) => if hex_bytes(tag) == Some(payload_tag(secret, text)) {
            base64_bytes(text)
        } else {
            None
        },
        None => None,
    }
}

/// Whether a text has the form in which a tag is written: 64 lower-case hexadecimal digits.
pub open spec fn is_tag_text(text: Seq<char>) -> bool {
    &&& text.len() == 64
    &&& forall|i: int| 0 <= i < 64 ==> is_lower_hex(#[trigger] text[i])
}

/// A signed, short-lived representation of login state suitable for a cookie.
///
/// A cookie carries the transaction in an encoded form, which is opaque here: whoever seals and
/// opens cookies turns transactions into bytes and back.
#[derive(Clone, Debug, PartialEq, Eq)]
#[allow(dead_code)]
pub struct SignedFlowState(LoginTransaction);

impl SignedFlowState {
    /// Authenticate an encoded transaction with an application secret. `None` stands for a
    /// transaction that could not be encoded.
    ///
    /// The returned value is opaque to the browser. A sufficiently random
    /// secret is required; callers must still enforce cookie policy and
    /// single-use semantics.
    pub fn seal(secret: &[u8], encoded: Option<Vec<u8>>) -> (res: Result<String, AuthError>)
        ensures
            match encoded {
                Some(payload) => res matches Ok(cookie) && {
                    &&& cookie@ == sealed(secret@, payload@)
                    &&& split_at_first(cookie@, '.') matches Some((_, digits)) && is_tag_text(
                        digits,
                    )
                },
                None => res matches Err(error) && error@ == Failure::InvalidTransaction,
            },
            encoded matches Some(payload) ==> (res matches Ok(cookie) && cookie@ == base64_text(
                payload@,
            ) + seq!['.'] + hex_text(hmac_sha256(secret@, encode_utf8(base64_text(payload@))))),
            encoded is None ==> (res matches Err(error) && error is InvalidTransaction),
    {
        let payload = match encoded {
            Some(payload) => payload,
            None => return Err(AuthError::InvalidTransaction),
        };
        let mut cookie = base64_encode(payload.as_slice());
        let tag = match hmac_tag(secret, cookie.as_str().as_bytes()) {
            Ok(tag) => tag,
            Err(_) => return Err(AuthError::InvalidTransaction),
        };
        let digits = hex_encode(tag.as_slice());
        proof {
            reveal_strlit(".");
        }
        cookie.append(".");
        cookie.append(digits.as_str());
        proof {
            assert(cookie@ =~= sealed(secret@, payload@));
            base64_text_has_no_dot(payload@);
            split_at_first_of_joined(base64_text(payload@), '.', digits@);
            hex_text_is_lower_case(tag@);
        }
        Ok(cookie)
    }

    /// Verify a cookie and return the encoded transaction, or `None` for tampering.
    pub fn open(secret: &[u8], cookie: &str) -> (res: Option<Vec<u8>>)
        ensures
            match res {
                Some(payload) => opened(secret@, cookie@) == Some(payload@),
                None => opened(secret@, cookie@) is None,
            },
            res is Some ==> (split_at_first(cookie@, '.') matches Some((_, digits))
                && digits.len() == 64),
            res matches Some(payload) ==> exists|digits: Seq<char>|
                {
                    &&& cookie@ == base64_text(payload@) + seq!['.'] + digits
                    &&& #[trigger] hex_bytes(digits) == Some(
                        hmac_sha256(secret@, encode_utf8(base64_text(payload@))),
                    )
                },
            forall|payload: Seq<u8>, digits: Seq<char>|
                {
                    &&& cookie@ == #[trigger] base64_text(payload) + seq!['.'] + digits
                    &&& #[trigger] hex_bytes(digits) == Some(
                        hmac_sha256(secret@, encode_utf8(base64_text(payload))),
                    )
                } ==> (res matches Some(bytes) && bytes@ == payload),
    {
        proof {
            opened_iff_whole_text_is_tagged(secret@, cookie@);
        }
        let (text, digits) = match split_text(cookie, '.') {
            Some(parts) => parts,
            None => return None,
        };
        let provided = match hex_decode(digits) {
            Ok(provided) => provided,
            Err(_) => return None,
        };
        if !hmac_verifies(secret, text.as_bytes(), provided.as_slice()) {
            return None;
        }
        match base64_decode(text) {
            Ok(payload) => {
                proof {
                    base64_round_trip(payload@);
                }
                Some(payload)
            },
            Err(_) => None,
        }
    }

    /// The transaction of an opened cookie, unless it could not be decoded or has expired by now.
    ///
    /// What time it is now is up to the clock: see [`Self::unexpired_at`].
    pub fn unexpired(decoded: Option<LoginTransaction>) -> (res: Option<LoginTransaction>)
        ensures
            res is Some ==> res == decoded,
            exists|now: u64|
                is_current_time(now) && res == #[trigger] usable_transaction(decoded, now),
    {
        let now: u64 = unix_time_seconds();
        Self::unexpired_at(decoded, now)
    }

    /// The transaction of an opened cookie, unless it could not be decoded or has expired at
    /// `now`.
    pub fn unexpired_at(decoded: Option<LoginTransaction>, now: u64) -> (res: Option<LoginTransaction>)
        ensures
            res == usable_transaction(decoded, now),
            res == match decoded {
                Some(transaction) => if transaction.issued_at <= now && now - transaction.issued_at
                    <= 600 {
                    Some(transaction)
                } else {
                    None
                },
                None => None,
            },
    {
        match decoded {
            Some(transaction) => if transaction.is_expired_at(now) {
                None
            } else {
                Some(transaction)
            },
            None => None,
        }
    }
}

/// What is handed on of a decoded transaction at a given time.
pub open spec fn usable_transaction(decoded: Option<LoginTransaction>, now: u64) -> Option<LoginTransaction> {
    match decoded {
        Some(transaction) => if is_live(transaction.issued_at, now) {
            Some(transaction)
        } else {
            None
        },
        None => None,
    }
}

/// A decoded transaction is handed on, unchanged, from its issue on for ten minutes, and at no
/// other time.
pub proof fn stale_transaction_is_refused(transaction: LoginTransaction, now: u64)
    ensures
        usable_transaction(Some(transaction), now) == (if transaction.issued_at <= now
            <= transaction.issued_at + 600 {
            Some(transaction)
        } else {
            None
        }),
        usable_transaction(None, now) is None,
{
}

proof fn base64_text_has_no_dot(bytes: Seq<u8>)
    ensures
        !base64_text(bytes).contains('.'),
{
    base64_text_is_url_safe(bytes);
}

/// Opening a sealed cookie with the same secret gives back exactly what was sealed.
pub proof fn open_gives_back_what_was_sealed(secret: Seq<u8>, payload: Seq<u8>)
    ensures
        opened(secret, sealed(secret, payload)) == Some(payload),
{
    open_under_another_secret(secret, secret, payload);
}

/// A sealed cookie opens under another secret only if that secret gives the payload the very same
/// tag, and then to the same payload.
pub proof fn open_under_another_secret(secret: Seq<u8>, other: Seq<u8>, payload: Seq<u8>)
    ensures
        opened(other, sealed(secret, payload)) == (if hmac_sha256(
            other,
            encode_utf8(base64_text(payload)),
        )
            == hmac_sha256(secret, encode_utf8(base64_text(payload))) {
            Some(payload)
        } else {
            None
        }),
{
    let text = base64_text(payload);
    let tag = hmac_sha256(secret, encode_utf8(text));
    base64_text_has_no_dot(payload);
    split_at_first_of_joined(text, '.', hex_text(tag));
    hex_round_trip(tag);
    base64_round_trip(payload);
}

/// A cookie opens only to what was sealed into it: if it opens to a payload, then its text is the
/// one that sealing this payload gives, and its digits are those of the tag, in either case.
pub proof fn opened_cookie_was_sealed(secret: Seq<u8>, cookie: Seq<char>, payload: Seq<u8>)
    requires
        opened(secret, cookie) == Some(payload),
    ensures
        exists|digits: Seq<char>|
            cookie == base64_text(payload) + seq!['.'] + digits && #[trigger] hex_bytes(digits) == Some(
                hmac_sha256(secret, encode_utf8(base64_text(payload))),
            ),
{
    split_at_first_rejoins(cookie, '.');
    let (text, digits) = split_at_first(cookie, '.')->0;
    assert(base64_text(payload) == text);
    assert(hex_bytes(digits) == Some(hmac_sha256(secret, encode_utf8(base64_text(payload)))));
}

/// A cookie opens to a payload exactly if it is the Base64 text of that payload, a dot, and digits
/// that spell the HMAC-SHA-256 tag of that whole text, from its first character to its last.
pub proof fn opened_iff_whole_text_is_tagged(secret: Seq<u8>, cookie: Seq<char>)
    ensures
        forall|payload: Seq<u8>, digits: Seq<char>|
            {
                &&& cookie == #[trigger] base64_text(payload) + seq!['.'] + digits
                &&& #[trigger] hex_bytes(digits) == Some(
                    hmac_sha256(secret, encode_utf8(base64_text(payload))),
                )
            } ==> opened(secret, cookie) == Some(payload),
        opened(secret, cookie) matches Some(payload) ==> exists|digits: Seq<char>|
            {
                &&& cookie == base64_text(payload) + seq!['.'] + digits
                &&& #[trigger] hex_bytes(digits) == Some(
                    hmac_sha256(secret, encode_utf8(base64_text(payload))),
                )
            },
{
    assert forall|payload: Seq<u8>, digits: Seq<char>|
        {
            &&& cookie == #[trigger] base64_text(payload) + seq!['.'] + digits
            &&& #[trigger] hex_bytes(digits) == Some(
                hmac_sha256(secret, encode_utf8(base64_text(payload))),
            )
        } implies opened(secret, cookie) == Some(payload) by {
        base64_text_has_no_dot(payload);
        split_at_first_of_joined(base64_text(payload), '.', digits);
        base64_round_trip(payload);
    }
    if let Some(payload) = opened(secret, cookie) {
        opened_cookie_was_sealed(secret, cookie, payload);
    }
}

/// Putting another payload text before the tag of a sealed cookie makes it unreadable, unless the
/// new text has the same tag.
pub proof fn tampered_payload_is_refused(secret: Seq<u8>, payload: Seq<u8>, other_text: Seq<char>)
    requires
        !other_text.contains('.'),
        hmac_sha256(secret, encode_utf8(other_text)) != hmac_sha256(secret, encode_utf8(base64_text(payload))),
    ensures
        opened(
            secret,
            other_text + seq!['.'] + hex_text(hmac_sha256(secret, encode_utf8(base64_text(payload)))),
        ) is None,
{
    let tag = hmac_sha256(secret, encode_utf8(base64_text(payload)));
    split_at_first_of_joined(other_text, '.', hex_text(tag));
    hex_round_trip(tag);
}

/// A cookie whose digits do not spell the tag of its text opens to nothing.
pub proof fn wrong_tag_is_refused(secret: Seq<u8>, text: Seq<char>, digits: Seq<char>)
    requires
        !text.contains('.'),
        hex_bytes(digits) != Some(hmac_sha256(secret, encode_utf8(text))),
    ensures
        opened(secret, text + seq!['.'] + digits) is None,
{
    split_at_first_of_joined(text, '.', digits);
}

/// Two secrets and payloads give the same cookie only if they give the same payload and the same
/// tag, and the tag is that of the whole payload text.
pub proof fn cookie_tells_payload_and_tag(
    secret: Seq<u8>,
    payload: Seq<u8>,
    other_secret: Seq<u8>,
    other_payload: Seq<u8>,
)
    ensures
        sealed(secret, payload) == base64_text(payload) + seq!['.'] + hex_text(
            hmac_sha256(secret, encode_utf8(base64_text(payload))),
        ),
        sealed(secret, payload) == sealed(other_secret, other_payload) ==> payload == other_payload
            && hmac_sha256(secret, encode_utf8(base64_text(payload))) == hmac_sha256(
            other_secret,
            encode_utf8(base64_text(payload)),
        ),
{
    if sealed(secret, payload) == sealed(other_secret, other_payload) {
        base64_text_has_no_dot(payload);
        base64_text_has_no_dot(other_payload);
        let tag = payload_tag(secret, base64_text(payload));
        let other_tag = payload_tag(other_secret, base64_text(other_payload));
        split_at_first_of_joined(base64_text(payload), '.', hex_text(tag));
        split_at_first_of_joined(base64_text(other_payload), '.', hex_text(other_tag));
        base64_round_trip(payload);
        base64_round_trip(other_payload);
        hex_round_trip(tag);
        hex_round_trip(other_tag);
    }
}

} // verus!
