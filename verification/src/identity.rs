//! The identity that a completed login establishes.

use crate::groups::{
    ascending_list_is_unique, distinct_names, same_members, strictly_ascending, text_less,
};
use crate::text::{
    ascii_lower_text, is_lower_form, lower_text, optional_text, texts,
};
use vstd::prelude::*;
use vstd::utf8::is_ascii_chars;

verus! {

/// Verified identity claims returned by [`crate::OidcClient::identity`].
#[derive(Clone, Debug)]
pub struct VerifiedIdentity {
    /// The issuer that authenticated the subject.
    pub issuer: String,
    /// The provider-stable subject identifier.
    pub subject: String,
    /// A normalized lower-case email address, when supplied by the provider.
    pub email: Option<String>,
    /// A display name, when supplied by the provider.
    pub display_name: Option<String>,
    /// Group claims supplied by the provider: each once, in ascending order.
    pub groups: Vec<String>,
    /// The ID token expiry as a Unix timestamp, when available.
    pub expires_at: Option<u64>,
}

/// The claims of a validated userinfo response.
#[derive(Clone, Debug)]
pub struct UserInfo {
    /// The email address, when supplied by the provider.
    pub email: Option<String>,
    /// The name without a language tag, when supplied by the provider.
    pub name: Option<String>,
    /// The group claims, in the order of the response.
    pub groups: Vec<String>,
}

/// The timestamp of an expiry: one before the epoch counts as the epoch.
pub open spec fn expiry_timestamp(expiration: i64) -> u64 {
    if expiration < 0 {
        0
    } else {
        expiration as u64
    }
}

/// The email address of an identity, for the one that the provider supplied.
pub open spec fn normalized_email(email: Option<Seq<char>>) -> Option<Seq<char>> {
    match email {
        Some(address) => Some(lower_text(address)),
        None => None,
    }
}

/// Whether an identity is the one for the issuer, subject, expiry and claims given.
pub open spec fn identity_matches(
    identity: VerifiedIdentity,
    issuer: Seq<char>,
    subject: Seq<char>,
    expiration: i64,
    claims: UserInfo,
) -> bool {
    &&& identity.issuer@ == issuer
    &&& identity.subject@ == subject
    &&& optional_text(identity.email) == normalized_email(optional_text(claims.email))
    &&& identity.email matches Some(address) ==> is_lower_form(address@, claims.email->0@)
    &&& optional_text(identity.display_name) == optional_text(claims.name)
    &&& strictly_ascending(texts(identity.groups@))
    &&& same_members(texts(identity.groups@), texts(claims.groups@))
    &&& identity.expires_at == Some(expiry_timestamp(expiration))
}

/// The identity for the issuer, subject, expiry and claims given.
pub(crate) fn verified_identity(
    issuer: &String,
    subject: String,
    expiration: i64,
    claims: UserInfo,
) -> (res: VerifiedIdentity)
    ensures
        identity_matches(res, issuer@, subject@, expiration, claims),
{
    let groups = distinct_names(&claims.groups);
    let email = match claims.email {
        Some(address) => Some(address.as_str().to_lowercase()),
        None => None,
    };
    let expires_at: u64 = if expiration < 0 {
        0
    } else {
        expiration as u64
    };
    VerifiedIdentity {
        issuer: issuer.clone(),
        subject,
        email,
        display_name: claims.name,
        groups,
        expires_at: Some(expires_at),
    }
}

/// The groups of an identity depend only on which groups the provider names, not on their order
/// or on how often each is named.
pub proof fn groups_are_a_set(
    a: VerifiedIdentity,
    b: VerifiedIdentity,
    issuer: Seq<char>,
    subject: Seq<char>,
    expiration: i64,
    claims_a: UserInfo,
    claims_b: UserInfo,
)
    requires
        identity_matches(a, issuer, subject, expiration, claims_a),
        identity_matches(b, issuer, subject, expiration, claims_b),
        same_members(texts(claims_a.groups@), texts(claims_b.groups@)),
    ensures
        texts(a.groups@) == texts(b.groups@),
{
    let left = texts(a.groups@);
    let right = texts(b.groups@);
    assert forall|text: Seq<char>| #[trigger] left.contains(text) <==> right.contains(text) by {
        assert(texts(claims_a.groups@).contains(text) <==> texts(claims_b.groups@).contains(text));
    }
    ascending_list_is_unique(left, right);
}

/// An email address is normalized: it is the lower-case form of the one that the provider
/// supplied, holds no letter of `A` to `Z`, and lower-casing the ASCII letters of it changes
/// nothing. For an ASCII address it is that address with its letters in lower case.
pub proof fn email_is_normalized(
    identity: VerifiedIdentity,
    issuer: Seq<char>,
    subject: Seq<char>,
    expiration: i64,
    claims: UserInfo,
)
    requires
        identity_matches(identity, issuer, subject, expiration, claims),
    ensures
        identity.email is Some <==> claims.email is Some,
        identity.email matches Some(address) ==> {
            &&& address@ == lower_text(claims.email->0@)
            &&& forall|i: int| 0 <= i < address@.len() ==> !('A' <= #[trigger] address@[i] <= 'Z')
            &&& ascii_lower_text(address@) == address@
            &&& is_ascii_chars(claims.email->0@) ==> address@ == ascii_lower_text(
                claims.email->0@,
            )
        },
{
    if let Some(address) = identity.email {
        assert(ascii_lower_text(address@) =~= address@);
    }
}

/// An identity keeps the expiry of its ID token to the second: the timestamp is the very number
/// that verification gave, however large, and zero for one before the epoch.
pub proof fn expiry_is_kept(
    identity: VerifiedIdentity,
    issuer: Seq<char>,
    subject: Seq<char>,
    expiration: i64,
    claims: UserInfo,
)
    requires
        identity_matches(identity, issuer, subject, expiration, claims),
    ensures
        expiration >= 0 ==> (identity.expires_at matches Some(seconds) && seconds as int
            == expiration as int),
        expiration < 0 ==> identity.expires_at == Some(0u64),
        expiry_timestamp(expiration) as int == (if expiration >= 0 {
            expiration as int
        } else {
            0
        }),
{
}

/// An identity keeps every claim: issuer, subject and display name as they are, the email address
/// in lower case, and of the groups exactly those that the provider names, each once and in
/// ascending order.
pub proof fn identity_keeps_every_claim(
    identity: VerifiedIdentity,
    issuer: Seq<char>,
    subject: Seq<char>,
    expiration: i64,
    claims: UserInfo,
)
    requires
        identity_matches(identity, issuer, subject, expiration, claims),
    ensures
        identity.issuer@ == issuer,
        identity.subject@ == subject,
        match claims.email {
            Some(given) => identity.email matches Some(address) && address@ == lower_text(given@),
            None => identity.email is None,
        },
        match claims.name {
            Some(given) => identity.display_name matches Some(name) && name@ == given@,
            None => identity.display_name is None,
        },
        forall|k: int|
            0 <= k < claims.groups@.len() ==> texts(identity.groups@).contains(
                #[trigger] claims.groups@[k]@,
            ),
        forall|i: int|
            0 <= i < identity.groups@.len() ==> texts(claims.groups@).contains(
                #[trigger] identity.groups@[i]@,
            ),
        forall|i: int, j: int|
            0 <= i < j < identity.groups@.len() ==> text_less(
                #[trigger] identity.groups@[i]@,
                #[trigger] identity.groups@[j]@,
            ),
{
    let kept = texts(identity.groups@);
    let given = texts(claims.groups@);
    assert forall|k: int| 0 <= k < claims.groups@.len() implies texts(identity.groups@).contains(
        #[trigger] claims.groups@[k]@,
    ) by {
        assert(given[k] == claims.groups@[k]@);
        assert(given.contains(given[k]));
        assert(kept.contains(given[k]));
    }
    assert forall|i: int| 0 <= i < identity.groups@.len() implies texts(claims.groups@).contains(
        #[trigger] identity.groups@[i]@,
    ) by {
        assert(kept[i] == identity.groups@[i]@);
        assert(kept.contains(kept[i]));
    }
    assert forall|i: int, j: int| 0 <= i < j < identity.groups@.len() implies text_less(
        #[trigger] identity.groups@[i]@,
        #[trigger] identity.groups@[j]@,
    ) by {
        assert(text_less(kept[i], kept[j]));
    }
}

} // verus!
