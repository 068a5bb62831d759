//! What can go wrong in a login.

use crate::text::joined;
use vstd::prelude::*;

verus! {

/// A failure of configuration, discovery, authorization or login state.
#[derive(Debug)]
#[non_exhaustive]
pub enum AuthError {
    /// The local OIDC configuration is incomplete or malformed.
    Configuration(String),
    /// Provider metadata discovery failed.
    Discovery(String),
    /// The callback was missing required values or failed state validation.
    Callback(String),
    /// The authorization code could not be exchanged for tokens.
    Exchange(String),
    /// The provider returned an identity that could not be verified or used.
    Identity(String),
    /// The signed flow state could not be encoded or authenticated.
    InvalidTransaction,
    /// The login transaction is older than the bounded flow lifetime.
    ExpiredTransaction,
}

/// The contents of an [`AuthError`].
pub enum Failure {
    /// See [`AuthError::Configuration`].
    Configuration(Seq<char>),
    /// See [`AuthError::Discovery`].
    Discovery(Seq<char>),
    /// See [`AuthError::Callback`].
    Callback(Seq<char>),
    /// See [`AuthError::Exchange`].
    Exchange(Seq<char>),
    /// See [`AuthError::Identity`].
    Identity(Seq<char>),
    /// See [`AuthError::InvalidTransaction`].
    InvalidTransaction,
    /// See [`AuthError::ExpiredTransaction`].
    ExpiredTransaction,
}

impl View for AuthError {
    type V = Failure;

    open spec fn view(&self) -> Failure {
        match self {
            AuthError::Configuration(detail) => Failure::Configuration(detail@),
            AuthError::Discovery(detail) => Failure::Discovery(detail@),
            AuthError::Callback(detail) => Failure::Callback(detail@),
            AuthError::Exchange(detail) => Failure::Exchange(detail@),
            AuthError::Identity(detail) => Failure::Identity(detail@),
            AuthError::InvalidTransaction => Failure::InvalidTransaction,
            AuthError::ExpiredTransaction => Failure::ExpiredTransaction,
        }
    }
}

/// The message of a failure.
pub open spec fn failure_message(failure: Failure) -> Seq<char> {
    match failure {
        Failure::Configuration(detail) => "invalid OIDC configuration: "@ + detail,
        Failure::Discovery(detail) => "OIDC discovery failed: "@ + detail,
        Failure::Callback(detail) => "OIDC authorization response is invalid: "@ + detail,
        Failure::Exchange(detail) => "OIDC token exchange failed: "@ + detail,
        Failure::Identity(detail) => "OIDC identity is not usable: "@ + detail,
        Failure::InvalidTransaction => "invalid login transaction"@,
        Failure::ExpiredTransaction => "login transaction expired"@,
    }
}

impl AuthError {
    /// The message of this error.
    pub fn message(&self) -> (res: String)
        ensures
            res@ == failure_message(self@),
            match self {
                AuthError::Configuration(detail) => res@ == "invalid OIDC configuration: "@
                    + detail@,
                AuthError::Discovery(detail) => res@ == "OIDC discovery failed: "@ + detail@,
                AuthError::Callback(detail) => res@ == "OIDC authorization response is invalid: "@
                    + detail@,
                AuthError::Exchange(detail) => res@ == "OIDC token exchange failed: "@ + detail@,
                AuthError::Identity(detail) => res@ == "OIDC identity is not usable: "@ + detail@,
                AuthError::InvalidTransaction => res@ == "invalid login transaction"@,
                AuthError::ExpiredTransaction => res@ == "login transaction expired"@,
            },
    {
        match self {
            AuthError::Configuration(detail) => joined("invalid OIDC configuration: ", detail),
            AuthError::Discovery(detail) => joined("OIDC discovery failed: ", detail),
            AuthError::Callback(detail) => joined("OIDC authorization response is invalid: ", detail),
            AuthError::Exchange(detail) => joined("OIDC token exchange failed: ", detail),
            AuthError::Identity(detail) => joined("OIDC identity is not usable: ", detail),
            AuthError::InvalidTransaction => "invalid login transaction".to_owned(),
            AuthError::ExpiredTransaction => "login transaction expired".to_owned(),
        }
    }
}

/// A failure tells its error: which one it is, and the whole of its detail.
pub proof fn failure_tells_the_error(error: AuthError)
    ensures
        match error@ {
            Failure::Configuration(text) => error matches AuthError::Configuration(detail)
                && detail@ == text,
            Failure::Discovery(text) => error matches AuthError::Discovery(detail) && detail@
                == text,
            Failure::Callback(text) => error matches AuthError::Callback(detail) && detail@ == text,
            Failure::Exchange(text) => error matches AuthError::Exchange(detail) && detail@ == text,
            Failure::Identity(text) => error matches AuthError::Identity(detail) && detail@ == text,
            Failure::InvalidTransaction => error is InvalidTransaction,
            Failure::ExpiredTransaction => error is ExpiredTransaction,
        },
{
}

/// The message of every error with a detail ends with that detail, and tells which error it is by
/// how it begins.
pub proof fn message_carries_the_detail(detail: Seq<char>)
    ensures
        failure_message(Failure::Configuration(detail)) == "invalid OIDC configuration: "@ + detail,
        failure_message(Failure::Discovery(detail)) == "OIDC discovery failed: "@ + detail,
        failure_message(Failure::Callback(detail)) == "OIDC authorization response is invalid: "@
            + detail,
        failure_message(Failure::Exchange(detail)) == "OIDC token exchange failed: "@ + detail,
        failure_message(Failure::Identity(detail)) == "OIDC identity is not usable: "@ + detail,
        failure_message(Failure::InvalidTransaction) == "invalid login transaction"@,
        failure_message(Failure::ExpiredTransaction) == "login transaction expired"@,
{
}

} // verus!
