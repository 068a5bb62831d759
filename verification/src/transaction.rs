//! The state of a login between the authorization request and its callback.

use vstd::prelude::*;

verus! {

/// How many seconds a login transaction stays valid.
pub const FLOW_TTL_SECONDS: u64 = 600;

/// State retained between authorization and callback handling.
#[derive(Clone, Debug, PartialEq, Eq)]
pub struct LoginTransaction {
    /// The PKCE verifier paired with the authorization request.
    pub pkce_verifier: String,
    /// The CSRF state value returned by the provider.
    pub csrf_state: String,
    /// The nonce used to validate the ID token.
    pub nonce: String,
    /// Unix timestamp at which the transaction was issued.
    pub issued_at: u64,
    /// An optional same-origin path to use after successful login.
    pub return_to: Option<String>,
}

/// Values received from an OIDC authorization callback.
#[derive(Clone, Debug)]
pub struct Callback {
    /// The authorization code, when the provider completed the request.
    pub code: Option<String>,
    /// The CSRF state returned by the provider.
    pub state: Option<String>,
    /// A provider-reported OAuth error, when authorization failed.
    pub error: Option<String>,
    /// An optional human-readable description of `error`.
    pub error_description: Option<String>,
}

/// Whether a transaction that was issued at the one time can be used at the other.
pub open spec fn is_live(issued_at: u64, now: u64) -> bool {
    issued_at <= now <= issued_at + FLOW_TTL_SECONDS
}

impl LoginTransaction {
    /// Returns whether `now` is before the transaction was issued or past its bounded
    /// ten-minute lifetime.
    pub fn is_expired_at(&self, now: u64) -> (res: bool)
        ensures
            res == !is_live(self.issued_at, now),
            res <==> now < self.issued_at || now - self.issued_at > 600,
    {
        now < self.issued_at || now - self.issued_at > FLOW_TTL_SECONDS
    }
}

/// A transaction is usable from the second it was issued for ten minutes, and at no other time:
/// not before, and never again once it has expired.
pub proof fn transaction_lifetime_is_bounded(issued_at: u64, earlier: u64, later: u64)
    requires
        earlier <= later,
    ensures
        is_live(issued_at, issued_at),
        is_live(issued_at, later) <==> issued_at <= later && later - issued_at <= 600,
        earlier < issued_at ==> !is_live(issued_at, earlier),
        earlier - issued_at > 600 ==> !is_live(issued_at, earlier),
        issued_at <= earlier && !is_live(issued_at, earlier) ==> !is_live(issued_at, later),
        issued_at <= earlier && is_live(issued_at, later) ==> is_live(issued_at, earlier),
{
}

} // verus!
