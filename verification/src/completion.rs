//! From the callback of a login to the identity of the user.

use crate::client::{
    redirect_problem, request_matches, request_url, AuthorizationRequest, FlowSecrets, OidcClient,
};
use crate::clock::{is_current_time, unix_time_seconds};
use crate::crypto::sha256;
use crate::error::{AuthError, Failure};
use crate::groups::text_less;
use crate::identity::{
    expiry_timestamp, identity_keeps_every_claim, identity_matches, verified_identity, UserInfo,
    VerifiedIdentity,
};
use crate::provider::{
    id_token_error, id_token_nonce, id_token_rejection, id_token_verdict, redirect_url_rejection,
    verdict_contents,
};
use crate::text::{joined, lower_text, optional_text, texts};
use crate::transaction::{is_live, Callback, LoginTransaction};
use vstd::prelude::*;
use vstd::string::StringExecFns;
use vstd::utf8::encode_utf8;

verus! {

/// An accepted callback. Next, the code is to be exchanged for tokens.
#[derive(Debug)]
pub struct CodeExchange {
    /// The authorization code to exchange.
    pub code: String,
    /// The PKCE verifier to send with it.
    pub pkce_verifier: String,
    /// The client identifier to send with it.
    pub client_id: String,
    /// The redirect URI to send with it.
    pub redirect_uri: String,
    /// The nonce that the ID token must carry.
    pub nonce: String,
}

/// What the provider answers to a code exchange.
#[derive(Debug)]
pub struct TokenReply {
    /// The access token.
    pub access_token: String,
    /// The ID token in its compact form, if there is one.
    pub id_token: Option<String>,
}

/// A verified ID token. Next, the userinfo claims of its subject are to be fetched.
#[derive(Debug)]
pub struct UserInfoRequest {
    /// The access token to fetch them with.
    pub access_token: String,
    /// The subject that the response must name.
    pub subject: String,
    /// The expiry of the ID token, in seconds since the epoch.
    pub expiration: i64,
}

/// What came of a userinfo request.
#[derive(Debug)]
pub enum UserInfoReply {
    /// The provider has no userinfo endpoint, for the given reason.
    NoEndpoint(String),
    /// The request failed or its response was refused, for the given reason.
    Rejected(String),
    /// The claims of the validated response.
    Claims(UserInfo),
}

/// The description of a provider-reported error, which may be absent.
pub open spec fn description_or_empty(description: Option<Seq<char>>) -> Seq<char> {
    match description {
        Some(text) => text,
        None => Seq::empty(),
    }
}

/// Why a callback is refused for a transaction at a given time, if it is.
pub open spec fn callback_problem(
    callback: Callback,
    transaction: LoginTransaction,
    now: u64,
) -> Option<Failure> {
    if !is_live(transaction.issued_at, now) {
        Some(Failure::ExpiredTransaction)
    } else if callback.error is Some {
        Some(
            Failure::Callback(
                "provider returned "@ + callback.error->0@ + ": "@ + description_or_empty(
                    optional_text(callback.error_description),
                ),
            ),
        )
    } else if callback.code is None {
        Some(Failure::Callback("missing code"@))
    } else if callback.state is None {
        Some(Failure::Callback("missing state"@))
    } else if callback.state->0@ != transaction.csrf_state@ {
        Some(Failure::Callback("state mismatch"@))
    } else {
        None
    }
}

/// Whether a completion that began at a given time came to the outcome it must come to.
pub open spec fn completion_begins(
    client: OidcClient,
    callback: Callback,
    transaction: LoginTransaction,
    now: u64,
    outcome: Result<CodeExchange, AuthError>,
) -> bool {
    match callback_problem(callback, transaction, now) {
        Some(failure) => outcome matches Err(error) && error@ == failure,
        None => match redirect_problem(client.config_spec()) {
            Some(failure) => outcome matches Err(error) && error@ == failure,
            None => outcome matches Ok(exchange) && {
                &&& exchange.code@ == callback.code->0@
                &&& exchange.pkce_verifier@ == transaction.pkce_verifier@
                &&& exchange.client_id@ == client.config_spec().client_id@
                &&& exchange.redirect_uri@ == client.config_spec().redirect_uri@
                &&& exchange.nonce@ == transaction.nonce@
            },
        },
    }
}

/// Whether the step after an ID token verification is the one that its verdict asks for.
pub open spec fn follows_verdict(
    access_token: Seq<char>,
    verdict: Result<(Seq<char>, i64), Seq<char>>,
    outcome: Result<UserInfoRequest, AuthError>,
) -> bool {
    match verdict {
        Ok((subject, expiration)) => outcome matches Ok(request) && {
            &&& request.access_token@ == access_token
            &&& request.subject@ == subject
            &&& request.expiration == expiration
        },
        Err(reason) => outcome matches Err(error) && error@ == Failure::Identity(
            "ID token validation: "@ + reason,
        ),
    }
}

impl UserInfoRequest {
    /// The step after an ID token verification with the given verdict.
    pub fn after_verdict(access_token: String, verdict: Result<(String, i64), String>) -> (res:
        Result<UserInfoRequest, AuthError>)
        ensures
            follows_verdict(access_token@, verdict_contents(verdict), res),
    {
        match verdict {
            Ok((subject, expiration)) => Ok(UserInfoRequest { access_token, subject, expiration }),
            Err(reason) => Err(
                AuthError::Identity(joined("ID token validation: ", reason.as_str())),
            ),
        }
    }
}

impl OidcClient {
    /// Validate a callback now, and begin to complete its login.
    ///
    /// The transaction is single-use from the caller's perspective: callers
    /// should remove it from their session store after attempting completion.
    ///
    /// The time is left to the clock: see [`Self::complete_at`].
    pub fn complete(&self, callback: Callback, transaction: LoginTransaction) -> (res: Result<
        CodeExchange,
        AuthError,
    >)
        ensures
            exists|now: u64|
                is_current_time(now) && #[trigger] completion_begins(
                    *self,
                    callback,
                    transaction,
                    now,
                    res,
                ),
    {
        let now: u64 = unix_time_seconds();
        self.complete_at(callback, transaction, now)
    }

    /// Validate a callback at the given time, and begin to complete its login.
    pub fn complete_at(&self, callback: Callback, transaction: LoginTransaction, now: u64) -> (res:
        Result<CodeExchange, AuthError>)
        ensures
            completion_begins(*self, callback, transaction, now, res),
            res is Ok <==> {
                &&& transaction.issued_at <= now
                &&& now - transaction.issued_at <= 600
                &&& callback.error is None
                &&& callback.code is Some
                &&& callback.state matches Some(state) && state@ == transaction.csrf_state@
                &&& redirect_url_rejection(self.config_spec().redirect_uri@) is None
            },
            res matches Ok(exchange) ==> {
                &&& callback.code matches Some(code) && exchange.code@ == code@
                &&& exchange.pkce_verifier@ == transaction.pkce_verifier@
                &&& exchange.nonce@ == transaction.nonce@
                &&& exchange.client_id@ == self.config_spec().client_id@
                &&& exchange.redirect_uri@ == self.config_spec().redirect_uri@
            },
    {
        if transaction.is_expired_at(now) {
            return Err(AuthError::ExpiredTransaction);
        }
        if let Some(error) = callback.error {
            let mut detail = joined("provider returned ", error.as_str());
            detail.append(": ");
            if let Some(description) = callback.error_description {
                detail.append(description.as_str());
            }
            assert(detail@ =~= "provider returned "@ + error@ + ": "@ + description_or_empty(
                optional_text(callback.error_description),
            ));
            return Err(AuthError::Callback(detail));
        }
        let code = match callback.code {
            Some(code) => code,
            None => return Err(AuthError::Callback("missing code".to_owned())),
        };
        let state = match callback.state {
            Some(state) => state,
            None => return Err(AuthError::Callback("missing state".to_owned())),
        };
        if state != transaction.csrf_state {
            return Err(AuthError::Callback("state mismatch".to_owned()));
        }
        self.check_redirect()?;
        Ok(
            CodeExchange {
                code,
                pkce_verifier: transaction.pkce_verifier,
                client_id: self.settings().client_id.clone(),
                redirect_uri: self.settings().redirect_uri.clone(),
                nonce: transaction.nonce,
            },
        )
    }

    /// Continue with the reply to the code exchange, or with the reason why it failed: verify the
    /// ID token and its nonce.
    ///
    /// A reply whose ID token cannot be read at all is a failed exchange.
    ///
    /// Verification depends on the time at which it happens: see
    /// [`UserInfoRequest::after_verdict`] for what is done with each verdict.
    pub fn tokens(&self, exchange: CodeExchange, reply: Result<TokenReply, String>) -> (res: Result<
        UserInfoRequest,
        AuthError,
    >)
        ensures
            match reply {
                Err(reason) => res matches Err(error) && error@ == Failure::Exchange(reason@),
                Ok(tokens) => match tokens.id_token {
                    None => res matches Err(error) && error@ == Failure::Identity(
                        "provider returned no ID token"@,
                    ),
                    Some(id_token) => if id_token_rejection(id_token@) is Some {
                        res matches Err(error) && error@ == Failure::Exchange(
                            "Failed to parse server response"@,
                        )
                    } else {
                        &&& exists|now: int|
                            follows_verdict(
                                tokens.access_token@,
                                #[trigger] id_token_verdict(
                                    self.provider_spec().metadata@,
                                    self.provider_spec().keys@,
                                    self.config_spec().client_id@,
                                    id_token@,
                                    exchange.nonce@,
                                    now,
                                ),
                                res,
                            )
                        &&& res is Ok ==> (id_token_nonce(id_token@) matches Some(claimed) && sha256(
                            encode_utf8(claimed),
                        ) == sha256(encode_utf8(exchange.nonce@)))
                    },
                },
            },
    {
        let tokens = match reply {
            Ok(tokens) => tokens,
            Err(reason) => return Err(AuthError::Exchange(reason)),
        };
        let id_token = match tokens.id_token {
            Some(id_token) => id_token,
            None => {
                return Err(AuthError::Identity("provider returned no ID token".to_owned()));
            },
        };
        if id_token_error(id_token.as_str()).is_some() {
            return Err(AuthError::Exchange("Failed to parse server response".to_owned()));
        }
        let verdict = self.id_token_claims(id_token.as_str(), exchange.nonce.as_str());
        UserInfoRequest::after_verdict(tokens.access_token, verdict)
    }

    /// Finish with what came of the userinfo request, and return verified identity claims.
    pub fn identity(&self, request: UserInfoRequest, reply: UserInfoReply) -> (res: Result<
        VerifiedIdentity,
        AuthError,
    >)
        ensures
            match reply {
                UserInfoReply::NoEndpoint(reason) => res matches Err(error) && error@
                    == Failure::Identity("userinfo endpoint: "@ + reason@),
                UserInfoReply::Rejected(reason) => res matches Err(error) && error@
                    == Failure::Identity("userinfo validation: "@ + reason@),
                UserInfoReply::Claims(claims) => res matches Ok(identity) && identity_matches(
                    identity,
                    self.config_spec().issuer@,
                    request.subject@,
                    request.expiration,
                    claims,
                ),
            },
            reply matches UserInfoReply::Claims(claims) ==> (res matches Ok(identity) && {
                &&& identity.issuer@ == self.config_spec().issuer@
                &&& identity.subject@ == request.subject@
                &&& request.expiration >= 0 ==> (identity.expires_at matches Some(seconds)
                    && seconds as int == request.expiration as int)
                &&& request.expiration < 0 ==> identity.expires_at == Some(0u64)
                &&& claims.email is None ==> identity.email is None
                &&& claims.email matches Some(given) ==> (identity.email matches Some(address)
                    && address@ == lower_text(given@))
                &&& claims.name is None ==> identity.display_name is None
                &&& claims.name matches Some(given) ==> (identity.display_name matches Some(name)
                    && name@ == given@)
                &&& forall|k: int|
                    0 <= k < claims.groups@.len() ==> texts(identity.groups@).contains(
                        #[trigger] claims.groups@[k]@,
                    )
                &&& forall|i: int|
                    0 <= i < identity.groups@.len() ==> texts(claims.groups@).contains(
                        #[trigger] identity.groups@[i]@,
                    )
                &&& forall|i: int, j: int|
                    0 <= i < j < identity.groups@.len() ==> text_less(
                        #[trigger] identity.groups@[i]@,
                        #[trigger] identity.groups@[j]@,
                    )
            }),
    {
        match reply {
            UserInfoReply::NoEndpoint(reason) => Err(
                AuthError::Identity(joined("userinfo endpoint: ", reason.as_str())),
            ),
            UserInfoReply::Rejected(reason) => Err(
                AuthError::Identity(joined("userinfo validation: ", reason.as_str())),
            ),
            UserInfoReply::Claims(claims) => {
                let ghost given = claims;
                let identity = verified_identity(
                    &self.settings().issuer,
                    request.subject,
                    request.expiration,
                    claims,
                );
                proof {
                    identity_keeps_every_claim(
                        identity,
                        self.config_spec().issuer@,
                        request.subject@,
                        request.expiration,
                        given,
                    );
                }
                Ok(identity)
            },
        }
    }
}

/// A callback is accepted exactly if its transaction is live, the provider reports no error, and
/// it brings a code together with the state that the transaction was issued with.
pub proof fn callback_accepted_iff(callback: Callback, transaction: LoginTransaction, now: u64)
    ensures
        callback_problem(callback, transaction, now) is None <==> {
            &&& is_live(transaction.issued_at, now)
            &&& callback.error is None
            &&& callback.code is Some
            &&& callback.state matches Some(state) && state@ == transaction.csrf_state@
        },
{
}

/// A code is exchanged only for a callback that carries the state of its own, live transaction,
/// and with the PKCE verifier of that transaction.
pub proof fn exchange_belongs_to_transaction(
    client: OidcClient,
    callback: Callback,
    transaction: LoginTransaction,
    now: u64,
    exchange: CodeExchange,
)
    requires
        completion_begins(client, callback, transaction, now, Ok(exchange)),
    ensures
        is_live(transaction.issued_at, now),
        callback.state matches Some(state) && state@ == transaction.csrf_state@,
        callback.code matches Some(code) && code@ == exchange.code@,
        exchange.pkce_verifier@ == transaction.pkce_verifier@,
        exchange.nonce@ == transaction.nonce@,
{
}

/// The callback that a provider gives to an authorization request, with the state of that request
/// and no error, begins a code exchange at any time within ten minutes of the request, and with
/// the PKCE verifier whose challenge the request named.
pub proof fn own_callback_is_accepted(
    client: OidcClient,
    return_to: Option<String>,
    secrets: FlowSecrets,
    issued_at: u64,
    request: AuthorizationRequest,
    callback: Callback,
    now: u64,
    outcome: Result<CodeExchange, AuthError>,
)
    requires
        redirect_problem(client.config_spec()) is None,
        request_matches(client, return_to, secrets, issued_at, request),
        callback.error is None,
        callback.code is Some,
        callback.state matches Some(state) && state@ == secrets.csrf_state@,
        issued_at <= now <= issued_at + 600,
        completion_begins(client, callback, request.transaction, now, outcome),
    ensures
        outcome matches Ok(exchange) && {
            &&& exchange.code@ == callback.code->0@
            &&& request.url@ == request_url(
                client.provider_spec().metadata@,
                client.config_spec(),
                callback.state->0@,
                exchange.nonce@,
                exchange.pkce_verifier@,
            )
        },
{
}

/// The identity of a completed login is that of its verified ID token: it has the subject and the
/// expiry that the verification gave, and the configured issuer.
pub proof fn identity_belongs_to_verified_token(
    access_token: Seq<char>,
    subject: Seq<char>,
    expiration: i64,
    request: UserInfoRequest,
    issuer: Seq<char>,
    claims: UserInfo,
    identity: VerifiedIdentity,
)
    requires
        follows_verdict(access_token, Ok((subject, expiration)), Ok(request)),
        identity_matches(identity, issuer, request.subject@, request.expiration, claims),
    ensures
        identity.subject@ == subject,
        identity.issuer@ == issuer,
        identity.expires_at == Some(expiry_timestamp(expiration)),
{
}

/// A refused ID token ends the login: no userinfo request follows it.
pub proof fn refused_token_ends_login(
    access_token: Seq<char>,
    reason: Seq<char>,
    outcome: Result<UserInfoRequest, AuthError>,
)
    requires
        follows_verdict(access_token, Err(reason), outcome),
    ensures
        outcome is Err,
{
}

/// Each refused callback has its own reason, and of several the first holds: the transaction is
/// not live, the provider reports an error, the code is missing, the state is missing, the state
/// is not that of the transaction. What the provider reports is told in full.
pub proof fn refused_callback_tells_why(
    callback: Callback,
    transaction: LoginTransaction,
    now: u64,
)
    ensures
        ({
            let problem = callback_problem(callback, transaction, now);
            if now < transaction.issued_at || now - transaction.issued_at > 600 {
                problem == Some(Failure::ExpiredTransaction)
            } else {
                match callback.error {
                    Some(error) => match callback.error_description {
                        Some(description) => problem == Some(
                            Failure::Callback(
                                "provider returned "@ + error@ + ": "@ + description@,
                            ),
                        ),
                        None => problem == Some(
                            Failure::Callback("provider returned "@ + error@ + ": "@),
                        ),
                    },
                    None => match (callback.code, callback.state) {
                        (None, _) => problem == Some(Failure::Callback("missing code"@)),
                        (Some(_), None) => problem == Some(Failure::Callback("missing state"@)),
                        (Some(_), Some(state)) => if state@ == transaction.csrf_state@ {
                            problem is None
                        } else {
                            problem == Some(Failure::Callback("state mismatch"@))
                        },
                    },
                }
            }
        }),
{
    if let Some(error) = callback.error {
        let text = "provider returned "@ + error@ + ": "@;
        assert(text + Seq::<char>::empty() =~= text);
    }
}

/// A completion ends with the reason for which its callback is refused, or else with that for
/// which the redirect URI is, or else begins an exchange: of the code of the callback, with the
/// verifier and nonce of the transaction, for the client and redirect URI of the settings, all of
/// them whole.
pub proof fn completion_has_one_outcome(
    client: OidcClient,
    callback: Callback,
    transaction: LoginTransaction,
    now: u64,
    outcome: Result<CodeExchange, AuthError>,
)
    requires
        completion_begins(client, callback, transaction, now, outcome),
    ensures
        match callback_problem(callback, transaction, now) {
            Some(failure) => outcome matches Err(error) && error@ == failure,
            None => match redirect_url_rejection(client.config_spec().redirect_uri@) {
                Some(reason) => outcome matches Err(error) && error@ == Failure::Configuration(
                    "redirect URI: "@ + reason,
                ),
                None => outcome matches Ok(exchange) && callback.code matches Some(code)
                    && exchange.code@ == code@ && exchange.pkce_verifier@
                    == transaction.pkce_verifier@ && exchange.nonce@ == transaction.nonce@
                    && exchange.client_id@ == client.config_spec().client_id@
                    && exchange.redirect_uri@ == client.config_spec().redirect_uri@,
            },
        },
{
}

/// An accepted ID token asks for the claims of its own subject, with the access token that came
/// with it and its own expiry; a refused one ends the login with the reason told in full.
pub proof fn next_step_is_that_of_the_verdict(
    access_token: Seq<char>,
    verdict: Result<(Seq<char>, i64), Seq<char>>,
    outcome: Result<UserInfoRequest, AuthError>,
)
    requires
        follows_verdict(access_token, verdict, outcome),
    ensures
        outcome is Ok <==> verdict is Ok,
        verdict matches Ok(claims) ==> (outcome matches Ok(request) && request.access_token@
            == access_token && request.subject@ == claims.0 && request.expiration == claims.1),
        verdict matches Err(reason) ==> (outcome matches Err(error) && error@ == Failure::Identity(
            "ID token validation: "@ + reason,
        )),
{
}

} // verus!
