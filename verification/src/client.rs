//! The client of an OpenID Connect provider: discovery and authorization requests.

use crate::clock::{is_current_time, unix_time_seconds};
use crate::crypto::sha256;
use crate::encoding::{
    base64_bytes, base64_text, base64_text_injective, base64_text_is_url_safe, is_base64_symbol,
};
use crate::error::{AuthError, Failure};
use crate::provider::{
    authorization_parameters, authorization_url, build_authorization_url, encodes_random_bytes,
    every_scope_is_requested, id_token_nonce, id_token_rejection, id_token_verdict,
    issuer_url_error, issuer_url_rejection, key_set_error, key_set_rejection, metadata_error,
    metadata_rejection, pkce_challenge, random_csrf_state, random_nonce, random_pkce_verifier,
    random_text_gives_its_bytes, redirect_url_error, redirect_url_rejection,
    request_is_code_flow_with_s256, scope_text, url_tells_request, verdict_contents,
    verify_id_token,
};
use crate::text::{
    is_blank, is_white_space, joined, texts, trim, trimmed, trimmed_empty_iff_blank,
};
use crate::transaction::LoginTransaction;
use vstd::prelude::*;
use vstd::utf8::{encode_utf8, is_ascii_chars, is_ascii_chars_encode_utf8};

verus! {

/// How many seconds a connection to the provider may take to be made.
pub const CONNECT_TIMEOUT_SECONDS: u64 = 5;

/// How many seconds a request to the provider may take as a whole.
pub const REQUEST_TIMEOUT_SECONDS: u64 = 15;

/// Public OIDC client settings for a browser authorization-code flow.
///
/// This crate intentionally models a public client: no client secret is
/// accepted or stored. Applications should keep any provider-specific secret
/// handling outside this type.
#[derive(Clone, Debug)]
pub struct OidcConfig {
    /// The issuer URL used for bounded provider metadata discovery.
    pub issuer: String,
    /// The public OAuth/OIDC client identifier.
    pub client_id: String,
    /// The callback URL registered for this client.
    pub redirect_uri: String,
    /// Scopes requested during authorization.
    pub scopes: Vec<String>,
}

/// The limits of the HTTP client that talks to the provider.
#[derive(Clone, Copy, Debug, PartialEq, Eq)]
pub struct HttpLimits {
    /// Whether redirects are followed.
    pub follow_redirects: bool,
    /// The time to make a connection, in seconds.
    pub connect_timeout_seconds: u64,
    /// The time of a whole request, in seconds.
    pub timeout_seconds: u64,
}

/// A discovery whose local settings are complete. Next, an HTTP client with the given limits is
/// to be built.
#[derive(Debug)]
pub struct Discovery {
    /// The settings of the client.
    pub config: OidcConfig,
    /// The limits for the HTTP client.
    pub http: HttpLimits,
}

/// A discovery that is ready to ask the provider. Next, the metadata of `config.issuer` and its
/// key set are to be fetched.
#[derive(Debug)]
pub struct MetadataRequest {
    /// The settings of the client.
    pub config: OidcConfig,
}

/// The documents that a provider publishes about itself, as JSON.
#[derive(Clone, Debug)]
pub struct ProviderDocuments {
    /// The provider metadata.
    pub metadata: String,
    /// The JSON Web Key Set that the metadata refers to.
    pub keys: String,
}

/// The authorization URL and state that must be retained for its callback.
#[derive(Clone, Debug)]
pub struct AuthorizationRequest {
    /// The provider authorization URL.
    pub url: String,
    /// The state needed to validate and complete the callback.
    pub transaction: LoginTransaction,
}

/// The random values of one login.
#[derive(Debug)]
pub struct FlowSecrets {
    /// The PKCE verifier.
    pub pkce_verifier: String,
    /// The CSRF state.
    pub csrf_state: String,
    /// The nonce of the ID token.
    pub nonce: String,
}

/// A discovered OIDC provider client using public-client PKCE.
pub struct OidcClient {
    provider: ProviderDocuments,
    config: OidcConfig,
}

/// What is missing in the local settings, if anything is.
pub open spec fn config_problem(config: OidcConfig) -> Option<Failure> {
    if trimmed(config.issuer@).len() == 0 {
        Some(Failure::Configuration("issuer is empty"@))
    } else if trimmed(config.client_id@).len() == 0 {
        Some(Failure::Configuration("client_id is empty"@))
    } else if trimmed(config.redirect_uri@).len() == 0 {
        Some(Failure::Configuration("redirect_uri is empty"@))
    } else {
        None
    }
}

/// What is wrong with the redirect URI of the settings, if anything is.
pub open spec fn redirect_problem(config: OidcConfig) -> Option<Failure> {
    match redirect_url_rejection(config.redirect_uri@) {
        Some(reason) => Some(Failure::Configuration("redirect URI: "@ + reason)),
        None => None,
    }
}

/// What is wrong with the documents of a provider, if anything is.
pub open spec fn documents_problem(documents: ProviderDocuments) -> Option<Failure> {
    match metadata_rejection(documents.metadata@) {
        Some(reason) => Some(Failure::Discovery(reason)),
        None => match key_set_rejection(documents.keys@) {
            Some(reason) => Some(Failure::Discovery(reason)),
            None => None,
        },
    }
}

/// The authorization URL of a client for the given secrets.
pub open spec fn request_url(
    metadata: Seq<char>,
    config: OidcConfig,
    state: Seq<char>,
    nonce: Seq<char>,
    pkce_verifier: Seq<char>,
) -> Seq<char> {
    authorization_url(
        metadata,
        authorization_parameters(
            config.client_id@,
            config.redirect_uri@,
            texts(config.scopes@),
            state,
            nonce,
            pkce_challenge(pkce_verifier),
        ),
    )
}

/// Whether an authorization request of a client is the one for the secrets, return path and time
/// of issue given.
pub open spec fn request_matches(
    client: OidcClient,
    return_to: Option<String>,
    secrets: FlowSecrets,
    issued_at: u64,
    request: AuthorizationRequest,
) -> bool {
    &&& request.transaction.pkce_verifier == secrets.pkce_verifier
    &&& request.transaction.csrf_state == secrets.csrf_state
    &&& request.transaction.nonce == secrets.nonce
    &&& request.transaction.issued_at == issued_at
    &&& request.transaction.return_to == return_to
    &&& request.url@ == request_url(
        client.provider_spec().metadata@,
        client.config_spec(),
        secrets.csrf_state@,
        secrets.nonce@,
        secrets.pkce_verifier@,
    )
    &&& url_tells_request(
        request.url@,
        client.provider_spec().metadata@,
        client.config_spec().client_id@,
        client.config_spec().redirect_uri@,
        texts(client.config_spec().scopes@),
        secrets.csrf_state@,
        secrets.nonce@,
        pkce_challenge(secrets.pkce_verifier@),
    )
}

/// Whether each of the secrets of a login is what a random draw of its own gave.
pub closed spec fn are_drawn(secrets: FlowSecrets) -> bool {
    &&& call_ensures(random_pkce_verifier, (), secrets.pkce_verifier)
    &&& call_ensures(random_csrf_state, (), secrets.csrf_state)
    &&& call_ensures(random_nonce, (), secrets.nonce)
}

/// Whether the secrets of a login encode 32, 16 and 16 bytes.
pub open spec fn are_full_length(secrets: FlowSecrets) -> bool {
    &&& encodes_random_bytes(secrets.pkce_verifier@, 32)
    &&& encodes_random_bytes(secrets.csrf_state@, 16)
    &&& encodes_random_bytes(secrets.nonce@, 16)
}

/// Fails where the redirect URI of the settings is no URL.
fn check_redirect_uri(config: &OidcConfig) -> (res: Result<(), AuthError>)
    ensures
        match redirect_problem(*config) {
            Some(failure) => res matches Err(error) && error@ == failure,
            None => res is Ok,
        },
{
    match redirect_url_error(config.redirect_uri.as_str()) {
        Some(reason) => Err(AuthError::Configuration(joined("redirect URI: ", reason.as_str()))),
        None => Ok(()),
    }
}

impl Discovery {
    /// Continues once the HTTP client was built, or failed to be, for the given reason.
    ///
    /// Returns [`AuthError::Configuration`] for that reason, and where the issuer or the redirect
    /// URI of the settings is no URL.
    pub fn with_http_client(self, built: Result<(), String>) -> (res: Result<
        MetadataRequest,
        AuthError,
    >)
        ensures
            match built {
                Err(reason) => res matches Err(error) && error@ == Failure::Configuration(
                    "HTTP client: "@ + reason@,
                ),
                Ok(()) => match issuer_url_rejection(self.config.issuer@) {
                    Some(reason) => res matches Err(error) && error@ == Failure::Configuration(
                        "issuer URL: "@ + reason,
                    ),
                    None => match redirect_problem(self.config) {
                        Some(failure) => res matches Err(error) && error@ == failure,
                        None => res matches Ok(request) && request.config == self.config,
                    },
                },
            },
    {
        if let Err(reason) = built {
            return Err(AuthError::Configuration(joined("HTTP client: ", reason.as_str())));
        }
        if let Some(reason) = issuer_url_error(self.config.issuer.as_str()) {
            return Err(AuthError::Configuration(joined("issuer URL: ", reason.as_str())));
        }
        check_redirect_uri(&self.config)?;
        Ok(MetadataRequest { config: self.config })
    }
}

impl MetadataRequest {
    /// Finishes with the documents of the provider, or with the reason why they could not be had.
    pub fn finish(self, reply: Result<ProviderDocuments, String>) -> (res: Result<
        OidcClient,
        AuthError,
    >)
        ensures
            match reply {
                Err(reason) => res matches Err(error) && error@ == Failure::Discovery(reason@),
                Ok(documents) => match documents_problem(documents) {
                    Some(failure) => res matches Err(error) && error@ == failure,
                    None => res matches Ok(client) && client.config_spec() == self.config
                        && client.provider_spec() == documents,
                },
            },
    {
        let documents = match reply {
            Ok(documents) => documents,
            Err(reason) => return Err(AuthError::Discovery(reason)),
        };
        if let Some(reason) = metadata_error(documents.metadata.as_str()) {
            return Err(AuthError::Discovery(reason));
        }
        if let Some(reason) = key_set_error(documents.keys.as_str()) {
            return Err(AuthError::Discovery(reason));
        }
        Ok(OidcClient { provider: documents, config: self.config })
    }
}

impl OidcClient {
    /// The settings of the client.
    pub closed spec fn config_spec(&self) -> OidcConfig {
        self.config
    }

    /// The documents of the provider.
    pub closed spec fn provider_spec(&self) -> ProviderDocuments {
        self.provider
    }

    #[verifier::type_invariant]
    spec fn has_valid_documents(self) -> bool {
        documents_problem(self.provider) is None
    }

    /// Check the local settings and begin to discover the provider.
    ///
    /// Returns [`AuthError::Configuration`] for incomplete local settings. Malformed ones are
    /// refused by [`Discovery::with_http_client`], before the provider is asked.
    pub fn discover(config: OidcConfig) -> (res: Result<Discovery, AuthError>)
        ensures
            match config_problem(config) {
                Some(failure) => res matches Err(error) && error@ == failure,
                None => res matches Ok(discovery) && discovery.config == config
                    && !discovery.http.follow_redirects && discovery.http.connect_timeout_seconds
                    == 5 && discovery.http.timeout_seconds == 15,
            },
    {
        if trim(config.issuer.as_str()).is_empty() {
            return Err(AuthError::Configuration("issuer is empty".to_owned()));
        }
        if trim(config.client_id.as_str()).is_empty() {
            return Err(AuthError::Configuration("client_id is empty".to_owned()));
        }
        if trim(config.redirect_uri.as_str()).is_empty() {
            return Err(AuthError::Configuration("redirect_uri is empty".to_owned()));
        }
        let http = HttpLimits {
            follow_redirects: false,
            connect_timeout_seconds: CONNECT_TIMEOUT_SECONDS,
            timeout_seconds: REQUEST_TIMEOUT_SECONDS,
        };
        Ok(Discovery { config, http })
    }

    /// Fails where the redirect URI of the settings is no URL.
    pub(crate) fn check_redirect(&self) -> (res: Result<(), AuthError>)
        ensures
            match redirect_problem(self.config_spec()) {
                Some(failure) => res matches Err(error) && error@ == failure,
                None => res is Ok,
            },
    {
        check_redirect_uri(&self.config)
    }

    /// The settings of the client.
    pub(crate) fn settings(&self) -> (res: &OidcConfig)
        ensures
            *res == self.config_spec(),
    {
        &self.config
    }

    /// Verifies an ID token, in its compact form, against the key set of the provider and the nonce
    /// of its login.
    pub(crate) fn id_token_claims(&self, id_token: &str, nonce: &str) -> (res: Result<
        (String, i64),
        String,
    >)
        requires
            id_token_rejection(id_token@) is None,
        ensures
            exists|now: int|
                verdict_contents(res) == #[trigger] id_token_verdict(
                    self.provider_spec().metadata@,
                    self.provider_spec().keys@,
                    self.config_spec().client_id@,
                    id_token@,
                    nonce@,
                    now,
                ),
            res is Ok ==> (id_token_nonce(id_token@) matches Some(claimed) && sha256(
                encode_utf8(claimed),
            ) == sha256(encode_utf8(nonce@))),
    {
        proof {
            use_type_invariant(self);
        }
        let metadata = self.provider.metadata.as_str();
        let keys = self.provider.keys.as_str();
        let client_id = self.config.client_id.as_str();
        let verdict = verify_id_token(metadata, keys, client_id, id_token, nonce);
        proof {
            let now = choose|now: int|
                verdict_contents(verdict) == #[trigger] id_token_verdict(
                    metadata@,
                    keys@,
                    client_id@,
                    id_token@,
                    nonce@,
                    now,
                );
            assert(verdict_contents(verdict) == id_token_verdict(
                self.provider_spec().metadata@,
                self.provider_spec().keys@,
                self.config_spec().client_id@,
                id_token@,
                nonce@,
                now,
            ));
        }
        verdict
    }

    /// Build an authorization URL and fresh S256 PKCE transaction.
    ///
    /// The returned transaction must be retained until [`Self::complete`] is
    /// called. `return_to` is carried as application state and should be
    /// passed through [`crate::sanitize_return_to`] before it is supplied here.
    ///
    /// Each secret is drawn anew, and the time of issue is read from the clock; what they are is
    /// left to chance and to the clock. See [`Self::authorization_request_with`] for what is done
    /// with them.
    pub fn authorization_request(&self, return_to: Option<String>) -> (res: Result<
        AuthorizationRequest,
        AuthError,
    >)
        ensures
            match redirect_problem(self.config_spec()) {
                Some(failure) => res matches Err(error) && error@ == failure,
                None => res matches Ok(request) && {
                    &&& is_current_time(request.transaction.issued_at)
                    &&& exists|secrets: FlowSecrets|
                        {
                            &&& are_drawn(secrets)
                            &&& are_full_length(secrets)
                            &&& #[trigger] request_matches(
                                *self,
                                return_to,
                                secrets,
                                request.transaction.issued_at,
                                request,
                            )
                        }
                },
            },
            redirect_url_rejection(self.config_spec().redirect_uri@) is None <==> res is Ok,
            res matches Ok(request) ==> {
                &&& request.transaction.return_to == return_to
                &&& base64_bytes(request.transaction.pkce_verifier@) matches Some(bytes)
                    && bytes.len() == 32
                &&& base64_bytes(request.transaction.csrf_state@) matches Some(bytes) && bytes.len()
                    == 16
                &&& base64_bytes(request.transaction.nonce@) matches Some(bytes) && bytes.len()
                    == 16
                &&& request.url@ == authorization_url(
                    self.provider_spec().metadata@,
                    seq![
                        ("response_type"@, "code"@),
                        ("client_id"@, self.config_spec().client_id@),
                        ("state"@, request.transaction.csrf_state@),
                        (
                            "code_challenge"@,
                            base64_text(sha256(encode_utf8(request.transaction.pkce_verifier@))),
                        ),
                        ("code_challenge_method"@, "S256"@),
                        ("redirect_uri"@, self.config_spec().redirect_uri@),
                        (
                            "scope"@,
                            scope_text(
                                Seq::new(
                                    self.config_spec().scopes@.len(),
                                    |i: int| self.config_spec().scopes@[i]@,
                                ),
                            ),
                        ),
                        ("nonce"@, request.transaction.nonce@),
                    ],
                )
            },
    {
        self.check_redirect()?;
        let secrets = FlowSecrets {
            pkce_verifier: random_pkce_verifier(),
            csrf_state: random_csrf_state(),
            nonce: random_nonce(),
        };
        assert(are_drawn(secrets));
        proof {
            random_verifier_has_pkce_length(secrets.pkce_verifier@);
            random_text_gives_its_bytes(secrets.pkce_verifier@, 32);
            random_text_gives_its_bytes(secrets.csrf_state@, 16);
            random_text_gives_its_bytes(secrets.nonce@, 16);
        }
        self.authorization_request_with(return_to, secrets, unix_time_seconds())
    }

    /// Build an authorization URL and transaction from the given secrets and time of issue. A
    /// PKCE verifier must have 43 to 128 bytes.
    pub fn authorization_request_with(
        &self,
        return_to: Option<String>,
        secrets: FlowSecrets,
        issued_at: u64,
    ) -> (res: Result<AuthorizationRequest, AuthError>)
        requires
            43 <= encode_utf8(secrets.pkce_verifier@).len() <= 128,
        ensures
            match redirect_problem(self.config_spec()) {
                Some(failure) => res matches Err(error) && error@ == failure,
                None => res matches Ok(request) && request_matches(
                    *self,
                    return_to,
                    secrets,
                    issued_at,
                    request,
                ),
            },
            redirect_url_rejection(self.config_spec().redirect_uri@) is None <==> res is Ok,
            res matches Ok(request) ==> {
                &&& request.transaction.pkce_verifier@ == secrets.pkce_verifier@
                &&& request.transaction.csrf_state@ == secrets.csrf_state@
                &&& request.transaction.nonce@ == secrets.nonce@
                &&& request.transaction.issued_at == issued_at
                &&& request.transaction.return_to == return_to
                &&& request.url@ == authorization_url(
                    self.provider_spec().metadata@,
                    seq![
                        ("response_type"@, "code"@),
                        ("client_id"@, self.config_spec().client_id@),
                        ("state"@, secrets.csrf_state@),
                        (
                            "code_challenge"@,
                            base64_text(sha256(encode_utf8(secrets.pkce_verifier@))),
                        ),
                        ("code_challenge_method"@, "S256"@),
                        ("redirect_uri"@, self.config_spec().redirect_uri@),
                        (
                            "scope"@,
                            scope_text(
                                Seq::new(
                                    self.config_spec().scopes@.len(),
                                    |i: int| self.config_spec().scopes@[i]@,
                                ),
                            ),
                        ),
                        ("nonce"@, secrets.nonce@),
                    ],
                )
            },
    {
        self.check_redirect()?;
        proof {
            use_type_invariant(self);
            assert(texts(self.config.scopes@) =~= Seq::new(
                self.config.scopes@.len(),
                |i: int| self.config.scopes@[i]@,
            ));
        }
        let url = build_authorization_url(
            self.provider.metadata.as_str(),
            self.config.client_id.as_str(),
            self.config.redirect_uri.as_str(),
            &self.config.scopes,
            secrets.csrf_state.clone(),
            secrets.nonce.clone(),
            secrets.pkce_verifier.as_str(),
        );
        let transaction = LoginTransaction {
            pkce_verifier: secrets.pkce_verifier,
            csrf_state: secrets.csrf_state,
            nonce: secrets.nonce,
            issued_at,
            return_to,
        };
        Ok(AuthorizationRequest { url, transaction })
    }
}

/// The local settings are complete exactly if none of issuer, client identifier and redirect URI
/// is blank.
pub proof fn settings_complete_iff_not_blank(config: OidcConfig)
    ensures
        config_problem(config) is None <==> !is_blank(config.issuer@) && !is_blank(
            config.client_id@,
        ) && !is_blank(config.redirect_uri@),
{
    trimmed_empty_iff_blank(config.issuer@);
    trimmed_empty_iff_blank(config.client_id@);
    trimmed_empty_iff_blank(config.redirect_uri@);
}

/// Nothing is reused between two requests of one client: if the secrets of the two differ, so do
/// those of their transactions. Requests that differ in state or nonce, or whose PKCE verifiers
/// have different SHA-256 digests, have different URLs.
pub proof fn different_secrets_give_different_requests(
    client: OidcClient,
    first_return: Option<String>,
    first_secrets: FlowSecrets,
    first_issued: u64,
    first: AuthorizationRequest,
    second_return: Option<String>,
    second_secrets: FlowSecrets,
    second_issued: u64,
    second: AuthorizationRequest,
)
    requires
        request_matches(client, first_return, first_secrets, first_issued, first),
        request_matches(client, second_return, second_secrets, second_issued, second),
    ensures
        first_secrets.pkce_verifier@ != second_secrets.pkce_verifier@
            ==> first.transaction.pkce_verifier@ != second.transaction.pkce_verifier@,
        first_secrets.csrf_state@ != second_secrets.csrf_state@ ==> first.transaction.csrf_state@
            != second.transaction.csrf_state@ && first.url@ != second.url@,
        first_secrets.nonce@ != second_secrets.nonce@ ==> first.transaction.nonce@
            != second.transaction.nonce@ && first.url@ != second.url@,
        sha256(encode_utf8(first_secrets.pkce_verifier@)) != sha256(
            encode_utf8(second_secrets.pkce_verifier@),
        ) ==> first.url@ != second.url@,
{
    let first_digest = sha256(encode_utf8(first_secrets.pkce_verifier@));
    let second_digest = sha256(encode_utf8(second_secrets.pkce_verifier@));
    if base64_text(first_digest) == base64_text(second_digest) {
        base64_text_injective(first_digest, second_digest);
    }
}

proof fn random_verifier_has_pkce_length(text: Seq<char>)
    requires
        encodes_random_bytes(text, 32),
    ensures
        encode_utf8(text).len() == 43,
{
    let bytes = choose|bytes: Seq<u8>| bytes.len() == 32 && text == #[trigger] base64_text(bytes);
    base64_text_is_url_safe(bytes);
    assert(is_ascii_chars(text)) by {
        assert forall|i: int| 0 <= i < text.len() implies '\0' <= #[trigger] text[i] <= '\u{7f}' by {
            assert(is_base64_symbol(base64_text(bytes)[i]));
        }
    }
    is_ascii_chars_encode_utf8(text);
}

/// Each setting that is blank is reported, the issuer before the client identifier and that before
/// the redirect URI; settings of which none is blank have no problem.
pub proof fn first_blank_setting_is_reported(config: OidcConfig)
    ensures
        ({
            let issuer = exists|i: int|
                0 <= i < config.issuer@.len() && !is_white_space(#[trigger] config.issuer@[i]);
            let client_id = exists|i: int|
                0 <= i < config.client_id@.len() && !is_white_space(#[trigger] config.client_id@[i]);
            let redirect_uri = exists|i: int|
                0 <= i < config.redirect_uri@.len() && !is_white_space(
                    #[trigger] config.redirect_uri@[i],
                );
            &&& !issuer ==> config_problem(config) == Some(
                Failure::Configuration("issuer is empty"@),
            )
            &&& issuer && !client_id ==> config_problem(config) == Some(
                Failure::Configuration("client_id is empty"@),
            )
            &&& issuer && client_id && !redirect_uri ==> config_problem(config) == Some(
                Failure::Configuration("redirect_uri is empty"@),
            )
            &&& issuer && client_id && redirect_uri ==> config_problem(config) is None
        }),
{
    trimmed_empty_iff_blank(config.issuer@);
    trimmed_empty_iff_blank(config.client_id@);
    trimmed_empty_iff_blank(config.redirect_uri@);
}

/// A redirect URI is a problem exactly if it is no URL, and the reason is told in full. Documents
/// are a problem exactly if the metadata or the key set is refused, the metadata first.
pub proof fn problems_are_those_of_the_parsers(config: OidcConfig, documents: ProviderDocuments)
    ensures
        redirect_problem(config) is None <==> redirect_url_rejection(config.redirect_uri@) is None,
        redirect_url_rejection(config.redirect_uri@) matches Some(reason) ==> redirect_problem(
            config,
        ) == Some(Failure::Configuration("redirect URI: "@ + reason)),
        documents_problem(documents) is None <==> metadata_rejection(documents.metadata@) is None
            && key_set_rejection(documents.keys@) is None,
        metadata_rejection(documents.metadata@) matches Some(reason) ==> documents_problem(
            documents,
        ) == Some(Failure::Discovery(reason)),
        metadata_rejection(documents.metadata@) is None ==> (key_set_rejection(documents.keys@)
            matches Some(reason) ==> documents_problem(documents) == Some(
            Failure::Discovery(reason),
        )),
{
}

/// Every scope of the settings is asked for: in the URL of a request, the parameter `scope` names
/// `openid` and then each of them, whole and in order, with a space before it and a space or the
/// end behind it.
pub proof fn every_configured_scope_is_requested(
    config: OidcConfig,
    metadata: Seq<char>,
    state: Seq<char>,
    nonce: Seq<char>,
    pkce_verifier: Seq<char>,
    i: int,
)
    requires
        0 <= i < config.scopes@.len(),
    ensures
        exists|parameters: Seq<(Seq<char>, Seq<char>)>, before: Seq<char>, after: Seq<char>|
            {
                &&& request_url(metadata, config, state, nonce, pkce_verifier)
                    == #[trigger] authorization_url(metadata, parameters)
                &&& parameters[6] == ("scope"@, #[trigger] (before + " "@ + config.scopes@[i]@
                    + after))
                &&& "openid"@.is_prefix_of(before)
                &&& before == scope_text(Seq::new(i as nat, |k: int| config.scopes@[k]@))
                &&& after.len() == 0 || after[0] == ' '
            },
        exists|before: Seq<char>, after: Seq<char>|
            {
                &&& scope_text(Seq::new(config.scopes@.len(), |k: int| config.scopes@[k]@))
                    == #[trigger] (before + " "@ + config.scopes@[i]@ + after)
                &&& before == scope_text(Seq::new(i as nat, |k: int| config.scopes@[k]@))
                &&& after.len() == 0 || after[0] == ' '
            },
{
    let scopes = texts(config.scopes@);
    assert(scopes =~= Seq::new(config.scopes@.len(), |k: int| config.scopes@[k]@));
    let parameters = authorization_parameters(
        config.client_id@,
        config.redirect_uri@,
        scopes,
        state,
        nonce,
        pkce_challenge(pkce_verifier),
    );
    assert(scopes.take(i) =~= Seq::new(i as nat, |k: int| config.scopes@[k]@));
    every_scope_is_requested(scopes, i);
    request_is_code_flow_with_s256(
        config.client_id@,
        config.redirect_uri@,
        scopes.take(i),
        state,
        nonce,
        pkce_challenge(pkce_verifier),
    );
    let before = scope_text(scopes.take(i));
    let after = choose|after: Seq<char>|
        {
            &&& scope_text(scopes) == #[trigger] (scope_text(scopes.take(i)) + " "@ + scopes[i]
                + after)
            &&& after.len() == 0 || after[0] == ' '
        };
    assert(parameters[6] == ("scope"@, before + " "@ + config.scopes@[i]@ + after));
    assert(request_url(metadata, config, state, nonce, pkce_verifier) == authorization_url(
        metadata,
        parameters,
    ));
}

/// A request carries its login as it is: the transaction keeps secrets, time and return path
/// unchanged, and the URL names the client, the redirect URI, the whole state and nonce, and the
/// challenge of the very verifier that is kept.
pub proof fn request_carries_its_login(
    client: OidcClient,
    return_to: Option<String>,
    secrets: FlowSecrets,
    issued_at: u64,
    request: AuthorizationRequest,
)
    requires
        request_matches(client, return_to, secrets, issued_at, request),
    ensures
        request.transaction.pkce_verifier@ == secrets.pkce_verifier@,
        request.transaction.csrf_state@ == secrets.csrf_state@,
        request.transaction.nonce@ == secrets.nonce@,
        request.transaction.issued_at == issued_at,
        request.transaction.return_to == return_to,
        exists|parameters: Seq<(Seq<char>, Seq<char>)>|
            {
                &&& request.url@ == #[trigger] authorization_url(
                    client.provider_spec().metadata@,
                    parameters,
                )
                &&& parameters.len() == 8
                &&& parameters[1] == ("client_id"@, client.config_spec().client_id@)
                &&& parameters[2] == ("state"@, request.transaction.csrf_state@)
                &&& parameters[3] == (
                    "code_challenge"@,
                    base64_text(sha256(encode_utf8(request.transaction.pkce_verifier@))),
                )
                &&& parameters[5] == ("redirect_uri"@, client.config_spec().redirect_uri@)
                &&& parameters[7] == ("nonce"@, request.transaction.nonce@)
            },
{
}

/// Drawn secrets are what three draws gave, one for each of them.
pub(crate) proof fn drawn_secrets_were_drawn(secrets: FlowSecrets)
    requires
        are_drawn(secrets),
    ensures
        call_ensures(random_pkce_verifier, (), secrets.pkce_verifier),
        call_ensures(random_csrf_state, (), secrets.csrf_state),
        call_ensures(random_nonce, (), secrets.nonce),
{
}

} // verus!
