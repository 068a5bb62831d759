use base64::Engine;
use oidc_app_auth::{
    Callback, CodeExchange, FlowSecrets, LoginTransaction, MetadataRequest, OidcClient,
    OidcConfig, ProviderDocuments, TokenReply, UserInfo, UserInfoReply, UserInfoRequest,
};
use openidconnect::{
    Audience, EmptyAdditionalClaims, IssuerUrl, JsonWebKeyId, Nonce, PrivateSigningKey,
    StandardClaims, SubjectIdentifier,
};
use std::time::{Duration, SystemTime, UNIX_EPOCH};

const METADATA: &str = r#"{
    "issuer": "https://id.example",
    "authorization_endpoint": "https://id.example/authorize",
    "jwks_uri": "https://id.example/keys",
    "response_types_supported": ["code"],
    "subject_types_supported": ["public"],
    "id_token_signing_alg_values_supported": ["EdDSA"]
}"#;

fn signing_key(seed: u8) -> openidconnect::core::CoreEdDsaPrivateSigningKey {
    let mut der = vec![
        0x30, 0x2e, 0x02, 0x01, 0x00, 0x30, 0x05, 0x06, 0x03, 0x2b, 0x65, 0x70, 0x04, 0x22, 0x04,
        0x20,
    ];
    der.extend([seed; 32]);
    let body = base64::engine::general_purpose::STANDARD.encode(der);
    let label = "PRIVATE KEY";
    let pem = format!("-----BEGIN {label}-----\n{body}\n-----END {label}-----\n");
    let key_id = Some(JsonWebKeyId::new("key".to_owned()));
    openidconnect::core::CoreEdDsaPrivateSigningKey::from_ed25519_pem(&pem, key_id).unwrap()
}

fn id_token(seed: u8, issuer: &str, audience: &str, nonce: Option<&str>, expiry: u64) -> String {
    let expiration = UNIX_EPOCH + Duration::from_secs(expiry);
    let claims = openidconnect::core::CoreIdTokenClaims::new(
        IssuerUrl::new(issuer.to_owned()).unwrap(),
        vec![Audience::new(audience.to_owned())],
        expiration.into(),
        SystemTime::now().into(),
        StandardClaims::new(SubjectIdentifier::new("subject-7".to_owned())),
        EmptyAdditionalClaims {},
    )
    .set_nonce(nonce.map(|text| Nonce::new(text.to_owned())));
    openidconnect::core::CoreIdToken::new(
        claims,
        &signing_key(seed),
        openidconnect::core::CoreJwsSigningAlgorithm::EdDsa,
        None,
        None,
    )
    .unwrap()
    .to_string()
}

fn client(redirect_uri: &str) -> OidcClient {
    let config = OidcConfig {
        issuer: "https://id.example".to_owned(),
        client_id: "app".to_owned(),
        redirect_uri: redirect_uri.to_owned(),
        scopes: Vec::new(),
    };
    let metadata: openidconnect::core::CoreProviderMetadata =
        serde_json::from_str(METADATA).unwrap();
    let keys =
        openidconnect::core::CoreJsonWebKeySet::new(vec![signing_key(1).as_verification_key()]);
    let documents = ProviderDocuments {
        metadata: serde_json::to_string(&metadata).unwrap(),
        keys: serde_json::to_string(&keys).unwrap(),
    };
    MetadataRequest { config }
        .finish(Ok(documents))
        .ok()
        .unwrap()
}

fn transaction() -> LoginTransaction {
    LoginTransaction {
        pkce_verifier: "verifier".to_owned(),
        csrf_state: "state".to_owned(),
        nonce: "nonce".to_owned(),
        issued_at: 1000,
        return_to: None,
    }
}

fn callback() -> Callback {
    Callback {
        code: Some("code".to_owned()),
        state: Some("state".to_owned()),
        error: None,
        error_description: None,
    }
}

fn exchange() -> CodeExchange {
    client("https://app.example/callback")
        .complete_at(callback(), transaction(), 1000)
        .unwrap()
}

fn refusal(callback: Callback, now: u64) -> String {
    client("https://app.example/callback")
        .complete_at(callback, transaction(), now)
        .unwrap_err()
        .message()
}

fn tokens(id_token: Option<String>) -> Result<UserInfoRequest, String> {
    let reply = TokenReply {
        access_token: "access".to_owned(),
        id_token,
    };
    client("https://app.example/callback")
        .tokens(exchange(), Ok(reply))
        .map_err(|error| error.message())
}

fn far_future() -> u64 {
    oidc_app_auth::unix_time_seconds() + 3600
}

#[test]
fn an_accepted_callback_asks_for_its_code_to_be_exchanged() {
    let step = exchange();
    assert_eq!(step.code, "code");
    assert_eq!(step.pkce_verifier, "verifier");
    assert_eq!(step.client_id, "app");
    assert_eq!(step.redirect_uri, "https://app.example/callback");
    assert_eq!(step.nonce, "nonce");
}

#[test]
fn expired_transactions_are_refused_before_anything_else() {
    let mut failed = callback();
    failed.error = Some("access_denied".to_owned());
    assert_eq!(refusal(failed.clone(), 1601), "login transaction expired");
    assert_eq!(refusal(failed, 999), "login transaction expired");
    assert_eq!(refusal(callback(), 1601), "login transaction expired");
    let mut fresh = transaction();
    fresh.issued_at = oidc_app_auth::unix_time_seconds();
    let client = client("https://app.example/callback");
    assert!(client.complete(callback(), fresh).is_ok());
    assert!(client.complete(callback(), transaction()).is_err());
}

#[test]
fn provider_errors_are_reported_with_their_description() {
    let mut failed = callback();
    failed.error = Some("access_denied".to_owned());
    assert_eq!(
        refusal(failed.clone(), 1000),
        "OIDC authorization response is invalid: provider returned access_denied: "
    );
    failed.code = None;
    failed.error_description = Some("not today".to_owned());
    assert_eq!(
        refusal(failed, 1000),
        "OIDC authorization response is invalid: provider returned access_denied: not today"
    );
}

#[test]
fn incomplete_callbacks_are_refused() {
    let mut incomplete = callback();
    incomplete.state = None;
    assert_eq!(
        refusal(incomplete.clone(), 1000),
        "OIDC authorization response is invalid: missing state"
    );
    incomplete.code = None;
    assert_eq!(
        refusal(incomplete, 1000),
        "OIDC authorization response is invalid: missing code"
    );
}

#[test]
fn a_foreign_state_is_refused() {
    let mut foreign = callback();
    foreign.state = Some("State".to_owned());
    assert_eq!(
        refusal(foreign, 1000),
        "OIDC authorization response is invalid: state mismatch"
    );
}

#[test]
fn a_bad_redirect_uri_is_reported_after_the_state_check() {
    let client = client("callback");
    let mut foreign = callback();
    foreign.state = Some("other".to_owned());
    assert_eq!(
        client
            .complete_at(foreign, transaction(), 1000)
            .unwrap_err()
            .message(),
        "OIDC authorization response is invalid: state mismatch"
    );
    assert_eq!(
        client
            .complete_at(callback(), transaction(), 1000)
            .unwrap_err()
            .message(),
        "invalid OIDC configuration: redirect URI: relative URL without a base"
    );
}

#[test]
fn the_callback_of_a_request_is_accepted_for_ten_minutes() {
    let client = client("https://app.example/callback");
    let secrets = FlowSecrets {
        pkce_verifier: "v".repeat(43),
        csrf_state: "s".to_owned(),
        nonce: "n".to_owned(),
    };
    let request = client
        .authorization_request_with(None, secrets, 5000)
        .unwrap();
    let mut answer = callback();
    answer.state = Some("s".to_owned());
    for now in [5000, 5600] {
        let step = client
            .complete_at(answer.clone(), request.transaction.clone(), now)
            .unwrap();
        assert_eq!(step.pkce_verifier, "v".repeat(43));
        assert_eq!(step.nonce, "n");
    }
    assert!(client
        .complete_at(answer, request.transaction, 5601)
        .is_err());
}

#[test]
fn failed_exchanges_are_reported() {
    let outcome = client("https://app.example/callback")
        .tokens(exchange(), Err("Request failed".to_owned()));
    assert_eq!(
        outcome.unwrap_err().message(),
        "OIDC token exchange failed: Request failed"
    );
}

#[test]
fn a_missing_id_token_is_refused() {
    assert_eq!(
        tokens(None).unwrap_err(),
        "OIDC identity is not usable: provider returned no ID token"
    );
}

#[test]
fn a_valid_id_token_asks_for_userinfo() {
    let expiry = far_future();
    let token = id_token(1, "https://id.example", "app", Some("nonce"), expiry);
    let step = tokens(Some(token)).unwrap();
    assert_eq!(step.access_token, "access");
    assert_eq!(step.subject, "subject-7");
    assert_eq!(step.expiration, expiry as i64);
}

#[test]
fn invalid_id_tokens_are_refused() {
    let expiry = far_future();
    let prefix = "OIDC identity is not usable: ID token validation: ";
    let issuer = "https://id.example";
    assert_eq!(
        tokens(Some(id_token(1, issuer, "app", Some("other"), expiry))).unwrap_err(),
        format!("{prefix}Invalid nonce: nonce mismatch")
    );
    assert_eq!(
        tokens(Some(id_token(1, issuer, "app", None, expiry))).unwrap_err(),
        format!("{prefix}Invalid nonce: missing nonce claim")
    );
    assert_eq!(
        tokens(Some(id_token(2, issuer, "app", Some("nonce"), expiry))).unwrap_err(),
        format!("{prefix}Signature verification failed")
    );
    assert_eq!(
        tokens(Some(id_token(1, issuer, "web", Some("nonce"), expiry))).unwrap_err(),
        format!("{prefix}Invalid audiences: must contain `app` (found audiences: `web`)")
    );
    assert_eq!(
        tokens(Some(id_token(
            1,
            "https://other.example",
            "app",
            Some("nonce"),
            expiry
        )))
        .unwrap_err(),
        format!(
            "{prefix}Invalid issuer: expected `https://id.example` (found `https://other.example`)"
        )
    );
    assert!(tokens(Some(id_token(1, issuer, "app", Some("nonce"), 1000)))
        .unwrap_err()
        .starts_with(&format!("{prefix}Expired: ID token expired at 1970-01-01")));
}

#[test]
fn an_unreadable_id_token_is_a_failed_exchange() {
    let valid = id_token(1, "https://id.example", "app", Some("nonce"), far_future());
    for text in ["", "not a token", "a.b", "a.b.c", &valid[1..], &format!("{valid}.x")] {
        assert_eq!(
            tokens(Some(text.to_owned())).unwrap_err(),
            "OIDC token exchange failed: Failed to parse server response"
        );
    }
}

#[test]
fn verdicts_decide_the_next_step() {
    let accepted = UserInfoRequest::after_verdict("a".to_owned(), Ok(("s".to_owned(), -5)));
    let step = accepted.unwrap();
    assert_eq!(step.access_token, "a");
    assert_eq!(step.subject, "s");
    assert_eq!(step.expiration, -5);
    let refused = UserInfoRequest::after_verdict("a".to_owned(), Err("why".to_owned()));
    assert_eq!(
        refused.unwrap_err().message(),
        "OIDC identity is not usable: ID token validation: why"
    );
}

fn userinfo_step(expiration: i64) -> UserInfoRequest {
    UserInfoRequest {
        access_token: "access".to_owned(),
        subject: "subject-7".to_owned(),
        expiration,
    }
}

#[test]
fn failed_userinfo_requests_are_reported() {
    let client = client("https://app.example/callback");
    assert_eq!(
        client
            .identity(
                userinfo_step(1),
                UserInfoReply::NoEndpoint("none".to_owned())
            )
            .unwrap_err()
            .message(),
        "OIDC identity is not usable: userinfo endpoint: none"
    );
    assert_eq!(
        client
            .identity(userinfo_step(1), UserInfoReply::Rejected("bad".to_owned()))
            .unwrap_err()
            .message(),
        "OIDC identity is not usable: userinfo validation: bad"
    );
}

fn names(list: &[&str]) -> Vec<String> {
    list.iter().map(|name| (*name).to_owned()).collect()
}

#[test]
fn an_identity_is_made_of_verified_claims() {
    let claims = UserInfo {
        email: Some("Ada.\u{c4}@Example.ORG".to_owned()),
        name: Some("Ada".to_owned()),
        groups: names(&["staff", "admin", "staff", "\u{e9}", "Zoo", "admin"]),
    };
    let identity = client("https://app.example/callback")
        .identity(userinfo_step(2000), UserInfoReply::Claims(claims))
        .unwrap();
    assert_eq!(identity.issuer, "https://id.example");
    assert_eq!(identity.subject, "subject-7");
    assert_eq!(identity.email, Some("ada.\u{e4}@example.org".to_owned()));
    assert_eq!(identity.display_name, Some("Ada".to_owned()));
    assert_eq!(
        identity.groups,
        names(&["Zoo", "admin", "staff", "\u{e9}"])
    );
    assert_eq!(identity.expires_at, Some(2000));
}

fn normalized_email(address: &str) -> String {
    let claims = UserInfo {
        email: Some(address.to_owned()),
        name: None,
        groups: Vec::new(),
    };
    client("https://app.example/callback")
        .identity(userinfo_step(1), UserInfoReply::Claims(claims))
        .unwrap()
        .email
        .unwrap()
}

#[test]
fn an_email_address_is_lower_case_throughout() {
    assert_eq!(
        normalized_email("\u{c9}VA@EXAMPLE.COM"),
        "\u{e9}va@example.com"
    );
    assert_eq!(normalized_email("eva@example.com"), "eva@example.com");
    assert_eq!(normalized_email(""), "");
}

#[test]
fn no_ascii_capital_is_left_in_any_email_address() {
    let ascii: String = ('\0'..='\u{7f}').collect();
    assert_eq!(normalized_email(&ascii), ascii.to_ascii_lowercase());
    let every: String = ('\0'..=char::MAX).collect();
    let email = normalized_email(&every);
    assert!(!email.chars().any(|c| c.is_ascii_uppercase()));
    assert_eq!(normalized_email(&email), email);
}

#[test]
fn absent_claims_stay_absent() {
    let claims = UserInfo {
        email: None,
        name: None,
        groups: Vec::new(),
    };
    let identity = client("https://app.example/callback")
        .identity(userinfo_step(-1), UserInfoReply::Claims(claims))
        .unwrap();
    assert_eq!(identity.email, None);
    assert_eq!(identity.display_name, None);
    assert!(identity.groups.is_empty());
    assert_eq!(identity.expires_at, Some(0));
}

#[test]
fn groups_do_not_depend_on_order_or_repetition() {
    let client = client("https://app.example/callback");
    let groups = |list: &[&str]| {
        let claims = UserInfo {
            email: None,
            name: None,
            groups: names(list),
        };
        client
            .identity(userinfo_step(1), UserInfoReply::Claims(claims))
            .unwrap()
            .groups
    };
    let sorted = groups(&["a", "ab", "b", ""]);
    assert_eq!(sorted, names(&["", "a", "ab", "b"]));
    assert_eq!(groups(&["b", "", "ab", "a", "b", "ab"]), sorted);
}
