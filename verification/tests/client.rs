use oidc_app_auth::{
    AuthError, FlowSecrets, HttpLimits, MetadataRequest, OidcClient, OidcConfig,
    ProviderDocuments,
};

const METADATA: &str = r#"{
    "issuer": "https://id.example",
    "authorization_endpoint": "https://id.example/authorize?tenant=1",
    "token_endpoint": "https://id.example/token",
    "jwks_uri": "https://id.example/keys",
    "response_types_supported": ["code"],
    "subject_types_supported": ["public"],
    "id_token_signing_alg_values_supported": ["RS256"]
}"#;

fn config() -> OidcConfig {
    OidcConfig {
        issuer: "https://id.example".to_owned(),
        client_id: "app one".to_owned(),
        redirect_uri: "https://app.example/callback".to_owned(),
        scopes: vec!["email".to_owned(), "groups".to_owned()],
    }
}

fn documents() -> ProviderDocuments {
    ProviderDocuments {
        metadata: METADATA.to_owned(),
        keys: "{\"keys\":[]}".to_owned(),
    }
}

fn client(config: OidcConfig) -> OidcClient {
    OidcClient::discover(config)
        .unwrap()
        .with_http_client(Ok(()))
        .unwrap()
        .finish(Ok(documents()))
        .ok()
        .unwrap()
}

fn secrets() -> FlowSecrets {
    FlowSecrets {
        pkce_verifier: "dBjftJeZ4CVP-mB92K27uhbUJU1p1r_wW1gFWFOEjXk".to_owned(),
        csrf_state: "state".to_owned(),
        nonce: "n&n".to_owned(),
    }
}

#[test]
fn blank_settings_are_refused() {
    let mut settings = config();
    settings.redirect_uri = " ".to_owned();
    assert_eq!(
        OidcClient::discover(settings.clone())
            .unwrap_err()
            .message(),
        "invalid OIDC configuration: redirect_uri is empty"
    );
    settings.client_id = String::new();
    assert_eq!(
        OidcClient::discover(settings.clone())
            .unwrap_err()
            .message(),
        "invalid OIDC configuration: client_id is empty"
    );
    settings.issuer = "\t\u{2003}\n".to_owned();
    assert_eq!(
        OidcClient::discover(settings).unwrap_err().message(),
        "invalid OIDC configuration: issuer is empty"
    );
}

#[test]
fn the_http_client_is_bounded() {
    let discovery = OidcClient::discover(config()).unwrap();
    assert_eq!(
        discovery.http,
        HttpLimits {
            follow_redirects: false,
            connect_timeout_seconds: 5,
            timeout_seconds: 15,
        }
    );
    assert_eq!(discovery.config.issuer, "https://id.example");
}

#[test]
fn a_missing_http_client_is_reported_before_a_bad_issuer() {
    let mut settings = config();
    settings.issuer = "id.example".to_owned();
    let failed = OidcClient::discover(settings.clone())
        .unwrap()
        .with_http_client(Err("no TLS".to_owned()));
    assert_eq!(
        failed.unwrap_err().message(),
        "invalid OIDC configuration: HTTP client: no TLS"
    );
    let refused = OidcClient::discover(settings)
        .unwrap()
        .with_http_client(Ok(()));
    assert_eq!(
        refused.unwrap_err().message(),
        "invalid OIDC configuration: issuer URL: relative URL without a base"
    );
}

#[test]
fn failed_discovery_is_reported() {
    let request = OidcClient::discover(config())
        .unwrap()
        .with_http_client(Ok(()))
        .unwrap();
    assert_eq!(
        request
            .finish(Err("Request failed".to_owned()))
            .err()
            .unwrap()
            .message(),
        "OIDC discovery failed: Request failed"
    );
}

#[test]
fn unusable_provider_documents_are_refused() {
    for (metadata, keys) in [
        ("{}", "{\"keys\":[]}"),
        (METADATA, "[]"),
        ("", ""),
        (
            &METADATA.replace("https://id.example/authorize", "authorize"),
            "{\"keys\":[]}",
        ),
    ] {
        let request = OidcClient::discover(config())
            .unwrap()
            .with_http_client(Ok(()))
            .unwrap();
        let reply = ProviderDocuments {
            metadata: metadata.to_owned(),
            keys: keys.to_owned(),
        };
        assert!(matches!(
            request.finish(Ok(reply)),
            Err(AuthError::Discovery(_))
        ));
    }
}

#[test]
fn the_authorization_url_carries_the_request() {
    let request = client(config())
        .authorization_request_with(Some("/console".to_owned()), secrets(), 1234)
        .unwrap();
    assert_eq!(
        request.url,
        "https://id.example/authorize?tenant=1&response_type=code&client_id=app+one&state=state\
         &code_challenge=E9Melhoa2OwvFrEMTJguCHaoeK1t8URWbuGJSstw-cM&code_challenge_method=S256\
         &redirect_uri=https%3A%2F%2Fapp.example%2Fcallback&scope=openid+email+groups&nonce=n%26n"
    );
    assert_eq!(
        request.transaction.pkce_verifier,
        "dBjftJeZ4CVP-mB92K27uhbUJU1p1r_wW1gFWFOEjXk"
    );
    assert_eq!(request.transaction.csrf_state, "state");
    assert_eq!(request.transaction.nonce, "n&n");
    assert_eq!(request.transaction.issued_at, 1234);
    assert_eq!(request.transaction.return_to, Some("/console".to_owned()));
}

#[test]
fn openid_is_requested_without_any_scope_of_the_settings() {
    let mut settings = config();
    settings.scopes.clear();
    let request = client(settings)
        .authorization_request_with(None, secrets(), 0)
        .unwrap();
    assert!(request.url.contains("&scope=openid&"));
    assert_eq!(request.transaction.return_to, None);
}

#[test]
fn a_bad_redirect_uri_is_refused_before_the_provider_is_asked() {
    for bad in ["not a url", "callback", "https://"] {
        let mut settings = config();
        settings.redirect_uri = bad.to_owned();
        let refused = OidcClient::discover(settings)
            .unwrap()
            .with_http_client(Ok(()));
        assert!(matches!(refused, Err(AuthError::Configuration(_))));
    }
}

#[test]
fn a_bad_issuer_is_reported_before_a_bad_redirect_uri() {
    let mut settings = config();
    settings.redirect_uri = "callback".to_owned();
    let refused = OidcClient::discover(settings.clone())
        .unwrap()
        .with_http_client(Ok(()));
    assert_eq!(
        refused.unwrap_err().message(),
        "invalid OIDC configuration: redirect URI: relative URL without a base"
    );
    settings.issuer = "id.example".to_owned();
    let refused = OidcClient::discover(settings)
        .unwrap()
        .with_http_client(Ok(()));
    assert_eq!(
        refused.unwrap_err().message(),
        "invalid OIDC configuration: issuer URL: relative URL without a base"
    );
}

#[test]
fn different_secrets_give_different_urls() {
    let client = client(config());
    let url = |secrets: FlowSecrets| {
        client
            .authorization_request_with(None, secrets, 0)
            .unwrap()
            .url
    };
    let first = url(secrets());
    let mut other = secrets();
    other.csrf_state = "state&nonce=n".to_owned();
    assert_ne!(url(other), first);
    let mut other = secrets();
    other.nonce = "n+n".to_owned();
    assert_ne!(url(other), first);
    let mut other = secrets();
    other.pkce_verifier = "a".repeat(43);
    assert_ne!(url(other), first);
    assert_eq!(url(secrets()), first);
}

#[test]
fn a_request_is_refused_for_settings_with_a_bad_redirect_uri() {
    let mut settings = config();
    settings.redirect_uri = "callback".to_owned();
    let client = MetadataRequest { config: settings }
        .finish(Ok(documents()))
        .ok()
        .unwrap();
    let message =
        "invalid OIDC configuration: redirect URI: relative URL without a base".to_owned();
    assert_eq!(
        client.authorization_request(None).unwrap_err().message(),
        message
    );
    assert_eq!(
        client
            .authorization_request_with(None, secrets(), 0)
            .unwrap_err()
            .message(),
        message
    );
}

#[test]
fn requests_are_fresh_and_retain_their_secrets() {
    let client = client(config());
    let first = client.authorization_request(None).unwrap();
    let second = client
        .authorization_request(Some("/x".to_owned()))
        .unwrap();
    assert_ne!(
        first.transaction.pkce_verifier,
        second.transaction.pkce_verifier
    );
    assert_ne!(first.transaction.csrf_state, second.transaction.csrf_state);
    assert_ne!(first.transaction.nonce, second.transaction.nonce);
    assert_ne!(first.transaction.nonce, first.transaction.csrf_state);
    assert_ne!(first.url, second.url);
    assert_eq!(first.transaction.pkce_verifier.len(), 43);
    assert_eq!(first.transaction.csrf_state.len(), 22);
    assert_eq!(first.transaction.nonce.len(), 22);
    assert!(first
        .url
        .contains(&format!("state={}&", first.transaction.csrf_state)));
    assert!(first
        .url
        .ends_with(&format!("nonce={}", first.transaction.nonce)));
    assert!(!first.url.contains(&first.transaction.pkce_verifier));
    assert_eq!(second.transaction.return_to, Some("/x".to_owned()));
    assert!(!second
        .transaction
        .is_expired_at(oidc_app_auth::unix_time_seconds()));
}
