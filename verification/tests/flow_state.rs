use oidc_app_auth::{unix_time_seconds, AuthError, LoginTransaction, SignedFlowState};
use serde_json::Value;

fn transaction() -> LoginTransaction {
    LoginTransaction {
        pkce_verifier: "verifier".into(),
        csrf_state: "state".into(),
        nonce: "nonce".into(),
        issued_at: unix_time_seconds(),
        return_to: Some("/console".into()),
    }
}

fn encode(transaction: &LoginTransaction) -> Option<Vec<u8>> {
    let mut map = serde_json::Map::new();
    let texts = [
        ("pkce_verifier", &transaction.pkce_verifier),
        ("csrf_state", &transaction.csrf_state),
        ("nonce", &transaction.nonce),
    ];
    for (name, text) in texts {
        map.insert(name.to_owned(), Value::from(text.as_str()));
    }
    map.insert("issued_at".to_owned(), Value::from(transaction.issued_at));
    map.insert(
        "return_to".to_owned(),
        Value::from(transaction.return_to.clone()),
    );
    serde_json::to_vec(&Value::Object(map)).ok()
}

fn decode(payload: &[u8]) -> Option<LoginTransaction> {
    let value: Value = serde_json::from_slice(payload).ok()?;
    let text = |name: &str| value.get(name)?.as_str().map(str::to_owned);
    Some(LoginTransaction {
        pkce_verifier: text("pkce_verifier")?,
        csrf_state: text("csrf_state")?,
        nonce: text("nonce")?,
        issued_at: value.get("issued_at")?.as_u64()?,
        return_to: text("return_to"),
    })
}

fn open(secret: &[u8], cookie: &str) -> Option<LoginTransaction> {
    let payload = SignedFlowState::open(secret, cookie)?;
    SignedFlowState::unexpired(decode(&payload))
}

#[test]
fn signed_transaction_round_trips_and_tampering_fails() {
    let encoded = SignedFlowState::seal(b"test-secret", encode(&transaction())).unwrap();
    assert_eq!(open(b"test-secret", &encoded), Some(transaction()));
    assert!(open(b"wrong-secret", &encoded).is_none());
}

#[test]
fn a_cookie_is_base64_text_dot_hexadecimal_tag() {
    assert_eq!(
        SignedFlowState::seal(b"test-secret", Some(b"{\"a\":1}".to_vec())).unwrap(),
        "eyJhIjoxfQ.10c5b8a72c11176468f7c3bd77e9d2cc3d5e51588ba56984556ebccbba74cc9b"
    );
    assert_eq!(
        SignedFlowState::seal(b"", Some(Vec::new())).unwrap(),
        ".b613679a0814d9ec772f95d778c35fc5ff1697c493715653c6c712144292c5ad"
    );
}

#[test]
fn a_transaction_that_cannot_be_encoded_is_invalid() {
    assert!(matches!(
        SignedFlowState::seal(b"test-secret", None),
        Err(AuthError::InvalidTransaction)
    ));
}

#[test]
fn opening_gives_back_what_was_sealed() {
    for length in 0..70_usize {
        let payload: Vec<u8> = (0..length).map(|i| (i * 37 + length) as u8).collect();
        let cookie = SignedFlowState::seal(b"k", Some(payload.clone())).unwrap();
        assert_eq!(SignedFlowState::open(b"k", &cookie), Some(payload));
    }
}

#[test]
fn tag_digits_may_be_in_either_case() {
    let text = "eyJhIjoxfQ.10C5B8A72C11176468F7C3BD77E9D2CC3D5E51588BA56984556EBCCBBA74CC9B";
    assert_eq!(
        SignedFlowState::open(b"test-secret", text),
        Some(b"{\"a\":1}".to_vec())
    );
}

#[test]
fn malformed_cookies_are_refused() {
    let tag = "10c5b8a72c11176468f7c3bd77e9d2cc3d5e51588ba56984556ebccbba74cc9b";
    for cookie in [
        String::new(),
        "eyJhIjoxfQ".to_owned(),
        "eyJhIjoxfQ.".to_owned(),
        format!("eyJhIjoxfQ.{}", &tag[1..]),
        format!("eyJhIjoxfQ.{}", &tag[2..]),
        format!("eyJhIjoxfQ.{tag}00"),
        format!("eyJhIjoxfQ.{}zz", &tag[2..]),
        format!("eyJhIjoxfQ..{tag}"),
        format!("eyJhIjoxfA.{tag}"),
        format!("eyJhIjoxfQ={tag}"),
    ] {
        assert_eq!(SignedFlowState::open(b"test-secret", &cookie), None);
    }
}

#[test]
fn a_changed_tag_is_refused() {
    let cookie = SignedFlowState::seal(b"test-secret", Some(b"payload".to_vec())).unwrap();
    for position in cookie.len() - 64..cookie.len() {
        let digit = if &cookie[position..=position] == "0" {
            "1"
        } else {
            "0"
        };
        let mut changed = cookie.clone();
        changed.replace_range(position..=position, digit);
        assert_eq!(SignedFlowState::open(b"test-secret", &changed), None);
    }
}
