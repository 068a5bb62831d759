use oidc_app_auth::SessionToken;

#[test]
fn session_tokens_are_random_and_hashable() {
    let first = SessionToken::generate();
    let second = SessionToken::generate();
    assert!(first != second);
    assert_ne!(first.as_str(), first.hash());
}

#[test]
fn tokens_encode_their_entropy_without_padding() {
    assert_eq!(
        SessionToken::from_entropy(&[0; 32]).as_str(),
        "AAAAAAAAAAAAAAAAAAAAAAAAAAAAAAAAAAAAAAAAAAA"
    );
    assert_eq!(
        SessionToken::from_entropy(&[255; 32]).as_str(),
        "__________________________________________8"
    );
    let mut bytes = [0_u8; 32];
    for (i, byte) in bytes.iter_mut().enumerate() {
        *byte = i as u8;
    }
    assert_eq!(
        SessionToken::from_entropy(&bytes).as_str(),
        "AAECAwQFBgcICQoLDA0ODxAREhMUFRYXGBkaGxwdHh8"
    );
}

#[test]
fn generated_tokens_are_cookie_safe() {
    let token = SessionToken::generate();
    assert_eq!(token.as_str().len(), 43);
    assert!(token
        .as_str()
        .chars()
        .all(|c| c.is_ascii_alphanumeric() || c == '-' || c == '_'));
}

#[test]
fn different_entropy_gives_different_tokens() {
    let mut other = [7_u8; 32];
    let token = SessionToken::from_entropy(&other);
    other[31] = 6;
    assert!(token != SessionToken::from_entropy(&other));
}

#[test]
fn hashes_are_hexadecimal_sha256_digests() {
    assert_eq!(
        SessionToken::hash_value("abc"),
        "ba7816bf8f01cfea414140de5dae2223b00361a396177a9cb410ff61f20015ad"
    );
    assert_eq!(
        SessionToken::hash_value(""),
        "e3b0c44298fc1c149afbf4c8996fb92427ae41e4649b934ca495991b7852b855"
    );
    assert_eq!(
        SessionToken::hash_value("\u{e9}"),
        "4a99557e4033c3539de2eb65472017cad5f9557f7a0625a09f1c3f6e2ba69c4c"
    );
}

#[test]
fn a_token_hashes_to_the_hash_of_its_text() {
    let token = SessionToken::from_entropy(&[1; 32]);
    assert_eq!(token.hash(), SessionToken::hash_value(token.as_str()));
    assert_eq!(token.clone().hash(), token.hash());
}

#[test]
fn debugging_output_shows_nothing_of_a_token() {
    assert_eq!(
        SessionToken::generate().redacted(),
        "SessionToken(REDACTED)"
    );
}
