use oidc_app_auth::AuthError;

#[test]
fn messages_name_the_failure_and_its_detail() {
    let cases = [
        (
            AuthError::Configuration("x".to_owned()),
            "invalid OIDC configuration: x",
        ),
        (
            AuthError::Discovery("x".to_owned()),
            "OIDC discovery failed: x",
        ),
        (
            AuthError::Callback("x".to_owned()),
            "OIDC authorization response is invalid: x",
        ),
        (
            AuthError::Exchange("x".to_owned()),
            "OIDC token exchange failed: x",
        ),
        (
            AuthError::Identity("x".to_owned()),
            "OIDC identity is not usable: x",
        ),
        (AuthError::InvalidTransaction, "invalid login transaction"),
        (AuthError::ExpiredTransaction, "login transaction expired"),
    ];
    for (error, message) in cases {
        assert_eq!(error.message(), message);
    }
}
