use oidc_app_auth::clock::saturated_seconds;
use oidc_app_auth::{unix_time_seconds, LoginTransaction, SignedFlowState};
use std::time::{SystemTime, UNIX_EPOCH};

fn transaction() -> LoginTransaction {
    LoginTransaction {
        pkce_verifier: "verifier".into(),
        csrf_state: "state".into(),
        nonce: "nonce".into(),
        issued_at: unix_time_seconds(),
        return_to: Some("/console".into()),
    }
}

#[test]
fn future_login_transactions_are_rejected() {
    let mut flow = transaction();
    flow.issued_at = unix_time_seconds() + 1;
    assert!(flow.is_expired_at(unix_time_seconds()));
}

#[test]
fn transactions_live_for_ten_minutes() {
    let mut flow = transaction();
    flow.issued_at = 1000;
    assert!(flow.is_expired_at(0));
    assert!(flow.is_expired_at(999));
    assert!(!flow.is_expired_at(1000));
    assert!(!flow.is_expired_at(1600));
    assert!(flow.is_expired_at(1601));
    assert!(flow.is_expired_at(u64::MAX));
}

#[test]
fn lifetime_does_not_wrap_at_the_end_of_time() {
    let mut flow = transaction();
    flow.issued_at = u64::MAX;
    assert!(!flow.is_expired_at(u64::MAX));
    assert!(flow.is_expired_at(0));
    flow.issued_at = 0;
    assert!(flow.is_expired_at(u64::MAX));
}

#[test]
fn only_usable_transactions_are_handed_on() {
    let mut flow = transaction();
    flow.issued_at = 1000;
    assert_eq!(
        SignedFlowState::unexpired_at(Some(flow.clone()), 1300),
        Some(flow.clone())
    );
    assert_eq!(SignedFlowState::unexpired_at(Some(flow.clone()), 1601), None);
    assert_eq!(SignedFlowState::unexpired_at(Some(flow), 999), None);
    assert_eq!(SignedFlowState::unexpired_at(None, 1300), None);
    assert_eq!(SignedFlowState::unexpired(None), None);
    assert_eq!(
        SignedFlowState::unexpired(Some(transaction())).map(|flow| flow.csrf_state),
        Some("state".to_owned())
    );
    let mut old = transaction();
    old.issued_at -= 700;
    assert_eq!(SignedFlowState::unexpired(Some(old)), None);
}

#[test]
fn timestamps_saturate_before_the_epoch() {
    assert_eq!(saturated_seconds(None), 0);
    assert_eq!(saturated_seconds(Some(0)), 0);
    assert_eq!(saturated_seconds(Some(1_700_000_000)), 1_700_000_000);
}

#[test]
fn the_clock_is_the_system_clock() {
    let before = SystemTime::now()
        .duration_since(UNIX_EPOCH)
        .unwrap()
        .as_secs();
    let now = unix_time_seconds();
    assert!(before <= now && now <= before + 60);
}
