use cscs_key::oidc::{
    get_access_token, login_credential, refreshed_credential, AccessAction, AccessError,
    AccessEvent, AccessSession, AccessStep, AuthError, RefreshError,
};
use cscs_key::state::{compute_expiration, AppState, CertMetadata, TokenStore};

const NOW: i64 = 1_700_000_000;

fn token(access: &str, refresh: Option<&str>, expiration: Option<i64>) -> TokenStore {
    TokenStore {
        access_token: access.to_string(),
        refresh_token: refresh.map(|r| r.to_string()),
        id_token: None,
        expiration,
    }
}

fn cached(t: TokenStore) -> AppState {
    AppState { oidc_token: Some(t), ssh_cert: None }
}

#[test]
fn no_expiration_is_always_expired() {
    let t = token("A", None, None);
    assert!(t.is_expired_at(NOW));
    assert!(t.is_expired_at(i64::MIN));
    assert!(t.is_expired_at(i64::MAX));
    assert!(t.is_expired());
}

#[test]
fn expiry_respects_grace_period() {
    assert!(!token("A", None, Some(NOW + 11)).is_expired_at(NOW));
    assert!(!token("A", None, Some(NOW + 300)).is_expired_at(NOW));
    assert!(token("A", None, Some(NOW + 9)).is_expired_at(NOW));
    assert!(token("A", None, Some(NOW)).is_expired_at(NOW));
    assert!(token("A", None, Some(NOW - 60)).is_expired_at(NOW));
    // Exactly the grace period left: not yet expired, expiry needs a strict excess.
    assert!(!token("A", None, Some(NOW + 10)).is_expired_at(NOW));
    assert!(!token("A", None, Some(i64::MAX)).is_expired_at(i64::MAX - 10));
}

#[test]
fn system_clock_expiry() {
    let far = chrono::Utc::now().timestamp() + 3600;
    assert!(!token("A", None, Some(far)).is_expired());
    assert!(token("A", None, Some(0)).is_expired());
    let past = chrono::Utc::now().timestamp() - 3600;
    assert!(token("A", None, Some(past)).is_expired());
}

#[test]
fn expiration_from_ttl() {
    assert_eq!(compute_expiration(NOW, Some(300)), Some(NOW + 300));
    assert_eq!(compute_expiration(NOW, None), Some(NOW));
    assert_eq!(compute_expiration(i64::MAX - 5, Some(5)), Some(i64::MAX));
    assert_eq!(compute_expiration(i64::MAX - 5, Some(6)), None);
    assert_eq!(compute_expiration(-10, Some(u64::MAX)), None);
}

#[test]
fn credentials_from_responses() {
    let t = login_credential("A".to_string(), None, Some("I".to_string()), None, NOW);
    assert_eq!(t.access_token, "A");
    assert_eq!(t.refresh_token, None);
    assert_eq!(t.id_token.as_deref(), Some("I"));
    assert_eq!(t.expiration, Some(NOW));
    assert!(t.is_expired_at(NOW));

    let r = refreshed_credential("B".to_string(), None, None, Some(60), NOW);
    assert!(matches!(r, Err(RefreshError::MissingRefreshToken)));
    let r = refreshed_credential("B".to_string(), Some("R2".to_string()), None, Some(60), NOW).unwrap();
    assert_eq!(r.access_token, "B");
    assert_eq!(r.refresh_token.as_deref(), Some("R2"));
    assert_eq!(r.expiration, Some(NOW + 60));
}

#[test]
fn cached_valid_token_needs_no_network() {
    let state = cached(token("A", Some("R"), Some(NOW + 300)));
    let (s, action) = get_access_token(AccessSession::new(), AccessEvent::Loaded { state, now: NOW });
    match action {
        AccessAction::Return(a) => assert_eq!(a, "A"),
        _ => panic!("a valid cached token must be returned as is"),
    }
    assert!(matches!(s.step, AccessStep::Finished));
}

#[test]
fn absent_cache_logs_in_and_saves() {
    let (s, action) =
        get_access_token(AccessSession::new(), AccessEvent::Loaded { state: AppState::default(), now: NOW });
    assert!(matches!(action, AccessAction::Login));
    let fresh = token("N", Some("NR"), Some(NOW + 300));
    let (s, action) = get_access_token(s, AccessEvent::LoggedIn(Ok(fresh)));
    assert!(matches!(action, AccessAction::Save));
    let stored = s.state.oidc_token.as_ref().unwrap();
    assert_eq!(stored.access_token, "N");
    assert_eq!(stored.refresh_token.as_deref(), Some("NR"));
    let (s, action) = get_access_token(s, AccessEvent::Saved(Ok(())));
    match action {
        AccessAction::Return(a) => assert_eq!(a, "N"),
        _ => panic!("the new token must be returned"),
    }
    assert!(matches!(s.step, AccessStep::Finished));
}

#[test]
fn expired_token_is_refreshed_and_saved() {
    let mut state = cached(token("A", Some("R"), Some(NOW - 60)));
    state.ssh_cert = Some(CertMetadata {
        key_path: "/k".to_string(),
        cert_path: "/k-cert.pub".to_string(),
        serial_number: "7".to_string(),
        expires_at: "later".to_string(),
    });
    let (s, action) = get_access_token(AccessSession::new(), AccessEvent::Loaded { state, now: NOW });
    match action {
        AccessAction::Refresh(r) => assert_eq!(r, "R"),
        _ => panic!("an expired token with a refresh token must be refreshed"),
    }
    let renewed = token("A2", Some("R2"), Some(NOW + 300));
    let (s, action) = get_access_token(s, AccessEvent::Refreshed(Ok(renewed)));
    assert!(matches!(action, AccessAction::Save));
    let stored = s.state.oidc_token.as_ref().unwrap();
    assert_eq!(stored.access_token, "A2");
    assert_eq!(stored.refresh_token.as_deref(), Some("R2"));
    assert_eq!(s.state.ssh_cert.as_ref().unwrap().serial_number, "7");
    let (_, action) = get_access_token(s, AccessEvent::Saved(Ok(())));
    match action {
        AccessAction::Return(a) => assert_eq!(a, "A2"),
        _ => panic!("the refreshed token must be returned"),
    }
}

#[test]
fn failed_refresh_falls_back_to_login() {
    let state = cached(token("A", Some("R"), Some(NOW - 60)));
    let (s, _) = get_access_token(AccessSession::new(), AccessEvent::Loaded { state, now: NOW });
    let (s, action) = get_access_token(
        s,
        AccessEvent::Refreshed(Err(RefreshError::Provider("invalid_grant".to_string()))),
    );
    assert!(matches!(action, AccessAction::Login));
    let stored = s.state.oidc_token.as_ref().unwrap();
    assert_eq!(stored.access_token, "A");
    let (_, action) = get_access_token(s, AccessEvent::LoggedIn(Ok(token("B", None, Some(NOW + 300)))));
    assert!(matches!(action, AccessAction::Save));
}

#[test]
fn expired_token_without_refresh_logs_in() {
    let state = cached(token("A", None, Some(NOW + 5)));
    let (_, action) = get_access_token(AccessSession::new(), AccessEvent::Loaded { state, now: NOW });
    assert!(matches!(action, AccessAction::Login));
}

#[test]
fn login_failure_is_final() {
    let (s, _) =
        get_access_token(AccessSession::new(), AccessEvent::Loaded { state: AppState::default(), now: NOW });
    let (s, action) = get_access_token(s, AccessEvent::LoggedIn(Err(AuthError::CsrfMismatch)));
    assert!(matches!(action, AccessAction::Fail(AccessError::Auth(AuthError::CsrfMismatch))));
    assert!(matches!(s.step, AccessStep::Finished));
}

#[test]
fn save_failure_is_reported() {
    let (s, _) =
        get_access_token(AccessSession::new(), AccessEvent::Loaded { state: AppState::default(), now: NOW });
    let (s, _) = get_access_token(s, AccessEvent::LoggedIn(Ok(token("N", None, Some(NOW + 300)))));
    let (_, action) = get_access_token(s, AccessEvent::Saved(Err("disk full".to_string())));
    match action {
        AccessAction::Fail(AccessError::Storage(m)) => assert_eq!(m, "disk full"),
        _ => panic!("a failed save must be reported"),
    }
}

#[test]
fn out_of_order_event_fails() {
    let (_, action) = get_access_token(AccessSession::new(), AccessEvent::Saved(Ok(())));
    assert!(matches!(action, AccessAction::Fail(AccessError::OutOfOrder)));
    let (s, _) =
        get_access_token(AccessSession::new(), AccessEvent::Loaded { state: AppState::default(), now: NOW });
    let (_, action) = get_access_token(s, AccessEvent::Refreshed(Err(RefreshError::MissingRefreshToken)));
    assert!(matches!(action, AccessAction::Fail(AccessError::OutOfOrder)));
}
