use dusk_auth_core::time::Timestamp;
use dusk_auth_core::{
    AccessToken, AuthDecision, AuthError, Authenticator, InMemorySessionStore, RefreshToken,
    RefreshTokenId, Session, SessionId, SessionStore,
};

const NOW: i128 = 1_700_000_000_000_000_000;
const HOUR: i128 = 3_600_000_000_000;

fn session(id: &str, expires_at: i128, refresh: &str) -> Session {
    Session {
        id: SessionId(id.to_string()),
        subject: format!("user-of-{}", id),
        created_at: Timestamp(NOW - HOUR),
        expires_at: Timestamp(expires_at),
        revoked_at: None,
        current_refresh_token_id: RefreshTokenId(refresh.to_string()),
    }
}

fn auth_with(sessions: Vec<Session>) -> Authenticator<InMemorySessionStore> {
    let mut auth = Authenticator::new(InMemorySessionStore::new());
    for s in sessions {
        auth.store.save(s);
    }
    auth
}

fn refresh_token(id: &str, generation: &str) -> RefreshToken {
    RefreshToken {
        session_id: SessionId(id.to_string()),
        refresh_token_id: RefreshTokenId(generation.to_string()),
    }
}

fn decision_of(auth: &Authenticator<InMemorySessionStore>, token: &str, now: i128) -> AuthDecision {
    auth.validate_access_token(&AccessToken(token.to_string()), Timestamp(now))
}

#[test]
fn session_predicates_follow_fields() {
    let mut s = session("p", NOW + HOUR, "rt-1");
    assert!(!s.is_revoked());
    assert!(!s.is_expired(Timestamp(NOW)));
    assert!(s.is_active(Timestamp(NOW)));
    assert!(s.is_expired(Timestamp(NOW + HOUR)));
    assert!(!s.is_active(Timestamp(NOW + HOUR)));
    assert!(!s.is_expired(Timestamp(NOW + HOUR - 1)));
    s.revoked_at = Some(Timestamp(NOW));
    assert!(s.is_revoked());
    assert!(!s.is_active(Timestamp(NOW)));
}

#[test]
fn access_token_extracts_session_id() {
    assert_eq!(AccessToken("abc".to_string()).session_id(), Some("abc".to_string()));
    assert_eq!(AccessToken(String::new()).session_id(), None);
}

#[test]
fn scenario_valid_session_returns_copy() {
    let auth = auth_with(vec![session("S1", NOW + HOUR, "rt-1")]);
    match decision_of(&auth, "S1", NOW) {
        AuthDecision::Valid(s) => {
            assert_eq!(s.id, SessionId("S1".to_string()));
            assert_eq!(s.subject, "user-of-S1".to_string());
            assert_eq!(s.expires_at, Timestamp(NOW + HOUR));
            assert_eq!(s.revoked_at, None);
            assert_eq!(s.current_refresh_token_id, RefreshTokenId("rt-1".to_string()));
        }
        other => panic!("expected Valid, got {:?}", other),
    }
}

#[test]
fn scenario_expired_session() {
    let auth = auth_with(vec![session("S2", NOW - 60_000_000_000, "rt-1")]);
    assert!(matches!(decision_of(&auth, "S2", NOW), AuthDecision::Expired));
}

#[test]
fn expiry_boundary_counts_as_expired() {
    let auth = auth_with(vec![session("edge", NOW, "rt-1")]);
    assert!(matches!(decision_of(&auth, "edge", NOW), AuthDecision::Expired));
    assert!(matches!(decision_of(&auth, "edge", NOW - 1), AuthDecision::Valid(_)));
}

#[test]
fn scenario_ghost_session_is_invalid() {
    let auth = auth_with(vec![session("S1", NOW + HOUR, "rt-1")]);
    assert!(matches!(decision_of(&auth, "ghost", NOW), AuthDecision::Invalid));
}

#[test]
fn empty_token_is_invalid() {
    let auth = auth_with(vec![session("", NOW + HOUR, "rt-1")]);
    assert!(matches!(decision_of(&auth, "", NOW), AuthDecision::Invalid));
    let empty = auth_with(vec![]);
    assert!(matches!(decision_of(&empty, "", NOW), AuthDecision::Invalid));
}

#[test]
fn scenario_revoked_session() {
    let mut auth = auth_with(vec![session("S3", NOW + HOUR, "rt-1")]);
    auth.revoke_session(&SessionId("S3".to_string()));
    assert!(matches!(decision_of(&auth, "S3", NOW), AuthDecision::Revoked));
    assert!(matches!(decision_of(&auth, "S3", NOW - HOUR), AuthDecision::Revoked));
    assert!(matches!(decision_of(&auth, "S3", NOW + 2 * HOUR), AuthDecision::Revoked));
}

#[test]
fn revoked_wins_over_expired() {
    let mut auth = auth_with(vec![session("old", NOW - HOUR, "rt-1")]);
    assert!(matches!(decision_of(&auth, "old", NOW), AuthDecision::Expired));
    auth.revoke_session(&SessionId("old".to_string()));
    assert!(matches!(decision_of(&auth, "old", NOW), AuthDecision::Revoked));
}

#[test]
fn revoke_stamps_expiry_and_is_idempotent() {
    let mut auth = auth_with(vec![session("r", NOW + HOUR, "rt-1")]);
    let id = SessionId("r".to_string());
    auth.revoke_session(&id);
    let once = auth.store.load(&id).unwrap();
    assert_eq!(once.revoked_at, Some(Timestamp(NOW + HOUR)));
    auth.revoke_session(&id);
    let twice = auth.store.load(&id).unwrap();
    assert_eq!(twice.revoked_at, once.revoked_at);
    assert_eq!(twice.current_refresh_token_id, once.current_refresh_token_id);
}

#[test]
fn revoke_keeps_an_earlier_revocation_time() {
    let mut s = session("k", NOW + HOUR, "rt-1");
    s.revoked_at = Some(Timestamp(NOW - 5));
    let mut auth = auth_with(vec![s]);
    auth.revoke_session(&SessionId("k".to_string()));
    let loaded = auth.store.load(&SessionId("k".to_string())).unwrap();
    assert_eq!(loaded.revoked_at, Some(Timestamp(NOW - 5)));
}

#[test]
fn revoke_of_missing_session_changes_nothing() {
    let mut auth = auth_with(vec![session("a", NOW + HOUR, "rt-1")]);
    auth.revoke_session(&SessionId("b".to_string()));
    assert!(auth.store.load(&SessionId("b".to_string())).is_none());
    assert!(matches!(decision_of(&auth, "a", NOW), AuthDecision::Valid(_)));
}

#[test]
fn save_overwrites_and_keeps_others() {
    let mut store = InMemorySessionStore::new();
    store.save(session("a", NOW + HOUR, "rt-1"));
    store.save(session("b", NOW + HOUR, "rt-9"));
    store.save(session("a", NOW + 2 * HOUR, "rt-2"));
    let a = store.load(&SessionId("a".to_string())).unwrap();
    assert_eq!(a.expires_at, Timestamp(NOW + 2 * HOUR));
    assert_eq!(a.current_refresh_token_id, RefreshTokenId("rt-2".to_string()));
    let b = store.load(&SessionId("b".to_string())).unwrap();
    assert_eq!(b.current_refresh_token_id, RefreshTokenId("rt-9".to_string()));
    assert!(store.load(&SessionId("c".to_string())).is_none());
}

#[test]
fn refresh_of_missing_session_is_invalid_refresh_token() {
    let mut auth = auth_with(vec![]);
    let r = auth.refresh_session(&refresh_token("nope", "rt-1"), Timestamp(NOW));
    assert_eq!(r.err(), Some(AuthError::InvalidRefreshToken));
}

#[test]
fn refresh_of_revoked_session_fails() {
    let mut auth = auth_with(vec![session("rv", NOW + HOUR, "rt-1")]);
    auth.revoke_session(&SessionId("rv".to_string()));
    let r = auth.refresh_session(&refresh_token("rv", "rt-1"), Timestamp(NOW));
    assert_eq!(r.err(), Some(AuthError::SessionRevoked));
}

#[test]
fn refresh_of_expired_session_fails_without_change() {
    let mut auth = auth_with(vec![session("ex", NOW, "rt-1")]);
    let r = auth.refresh_session(&refresh_token("ex", "rt-1"), Timestamp(NOW));
    assert_eq!(r.err(), Some(AuthError::SessionExpired));
    let stored = auth.store.load(&SessionId("ex".to_string())).unwrap();
    assert_eq!(stored.revoked_at, None);
    assert_eq!(stored.current_refresh_token_id, RefreshTokenId("rt-1".to_string()));
}

#[test]
fn refresh_with_wrong_generation_revokes() {
    let mut auth = auth_with(vec![session("w", NOW + HOUR, "rt-1")]);
    let r = auth.refresh_session(&refresh_token("w", "forged"), Timestamp(NOW));
    assert_eq!(r.err(), Some(AuthError::RefreshTokenReused));
    let stored = auth.store.load(&SessionId("w".to_string())).unwrap();
    assert_eq!(stored.revoked_at, Some(Timestamp(NOW + HOUR)));
    assert!(matches!(decision_of(&auth, "w", NOW), AuthDecision::Revoked));
}

#[test]
fn refresh_issues_new_random_generation() {
    let mut auth = auth_with(vec![session("S4", NOW + HOUR, "rt-1")]);
    let (access, refresh) = auth
        .refresh_session(&refresh_token("S4", "rt-1"), Timestamp(NOW))
        .unwrap();
    assert_eq!(access.0, "S4".to_string());
    assert_eq!(refresh.session_id, SessionId("S4".to_string()));
    let generation = refresh.refresh_token_id.0.clone();
    assert_ne!(generation, "rt-1".to_string());
    assert!(generation.starts_with("rt-"));
    assert_eq!(generation.chars().count(), 39);
    let stored = auth.store.load(&SessionId("S4".to_string())).unwrap();
    assert_eq!(stored.current_refresh_token_id, refresh.refresh_token_id);
    assert_eq!(stored.revoked_at, None);
    assert!(matches!(decision_of(&auth, "S4", NOW), AuthDecision::Valid(_)));
}

#[test]
fn two_refreshes_give_distinct_generations() {
    let mut auth = auth_with(vec![session("d", NOW + HOUR, "rt-1")]);
    let (_, first) = auth.refresh_session(&refresh_token("d", "rt-1"), Timestamp(NOW)).unwrap();
    let (_, second) = auth.refresh_session(&first, Timestamp(NOW)).unwrap();
    assert_ne!(first.refresh_token_id, second.refresh_token_id);
}

#[test]
fn scenario_rotation_then_replay() {
    let mut auth = auth_with(vec![session("S4", NOW + HOUR, "rt-1")]);
    let (_, rotated) = auth
        .refresh_session(&refresh_token("S4", "rt-1"), Timestamp(NOW))
        .unwrap();
    assert_ne!(rotated.refresh_token_id, RefreshTokenId("rt-1".to_string()));
    let replay = auth.refresh_session(&refresh_token("S4", "rt-1"), Timestamp(NOW));
    assert_eq!(replay.err(), Some(AuthError::RefreshTokenReused));
    assert!(matches!(decision_of(&auth, "S4", NOW), AuthDecision::Revoked));
    let after = auth.refresh_session(&rotated, Timestamp(NOW));
    assert_eq!(after.err(), Some(AuthError::SessionRevoked));
}

#[test]
fn refresh_with_given_generation() {
    let mut auth = auth_with(vec![session("g", NOW + HOUR, "rt-1")]);
    let (access, refresh) = auth
        .refresh_session_with_id(
            &refresh_token("g", "rt-1"),
            Timestamp(NOW),
            RefreshTokenId("rt-2".to_string()),
        )
        .unwrap();
    assert_eq!(access.0, "g".to_string());
    assert_eq!(refresh.refresh_token_id, RefreshTokenId("rt-2".to_string()));
    let old = auth.refresh_session_with_id(
        &refresh_token("g", "rt-1"),
        Timestamp(NOW),
        RefreshTokenId("rt-3".to_string()),
    );
    assert_eq!(old.err(), Some(AuthError::RefreshTokenReused));
    assert!(matches!(decision_of(&auth, "g", NOW), AuthDecision::Revoked));
}

#[test]
fn stale_token_after_expiry_is_expired() {
    let mut auth = auth_with(vec![session("x", NOW + HOUR, "rt-1")]);
    auth.refresh_session_with_id(
        &refresh_token("x", "rt-1"),
        Timestamp(NOW),
        RefreshTokenId("rt-2".to_string()),
    )
    .unwrap();
    let late = auth.refresh_session(&refresh_token("x", "rt-1"), Timestamp(NOW + HOUR));
    assert_eq!(late.err(), Some(AuthError::SessionExpired));
    assert!(matches!(decision_of(&auth, "x", NOW), AuthDecision::Valid(_)));
}
