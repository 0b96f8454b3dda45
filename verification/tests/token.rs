use salesforce_api::errors::ServiceError;
use salesforce_api::token::{Phase, Session, TokenState, SESSION_LIFETIME_SECONDS};

#[test]
fn session_lifetime_is_thirty_minutes() {
    assert_eq!(SESSION_LIFETIME_SECONDS, 30 * 60);
}

#[test]
fn new_state_is_empty_at_any_second() {
    let state = TokenState::new();
    for now in [i64::MIN, -1, 0, 1_700_000_000, i64::MAX] {
        assert_eq!(state.phase_at(now), Phase::Empty);
        assert!(state.refresh_required_at(now));
        assert_eq!(
            state.check_access_token_at(now),
            Err(ServiceError::AccessTokenNotFound)
        );
        assert_eq!(state.valid_session_at(now), None);
    }
    assert!(state.refresh_required());
    assert_eq!(
        state.check_access_token(),
        Err(ServiceError::AccessTokenNotFound)
    );
}

#[test]
fn stored_session_expires_thirty_minutes_later() {
    let mut state = TokenState::new();
    let session = state.store("token".to_string(), "https://eu1.example".to_string(), 1_000);
    assert_eq!(
        session,
        Session {
            access_token: "token".to_string(),
            instance_url: "https://eu1.example".to_string(),
            expires_at: 2_800,
        }
    );
    assert_eq!(state.valid_session_at(1_000), Some(session));
}

#[test]
fn session_is_valid_until_the_second_before_expiry() {
    let mut state = TokenState::new();
    state.store("token".to_string(), "https://eu1.example".to_string(), 1_000);
    assert_eq!(state.phase_at(2_799), Phase::Valid);
    assert!(!state.refresh_required_at(2_799));
    assert_eq!(
        state.check_access_token_at(2_799),
        Ok(Some("token".to_string()))
    );
    assert_eq!(state.phase_at(i64::MIN), Phase::Valid);
}

#[test]
fn session_is_stale_from_the_second_of_expiry() {
    let mut state = TokenState::new();
    state.store("token".to_string(), "https://eu1.example".to_string(), 1_000);
    for now in [2_800, 2_801, i64::MAX] {
        assert_eq!(state.phase_at(now), Phase::Stale);
        assert!(state.refresh_required_at(now));
        assert_eq!(state.check_access_token_at(now), Ok(None));
        assert_eq!(state.valid_session_at(now), None);
    }
}

#[test]
fn store_replaces_the_whole_session() {
    let mut state = TokenState::new();
    state.store("old".to_string(), "https://old.example".to_string(), 0);
    state.store("new".to_string(), "https://new.example".to_string(), 5_000);
    assert_eq!(
        state.valid_session_at(5_000),
        Some(Session {
            access_token: "new".to_string(),
            instance_url: "https://new.example".to_string(),
            expires_at: 6_800,
        })
    );
}

#[test]
fn store_works_at_the_last_second_that_fits() {
    let mut state = TokenState::new();
    let session = state.store("t".to_string(), "u".to_string(), i64::MAX - 1_800);
    assert_eq!(session.expires_at, i64::MAX);
    assert_eq!(state.phase_at(i64::MAX - 1), Phase::Valid);
    assert_eq!(state.phase_at(i64::MAX), Phase::Stale);
}

#[test]
fn clone_keeps_the_session() {
    let mut state = TokenState::new();
    state.store("token".to_string(), "https://eu1.example".to_string(), 1_000);
    let copy = state.clone();
    assert_eq!(copy.valid_session_at(1_000), state.valid_session_at(1_000));
    assert_eq!(copy.phase_at(2_800), Phase::Stale);
}

#[test]
fn token_stored_now_is_fresh_by_the_clock() {
    let mut state = TokenState::new();
    let now = time::OffsetDateTime::now_utc().unix_timestamp();
    state.store("token".to_string(), "https://eu1.example".to_string(), now);
    assert!(!state.refresh_required());
    assert_eq!(state.check_access_token(), Ok(Some("token".to_string())));
    let mut old = TokenState::new();
    old.store("token".to_string(), "https://eu1.example".to_string(), now - 3_600);
    assert!(old.refresh_required());
    assert_eq!(old.check_access_token(), Ok(None));
}
