use liveframe::manager::{obtain_step, ObtainAction, ObtainEvent, ObtainState};
use liveframe::models::TokenInfo;
use liveframe::oauth::{AuthError, MAX_RETRIES, RETRY_DELAY};

fn token(access: &str, refresh: &str, expiry: i64) -> TokenInfo {
    TokenInfo { access_token: access.to_string(), refresh_token: refresh.to_string(), expiry }
}

fn expect_refresh(a: &ObtainAction, rt: &str, delay: u64) {
    match a {
        ObtainAction::Refresh { refresh_token, delay_secs } => {
            assert_eq!(refresh_token, rt);
            assert_eq!(*delay_secs, delay);
        }
        _ => panic!("expected a refresh"),
    }
}

fn expect_authorize(a: &ObtainAction, delay: u64) {
    match a {
        ObtainAction::Authorize { delay_secs } => assert_eq!(*delay_secs, delay),
        _ => panic!("expected an authorization"),
    }
}

#[test]
fn valid_stored_token_is_reused() {
    let (s, a) = obtain_step(ObtainState::Start, ObtainEvent::Loaded(Some(token("a", "r", 200))), 100);
    assert!(matches!(s, ObtainState::Finished));
    match a {
        ObtainAction::UseStored(t) => {
            assert_eq!(t.access_token, "a");
            assert_eq!(t.expiry, 200);
        }
        _ => panic!("expected the stored token"),
    }
}

#[test]
fn expired_stored_token_is_not_reused() {
    for now in [200, 201, 10_000] {
        let (s, a) = obtain_step(ObtainState::Start, ObtainEvent::Loaded(Some(token("a", "r", 200))), now);
        expect_refresh(&a, "r", 0);
        match s {
            ObtainState::Refreshing { attempts, .. } => assert_eq!(attempts, 1),
            _ => panic!("expected to be refreshing"),
        }
    }
}

#[test]
fn refreshed_token_is_persisted() {
    let (s, a) = obtain_step(ObtainState::Start, ObtainEvent::Loaded(Some(token("a", "r", 5))), 10);
    expect_refresh(&a, "r", 0);
    let (s, a) = obtain_step(s, ObtainEvent::RefreshSucceeded(token("b", "r", 3610)), 10);
    assert!(matches!(s, ObtainState::Finished));
    match a {
        ObtainAction::Persist(t) => assert_eq!(t.access_token, "b"),
        _ => panic!("expected to persist"),
    }
}

#[test]
fn refresh_exhaustion_falls_back_to_authorization() {
    let (mut s, a) = obtain_step(ObtainState::Start, ObtainEvent::Loaded(Some(token("a", "r", 5))), 10);
    expect_refresh(&a, "r", 0);
    for _ in 1..MAX_RETRIES {
        let (s2, a) = obtain_step(s, ObtainEvent::RefreshFailed, 10);
        expect_refresh(&a, "r", RETRY_DELAY);
        assert_eq!(RETRY_DELAY, 5);
        s = s2;
    }
    let (s, a) = obtain_step(s, ObtainEvent::RefreshFailed, 10);
    expect_authorize(&a, 0);
    match s {
        ObtainState::Authorizing { attempts } => assert_eq!(attempts, 1),
        _ => panic!("expected to be authorizing"),
    }
}

#[test]
fn missing_token_starts_authorization() {
    let (s, a) = obtain_step(ObtainState::Start, ObtainEvent::Loaded(None), 10);
    expect_authorize(&a, 0);
    let (s, a) = obtain_step(s, ObtainEvent::AuthorizeSucceeded(token("n", "nr", 3610)), 10);
    assert!(matches!(s, ObtainState::Finished));
    assert!(matches!(a, ObtainAction::Persist(_)));
}

#[test]
fn authorization_exhaustion_is_auth_failure() {
    let (mut s, a) = obtain_step(ObtainState::Start, ObtainEvent::Loaded(None), 10);
    expect_authorize(&a, 0);
    assert_eq!(MAX_RETRIES, 3);
    for _ in 1..MAX_RETRIES {
        let (s2, a) = obtain_step(s, ObtainEvent::AuthorizeFailed, 10);
        expect_authorize(&a, RETRY_DELAY);
        s = s2;
    }
    let (s, a) = obtain_step(s, ObtainEvent::AuthorizeFailed, 10);
    assert!(matches!(s, ObtainState::Finished));
    match a {
        ObtainAction::Fail(e) => assert_eq!(e, AuthError::AuthFailure),
        _ => panic!("expected a failure"),
    }
}
