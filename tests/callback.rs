use liveframe::models::OAuthState;
use liveframe::oauth::{
    find_param, handle_callback_params, handle_oauth_callback, take_authorization, AuthError,
    CallbackOutcome, HTTP_BAD_REQUEST, HTTP_OK, INVALID_STATE_BODY, MISSING_PARAMETER_BODY,
    SUCCESS_BODY,
};
use oauth2::PkceCodeVerifier;

fn session(csrf: &str) -> OAuthState {
    OAuthState::new(csrf.to_string(), PkceCodeVerifier::new("verifier-secret".to_string()))
}

#[test]
fn new_session_is_fresh() {
    let s = session("abc");
    assert!(s.auth_code.is_none());
    assert!(s.pkce_verifier.is_some());
    assert!(s.completion_pending);
    assert_eq!(s.csrf_state, "abc");
}

#[test]
fn matching_callback_completes_session() {
    let mut s = session("xyz");
    let r = handle_oauth_callback(&mut s, "code=4%2F0Ab&state=xyz");
    assert_eq!(r.status, HTTP_OK);
    assert_eq!(r.status, 200);
    assert_eq!(r.body, SUCCESS_BODY);
    assert_eq!(r.outcome, CallbackOutcome::Completed);
    assert!(r.notify);
    // the code is percent-decoded by the query parser
    assert_eq!(s.auth_code.as_deref(), Some("4/0Ab"));
    assert!(!s.completion_pending);
}

#[test]
fn csrf_mismatch_is_bad_request_and_leaves_session() {
    let mut s = session("expected");
    let r = handle_oauth_callback(&mut s, "code=abc&state=forged");
    assert_eq!(r.status, HTTP_BAD_REQUEST);
    assert_eq!(r.status, 400);
    assert_eq!(r.body, INVALID_STATE_BODY);
    assert_eq!(r.outcome, CallbackOutcome::CsrfMismatch);
    assert!(!r.notify);
    assert!(s.auth_code.is_none());
    assert!(s.completion_pending);
    // the wait still ends without a code
    assert_eq!(take_authorization(&mut s).err(), Some(AuthError::NoAuthorizationCode));
}

#[test]
fn missing_parameters_are_bad_request() {
    for q in ["", "code=abc", "state=xyz", "foo=bar"] {
        let mut s = session("xyz");
        let r = handle_oauth_callback(&mut s, q);
        assert_eq!(r.status, 400);
        assert_eq!(r.body, MISSING_PARAMETER_BODY);
        assert_eq!(r.outcome, CallbackOutcome::MissingParameter);
        assert!(!r.notify);
        assert!(s.auth_code.is_none());
        assert!(s.completion_pending);
    }
}

#[test]
fn repeated_callback_completes_once() {
    let mut s = session("st");
    let r1 = handle_oauth_callback(&mut s, "code=c1&state=st");
    let r2 = handle_oauth_callback(&mut s, "code=c1&state=st");
    assert!(r1.notify);
    assert!(!r2.notify);
    assert_eq!(r1.status, 200);
    assert_eq!(r2.status, 200);
    assert_eq!(s.auth_code.as_deref(), Some("c1"));
}

#[test]
fn params_handler_matches_query_handler() {
    let mut s = session("st");
    let r = handle_callback_params(&mut s, Some("c".to_string()), Some("st".to_string()));
    assert_eq!(r.outcome, CallbackOutcome::Completed);
    let mut t = session("st");
    let r = handle_callback_params(&mut t, None, Some("st".to_string()));
    assert_eq!(r.outcome, CallbackOutcome::MissingParameter);
}

#[test]
fn last_duplicate_parameter_wins() {
    let pairs = vec![
        ("state".to_string(), "a".to_string()),
        ("code".to_string(), "c".to_string()),
        ("state".to_string(), "b".to_string()),
    ];
    assert_eq!(find_param(&pairs, "state").as_deref(), Some("b"));
    assert_eq!(find_param(&pairs, "code").as_deref(), Some("c"));
    assert_eq!(find_param(&pairs, "scope"), None);
    let mut s = session("b");
    let r = handle_oauth_callback(&mut s, "state=a&code=c&state=b");
    assert_eq!(r.outcome, CallbackOutcome::Completed);
}

#[test]
fn no_callback_yields_no_authorization_code() {
    let mut s = session("xyz");
    assert_eq!(take_authorization(&mut s).err(), Some(AuthError::NoAuthorizationCode));
    assert!(s.pkce_verifier.is_some());
}

#[test]
fn verifier_is_handed_out_once() {
    let mut s = session("xyz");
    handle_oauth_callback(&mut s, "code=the-code&state=xyz");
    let (code, verifier) = take_authorization(&mut s).ok().unwrap();
    assert_eq!(code, "the-code");
    assert_eq!(verifier.secret(), "verifier-secret");
    assert!(s.pkce_verifier.is_none());
    assert_eq!(take_authorization(&mut s).err(), Some(AuthError::PkceMissing));
}
