//! The credential manager's policy: reuse a valid stored credential, else
//! refresh it a bounded number of times, else run the authorization flow a
//! bounded number of times, and only then give up.
//!
//! The manager is a state machine. Its driver performs each action (loading,
//! refreshing, authorizing, waiting, persisting) and reports the outcome as the
//! next event.
use crate::models::TokenInfo;
use crate::oauth::{AuthError, MAX_RETRIES, RETRY_DELAY};
use vstd::prelude::*;

verus! {

/// Where the manager stands in one `obtain`.
pub enum ObtainState {
    /// Nothing done yet; the stored credential is to be loaded.
    Start,
    /// `attempts` refreshes of `refresh_token` have been started.
    Refreshing { refresh_token: String, attempts: u32 },
    /// `attempts` authorization flows have been started.
    Authorizing { attempts: u32 },
    /// A credential was handed out, or the manager gave up.
    Finished,
}

/// What the driver reports back.
pub enum ObtainEvent {
    /// The stored credential, if there is one.
    Loaded(Option<TokenInfo>),
    RefreshSucceeded(TokenInfo),
    RefreshFailed,
    AuthorizeSucceeded(TokenInfo),
    AuthorizeFailed,
}

/// What the driver does next.
pub enum ObtainAction {
    /// Hand out the stored credential as it is.
    UseStored(TokenInfo),
    /// Wait `delay_secs`, then exchange `refresh_token`.
    Refresh { refresh_token: String, delay_secs: u64 },
    /// Wait `delay_secs`, then run an authorization flow.
    Authorize { delay_secs: u64 },
    /// Save the new credential, then hand it out.
    Persist(TokenInfo),
    /// Report the error to the caller of `obtain`.
    Fail(AuthError),
}

/// The events that the driver can report in `state`.
pub open spec fn expects(state: ObtainState, event: ObtainEvent) -> bool {
    match state {
        ObtainState::Start => event is Loaded,
        ObtainState::Refreshing { .. } => event is RefreshSucceeded || event is RefreshFailed,
        ObtainState::Authorizing { .. } => event is AuthorizeSucceeded || event is AuthorizeFailed,
        ObtainState::Finished => false,
    }
}

/// Attempt counters stay between one and `MAX_RETRIES`.
pub open spec fn well_formed(state: ObtainState) -> bool {
    match state {
        ObtainState::Refreshing { attempts, .. } => 1 <= attempts <= MAX_RETRIES,
        ObtainState::Authorizing { attempts } => 1 <= attempts <= MAX_RETRIES,
        _ => true,
    }
}

/// The next state and action after `event`, at the instant `now`.
pub open spec fn obtain_transition(state: ObtainState, event: ObtainEvent, now: i64) -> (
    ObtainState,
    ObtainAction,
) {
    match (state, event) {
        (ObtainState::Start, ObtainEvent::Loaded(Some(t))) => {
            if t.valid_at(now as int) {
                (ObtainState::Finished, ObtainAction::UseStored(t))
            } else {
                (
                    ObtainState::Refreshing { refresh_token: t.refresh_token, attempts: 1 },
                    ObtainAction::Refresh { refresh_token: t.refresh_token, delay_secs: 0 },
                )
            }
        },
        (ObtainState::Start, ObtainEvent::Loaded(None)) => (
            ObtainState::Authorizing { attempts: 1 },
            ObtainAction::Authorize { delay_secs: 0 },
        ),
        (ObtainState::Refreshing { .. }, ObtainEvent::RefreshSucceeded(t)) => (
            ObtainState::Finished,
            ObtainAction::Persist(t),
        ),
        (ObtainState::Refreshing { refresh_token, attempts }, ObtainEvent::RefreshFailed) => {
            if attempts < MAX_RETRIES {
                (
                    ObtainState::Refreshing { refresh_token, attempts: (attempts + 1) as u32 },
                    ObtainAction::Refresh { refresh_token, delay_secs: RETRY_DELAY },
                )
            } else {
                (ObtainState::Authorizing { attempts: 1 }, ObtainAction::Authorize { delay_secs: 0 })
            }
        },
        (ObtainState::Authorizing { .. }, ObtainEvent::AuthorizeSucceeded(t)) => (
            ObtainState::Finished,
            ObtainAction::Persist(t),
        ),
        (ObtainState::Authorizing { attempts }, ObtainEvent::AuthorizeFailed) => {
            if attempts < MAX_RETRIES {
                (
                    ObtainState::Authorizing { attempts: (attempts + 1) as u32 },
                    ObtainAction::Authorize { delay_secs: RETRY_DELAY },
                )
            } else {
                (ObtainState::Finished, ObtainAction::Fail(AuthError::AuthFailure))
            }
        },
        _ => (state, ObtainAction::Fail(AuthError::AuthFailure)),
    }
}

/// Takes the manager one step: from `state`, on `event`, at `now`.
pub fn obtain_step(state: ObtainState, event: ObtainEvent, now: i64) -> (r: (
    ObtainState,
    ObtainAction,
))
    requires
        expects(state, event),
    ensures
        r == obtain_transition(state, event, now),
{
    match (state, event) {
        (ObtainState::Start, ObtainEvent::Loaded(Some(t))) => {
            if t.is_valid_at(now) {
                (ObtainState::Finished, ObtainAction::UseStored(t))
            } else {
                let refresh_token = t.refresh_token;
                (
                    ObtainState::Refreshing { refresh_token: refresh_token.clone(), attempts: 1 },
                    ObtainAction::Refresh { refresh_token, delay_secs: 0 },
                )
            }
        },
        (ObtainState::Start, ObtainEvent::Loaded(None)) => (
            ObtainState::Authorizing { attempts: 1 },
            ObtainAction::Authorize { delay_secs: 0 },
        ),
        (ObtainState::Refreshing { .. }, ObtainEvent::RefreshSucceeded(t)) => (
            ObtainState::Finished,
            ObtainAction::Persist(t),
        ),
        (ObtainState::Refreshing { refresh_token, attempts }, ObtainEvent::RefreshFailed) => {
            if attempts < MAX_RETRIES {
                (
                    ObtainState::Refreshing { refresh_token: refresh_token.clone(), attempts: attempts + 1 },
                    ObtainAction::Refresh { refresh_token, delay_secs: RETRY_DELAY },
                )
            } else {
                (ObtainState::Authorizing { attempts: 1 }, ObtainAction::Authorize { delay_secs: 0 })
            }
        },
        (ObtainState::Authorizing { .. }, ObtainEvent::AuthorizeSucceeded(t)) => (
            ObtainState::Finished,
            ObtainAction::Persist(t),
        ),
        (ObtainState::Authorizing { attempts }, ObtainEvent::AuthorizeFailed) => {
            if attempts < MAX_RETRIES {
                (
                    ObtainState::Authorizing { attempts: attempts + 1 },
                    ObtainAction::Authorize { delay_secs: RETRY_DELAY },
                )
            } else {
                (ObtainState::Finished, ObtainAction::Fail(AuthError::AuthFailure))
            }
        },
        (state, _) => (state, ObtainAction::Fail(AuthError::AuthFailure)),
    }
}

/// Every step keeps the attempt counters in range.
pub proof fn lemma_transition_well_formed(state: ObtainState, event: ObtainEvent, now: i64)
    requires
        well_formed(state),
    ensures
        well_formed(obtain_transition(state, event, now).0),
{
}

/// The manager hands a stored credential out unchanged only when it is still
/// valid at that instant: an expired one is never reused.
pub proof fn lemma_only_valid_credential_reused(state: ObtainState, event: ObtainEvent, now: i64)
    ensures
        obtain_transition(state, event, now).1 matches ObtainAction::UseStored(t) ==> {
            &&& state is Start
            &&& event == ObtainEvent::Loaded(Some(t))
            &&& t.valid_at(now as int)
        },
{
}

/// An expired stored credential sends the manager to refresh it at once.
pub proof fn lemma_expired_credential_refreshed(t: TokenInfo, now: i64)
    requires
        !t.valid_at(now as int),
    ensures
        obtain_transition(ObtainState::Start, ObtainEvent::Loaded(Some(t)), now) == (
            ObtainState::Refreshing { refresh_token: t.refresh_token, attempts: 1 },
            ObtainAction::Refresh { refresh_token: t.refresh_token, delay_secs: 0 },
        ),
{
}

/// When every refresh of an expired credential fails, the manager makes
/// `MAX_RETRIES` attempts, `RETRY_DELAY` seconds apart, and then turns to a
/// fresh authorization instead of failing.
pub proof fn lemma_refresh_exhaustion_falls_back(t: TokenInfo, now: i64)
    requires
        !t.valid_at(now as int),
    ensures
        ({
            let (s1, a1) = obtain_transition(ObtainState::Start, ObtainEvent::Loaded(Some(t)), now);
            let (s2, a2) = obtain_transition(s1, ObtainEvent::RefreshFailed, now);
            let (s3, a3) = obtain_transition(s2, ObtainEvent::RefreshFailed, now);
            let (s4, a4) = obtain_transition(s3, ObtainEvent::RefreshFailed, now);
            &&& a1 == ObtainAction::Refresh { refresh_token: t.refresh_token, delay_secs: 0 }
            &&& a2 == ObtainAction::Refresh { refresh_token: t.refresh_token, delay_secs: RETRY_DELAY }
            &&& a3 == ObtainAction::Refresh { refresh_token: t.refresh_token, delay_secs: RETRY_DELAY }
            &&& a4 == ObtainAction::Authorize { delay_secs: 0 }
            &&& s4 == ObtainState::Authorizing { attempts: 1 }
        }),
{
}

/// The manager fails only after the last of `MAX_RETRIES` authorization
/// flows has failed; failed refreshes are never fatal by themselves.
pub proof fn lemma_only_authorization_exhaustion_fails(state: ObtainState, event: ObtainEvent, now: i64)
    requires
        well_formed(state),
        expects(state, event),
    ensures
        obtain_transition(state, event, now).1 is Fail ==> {
            &&& state == ObtainState::Authorizing { attempts: MAX_RETRIES }
            &&& event is AuthorizeFailed
        },
{
}

/// Three failed authorization flows, `RETRY_DELAY` seconds apart, end the
/// manager with `AuthFailure`.
pub proof fn lemma_authorization_exhaustion_fails()
    ensures
        ({
            let (s2, a2) = obtain_transition(ObtainState::Authorizing { attempts: 1 }, ObtainEvent::AuthorizeFailed, 0);
            let (s3, a3) = obtain_transition(s2, ObtainEvent::AuthorizeFailed, 0);
            let (s4, a4) = obtain_transition(s3, ObtainEvent::AuthorizeFailed, 0);
            &&& a2 == ObtainAction::Authorize { delay_secs: RETRY_DELAY }
            &&& a3 == ObtainAction::Authorize { delay_secs: RETRY_DELAY }
            &&& a4 == ObtainAction::Fail(AuthError::AuthFailure)
            &&& s4 is Finished
        }),
{
}

} // verus!
