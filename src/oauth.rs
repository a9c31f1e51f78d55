//! One authorization-code exchange with PKCE: the answer to the provider's
//! callback, what the session yields once the listener has stopped, and how
//! the provider's token responses become credentials.
use crate::models::{ClientSecrets, OAuthState, TokenInfo};
use oauth2::PkceCodeVerifier;
use vstd::prelude::*;

verus! {

/// How many times a refresh, and then a full authorization, is attempted.
pub const MAX_RETRIES: u32 = 3;

/// Seconds between two attempts of the same kind.
pub const RETRY_DELAY: u64 = 5;

/// Seconds the callback listener waits for the provider's redirect.
pub const CALLBACK_TIMEOUT_SECS: u64 = 120;

/// Where the provider sends the browser back to.
pub const REDIRECT_URI: &'static str = "http://localhost:8080";

/// The scope that the status query needs.
pub const YOUTUBE_SCOPE: &'static str = "https://www.googleapis.com/auth/youtube.readonly";

pub const HTTP_OK: u16 = 200;

pub const HTTP_BAD_REQUEST: u16 = 400;

pub const SUCCESS_BODY: &'static str =
    "Authorization successful! You can close this window and return to the application.";

pub const INVALID_STATE_BODY: &'static str = "Invalid state parameter";

pub const MISSING_PARAMETER_BODY: &'static str = "Missing code or state parameter";

/// Why an authorization or a refresh did not produce a credential.
#[derive(PartialEq, Eq, Structural, Debug, Clone, Copy)]
pub enum AuthError {
    /// The listener stopped before a callback with a matching state arrived.
    NoAuthorizationCode,
    /// The session had already given up its PKCE verifier.
    PkceMissing,
    /// The token endpoint answered without a refresh token.
    TokenExchangeFailed,
    /// Refresh and every authorization attempt failed.
    AuthFailure,
}

/// Why the client registration cannot be used. Unlike an `AuthError`, it is
/// not worth retrying.
#[derive(PartialEq, Eq, Structural, Debug, Clone, Copy)]
pub enum ConfigError {
    InvalidAuthUri,
    InvalidTokenUri,
}

/// What a callback request amounted to.
#[derive(PartialEq, Eq, Structural, Debug, Clone, Copy)]
pub enum CallbackOutcome {
    Completed,
    CsrfMismatch,
    MissingParameter,
}

/// The HTTP answer to a callback request, and whether the completion signal
/// is to be fired now.
pub struct CallbackReply {
    pub status: u16,
    pub body: String,
    pub outcome: CallbackOutcome,
    pub notify: bool,
}

/// The value of an optional string.
pub open spec fn opt_view(o: Option<String>) -> Option<Seq<char>> {
    match o {
        Some(s) => Some(s@),
        None => None,
    }
}

/// The session is untouched apart from what a completing callback may change.
pub open spec fn same_session(a: OAuthState, b: OAuthState) -> bool {
    &&& opt_view(a.auth_code) == opt_view(b.auth_code)
    &&& a.csrf_state@ == b.csrf_state@
    &&& a.pkce_verifier == b.pkce_verifier
    &&& a.completion_pending == b.completion_pending
}

/// How the callback handler answers a request carrying the parameters `code`
/// and `state` (each present or not), taking the session from `pre` to `post`.
///
/// Both present and `state` equal to the expected CSRF state: the code is
/// stored, the signal fires if it has not fired yet, and the answer is 200.
/// State present but different: 400, and the session is left as it was.
/// Either missing: 400, and the session is left as it was.
pub open spec fn callback_handled(
    pre: OAuthState,
    code: Option<Seq<char>>,
    state: Option<Seq<char>>,
    post: OAuthState,
    reply: CallbackReply,
) -> bool {
    if code.is_some() && state.is_some() {
        if state.unwrap() == pre.csrf_state@ {
            &&& reply.status == HTTP_OK
            &&& reply.body@ == SUCCESS_BODY@
            &&& reply.outcome == CallbackOutcome::Completed
            &&& reply.notify == pre.completion_pending
            &&& opt_view(post.auth_code) == code
            &&& post.csrf_state@ == pre.csrf_state@
            &&& post.pkce_verifier == pre.pkce_verifier
            &&& !post.completion_pending
        } else {
            &&& reply.status == HTTP_BAD_REQUEST
            &&& reply.body@ == INVALID_STATE_BODY@
            &&& reply.outcome == CallbackOutcome::CsrfMismatch
            &&& !reply.notify
            &&& same_session(pre, post)
        }
    } else {
        &&& reply.status == HTTP_BAD_REQUEST
        &&& reply.body@ == MISSING_PARAMETER_BODY@
        &&& reply.outcome == CallbackOutcome::MissingParameter
        &&& !reply.notify
        &&& same_session(pre, post)
    }
}

impl OAuthState {
    /// A session that has received nothing yet and still holds its verifier.
    pub open spec fn is_fresh(&self) -> bool {
        &&& self.auth_code.is_none()
        &&& self.pkce_verifier.is_some()
        &&& self.completion_pending
    }

    /// Opens a session expecting `csrf_state` and holding `pkce_verifier`.
    pub fn new(csrf_state: String, pkce_verifier: PkceCodeVerifier) -> (r: OAuthState)
        ensures
            r.is_fresh(),
            r.csrf_state == csrf_state,
            r.pkce_verifier == Some(pkce_verifier),
    {
        OAuthState {
            auth_code: None,
            csrf_state,
            pkce_verifier: Some(pkce_verifier),
            completion_pending: true,
        }
    }
}

/// Answers a callback whose `code` and `state` parameters have been read.
pub fn handle_callback_params(
    session: &mut OAuthState,
    code: Option<String>,
    state: Option<String>,
) -> (r: CallbackReply)
    ensures
        callback_handled(*old(session), opt_view(code), opt_view(state), *final(session), r),
{
    match (code, state) {
        (Some(code), Some(received_state)) => {
            if received_state == session.csrf_state {
                session.auth_code = Some(code);
                let notify = session.completion_pending;
                session.completion_pending = false;
                CallbackReply {
                    status: HTTP_OK,
                    body: SUCCESS_BODY.to_owned(),
                    outcome: CallbackOutcome::Completed,
                    notify,
                }
            } else {
                CallbackReply {
                    status: HTTP_BAD_REQUEST,
                    body: INVALID_STATE_BODY.to_owned(),
                    outcome: CallbackOutcome::CsrfMismatch,
                    notify: false,
                }
            }
        },
        _ => CallbackReply {
            status: HTTP_BAD_REQUEST,
            body: MISSING_PARAMETER_BODY.to_owned(),
            outcome: CallbackOutcome::MissingParameter,
            notify: false,
        },
    }
}

/// The name/value pairs that `application/x-www-form-urlencoded` decoding
/// yields for a query string, in order.
pub uninterp spec fn form_pairs_of(query: Seq<char>) -> Seq<(Seq<char>, Seq<char>)>;

/// The values of a list of string pairs.
pub open spec fn pairs_view(pairs: Seq<(String, String)>) -> Seq<(Seq<char>, Seq<char>)> {
    pairs.map_values(|p: (String, String)| (p.0@, p.1@))
}

/// Relies on `url::form_urlencoded::parse(..).into_owned()`: the decoded pairs
/// of the query, in order; an empty query has none.
#[verifier::external_body]
fn form_pairs(query: &str) -> (r: Vec<(String, String)>)
    ensures
        pairs_view(r@) == form_pairs_of(query@),
        query@.len() == 0 ==> r@.len() == 0,
{
    url::form_urlencoded::parse(query.as_bytes()).into_owned().collect()
}

/// The value that collecting `pairs` into a map gives `key`: that of the last
/// pair with that name.
pub open spec fn param_value(pairs: Seq<(Seq<char>, Seq<char>)>, key: Seq<char>) -> Option<
    Seq<char>,
>
    decreases pairs.len(),
{
    if pairs.len() == 0 {
        None
    } else if pairs.last().0 == key {
        Some(pairs.last().1)
    } else {
        param_value(pairs.drop_last(), key)
    }
}

/// Looks up the value of the parameter `key`; where it occurs more than once
/// the last occurrence wins.
pub fn find_param(pairs: &Vec<(String, String)>, key: &str) -> (r: Option<String>)
    ensures
        opt_view(r) == param_value(pairs_view(pairs@), key@),
{
    let ghost all = pairs_view(pairs@);
    let wanted = key.to_owned();
    let mut i: usize = pairs.len();
    assert(all.subrange(0, all.len() as int) =~= all);
    while i > 0
        invariant
            i <= pairs@.len(),
            all == pairs_view(pairs@),
            wanted@ == key@,
            param_value(all, key@) == param_value(all.subrange(0, i as int), key@),
        decreases i,
    {
        let ghost prefix = all.subrange(0, i as int);
        assert(prefix.drop_last() =~= all.subrange(0, i - 1));
        assert(prefix.last() == (pairs@[i - 1].0@, pairs@[i - 1].1@));
        if pairs[i - 1].0 == wanted {
            return Some(pairs[i - 1].1.clone());
        }
        i = i - 1;
    }
    assert(all.subrange(0, 0).len() == 0);
    None
}

/// Answers a callback request whose query string is `query`.
pub fn handle_oauth_callback(session: &mut OAuthState, query: &str) -> (r: CallbackReply)
    ensures
        callback_handled(
            *old(session),
            param_value(form_pairs_of(query@), "code"@),
            param_value(form_pairs_of(query@), "state"@),
            *final(session),
            r,
        ),
{
    let pairs = form_pairs(query);
    let code = find_param(&pairs, "code");
    let state = find_param(&pairs, "state");
    handle_callback_params(session, code, state)
}

/// What the session yields once the listener has stopped: the code and the
/// verifier, which leaves the session; or why there is nothing to exchange.
pub open spec fn authorization_taken(
    pre: OAuthState,
    post: OAuthState,
    r: Result<(String, PkceCodeVerifier), AuthError>,
) -> bool {
    match pre.auth_code {
        None => r == Err::<(String, PkceCodeVerifier), AuthError>(AuthError::NoAuthorizationCode)
            && same_session(pre, post),
        Some(code) => {
            &&& opt_view(post.auth_code) == opt_view(pre.auth_code)
            &&& post.csrf_state@ == pre.csrf_state@
            &&& post.completion_pending == pre.completion_pending
            &&& post.pkce_verifier.is_none()
            &&& match pre.pkce_verifier {
                None => r == Err::<(String, PkceCodeVerifier), AuthError>(AuthError::PkceMissing),
                Some(v) => r.is_ok() && r.unwrap().0@ == code@ && r.unwrap().1 == v,
            }
        },
    }
}

/// Takes what the code exchange needs out of the session; the verifier is
/// handed out at most once.
pub fn take_authorization(session: &mut OAuthState) -> (r: Result<(String, PkceCodeVerifier), AuthError>)
    ensures
        authorization_taken(*old(session), *final(session), r),
{
    let code = match &session.auth_code {
        Some(code) => code.clone(),
        None => {
            return Err(AuthError::NoAuthorizationCode);
        },
    };
    match session.pkce_verifier.take() {
        Some(verifier) => Ok((code, verifier)),
        None => Err(AuthError::PkceMissing),
    }
}

/// The expiry of a token issued at `now` for `expires_in` seconds; a missing
/// lifetime counts as zero, and an instant past the representable range is
/// clamped to its end.
pub open spec fn expiry_spec(now: i64, expires_in: Option<u64>) -> i64 {
    let secs: int = match expires_in {
        Some(s) => s as int,
        None => 0,
    };
    if now + secs > i64::MAX {
        i64::MAX
    } else {
        (now + secs) as i64
    }
}

pub fn expiry_after(now: i64, expires_in: Option<u64>) -> (r: i64)
    ensures
        r == expiry_spec(now, expires_in),
{
    let secs: u64 = match expires_in {
        Some(s) => s,
        None => 0,
    };
    let sum: i128 = now as i128 + secs as i128;
    if sum > i64::MAX as i128 {
        i64::MAX
    } else {
        sum as i64
    }
}

/// The credential of a code exchange: the token endpoint must have issued a
/// refresh token, since later renewal depends on it.
pub fn token_from_code_exchange(
    access_token: String,
    refresh_token: Option<String>,
    expires_in: Option<u64>,
    now: i64,
) -> (r: Result<TokenInfo, AuthError>)
    ensures
        match refresh_token {
            None => r == Err::<TokenInfo, AuthError>(AuthError::TokenExchangeFailed),
            Some(rt) => r == Ok::<TokenInfo, AuthError>(
                TokenInfo { access_token, refresh_token: rt, expiry: expiry_spec(now, expires_in) },
            ),
        },
{
    match refresh_token {
        None => Err(AuthError::TokenExchangeFailed),
        Some(refresh_token) => Ok(
            TokenInfo { access_token, refresh_token, expiry: expiry_after(now, expires_in) },
        ),
    }
}

/// The credential of a refresh: a rotated refresh token replaces the old one,
/// otherwise the old one is kept.
pub fn token_from_refresh(
    access_token: String,
    rotated_refresh_token: Option<String>,
    previous_refresh_token: String,
    expires_in: Option<u64>,
    now: i64,
) -> (r: TokenInfo)
    ensures
        r.access_token == access_token,
        r.refresh_token == match rotated_refresh_token {
            Some(rt) => rt,
            None => previous_refresh_token,
        },
        r.expiry == expiry_spec(now, expires_in),
{
    let refresh_token = match rotated_refresh_token {
        Some(rt) => rt,
        None => previous_refresh_token,
    };
    TokenInfo { access_token, refresh_token, expiry: expiry_after(now, expires_in) }
}

/// A callback whose state differs from the session's is answered 400 and
/// completes nothing: the session is left as it was, and a session that had
/// no code still yields `NoAuthorizationCode` when the listener stops.
pub proof fn lemma_csrf_mismatch_never_completes(
    pre: OAuthState,
    code: Seq<char>,
    state: Seq<char>,
    post: OAuthState,
    reply: CallbackReply,
)
    requires
        state != pre.csrf_state@,
        callback_handled(pre, Some(code), Some(state), post, reply),
    ensures
        reply.status == HTTP_BAD_REQUEST,
        !reply.notify,
        same_session(pre, post),
        pre.auth_code.is_none() ==> forall|after: OAuthState, r: Result<(String, PkceCodeVerifier), AuthError>|
            #[trigger] authorization_taken(post, after, r) ==> r == Err::<(String, PkceCodeVerifier), AuthError>(
                AuthError::NoAuthorizationCode,
            ),
{
}

/// Delivering the same matching callback twice completes the session once:
/// the signal fires on the first delivery only, and the stored code is the
/// one delivered.
pub proof fn lemma_completion_is_idempotent(
    s0: OAuthState,
    code: Seq<char>,
    s1: OAuthState,
    r1: CallbackReply,
    s2: OAuthState,
    r2: CallbackReply,
)
    requires
        s0.completion_pending,
        callback_handled(s0, Some(code), Some(s0.csrf_state@), s1, r1),
        callback_handled(s1, Some(code), Some(s0.csrf_state@), s2, r2),
    ensures
        r1.status == HTTP_OK,
        r2.status == HTTP_OK,
        r1.notify,
        !r2.notify,
        opt_view(s1.auth_code) == Some(code),
        opt_view(s2.auth_code) == Some(code),
        !s2.completion_pending,
{
}

/// A session that never received a matching callback yields
/// `NoAuthorizationCode` once its listener has stopped, whatever stopped it.
pub proof fn lemma_no_callback_no_code(
    session: OAuthState,
    after: OAuthState,
    r: Result<(String, PkceCodeVerifier), AuthError>,
)
    requires
        session.is_fresh(),
        authorization_taken(session, after, r),
    ensures
        r == Err::<(String, PkceCodeVerifier), AuthError>(AuthError::NoAuthorizationCode),
        same_session(session, after),
{
}

/// Whether the text parses as an absolute URL.
pub uninterp spec fn url_parses(s: Seq<char>) -> bool;

/// Relies on `url::Url::parse`, which the provider client applies to both
/// endpoints: whether the text is accepted.
#[verifier::external_body]
fn parses_as_url(s: &str) -> (r: bool)
    ensures
        r == url_parses(s@),
{
    url::Url::parse(s).is_ok()
}

/// Checks the registration's two endpoints before any flow is attempted.
pub fn validate_client_secrets(secrets: &ClientSecrets) -> (r: Result<(), ConfigError>)
    ensures
        r == if !url_parses(secrets.installed.auth_uri@) {
            Err::<(), ConfigError>(ConfigError::InvalidAuthUri)
        } else if !url_parses(secrets.installed.token_uri@) {
            Err::<(), ConfigError>(ConfigError::InvalidTokenUri)
        } else {
            Ok::<(), ConfigError>(())
        },
{
    if !parses_as_url(secrets.installed.auth_uri.as_str()) {
        return Err(ConfigError::InvalidAuthUri);
    }
    if !parses_as_url(secrets.installed.token_uri.as_str()) {
        return Err(ConfigError::InvalidTokenUri);
    }
    Ok(())
}

} // verus!
