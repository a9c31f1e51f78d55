//! The data that the credential manager and the status poller work on.
use oauth2::PkceCodeVerifier;
use vstd::prelude::*;

verus! {

/// Declares `oauth2::PkceCodeVerifier`, the PKCE secret that a session holds
/// until the code exchange takes it. The library never looks inside it.
#[verifier::external_type_specification]
#[verifier::external_body]
pub struct ExPkceCodeVerifier(PkceCodeVerifier);

/// The `installed` section of the client registration file.
pub struct ClientSecrets {
    pub installed: InstalledSecrets,
}

/// The client registration: identity and the provider's two endpoints.
pub struct InstalledSecrets {
    pub client_id: String,
    pub client_secret: String,
    pub auth_uri: String,
    pub token_uri: String,
}

/// A credential: an access token, the refresh token that renews it, and the
/// instant at which the access token stops being valid, in whole seconds
/// since the Unix epoch (UTC).
pub struct TokenInfo {
    pub access_token: String,
    pub refresh_token: String,
    pub expiry: i64,
}

/// The listing of the user's active broadcasts.
pub struct LiveBroadcastsResponse {
    pub items: Vec<LiveBroadcast>,
}

pub struct LiveBroadcast {
    pub id: String,
    pub snippet: LiveBroadcastSnippet,
    pub status: LiveBroadcastStatus,
}

pub struct LiveBroadcastSnippet {
    pub title: String,
}

pub struct LiveBroadcastStatus {
    pub life_cycle_status: Option<String>,
}

/// One authorization attempt, shared between the callback handler and the
/// coordinator that waits for it.
///
/// `completion_pending` is true until the completion signal has been fired;
/// firing it a second time is a no-op.
pub struct OAuthState {
    pub auth_code: Option<String>,
    pub csrf_state: String,
    pub pkce_verifier: Option<PkceCodeVerifier>,
    pub completion_pending: bool,
}

impl TokenInfo {
    /// A credential is valid while the present instant lies before its expiry.
    pub open spec fn valid_at(&self, now: int) -> bool {
        now < self.expiry
    }

    pub fn is_valid_at(&self, now: i64) -> (r: bool)
        ensures
            r == self.valid_at(now as int),
    {
        now < self.expiry
    }
}

} // verus!
