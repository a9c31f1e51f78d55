//! Credential lifecycle and live-status polling for a desktop overlay that
//! follows a YouTube broadcast.
//!
//! The library holds the decisions: how an OAuth callback is answered, what an
//! authorization session yields once its listener stops, how token responses
//! become credentials, when a stored credential is reused, refreshed or
//! replaced, and how broadcast listings drive the visibility signal. The
//! network, the files and the clock are the caller's.
pub mod models;
pub mod oauth;
pub mod manager;
pub mod youtube;
