//! Error taxonomy of the PKCE flow.
use vstd::prelude::*;

verus! {

/// Everything that can go wrong in the flow, from configuration checks
/// to the orchestration of sessions.
#[derive(Clone, Copy, Debug, PartialEq, Eq, Structural)]
pub enum AuthError {
    /// Missing or invalid client configuration: an empty client id or
    /// redirect URI. Fatal, surfaced at flow start.
    ConfigError,
    /// A verifier length outside the PKCE bounds of 43..=128.
    InvalidLength,
    /// Transport-level failure reported by the caller's HTTP layer.
    NetworkError,
    /// The provider rejected the authorization-code exchange.
    ExchangeRejected,
    /// The provider rejected the refresh request.
    RefreshRejected,
    /// The provider's response body did not parse as a token response.
    MalformedResponse,
    /// The session's expiry window elapsed before the code arrived.
    SessionExpired,
    /// No session is keyed by the presented state token.
    SessionNotFound,
    /// Another exchange or refresh is already in flight on the session.
    SessionBusy,
    /// A freshly drawn state token collided with a live session's key.
    StateCollision,
}

} // verus!
