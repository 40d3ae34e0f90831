//! Client-side OAuth 2.0 Authorization Code flow with PKCE.
//!
//! The crate covers the protocol logic of the handshake: code-verifier
//! generation, challenge derivation, authorization-URL construction,
//! token-exchange request bodies and response parsing, and the session
//! state machine that ties them together across the redirect gap.
//! Network transport and environment configuration live outside it.
use vstd::prelude::*;

pub mod b64;
pub mod builder;
pub mod challenge;
pub mod constants;
pub mod errors;
pub mod json;
pub mod random;
pub mod session;
pub mod token;
pub mod urlenc;
