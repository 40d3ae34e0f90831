//! Fixed provider endpoints and the default scope list.
use vstd::prelude::*;

verus! {

/// The space-joined list of scopes requested by default.
pub open spec fn spec_scope() -> Seq<char> {
    "user-modify-playback-state user-read-playback-state user-read-currently-playing streaming playlist-read-private playlist-read-collaborative playlist-modify-private playlist-modify-public user-follow-modify user-follow-read user-read-playback-position user-top-read user-read-recently-played user-library-modify user-library-read"@
}

/// The provider's fixed authorization endpoint.
pub open spec fn spec_auth_url() -> Seq<char> {
    "https://accounts.spotify.com/authorize"@
}

/// The provider's fixed token endpoint.
pub open spec fn spec_token_url() -> Seq<char> {
    "https://accounts.spotify.com/api/token"@
}

/// Returns the default scope list, space-joined.
pub fn scope() -> (r: String)
    ensures
        r@ == spec_scope(),
{
    let s = "user-modify-playback-state user-read-playback-state user-read-currently-playing streaming playlist-read-private playlist-read-collaborative playlist-modify-private playlist-modify-public user-follow-modify user-follow-read user-read-playback-position user-top-read user-read-recently-played user-library-modify user-library-read";
    String::from_str(s)
}

/// Returns the authorization endpoint URL.
pub fn auth_url() -> (r: String)
    ensures
        r@ == spec_auth_url(),
{
    let s = "https://accounts.spotify.com/authorize";
    String::from_str(s)
}

/// Returns the token endpoint URL.
pub fn token_url() -> (r: String)
    ensures
        r@ == spec_token_url(),
{
    let s = "https://accounts.spotify.com/api/token";
    String::from_str(s)
}

} // verus!
