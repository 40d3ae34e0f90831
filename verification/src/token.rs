//! Request bodies for the token endpoint, and client authentication.
use vstd::prelude::*;
use vstd::utf8::encode_utf8;
use crate::b64::b64std_pad_of;
use crate::urlenc::{form_urlencoded_of, pairs_view, urlencode_pairs};
use base64::Engine;

verus! {

/// The tokens a successful exchange or refresh yields.
#[derive(Debug, PartialEq, Eq)]
pub struct TokenPair {
    pub access_token: String,
    pub refresh_token: String,
    pub expires_at: u64,
}

/// A token pair, at the level of views.
pub struct TokenPairV {
    pub access_token: Seq<char>,
    pub refresh_token: Seq<char>,
    pub expires_at: u64,
}

impl TokenPair {
    /// The view of a token pair.
    pub open spec fn view(&self) -> TokenPairV {
        TokenPairV {
            access_token: self.access_token@,
            refresh_token: self.refresh_token@,
            expires_at: self.expires_at,
        }
    }

    /// Copies the pair; the views are preserved.
    pub fn clone_pair(&self) -> (r: TokenPair)
        ensures
            r.view() == self.view(),
    {
        TokenPair {
            access_token: self.access_token.clone(),
            refresh_token: self.refresh_token.clone(),
            expires_at: self.expires_at,
        }
    }
}

/// The form pairs of an authorization-code exchange request.
pub open spec fn exchange_pairs(
    code: Seq<char>,
    verifier: Seq<char>,
    redirect_uri: Seq<char>,
) -> Seq<(Seq<char>, Seq<char>)> {
    seq![
        ("grant_type"@, "authorization_code"@),
        ("code"@, code),
        ("redirect_uri"@, redirect_uri),
        ("code_verifier"@, verifier),
    ]
}

/// The form body of an authorization-code exchange request.
pub open spec fn spec_exchange_body(
    code: Seq<char>,
    verifier: Seq<char>,
    redirect_uri: Seq<char>,
) -> Seq<char> {
    form_urlencoded_of(exchange_pairs(code, verifier, redirect_uri))
}

/// The form pairs of a refresh request.
pub open spec fn refresh_pairs(refresh_token: Seq<char>) -> Seq<(Seq<char>, Seq<char>)> {
    seq![("grant_type"@, "refresh_token"@), ("refresh_token"@, refresh_token)]
}

/// The form body of a refresh request.
pub open spec fn spec_refresh_body(refresh_token: Seq<char>) -> Seq<char> {
    form_urlencoded_of(refresh_pairs(refresh_token))
}

/// Builds the form body that exchanges an authorization code, along
/// with the session's verifier, at the token endpoint.
pub fn build_body(code: &str, code_verifier: &str, redirect_uri: &str) -> (r: String)
    ensures
        r@ == spec_exchange_body(code@, code_verifier@, redirect_uri@),
{
    let mut pairs: Vec<(String, String)> = Vec::new();
    pairs.push((String::from_str("grant_type"), String::from_str("authorization_code")));
    pairs.push((String::from_str("code"), String::from_str(code)));
    pairs.push((String::from_str("redirect_uri"), String::from_str(redirect_uri)));
    pairs.push((String::from_str("code_verifier"), String::from_str(code_verifier)));
    let body = urlencode_pairs(&pairs);
    proof {
        assert(pairs_view(pairs@) =~= exchange_pairs(code@, code_verifier@, redirect_uri@));
    }
    body
}

/// Builds the form body that renews tokens with a refresh token.
pub fn build_refresh_body(refresh_token: &str) -> (r: String)
    ensures
        r@ == spec_refresh_body(refresh_token@),
{
    let mut pairs: Vec<(String, String)> = Vec::new();
    pairs.push((String::from_str("grant_type"), String::from_str("refresh_token")));
    pairs.push((String::from_str("refresh_token"), String::from_str(refresh_token)));
    let body = urlencode_pairs(&pairs);
    proof {
        assert(pairs_view(pairs@) =~= refresh_pairs(refresh_token@));
    }
    body
}

/// Relies on base64's `STANDARD` engine: the standard alphabet with
/// '=' padding, over the string's UTF-8 bytes.
#[verifier::external_body]
fn b64std_encode(s: &str) -> (r: String)
    ensures
        r@ == b64std_pad_of(encode_utf8(s@)),
{
    base64::engine::general_purpose::STANDARD.encode(s.as_bytes())
}

/// The value of an HTTP Basic authorization header for a client.
pub open spec fn spec_basic_auth(client_id: Seq<char>, client_secret: Seq<char>) -> Seq<char> {
    "Basic "@ + b64std_pad_of(encode_utf8(client_id + ":"@ + client_secret))
}

/// Builds the HTTP Basic authorization header that authenticates the
/// client at the token endpoint: base64 of `client_id:client_secret`.
pub fn basic_auth_header(client_id: &str, client_secret: &str) -> (r: String)
    ensures
        r@ == spec_basic_auth(client_id@, client_secret@),
{
    let mut joined = String::from_str(client_id);
    joined.append(":");
    let joined = joined.concat(client_secret);
    let encoded = b64std_encode(joined.as_str());
    let out = String::from_str("Basic ");
    out.concat(encoded.as_str())
}

} // verus!
