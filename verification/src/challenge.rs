//! Challenge derivation: SHA-256 of the verifier, base64url without padding.
use vstd::prelude::*;
use crate::b64::{b64url_nopad_of, b64_alphabet_url, lemma_b64url_nopad_shape};
use base64::Engine;
use sha2::Digest;

verus! {

/// The SHA-256 digest of a string's UTF-8 bytes, as an unnamed function
/// of the characters alone.
pub uninterp spec fn sha256_of(input: Seq<char>) -> Seq<u8>;

/// Relies on sha2's `Sha256::digest` over the input's UTF-8 bytes:
/// a 32-byte digest that depends on the input characters alone.
#[verifier::external_body]
fn sha256_utf8(input: &str) -> (r: Vec<u8>)
    ensures
        r@ == sha256_of(input@),
        r@.len() == 32,
{
    sha2::Sha256::digest(input.as_bytes()).to_vec()
}

/// Relies on base64's `URL_SAFE_NO_PAD` engine: the URL-safe alphabet,
/// six bits per character, most significant first, no padding.
#[verifier::external_body]
fn b64url_encode(bytes: &Vec<u8>) -> (r: String)
    ensures
        r@ == b64url_nopad_of(bytes@),
{
    base64::engine::general_purpose::URL_SAFE_NO_PAD.encode(bytes)
}

/// The code challenge: unpadded base64url of the verifier's SHA-256 digest.
pub open spec fn spec_challenge(verifier: Seq<char>) -> Seq<char> {
    b64url_nopad_of(sha256_of(verifier))
}

/// Derives the code challenge from a code verifier. The result is
/// always 43 characters from the base64url alphabet: it decodes as
/// valid base64url without padding.
pub fn generate_code_challenge(input: &str) -> (r: String)
    ensures
        r@ == spec_challenge(input@),
        r@.len() == 43,
        forall|i: int| 0 <= i < 43 ==> b64_alphabet_url().contains(#[trigger] r@[i]),
{
    let digest = sha256_utf8(input);
    proof {
        lemma_b64url_nopad_shape(digest@);
    }
    b64url_encode(&digest)
}

/// The challenge is a pure function of the verifier: equal verifiers
/// always derive equal challenges.
pub proof fn lemma_challenge_deterministic(v1: Seq<char>, v2: Seq<char>)
    requires
        v1 == v2,
    ensures
        spec_challenge(v1) == spec_challenge(v2),
{
}

} // verus!
