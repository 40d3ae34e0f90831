use pkce_flow::builder::build_authorization_url;
use pkce_flow::challenge::generate_code_challenge;
use pkce_flow::constants::{auth_url, scope, token_url};
use pkce_flow::errors::AuthError;
use pkce_flow::random::{generate_code_verifier, generate_random_string, generate_state_token};
use pkce_flow::token::{basic_auth_header, build_body, build_refresh_body};

const UNRESERVED: &str =
    "ABCDEFGHIJKLMNOPQRSTUVWXYZabcdefghijklmnopqrstuvwxyz0123456789-._~";

#[test]
fn test_generate_code_challenge() {
    let code_verifier = "some_code_verifier";
    let challenge = generate_code_challenge(code_verifier);
    assert!(!challenge.is_empty(), "Code challenge should not be empty");
}

#[test]
fn test_generate_code_verifier() {
    let length = 128;
    let verifier = generate_code_verifier(length).unwrap();
    assert_eq!(
        verifier.len(),
        length,
        "Code verifier length should match the specified length"
    );
}

#[test]
fn test_get_auth_url() {
    let scopes = vec!["read".to_string()];
    let challenge = generate_code_challenge("some_code_verifier");
    let result = build_authorization_url("abc", "https://app/cb", &scopes, &challenge, "st1");
    assert!(result.is_ok(), "Should return Ok");
    let url = result.unwrap();
    assert!(
        url.contains("https://accounts.spotify.com/authorize"),
        "URL should contain the authorization endpoint"
    );
}

#[test]
fn challenge_exact_value() {
    assert_eq!(
        generate_code_challenge("some_code_verifier"),
        "IJfwI5tPCyZu46ar4muALj4WEZc8CkXovhNt3BAl4zE"
    );
    assert_eq!(
        generate_code_challenge("test"),
        "n4bQgYhMfWWaL-qgxVrQFaO_TxsrC4Is0V1sFbDwCgg"
    );
}

#[test]
fn challenge_deterministic_and_base64url() {
    let c1 = generate_code_challenge("abc");
    let c2 = generate_code_challenge("abc");
    assert_eq!(c1, c2);
    let c3 = generate_code_challenge("abd");
    assert_ne!(c1, c3);
    assert_eq!(c1.len(), 43);
    let decoded = base64::Engine::decode(&base64::engine::general_purpose::URL_SAFE_NO_PAD, &c1)
        .expect("challenge must decode as unpadded base64url");
    assert_eq!(decoded.len(), 32);
}

#[test]
fn verifier_lengths_and_charset() {
    for length in [43usize, 77, 128] {
        let v = generate_code_verifier(length).unwrap();
        assert_eq!(v.len(), length);
        assert!(v.chars().all(|c| UNRESERVED.contains(c)));
    }
    assert_eq!(generate_code_verifier(42), Err(AuthError::InvalidLength));
    assert_eq!(generate_code_verifier(129), Err(AuthError::InvalidLength));
    assert_eq!(generate_code_verifier(0), Err(AuthError::InvalidLength));
}

#[test]
fn random_string_is_alphanumeric() {
    let cs = generate_random_string(64);
    assert_eq!(cs.len(), 64);
    assert!(cs.iter().all(|c| c.is_ascii_alphanumeric()));
}

#[test]
fn state_tokens_drawn_fresh() {
    let t1 = generate_state_token();
    let t2 = generate_state_token();
    assert_eq!(t1.len(), 32);
    assert_eq!(t2.len(), 32);
    assert!(t1.chars().all(|c| UNRESERVED.contains(c)));
    assert_ne!(t1, t2);
}

#[test]
fn constants_values() {
    assert_eq!(auth_url(), "https://accounts.spotify.com/authorize");
    assert_eq!(token_url(), "https://accounts.spotify.com/api/token");
    assert!(scope().starts_with("user-modify-playback-state "));
    assert!(scope().ends_with("user-library-read"));
}

#[test]
fn authorization_url_layout() {
    let scopes = vec!["read".to_string(), "write all".to_string()];
    let url = build_authorization_url("abc", "https://app/cb", &scopes, "CH", "ST").unwrap();
    assert_eq!(
        url,
        "https://accounts.spotify.com/authorize?client_id=abc&response_type=code\
         &redirect_uri=https%3A%2F%2Fapp%2Fcb&code_challenge_method=S256\
         &code_challenge=CH&scope=read+write+all&state=ST"
    );
    assert!(url.contains("client_id=abc&response_type=code"));
    assert!(url.contains("code_challenge_method=S256"));
}

#[test]
fn authorization_url_rejects_empty_config() {
    let scopes = vec!["read".to_string()];
    assert_eq!(
        build_authorization_url("", "https://app/cb", &scopes, "CH", "ST"),
        Err(AuthError::ConfigError)
    );
    assert_eq!(
        build_authorization_url("abc", "", &scopes, "CH", "ST"),
        Err(AuthError::ConfigError)
    );
}

#[test]
fn exchange_body_layout() {
    assert_eq!(
        build_body("XYZ", "ver ifier", "https://app/cb"),
        "grant_type=authorization_code&code=XYZ\
         &redirect_uri=https%3A%2F%2Fapp%2Fcb&code_verifier=ver+ifier"
    );
}

#[test]
fn refresh_body_layout() {
    assert_eq!(
        build_refresh_body("RT1"),
        "grant_type=refresh_token&refresh_token=RT1"
    );
}

#[test]
fn basic_auth_header_value() {
    assert_eq!(basic_auth_header("id", "secret"), "Basic aWQ6c2VjcmV0");
    // Lengths that need one and two padding characters.
    assert_eq!(basic_auth_header("ab", "c"), "Basic YWI6Yw==");
    assert_eq!(basic_auth_header("a", "bcd"), "Basic YTpiY2Q=");
    assert_eq!(basic_auth_header("id", "sec"), "Basic aWQ6c2Vj");
}
