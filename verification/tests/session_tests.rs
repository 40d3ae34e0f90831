use pkce_flow::errors::AuthError;
use pkce_flow::json::parse_token_response;
use pkce_flow::session::{SessionPhase, SessionStore, EXPIRY_WINDOW_SECS};

fn scopes() -> Vec<String> {
    vec!["read".to_string()]
}

/// Decodes one form-urlencoded value, as the provider would.
fn form_decode(s: &str) -> String {
    let bytes = s.as_bytes();
    let mut out: Vec<u8> = Vec::new();
    let mut i = 0;
    while i < bytes.len() {
        match bytes[i] {
            b'+' => {
                out.push(b' ');
                i += 1;
            }
            b'%' => {
                let hex = std::str::from_utf8(&bytes[i + 1..i + 3]).unwrap();
                out.push(u8::from_str_radix(hex, 16).unwrap());
                i += 3;
            }
            b => {
                out.push(b);
                i += 1;
            }
        }
    }
    String::from_utf8(out).unwrap()
}

#[test]
fn end_to_end_flow() {
    let mut store = SessionStore::new();
    let flow = store
        .start_flow("abc", "https://app/cb", &scopes(), 64, 1000)
        .unwrap();
    assert!(flow.url.contains("client_id=abc&response_type=code"));
    assert!(flow.url.contains("code_challenge_method=S256"));
    let state_param = flow.url.split("&state=").nth(1).unwrap().to_string();
    assert_eq!(form_decode(&state_param), flow.state_token);
    assert_eq!(store.phase_of(&flow.state_token), Some(SessionPhase::AwaitingCode));

    let body = store
        .submit_authorization_result("XYZ", &flow.state_token, "https://app/cb", 1010)
        .unwrap();
    assert!(body.starts_with("grant_type=authorization_code&code=XYZ"));
    assert!(body.contains("code_verifier="));
    assert_eq!(store.phase_of(&flow.state_token), Some(SessionPhase::Exchanging));

    let pair = store
        .submit_token_response(
            &flow.state_token,
            200,
            "{\"access_token\":\"AT1\",\"refresh_token\":\"RT1\",\"expires_in\":3600}",
            1020,
        )
        .unwrap();
    assert_eq!(pair.access_token, "AT1");
    assert_eq!(pair.refresh_token, "RT1");
    assert_eq!(pair.expires_at, 1020 + 3600);
    assert_eq!(store.phase_of(&flow.state_token), Some(SessionPhase::Authenticated));
    let held = store.token_pair(&flow.state_token).unwrap();
    assert_eq!(held.access_token, "AT1");
    assert_eq!(held.refresh_token, "RT1");
}

#[test]
fn round_trip_verifier_matches_challenge() {
    // The provider re-derives the challenge from the verifier in the
    // exchange body; it must match the challenge the URL carried.
    let mut store = SessionStore::new();
    let flow = store
        .start_flow("abc", "https://app/cb", &scopes(), 43, 0)
        .unwrap();
    let challenge_param = flow
        .url
        .split("code_challenge=")
        .nth(1)
        .unwrap()
        .split('&')
        .next()
        .unwrap()
        .to_string();
    let body = store
        .submit_authorization_result("XYZ", &flow.state_token, "https://app/cb", 1)
        .unwrap();
    let verifier_param = body
        .split("code_verifier=")
        .nth(1)
        .unwrap()
        .split('&')
        .next()
        .unwrap()
        .to_string();
    let verifier = form_decode(&verifier_param);
    let rederived = pkce_flow::challenge::generate_code_challenge(&verifier);
    assert_eq!(rederived, form_decode(&challenge_param));
}

#[test]
fn refresh_rotates_and_retains_tokens() {
    let mut store = SessionStore::new();
    let flow = store
        .start_flow("abc", "https://app/cb", &scopes(), 64, 0)
        .unwrap();
    store
        .submit_authorization_result("XYZ", &flow.state_token, "https://app/cb", 1)
        .unwrap();
    store
        .submit_token_response(
            &flow.state_token,
            200,
            "{\"access_token\":\"AT1\",\"refresh_token\":\"RT1\",\"expires_in\":3600}",
            2,
        )
        .unwrap();

    let body = store.refresh_request(&flow.state_token).unwrap();
    assert_eq!(body, "grant_type=refresh_token&refresh_token=RT1");
    assert_eq!(store.phase_of(&flow.state_token), Some(SessionPhase::Refreshing));

    // The provider answers without a new refresh token: RT1 is retained.
    let pair = store
        .submit_refresh_response(
            &flow.state_token,
            200,
            "{\"access_token\":\"AT2\",\"expires_in\":3600}",
            5000,
        )
        .unwrap();
    assert_eq!(pair.access_token, "AT2");
    assert_eq!(pair.refresh_token, "RT1");
    assert_eq!(pair.expires_at, 5000 + 3600);
    assert_eq!(store.phase_of(&flow.state_token), Some(SessionPhase::Authenticated));
}

#[test]
fn csrf_unknown_state_rejected() {
    let mut store = SessionStore::new();
    store
        .start_flow("abc", "https://app/cb", &scopes(), 64, 0)
        .unwrap();
    let r = store.submit_authorization_result("XYZ", "no-such-token", "https://app/cb", 1);
    assert_eq!(r, Err(AuthError::SessionNotFound));
    assert!(store.token_pair("no-such-token").is_none());
}

#[test]
fn expiry_window_enforced() {
    let mut store = SessionStore::new();
    let flow = store
        .start_flow("abc", "https://app/cb", &scopes(), 64, 1000)
        .unwrap();
    let r = store.submit_authorization_result(
        "XYZ",
        &flow.state_token,
        "https://app/cb",
        1000 + EXPIRY_WINDOW_SECS,
    );
    assert_eq!(r, Err(AuthError::SessionExpired));
    assert_eq!(store.phase_of(&flow.state_token), Some(SessionPhase::Expired));
    // Any further submission for that token keeps failing.
    let r2 = store.submit_authorization_result("XYZ", &flow.state_token, "https://app/cb", 1);
    assert_eq!(r2, Err(AuthError::SessionExpired));
}

#[test]
fn sweep_marks_expired_sessions() {
    let mut store = SessionStore::new();
    let f1 = store
        .start_flow("abc", "https://app/cb", &scopes(), 64, 0)
        .unwrap();
    let f2 = store
        .start_flow("abc", "https://app/cb", &scopes(), 64, 500)
        .unwrap();
    store.sweep_expired(EXPIRY_WINDOW_SECS);
    assert_eq!(store.phase_of(&f1.state_token), Some(SessionPhase::Expired));
    assert_eq!(store.phase_of(&f2.state_token), Some(SessionPhase::AwaitingCode));
}

#[test]
fn state_collision_rejected_not_overwritten() {
    let mut store = SessionStore::new();
    let verifier = "V".repeat(43);
    store
        .start_flow_with("abc", "https://app/cb", &scopes(), &verifier, "SAME", 0)
        .unwrap();
    let r = store.start_flow_with("abc", "https://app/cb", &scopes(), &verifier, "SAME", 1);
    assert_eq!(r, Err(AuthError::StateCollision));
    assert_eq!(store.len(), 1);
    assert_eq!(store.phase_of("SAME"), Some(SessionPhase::AwaitingCode));
}

#[test]
fn start_flow_with_validates_inputs() {
    let mut store = SessionStore::new();
    let short = "V".repeat(42);
    assert_eq!(
        store.start_flow_with("abc", "https://app/cb", &scopes(), &short, "S1", 0),
        Err(AuthError::InvalidLength)
    );
    let ok_len = "V".repeat(43);
    assert_eq!(
        store.start_flow_with("", "https://app/cb", &scopes(), &ok_len, "S1", 0),
        Err(AuthError::ConfigError)
    );
    assert_eq!(store.len(), 0);
}

#[test]
fn busy_session_rejects_second_operation() {
    let mut store = SessionStore::new();
    let flow = store
        .start_flow("abc", "https://app/cb", &scopes(), 64, 0)
        .unwrap();
    store
        .submit_authorization_result("XYZ", &flow.state_token, "https://app/cb", 1)
        .unwrap();
    let r = store.submit_authorization_result("XYZ", &flow.state_token, "https://app/cb", 2);
    assert_eq!(r, Err(AuthError::SessionBusy));
    // A refresh cannot start while the exchange is in flight either.
    assert_eq!(store.refresh_request(&flow.state_token), Err(AuthError::SessionBusy));
}

#[test]
fn provider_rejection_fails_session() {
    let mut store = SessionStore::new();
    let flow = store
        .start_flow("abc", "https://app/cb", &scopes(), 64, 0)
        .unwrap();
    store
        .submit_authorization_result("XYZ", &flow.state_token, "https://app/cb", 1)
        .unwrap();
    let r = store.submit_token_response(&flow.state_token, 400, "{\"error\":\"invalid_grant\"}", 2);
    assert_eq!(r, Err(AuthError::ExchangeRejected));
    assert_eq!(store.phase_of(&flow.state_token), Some(SessionPhase::Failed));
}

#[test]
fn transient_failure_allows_retry() {
    let mut store = SessionStore::new();
    let flow = store
        .start_flow("abc", "https://app/cb", &scopes(), 64, 0)
        .unwrap();
    store
        .submit_authorization_result("XYZ", &flow.state_token, "https://app/cb", 1)
        .unwrap();
    let r = store.submit_token_response(&flow.state_token, 503, "", 2);
    assert_eq!(r, Err(AuthError::NetworkError));
    assert_eq!(store.phase_of(&flow.state_token), Some(SessionPhase::AwaitingCode));
    // The caller may retry the submission.
    let body = store.submit_authorization_result("XYZ", &flow.state_token, "https://app/cb", 3);
    assert!(body.is_ok());
}

#[test]
fn malformed_response_fails_session() {
    let mut store = SessionStore::new();
    let flow = store
        .start_flow("abc", "https://app/cb", &scopes(), 64, 0)
        .unwrap();
    store
        .submit_authorization_result("XYZ", &flow.state_token, "https://app/cb", 1)
        .unwrap();
    // A 2xx body missing the refresh token is malformed for an exchange.
    let r = store.submit_token_response(
        &flow.state_token,
        200,
        "{\"access_token\":\"AT1\",\"expires_in\":3600}",
        2,
    );
    assert_eq!(r, Err(AuthError::MalformedResponse));
    assert_eq!(store.phase_of(&flow.state_token), Some(SessionPhase::Failed));
}

#[test]
fn refresh_rejection_fails_session() {
    let mut store = SessionStore::new();
    let flow = store
        .start_flow("abc", "https://app/cb", &scopes(), 64, 0)
        .unwrap();
    store
        .submit_authorization_result("XYZ", &flow.state_token, "https://app/cb", 1)
        .unwrap();
    store
        .submit_token_response(
            &flow.state_token,
            200,
            "{\"access_token\":\"AT1\",\"refresh_token\":\"RT1\",\"expires_in\":3600}",
            2,
        )
        .unwrap();
    store.refresh_request(&flow.state_token).unwrap();
    let r = store.submit_refresh_response(&flow.state_token, 400, "", 3);
    assert_eq!(r, Err(AuthError::RefreshRejected));
    assert_eq!(store.phase_of(&flow.state_token), Some(SessionPhase::Failed));
}

#[test]
fn cancel_reverts_in_flight_operations() {
    let mut store = SessionStore::new();
    let flow = store
        .start_flow("abc", "https://app/cb", &scopes(), 64, 0)
        .unwrap();
    store
        .submit_authorization_result("XYZ", &flow.state_token, "https://app/cb", 1)
        .unwrap();
    store.cancel(&flow.state_token).unwrap();
    assert_eq!(store.phase_of(&flow.state_token), Some(SessionPhase::AwaitingCode));
    store
        .submit_authorization_result("XYZ", &flow.state_token, "https://app/cb", 2)
        .unwrap();
    store
        .submit_token_response(
            &flow.state_token,
            200,
            "{\"access_token\":\"AT1\",\"refresh_token\":\"RT1\",\"expires_in\":3600}",
            3,
        )
        .unwrap();
    store.refresh_request(&flow.state_token).unwrap();
    store.cancel(&flow.state_token).unwrap();
    assert_eq!(store.phase_of(&flow.state_token), Some(SessionPhase::Authenticated));
    assert_eq!(store.token_pair(&flow.state_token).unwrap().access_token, "AT1");
}

#[test]
fn cancel_needs_an_operation_in_flight() {
    let mut store = SessionStore::new();
    assert_eq!(store.cancel("nope"), Err(AuthError::SessionNotFound));
    let flow = store
        .start_flow("abc", "https://app/cb", &scopes(), 64, 0)
        .unwrap();
    assert_eq!(store.cancel(&flow.state_token), Err(AuthError::SessionBusy));
}

#[test]
fn start_flow_validates_length() {
    let mut store = SessionStore::new();
    assert!(matches!(
        store.start_flow("abc", "https://app/cb", &scopes(), 42, 0),
        Err(AuthError::InvalidLength)
    ));
    assert!(matches!(
        store.start_flow("", "https://app/cb", &scopes(), 64, 0),
        Err(AuthError::ConfigError)
    ));
    assert_eq!(store.len(), 0);
}

#[test]
fn parser_accepts_and_rejects() {
    let t = parse_token_response(
        " { \"token_type\" : \"Bearer\" , \"access_token\" : \"A\" , \"expires_in\" : 7 } ",
    )
    .unwrap();
    assert_eq!(t.access_token, "A");
    assert_eq!(t.refresh_token, None);
    assert_eq!(t.expires_in, 7);

    assert!(parse_token_response("").is_none());
    assert!(parse_token_response("{}").is_none());
    assert!(parse_token_response("{\"expires_in\":7}").is_none());
    assert!(parse_token_response("{\"access_token\":\"A\"}").is_none());
    assert!(parse_token_response("{\"access_token\":7,\"expires_in\":7}").is_none());
    assert!(parse_token_response("{\"access_token\":\"A\",\"expires_in\":\"x\"}").is_none());
    assert!(parse_token_response("{\"access_token\":\"A\",\"expires_in\":7} trailing").is_none());
    assert!(
        parse_token_response("{\"access_token\":\"a\\nb\",\"expires_in\":7}").is_none(),
        "escape sequences are not accepted in the extracted fields"
    );
    assert!(
        parse_token_response("{\"access_token\":\"A\",\"expires_in\":99999999999999999999}")
            .is_none(),
        "expires_in must fit in 64 bits"
    );
}

#[test]
fn parser_skips_ignored_members_of_any_shape() {
    // Booleans, null, a signed float with an exponent, an escaped
    // string, a nested object and a nested array are all skipped.
    let t = parse_token_response(
        "{\"interactive\":true,\"revoked\":false,\"device\":null,\
         \"drift\":-1.25e-3,\"note\":\"a\\\"quoted\\\\piece\",\
         \"meta\":{\"ids\":[1,2.5,true],\"inner\":{}},\"tags\":[],\
         \"access_token\":\"AT\",\"expires_in\":60,\"refresh_token\":\"RT\"}",
    )
    .unwrap();
    assert_eq!(t.access_token, "AT");
    assert_eq!(t.refresh_token.as_deref(), Some("RT"));
    assert_eq!(t.expires_in, 60);

    // A key holding escapes never matches a known name and is skipped.
    let t2 = parse_token_response(
        "{\"acc\\u0065ss_token\":\"decoy\",\"access_token\":\"AT\",\"expires_in\":9}",
    )
    .unwrap();
    assert_eq!(t2.access_token, "AT");

    // Structural errors in ignored members are still rejected.
    assert!(parse_token_response(
        "{\"meta\":{\"open\":[1,2},\"access_token\":\"A\",\"expires_in\":7}"
    )
    .is_none());
    assert!(parse_token_response("{\"x\":truthy,\"access_token\":\"A\",\"expires_in\":7}")
        .is_none());
    assert!(parse_token_response("{\"x\":1.,\"access_token\":\"A\",\"expires_in\":7}").is_none());
}
