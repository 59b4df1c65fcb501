use winky::oauth::{
    callback_query, classify_payload, decode_payload_param, get_callback_url, is_running_as_admin,
    parse_request_path, payload_params, AuthDeepLinkPayload,
};

#[test]
fn callback_url_is_fixed() {
    assert_eq!(get_callback_url(), "http://127.0.0.1:17842/oauth/callback");
}

#[test]
fn no_elevation_reported() {
    assert!(!is_running_as_admin());
}

#[test]
fn request_path_of_get_request() {
    let req = "GET /oauth/callback?payload=x HTTP/1.1\r\nHost: 127.0.0.1\r\n\r\n";
    assert_eq!(parse_request_path(req).as_deref(), Some("/oauth/callback?payload=x"));
}

#[test]
fn request_path_rejects_other_methods_and_noise() {
    assert_eq!(parse_request_path("POST /x HTTP/1.1\r\n"), None);
    assert_eq!(parse_request_path(""), None);
    assert_eq!(parse_request_path("GET\r\n"), None);
    assert_eq!(parse_request_path("   \r\n"), None);
    // Extra spaces between the tokens are fine.
    assert_eq!(parse_request_path("GET   /a   HTTP/1.1"), Some("/a".to_string()));
}

#[test]
fn query_extraction() {
    assert_eq!(callback_query("/oauth/callback?a=1&b=2"), "a=1&b=2");
    assert_eq!(callback_query("/oauth/callback"), "");
    assert_eq!(callback_query("/x?"), "");
}

#[test]
fn payload_parameters_in_order() {
    assert_eq!(
        payload_params("payload=abc&x=1&payload=def"),
        vec!["abc".to_string(), "def".to_string()]
    );
    assert_eq!(payload_params("x=1&y=2"), Vec::<String>::new());
    assert_eq!(payload_params("payload"), Vec::<String>::new());
    assert_eq!(payload_params("payload="), vec!["".to_string()]);
}

#[test]
fn payload_decoding_last_wins() {
    // Percent-encoded JSON comes back decoded: the wrapper really decodes.
    let q = "payload=%7B%22app%22%3A%22winky%22%7D";
    assert_eq!(decode_payload_param(q).as_deref(), Some("{\"app\":\"winky\"}"));
    // The last payload parameter wins.
    let q2 = "payload=first&payload=second";
    assert_eq!(decode_payload_param(q2).as_deref(), Some("second"));
    assert_eq!(decode_payload_param("x=1"), None);
}

#[test]
fn classification_rejects_wrong_app() {
    let r = classify_payload(
        Some("google".to_string()),
        Some("other".to_string()),
        None,
        true,
        Some("tok".to_string()),
        None,
        None,
    );
    match r {
        Ok(AuthDeepLinkPayload::Error { provider, error }) => {
            assert_eq!(provider, "google");
            assert_eq!(error, "Invalid OAuth payload: wrong app");
        },
        other => panic!("expected a wrong-app error, got {:?}", other),
    }
}

#[test]
fn classification_prefers_explicit_error() {
    let r = classify_payload(
        None,
        Some("winky".to_string()),
        Some("denied".to_string()),
        true,
        Some("tok".to_string()),
        None,
        None,
    );
    match r {
        Ok(AuthDeepLinkPayload::Error { provider, error }) => {
            assert_eq!(provider, "unknown");
            assert_eq!(error, "denied");
        },
        other => panic!("expected the explicit error, got {:?}", other),
    }
}

#[test]
fn classification_ignores_blank_error() {
    let r = classify_payload(
        Some("github".to_string()),
        Some("winky".to_string()),
        Some("   ".to_string()),
        true,
        Some("tok".to_string()),
        Some("ref".to_string()),
        Some("{\"id\":1}".to_string()),
    );
    match r {
        Ok(AuthDeepLinkPayload::Success { provider, tokens, user }) => {
            assert_eq!(provider, "github");
            assert_eq!(tokens.access, "tok");
            assert_eq!(tokens.refresh.as_deref(), Some("ref"));
            assert_eq!(user.as_deref(), Some("{\"id\":1}"));
        },
        other => panic!("expected success, got {:?}", other),
    }
}

#[test]
fn classification_requires_tokens() {
    let r = classify_payload(
        Some("g".to_string()),
        Some("winky".to_string()),
        None,
        false,
        None,
        None,
        None,
    );
    assert_eq!(r.unwrap_err(), "Missing tokens");
    let r = classify_payload(
        Some("g".to_string()),
        Some("winky".to_string()),
        None,
        true,
        None,
        None,
        None,
    );
    assert_eq!(r.unwrap_err(), "Missing access token");
}
