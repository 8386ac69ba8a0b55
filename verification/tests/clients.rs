use openapi_client::client::{Client, OauthClient};
use openapi_client::error::{ApiError, ErrorKind};
use openapi_client::method::HttpMethod;

/// Tests successful creation of OAuth client with test credentials.
#[test]
fn test_oauth_client_creation() {
    let client = OauthClient::new("test_user", "test_key", true);
    assert!(client.is_ok());
}

/// Tests successful creation of API client with Bearer token.
#[test]
fn test_api_client_creation() {
    let client = Client::new("test_token".to_string());
    assert!(client.is_ok());
}

#[test]
fn oauth_client_picks_base_url_by_environment() {
    let prod = OauthClient::new("u", "k", false).unwrap();
    assert_eq!(prod.url, "https://oauth.openapi.it");
    let test = OauthClient::new("u", "k", true).unwrap();
    assert_eq!(test.url, "https://test.oauth.openapi.it");
}

#[test]
fn oauth_client_builds_basic_header() {
    // base64("test_user:test_key") with the standard alphabet and padding
    let client = OauthClient::new("test_user", "test_key", true).unwrap();
    assert_eq!(client.auth_header, "Basic dGVzdF91c2VyOnRlc3Rfa2V5");
}

#[test]
fn oauth_client_header_matches_base64_crate() {
    let client = OauthClient::new("someone", "secret", false).unwrap();
    let expected = format!("Basic {}", base64::encode("someone:secret"));
    assert_eq!(client.auth_header, expected);
}

#[test]
fn oauth_client_succeeds_on_control_characters_in_credentials() {
    // the credentials are base64-encoded, so construction always succeeds
    let client = OauthClient::new("a\nb", "c\u{7f}d", true);
    assert!(client.is_ok());
}

#[test]
fn api_client_builds_bearer_header() {
    let client = Client::new("tok-123".to_string()).unwrap();
    assert_eq!(client.auth_header, "Bearer tok-123");
}

#[test]
fn api_client_rejects_control_characters_in_token() {
    let client = Client::new("bad\ntoken".to_string());
    match client {
        Err(e) => assert!(matches!(e.kind(), ErrorKind::Configuration)),
        Ok(_) => panic!("a token with a control character must be rejected"),
    }
}

#[test]
fn api_client_accepts_tab_free_printable_token() {
    assert!(Client::new("abc DEF_123.~".to_string()).is_ok());
}

#[test]
fn request_rejects_unknown_verb() {
    let client = Client::new("tok".to_string()).unwrap();
    let r = client.request("FOO", "https://api.example.org/x", None, None);
    match r {
        Err(ApiError::InvalidMethod { method }) => assert_eq!(method, "FOO"),
        _ => panic!("an unrecognized verb must yield an InvalidMethod error"),
    }
}

#[test]
fn request_rejects_lowercase_verb() {
    let client = Client::new("tok".to_string()).unwrap();
    let r = client.request("get", "https://api.example.org/x", None, None);
    assert!(matches!(r, Err(ApiError::InvalidMethod { .. })));
}

#[test]
fn request_accepts_every_known_verb() {
    let client = Client::new("tok".to_string()).unwrap();
    let verbs = vec![
        ("GET", HttpMethod::Get),
        ("POST", HttpMethod::Post),
        ("PUT", HttpMethod::Put),
        ("DELETE", HttpMethod::Delete),
        ("HEAD", HttpMethod::Head),
        ("OPTIONS", HttpMethod::Options),
        ("CONNECT", HttpMethod::Connect),
        ("PATCH", HttpMethod::Patch),
        ("TRACE", HttpMethod::Trace),
    ];
    for (name, want) in verbs {
        let req = client.request(name, "https://api.example.org", None, None).unwrap();
        assert_eq!(req.method, want);
        assert_eq!(req.method.as_str(), name);
    }
}

#[test]
fn request_carries_url_payload_and_query() {
    let client = Client::new("tok".to_string()).unwrap();
    let params = vec![
        ("a".to_string(), "1".to_string()),
        ("b c".to_string(), "d/e".to_string()),
    ];
    let req = client
        .request(
            "POST",
            "https://api.example.org/path",
            Some("{\"x\":1}"),
            Some(&params),
        )
        .unwrap();
    assert_eq!(req.method, HttpMethod::Post);
    assert_eq!(req.url, "https://api.example.org/path?a=1&b+c=d%2Fe");
    assert_eq!(req.body.as_deref(), Some("{\"x\":1}"));
}

#[test]
fn request_appends_to_existing_query_with_ampersand() {
    let client = Client::new("tok".to_string()).unwrap();
    let params = vec![("k".to_string(), "v".to_string())];
    let req = client
        .request("GET", "https://api.example.org/p?x=1", None, Some(&params))
        .unwrap();
    assert_eq!(req.url, "https://api.example.org/p?x=1&k=v");
}

#[test]
fn request_leaves_url_alone_without_params() {
    let client = Client::new("tok".to_string()).unwrap();
    let req = client
        .request("GET", "https://api.example.org/p", None, None)
        .unwrap();
    assert_eq!(req.url, "https://api.example.org/p");
    assert!(req.body.is_none());
    let empty: Vec<(String, String)> = Vec::new();
    let req2 = client
        .request("GET", "https://api.example.org/p", None, Some(&empty))
        .unwrap();
    assert_eq!(req2.url, "https://api.example.org/p");
}

#[test]
fn get_scopes_renders_boolean_flag() {
    let client = OauthClient::new("u", "k", true).unwrap();
    let req = client.get_scopes(true);
    assert_eq!(req.method, HttpMethod::Get);
    assert_eq!(req.url, "https://test.oauth.openapi.it/scopes?limit=1");
    assert!(req.body.is_none());
    let req0 = client.get_scopes(false);
    assert_eq!(req0.url, "https://test.oauth.openapi.it/scopes?limit=0");
}

#[test]
fn create_token_builds_json_body() {
    let client = OauthClient::new("u", "k", true).unwrap();
    let scopes = vec!["GET:it.example/path".to_string()];
    let req = client.create_token(&scopes, 300);
    assert_eq!(req.method, HttpMethod::Post);
    assert_eq!(req.url, "https://test.oauth.openapi.it/token");
    assert_eq!(
        req.body.as_deref(),
        Some("{\"scopes\":[\"GET:it.example/path\"],\"ttl\":300}")
    );
}

#[test]
fn create_token_body_matches_serde_json() {
    let client = OauthClient::new("u", "k", false).unwrap();
    let scopes = vec!["a\"b\\c".to_string(), "tab\there".to_string()];
    let req = client.create_token(&scopes, 86400);
    let expected = format!(
        "{{\"scopes\":{},\"ttl\":86400}}",
        serde_json::to_string(&scopes).unwrap()
    );
    assert_eq!(req.body.as_deref(), Some(expected.as_str()));
}

#[test]
fn create_token_single_scope_literal_body() {
    let client = OauthClient::new("u", "k", true).unwrap();
    let scopes = vec!["scopes".to_string()];
    let req = client.create_token(&scopes, 60);
    assert_eq!(
        req.body.as_deref(),
        Some("{\"scopes\":[\"scopes\"],\"ttl\":60}")
    );
}

#[test]
fn create_token_with_no_scopes_and_zero_ttl() {
    let client = OauthClient::new("u", "k", true).unwrap();
    let scopes: Vec<String> = Vec::new();
    let req = client.create_token(&scopes, 0);
    assert_eq!(req.body.as_deref(), Some("{\"scopes\":[],\"ttl\":0}"));
}

#[test]
fn create_token_escapes_control_characters() {
    let client = OauthClient::new("u", "k", true).unwrap();
    let scopes = vec!["a\u{1}b".to_string()];
    let req = client.create_token(&scopes, 1);
    assert_eq!(
        req.body.as_deref(),
        Some("{\"scopes\":[\"a\\u0001b\"],\"ttl\":1}")
    );
}

#[test]
fn get_tokens_encodes_scope_filter() {
    let client = OauthClient::new("u", "k", true).unwrap();
    let req = client.get_tokens("GET:it.example/path");
    assert_eq!(req.method, HttpMethod::Get);
    assert_eq!(
        req.url,
        "https://test.oauth.openapi.it/token?scope=GET%3Ait.example%2Fpath"
    );
}

#[test]
fn delete_token_targets_path_with_id() {
    let client = OauthClient::new("u", "k", true).unwrap();
    let req = client.delete_token("abc".to_string());
    assert_eq!(req.method, HttpMethod::Delete);
    assert!(req.url.ends_with("/token/abc"));
    assert_eq!(req.url, "https://test.oauth.openapi.it/token/abc");
    assert!(req.body.is_none());
}

#[test]
fn get_counters_templates_period_and_date() {
    let client = OauthClient::new("u", "k", false).unwrap();
    let req = client.get_counters("day", "2024-01-31");
    assert_eq!(req.method, HttpMethod::Get);
    assert_eq!(req.url, "https://oauth.openapi.it/counters/day/2024-01-31");
}
