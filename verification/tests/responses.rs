use openapi_client::error::{classify_response, ApiError, ErrorKind};

#[test]
fn success_status_passes_body_through() {
    let r = classify_response(200, "{\"ok\":true}".to_string());
    assert_eq!(r.unwrap(), "{\"ok\":true}");
    let r204 = classify_response(204, String::new());
    assert!(r204.is_ok());
    let r299 = classify_response(299, "edge".to_string());
    assert_eq!(r299.unwrap(), "edge");
}

#[test]
fn client_error_status_is_distinguishable() {
    let r = classify_response(404, "not found".to_string());
    match r {
        Err(ApiError::Status { code, body }) => {
            assert_eq!(code, 404);
            assert_eq!(body, "not found");
        }
        _ => panic!("a 404 must yield a Status error, not a text payload"),
    }
}

#[test]
fn server_error_status_is_distinguishable() {
    let r = classify_response(503, "overloaded".to_string());
    match r {
        Err(e) => assert!(matches!(e.kind(), ErrorKind::Server)),
        Ok(_) => panic!("a 503 must yield an error"),
    }
}

#[test]
fn redirect_status_is_not_success() {
    let r = classify_response(301, "moved".to_string());
    match r {
        Err(e) => assert!(matches!(e.kind(), ErrorKind::Http)),
        Ok(_) => panic!("a 301 must not count as success"),
    }
}

#[test]
fn boundary_statuses_classify_exactly() {
    assert!(classify_response(199, String::new()).is_err());
    assert!(classify_response(200, String::new()).is_ok());
    assert!(classify_response(299, String::new()).is_ok());
    assert!(classify_response(300, String::new()).is_err());
}

#[test]
fn error_kinds_cover_the_taxonomy() {
    let config = ApiError::Config { detail: "bad header".to_string() };
    assert!(matches!(config.kind(), ErrorKind::Configuration));
    let method = ApiError::InvalidMethod { method: "FOO".to_string() };
    assert!(matches!(method.kind(), ErrorKind::Method));
    let transport = ApiError::Transport { detail: "timed out".to_string() };
    assert!(matches!(transport.kind(), ErrorKind::Network));
    let client = ApiError::Status { code: 400, body: String::new() };
    assert!(matches!(client.kind(), ErrorKind::Client));
    let server = ApiError::Status { code: 500, body: String::new() };
    assert!(matches!(server.kind(), ErrorKind::Server));
}
