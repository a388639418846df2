use reverse_proxy::reply::{bare_head, healthy, preflight, rejection, ProxyError};

#[test]
fn errors_have_their_statuses() {
    assert_eq!(ProxyError::UnknownService.status(), 404);
    assert_eq!(ProxyError::MalformedRequestUri.status(), 400);
    assert_eq!(ProxyError::BackendUnavailable.status(), 502);
    assert_eq!(ProxyError::BackendProtocolError.status(), 502);
}

#[test]
fn rejection_has_the_status_of_its_error_and_no_headers() {
    for error in [
        ProxyError::UnknownService,
        ProxyError::MalformedRequestUri,
        ProxyError::BackendUnavailable,
        ProxyError::BackendProtocolError,
    ] {
        let head = rejection(error);
        assert_eq!(head.status, error.status());
        assert!(head.headers.is_empty());
    }
}

#[test]
fn bare_head_has_no_headers() {
    let head = bare_head(418);
    assert_eq!(head.status, 418);
    assert!(head.headers.is_empty());
}

#[test]
fn healthy_is_a_plain_200() {
    let head = healthy();
    assert_eq!(head.status, 200);
    assert!(head.headers.is_empty());
}

#[test]
fn preflight_is_a_200_with_four_headers() {
    let head = preflight();
    assert_eq!(head.status, 200);
    assert_eq!(head.headers.len(), 4);
    assert_eq!(head.headers.get("access-control-allow-origin").unwrap(), "*");
    assert_eq!(head.headers.get("access-control-allow-credentials").unwrap(), "true");
    assert_eq!(
        head.headers.get("access-control-allow-methods").unwrap(),
        "PUT, GET, POST, DELETE, PATCH, OPTIONS"
    );
    assert_eq!(
        head.headers.get("access-control-allow-headers").unwrap(),
        "DNT,Keep-Alive,User-Agent,X-Requested-With,If-Modified-Since,Cache-Control,Content-Type,Range,Authorization,X-Api-Key,x-hasura-admin-secret,X-Sign"
    );
}
