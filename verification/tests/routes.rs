use reverse_proxy::route::{classify, split_api, Route};
use reverse_proxy::table::port_of;

#[test]
fn table_holds_the_two_services() {
    assert_eq!(port_of("hasura-cache"), Some(80));
    assert_eq!(port_of("ugc-gateway"), Some(10000));
}

#[test]
fn table_holds_nothing_else() {
    assert_eq!(port_of("unknown-svc"), None);
    assert_eq!(port_of(""), None);
    assert_eq!(port_of("hasura"), None);
    assert_eq!(port_of("hasura-cache "), None);
    assert_eq!(port_of("ugc-gateway/"), None);
}

#[test]
fn table_names_are_case_sensitive() {
    assert_eq!(port_of("Hasura-Cache"), None);
    assert_eq!(port_of("UGC-GATEWAY"), None);
}

#[test]
fn split_api_takes_one_segment_as_the_service() {
    assert_eq!(split_api("/api/hasura-cache/foo"), Some(("hasura-cache", "foo")));
    assert_eq!(split_api("/api/a/b"), Some(("a", "b")));
}

#[test]
fn split_api_keeps_nested_slashes_in_the_rest() {
    assert_eq!(
        split_api("/api/ugc-gateway/upload/image"),
        Some(("ugc-gateway", "upload/image"))
    );
    assert_eq!(split_api("/api/svc//x//"), Some(("svc", "/x//")));
}

#[test]
fn split_api_accepts_an_empty_rest() {
    assert_eq!(split_api("/api/hasura-cache/"), Some(("hasura-cache", "")));
}

#[test]
fn split_api_refuses_paths_outside_the_grammar() {
    assert_eq!(split_api(""), None);
    assert_eq!(split_api("/"), None);
    assert_eq!(split_api("/api"), None);
    assert_eq!(split_api("/api/"), None);
    assert_eq!(split_api("/api/svc"), None);
    assert_eq!(split_api("/api//x"), None);
    assert_eq!(split_api("/api//"), None);
    assert_eq!(split_api("/API/svc/x"), None);
    assert_eq!(split_api("/apis/svc/x"), None);
    assert_eq!(split_api("api/svc/x"), None);
    assert_eq!(split_api("/healthz"), None);
    assert_eq!(split_api("/v1/api/svc/x"), None);
}

#[test]
fn split_api_handles_characters_of_several_bytes() {
    assert_eq!(split_api("/api/caf\u{e9}/men\u{fc}/x"), Some(("caf\u{e9}", "men\u{fc}/x")));
    assert_eq!(split_api("/\u{e4}pi/svc/x"), None);
    assert_eq!(split_api("/ap\u{ed}"), None);
}

#[test]
fn classify_knows_the_health_check() {
    assert!(matches!(classify("GET", "/healthz"), Route::Health));
}

#[test]
fn classify_serves_the_health_check_for_get_only() {
    assert!(matches!(classify("POST", "/healthz"), Route::Unmatched));
    assert!(matches!(classify("OPTIONS", "/healthz"), Route::Unmatched));
    assert!(matches!(classify("get", "/healthz"), Route::Unmatched));
    assert!(matches!(classify("GET", "/healthz/"), Route::Unmatched));
    assert!(matches!(classify("GET", "/healthz2"), Route::Unmatched));
}

#[test]
fn classify_takes_options_as_preflight() {
    assert!(matches!(classify("OPTIONS", "/api/hasura-cache/v1/graphql"), Route::Preflight));
    assert!(matches!(classify("OPTIONS", "/api/unknown-svc/x"), Route::Preflight));
    assert!(matches!(classify("OPTIONS", "/api/hasura-cache/"), Route::Preflight));
}

#[test]
fn classify_proxies_every_other_method() {
    for method in ["GET", "POST", "PUT", "DELETE", "PATCH", "HEAD", "options"] {
        match classify(method, "/api/ugc-gateway/upload/image") {
            Route::Proxy { service, rest } => {
                assert_eq!(service, "ugc-gateway");
                assert_eq!(rest, "upload/image");
            }
            other => panic!("{} gave {:?}", method, other),
        }
    }
}

#[test]
fn classify_leaves_the_rest_unmatched() {
    assert!(matches!(classify("GET", "/"), Route::Unmatched));
    assert!(matches!(classify("GET", ""), Route::Unmatched));
    assert!(matches!(classify("GET", "/api/svc"), Route::Unmatched));
    assert!(matches!(classify("OPTIONS", "/api/svc"), Route::Unmatched));
    assert!(matches!(classify("GET", "/api//x"), Route::Unmatched));
    assert!(matches!(classify("GET", "/other"), Route::Unmatched));
}
