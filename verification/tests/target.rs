use reverse_proxy::target::build_target;

#[test]
fn target_names_service_port_and_rest() {
    assert_eq!(build_target("hasura-cache", 80, "foo", None), "http://hasura-cache:80/foo");
    assert_eq!(
        build_target("ugc-gateway", 10000, "upload/image", None),
        "http://ugc-gateway:10000/upload/image"
    );
}

#[test]
fn target_keeps_the_query_once() {
    assert_eq!(
        build_target("hasura-cache", 80, "foo", Some("x=1&y=2")),
        "http://hasura-cache:80/foo?x=1&y=2"
    );
}

#[test]
fn target_keeps_an_empty_query() {
    assert_eq!(build_target("hasura-cache", 80, "foo", Some("")), "http://hasura-cache:80/foo?");
}

#[test]
fn target_of_an_empty_rest_is_the_root() {
    assert_eq!(build_target("hasura-cache", 80, "", None), "http://hasura-cache:80/");
    assert_eq!(build_target("hasura-cache", 80, "", Some("a=b")), "http://hasura-cache:80/?a=b");
}

#[test]
fn target_keeps_slashes_of_the_rest() {
    assert_eq!(build_target("svc", 1, "/x//", None), "http://svc:1//x//");
}

#[test]
fn target_keeps_a_question_mark_of_the_query() {
    assert_eq!(build_target("svc", 65535, "a", Some("b?c")), "http://svc:65535/a?b?c");
}
