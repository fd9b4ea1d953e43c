use stardb_router::redirect::{redirect_location, redirect_response, MOVED_PERMANENTLY};

#[test]
fn redirect_keeps_path_and_query() {
    let r = redirect_response("stardb.gg", Some("/foo/bar?x=1"));
    assert_eq!(r.status, 301);
    assert_eq!(r.location, "https://stardb.gg/foo/bar?x=1");
}

#[test]
fn redirect_without_path_and_query_is_bare_origin() {
    let r = redirect_response("stardb.gg", None);
    assert_eq!(r.status, 301);
    assert_eq!(r.location, "https://stardb.gg");
}

#[test]
fn redirect_location_appends_suffix() {
    assert_eq!(
        redirect_location("example.org", Some("/a?b=c&d=e")),
        "https://example.org/a?b=c&d=e"
    );
    assert_eq!(redirect_location("example.org", None), "https://example.org");
}

#[test]
fn redirect_status_is_moved_permanently() {
    assert_eq!(MOVED_PERMANENTLY, 301);
}
