use stardb_router::config::stardb_config;
use stardb_router::route::{build_peer, match_route, route_request};

fn no_cookies() -> Vec<String> {
    Vec::new()
}

#[test]
fn api_prefix_routes_to_api() {
    let cfg = stardb_config();
    let r = route_request(&cfg, "/api/users/5", &no_cookies());
    assert_eq!(r.peer.host, "127.0.0.1");
    assert_eq!(r.peer.port, 8000);
    assert!(!r.peer.tls);
    assert_eq!(r.peer.sni, "");
    assert_eq!(r.forwarded_path, "/api/users/5");
}

#[test]
fn api_exact_path_routes_to_api() {
    let cfg = stardb_config();
    let r = route_request(&cfg, "/api", &no_cookies());
    assert_eq!(r.peer.port, 8000);
    assert_eq!(r.forwarded_path, "/api");
}

#[test]
fn map_dir_routes_to_map_and_strips_prefix() {
    let cfg = stardb_config();
    let r = route_request(&cfg, "/wuwa/map/tiles/1", &no_cookies());
    assert_eq!(r.peer.host, "127.0.0.1");
    assert_eq!(r.peer.port, 8001);
    assert!(!r.peer.tls);
    assert_eq!(r.forwarded_path, "/tiles/1");
}

#[test]
fn map_exact_path_strips_to_empty() {
    let cfg = stardb_config();
    let r = route_request(&cfg, "/wuwa/map", &no_cookies());
    assert_eq!(r.peer.port, 8001);
    assert_eq!(r.forwarded_path, "");
}

#[test]
fn cms_prefix_routes_to_cms() {
    let cfg = stardb_config();
    let r = route_request(&cfg, "/cms/admin", &no_cookies());
    assert_eq!(r.peer.port, 2368);
    assert_eq!(r.forwarded_path, "/cms/admin");
}

#[test]
fn challenge_prefix_routes_to_challenge() {
    let cfg = stardb_config();
    let r = route_request(&cfg, "/challenge/new", &no_cookies());
    assert_eq!(r.peer.port, 3001);
    assert_eq!(r.forwarded_path, "/challenge/new");
}

#[test]
fn root_routes_to_frontend() {
    let cfg = stardb_config();
    let r = route_request(&cfg, "/", &no_cookies());
    assert_eq!(r.peer.host, "127.0.0.1");
    assert_eq!(r.peer.port, 3000);
    assert!(!r.peer.tls);
    assert_eq!(r.forwarded_path, "/");
}

#[test]
fn unmatched_prefix_routes_to_frontend() {
    let cfg = stardb_config();
    let r = route_request(&cfg, "/wuwa/other/page", &no_cookies());
    assert_eq!(r.peer.port, 3000);
    assert_eq!(r.forwarded_path, "/wuwa/other/page");
}

#[test]
fn overlapping_prefixes_specific_wins() {
    // `/wuwa/map/42` is inside both the map prefix and the catch-all
    // default; the more specific map rule must always win.
    let cfg = stardb_config();
    let r = route_request(&cfg, "/wuwa/map/42", &no_cookies());
    assert_eq!(r.peer.port, 8001);
    assert_ne!(r.peer.port, cfg.default_target.port);
}

#[test]
fn match_route_picks_first_matching_rule() {
    let cfg = stardb_config();
    assert_eq!(match_route(&cfg.rules, "/api/x"), Some(0));
    assert_eq!(match_route(&cfg.rules, "/wuwa/map/x"), Some(1));
    assert_eq!(match_route(&cfg.rules, "/cms"), Some(2));
    assert_eq!(match_route(&cfg.rules, "/challenge"), Some(3));
    assert_eq!(match_route(&cfg.rules, "/anything/else"), None);
}

#[test]
fn build_peer_copies_target() {
    let cfg = stardb_config();
    let p = build_peer(&cfg.default_target);
    assert_eq!(p.host, cfg.default_target.host);
    assert_eq!(p.port, cfg.default_target.port);
    assert_eq!(p.tls, cfg.default_target.tls);
    assert_eq!(p.sni, cfg.default_target.sni);
    assert_eq!(p.policy, cfg.default_target.policy);
}
