use stardb_router::route::{
    route_request, CompressionConfig, ConnectionPolicy, RouteRule, RouteTarget, RouterConfig,
};

// A table with a TLS rule proxying a third-party asset host under the
// first-party origin, and a tuned connection policy on the default.
fn asset_proxy_table() -> RouterConfig {
    let tuned = ConnectionPolicy {
        idle_timeout_secs: Some(1),
        h2_ping_interval_secs: Some(1),
    };
    RouterConfig {
        rules: vec![RouteRule {
            prefix: String::from("/gtm.js"),
            rewrite: false,
            target: RouteTarget {
                host: String::from("www.googletagmanager.com"),
                port: 443,
                tls: true,
                sni: String::from("www.googletagmanager.com"),
                policy: ConnectionPolicy {
                    idle_timeout_secs: None,
                    h2_ping_interval_secs: None,
                },
            },
        }],
        default_target: RouteTarget {
            host: String::from("127.0.0.1"),
            port: 3000,
            tls: false,
            sni: String::new(),
            policy: tuned,
        },
        compression: CompressionConfig {
            level: 6,
            decompress_request: true,
        },
    }
}

#[test]
fn tls_rule_selects_external_host_with_sni() {
    let cfg = asset_proxy_table();
    let none: Vec<String> = Vec::new();
    let r = route_request(&cfg, "/gtm.js", &none);
    assert_eq!(r.peer.host, "www.googletagmanager.com");
    assert_eq!(r.peer.port, 443);
    assert!(r.peer.tls);
    assert_eq!(r.peer.sni, "www.googletagmanager.com");
    assert_eq!(r.forwarded_path, "/gtm.js");
}

#[test]
fn default_target_carries_its_connection_policy() {
    let cfg = asset_proxy_table();
    let none: Vec<String> = Vec::new();
    let r = route_request(&cfg, "/index.html", &none);
    assert_eq!(r.peer.port, 3000);
    assert_eq!(r.peer.policy.idle_timeout_secs, Some(1));
    assert_eq!(r.peer.policy.h2_ping_interval_secs, Some(1));
}
