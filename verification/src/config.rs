//! The canonical routing table of the stardb edge proxy, and the routing
//! laws it obeys.
//!
//! Four prefix rules stand in front of a catch-all default: the API, the
//! map-tile service (whose prefix is stripped from the forwarded path),
//! the CMS, and the challenge service; everything else goes to the web
//! frontend.  All five are plaintext loopback backends.

use crate::route::{
    lemma_matched_index_first, lemma_matched_index_none, matched_index, rule_matches,
    forwarded_path_for, selected_target, CompressionConfig, ConnectionPolicy, RouteRule,
    RouteTarget, RouterConfig,
};
use vstd::prelude::*;
use vstd::string::StringExecFns;

verus! {

/// The prefix routed to the API backend.
pub open spec fn api_prefix() -> Seq<char> {
    seq!['/', 'a', 'p', 'i']
}

/// The prefix routed to the map backend (stripped before forwarding).
pub open spec fn map_prefix() -> Seq<char> {
    seq!['/', 'w', 'u', 'w', 'a', '/', 'm', 'a', 'p']
}

/// The map prefix followed by a path separator, as it appears in a
/// request for something inside the map service.
pub open spec fn map_dir_prefix() -> Seq<char> {
    map_prefix() + seq!['/']
}

/// The prefix routed to the CMS backend.
pub open spec fn cms_prefix() -> Seq<char> {
    seq!['/', 'c', 'm', 's']
}

/// The prefix routed to the challenge backend.
pub open spec fn challenge_prefix() -> Seq<char> {
    seq!['/', 'c', 'h', 'a', 'l', 'l', 'e', 'n', 'g', 'e']
}

/// A connection policy that leaves every knob at the forwarding engine's
/// default: no idle timeout override, no keep-alive ping.
pub open spec fn default_policy() -> ConnectionPolicy {
    ConnectionPolicy { idle_timeout_secs: None, h2_ping_interval_secs: None }
}

/// The shape of the canonical table: the four prefix rules in their
/// priority order, only the map rule rewriting.
pub open spec fn is_canonical_table(cfg: RouterConfig) -> bool {
    &&& cfg.rules@.len() == 4
    &&& cfg.rules@[0].prefix@ == api_prefix()
    &&& !cfg.rules@[0].rewrite
    &&& cfg.rules@[1].prefix@ == map_prefix()
    &&& cfg.rules@[1].rewrite
    &&& cfg.rules@[2].prefix@ == cms_prefix()
    &&& !cfg.rules@[2].rewrite
    &&& cfg.rules@[3].prefix@ == challenge_prefix()
    &&& !cfg.rules@[3].rewrite
}

/// A plaintext loopback target on the given port, with default policy.
fn local_target(port: u16) -> (t: RouteTarget)
    ensures
        t.host@ == "127.0.0.1"@,
        t.port == port,
        !t.tls,
        t.sni@ == ""@,
        t.policy == default_policy(),
{
    proof {
        reveal_strlit("");
    }
    RouteTarget {
        host: String::from_str("127.0.0.1"),
        port,
        tls: false,
        sni: String::new(),
        policy: ConnectionPolicy { idle_timeout_secs: None, h2_ping_interval_secs: None },
    }
}

/// Builds the canonical configuration: `/api` to port 8000, `/wuwa/map`
/// (stripped) to 8001, `/cms` to 2368, `/challenge` to 3001, everything
/// else to the frontend on 3000; compression level 6 with request-body
/// decompression on every route.
pub fn stardb_config() -> (cfg: RouterConfig)
    ensures
        is_canonical_table(cfg),
        cfg.rules@[0].target.host@ == "127.0.0.1"@,
        cfg.rules@[0].target.port == 8000,
        !cfg.rules@[0].target.tls,
        cfg.rules@[0].target.sni@ == ""@,
        cfg.rules@[0].target.policy == default_policy(),
        cfg.rules@[1].target.host@ == "127.0.0.1"@,
        cfg.rules@[1].target.port == 8001,
        !cfg.rules@[1].target.tls,
        cfg.rules@[1].target.sni@ == ""@,
        cfg.rules@[1].target.policy == default_policy(),
        cfg.rules@[2].target.host@ == "127.0.0.1"@,
        cfg.rules@[2].target.port == 2368,
        !cfg.rules@[2].target.tls,
        cfg.rules@[2].target.sni@ == ""@,
        cfg.rules@[2].target.policy == default_policy(),
        cfg.rules@[3].target.host@ == "127.0.0.1"@,
        cfg.rules@[3].target.port == 3001,
        !cfg.rules@[3].target.tls,
        cfg.rules@[3].target.sni@ == ""@,
        cfg.rules@[3].target.policy == default_policy(),
        cfg.default_target.host@ == "127.0.0.1"@,
        cfg.default_target.port == 3000,
        !cfg.default_target.tls,
        cfg.default_target.sni@ == ""@,
        cfg.default_target.policy == default_policy(),
        cfg.compression.level == 6,
        cfg.compression.decompress_request,
{
    proof {
        reveal_strlit("/api");
        reveal_strlit("/wuwa/map");
        reveal_strlit("/cms");
        reveal_strlit("/challenge");
        assert("/api"@ =~= api_prefix());
        assert("/wuwa/map"@ =~= map_prefix());
        assert("/cms"@ =~= cms_prefix());
        assert("/challenge"@ =~= challenge_prefix());
    }
    let mut rules: Vec<RouteRule> = Vec::new();
    rules.push(
        RouteRule { prefix: String::from_str("/api"), rewrite: false, target: local_target(8000) },
    );
    rules.push(
        RouteRule {
            prefix: String::from_str("/wuwa/map"),
            rewrite: true,
            target: local_target(8001),
        },
    );
    rules.push(
        RouteRule { prefix: String::from_str("/cms"), rewrite: false, target: local_target(2368) },
    );
    rules.push(
        RouteRule {
            prefix: String::from_str("/challenge"),
            rewrite: false,
            target: local_target(3001),
        },
    );
    RouterConfig {
        rules,
        default_target: local_target(3000),
        compression: CompressionConfig { level: 6, decompress_request: true },
    }
}

/// Every request whose path starts with `/api` is sent to the API
/// backend — the first rule's target — whatever else the request carries.
pub proof fn lemma_api_prefix_selects_api(cfg: RouterConfig, path: Seq<char>)
    requires
        is_canonical_table(cfg),
        api_prefix().is_prefix_of(path),
    ensures
        matched_index(cfg.rules@, path) == Some(0int),
        selected_target(cfg, path) == cfg.rules@[0].target,
{
    lemma_matched_index_first(cfg.rules@, path, 0);
}

/// A specific prefix always beats the catch-all default: every request
/// whose path starts with `/wuwa/map` selects the map rule's target,
/// never the default frontend.
pub proof fn lemma_map_prefix_selects_map(cfg: RouterConfig, path: Seq<char>)
    requires
        is_canonical_table(cfg),
        map_prefix().is_prefix_of(path),
    ensures
        matched_index(cfg.rules@, path) == Some(1int),
        selected_target(cfg, path) == cfg.rules@[1].target,
{
    assert(path.subrange(0, 9) == map_prefix());
    assert(path[1] == 'w') by {
        assert(path.subrange(0, 9)[1] == path[1]);
    }
    assert(!rule_matches(cfg.rules@[0], path)) by {
        if api_prefix().is_prefix_of(path) {
            assert(path.subrange(0, 4)[1] == path[1]);
        }
    }
    lemma_matched_index_first(cfg.rules@, path, 1);
}

/// Every request for something inside the map service — a path starting
/// with `/wuwa/map/` — is sent to the map backend, and the forwarded path
/// is the original with the `/wuwa/map` prefix removed: putting the
/// prefix back in front of the forwarded path gives the original back.
pub proof fn lemma_map_dir_routes_and_rewrites(cfg: RouterConfig, path: Seq<char>)
    requires
        is_canonical_table(cfg),
        map_dir_prefix().is_prefix_of(path),
    ensures
        matched_index(cfg.rules@, path) == Some(1int),
        selected_target(cfg, path) == cfg.rules@[1].target,
        forwarded_path_for(cfg, path) == path.skip(map_prefix().len() as int),
        map_prefix() + forwarded_path_for(cfg, path) == path,
{
    assert(path.subrange(0, 10) == map_dir_prefix());
    assert(map_prefix().is_prefix_of(path)) by {
        assert(path.subrange(0, 9) =~= map_prefix()) by {
            assert(forall|j: int|
                0 <= j < 9 ==> path.subrange(0, 9)[j] == #[trigger] path.subrange(0, 10)[j]);
        }
    }
    lemma_map_prefix_selects_map(cfg, path);
    assert(map_prefix() + path.skip(9) =~= path) by {
        assert(forall|j: int| 0 <= j < 9 ==> #[trigger] path.subrange(0, 9)[j] == path[j]);
    }
}

/// A request whose path starts with none of the four prefixes matches no
/// rule and is sent to the default frontend target, its path unchanged.
pub proof fn lemma_default_route(cfg: RouterConfig, path: Seq<char>)
    requires
        is_canonical_table(cfg),
        !api_prefix().is_prefix_of(path),
        !map_prefix().is_prefix_of(path),
        !cms_prefix().is_prefix_of(path),
        !challenge_prefix().is_prefix_of(path),
    ensures
        matched_index(cfg.rules@, path) is None,
        selected_target(cfg, path) == cfg.default_target,
        forwarded_path_for(cfg, path) == path,
{
    assert(forall|j: int| 0 <= j < 4 ==> !rule_matches(#[trigger] cfg.rules@[j], path));
    lemma_matched_index_none(cfg.rules@, path);
}

} // verus!
