//! Route selection and request shaping for the secure listener.
//!
//! A routing table is an ordered list of prefix rules in front of a
//! catch-all default.  For each request the first rule whose prefix starts
//! the request path wins; a rule may additionally strip its prefix from the
//! forwarded path.  The matched rule's target, together with its connection
//! policy, becomes the upstream peer handed to the forwarding engine.

use crate::cookies::{join_cookie_values, joined_cookies, views_of};
use crate::text::str_starts_with;
use vstd::prelude::*;
use vstd::string::StrSliceExecFns;

verus! {

/// How the connection to an upstream is kept: an idle timeout and an
/// HTTP/2 keep-alive ping interval, each in seconds and each optional
/// (`None` leaves the forwarding engine's default in place).
#[derive(Clone, Copy, PartialEq, Eq, Debug)]
pub struct ConnectionPolicy {
    pub idle_timeout_secs: Option<u64>,
    pub h2_ping_interval_secs: Option<u64>,
}

/// One backend endpoint: where to connect, whether to speak TLS to it, the
/// SNI value to present when doing so (empty for plaintext peers), and the
/// connection policy to apply.
#[derive(Debug)]
pub struct RouteTarget {
    pub host: String,
    pub port: u16,
    pub tls: bool,
    pub sni: String,
    pub policy: ConnectionPolicy,
}

/// One routing rule: requests whose path starts with `prefix` go to
/// `target`; with `rewrite` set the prefix is stripped from the forwarded
/// path, otherwise the path is passed through unchanged.
#[derive(Debug)]
pub struct RouteRule {
    pub prefix: String,
    pub rewrite: bool,
    pub target: RouteTarget,
}

/// The response-compression settings applied on the client-facing leg:
/// a fixed compression level, and whether compressed request bodies are
/// decompressed before forwarding.
#[derive(Clone, Copy, PartialEq, Eq, Debug)]
pub struct CompressionConfig {
    pub level: u8,
    pub decompress_request: bool,
}

/// The whole routing configuration: the ordered prefix rules, the
/// catch-all default target for requests no rule matches, and the
/// compression settings shared by every route.
#[derive(Debug)]
pub struct RouterConfig {
    pub rules: Vec<RouteRule>,
    pub default_target: RouteTarget,
    pub compression: CompressionConfig,
}

/// The upstream peer resolved for one request, handed to the forwarding
/// engine: endpoint, TLS mode, SNI, and connection policy.
#[derive(Debug)]
pub struct UpstreamPeer {
    pub host: String,
    pub port: u16,
    pub tls: bool,
    pub sni: String,
    pub policy: ConnectionPolicy,
}

/// Whether `rule` applies to a request path: its prefix starts the path.
pub open spec fn rule_matches(rule: RouteRule, path: Seq<char>) -> bool {
    rule.prefix@.is_prefix_of(path)
}

/// The position of the first rule that applies to `path`, or `None` when
/// none does.  Earlier rules take precedence, so a more specific prefix
/// placed before an overlapping one always wins.
pub open spec fn matched_index(rules: Seq<RouteRule>, path: Seq<char>) -> Option<int>
    decreases rules.len(),
{
    if rules.len() == 0 {
        None
    } else if rule_matches(rules[0], path) {
        Some(0int)
    } else {
        match matched_index(rules.drop_first(), path) {
            Some(i) => Some(i + 1),
            None => None,
        }
    }
}

/// The target a request to `path` is forwarded to: the first matching
/// rule's target, or the default when no rule matches.
pub open spec fn selected_target(cfg: RouterConfig, path: Seq<char>) -> RouteTarget {
    match matched_index(cfg.rules@, path) {
        Some(i) => cfg.rules@[i].target,
        None => cfg.default_target,
    }
}

/// The path the selected backend sees: the original path with the matched
/// rule's prefix stripped when that rule rewrites, the original path
/// unchanged otherwise (also when only the default applies).
pub open spec fn forwarded_path_for(cfg: RouterConfig, path: Seq<char>) -> Seq<char> {
    match matched_index(cfg.rules@, path) {
        Some(i) => if cfg.rules@[i].rewrite {
            path.skip(cfg.rules@[i].prefix@.len() as int)
        } else {
            path
        },
        None => path,
    }
}

/// The compression settings used for a request to `path`: the configured
/// settings, whatever the path — compression never depends on the route.
pub open spec fn compression_for(cfg: RouterConfig, path: Seq<char>) -> CompressionConfig {
    cfg.compression
}

/// A peer carries exactly the endpoint and policy of a target.
pub open spec fn peer_matches_target(p: UpstreamPeer, t: RouteTarget) -> bool {
    &&& p.host@ == t.host@
    &&& p.port == t.port
    &&& p.tls == t.tls
    &&& p.sni@ == t.sni@
    &&& p.policy == t.policy
}

/// First match wins: a rule that applies, before which none applies, is
/// the match — whatever later rules would also apply.
pub proof fn lemma_matched_index_first(rules: Seq<RouteRule>, path: Seq<char>, i: int)
    requires
        0 <= i < rules.len(),
        rule_matches(rules[i], path),
        forall|j: int| 0 <= j < i ==> !rule_matches(#[trigger] rules[j], path),
    ensures
        matched_index(rules, path) == Some(i),
    decreases i,
{
    if i == 0 {
    } else {
        assert(!rule_matches(rules[0], path));
        let rest = rules.drop_first();
        assert(rest[i - 1] == rules[i]);
        assert forall|j: int| 0 <= j < i - 1 implies !rule_matches(#[trigger] rest[j], path) by {
            assert(rest[j] == rules[j + 1]);
        }
        lemma_matched_index_first(rest, path, i - 1);
    }
}

/// When no rule applies, no index is matched.
pub proof fn lemma_matched_index_none(rules: Seq<RouteRule>, path: Seq<char>)
    requires
        forall|j: int| 0 <= j < rules.len() ==> !rule_matches(#[trigger] rules[j], path),
    ensures
        matched_index(rules, path) is None,
    decreases rules.len(),
{
    if rules.len() == 0 {
    } else {
        let rest = rules.drop_first();
        assert forall|j: int| 0 <= j < rest.len() implies !rule_matches(
            #[trigger] rest[j],
            path,
        ) by {
            assert(rest[j] == rules[j + 1]);
        }
        lemma_matched_index_none(rest, path);
    }
}

/// A matched index lies in range and its rule applies to the path.
pub proof fn lemma_matched_index_matches(rules: Seq<RouteRule>, path: Seq<char>)
    ensures
        match matched_index(rules, path) {
            Some(i) => 0 <= i < rules.len() && rule_matches(rules[i], path),
            None => true,
        },
    decreases rules.len(),
{
    if rules.len() == 0 {
    } else if rule_matches(rules[0], path) {
    } else {
        lemma_matched_index_matches(rules.drop_first(), path);
    }
}

/// Compression never depends on the route: any two requests, whatever
/// their paths and whichever upstreams they select, are shaped with the
/// same compression settings.
pub proof fn lemma_compression_uniform(cfg: RouterConfig, path1: Seq<char>, path2: Seq<char>)
    ensures
        compression_for(cfg, path1) == compression_for(cfg, path2),
{
}

/// Finds the first rule whose prefix starts `path`.
pub fn match_route(rules: &Vec<RouteRule>, path: &str) -> (r: Option<usize>)
    ensures
        match r {
            Some(i) => i < rules@.len() && matched_index(rules@, path@) == Some(i as int),
            None => matched_index(rules@, path@) is None,
        },
{
    let mut i: usize = 0;
    while i < rules.len()
        invariant
            i <= rules@.len(),
            forall|j: int| 0 <= j < i ==> !rule_matches(#[trigger] rules@[j], path@),
        decreases rules@.len() - i,
    {
        if str_starts_with(path, rules[i].prefix.as_str()) {
            proof {
                lemma_matched_index_first(rules@, path@, i as int);
            }
            return Some(i);
        }
        i += 1;
    }
    proof {
        lemma_matched_index_none(rules@, path@);
    }
    None
}

/// Builds the per-request peer from a target: same endpoint, same policy.
pub fn build_peer(target: &RouteTarget) -> (p: UpstreamPeer)
    ensures
        peer_matches_target(p, *target),
{
    UpstreamPeer {
        host: target.host.clone(),
        port: target.port,
        tls: target.tls,
        sni: target.sni.clone(),
        policy: target.policy,
    }
}

/// Everything the forwarding engine needs for one request: the resolved
/// peer, the path to forward (possibly with a prefix stripped), the single
/// normalized `Cookie` value, and the compression settings.
pub struct RoutedRequest {
    pub peer: UpstreamPeer,
    pub forwarded_path: String,
    pub cookie_header: String,
    pub compression: CompressionConfig,
}

/// Routes one request: collapses its cookie values into one header value,
/// picks the first matching rule (or the default), strips the prefix where
/// the rule asks for it, and resolves the upstream peer.
pub fn route_request(cfg: &RouterConfig, path: &str, cookie_values: &Vec<String>) -> (r:
    RoutedRequest)
    ensures
        peer_matches_target(r.peer, selected_target(*cfg, path@)),
        r.forwarded_path@ == forwarded_path_for(*cfg, path@),
        r.cookie_header@ == joined_cookies(views_of(cookie_values@)),
        r.compression == compression_for(*cfg, path@),
{
    let cookie_header = join_cookie_values(cookie_values);
    let (peer, forwarded_path) = match match_route(&cfg.rules, path) {
        Some(i) => {
            proof {
                lemma_matched_index_matches(cfg.rules@, path@);
            }
            let rule = &cfg.rules[i];
            let fwd: String = if rule.rewrite {
                let n = rule.prefix.as_str().unicode_len();
                let m = path.unicode_len();
                assert(path@.subrange(n as int, m as int) =~= path@.skip(
                    rule.prefix@.len() as int,
                ));
                path.substring_char(n, m).to_owned()
            } else {
                path.to_owned()
            };
            (build_peer(&rule.target), fwd)
        },
        None => (build_peer(&cfg.default_target), path.to_owned()),
    };
    RoutedRequest { peer, forwarded_path, cookie_header, compression: cfg.compression }
}

} // verus!
