//! The redirect responder bound to the plaintext listener.
//!
//! Every request arriving over plain HTTP is answered with status 301 and a
//! `Location` header pointing at the HTTPS equivalent of the requested URL.
//! A request whose URI carries no path-and-query component still gets a
//! well-formed answer: the `Location` is then just the secure origin.

use vstd::prelude::*;
use vstd::string::StringExecFns;

verus! {

/// The scheme prefix every redirect target starts with.
pub open spec fn https_scheme() -> Seq<char> {
    seq!['h', 't', 't', 'p', 's', ':', '/', '/']
}

/// The status code of every redirect the plaintext listener sends.
pub const MOVED_PERMANENTLY: u16 = 301;

/// The `Location` value for a redirect to the secure origin: the path and
/// query of the original request appended to `https://<canonical host>`,
/// or nothing appended when the URI has no path-and-query component.
pub open spec fn location_for(canonical_host: Seq<char>, path_and_query: Option<&str>) -> Seq<
    char,
> {
    https_scheme() + canonical_host + (match path_and_query {
        Some(p) => p@,
        None => Seq::empty(),
    })
}

/// A finished response of the redirect responder: a status code and the
/// `Location` header value to send with it.
pub struct RedirectAction {
    pub status: u16,
    pub location: String,
}

/// Builds the `Location` value `https://<canonical host><path-and-query>`,
/// treating an absent path-and-query as the empty string.
pub fn redirect_location(canonical_host: &str, path_and_query: Option<&str>) -> (r: String)
    ensures
        r@ == location_for(canonical_host@, path_and_query),
{
    let mut r = String::from_str("https://");
    proof {
        reveal_strlit("https://");
        assert("https://"@ =~= https_scheme());
    }
    r.append(canonical_host);
    match path_and_query {
        Some(p) => {
            r.append(p);
        },
        None => {
            proof {
                assert(r@ =~= https_scheme() + canonical_host@ + Seq::<char>::empty());
            }
        },
    }
    r
}

/// Answers a request on the plaintext listener: always status 301, with the
/// `Location` pointing at the same path and query on the secure origin.
pub fn redirect_response(canonical_host: &str, path_and_query: Option<&str>) -> (r: RedirectAction)
    ensures
        r.status == 301,
        r.location@ == location_for(canonical_host@, path_and_query),
{
    RedirectAction { status: MOVED_PERMANENTLY, location: redirect_location(canonical_host, path_and_query) }
}

} // verus!
