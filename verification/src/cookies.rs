//! Cookie-header normalization.
//!
//! A request may arrive with zero, one, or many `Cookie` headers.  At least
//! one backend framework rejects repeated `Cookie` headers, so before a
//! request is forwarded all values are collapsed into a single header whose
//! value is the `"; "`-joined concatenation of the originals, in order.

use vstd::prelude::*;
use vstd::string::StringExecFns;

verus! {

/// The separator placed between two adjacent cookie values.
pub open spec fn cookie_separator() -> Seq<char> {
    seq![';', ' ']
}

/// The single cookie value that a sequence of `Cookie` header values is
/// collapsed to: the values in their original order, joined by `"; "`.
/// No values at all yield the empty value.
pub open spec fn joined_cookies(vals: Seq<Seq<char>>) -> Seq<char>
    decreases vals.len(),
{
    if vals.len() == 0 {
        Seq::empty()
    } else if vals.len() == 1 {
        vals[0]
    } else {
        vals[0] + cookie_separator() + joined_cookies(vals.drop_first())
    }
}

/// Joining grows on the right: appending one more value appends
/// `"; "` and that value (or is that value alone, when nothing came before).
proof fn lemma_joined_cookies_push(vals: Seq<Seq<char>>, x: Seq<char>)
    ensures
        joined_cookies(vals.push(x)) == if vals.len() == 0 {
            x
        } else {
            (joined_cookies(vals) + cookie_separator() + x)
        },
    decreases vals.len(),
{
    let pushed = vals.push(x);
    if vals.len() == 0 {
        assert(pushed.len() == 1);
        assert(pushed[0] == x);
    } else if vals.len() == 1 {
        assert(pushed.len() == 2);
        assert(pushed[0] == vals[0]);
        assert(pushed.drop_first() =~= seq![x]);
        assert(joined_cookies(pushed.drop_first()) == x);
        assert(joined_cookies(pushed) == vals[0] + cookie_separator() + x);
    } else {
        assert(pushed.drop_first() =~= vals.drop_first().push(x));
        lemma_joined_cookies_push(vals.drop_first(), x);
        assert(joined_cookies(pushed) == pushed[0] + cookie_separator() + joined_cookies(
            vals.drop_first().push(x),
        ));
        assert(joined_cookies(vals.drop_first().push(x)) == joined_cookies(vals.drop_first())
            + cookie_separator() + x);
        assert((vals[0] + cookie_separator() + (joined_cookies(vals.drop_first())
            + cookie_separator() + x)) =~= ((vals[0] + cookie_separator() + joined_cookies(
            vals.drop_first(),
        )) + cookie_separator() + x));
    }
}

/// The views of a sequence of `String` values.
pub open spec fn views_of(vals: Seq<String>) -> Seq<Seq<char>> {
    vals.map_values(|v: String| v@)
}

/// Joins all cookie values with `"; "`, in their original order.
pub fn join_cookie_values(vals: &Vec<String>) -> (r: String)
    ensures
        r@ == joined_cookies(views_of(vals@)),
{
    let mut r = String::new();
    let mut i: usize = 0;
    proof {
        assert(views_of(vals@.take(0)) =~= Seq::<Seq<char>>::empty());
    }
    while i < vals.len()
        invariant
            i <= vals@.len(),
            r@ == joined_cookies(views_of(vals@.take(i as int))),
        decreases vals@.len() - i,
    {
        if i > 0 {
            r.append("; ");
            proof {
                reveal_strlit("; ");
                assert("; "@ =~= cookie_separator());
            }
        }
        r.append(vals[i].as_str());
        proof {
            let prev = views_of(vals@.take(i as int));
            lemma_joined_cookies_push(prev, vals@[i as int]@);
            assert(views_of(vals@.take(i + 1)) =~= prev.push(vals@[i as int]@));
            if i == 0 {
                assert(r@ =~= vals@[i as int]@);
            }
        }
        i += 1;
    }
    proof {
        assert(vals@.take(vals@.len() as int) =~= vals@);
    }
    r
}

/// Replaces however many `Cookie` header values a request carried with
/// exactly one, whose value joins the originals in order with `"; "`.
pub fn normalize_cookie_headers(vals: &Vec<String>) -> (r: Vec<String>)
    ensures
        r@.len() == 1,
        r@[0]@ == joined_cookies(views_of(vals@)),
{
    let joined = join_cookie_values(vals);
    let mut out: Vec<String> = Vec::new();
    out.push(joined);
    out
}

/// Normalization is idempotent: a request whose cookies were already
/// collapsed into one header is left unchanged by a second pass, since
/// joining a single value yields that value.
pub proof fn lemma_normalize_idempotent(vals: Seq<Seq<char>>)
    ensures
        joined_cookies(seq![joined_cookies(vals)]) == joined_cookies(vals),
{
    let single = seq![joined_cookies(vals)];
    assert(single.len() == 1);
    assert(single[0] == joined_cookies(vals));
}

} // verus!
