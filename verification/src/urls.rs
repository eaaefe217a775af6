//! URL canonicalization for task fingerprinting.
//!
//! A task identifier must not depend on query parameters that are irrelevant
//! to the content, so the URL is parsed, its decoded query pairs are filtered
//! down to the significant ones (keeping their relative order), and the URL is
//! rendered again with only those pairs. Parsing and rendering belong to an
//! outside library and are named here; the filtering itself is verified.

use vstd::prelude::*;

verus! {

/// The views of a sequence of string pairs.
pub open spec fn pair_views(s: Seq<(String, String)>) -> Seq<(Seq<char>, Seq<char>)> {
    Seq::new(s.len(), |i: int| (s[i].0@, s[i].1@))
}

/// The views of a sequence of strings.
pub open spec fn str_views(s: Seq<String>) -> Seq<Seq<char>> {
    Seq::new(s.len(), |i: int| s[i]@)
}

/// Whether the outside URL parser accepts `s` as an absolute URL.
pub uninterp spec fn url_parse_ok(s: Seq<char>) -> bool;

/// The decoded query pairs of the URL parsed from `s`, in their order of
/// appearance.
pub uninterp spec fn url_query_pairs(s: Seq<char>) -> Seq<(Seq<char>, Seq<char>)>;

/// The non-query parts (scheme, authority, path, fragment) of the URL parsed
/// from `s`.
pub uninterp spec fn url_base(s: Seq<char>) -> Seq<char>;

/// The rendering of a URL whose non-query parts are `base` and whose query is
/// the form-encoding of `pairs`.
pub uninterp spec fn url_with_pairs(base: Seq<char>, pairs: Seq<(Seq<char>, Seq<char>)>) -> Seq<
    char,
>;

/// Relies on `url::Url::parse` and `url::Url::query_pairs`: parsing is a
/// deterministic function of the input string, and `query_pairs` yields the
/// percent-decoded query pairs in their order of appearance. On failure the
/// parse error's rendering is returned.
#[verifier::external_body]
pub(crate) fn parse_query_pairs(s: &str) -> (r: Result<Vec<(String, String)>, String>)
    ensures
        r is Ok <==> url_parse_ok(s@),
        r is Ok ==> pair_views(r->Ok_0@) == url_query_pairs(s@),
{
    match url::Url::parse(s) {
        Ok(u) => Ok(u.query_pairs().map(|(k, v)| (k.into_owned(), v.into_owned())).collect()),
        Err(e) => Err(e.to_string()),
    }
}

/// Relies on `url::Url::parse`, `form_urlencoded::Serializer::clear` /
/// `extend_pairs` (through `url::Url::query_pairs_mut`) and `url::Url`'s
/// rendering: once the query is cleared and the given pairs appended, the
/// rendered URL is a function of the URL's non-query parts and of the pairs
/// alone.
#[verifier::external_body]
pub(crate) fn rebuild_with_pairs(s: &str, pairs: &Vec<(String, String)>) -> (r: Result<
    String,
    String,
>)
    ensures
        r is Ok <==> url_parse_ok(s@),
        r is Ok ==> r->Ok_0@ == url_with_pairs(url_base(s@), pair_views(pairs@)),
{
    match url::Url::parse(s) {
        Ok(mut u) => {
            u.query_pairs_mut().clear().extend_pairs(pairs.iter());
            Ok(u.to_string())
        },
        Err(e) => Err(e.to_string()),
    }
}

/// The pairs whose key appears in `keep`, in their original order.
pub open spec fn significant_pairs(
    pairs: Seq<(Seq<char>, Seq<char>)>,
    keep: Seq<Seq<char>>,
) -> Seq<(Seq<char>, Seq<char>)> {
    pairs.filter(|p: (Seq<char>, Seq<char>)| keep.contains(p.0))
}

/// Filtering one more pair appends it exactly when its key is kept.
proof fn lemma_significant_pairs_push(
    pairs: Seq<(Seq<char>, Seq<char>)>,
    x: (Seq<char>, Seq<char>),
    keep: Seq<Seq<char>>,
)
    ensures
        significant_pairs(pairs.push(x), keep) == significant_pairs(pairs, keep) + (if keep.contains(
            x.0,
        ) {
            seq![x]
        } else {
            Seq::<(Seq<char>, Seq<char>)>::empty()
        }),
{
    let pred = |p: (Seq<char>, Seq<char>)| keep.contains(p.0);
    assert(pairs.push(x) =~= pairs + seq![x]);
    Seq::filter_distributes_over_add(pairs, seq![x], pred);
    reveal_with_fuel(Seq::filter, 3);
    assert(seq![x].drop_last() =~= Seq::<(Seq<char>, Seq<char>)>::empty());
    assert(seq![x].filter(pred) == if pred(x) {
        seq![x]
    } else {
        Seq::<(Seq<char>, Seq<char>)>::empty()
    });
}

/// Whether some string in `keep` reads as `k`.
fn contains_string(keep: &Vec<String>, k: &String) -> (r: bool)
    ensures
        r == str_views(keep@).contains(k@),
{
    let mut j: usize = 0;
    while j < keep.len()
        invariant
            0 <= j <= keep.len(),
            forall|i: int| 0 <= i < j ==> keep@[i]@ != k@,
        decreases keep.len() - j,
    {
        if keep[j].eq(k) {
            assert(str_views(keep@)[j as int] == k@);
            return true;
        }
        j += 1;
    }
    assert forall|i: int| 0 <= i < str_views(keep@).len() implies str_views(keep@)[i] != k@ by {}
    false
}

/// Keeps exactly the pairs whose key appears in `keep`, preserving their
/// relative order.
pub(crate) fn filter_significant(pairs: Vec<(String, String)>, keep: &Vec<String>) -> (r: Vec<
    (String, String),
>)
    ensures
        pair_views(r@) == significant_pairs(pair_views(pairs@), str_views(keep@)),
{
    let mut out: Vec<(String, String)> = Vec::new();
    let mut i: usize = 0;
    proof {
        assert(pair_views(pairs@.subrange(0, 0)) =~= Seq::<(Seq<char>, Seq<char>)>::empty());
        reveal_with_fuel(Seq::filter, 1);
        assert(pair_views(out@) =~= significant_pairs(
            pair_views(pairs@.subrange(0, 0)),
            str_views(keep@),
        ));
    }
    while i < pairs.len()
        invariant
            0 <= i <= pairs.len(),
            pair_views(out@) == significant_pairs(
                pair_views(pairs@.subrange(0, i as int)),
                str_views(keep@),
            ),
        decreases pairs.len() - i,
    {
        let p = &pairs[i];
        let key = p.0.clone();
        let value = p.1.clone();
        let ghost pre = pair_views(pairs@.subrange(0, i as int));
        let ghost x = (pairs@[i as int].0@, pairs@[i as int].1@);
        if contains_string(keep, &key) {
            out.push((key, value));
        }
        proof {
            lemma_significant_pairs_push(pre, x, str_views(keep@));
            assert(pair_views(pairs@.subrange(0, i as int + 1)) =~= pre.push(x));
            if str_views(keep@).contains(x.0) {
                assert(pair_views(out@) =~= significant_pairs(pre, str_views(keep@)) + seq![x]);
            } else {
                assert(significant_pairs(pre, str_views(keep@)) + Seq::<
                    (Seq<char>, Seq<char>),
                >::empty() =~= significant_pairs(pre, str_views(keep@)));
            }
        }
        i += 1;
    }
    proof {
        assert(pairs@.subrange(0, pairs@.len() as int) =~= pairs@);
    }
    out
}

} // verus!
