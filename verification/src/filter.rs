//! Keyword filtering: a candidate matches a query when every
//! whitespace-separated token of the query occurs, case-folded, as a
//! substring of the case-folded candidate.

use vstd::prelude::*;

use crate::text::{contains_chars, is_substring, str_chars, tokenize, tokens_of};

verus! {

/// Unicode lower-casing of a character sequence, as `str::to_lowercase`
/// computes it.
pub uninterp spec fn lower_of(s: Seq<char>) -> Seq<char>;

/// Relies on `str::to_lowercase`: its result depends on the input
/// characters alone, and an empty input yields an empty output.
#[verifier::external_body]
pub(crate) fn to_lower(s: &str) -> (r: String)
    ensures
        r@ == lower_of(s@),
        s@.len() == 0 ==> r@.len() == 0,
{
    s.to_lowercase()
}

/// A candidate matches a query when every token of the lower-cased
/// query is a substring of the lower-cased candidate.  An empty query
/// has no tokens and matches everything.
pub open spec fn matches_spec(query: Seq<char>, candidate: Seq<char>) -> bool {
    forall|t: Seq<char>|
        #[trigger] tokens_of(lower_of(query)).contains(t) ==> is_substring(t, lower_of(candidate))
}

/// Decides whether `candidate` matches `query`.  An empty query
/// always matches.
pub fn matches(query: &str, candidate: &str) -> (r: bool)
    ensures
        r == matches_spec(query@, candidate@),
        query@.len() == 0 ==> r,
{
    let ql = to_lower(query);
    let cl = to_lower(candidate);
    let qchars = str_chars(ql.as_str());
    let cchars = str_chars(cl.as_str());
    let tokens = tokenize(&qchars);
    let toks = Ghost(tokens_of(lower_of(query@)));
    let n = tokens.len();
    proof {
        if query@.len() == 0 {
            assert(lower_of(query@).len() == 0);
            assert(toks@ =~= Seq::<Seq<char>>::empty());
        }
    }
    let mut idx: usize = 0;
    while idx < n
        invariant
            n == tokens@.len(),
            tokens.deep_view() == toks@,
            toks@ == tokens_of(lower_of(query@)),
            query@.len() == 0 ==> n == 0,
            cchars@ == lower_of(candidate@),
            forall|k: int| 0 <= k < idx ==> is_substring(toks@[k], lower_of(candidate@)),
        decreases n - idx,
    {
        proof {
            assert(tokens@[idx as int]@ == tokens.deep_view()[idx as int]);
        }
        if !contains_chars(&cchars, &tokens[idx]) {
            proof {
                assert(toks@.contains(toks@[idx as int]));
            }
            return false;
        }
        idx = idx + 1;
    }
    proof {
        assert forall|t: Seq<char>| #[trigger]
            toks@.contains(t) implies is_substring(t, lower_of(candidate@)) by {
            let k = choose|k: int| 0 <= k < toks@.len() && toks@[k] == t;
            assert(is_substring(toks@[k], lower_of(candidate@)));
        }
    }
    true
}

/// The members of `items` that match `query`, in their original order.
pub open spec fn kept_names(items: Seq<String>, query: Seq<char>) -> Seq<String> {
    items.filter(|s: String| matches_spec(query, s@))
}

/// Filters a list of names by a query, keeping order.  An empty query
/// keeps the whole list.
pub fn filter_names(query: &str, items: &Vec<String>) -> (r: Vec<String>)
    ensures
        r@ == kept_names(items@, query@),
        query@.len() == 0 ==> r@ == items@,
{
    if query.is_empty() {
        let lowered = to_lower(query);
        proof {
            assert(lowered@.len() == 0);
            assert(tokens_of(lower_of(query@)) =~= Seq::<Seq<char>>::empty());
            assert forall|i: int|
                0 <= i < items@.len() implies matches_spec(query@, #[trigger] items@[i]@) by {}
            lemma_filter_all(items@, |s: String| matches_spec(query@, s@));
        }
        let r = items.clone();
        proof {
            assert(r@ =~= items@);
        }
        return r;
    }
    let n = items.len();
    let mut r: Vec<String> = Vec::new();
    let mut i: usize = 0;
    proof {
        reveal(Seq::filter);
        assert(items@.subrange(0, 0).filter(|s: String| matches_spec(query@, s@))
            =~= Seq::<String>::empty());
    }
    while i < n
        invariant
            n == items@.len(),
            i <= n,
            r@ =~= items@.subrange(0, i as int).filter(|s: String| matches_spec(query@, s@)),
        decreases n - i,
    {
        let keep = matches(query, items[i].as_str());
        proof {
            reveal(Seq::filter);
            let prefix = items@.subrange(0, i + 1);
            assert(prefix.drop_last() =~= items@.subrange(0, i as int));
            assert(prefix.last() == items@[i as int]);
        }
        if keep {
            r.push(items[i].clone());
        }
        i = i + 1;
    }
    proof {
        assert(items@.subrange(0, n as int) =~= items@);
    }
    r
}

/// Matching is insensitive to the order (and repetition pattern) of the
/// query's tokens: two queries whose lower-cased token multisets agree
/// accept exactly the same candidates.
pub proof fn lemma_matches_token_reorder(q1: Seq<char>, q2: Seq<char>, c: Seq<char>)
    requires
        tokens_of(lower_of(q1)).to_multiset() == tokens_of(lower_of(q2)).to_multiset(),
    ensures
        matches_spec(q1, c) == matches_spec(q2, c),
{
    broadcast use vstd::seq_lib::group_to_multiset_ensures;

    let t1 = tokens_of(lower_of(q1));
    let t2 = tokens_of(lower_of(q2));
    assert forall|t: Seq<char>| #[trigger] t1.contains(t) implies t2.contains(t) by {
        assert(t1.to_multiset().count(t) > 0);
    }
    assert forall|t: Seq<char>| #[trigger] t2.contains(t) implies t1.contains(t) by {
        assert(t2.to_multiset().count(t) > 0);
    }
}

/// A filtered view is sound and complete: every retained candidate
/// matches the query and came from the backing list, and every backing
/// candidate that matches the query is retained.
pub proof fn lemma_filtered_view_exact(items: Seq<String>, query: Seq<char>)
    ensures
        forall|i: int|
            0 <= i < kept_names(items, query).len() ==> matches_spec(
                query,
                #[trigger] kept_names(items, query)[i]@,
            ) && items.contains(kept_names(items, query)[i]),
        forall|i: int|
            0 <= i < items.len() && matches_spec(query, #[trigger] items[i]@) ==> kept_names(
                items,
                query,
            ).contains(items[i]),
{
    broadcast use vstd::seq_lib::group_filter_ensures;

    let pred = |s: String| matches_spec(query, s@);
    lemma_filter_members(items, pred);
}

/// Filtering is idempotent: applying the same query to an already
/// filtered view changes nothing.
pub proof fn lemma_filter_idempotent(items: Seq<String>, query: Seq<char>)
    ensures
        kept_names(kept_names(items, query), query) == kept_names(items, query),
{
    let pred = |s: String| matches_spec(query, s@);
    lemma_filter_stable(items, pred);
}

/// A second pass of the same filter keeps everything.
proof fn lemma_filter_stable<A>(s: Seq<A>, pred: spec_fn(A) -> bool)
    ensures
        s.filter(pred).filter(pred) == s.filter(pred),
    decreases s.len(),
{
    reveal(Seq::filter);
    if s.len() == 0 {
        assert(s.filter(pred) =~= Seq::<A>::empty());
        assert(s.filter(pred).filter(pred) =~= Seq::<A>::empty());
    } else {
        let d = s.drop_last();
        lemma_filter_stable(d, pred);
        if pred(s.last()) {
            let f = d.filter(pred).push(s.last());
            assert(s.filter(pred) =~= f);
            assert(f.drop_last() =~= d.filter(pred));
            assert(f.last() == s.last());
            assert(f.filter(pred) =~= d.filter(pred).filter(pred).push(s.last()));
            assert(s.filter(pred).filter(pred) =~= s.filter(pred));
        } else {
            assert(s.filter(pred) =~= d.filter(pred));
        }
    }
}

/// A filter whose predicate holds of every element keeps the whole
/// sequence.
pub(crate) proof fn lemma_filter_all<A>(s: Seq<A>, pred: spec_fn(A) -> bool)
    requires
        forall|i: int| 0 <= i < s.len() ==> pred(#[trigger] s[i]),
    ensures
        s.filter(pred) == s,
    decreases s.len(),
{
    reveal(Seq::filter);
    if s.len() == 0 {
        assert(s.filter(pred) =~= s);
    } else {
        let d = s.drop_last();
        assert forall|i: int| 0 <= i < d.len() implies pred(#[trigger] d[i]) by {
            assert(d[i] == s[i]);
        }
        lemma_filter_all(d, pred);
        assert(pred(s.last()));
        assert(s.filter(pred) =~= d.push(s.last()));
        assert(d.push(s.last()) =~= s);
    }
}

/// Every member of a filtered sequence is a member of the original.
pub(crate) proof fn lemma_filter_members<A>(s: Seq<A>, pred: spec_fn(A) -> bool)
    ensures
        forall|i: int|
            0 <= i < s.filter(pred).len() ==> s.contains(#[trigger] s.filter(pred)[i]),
    decreases s.len(),
{
    reveal(Seq::filter);
    if s.len() == 0 {
    } else {
        let d = s.drop_last();
        lemma_filter_members(d, pred);
        if pred(s.last()) {
            assert(s.filter(pred) =~= d.filter(pred).push(s.last()));
        } else {
            assert(s.filter(pred) =~= d.filter(pred));
        }
        assert forall|i: int|
            0 <= i < s.filter(pred).len() implies s.contains(#[trigger] s.filter(pred)[i]) by {
            if pred(s.last()) && i == s.filter(pred).len() - 1 {
                assert(s[s.len() - 1] == s.last());
            } else {
                assert(s.filter(pred)[i] == d.filter(pred)[i]);
                assert(d.contains(d.filter(pred)[i]));
                let j = choose|j: int| 0 <= j < d.len() && d[j] == d.filter(pred)[i];
                assert(s[j] == d[j]);
            }
        }
    }
}

} // verus!
