//! The cached list source: a list of entity names served from a
//! durable cache when possible and replaced wholesale by a paginated
//! remote fetch.  The fetch loop itself is driven by the caller (it
//! performs the remote requests); this module holds the decisions:
//! when to fetch, how pages accumulate, how a completed fetch replaces
//! the list, and how the cache payload is encoded.

use vstd::multiset::Multiset;
use vstd::prelude::*;

use crate::text::{lemma_lex_le_total, lemma_lex_le_trans, lex_le, str_le};

verus! {

broadcast use
    vstd::multiset::group_multiset_axioms,
    vstd::seq_lib::to_multiset_build,
    vstd::seq_lib::to_multiset_len,
    vstd::seq_lib::to_multiset_contains,
;

/// The JSON encoding of a list of names, as `serde_json::to_string`
/// produces it.
pub uninterp spec fn json_of_names(names: Seq<Seq<char>>) -> Seq<char>;

/// Relies on `serde_json::to_string`: serializing a vector of strings
/// always succeeds and its result depends on the strings alone.
#[verifier::external_body]
fn encode_names(names: &Vec<String>) -> (r: String)
    ensures
        r@ == json_of_names(names.deep_view()),
{
    match serde_json::to_string(names) {
        Ok(s) => s,
        // unreachable: serializing a vector of strings cannot fail
        // (no fallible Serialize impl, no non-string map keys, and the
        // writer is an in-memory buffer)
        Err(_) => String::new(),
    }
}

/// Relies on `serde_json::from_str`: parsing inverts
/// `serde_json::to_string` on vectors of strings, and failure is
/// reported as `None`.
#[verifier::external_body]
fn decode_names(s: &str) -> (r: Option<Vec<String>>)
    ensures
        r is Some <== exists|ns: Seq<Seq<char>>| s@ == #[trigger] json_of_names(ns),
        r matches Some(v) ==> forall|ns: Seq<Seq<char>>|
            s@ == #[trigger] json_of_names(ns) ==> v.deep_view() == ns,
{
    serde_json::from_str::<Vec<String>>(s).ok()
}

/// Parses a cache file's contents, treating a missing or unreadable
/// payload as a cache miss.
pub fn parse_cached_names(payload: Option<String>) -> (r: Option<Vec<String>>)
    ensures
        payload is None ==> r is None,
        payload matches Some(s) ==> (r is Some <== exists|ns: Seq<Seq<char>>|
            s@ == #[trigger] json_of_names(ns)),
        payload matches Some(s) ==> (r matches Some(v) ==> forall|ns: Seq<Seq<char>>|
            s@ == #[trigger] json_of_names(ns) ==> v.deep_view() == ns),
{
    match payload {
        None => None,
        Some(s) => decode_names(s.as_str()),
    }
}

/// Serializes a list of names for the cache.
pub fn render_cache_payload(names: &Vec<String>) -> (r: String)
    ensures
        r@ == json_of_names(names.deep_view()),
{
    encode_names(names)
}

/// The character sequences of a sequence of names.
pub open spec fn names_view(s: Seq<String>) -> Seq<Seq<char>> {
    s.map_values(|x: String| x@)
}

/// Names in lexicographic (code point) order.
pub open spec fn names_sorted(s: Seq<String>) -> bool {
    forall|i: int, j: int| 0 <= i < j < s.len() ==> lex_le(s[i]@, s[j]@)
}

/// Inserts `x` into a sorted vector, keeping it sorted.
fn insert_sorted(out: &mut Vec<String>, x: String)
    requires
        names_sorted(old(out)@),
    ensures
        names_sorted(final(out)@),
        final(out)@.to_multiset() == old(out)@.to_multiset().insert(x),
{
    let n = out.len();
    let mut p: usize = 0;
    while p < n && str_le(out[p].as_str(), x.as_str())
        invariant
            n == out@.len(),
            p <= n,
            forall|k: int| 0 <= k < p ==> lex_le(out@[k]@, x@),
        decreases n - p,
    {
        p = p + 1;
    }
    proof {
        if p < n {
            lemma_lex_le_total(out@[p as int]@, x@);
        }
    }
    let ghost pre = out@;
    let ghost pi = p as int;
    out.insert(p, x);
    proof {
        broadcast use vstd::seq_lib::to_multiset_insert;

        pre.insert_ensures(pi, x);
        assert(out@ == pre.insert(pi, x));
        assert forall|i: int, j: int|
            0 <= i < j < out@.len() implies lex_le(out@[i]@, out@[j]@) by {
            if j < pi {
                assert(out@[i] == pre[i] && out@[j] == pre[j]);
            } else if i < pi && j == pi {
                assert(out@[i] == pre[i]);
            } else if i < pi && j > pi {
                assert(out@[i] == pre[i] && out@[j] == pre[j - 1]);
                assert(i < j - 1);
            } else if i == pi {
                // out[i] is x; everything at or after pi in pre is >= x
                assert(out@[j] == pre[j - 1]);
                if p < n {
                    assert(lex_le(x@, pre[pi]@));
                    if j - 1 > pi {
                        assert(lex_le(pre[pi]@, pre[j - 1]@));
                        lemma_lex_le_trans(x@, pre[pi]@, pre[j - 1]@);
                    }
                }
            } else {
                assert(out@[i] == pre[i - 1] && out@[j] == pre[j - 1]);
            }
        }
    }
}

/// Sorts a list of names lexicographically; the result holds exactly
/// the given names.
pub fn sort_names(names: Vec<String>) -> (r: Vec<String>)
    ensures
        names_sorted(r@),
        r@.to_multiset() == names@.to_multiset(),
{
    let ghost orig = names@;
    let mut rest = names;
    let mut out: Vec<String> = Vec::new();
    proof {
        assert(out@.to_multiset().add(rest@.to_multiset()) =~= orig.to_multiset());
    }
    while rest.len() > 0
        invariant
            names_sorted(out@),
            out@.to_multiset().add(rest@.to_multiset()) == orig.to_multiset(),
        decreases rest.len(),
    {
        let ghost pre_rest = rest@;
        let x = rest.pop().unwrap();
        proof {
            assert(pre_rest =~= rest@.push(x));
            assert(rest@.push(x).to_multiset() =~= rest@.to_multiset().insert(x));
            assert(pre_rest.to_multiset() == rest@.to_multiset().insert(x));
        }
        insert_sorted(&mut out, x);
        proof {
            assert(out@.to_multiset().add(rest@.to_multiset()) =~= orig.to_multiset());
        }
    }
    proof {
        assert(rest@.to_multiset() =~= Multiset::<String>::empty());
        assert(out@.to_multiset() =~= orig.to_multiset());
    }
    out
}

/// What a `load` must do next, decided from the cache alone.
#[derive(Debug)]
pub enum LoadPlan {
    /// The cache held a list: show it now and refresh in the
    /// background.
    CachedThenRefresh { immediate: Vec<String> },
    /// Cache miss: fetch synchronously before anything is shown.
    FetchNow,
}

/// Accumulates the pages of a paginated fetch.  The fetch is finished
/// only when a page arrives without a continuation token, however many
/// empty pages precede it.
pub struct PageCollector<T> {
    items: Vec<T>,
    done: bool,
}

impl<T> PageCollector<T> {
    /// The items gathered so far.
    pub closed spec fn items_view(&self) -> Seq<T> {
        self.items@
    }

    /// Whether the source reported no further continuation token.
    pub closed spec fn is_done(&self) -> bool {
        self.done
    }

    /// An empty collector, still expecting pages.
    pub fn new() -> (r: PageCollector<T>)
        ensures
            r.items_view() == Seq::<T>::empty(),
            !r.is_done(),
    {
        PageCollector { items: Vec::new(), done: false }
    }

    /// Appends one fetched page; `has_more` is whether the response
    /// carried a continuation token.
    pub fn push_page(&mut self, page: Vec<T>, has_more: bool)
        requires
            !old(self).is_done(),
        ensures
            final(self).items_view() == old(self).items_view() + page@,
            final(self).is_done() == !has_more,
    {
        let mut page = page;
        self.items.append(&mut page);
        self.done = !has_more;
    }

    /// Whether another page must still be requested.
    pub fn needs_more(&self) -> (r: bool)
        ensures
            r == !self.is_done(),
    {
        !self.done
    }

    /// The complete fetched list, once the final page has arrived.
    pub fn into_items(self) -> (r: Vec<T>)
        requires
            self.is_done(),
        ensures
            r@ == self.items_view(),
    {
        self.items
    }
}

/// A list of entity names for one account context, served from a
/// durable cache when possible and replaced wholesale when a full
/// fetch completes.  One load is expected to be in flight at a time;
/// nothing cancels an earlier refresh when a new load starts, and the
/// last completed refresh wins -- a deliberate simplification, since
/// screens are not re-entered while they load.
#[derive(Debug)]
pub struct CachedListSource {
    items: Vec<String>,
}

impl CachedListSource {
    /// The names currently served.
    pub closed spec fn items_view(&self) -> Seq<String> {
        self.items@
    }

    /// An empty source.
    pub fn new() -> (r: CachedListSource)
        ensures
            r.items_view() == Seq::<String>::empty(),
    {
        CachedListSource { items: Vec::new() }
    }

    /// The names currently served, for display.
    pub fn items(&self) -> (r: &Vec<String>)
        ensures
            r@ == self.items_view(),
    {
        &self.items
    }

    /// Starts a load from the parsed cache contents: a hit is served
    /// immediately (and verbatim, in its cached order) and a refresh
    /// is owed; a miss defers to a synchronous fetch.
    pub fn load(&mut self, cached: Option<Vec<String>>) -> (r: LoadPlan)
        ensures
            cached matches Some(names) ==> final(self).items_view() == names@ && (
            r matches LoadPlan::CachedThenRefresh { immediate } ==> immediate@ == names@),
            cached matches Some(names) ==> r is CachedThenRefresh,
            cached is None ==> r is FetchNow && final(self).items_view() == old(
                self,
            ).items_view(),
    {
        match cached {
            Some(names) => {
                self.items = names.clone();
                LoadPlan::CachedThenRefresh { immediate: names }
            },
            None => LoadPlan::FetchNow,
        }
    }

    /// Completes a full fetch: sorts the fetched names for
    /// deterministic display, replaces the served list in one
    /// assignment, and returns the payload that must rewrite the
    /// cache.
    pub fn apply_refresh(&mut self, fetched: Vec<String>) -> (cache_payload: String)
        ensures
            names_sorted(final(self).items_view()),
            final(self).items_view().to_multiset() == fetched@.to_multiset(),
            cache_payload@ == json_of_names(names_view(final(self).items_view())),
    {
        let sorted = sort_names(fetched);
        let payload = render_cache_payload(&sorted);
        proof {
            assert(sorted.deep_view() =~= names_view(sorted@));
        }
        self.items = sorted;
        payload
    }
}

} // verus!
