//! Character-level text utilities: whitespace classification,
//! substring search, and extraction of a string's characters.

use vstd::prelude::*;
use vstd::string::{StrSliceExecFns, StringExecFns, StringSliceAdditionalSpecFns};

verus! {

/// Relies on `String::push`: appends exactly one character.
#[verifier::external_body]
fn push_char(s: &mut String, c: char)
    ensures
        final(s)@ == old(s)@.push(c),
{
    s.push(c);
}

/// The characters of `v`, as a string.
pub fn chars_to_string(v: &Vec<char>) -> (r: String)
    ensures
        r@ == v@,
{
    let n = v.len();
    let mut r = String::new();
    let mut i: usize = 0;
    while i < n
        invariant
            n == v@.len(),
            i <= n,
            r@ =~= v@.subrange(0, i as int),
        decreases n - i,
    {
        push_char(&mut r, v[i]);
        i = i + 1;
        assert(r@ =~= v@.subrange(0, i as int));
    }
    assert(r@ =~= v@);
    r
}

/// A whitespace character, following the Unicode `White_Space` property
/// (the set that `str::split_whitespace` splits on).
pub open spec fn is_space_char(c: char) -> bool {
    ||| c == ' '
    ||| c == '\t'
    ||| c == '\n'
    ||| c == '\u{0B}'
    ||| c == '\u{0C}'
    ||| c == '\r'
    ||| c == '\u{85}'
    ||| c == '\u{A0}'
    ||| c == '\u{1680}'
    ||| ('\u{2000}' <= c && c <= '\u{200A}')
    ||| c == '\u{2028}'
    ||| c == '\u{2029}'
    ||| c == '\u{202F}'
    ||| c == '\u{205F}'
    ||| c == '\u{3000}'
}

/// Executable check for [`is_space_char`].
pub fn is_space(c: char) -> (r: bool)
    ensures
        r == is_space_char(c),
{
    c == ' ' || c == '\t' || c == '\n' || c == '\u{0B}' || c == '\u{0C}' || c == '\r'
        || c == '\u{85}' || c == '\u{A0}' || c == '\u{1680}'
        || ('\u{2000}' <= c && c <= '\u{200A}') || c == '\u{2028}' || c == '\u{2029}'
        || c == '\u{202F}' || c == '\u{205F}' || c == '\u{3000}'
}

/// The characters of `s`, as a vector.
pub fn str_chars(s: &str) -> (r: Vec<char>)
    ensures
        r@ == s@,
{
    let n = s.unicode_len();
    let mut r: Vec<char> = Vec::new();
    let mut i: usize = 0;
    while i < n
        invariant
            n == s@.len(),
            i <= n,
            r@ == s@.subrange(0, i as int),
        decreases n - i,
    {
        r.push(s.get_char(i));
        i = i + 1;
        assert(r@ =~= s@.subrange(0, i as int));
    }
    assert(r@ =~= s@);
    r
}

/// `needle` occurs in `hay` starting at position `i`.
pub open spec fn matches_at(needle: Seq<char>, hay: Seq<char>, i: int) -> bool {
    0 <= i && i + needle.len() <= hay.len() && hay.subrange(i, i + needle.len()) == needle
}

/// `needle` occurs contiguously inside `hay`.
pub open spec fn is_substring(needle: Seq<char>, hay: Seq<char>) -> bool {
    exists|i: int| #[trigger] matches_at(needle, hay, i)
}

fn chars_match_at(hay: &Vec<char>, needle: &Vec<char>, at: usize) -> (r: bool)
    requires
        at + needle@.len() <= hay@.len(),
    ensures
        r == matches_at(needle@, hay@, at as int),
{
    let n = needle.len();
    let hlen = hay.len();
    let mut j: usize = 0;
    while j < n
        invariant
            n == needle@.len(),
            hlen == hay@.len(),
            at + n <= hlen,
            j <= n,
            forall|k: int| 0 <= k < j ==> hay@[at + k] == needle@[k],
        decreases n - j,
    {
        if hay[at + j] != needle[j] {
            assert(hay@.subrange(at as int, at + n) != needle@) by {
                assert(hay@.subrange(at as int, at + n)[j as int] != needle@[j as int]);
            }
            return false;
        }
        j = j + 1;
    }
    assert(hay@.subrange(at as int, at + n) =~= needle@);
    true
}

/// Whether `needle`'s characters occur contiguously inside `hay`'s.
pub fn contains_chars(hay: &Vec<char>, needle: &Vec<char>) -> (r: bool)
    ensures
        r == is_substring(needle@, hay@),
{
    let hn = hay.len();
    let nn = needle.len();
    if nn == 0 {
        assert(matches_at(needle@, hay@, 0)) by {
            assert(hay@.subrange(0, 0) =~= needle@);
        }
        return true;
    }
    if nn > hn {
        return false;
    }
    let last = hn - nn;
    let mut i: usize = 0;
    while i <= last
        invariant
            hn == hay@.len(),
            nn == needle@.len(),
            1 <= nn <= hn,
            last == hn - nn,
            i <= last + 1,
            forall|k: int| 0 <= k < i ==> !matches_at(needle@, hay@, k),
        decreases last + 1 - i,
    {
        if chars_match_at(hay, needle, i) {
            return true;
        }
        i = i + 1;
    }
    assert(forall|k: int| matches_at(needle@, hay@, k) ==> 0 <= k <= last);
    false
}

/// Length of the run of non-space characters at the front of `s`.
pub open spec fn token_end(s: Seq<char>) -> int
    decreases s.len(),
{
    if s.len() == 0 || is_space_char(s[0]) {
        0
    } else {
        1 + token_end(s.drop_first())
    }
}

pub proof fn lemma_token_end_bounds(s: Seq<char>)
    ensures
        0 <= token_end(s) <= s.len(),
        s.len() > 0 && !is_space_char(s[0]) ==> 1 <= token_end(s),
        forall|k: int| 0 <= k < token_end(s) ==> !is_space_char(s[k]),
        token_end(s) < s.len() ==> is_space_char(s[token_end(s)]),
    decreases s.len(),
{
    if s.len() == 0 || is_space_char(s[0]) {
    } else {
        lemma_token_end_bounds(s.drop_first());
        assert forall|k: int| 0 <= k < token_end(s) implies !is_space_char(s[k]) by {
            if k > 0 {
                assert(s[k] == s.drop_first()[k - 1]);
            }
        }
        if token_end(s) < s.len() {
            assert(s[token_end(s)] == s.drop_first()[token_end(s) - 1]);
        }
    }
}

/// The whitespace-separated tokens of `s`, in order.
pub open spec fn tokens_of(s: Seq<char>) -> Seq<Seq<char>>
    decreases s.len(),
    via tokens_of_decreases
{
    if s.len() == 0 {
        Seq::empty()
    } else if is_space_char(s[0]) {
        tokens_of(s.drop_first())
    } else {
        seq![s.subrange(0, token_end(s))] + tokens_of(s.subrange(token_end(s), s.len() as int))
    }
}

#[via_fn]
proof fn tokens_of_decreases(s: Seq<char>) {
    lemma_token_end_bounds(s);
}

/// Lexicographic order on character sequences, by code point.
pub open spec fn lex_le(a: Seq<char>, b: Seq<char>) -> bool
    decreases a.len(),
{
    if a.len() == 0 {
        true
    } else if b.len() == 0 {
        false
    } else if a[0] == b[0] {
        lex_le(a.drop_first(), b.drop_first())
    } else {
        (a[0] as u32) < (b[0] as u32)
    }
}

/// Lexicographic order is total.
pub proof fn lemma_lex_le_total(a: Seq<char>, b: Seq<char>)
    ensures
        lex_le(a, b) || lex_le(b, a),
    decreases a.len(),
{
    if a.len() == 0 || b.len() == 0 {
    } else if a[0] == b[0] {
        lemma_lex_le_total(a.drop_first(), b.drop_first());
    } else {
        lemma_char_cast_injective(a[0], b[0]);
    }
}

/// Distinct characters have distinct code points.
proof fn lemma_char_cast_injective(a: char, b: char)
    requires
        a != b,
    ensures
        a as u32 != b as u32,
{
    assert(a as u32 as char == a);
    assert(b as u32 as char == b);
}

/// Lexicographic order is transitive.
pub proof fn lemma_lex_le_trans(a: Seq<char>, b: Seq<char>, c: Seq<char>)
    requires
        lex_le(a, b),
        lex_le(b, c),
    ensures
        lex_le(a, c),
    decreases a.len(),
{
    if a.len() == 0 || b.len() == 0 || c.len() == 0 {
    } else if a[0] == b[0] && b[0] == c[0] {
        lemma_lex_le_trans(a.drop_first(), b.drop_first(), c.drop_first());
    }
}

/// Equal prefixes do not affect the order of the remainders.
proof fn lemma_lex_le_skip(a: Seq<char>, b: Seq<char>, i: int)
    requires
        0 <= i <= a.len(),
        i <= b.len(),
        forall|k: int| 0 <= k < i ==> a[k] == b[k],
    ensures
        lex_le(a, b) == lex_le(a.skip(i), b.skip(i)),
    decreases i,
{
    if i > 0 {
        assert(a[0] == b[0]);
        let a1 = a.drop_first();
        let b1 = b.drop_first();
        assert forall|k: int| 0 <= k < i - 1 implies a1[k] == b1[k] by {
            assert(a1[k] == a[k + 1]);
            assert(b1[k] == b[k + 1]);
        }
        lemma_lex_le_skip(a1, b1, i - 1);
        assert(a1.skip(i - 1) =~= a.skip(i));
        assert(b1.skip(i - 1) =~= b.skip(i));
    } else {
        assert(a.skip(0) =~= a);
        assert(b.skip(0) =~= b);
    }
}

/// Decides the lexicographic order of two character vectors.
pub fn chars_le(a: &Vec<char>, b: &Vec<char>) -> (r: bool)
    ensures
        r == lex_le(a@, b@),
{
    let alen = a.len();
    let blen = b.len();
    let n = if alen < blen {
        alen
    } else {
        blen
    };
    let mut i: usize = 0;
    while i < n
        invariant
            alen == a@.len(),
            blen == b@.len(),
            n == if alen < blen {
                alen as int
            } else {
                blen as int
            },
            i <= n,
            forall|k: int| 0 <= k < i ==> a@[k] == b@[k],
        decreases n - i,
    {
        let ca = a[i];
        let cb = b[i];
        if ca != cb {
            proof {
                lemma_lex_le_skip(a@, b@, i as int);
            }
            return (ca as u32) < (cb as u32);
        }
        i = i + 1;
    }
    proof {
        lemma_lex_le_skip(a@, b@, n as int);
        if alen <= blen {
            assert(a@.skip(n as int) =~= Seq::<char>::empty());
        } else {
            assert(b@.skip(n as int) =~= Seq::<char>::empty());
            assert(a@.skip(n as int).len() > 0);
        }
    }
    alen <= blen
}

/// Decides the lexicographic order of two strings.
pub fn str_le(a: &str, b: &str) -> (r: bool)
    ensures
        r == lex_le(a@, b@),
{
    let ac = str_chars(a);
    let bc = str_chars(b);
    chars_le(&ac, &bc)
}

/// `token_end` is the unique position bounding the front run of
/// non-space characters.
pub proof fn lemma_token_end_is(t: Seq<char>, p: int)
    requires
        0 <= p <= t.len(),
        forall|m: int| 0 <= m < p ==> !is_space_char(t[m]),
        p == t.len() || is_space_char(t[p]),
    ensures
        token_end(t) == p,
    decreases p,
{
    if p == 0 {
    } else {
        assert(!is_space_char(t[0]));
        let d = t.drop_first();
        assert forall|m: int| 0 <= m < p - 1 implies !is_space_char(d[m]) by {
            assert(d[m] == t[m + 1]);
        }
        if p - 1 < d.len() {
            assert(d[p - 1] == t[p]);
        }
        lemma_token_end_is(d, p - 1);
    }
}

/// Splits `s` into its whitespace-separated tokens.
pub fn tokenize(s: &Vec<char>) -> (r: Vec<Vec<char>>)
    ensures
        r.deep_view() == tokens_of(s@),
{
    let n = s.len();
    let mut r: Vec<Vec<char>> = Vec::new();
    let mut i: usize = 0;
    proof {
        assert(s@.subrange(0, n as int) =~= s@);
        assert(r.deep_view() =~~= Seq::<Seq<char>>::empty());
        assert(r.deep_view() + tokens_of(s@) =~~= tokens_of(s@));
    }
    while i < n
        invariant
            n == s@.len(),
            i <= n,
            r.deep_view() + tokens_of(s@.subrange(i as int, n as int)) =~~= tokens_of(s@),
        decreases n - i,
    {
        if is_space(s[i]) {
            proof {
                assert(s@.subrange(i as int, n as int).drop_first() =~= s@.subrange(
                    i + 1,
                    n as int,
                ));
            }
            i = i + 1;
        } else {
            let start = i;
            let mut j: usize = i + 1;
            while j < n && !is_space(s[j])
                invariant
                    n == s@.len(),
                    start < j <= n,
                    forall|m: int| start <= m < j ==> !is_space_char(s@[m]),
                decreases n - j,
            {
                j = j + 1;
            }
            let mut tok: Vec<char> = Vec::new();
            let mut k: usize = start;
            while k < j
                invariant
                    n == s@.len(),
                    start <= k <= j <= n,
                    tok@ =~= s@.subrange(start as int, k as int),
                decreases j - k,
            {
                tok.push(s[k]);
                k = k + 1;
                assert(tok@ =~= s@.subrange(start as int, k as int));
            }
            proof {
                let rest = s@.subrange(i as int, n as int);
                assert forall|m: int| 0 <= m < j - i implies !is_space_char(rest[m]) by {
                    assert(rest[m] == s@[i + m]);
                }
                if j < n {
                    assert(rest[j - i] == s@[j as int]);
                }
                lemma_token_end_is(rest, j - i);
                assert(rest.subrange(0, j - i) =~= s@.subrange(i as int, j as int));
                assert(rest.subrange(j - i, rest.len() as int) =~= s@.subrange(
                    j as int,
                    n as int,
                ));
                assert(tokens_of(rest) =~~= seq![s@.subrange(i as int, j as int)] + tokens_of(
                    s@.subrange(j as int, n as int),
                ));
            }
            r.push(tok);
            proof {
                assert(r.deep_view() =~~= r.deep_view().drop_last().push(tok@));
            }
            i = j;
        }
    }
    proof {
        assert(s@.subrange(i as int, n as int) =~= Seq::<char>::empty());
        assert(tokens_of(Seq::<char>::empty()) =~~= Seq::<Seq<char>>::empty());
        assert(r.deep_view() =~~= tokens_of(s@));
    }
    r
}

/// One step of the greedy word wrap: the accumulated lines and the
/// line under construction, after taking `word`.
pub open spec fn wrap_step(
    state: (Seq<Seq<char>>, Seq<char>),
    word: Seq<char>,
    width: int,
) -> (Seq<Seq<char>>, Seq<char>) {
    let (acc, line) = state;
    if line.len() + word.len() + 1 <= width {
        if line.len() == 0 {
            (acc, word)
        } else {
            (acc, line + seq![' '] + word)
        }
    } else {
        if line.len() == 0 {
            (acc, word)
        } else {
            (acc.push(line), word)
        }
    }
}

/// The greedy word wrap folded over a word list.
pub open spec fn wrap_fold(
    words: Seq<Seq<char>>,
    width: int,
    state: (Seq<Seq<char>>, Seq<char>),
) -> (Seq<Seq<char>>, Seq<char>)
    decreases words.len(),
{
    if words.len() == 0 {
        state
    } else {
        wrap_fold(words.drop_first(), width, wrap_step(state, words[0], width))
    }
}

/// The lines of `text` wrapped greedily to `width` columns: words are
/// packed onto a line while they fit with a separating space; a text
/// without any such line (empty, or a single overlong word opening it)
/// yields the text itself as one line.
pub open spec fn greedy_wrap(text: Seq<char>, width: int) -> Seq<Seq<char>> {
    let folded = wrap_fold(tokens_of(text), width, (Seq::empty(), Seq::empty()));
    let wrapped = if folded.1.len() > 0 {
        folded.0.push(folded.1)
    } else {
        folded.0
    };
    if wrapped.len() == 0 {
        seq![text]
    } else {
        wrapped
    }
}

/// Wraps `text` into lines of at most `width` columns, greedily.
pub fn wrap_text(text: &str, width: usize) -> (r: Vec<String>)
    ensures
        r.deep_view() == greedy_wrap(text@, width as int),
{
    let chars = str_chars(text);
    let tokens = tokenize(&chars);
    let ghost all_words = tokens.deep_view();
    let ghost start_state = (Seq::<Seq<char>>::empty(), Seq::<char>::empty());
    let n = tokens.len();
    let mut acc: Vec<Vec<char>> = Vec::new();
    let mut line: Vec<char> = Vec::new();
    let mut idx: usize = 0;
    proof {
        assert(all_words.skip(0) =~= all_words);
        assert(acc.deep_view() =~~= start_state.0);
        assert(line@ =~= start_state.1);
        assert((acc.deep_view(), line@) == start_state);
    }
    while idx < n
        invariant
            n == tokens@.len(),
            idx <= n,
            tokens.deep_view() == all_words,
            all_words == tokens_of(text@),
            start_state == (Seq::<Seq<char>>::empty(), Seq::<char>::empty()),
            wrap_fold(all_words.skip(idx as int), width as int, (acc.deep_view(), line@))
                == wrap_fold(all_words, width as int, start_state),
        decreases n - idx,
    {
        let word = &tokens[idx];
        let wl = word.len();
        let ll = line.len();
        proof {
            assert(all_words.skip(idx as int)[0] == all_words[idx as int]);
            assert(all_words.skip(idx as int).drop_first() =~= all_words.skip(idx + 1));
            assert(tokens@[idx as int]@ == all_words[idx as int]);
        }
        let ghost pre_state = (acc.deep_view(), line@);
        let ghost stepped = wrap_step(pre_state, all_words[idx as int], width as int);
        let fits = ll < width && wl <= width - ll - 1;
        proof {
            assert(fits == (line@.len() + word@.len() + 1 <= width as int));
        }
        if fits {
            if ll > 0 {
                line.push(' ');
            }
            let mut w = word.clone();
            line.append(&mut w);
            proof {
                assert(acc.deep_view() =~~= stepped.0);
                if pre_state.1.len() == 0 {
                    assert(line@ =~= all_words[idx as int]);
                } else {
                    assert(line@ =~= pre_state.1 + seq![' '] + all_words[idx as int]);
                }
                assert((acc.deep_view(), line@) == stepped);
            }
        } else {
            if ll > 0 {
                acc.push(line);
                proof {
                    assert(acc.deep_view() =~~= pre_state.0.push(pre_state.1));
                }
                line = word.clone();
            } else {
                line = word.clone();
                proof {
                    assert(acc.deep_view() =~~= pre_state.0);
                }
            }
            proof {
                assert(line@ =~= stepped.1);
                assert((acc.deep_view(), line@) == stepped);
            }
        }
        idx = idx + 1;
    }
    let ghost folded = wrap_fold(all_words, width as int, start_state);
    let ghost target = greedy_wrap(text@, width as int);
    proof {
        assert(all_words.skip(n as int) =~= Seq::<Seq<char>>::empty());
        assert(folded == (acc.deep_view(), line@));
    }
    if line.len() > 0 {
        let ghost pre_acc = acc.deep_view();
        acc.push(line);
        proof {
            assert(acc.deep_view() =~~= pre_acc.push(folded.1));
            assert(acc.deep_view() =~~= target);
        }
    }
    if acc.len() == 0 {
        let mut r: Vec<String> = Vec::new();
        r.push(String::from_str(text));
        proof {
            assert(r.deep_view() =~~= seq![text@]);
            assert(target =~~= seq![text@]);
        }
        return r;
    }
    proof {
        assert(acc.deep_view() =~~= target);
    }
    let mut r: Vec<String> = Vec::new();
    let m = acc.len();
    let mut j: usize = 0;
    while j < m
        invariant
            m == acc@.len(),
            j <= m,
            r.deep_view() =~~= acc.deep_view().subrange(0, j as int),
        decreases m - j,
    {
        let ghost dv = acc.deep_view();
        let ghost jj = j as int;
        proof {
            assert(dv[jj] == acc@[jj].deep_view());
            assert(acc@[jj].deep_view() =~= acc@[jj]@);
        }
        r.push(chars_to_string(&acc[j]));
        j = j + 1;
        proof {
            assert(dv.subrange(0, jj + 1) =~~= dv.subrange(0, jj).push(dv[jj]));
            assert(r.deep_view() =~~= dv.subrange(0, jj + 1));
        }
    }
    proof {
        assert(r.deep_view() =~~= acc.deep_view());
    }
    r
}

/// `text` cut to at most `width` columns: a longer text keeps its
/// first `width - 3` characters and ends in an ellipsis.  Texts whose
/// byte length fits are returned whole.
pub fn truncate_to_width(text: &str, width: usize) -> (r: String)
    requires
        text.spec_bytes().len() <= width || width >= 3,
    ensures
        text.spec_bytes().len() <= width ==> r@ == text@,
        text.spec_bytes().len() > width ==> r@ == (if text@.len() >= width - 3 {
            text@.subrange(0, width - 3)
        } else {
            text@
        }) + "..."@,
{
    let byte_len = text.as_bytes().len();
    if byte_len <= width {
        return String::from_str(text);
    }
    let keep = width - 3;
    let total = text.unicode_len();
    let take = if keep < total {
        keep
    } else {
        total
    };
    let mut r = String::new();
    let mut i: usize = 0;
    while i < take
        invariant
            take <= total,
            total == text@.len(),
            i <= take,
            r@ =~= text@.subrange(0, i as int),
        decreases take - i,
    {
        push_char(&mut r, text.get_char(i));
        i = i + 1;
        assert(r@ =~= text@.subrange(0, i as int));
    }
    r.append("...");
    proof {
        if text@.len() >= keep {
            assert(r@ =~= text@.subrange(0, keep as int) + "..."@);
        } else {
            assert(text@.subrange(0, total as int) =~= text@);
            assert(r@ =~= text@ + "..."@);
        }
    }
    r
}

} // verus!
