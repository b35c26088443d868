//! The candidate selector: maps the focused window's executable name and
//! title onto one of the identifier strings enumerated by the control target.
//!
//! A candidate is kept when its text begins with the literal prefix
//! `"[exe]:"`; among the kept candidates the selector prefers one whose
//! lowercase text contains the lowercase window title, longer texts (and, at
//! equal length, later positions) winning.  When no kept candidate contains
//! the title, the longest kept candidate is chosen; when none is kept at all,
//! a caller-supplied fallback string is returned unchanged.

use vstd::prelude::*;
use vstd::string::StrSliceExecFns;
use vstd::string::StringExecFns;
use vstd::utf8::encode_utf8;

verus! {

/// The lowercase mapping of a text, as `str::to_lowercase` computes it.
pub uninterp spec fn lower_of(s: Seq<char>) -> Seq<char>;

/// Relies on `str::to_lowercase`: the lowercase form of the text, a function
/// of the characters alone.
#[verifier::external_body]
fn lowercase(s: &str) -> (lowered: String)
    ensures
        lowered@ == lower_of(s@),
{
    s.to_lowercase()
}

/// The length in bytes of a text's UTF-8 form; candidates are ordered by it.
pub open spec fn byte_len(s: Seq<char>) -> nat {
    encode_utf8(s).len()
}

/// `c` begins with the literal prefix `[exe]:`.
pub open spec fn has_exe_prefix(c: Seq<char>, exe: Seq<char>) -> bool {
    &&& c.len() >= exe.len() + 3
    &&& c[0] == '['
    &&& c.subrange(1, exe.len() + 1int) == exe
    &&& c[exe.len() + 1int] == ']'
    &&& c[exe.len() + 2int] == ':'
}

/// `needle` occurs contiguously somewhere in `hay`.
pub open spec fn contains_text(hay: Seq<char>, needle: Seq<char>) -> bool {
    exists|i: int|
        0 <= i && i + needle.len() <= hay.len() && #[trigger] hay.subrange(i, i + needle.len())
            == needle
}

/// The candidate both carries the executable prefix and contains the window
/// title, case-insensitively.
pub open spec fn title_matches(c: Seq<char>, exe: Seq<char>, title: Seq<char>) -> bool {
    has_exe_prefix(c, exe) && contains_text(lower_of(c), lower_of(title))
}

/// The title-match test as a predicate on one candidate.
pub open spec fn title_pred(exe: Seq<char>, title: Seq<char>) -> spec_fn(Seq<char>) -> bool {
    |c: Seq<char>| title_matches(c, exe, title)
}

/// The prefix test as a predicate on one candidate.
pub open spec fn prefix_pred(exe: Seq<char>) -> spec_fn(Seq<char>) -> bool {
    |c: Seq<char>| has_exe_prefix(c, exe)
}

/// The index of the best candidate satisfying `p`: the one of maximal byte
/// length, ties broken towards the later position; `-1` when none satisfies
/// `p`.  This is exactly the element found first when the candidates are
/// stably sorted by ascending length and scanned from the longest end.
pub open spec fn best_index(cs: Seq<Seq<char>>, p: spec_fn(Seq<char>) -> bool) -> int
    decreases cs.len(),
{
    if cs.len() == 0 {
        -1
    } else {
        let rest = best_index(cs.drop_last(), p);
        if p(cs.last()) && (rest < 0 || byte_len(cs.last()) >= byte_len(cs[rest])) {
            cs.len() - 1
        } else {
            rest
        }
    }
}

/// What the selector returns: the best title-matching candidate; else the
/// best (longest) prefixed candidate; else the fallback.
pub open spec fn selected(
    exe: Seq<char>,
    title: Seq<char>,
    cs: Seq<Seq<char>>,
    fallback: Seq<char>,
) -> Seq<char> {
    let bt = best_index(cs, title_pred(exe, title));
    let bp = best_index(cs, prefix_pred(exe));
    if bt >= 0 {
        cs[bt]
    } else if bp >= 0 {
        cs[bp]
    } else {
        fallback
    }
}

proof fn lemma_best_index_bounds(cs: Seq<Seq<char>>, p: spec_fn(Seq<char>) -> bool)
    ensures
        -1 <= best_index(cs, p) < cs.len(),
        best_index(cs, p) >= 0 ==> p(cs[best_index(cs, p)]),
    decreases cs.len(),
{
    if cs.len() > 0 {
        lemma_best_index_bounds(cs.drop_last(), p);
    }
}

/// What the best index is: the position of the maximal element satisfying
/// `p`, by byte length and then by position.
proof fn lemma_best_index_is_max(cs: Seq<Seq<char>>, p: spec_fn(Seq<char>) -> bool)
    ensures
        best_index(cs, p) == -1 ==> forall|i: int| 0 <= i < cs.len() ==> !p(#[trigger] cs[i]),
        best_index(cs, p) >= 0 ==> p(cs[best_index(cs, p)]) && forall|j: int|
            0 <= j < cs.len() && p(#[trigger] cs[j]) ==> byte_len(cs[j]) < byte_len(
                cs[best_index(cs, p)],
            ) || (byte_len(cs[j]) == byte_len(cs[best_index(cs, p)]) && j <= best_index(cs, p)),
    decreases cs.len(),
{
    if cs.len() > 0 {
        let front = cs.drop_last();
        let rest = best_index(front, p);
        let b = best_index(cs, p);
        let last = cs.len() - 1;
        lemma_best_index_is_max(front, p);
        lemma_best_index_bounds(front, p);
        assert(forall|j: int| 0 <= j < front.len() ==> #[trigger] front[j] == cs[j]);
        if p(cs.last()) && (rest < 0 || byte_len(cs.last()) >= byte_len(cs[rest])) {
            assert(b == last);
            assert forall|j: int| 0 <= j < cs.len() && p(#[trigger] cs[j]) implies byte_len(cs[j])
                < byte_len(cs[b]) || (byte_len(cs[j]) == byte_len(cs[b]) && j <= b) by {
                if j < last {
                    assert(p(front[j]));
                    assert(rest >= 0);
                    assert(byte_len(front[j]) < byte_len(front[rest]) || (byte_len(front[j])
                        == byte_len(front[rest]) && j <= rest));
                    assert(byte_len(cs[rest]) <= byte_len(cs[last]));
                }
            }
        } else {
            assert(b == rest);
            if rest >= 0 {
                assert forall|j: int| 0 <= j < cs.len() && p(#[trigger] cs[j]) implies byte_len(
                    cs[j],
                ) < byte_len(cs[b]) || (byte_len(cs[j]) == byte_len(cs[b]) && j <= b) by {
                    if j == last {
                        assert(byte_len(cs.last()) < byte_len(cs[rest]));
                    } else {
                        assert(p(front[j]));
                        assert(byte_len(front[j]) < byte_len(front[rest]) || (byte_len(front[j])
                            == byte_len(front[rest]) && j <= rest));
                    }
                }
            } else {
                assert(!p(cs.last()));
                assert forall|i: int| 0 <= i < cs.len() implies !p(#[trigger] cs[i]) by {
                    if i < last {
                        assert(front[i] == cs[i]);
                        assert(!p(front[i]));
                    } else {
                        assert(cs[i] == cs.last());
                    }
                }
            }
        }
    }
}

/// When nothing satisfies `p`, there is no best index.
proof fn lemma_best_index_none(cs: Seq<Seq<char>>, p: spec_fn(Seq<char>) -> bool)
    requires
        forall|i: int| 0 <= i < cs.len() ==> !p(#[trigger] cs[i]),
    ensures
        best_index(cs, p) == -1,
    decreases cs.len(),
{
    if cs.len() > 0 {
        assert(!p(cs.last()));
        lemma_best_index_none(cs.drop_last(), p);
    }
}

/// When exactly one element satisfies `p`, it is the best.
proof fn lemma_best_index_unique(cs: Seq<Seq<char>>, p: spec_fn(Seq<char>) -> bool, k: int)
    requires
        0 <= k < cs.len(),
        p(cs[k]),
        forall|i: int| 0 <= i < cs.len() && i != k ==> !p(#[trigger] cs[i]),
    ensures
        best_index(cs, p) == k,
    decreases cs.len(),
{
    let front = cs.drop_last();
    if k == cs.len() - 1 {
        assert(forall|i: int| 0 <= i < front.len() ==> !p(#[trigger] front[i]));
        lemma_best_index_none(front, p);
    } else {
        assert(!p(cs.last()));
        assert(front[k] == cs[k]);
        lemma_best_index_unique(front, p, k);
    }
}

/// The selector is a pure function: for fixed executable name, title,
/// candidate list and fallback, it always returns the same value.
pub proof fn lemma_selector_deterministic(
    exe: Seq<char>,
    title: Seq<char>,
    cs: Seq<Seq<char>>,
    fallback: Seq<char>,
    r1: Seq<char>,
    r2: Seq<char>,
)
    requires
        r1 == selected(exe, title, cs, fallback),
        r2 == selected(exe, title, cs, fallback),
    ensures
        r1 == r2,
{
}

/// When no candidate begins with the executable prefix, the selector returns
/// the fallback, whatever the title.
pub proof fn lemma_no_prefix_gives_fallback(
    exe: Seq<char>,
    title: Seq<char>,
    cs: Seq<Seq<char>>,
    fallback: Seq<char>,
)
    requires
        forall|i: int| 0 <= i < cs.len() ==> !has_exe_prefix(#[trigger] cs[i], exe),
    ensures
        selected(exe, title, cs, fallback) == fallback,
{
    lemma_best_index_none(cs, prefix_pred(exe));
    lemma_best_index_none(cs, title_pred(exe, title));
}

/// When exactly one candidate carries the prefix and contains the title
/// case-insensitively, that candidate is selected.
pub proof fn lemma_unique_title_match_selected(
    exe: Seq<char>,
    title: Seq<char>,
    cs: Seq<Seq<char>>,
    fallback: Seq<char>,
    k: int,
)
    requires
        0 <= k < cs.len(),
        title_matches(cs[k], exe, title),
        forall|i: int| 0 <= i < cs.len() && i != k ==> !title_matches(#[trigger] cs[i], exe, title),
    ensures
        selected(exe, title, cs, fallback) == cs[k],
{
    lemma_best_index_unique(cs, title_pred(exe, title), k);
    lemma_best_index_bounds(cs, title_pred(exe, title));
}

/// When no prefixed candidate contains the title but candidate `k` is the
/// longest with the prefix (later position winning a length tie), `k` is
/// selected.
pub proof fn lemma_no_title_match_gives_longest(
    exe: Seq<char>,
    title: Seq<char>,
    cs: Seq<Seq<char>>,
    fallback: Seq<char>,
    k: int,
)
    requires
        0 <= k < cs.len(),
        forall|i: int| 0 <= i < cs.len() ==> !title_matches(#[trigger] cs[i], exe, title),
        has_exe_prefix(cs[k], exe),
        forall|j: int|
            0 <= j < cs.len() && has_exe_prefix(#[trigger] cs[j], exe) ==> byte_len(cs[j])
                < byte_len(cs[k]) || (byte_len(cs[j]) == byte_len(cs[k]) && j <= k),
    ensures
        selected(exe, title, cs, fallback) == cs[k],
{
    lemma_best_index_none(cs, title_pred(exe, title));
    lemma_best_index_is_max(cs, prefix_pred(exe));
    lemma_best_index_bounds(cs, prefix_pred(exe));
    let b = best_index(cs, prefix_pred(exe));
    assert(b >= 0);
    assert(byte_len(cs[k]) < byte_len(cs[b]) || (byte_len(cs[k]) == byte_len(cs[b]) && k <= b));
    assert(byte_len(cs[b]) < byte_len(cs[k]) || (byte_len(cs[b]) == byte_len(cs[k]) && b <= k));
    assert(b == k);
}

/// True when `c` begins with the literal prefix `[exe]:`.
fn check_exe_prefix(c: &str, exe: &str) -> (kept: bool)
    ensures
        kept == has_exe_prefix(c@, exe@),
{
    let c_len = c.unicode_len();
    let exe_len = exe.unicode_len();
    if c_len < 3 || c_len - 3 < exe_len {
        return false;
    }
    if c.get_char(0) != '[' {
        return false;
    }
    let mut j: usize = 0;
    while j < exe_len
        invariant
            c_len == c@.len(),
            exe_len == exe@.len(),
            3 <= c_len,
            exe_len <= c_len - 3,
            j <= exe_len,
            forall|jj: int| 0 <= jj < j ==> c@[1 + jj] == exe@[jj],
        decreases exe_len - j,
    {
        if c.get_char(1 + j) != exe.get_char(j) {
            proof {
                assert(c@.subrange(1, exe@.len() + 1int)[j as int] == c@[1 + j]);
            }
            return false;
        }
        j += 1;
    }
    proof {
        assert(c@.subrange(1, exe@.len() + 1int) =~= exe@);
    }
    if c.get_char(exe_len + 1) != ']' {
        return false;
    }
    if c.get_char(exe_len + 2) != ':' {
        return false;
    }
    true
}

/// True when `needle` occurs contiguously in `hay`.
fn contains_anywhere(hay: &str, needle: &str) -> (found: bool)
    ensures
        found == contains_text(hay@, needle@),
{
    let hay_len = hay.unicode_len();
    let needle_len = needle.unicode_len();
    if needle_len > hay_len {
        return false;
    }
    if needle_len == 0 {
        proof {
            assert(contains_text(hay@, needle@)) by {
                assert(hay@.subrange(0, 0 + needle@.len() as int) =~= needle@);
            }
        }
        return true;
    }
    let mut i: usize = 0;
    while i <= hay_len - needle_len
        invariant
            hay_len == hay@.len(),
            needle_len == needle@.len(),
            1 <= needle_len <= hay_len,
            i <= hay_len - needle_len + 1,
            forall|ii: int|
                0 <= ii < i ==> #[trigger] hay@.subrange(ii, ii + needle@.len()) != needle@,
        decreases hay_len - needle_len - i + 1,
    {
        let mut j: usize = 0;
        let mut matched = true;
        while matched && j < needle_len
            invariant
                hay_len == hay@.len(),
                needle_len == needle@.len(),
                needle_len <= hay_len,
                i <= hay_len - needle_len,
                j <= needle_len,
                matched ==> forall|jj: int| 0 <= jj < j ==> hay@[i + jj] == needle@[jj],
                !matched ==> hay@.subrange(i as int, i + needle@.len()) != needle@,
            decreases needle_len - j + (if matched { 1int } else { 0int }),
        {
            if hay.get_char(i + j) != needle.get_char(j) {
                proof {
                    assert(hay@.subrange(i as int, i + needle@.len())[j as int] == hay@[i + j]);
                }
                matched = false;
            } else {
                j += 1;
            }
        }
        if matched {
            proof {
                assert(hay@.subrange(i as int, i + needle@.len()) =~= needle@);
            }
            return true;
        }
        i += 1;
    }
    false
}

/// Chooses the identifier to apply for a focused window: the best candidate
/// beginning with `[exe]:` whose lowercase text contains the lowercase
/// `title`; lacking one, the longest candidate with that prefix; lacking any,
/// the `fallback` unchanged.  Longer candidates win, ties going to the later
/// position, exactly as a stable ascending-length sort scanned from its long
/// end decides.
pub fn select_candidate(exe: &str, title: &str, candidates: &Vec<String>, fallback: &str) -> (
    chosen: String)
    ensures
        chosen@ == selected(exe@, title@, candidates.deep_view(), fallback@),
{
    let ghost cs = candidates.deep_view();
    let ghost pt = title_pred(exe@, title@);
    let ghost pp = prefix_pred(exe@);
    let title_lower = lowercase(title);
    let n = candidates.len();
    proof {
        assert(cs.len() == n);
    }
    let mut best_title: Option<usize> = None;
    let mut best_prefix: Option<usize> = None;
    let mut i: usize = 0;
    while i < n
        invariant
            cs == candidates.deep_view(),
            n == candidates@.len(),
            cs.len() == n,
            forall|k: int| 0 <= k < n ==> #[trigger] cs[k] == candidates@[k]@,
            pt == title_pred(exe@, title@),
            pp == prefix_pred(exe@),
            title_lower@ == lower_of(title@),
            i <= n,
            match best_title {
                Option::None => best_index(cs.take(i as int), pt) == -1,
                Option::Some(b) => b < i && best_index(cs.take(i as int), pt) == b,
            },
            match best_prefix {
                Option::None => best_index(cs.take(i as int), pp) == -1,
                Option::Some(b) => b < i && best_index(cs.take(i as int), pp) == b,
            },
        decreases n - i,
    {
        let c: &String = &candidates[i];
        proof {
            assert(c@ == cs[i as int]);
        }
        let kept = check_exe_prefix(c.as_str(), exe);
        let title_hit = if kept {
            let c_lower = lowercase(c.as_str());
            contains_anywhere(c_lower.as_str(), title_lower.as_str())
        } else {
            false
        };
        proof {
            assert(kept == pp(cs[i as int]));
            assert(title_hit == pt(cs[i as int]));
            let prev = cs.take(i as int);
            let cur = cs.take(i + 1int);
            assert(cur.drop_last() =~= prev);
            assert(cur.last() == cs[i as int]);
            lemma_best_index_bounds(prev, pt);
            lemma_best_index_bounds(prev, pp);
            let rest_t = best_index(prev, pt);
            let rest_p = best_index(prev, pp);
            if rest_t >= 0 {
                assert(cur[rest_t] == cs[rest_t]);
                assert(prev[rest_t] == cs[rest_t]);
            }
            if rest_p >= 0 {
                assert(cur[rest_p] == cs[rest_p]);
                assert(prev[rest_p] == cs[rest_p]);
            }
        }
        if kept {
            let improves = match best_prefix {
                None => true,
                Some(b) => candidates[b].as_str().as_bytes().len() <= c.as_str().as_bytes().len(),
            };
            if improves {
                best_prefix = Some(i);
            }
        }
        if title_hit {
            let improves = match best_title {
                None => true,
                Some(b) => candidates[b].as_str().as_bytes().len() <= c.as_str().as_bytes().len(),
            };
            if improves {
                best_title = Some(i);
            }
        }
        proof {
            let prev = cs.take(i as int);
            let cur = cs.take(i + 1int);
            assert(cur.len() == i + 1);
            assert(cur.drop_last() =~= prev);
            assert(cur.last() == cs[i as int]);
            let rest_t = best_index(prev, pt);
            assert(best_index(cur, pt) == (if pt(cur.last()) && (rest_t < 0 || byte_len(
                cur.last(),
            ) >= byte_len(cur[rest_t])) {
                cur.len() - 1
            } else {
                rest_t
            }));
            let rest_p = best_index(prev, pp);
            assert(best_index(cur, pp) == (if pp(cur.last()) && (rest_p < 0 || byte_len(
                cur.last(),
            ) >= byte_len(cur[rest_p])) {
                cur.len() - 1
            } else {
                rest_p
            }));
        }
        i += 1;
    }
    proof {
        assert(cs.take(n as int) =~= cs);
    }
    match best_title {
        Some(b) => candidates[b].clone(),
        None => match best_prefix {
            Some(b) => candidates[b].clone(),
            None => String::from_str(fallback),
        },
    }
}

} // verus!
