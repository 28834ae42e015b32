//! Character-level text primitives: whitespace classes, trimming, token
//! boundaries and splitting, each stated over `Seq<char>`.

use vstd::prelude::*;
use vstd::std_specs::iter::IteratorSpec;
use vstd::string::StringExecFns;

verus! {

/// The characters that count as whitespace: the code points with the
/// Unicode `White_Space` property.
pub open spec fn is_space(c: char) -> bool {
    ||| '\u{9}' <= c <= '\u{d}'
    ||| c == ' '
    ||| c == '\u{85}'
    ||| c == '\u{a0}'
    ||| c == '\u{1680}'
    ||| '\u{2000}' <= c <= '\u{200a}'
    ||| c == '\u{2028}'
    ||| c == '\u{2029}'
    ||| c == '\u{202f}'
    ||| c == '\u{205f}'
    ||| c == '\u{3000}'
}

/// Index of the first character at or after `from` whose whitespace class
/// equals `space`; the length of `s` when there is none.
pub open spec fn first_at(s: Seq<char>, from: int, space: bool) -> int
    decreases s.len() - from,
{
    if from < 0 || from >= s.len() {
        s.len() as int
    } else if is_space(s[from]) == space {
        from
    } else {
        first_at(s, from + 1, space)
    }
}

/// Index just past the last non-whitespace character before `to`; 0 when
/// every character before `to` is whitespace.
pub open spec fn text_end(s: Seq<char>, to: int) -> int
    decreases to,
{
    if to <= 0 || to > s.len() {
        0
    } else if !is_space(s[to - 1]) {
        to
    } else {
        text_end(s, to - 1)
    }
}

/// `s` without its leading and trailing whitespace.
pub open spec fn trimmed(s: Seq<char>) -> Seq<char> {
    let a = first_at(s, 0, false);
    let b = text_end(s, s.len() as int);
    if a < b {
        s.subrange(a, b)
    } else {
        Seq::empty()
    }
}

/// Index of the first occurrence of `sep` at or after `from`; the length
/// of `s` when there is none.
pub open spec fn index_of(s: Seq<char>, sep: char, from: int) -> int
    decreases s.len() - from,
{
    if from < 0 || from >= s.len() {
        s.len() as int
    } else if s[from] == sep {
        from
    } else {
        index_of(s, sep, from + 1)
    }
}

/// Index just past the last occurrence of `sep` before `to`; 0 when `sep`
/// does not occur before `to`.
pub open spec fn after_last(s: Seq<char>, sep: char, to: int) -> int
    decreases to,
{
    if to <= 0 || to > s.len() {
        0
    } else if s[to - 1] == sep {
        to
    } else {
        after_last(s, sep, to - 1)
    }
}

/// The pieces of `s` between occurrences of `sep`, in order. A text
/// without `sep` is one piece; `n` separators give `n + 1` pieces, some
/// of which may be empty.
pub open spec fn split(s: Seq<char>, sep: char) -> Seq<Seq<char>>
    decreases s.len(),
{
    let i = index_of(s, sep, 0);
    if 0 <= i < s.len() {
        seq![s.subrange(0, i)] + split(s.skip(i + 1), sep)
    } else {
        seq![s]
    }
}

/// The views of a list of string slices.
pub open spec fn slice_views(pieces: Seq<&str>) -> Seq<Seq<char>> {
    Seq::new(pieces.len(), |i: int| pieces[i]@)
}

/// `first_at` is the one index that ends a run of the other class.
pub proof fn lemma_first_at(s: Seq<char>, from: int, space: bool, at: int)
    requires
        0 <= from <= at <= s.len(),
        forall|k: int| from <= k < at ==> is_space(#[trigger] s[k]) != space,
        at < s.len() ==> is_space(s[at]) == space,
    ensures
        first_at(s, from, space) == at,
    decreases at - from,
{
    if from < at {
        lemma_first_at(s, from + 1, space, at);
    }
}

/// What `first_at` returns, stated without recursion.
pub proof fn lemma_first_at_bounds(s: Seq<char>, from: int, space: bool)
    requires
        0 <= from <= s.len(),
    ensures
        from <= first_at(s, from, space) <= s.len(),
        forall|k: int|
            from <= k < first_at(s, from, space) ==> is_space(#[trigger] s[k]) != space,
        first_at(s, from, space) < s.len() ==> is_space(s[first_at(s, from, space)]) == space,
    decreases s.len() - from,
{
    if from < s.len() && is_space(s[from]) != space {
        lemma_first_at_bounds(s, from + 1, space);
    }
}

/// `text_end` is the one index that follows a non-whitespace character
/// and is followed by whitespace only.
pub proof fn lemma_text_end(s: Seq<char>, to: int, at: int)
    requires
        0 <= at <= to <= s.len(),
        forall|k: int| at <= k < to ==> is_space(#[trigger] s[k]),
        at > 0 ==> !is_space(s[at - 1]),
    ensures
        text_end(s, to) == at,
    decreases to - at,
{
    if at < to {
        lemma_text_end(s, to - 1, at);
    }
}

/// What `text_end` returns, stated without recursion.
pub proof fn lemma_text_end_bounds(s: Seq<char>, to: int)
    requires
        0 <= to <= s.len(),
    ensures
        0 <= text_end(s, to) <= to,
        forall|k: int| text_end(s, to) <= k < to ==> is_space(#[trigger] s[k]),
        text_end(s, to) > 0 ==> !is_space(s[text_end(s, to) - 1]),
    decreases to,
{
    if to > 0 && is_space(s[to - 1]) {
        lemma_text_end_bounds(s, to - 1);
    }
}

/// `index_of` is the one index that ends a run free of `sep`.
pub proof fn lemma_index_of(s: Seq<char>, sep: char, from: int, at: int)
    requires
        0 <= from <= at <= s.len(),
        forall|k: int| from <= k < at ==> #[trigger] s[k] != sep,
        at < s.len() ==> s[at] == sep,
    ensures
        index_of(s, sep, from) == at,
    decreases at - from,
{
    if from < at {
        lemma_index_of(s, sep, from + 1, at);
    }
}

/// `after_last` is the one index that follows `sep` and is followed by a
/// run free of `sep`.
pub proof fn lemma_after_last(s: Seq<char>, sep: char, to: int, at: int)
    requires
        0 <= at <= to <= s.len(),
        forall|k: int| at <= k < to ==> #[trigger] s[k] != sep,
        at > 0 ==> s[at - 1] == sep,
    ensures
        after_last(s, sep, to) == at,
    decreases to - at,
{
    if at < to {
        lemma_after_last(s, sep, to - 1, at);
    }
}

/// What `after_last` returns, stated without recursion.
pub proof fn lemma_after_last_bounds(s: Seq<char>, sep: char, to: int)
    requires
        0 <= to <= s.len(),
    ensures
        0 <= after_last(s, sep, to) <= to,
        forall|k: int| after_last(s, sep, to) <= k < to ==> #[trigger] s[k] != sep,
        after_last(s, sep, to) > 0 ==> s[after_last(s, sep, to) - 1] == sep,
    decreases to,
{
    if to > 0 && s[to - 1] != sep {
        lemma_after_last_bounds(s, sep, to - 1);
    }
}

/// Trimming takes whitespace away, and nothing else: what it drops at
/// either end is whitespace, and what it leaves neither begins nor ends
/// with whitespace.
pub proof fn lemma_trimmed_is_tight(s: Seq<char>)
    ensures
        ({
            let a = first_at(s, 0, false);
            let b = text_end(s, s.len() as int);
            &&& 0 <= a <= s.len() && 0 <= b <= s.len()
            &&& forall|k: int| 0 <= k < a ==> is_space(#[trigger] s[k])
            &&& forall|k: int| b <= k < s.len() ==> is_space(#[trigger] s[k])
            &&& trimmed(s).len() > 0 ==> a < b && trimmed(s) == s.subrange(a, b) && !is_space(
                trimmed(s).first(),
            ) && !is_space(trimmed(s).last())
            &&& trimmed(s).len() == 0 ==> forall|k: int|
                0 <= k < s.len() ==> is_space(#[trigger] s[k])
        }),
{
    lemma_first_at_bounds(s, 0, false);
    lemma_text_end_bounds(s, s.len() as int);
}

/// Trimming a trimmed text changes nothing.
pub proof fn lemma_trimmed_idempotent(s: Seq<char>)
    ensures
        trimmed(trimmed(s)) == trimmed(s),
{
    let t = trimmed(s);
    lemma_trimmed_is_tight(s);
    if t.len() > 0 {
        lemma_first_at(t, 0, false, 0);
        lemma_text_end(t, t.len() as int, t.len() as int);
    }
}

/// Tells whether `c` is whitespace.
pub fn is_whitespace(c: char) -> (r: bool)
    ensures
        r == is_space(c),
{
    ('\u{9}' <= c && c <= '\u{d}') || c == ' ' || c == '\u{85}' || c == '\u{a0}' || c
        == '\u{1680}' || ('\u{2000}' <= c && c <= '\u{200a}') || c == '\u{2028}' || c
        == '\u{2029}' || c == '\u{202f}' || c == '\u{205f}' || c == '\u{3000}'
}

/// The characters of `s`, in order.
pub fn to_chars(s: &str) -> (v: Vec<char>)
    ensures
        v@ == s@,
{
    let mut v: Vec<char> = Vec::new();
    for c in it: s.chars()
        invariant
            it.seq() == s@,
            v@ == s@.take(it.index()),
    {
        v.push(c);
    }
    v
}

/// Scans forward from `from` to the first character of class `space`.
pub fn scan(v: &Vec<char>, from: usize, space: bool) -> (at: usize)
    ensures
        at == first_at(v@, from as int, space),
        at <= v.len(),
        from <= v.len() ==> from <= at,
{
    if from >= v.len() {
        return v.len();
    }
    let mut i: usize = from;
    while i < v.len() && is_whitespace(v[i]) != space
        invariant
            from <= i <= v.len(),
            forall|k: int| from <= k < i ==> is_space(#[trigger] v@[k]) != space,
        decreases v.len() - i,
    {
        i += 1;
    }
    proof {
        lemma_first_at(v@, from as int, space, i as int);
    }
    i
}

/// Scans backward from `to` to the end of the last non-whitespace
/// character.
pub fn scan_back(v: &Vec<char>, to: usize) -> (at: usize)
    ensures
        at == text_end(v@, to as int),
        at <= to,
{
    if to > v.len() {
        return 0;
    }
    let mut i: usize = to;
    while i > 0 && is_whitespace(v[i - 1])
        invariant
            i <= to <= v.len(),
            forall|k: int| i <= k < to ==> is_space(#[trigger] v@[k]),
        decreases i,
    {
        i -= 1;
    }
    proof {
        lemma_text_end(v@, to as int, i as int);
    }
    i
}

/// Scans backward from `to` to just past the last occurrence of `sep`.
pub fn scan_back_for(v: &Vec<char>, sep: char, to: usize) -> (at: usize)
    ensures
        at == after_last(v@, sep, to as int),
        at <= to,
{
    if to > v.len() {
        return 0;
    }
    let mut i: usize = to;
    while i > 0 && v[i - 1] != sep
        invariant
            i <= to <= v.len(),
            forall|k: int| i <= k < to ==> #[trigger] v@[k] != sep,
        decreases i,
    {
        i -= 1;
    }
    proof {
        lemma_after_last(v@, sep, to as int, i as int);
    }
    i
}

/// `s` without its leading and trailing whitespace.
pub fn trim<'a>(s: &'a str) -> (r: &'a str)
    ensures
        r@ == trimmed(s@),
{
    let v = to_chars(s);
    let a = scan(&v, 0, false);
    let b = scan_back(&v, v.len());
    if a < b {
        s.substring_char(a, b)
    } else {
        s.substring_char(0, 0)
    }
}

/// Tells whether two texts hold the same characters.
pub fn same_text(a: &str, b: &str) -> (r: bool)
    ensures
        r == (a@ == b@),
{
    let va = to_chars(a);
    let vb = to_chars(b);
    if va.len() != vb.len() {
        return false;
    }
    let mut i: usize = 0;
    while i < va.len()
        invariant
            i <= va.len(),
            va.len() == vb.len(),
            va@ == a@,
            vb@ == b@,
            forall|k: int| 0 <= k < i ==> va@[k] == vb@[k],
        decreases va.len() - i,
    {
        if va[i] != vb[i] {
            return false;
        }
        i += 1;
    }
    assert(va@ =~= vb@);
    true
}

/// Tells whether the characters of `v` from `from` on begin with `prefix`.
pub fn begins_with(v: &Vec<char>, from: usize, prefix: &Vec<char>) -> (r: bool)
    ensures
        r == (from <= v.len() && prefix@.is_prefix_of(v@.skip(from as int))),
{
    if from > v.len() || prefix.len() > v.len() - from {
        return false;
    }
    let mut i: usize = 0;
    while i < prefix.len()
        invariant
            i <= prefix.len(),
            from + prefix.len() <= v.len(),
            forall|k: int| 0 <= k < i ==> prefix@[k] == v@[from + k],
        decreases prefix.len() - i,
    {
        if prefix[i] != v[from + i] {
            return false;
        }
        i += 1;
    }
    true
}

/// Splits `s` at every occurrence of `sep`.
pub fn split_on<'a>(s: &'a str, sep: char) -> (pieces: Vec<&'a str>)
    ensures
        slice_views(pieces@) == split(s@, sep),
{
    let v = to_chars(s);
    let mut pieces: Vec<&'a str> = Vec::new();
    let mut start: usize = 0;
    let mut i: usize = 0;
    assert(s@.skip(0) == s@);
    while i < v.len()
        invariant
            start <= i <= v.len(),
            v@ == s@,
            forall|k: int| start <= k < i ==> #[trigger] v@[k] != sep,
            slice_views(pieces@) + split(s@.skip(start as int), sep) == split(s@, sep),
        decreases v.len() - i,
    {
        if v[i] == sep {
            let piece = s.substring_char(start, i);
            proof {
                let rest = s@.skip(start as int);
                lemma_index_of(rest, sep, 0, i - start);
                assert(rest.subrange(0, i - start) == piece@);
                assert(rest.skip(i - start + 1) == s@.skip(i + 1));
            }
            pieces.push(piece);
            start = i + 1;
        }
        i += 1;
    }
    let last = s.substring_char(start, v.len());
    proof {
        let rest = s@.skip(start as int);
        lemma_index_of(rest, sep, 0, rest.len() as int);
    }
    pieces.push(last);
    pieces
}

/// An owned copy of `s`.
pub fn owned(s: &str) -> (r: String)
    ensures
        r@ == s@,
{
    String::from_str(s)
}

} // verus!
