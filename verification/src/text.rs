//! Searching, trimming, splitting and replacing in texts.
//!
//! A text is a sequence of characters. Each operation is defined as a spec
//! function on `Seq<char>` and implemented on `Vec<char>`.

use crate::chars::{char_is_whitespace, is_whitespace, rows, slice_of};
use vstd::prelude::*;

verus! {

/// The index of the first `c` in `s`, or the length of `s` if there is none.
pub open spec fn first_index(s: Seq<char>, c: char) -> int
    decreases s.len(),
{
    if s.len() == 0 || s[0] == c {
        0
    } else {
        1 + first_index(s.drop_first(), c)
    }
}

/// The index of the last `c` in `s`, or -1 if there is none.
pub open spec fn last_index(s: Seq<char>, c: char) -> int
    decreases s.len(),
{
    if s.len() == 0 {
        -1
    } else if s.last() == c {
        s.len() - 1
    } else {
        last_index(s.drop_last(), c)
    }
}

/// What stands before the first `c`; all of `s` if there is none.
pub open spec fn before_first(s: Seq<char>, c: char) -> Seq<char> {
    s.take(first_index(s, c))
}

/// What stands after the last `c`; all of `s` if there is none.
pub open spec fn after_last(s: Seq<char>, c: char) -> Seq<char> {
    s.skip(last_index(s, c) + 1)
}

/// The pieces of `s` between occurrences of `c`. There is always at least one
/// piece, and a piece may be empty.
pub open spec fn split(s: Seq<char>, c: char) -> Seq<Seq<char>>
    decreases s.len(),
{
    let i = first_index(s, c);
    if 0 <= i < s.len() {
        seq![s.take(i)] + split(s.skip(i + 1), c)
    } else {
        seq![s]
    }
}

/// `p` occurs in `s` at index `i`.
pub open spec fn occurs_at(s: Seq<char>, p: Seq<char>, i: int) -> bool {
    0 <= i && i + p.len() <= s.len() && s.subrange(i, i + p.len()) == p
}

/// `p` occurs somewhere in `s`.
pub open spec fn contains_text(s: Seq<char>, p: Seq<char>) -> bool {
    exists|i: int| occurs_at(s, p, i)
}

/// `s` begins with `p`.
pub open spec fn starts_with(s: Seq<char>, p: Seq<char>) -> bool {
    occurs_at(s, p, 0)
}

/// `s` ends with `p`.
pub open spec fn ends_with(s: Seq<char>, p: Seq<char>) -> bool {
    occurs_at(s, p, s.len() - p.len())
}

/// A set of characters that trimming can remove.
#[derive(Clone, Copy)]
pub enum CharClass {
    /// The characters with the Unicode `White_Space` property.
    Whitespace,
    /// One given character.
    Only(char),
}

impl CharClass {
    /// Whether `c` belongs to the class.
    pub open spec fn has(self, c: char) -> bool {
        match self {
            CharClass::Whitespace => is_whitespace(c),
            CharClass::Only(x) => c == x,
        }
    }

    /// Whether `c` belongs to the class.
    pub fn test(&self, c: char) -> (r: bool)
        ensures
            r == self.has(c),
    {
        match self {
            CharClass::Whitespace => char_is_whitespace(c),
            CharClass::Only(x) => c == *x,
        }
    }
}

/// `s` without its longest prefix of characters in `class`.
pub open spec fn skip_leading(s: Seq<char>, class: CharClass) -> Seq<char>
    decreases s.len(),
{
    if s.len() > 0 && class.has(s[0]) {
        skip_leading(s.drop_first(), class)
    } else {
        s
    }
}

/// `s` without its longest suffix of characters in `class`.
pub open spec fn drop_trailing(s: Seq<char>, class: CharClass) -> Seq<char>
    decreases s.len(),
{
    if s.len() > 0 && class.has(s.last()) {
        drop_trailing(s.drop_last(), class)
    } else {
        s
    }
}

/// `s` without the characters of `class` at either end.
pub open spec fn trimmed_by(s: Seq<char>, class: CharClass) -> Seq<char> {
    drop_trailing(skip_leading(s, class), class)
}

/// `s` without white space at either end.
pub open spec fn trimmed(s: Seq<char>) -> Seq<char> {
    trimmed_by(s, CharClass::Whitespace)
}

/// `s` with every `from` replaced by the text `to`.
pub open spec fn replaced(s: Seq<char>, from: char, to: Seq<char>) -> Seq<char>
    decreases s.len(),
{
    if s.len() == 0 {
        Seq::empty()
    } else {
        replaced(s.drop_last(), from, to) + (if s.last() == from {
            to
        } else {
            seq![s.last()]
        })
    }
}

/// A line without the carriage return that may end it.
pub open spec fn without_cr(line: Seq<char>) -> Seq<char> {
    if line.len() > 0 && line.last() == '\r' {
        line.drop_last()
    } else {
        line
    }
}

/// The lines of `s`. A line ends with a line feed, or with a carriage return
/// and a line feed; neither belongs to the line. The last line needs no line
/// ending, and an empty text has no lines.
pub open spec fn lines(s: Seq<char>) -> Seq<Seq<char>>
    decreases s.len(),
{
    if s.len() == 0 {
        Seq::empty()
    } else {
        let i = first_index(s, '\n');
        if 0 <= i < s.len() {
            seq![without_cr(s.take(i))] + lines(s.skip(i + 1))
        } else {
            seq![s]
        }
    }
}

/// `first_index` is within bounds, nothing before it is `c`, and it points at
/// a `c` unless it is the length.
pub proof fn lemma_first_index_is_first(s: Seq<char>, c: char)
    ensures
        0 <= first_index(s, c) <= s.len(),
        forall|j: int| 0 <= j < first_index(s, c) ==> s[j] != c,
        first_index(s, c) < s.len() ==> s[first_index(s, c)] == c,
    decreases s.len(),
{
    if s.len() == 0 || s[0] == c {
    } else {
        let t = s.drop_first();
        lemma_first_index_is_first(t, c);
        assert forall|j: int| 0 <= j < first_index(s, c) implies s[j] != c by {
            if j > 0 {
                assert(s[j] == t[j - 1]);
            }
        }
    }
}

/// An index with no `c` before it, which is the length or points at a `c`, is
/// the first index.
pub proof fn lemma_first_index_unique(s: Seq<char>, c: char, i: int)
    requires
        0 <= i <= s.len(),
        forall|j: int| 0 <= j < i ==> s[j] != c,
        i < s.len() ==> s[i] == c,
    ensures
        first_index(s, c) == i,
{
    lemma_first_index_is_first(s, c);
}

/// `last_index` is within bounds, nothing after it is `c`, and it points at a
/// `c` unless it is -1.
pub proof fn lemma_last_index_is_last(s: Seq<char>, c: char)
    ensures
        -1 <= last_index(s, c) < s.len(),
        forall|j: int| last_index(s, c) < j < s.len() ==> s[j] != c,
        last_index(s, c) >= 0 ==> s[last_index(s, c)] == c,
    decreases s.len(),
{
    if s.len() == 0 || s.last() == c {
    } else {
        let t = s.drop_last();
        lemma_last_index_is_last(t, c);
        assert forall|j: int| last_index(s, c) < j < s.len() implies s[j] != c by {
            if j < t.len() {
                assert(s[j] == t[j]);
            }
        }
    }
}

/// `skip_leading` removes exactly the first `i` characters, where `i` is the
/// first index whose character is outside the class.
pub proof fn lemma_skip_leading(s: Seq<char>, class: CharClass, i: int)
    requires
        0 <= i <= s.len(),
        forall|j: int| 0 <= j < i ==> class.has(s[j]),
        i < s.len() ==> !class.has(s[i]),
    ensures
        skip_leading(s, class) == s.skip(i),
    decreases i,
{
    if i == 0 {
        assert(s.skip(0) == s);
    } else {
        let t = s.drop_first();
        assert forall|j: int| 0 <= j < i - 1 implies class.has(t[j]) by {
            assert(t[j] == s[j + 1]);
        }
        lemma_skip_leading(t, class, i - 1);
        assert(t.skip(i - 1) == s.skip(i));
    }
}

/// `drop_trailing` keeps exactly the first `k` characters, where `k` follows
/// the last index whose character is outside the class.
pub proof fn lemma_drop_trailing(s: Seq<char>, class: CharClass, k: int)
    requires
        0 <= k <= s.len(),
        forall|j: int| k <= j < s.len() ==> class.has(s[j]),
        k > 0 ==> !class.has(s[k - 1]),
    ensures
        drop_trailing(s, class) == s.take(k),
    decreases s.len() - k,
{
    if k == s.len() {
        assert(s.take(k) == s);
    } else {
        let t = s.drop_last();
        lemma_drop_trailing(t, class, k);
        assert(t.take(k) == s.take(k));
    }
}

/// The index of the first `c` in `v`, or the length of `v`.
pub fn find_char(v: &Vec<char>, c: char) -> (i: usize)
    ensures
        i == first_index(v@, c),
        i <= v.len(),
{
    let mut i: usize = 0;
    while i < v.len() && v[i] != c
        invariant
            i <= v.len(),
            forall|j: int| 0 <= j < i ==> v@[j] != c,
        decreases v.len() - i,
    {
        i += 1;
    }
    proof {
        lemma_first_index_unique(v@, c, i as int);
    }
    i
}

/// One past the index of the last `c` in `v`, or 0 if there is none.
pub fn after_last_char(v: &Vec<char>, c: char) -> (i: usize)
    ensures
        i == last_index(v@, c) + 1,
        i <= v.len(),
{
    let mut i: usize = v.len();
    while i > 0 && v[i - 1] != c
        invariant
            i <= v.len(),
            forall|j: int| i <= j < v.len() ==> v@[j] != c,
        decreases i,
    {
        i -= 1;
    }
    proof {
        lemma_last_index_is_last(v@, c);
    }
    i
}

/// The text before the first `c`.
pub fn take_before_first(v: &Vec<char>, c: char) -> (r: Vec<char>)
    ensures
        r@ == before_first(v@, c),
{
    let i = find_char(v, c);
    slice_of(v, 0, i)
}

/// The text after the last `c`.
pub fn take_after_last(v: &Vec<char>, c: char) -> (r: Vec<char>)
    ensures
        r@ == after_last(v@, c),
{
    let i = after_last_char(v, c);
    slice_of(v, i, v.len())
}

/// The pieces of `v` between occurrences of `c`.
pub fn split_on(v: &Vec<char>, c: char) -> (r: Vec<Vec<char>>)
    ensures
        rows(r@) == split(v@, c),
        r.len() >= 1,
{
    let mut out: Vec<Vec<char>> = Vec::new();
    let mut start: usize = 0;
    let mut i: usize = 0;
    proof {
        assert(v@.skip(0) == v@);
    }
    while i < v.len()
        invariant
            start <= i <= v.len(),
            split(v@, c) == rows(out@) + split(v@.skip(start as int), c),
            forall|j: int| start <= j < i ==> v@[j] != c,
        decreases v.len() - i,
    {
        if v[i] == c {
            let piece = slice_of(v, start, i);
            proof {
                let rest = v@.skip(start as int);
                lemma_first_index_unique(rest, c, i - start);
                assert(rest.take(i - start) == piece@);
                assert(rest.skip(i - start + 1) == v@.skip(i + 1));
                assert(rows(out@.push(piece)) == rows(out@).push(piece@));
            }
            out.push(piece);
            start = i + 1;
        }
        i += 1;
    }
    let piece = slice_of(v, start, v.len());
    proof {
        let rest = v@.skip(start as int);
        lemma_first_index_unique(rest, c, rest.len() as int);
        assert(rest == piece@);
        assert(rows(out@.push(piece)) == rows(out@).push(piece@));
    }
    out.push(piece);
    out
}

/// Whether `p` occurs in `v` at index `i`.
pub fn matches_at(v: &Vec<char>, p: &Vec<char>, i: usize) -> (r: bool)
    ensures
        r == occurs_at(v@, p@, i as int),
{
    if p.len() > v.len() || i > v.len() - p.len() {
        return false;
    }
    let mut k: usize = 0;
    while k < p.len()
        invariant
            k <= p.len(),
            i + p.len() <= v.len(),
            forall|j: int| 0 <= j < k ==> v@[i + j] == p@[j],
        decreases p.len() - k,
    {
        if v[i + k] != p[k] {
            proof {
                let w = v@.subrange(i as int, i + p.len());
                assert(w[k as int] == v@[i + k]);
            }
            return false;
        }
        k += 1;
    }
    assert(v@.subrange(i as int, i + p.len()) =~= p@);
    true
}

/// Whether `v` begins with `p`.
pub fn has_prefix(v: &Vec<char>, p: &Vec<char>) -> (r: bool)
    ensures
        r == starts_with(v@, p@),
{
    matches_at(v, p, 0)
}

/// Whether `v` ends with `p`.
pub fn has_suffix(v: &Vec<char>, p: &Vec<char>) -> (r: bool)
    ensures
        r == ends_with(v@, p@),
{
    if p.len() > v.len() {
        false
    } else {
        matches_at(v, p, v.len() - p.len())
    }
}

/// Whether `p` occurs somewhere in `v`.
pub fn has_text(v: &Vec<char>, p: &Vec<char>) -> (r: bool)
    ensures
        r == contains_text(v@, p@),
{
    if p.len() > v.len() {
        return false;
    }
    let last: usize = v.len() - p.len();
    let mut i: usize = 0;
    while i < last
        invariant
            i <= last,
            last == v.len() - p.len(),
            forall|j: int| 0 <= j < i ==> !occurs_at(v@, p@, j),
        decreases last - i,
    {
        if matches_at(v, p, i) {
            return true;
        }
        i += 1;
    }
    matches_at(v, p, last)
}

/// Whether the string `word` occurs somewhere in `v`.
pub fn has_word(v: &Vec<char>, word: &str) -> (r: bool)
    ensures
        r == contains_text(v@, word@),
{
    let w = crate::chars::chars_of(word);
    has_text(v, &w)
}

/// Whether `v` ends with the string `suffix`.
pub fn ends_in(v: &Vec<char>, suffix: &str) -> (r: bool)
    ensures
        r == ends_with(v@, suffix@),
{
    let s = crate::chars::chars_of(suffix);
    has_suffix(v, &s)
}

/// Whether `c` occurs in `v`.
pub fn has_char(v: &Vec<char>, c: char) -> (r: bool)
    ensures
        r == v@.contains(c),
{
    let i = find_char(v, c);
    proof {
        lemma_first_index_is_first(v@, c);
    }
    i < v.len()
}

/// `v` without the characters of `class` at either end.
pub fn trim_by(v: &Vec<char>, class: CharClass) -> (r: Vec<char>)
    ensures
        r@ == trimmed_by(v@, class),
{
    let mut a: usize = 0;
    while a < v.len() && class.test(v[a])
        invariant
            a <= v.len(),
            forall|j: int| 0 <= j < a ==> class.has(v@[j]),
        decreases v.len() - a,
    {
        a += 1;
    }
    let mut b: usize = v.len();
    while b > a && class.test(v[b - 1])
        invariant
            a <= b <= v.len(),
            forall|j: int| b <= j < v.len() ==> class.has(v@[j]),
        decreases b,
    {
        b -= 1;
    }
    proof {
        lemma_skip_leading(v@, class, a as int);
        lemma_drop_trailing(v@.skip(a as int), class, b - a);
        assert(v@.skip(a as int).take(b - a) == v@.subrange(a as int, b as int));
    }
    slice_of(v, a, b)
}

/// `v` without white space at either end.
pub fn trim(v: &Vec<char>) -> (r: Vec<char>)
    ensures
        r@ == trimmed(v@),
{
    trim_by(v, CharClass::Whitespace)
}

/// `v` without the characters of `class` at its end.
pub fn trim_end_by(v: &Vec<char>, class: CharClass) -> (r: Vec<char>)
    ensures
        r@ == drop_trailing(v@, class),
{
    let mut b: usize = v.len();
    while b > 0 && class.test(v[b - 1])
        invariant
            b <= v.len(),
            forall|j: int| b <= j < v.len() ==> class.has(v@[j]),
        decreases b,
    {
        b -= 1;
    }
    proof {
        lemma_drop_trailing(v@, class, b as int);
    }
    slice_of(v, 0, b)
}

/// `v` with every `from` replaced by the text `to`.
pub fn replace_char(v: &Vec<char>, from: char, to: &Vec<char>) -> (r: Vec<char>)
    ensures
        r@ == replaced(v@, from, to@),
{
    let mut out: Vec<char> = Vec::new();
    let mut i: usize = 0;
    while i < v.len()
        invariant
            i <= v.len(),
            out@ == replaced(v@.take(i as int), from, to@),
        decreases v.len() - i,
    {
        proof {
            assert(v@.take(i + 1).drop_last() == v@.take(i as int));
        }
        if v[i] == from {
            crate::chars::push_all(&mut out, to);
        } else {
            out.push(v[i]);
        }
        i += 1;
    }
    proof {
        assert(v@.take(v.len() as int) == v@);
    }
    out
}

/// The lines of `v`.
pub fn lines_of(v: &Vec<char>) -> (r: Vec<Vec<char>>)
    ensures
        rows(r@) == lines(v@),
{
    let mut out: Vec<Vec<char>> = Vec::new();
    let mut start: usize = 0;
    let mut i: usize = 0;
    proof {
        assert(v@.skip(0) == v@);
    }
    while i < v.len()
        invariant
            start <= i <= v.len(),
            lines(v@) == rows(out@) + lines(v@.skip(start as int)),
            forall|j: int| start <= j < i ==> v@[j] != '\n',
        decreases v.len() - i,
    {
        if v[i] == '\n' {
            let end: usize = if i > start && v[i - 1] == '\r' {
                (i - 1) as usize
            } else {
                i
            };
            let piece = slice_of(v, start, end);
            proof {
                let rest = v@.skip(start as int);
                lemma_first_index_unique(rest, '\n', i - start);
                assert(without_cr(rest.take(i - start)) == piece@);
                assert(rest.skip(i - start + 1) == v@.skip(i + 1));
                assert(rows(out@.push(piece)) == rows(out@).push(piece@));
            }
            out.push(piece);
            start = i + 1;
        }
        i += 1;
    }
    if start < v.len() {
        let piece = slice_of(v, start, v.len());
        proof {
            let rest = v@.skip(start as int);
            lemma_first_index_unique(rest, '\n', rest.len() as int);
            assert(rest == piece@);
            assert(rows(out@.push(piece)) == rows(out@).push(piece@));
        }
        out.push(piece);
    } else {
        proof {
            assert(lines(v@.skip(start as int)) == Seq::<Seq<char>>::empty());
        }
    }
    out
}

/// The index of the first occurrence of `p` in `s`, or the length of `s` if
/// there is none.
pub open spec fn first_match(s: Seq<char>, p: Seq<char>) -> int
    decreases s.len(),
{
    if s.len() == 0 || occurs_at(s, p, 0) {
        0
    } else {
        1 + first_match(s.drop_first(), p)
    }
}

/// An occurrence in a text without its first character is an occurrence one
/// index later in the text.
proof fn lemma_occurs_shift(s: Seq<char>, p: Seq<char>, j: int)
    requires
        s.len() > 0,
        0 <= j,
    ensures
        occurs_at(s.drop_first(), p, j) == occurs_at(s, p, j + 1),
{
    let t = s.drop_first();
    if j + p.len() <= t.len() {
        assert(t.subrange(j, j + p.len()) == s.subrange(j + 1, j + 1 + p.len()));
    }
}

/// An index with no occurrence of `p` before it, which is the length or the
/// index of an occurrence, is the first match.
pub proof fn lemma_first_match_unique(s: Seq<char>, p: Seq<char>, i: int)
    requires
        0 <= i <= s.len(),
        forall|j: int| 0 <= j < i ==> !occurs_at(s, p, j),
        i < s.len() ==> occurs_at(s, p, i),
    ensures
        first_match(s, p) == i,
    decreases i,
{
    if i > 0 {
        let t = s.drop_first();
        assert forall|j: int| 0 <= j < i - 1 implies !occurs_at(t, p, j) by {
            lemma_occurs_shift(s, p, j);
        }
        if i < s.len() {
            lemma_occurs_shift(s, p, i - 1);
        }
        lemma_first_match_unique(t, p, i - 1);
    }
}

/// The index of the first occurrence of `p` in `v`, or the length of `v`.
pub fn find_text(v: &Vec<char>, p: &Vec<char>) -> (i: usize)
    ensures
        i == first_match(v@, p@),
        i <= v.len(),
        i < v.len() ==> occurs_at(v@, p@, i as int),
{
    let mut i: usize = 0;
    while i < v.len() && !matches_at(v, p, i)
        invariant
            i <= v.len(),
            forall|j: int| 0 <= j < i ==> !occurs_at(v@, p@, j),
        decreases v.len() - i,
    {
        i += 1;
    }
    proof {
        lemma_first_match_unique(v@, p@, i as int);
    }
    i
}

} // verus!
