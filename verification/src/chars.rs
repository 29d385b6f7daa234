//! Characters and the conversions between strings and character vectors.

use vstd::prelude::*;

verus! {

/// `String::push` of the standard library appends one character to the end of
/// the string and leaves the rest of it unchanged.
pub assume_specification[ String::push ](s: &mut String, c: char)
    ensures
        final(s)@ == old(s)@.push(c),
;

/// The lower-case form of a character by the Unicode character database: one
/// character or more.
pub uninterp spec fn lowercase_char(c: char) -> Seq<char>;

/// `char::to_lowercase` of the standard library yields the lower-case mapping
/// of the character, which `lowercase_char` names.
#[verifier::external_body]
pub(crate) fn char_to_lowercase(c: char) -> (r: String)
    ensures
        r@ == lowercase_char(c),
{
    c.to_lowercase().to_string()
}

/// The lower-case form of a text by the Unicode character database.
pub uninterp spec fn lowercase_text(s: Seq<char>) -> Seq<char>;

/// `str::to_lowercase` of the standard library returns the lower-case form of
/// the text, which `lowercase_text` names.
#[verifier::external_body]
pub(crate) fn str_to_lowercase(s: &str) -> (r: String)
    ensures
        r@ == lowercase_text(s@),
{
    s.to_lowercase()
}

/// Characters with the Unicode `White_Space` property.
pub open spec fn is_whitespace(c: char) -> bool {
    ||| '\u{9}' <= c <= '\u{D}'
    ||| c == ' '
    ||| c == '\u{85}'
    ||| c == '\u{A0}'
    ||| c == '\u{1680}'
    ||| '\u{2000}' <= c <= '\u{200A}'
    ||| c == '\u{2028}'
    ||| c == '\u{2029}'
    ||| c == '\u{202F}'
    ||| c == '\u{205F}'
    ||| c == '\u{3000}'
}

/// Characters of the Unicode general category `Cc`.
pub open spec fn is_control(c: char) -> bool {
    c <= '\u{1F}' || '\u{7F}' <= c <= '\u{9F}'
}

/// The ten ASCII decimal digits.
pub open spec fn is_digit(c: char) -> bool {
    '0' <= c <= '9'
}

/// The ASCII lower-case form of a character; only `A` to `Z` change.
pub open spec fn ascii_lower(c: char) -> char {
    if 'A' <= c <= 'Z' {
        ((c as u8) + 32) as char
    } else {
        c
    }
}

/// A text with every character in ASCII lower case.
pub open spec fn lowercase_ascii(s: Seq<char>) -> Seq<char> {
    s.map_values(|c: char| ascii_lower(c))
}

/// The view of an optional string.
pub open spec fn opt_text(o: Option<String>) -> Option<Seq<char>> {
    match o {
        Some(s) => Some(s@),
        None => None,
    }
}

/// The views of a sequence of strings, in order.
pub open spec fn texts(v: Seq<String>) -> Seq<Seq<char>> {
    v.map_values(|s: String| s@)
}

/// The views of a sequence of character vectors, in order.
pub open spec fn rows(v: Seq<Vec<char>>) -> Seq<Seq<char>> {
    v.map_values(|r: Vec<char>| r@)
}

/// Whether `c` has the Unicode `White_Space` property.
pub fn char_is_whitespace(c: char) -> (r: bool)
    ensures
        r == is_whitespace(c),
{
    ('\u{9}' <= c && c <= '\u{D}') || c == ' ' || c == '\u{85}' || c == '\u{A0}' || c
        == '\u{1680}' || ('\u{2000}' <= c && c <= '\u{200A}') || c == '\u{2028}' || c
        == '\u{2029}' || c == '\u{202F}' || c == '\u{205F}' || c == '\u{3000}'
}

/// Whether `c` is a control character.
pub fn char_is_control(c: char) -> (r: bool)
    ensures
        r == is_control(c),
{
    c <= '\u{1F}' || ('\u{7F}' <= c && c <= '\u{9F}')
}

/// Whether `c` is an ASCII decimal digit.
pub fn char_is_digit(c: char) -> (r: bool)
    ensures
        r == is_digit(c),
{
    '0' <= c && c <= '9'
}

/// The ASCII lower-case form of `c`.
pub fn char_ascii_lower(c: char) -> (r: char)
    ensures
        r == ascii_lower(c),
{
    if 'A' <= c && c <= 'Z' {
        let b: u8 = c as u8;
        (b + 32) as char
    } else {
        c
    }
}

/// The characters of a string slice, in order.
pub fn chars_of(s: &str) -> (v: Vec<char>)
    ensures
        v@ == s@,
{
    let mut v: Vec<char> = Vec::new();
    let it = s.chars();
    for c in iter: it
        invariant
            v@ == iter.seq().take(iter.index() as int),
            iter.seq() == s@,
    {
        v.push(c);
    }
    v
}

/// The string made of the given characters, in order.
pub fn string_of(v: &Vec<char>) -> (s: String)
    ensures
        s@ == v@,
{
    let mut s = String::new();
    let mut i: usize = 0;
    while i < v.len()
        invariant
            i <= v.len(),
            s@ == v@.take(i as int),
        decreases v.len() - i,
    {
        s.push(v[i]);
        i += 1;
    }
    s
}

/// A copy of an optional string.
pub fn copy_opt(o: &Option<String>) -> (r: Option<String>)
    ensures
        opt_text(r) == opt_text(*o),
{
    match o {
        Some(s) => Some(s.clone()),
        None => None,
    }
}

/// A copy of a list of strings.
pub fn copy_texts(v: &[String]) -> (c: Vec<String>)
    ensures
        texts(c@) == texts(v@),
{
    let mut out: Vec<String> = Vec::new();
    let mut i: usize = 0;
    while i < v.len()
        invariant
            i <= v.len(),
            texts(out@) == texts(v@).take(i as int),
        decreases v.len() - i,
    {
        let u = v[i].clone();
        proof {
            assert(texts(out@.push(u)) == texts(out@).push(u@));
            assert(texts(v@).take(i + 1) == texts(v@).take(i as int).push(u@));
        }
        out.push(u);
        i += 1;
    }
    proof {
        assert(texts(v@).take(v.len() as int) == texts(v@));
    }
    out
}

/// Appends the characters of `tail` to `out`.
pub fn push_all(out: &mut Vec<char>, tail: &Vec<char>)
    ensures
        final(out)@ == old(out)@ + tail@,
{
    let mut i: usize = 0;
    while i < tail.len()
        invariant
            i <= tail.len(),
            out@ == old(out)@ + tail@.take(i as int),
        decreases tail.len() - i,
    {
        out.push(tail[i]);
        i += 1;
    }
}

/// Appends the characters of the string `tail` to `out`.
pub fn push_str(out: &mut Vec<char>, tail: &str)
    ensures
        final(out)@ == old(out)@ + tail@,
{
    let t = chars_of(tail);
    push_all(out, &t);
}

/// The characters of `v` from index `from` up to, not including, `to`.
pub fn slice_of(v: &Vec<char>, from: usize, to: usize) -> (r: Vec<char>)
    requires
        from <= to <= v.len(),
    ensures
        r@ == v@.subrange(from as int, to as int),
{
    let mut r: Vec<char> = Vec::new();
    let mut i: usize = from;
    while i < to
        invariant
            from <= i <= to <= v.len(),
            r@ == v@.subrange(from as int, i as int),
        decreases to - i,
    {
        r.push(v[i]);
        i += 1;
    }
    r
}

/// Whether two character vectors hold the same text.
pub fn same_text(a: &Vec<char>, b: &Vec<char>) -> (r: bool)
    ensures
        r == (a@ == b@),
{
    if a.len() != b.len() {
        return false;
    }
    let mut i: usize = 0;
    while i < a.len()
        invariant
            i <= a.len(),
            a.len() == b.len(),
            a@.take(i as int) == b@.take(i as int),
        decreases a.len() - i,
    {
        if a[i] != b[i] {
            return false;
        }
        assert(a@.take(i + 1) == a@.take(i as int).push(a@[i as int]));
        assert(b@.take(i + 1) == b@.take(i as int).push(b@[i as int]));
        i += 1;
    }
    assert(a@ == a@.take(a.len() as int));
    assert(b@ == b@.take(b.len() as int));
    true
}

/// Whether the text of `a` is that of the string `b`.
pub fn is_text(a: &Vec<char>, b: &str) -> (r: bool)
    ensures
        r == (a@ == b@),
{
    let bv = chars_of(b);
    same_text(a, &bv)
}

/// `v` with every character in ASCII lower case.
pub fn to_ascii_lowercase(v: &Vec<char>) -> (r: Vec<char>)
    ensures
        r@ == lowercase_ascii(v@),
{
    let mut r: Vec<char> = Vec::new();
    let mut i: usize = 0;
    while i < v.len()
        invariant
            i <= v.len(),
            r@ == lowercase_ascii(v@.take(i as int)),
        decreases v.len() - i,
    {
        r.push(char_ascii_lower(v[i]));
        assert(v@.take(i + 1) == v@.take(i as int).push(v@[i as int]));
        assert(lowercase_ascii(v@.take(i + 1)) == lowercase_ascii(v@.take(i as int)).push(
            ascii_lower(v@[i as int]),
        ));
        i += 1;
    }
    assert(v@ == v@.take(v.len() as int));
    r
}

} // verus!
