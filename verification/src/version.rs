//! Version tags and their order.
//!
//! A tag is read as a list of numbers: a leading `v` or `V` is dropped, then
//! everything from the first `-` on and everything from the first `+` on;
//! what is left is split at dots, and each piece counts by the digits it
//! starts with. Two lists are compared number by number, the shorter one
//! filled up with zeros.

use crate::chars::{char_is_digit, chars_of, is_digit, rows, slice_of, string_of};
use crate::decimal::{parse_u32, parse_unsigned};
use crate::text::{
    before_first, first_index, lemma_first_index_is_first, lemma_first_index_unique, split,
    split_on, take_before_first,
};
use vstd::prelude::*;

verus! {

/// `s` without the character `c` at its start, if it starts with `c`.
pub open spec fn without_leading(s: Seq<char>, c: char) -> Seq<char> {
    if s.len() > 0 && s[0] == c {
        s.drop_first()
    } else {
        s
    }
}

/// A tag without a leading `v` and then without a leading `V`.
pub open spec fn cleaned_version(tag: Seq<char>) -> Seq<char> {
    without_leading(without_leading(tag, 'v'), 'V')
}

/// The part of a tag that is compared: the cleaned tag up to its first `-`,
/// and of that what stands before the first `+`.
pub open spec fn version_core(tag: Seq<char>) -> Seq<char> {
    before_first(before_first(cleaned_version(tag), '-'), '+')
}

/// The number of digits that a text starts with.
pub open spec fn digit_run(s: Seq<char>) -> nat
    decreases s.len(),
{
    if s.len() > 0 && is_digit(s[0]) {
        1 + digit_run(s.drop_first())
    } else {
        0
    }
}

/// The number that a piece of a version stands for: that of the digits it
/// starts with, or 0 where it starts with none or the number does not fit in
/// 32 bits.
pub open spec fn component(piece: Seq<char>) -> nat {
    match parse_unsigned(piece.take(digit_run(piece) as int), u32::MAX as nat) {
        Some(n) => n,
        None => 0,
    }
}

/// The numbers of a tag.
pub open spec fn version_parts(tag: Seq<char>) -> Seq<nat> {
    split(version_core(tag), '.').map_values(|piece: Seq<char>| component(piece))
}

/// The number at a position of a list that is filled up with zeros.
pub open spec fn part_at(parts: Seq<nat>, i: int) -> nat {
    if 0 <= i < parts.len() {
        parts[i]
    } else {
        0
    }
}

/// Two lists agree at every position before `k`.
pub open spec fn agree_before(a: Seq<nat>, b: Seq<nat>, k: int) -> bool {
    forall|j: int| 0 <= j < k ==> part_at(a, j) == part_at(b, j)
}

/// `a` is greater than `b`: at the first position where they differ, `a`
/// has the greater number.
pub open spec fn parts_greater(a: Seq<nat>, b: Seq<nat>) -> bool {
    exists|k: int| 0 <= k && agree_before(a, b, k) && part_at(a, k) > part_at(b, k)
}

/// Two lists stand for the same version: they agree at every position.
pub open spec fn parts_same(a: Seq<nat>, b: Seq<nat>) -> bool {
    forall|j: int| 0 <= j ==> part_at(a, j) == part_at(b, j)
}

/// The tag `latest` stands for a newer version than the tag `current`.
pub open spec fn is_newer(latest: Seq<char>, current: Seq<char>) -> bool {
    parts_greater(version_parts(latest), version_parts(current))
}

/// The views of a list of numbers.
pub open spec fn numbers(v: Seq<u32>) -> Seq<nat> {
    v.map_values(|n: u32| n as nat)
}

/// `digit_run` counts exactly the digits before the first character that is
/// none.
proof fn lemma_digit_run(s: Seq<char>, k: int)
    requires
        0 <= k <= s.len(),
        forall|j: int| 0 <= j < k ==> is_digit(s[j]),
        k < s.len() ==> !is_digit(s[k]),
    ensures
        digit_run(s) == k,
    decreases k,
{
    if k > 0 {
        let t = s.drop_first();
        assert forall|j: int| 0 <= j < k - 1 implies is_digit(t[j]) by {
            assert(t[j] == s[j + 1]);
        }
        lemma_digit_run(t, k - 1);
    }
}

/// Of two lists that agree nowhere less than they differ, one is greater or
/// they are the same; this finds out which by looking at the positions from
/// `i` on.
proof fn lemma_compare_from(a: Seq<nat>, b: Seq<nat>, i: int)
    requires
        0 <= i,
        agree_before(a, b, i),
    ensures
        parts_greater(a, b) || parts_greater(b, a) || parts_same(a, b),
    decreases a.len() + b.len() - i,
{
    if i >= a.len() && i >= b.len() {
        assert(parts_same(a, b));
    } else if part_at(a, i) > part_at(b, i) {
        assert(agree_before(a, b, i) && part_at(a, i) > part_at(b, i));
    } else if part_at(a, i) < part_at(b, i) {
        assert(agree_before(b, a, i) && part_at(b, i) > part_at(a, i));
    } else {
        lemma_compare_from(a, b, i + 1);
    }
}

/// No version is newer than itself.
pub proof fn law_newer_irreflexive(a: Seq<char>)
    ensures
        !is_newer(a, a),
{
}

/// Of two versions at most one is newer than the other.
pub proof fn law_newer_asymmetric(a: Seq<char>, b: Seq<char>)
    requires
        is_newer(a, b),
    ensures
        !is_newer(b, a),
{
    let pa = version_parts(a);
    let pb = version_parts(b);
    let k = choose|k: int| 0 <= k && agree_before(pa, pb, k) && part_at(pa, k) > part_at(pb, k);
    if parts_greater(pb, pa) {
        let m = choose|m: int| 0 <= m && agree_before(pb, pa, m) && part_at(pb, m) > part_at(pa, m);
        if m < k {
            assert(part_at(pa, m) == part_at(pb, m));
        } else if k < m {
            assert(part_at(pb, k) == part_at(pa, k));
        }
    }
}

/// What is newer than something newer is newer.
pub proof fn law_newer_transitive(a: Seq<char>, b: Seq<char>, c: Seq<char>)
    requires
        is_newer(a, b),
        is_newer(b, c),
    ensures
        is_newer(a, c),
{
    let pa = version_parts(a);
    let pb = version_parts(b);
    let pc = version_parts(c);
    let k = choose|k: int| 0 <= k && agree_before(pa, pb, k) && part_at(pa, k) > part_at(pb, k);
    let m = choose|m: int| 0 <= m && agree_before(pb, pc, m) && part_at(pb, m) > part_at(pc, m);
    let n = if k <= m {
        k
    } else {
        m
    };
    assert forall|j: int| 0 <= j < n implies part_at(pa, j) == part_at(pc, j) by {
        assert(part_at(pa, j) == part_at(pb, j));
        assert(part_at(pb, j) == part_at(pc, j));
    }
    if k < m {
        assert(part_at(pb, k) == part_at(pc, k));
    } else if m < k {
        assert(part_at(pa, m) == part_at(pb, m));
    }
    assert(agree_before(pa, pc, n) && part_at(pa, n) > part_at(pc, n));
}

/// The order is total: of two versions one is newer than the other, or they
/// are the same version, and never two of the three.
pub proof fn law_newer_total(a: Seq<char>, b: Seq<char>)
    ensures
        is_newer(a, b) || is_newer(b, a) || parts_same(version_parts(a), version_parts(b)),
        parts_same(version_parts(a), version_parts(b)) ==> !is_newer(a, b) && !is_newer(b, a),
        !(is_newer(a, b) && is_newer(b, a)),
{
    let pa = version_parts(a);
    let pb = version_parts(b);
    lemma_compare_from(pa, pb, 0);
    if is_newer(a, b) {
        law_newer_asymmetric(a, b);
    }
}

/// Versions that are the same compare alike with every third version.
pub proof fn law_same_versions_compare_alike(a: Seq<char>, b: Seq<char>, c: Seq<char>)
    requires
        parts_same(version_parts(a), version_parts(b)),
    ensures
        is_newer(a, c) == is_newer(b, c),
        is_newer(c, a) == is_newer(c, b),
{
    let pa = version_parts(a);
    let pb = version_parts(b);
    let pc = version_parts(c);
    if parts_greater(pa, pc) {
        let k = choose|k: int| 0 <= k && agree_before(pa, pc, k) && part_at(pa, k) > part_at(pc, k);
        assert(agree_before(pb, pc, k) && part_at(pb, k) > part_at(pc, k));
    }
    if parts_greater(pb, pc) {
        let k = choose|k: int| 0 <= k && agree_before(pb, pc, k) && part_at(pb, k) > part_at(pc, k);
        assert(agree_before(pa, pc, k) && part_at(pa, k) > part_at(pc, k));
    }
    if parts_greater(pc, pa) {
        let k = choose|k: int| 0 <= k && agree_before(pc, pa, k) && part_at(pc, k) > part_at(pa, k);
        assert(agree_before(pc, pb, k) && part_at(pc, k) > part_at(pb, k));
    }
    if parts_greater(pc, pb) {
        let k = choose|k: int| 0 <= k && agree_before(pc, pb, k) && part_at(pc, k) > part_at(pb, k);
        assert(agree_before(pc, pa, k) && part_at(pc, k) > part_at(pa, k));
    }
}

/// A leading `v` does not count: a tag that does not itself start with `v`
/// is read alike with and without a `v` before it.
pub proof fn law_leading_small_v_ignored(a: Seq<char>, b: Seq<char>)
    requires
        a.len() == 0 || a[0] != 'v',
    ensures
        cleaned_version(seq!['v'] + a) == cleaned_version(a),
        version_parts(seq!['v'] + a) == version_parts(a),
        is_newer(seq!['v'] + a, b) == is_newer(a, b),
        is_newer(b, seq!['v'] + a) == is_newer(b, a),
{
    let va = seq!['v'] + a;
    assert(va.drop_first() == a);
}

/// A leading `V` does not count: a tag that does not itself start with `v`
/// or `V` is read alike with and without a `V` before it.
pub proof fn law_leading_capital_v_ignored(a: Seq<char>, b: Seq<char>)
    requires
        a.len() == 0 || (a[0] != 'v' && a[0] != 'V'),
    ensures
        cleaned_version(seq!['V'] + a) == cleaned_version(a),
        version_parts(seq!['V'] + a) == version_parts(a),
        is_newer(seq!['V'] + a, b) == is_newer(a, b),
        is_newer(b, seq!['V'] + a) == is_newer(b, a),
{
    let va = seq!['V'] + a;
    assert(va.drop_first() == a);
}

/// What stands before the first `c` of `a`, `c` and `rest` is `a`, where `a`
/// holds no `c`.
proof fn lemma_before_separator(a: Seq<char>, c: char, rest: Seq<char>)
    requires
        !a.contains(c),
    ensures
        before_first(a + seq![c] + rest, c) == a,
        before_first(a, c) == a,
{
    let s = a + seq![c] + rest;
    assert forall|j: int| 0 <= j < a.len() implies s[j] != c by {
        assert(s[j] == a[j]);
        assert(a.contains(a[j]));
    }
    assert(s[a.len() as int] == c);
    lemma_first_index_unique(s, c, a.len() as int);
    assert(s.take(a.len() as int) == a);
    lemma_first_index_is_first(a, c);
    if first_index(a, c) < a.len() {
        assert(a.contains(a[first_index(a, c)]));
    }
    assert(a.take(a.len() as int) == a);
}

/// Cleaning a tag that goes on with `sep` after `core` cleans `core` and
/// leaves the rest, where `sep` is neither `v` nor `V`.
proof fn lemma_cleaned_with_suffix(core: Seq<char>, sep: char, rest: Seq<char>)
    requires
        sep != 'v',
        sep != 'V',
    ensures
        cleaned_version(core + seq![sep] + rest) == cleaned_version(core) + seq![sep] + rest,
{
    let s = core + seq![sep] + rest;
    if core.len() == 0 {
        assert(s[0] == sep);
        assert(s == cleaned_version(core) + seq![sep] + rest);
    } else {
        assert(s[0] == core[0]);
        let t = without_leading(s, 'v');
        let u = without_leading(core, 'v');
        assert(t == u + seq![sep] + rest);
        if u.len() == 0 {
            assert(t[0] == sep);
        } else {
            assert(t[0] == u[0]);
            assert(without_leading(t, 'V') == without_leading(u, 'V') + seq![sep] + rest);
        }
    }
}

/// A cleaned tag holds no character that the tag does not hold.
proof fn lemma_cleaned_keeps_absence(core: Seq<char>, c: char)
    requires
        !core.contains(c),
    ensures
        !cleaned_version(core).contains(c),
{
    let u = without_leading(core, 'v');
    let w = cleaned_version(core);
    if w.contains(c) {
        let i = choose|i: int| 0 <= i < w.len() && w[i] == c;
        let off = core.len() - w.len();
        assert(core[i + off] == c);
        assert(core.contains(c));
    }
}

/// What follows the first `-` or the first `+` does not count: a tag without
/// `-` and `+` is read alike alone and with a `-` or a `+` and anything
/// behind it.
pub proof fn law_suffix_ignored(core: Seq<char>, rest: Seq<char>, b: Seq<char>)
    requires
        !core.contains('-'),
        !core.contains('+'),
    ensures
        version_parts(core + seq!['-'] + rest) == version_parts(core),
        version_parts(core + seq!['+'] + rest) == version_parts(core),
        is_newer(core + seq!['-'] + rest, b) == is_newer(core, b),
        is_newer(core + seq!['+'] + rest, b) == is_newer(core, b),
        is_newer(b, core + seq!['-'] + rest) == is_newer(b, core),
        is_newer(b, core + seq!['+'] + rest) == is_newer(b, core),
{
    let w = cleaned_version(core);
    lemma_cleaned_keeps_absence(core, '-');
    lemma_cleaned_keeps_absence(core, '+');
    lemma_cleaned_with_suffix(core, '-', rest);
    lemma_cleaned_with_suffix(core, '+', rest);
    lemma_before_separator(w, '-', rest);
    lemma_before_separator(w, '+', rest);
    assert(version_core(core) == w);
    assert(version_core(core + seq!['-'] + rest) == w);
    // With a `+` the text before the first `-` still starts with `w` and `+`.
    let plus = w + seq!['+'] + rest;
    let cut = before_first(plus, '-');
    lemma_first_index_is_first(plus, '-');
    let i = first_index(plus, '-');
    assert(i > w.len()) by {
        if i <= w.len() {
            if i < w.len() {
                assert(plus[i] == w[i]);
                assert(w.contains(w[i]));
            } else {
                assert(plus[i] == '+');
            }
        }
    }
    assert(cut == w + seq!['+'] + rest.take(i - w.len() - 1));
    lemma_before_separator(w, '+', rest.take(i - w.len() - 1));
    assert(version_core(core + seq!['+'] + rest) == w);
}

/// A tag without a leading `v` and then without a leading `V`.
pub fn clean_version(tag: &str) -> (r: String)
    ensures
        r@ == cleaned_version(tag@),
{
    let v = chars_of(tag);
    let cleaned = clean(&v);
    string_of(&cleaned)
}

fn clean(v: &Vec<char>) -> (r: Vec<char>)
    ensures
        r@ == cleaned_version(v@),
{
    let mut from: usize = 0;
    if v.len() > 0 && v[0] == 'v' {
        from = 1;
    }
    proof {
        assert(v@.subrange(0, v.len() as int) == v@);
        assert(v@.subrange(1, v.len() as int) == v@.drop_first());
    }
    let ghost mid = v@.subrange(from as int, v.len() as int);
    if v.len() > from && v[from] == 'V' {
        proof {
            assert(mid[0] == 'V');
            assert(mid.drop_first() == v@.subrange(from + 1, v.len() as int));
        }
        from = from + 1;
    }
    slice_of(v, from, v.len())
}

fn component_of(piece: &Vec<char>) -> (r: u32)
    ensures
        r as nat == component(piece@),
{
    let mut k: usize = 0;
    while k < piece.len() && char_is_digit(piece[k])
        invariant
            k <= piece.len(),
            forall|j: int| 0 <= j < k ==> is_digit(piece@[j]),
        decreases piece.len() - k,
    {
        k += 1;
    }
    proof {
        lemma_digit_run(piece@, k as int);
    }
    let digits = slice_of(piece, 0, k);
    match parse_u32(&digits) {
        Some(n) => n,
        None => 0,
    }
}

/// The numbers of a tag.
pub fn parse_version_parts(version: &str) -> (r: Vec<u32>)
    ensures
        numbers(r@) == version_parts(version@),
{
    let v = chars_of(version);
    let cleaned = clean(&v);
    let head = take_before_first(&cleaned, '-');
    let core = take_before_first(&head, '+');
    let pieces = split_on(&core, '.');
    let ghost want = version_parts(version@);
    let mut out: Vec<u32> = Vec::new();
    let mut i: usize = 0;
    while i < pieces.len()
        invariant
            i <= pieces.len(),
            rows(pieces@) == split(version_core(version@), '.'),
            want == version_parts(version@),
            numbers(out@) == want.take(i as int),
        decreases pieces.len() - i,
    {
        let n = component_of(&pieces[i]);
        proof {
            assert(rows(pieces@)[i as int] == pieces@[i as int]@);
            assert(want[i as int] == n as nat);
            assert(numbers(out@.push(n)) == numbers(out@).push(n as nat));
            assert(want.take(i + 1) == want.take(i as int).push(want[i as int]));
        }
        out.push(n);
        i += 1;
    }
    proof {
        assert(want.take(pieces.len() as int) == want);
    }
    out
}

/// Whether the tag `latest` stands for a newer version than the tag
/// `current`.
pub fn is_newer_version(latest: &str, current: &str) -> (r: bool)
    ensures
        r == is_newer(latest@, current@),
{
    let l = parse_version_parts(latest);
    let c = parse_version_parts(current);
    let ghost pl = version_parts(latest@);
    let ghost pc = version_parts(current@);
    let max_len = if l.len() > c.len() {
        l.len()
    } else {
        c.len()
    };
    let mut i: usize = 0;
    while i < max_len
        invariant
            i <= max_len,
            max_len >= l.len(),
            max_len >= c.len(),
            pl == version_parts(latest@),
            pc == version_parts(current@),
            numbers(l@) == pl,
            numbers(c@) == pc,
            agree_before(pl, pc, i as int),
        decreases max_len - i,
    {
        let x: u32 = if i < l.len() {
            l[i]
        } else {
            0
        };
        let y: u32 = if i < c.len() {
            c[i]
        } else {
            0
        };
        proof {
            assert(x as nat == part_at(pl, i as int)) by {
                if i < l.len() {
                    assert(numbers(l@)[i as int] == l@[i as int] as nat);
                }
            }
            assert(y as nat == part_at(pc, i as int)) by {
                if i < c.len() {
                    assert(numbers(c@)[i as int] == c@[i as int] as nat);
                }
            }
        }
        if x > y {
            proof {
                assert(agree_before(pl, pc, i as int) && part_at(pl, i as int) > part_at(
                    pc,
                    i as int,
                ));
            }
            return true;
        }
        if x < y {
            proof {
                if parts_greater(pl, pc) {
                    let k = choose|k: int|
                        0 <= k && agree_before(pl, pc, k) && part_at(pl, k) > part_at(pc, k);
                    if k > i {
                        assert(part_at(pl, i as int) == part_at(pc, i as int));
                    } else if k < i {
                        assert(part_at(pl, k) == part_at(pc, k));
                    }
                }
            }
            return false;
        }
        i += 1;
    }
    proof {
        if parts_greater(pl, pc) {
            let k = choose|k: int|
                0 <= k && agree_before(pl, pc, k) && part_at(pl, k) > part_at(pc, k);
            if k < i {
                assert(part_at(pl, k) == part_at(pc, k));
            }
        }
    }
    false
}

} // verus!
