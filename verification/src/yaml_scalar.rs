//! Scalars and fields of the generated manifest files.

use crate::chars::{
    char_is_control, chars_of, is_control, is_text, lowercase_ascii, push_all, push_str, rows,
    same_text, string_of, to_ascii_lowercase,
};
use crate::text::{
    contains_text, has_char, has_text, lines, lines_of, replace_char, replaced, trim, trimmed,
};
use vstd::prelude::*;

verus! {

/// Words that a YAML reader would take for something other than a string.
pub open spec fn is_reserved_word(w: Seq<char>) -> bool {
    ||| w == "null"@
    ||| w == "~"@
    ||| w == "true"@
    ||| w == "false"@
    ||| w == "yes"@
    ||| w == "no"@
    ||| w == "on"@
    ||| w == "off"@
}

/// Characters that have a meaning of their own at the start of a YAML scalar.
pub open spec fn is_indicator(c: char) -> bool {
    ||| c == '-'
    ||| c == '?'
    ||| c == ':'
    ||| c == ','
    ||| c == '['
    ||| c == ']'
    ||| c == '{'
    ||| c == '}'
    ||| c == '#'
    ||| c == '&'
    ||| c == '*'
    ||| c == '!'
    ||| c == '|'
    ||| c == '>'
    ||| c == '@'
    ||| c == '`'
    ||| c == '"'
    ||| c == '\''
}

/// Some character of `v` is a control character.
pub open spec fn has_control(v: Seq<char>) -> bool {
    exists|i: int| 0 <= i < v.len() && is_control(#[trigger] v[i])
}

/// Whether a value has to be written in quotes: it is empty, has white space
/// at either end, is a reserved word in any letter case, starts with an
/// indicator, holds `": "`, `" #"`, a tab or a control character, or ends
/// with a colon.
pub open spec fn needs_quotes(v: Seq<char>) -> bool {
    ||| v.len() == 0
    ||| trimmed(v) != v
    ||| is_reserved_word(lowercase_ascii(v))
    ||| is_indicator(v[0])
    ||| contains_text(v, ": "@)
    ||| contains_text(v, " #"@)
    ||| v.last() == ':'
    ||| v.contains('\t')
    ||| has_control(v)
}

/// A value as a YAML scalar: as it is, or in single quotes with each single
/// quote inside it doubled.
pub open spec fn yaml_scalar(v: Seq<char>) -> Seq<char> {
    if needs_quotes(v) {
        "'"@ + replaced(v, '\'', "''"@) + "'"@
    } else {
        v
    }
}

/// The lines of a block scalar, each indented by two spaces and ended by a
/// line feed.
pub open spec fn block_lines(ls: Seq<Seq<char>>) -> Seq<char>
    decreases ls.len(),
{
    if ls.len() == 0 {
        Seq::empty()
    } else {
        block_lines(ls.drop_last()) + "  "@ + ls.last() + "\n"@
    }
}

/// One `key: value` line, or a literal block that keeps the value's lines
/// where the value holds a line feed.
pub open spec fn yaml_field(key: Seq<char>, value: Seq<char>) -> Seq<char> {
    if value.contains('\n') {
        key + ": |-\n"@ + block_lines(lines(value))
    } else {
        key + ": "@ + yaml_scalar(value) + "\n"@
    }
}

/// The field for a value that may be absent: nothing where it is absent or
/// empty.
pub open spec fn yaml_opt_field(key: Seq<char>, value: Option<Seq<char>>) -> Seq<char> {
    match value {
        Some(v) => if v.len() > 0 {
            yaml_field(key, v)
        } else {
            Seq::empty()
        },
        None => Seq::empty(),
    }
}

/// The schema version that the generated files declare.
pub open spec fn schema_version() -> Seq<char> {
    "1.9.0"@
}

/// The first lines of a manifest file of the given kind: a comment that
/// names its schema, and an empty line.
pub open spec fn yaml_header(kind: Seq<char>) -> Seq<char> {
    "# yaml-language-server: $schema=https://aka.ms/winget-manifest."@ + kind + "."@
        + schema_version() + ".schema.json\n\n"@
}

fn is_reserved(w: &Vec<char>) -> (r: bool)
    ensures
        r == is_reserved_word(w@),
{
    is_text(w, "null") || is_text(w, "~") || is_text(w, "true") || is_text(w, "false")
        || is_text(w, "yes") || is_text(w, "no") || is_text(w, "on") || is_text(w, "off")
}

fn starts_special(c: char) -> (r: bool)
    ensures
        r == is_indicator(c),
{
    c == '-' || c == '?' || c == ':' || c == ',' || c == '[' || c == ']' || c == '{' || c == '}'
        || c == '#' || c == '&' || c == '*' || c == '!' || c == '|' || c == '>' || c == '@'
        || c == '`' || c == '"' || c == '\''
}

fn any_control(v: &Vec<char>) -> (r: bool)
    ensures
        r == has_control(v@),
{
    let mut i: usize = 0;
    while i < v.len()
        invariant
            i <= v.len(),
            forall|j: int| 0 <= j < i ==> !is_control(#[trigger] v@[j]),
        decreases v.len() - i,
    {
        if char_is_control(v[i]) {
            return true;
        }
        i += 1;
    }
    false
}

/// Whether `v` has to be written in quotes.
pub fn quotes_needed(v: &Vec<char>) -> (r: bool)
    ensures
        r == needs_quotes(v@),
{
    if v.len() == 0 {
        return true;
    }
    let t = trim(v);
    if !same_text(&t, v) {
        return true;
    }
    let lower = to_ascii_lowercase(v);
    if is_reserved(&lower) {
        return true;
    }
    if starts_special(v[0]) {
        return true;
    }
    let colon_space = chars_of(": ");
    let space_hash = chars_of(" #");
    has_text(v, &colon_space) || has_text(v, &space_hash) || v[v.len() - 1] == ':' || has_char(
        v,
        '\t',
    ) || any_control(v)
}

/// Whether a value has to be written in quotes.
pub fn needs_yaml_quotes(value: &str) -> (r: bool)
    ensures
        r == needs_quotes(value@),
{
    let v = chars_of(value);
    quotes_needed(&v)
}

/// Appends `v` as a YAML scalar.
pub fn push_scalar(out: &mut Vec<char>, v: &Vec<char>)
    ensures
        final(out)@ == old(out)@ + yaml_scalar(v@),
{
    if quotes_needed(v) {
        let doubled = chars_of("''");
        let inner = replace_char(v, '\'', &doubled);
        push_str(out, "'");
        push_all(out, &inner);
        push_str(out, "'");
    } else {
        push_all(out, v);
    }
}

/// A value as a YAML scalar.
pub fn format_yaml_scalar(value: &str) -> (r: String)
    ensures
        r@ == yaml_scalar(value@),
{
    let v = chars_of(value);
    let mut out: Vec<char> = Vec::new();
    push_scalar(&mut out, &v);
    string_of(&out)
}

/// Appends the field `key` with the value `v`.
pub fn push_field(out: &mut Vec<char>, key: &str, v: &Vec<char>)
    ensures
        final(out)@ == old(out)@ + yaml_field(key@, v@),
{
    let ghost before = out@;
    push_str(out, key);
    if has_char(v, '\n') {
        push_str(out, ": |-\n");
        let ls = lines_of(v);
        let ghost head = out@;
        let mut i: usize = 0;
        while i < ls.len()
            invariant
                i <= ls.len(),
                rows(ls@) == lines(v@),
                out@ == head + block_lines(rows(ls@).take(i as int)),
            decreases ls.len() - i,
        {
            proof {
                assert(rows(ls@).take(i + 1).drop_last() == rows(ls@).take(i as int));
                assert(rows(ls@).take(i + 1).last() == ls@[i as int]@);
            }
            push_str(out, "  ");
            push_all(out, &ls[i]);
            push_str(out, "\n");
            i += 1;
        }
        proof {
            assert(rows(ls@).take(ls.len() as int) == rows(ls@));
            assert(out@ == before + (key@ + ": |-\n"@ + block_lines(lines(v@))));
        }
    } else {
        push_str(out, ": ");
        push_scalar(out, v);
        push_str(out, "\n");
        proof {
            assert(out@ == before + (key@ + ": "@ + yaml_scalar(v@) + "\n"@));
        }
    }
}

/// Appends the field `key` with the value of the string `value`.
pub fn push_str_field(out: &mut Vec<char>, key: &str, value: &str)
    ensures
        final(out)@ == old(out)@ + yaml_field(key@, value@),
{
    let v = chars_of(value);
    push_field(out, key, &v);
}

/// Appends the field `key` unless `value` is absent or empty.
pub fn push_opt_field(out: &mut Vec<char>, key: &str, value: &Option<String>)
    ensures
        final(out)@ == old(out)@ + yaml_opt_field(key@, crate::chars::opt_text(*value)),
{
    match value {
        Some(s) => {
            let v = chars_of(s.as_str());
            if v.len() > 0 {
                push_field(out, key, &v);
            }
        },
        None => {},
    }
}

/// One `key: value` line, or a literal block for a value of several lines.
pub fn format_yaml_field(key: &str, value: &str) -> (r: String)
    ensures
        r@ == yaml_field(key@, value@),
{
    let mut out: Vec<char> = Vec::new();
    push_str_field(&mut out, key, value);
    string_of(&out)
}

/// The field for a value that may be absent: empty where it is absent or
/// empty.
pub fn opt_field(key: &str, value: &Option<String>) -> (r: String)
    ensures
        r@ == yaml_opt_field(key@, crate::chars::opt_text(*value)),
{
    let mut out: Vec<char> = Vec::new();
    push_opt_field(&mut out, key, value);
    string_of(&out)
}

/// Appends the first lines of a manifest file of the given kind.
pub fn push_header(out: &mut Vec<char>, kind: &str)
    ensures
        final(out)@ == old(out)@ + yaml_header(kind@),
{
    let ghost before = out@;
    push_str(out, "# yaml-language-server: $schema=https://aka.ms/winget-manifest.");
    push_str(out, kind);
    push_str(out, ".");
    push_str(out, "1.9.0");
    push_str(out, ".schema.json\n\n");
    proof {
        assert(out@ == before + yaml_header(kind@));
    }
}

/// The first lines of a manifest file of the given kind.
pub fn schema_header(manifest_kind: &str) -> (r: String)
    ensures
        r@ == yaml_header(manifest_kind@),
{
    let mut out: Vec<char> = Vec::new();
    push_header(&mut out, manifest_kind);
    string_of(&out)
}

} // verus!
