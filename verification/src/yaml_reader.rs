//! Reading single fields and the tag list out of the text of a manifest
//! file. This is no YAML parser: it looks at the text line by line.

use crate::chars::{chars_of, is_text, rows, slice_of, string_of};
use crate::text::{
    has_prefix, lines, lines_of, starts_with, trim, trim_by, trimmed, trimmed_by, CharClass,
};
use vstd::prelude::*;

verus! {

/// A value without white space and without the double or single quotes
/// around it.
pub open spec fn unquoted(s: Seq<char>) -> Seq<char> {
    trimmed_by(trimmed_by(trimmed(s), CharClass::Only('"')), CharClass::Only('\''))
}

/// The value that a line gives to a field: what follows the field's name and
/// a colon, unquoted, unless that is empty.
pub open spec fn line_value(line: Seq<char>, field: Seq<char>) -> Option<Seq<char>> {
    let t = trimmed(line);
    if starts_with(t, field + ":"@) {
        let v = unquoted(t.skip(field.len() as int + 1));
        if v.len() > 0 {
            Some(v)
        } else {
            None
        }
    } else {
        None
    }
}

/// The value of the first line that gives the field a value.
pub open spec fn first_value(ls: Seq<Seq<char>>, field: Seq<char>) -> Option<Seq<char>>
    decreases ls.len(),
{
    if ls.len() == 0 {
        None
    } else {
        match line_value(ls[0], field) {
            Some(v) => Some(v),
            None => first_value(ls.drop_first(), field),
        }
    }
}

/// The value of a field in the text of a manifest file.
pub open spec fn field_of(content: Seq<char>, field: Seq<char>) -> Option<Seq<char>> {
    first_value(lines(content), field)
}

/// The tags in the given lines. `in_tags` says whether the lines follow a
/// line `Tags:` with nothing but items in between. An item is a line that
/// starts with a hyphen and a space; its tag is the rest, unquoted, and
/// counts unless it is empty.
pub open spec fn tags_in(ls: Seq<Seq<char>>, in_tags: bool) -> Seq<Seq<char>>
    decreases ls.len(),
{
    if ls.len() == 0 {
        Seq::empty()
    } else {
        let t = trimmed(ls[0]);
        let rest = ls.drop_first();
        if t == "Tags:"@ {
            tags_in(rest, true)
        } else if in_tags && starts_with(t, "- "@) {
            let tag = unquoted(t.skip(2));
            if tag.len() > 0 {
                seq![tag] + tags_in(rest, true)
            } else {
                tags_in(rest, true)
            }
        } else {
            tags_in(rest, false)
        }
    }
}

/// The tags in the text of a manifest file.
pub open spec fn tags_of(content: Seq<char>) -> Seq<Seq<char>> {
    tags_in(lines(content), false)
}

fn unquote(v: &Vec<char>) -> (r: Vec<char>)
    ensures
        r@ == unquoted(v@),
{
    let a = trim(v);
    let b = trim_by(&a, CharClass::Only('"'));
    trim_by(&b, CharClass::Only('\''))
}

fn value_in_line(line: &Vec<char>, field: &Vec<char>) -> (r: Option<Vec<char>>)
    ensures
        match r {
            Some(v) => line_value(line@, field@) == Some(v@),
            None => line_value(line@, field@) is None,
        },
{
    let t = trim(line);
    let mut key: Vec<char> = Vec::new();
    crate::chars::push_all(&mut key, field);
    key.push(':');
    proof {
        reveal_strlit(":");
        assert(key@ == field@ + ":"@);
    }
    if has_prefix(&t, &key) {
        let rest = slice_of(&t, key.len(), t.len());
        proof {
            assert(rest@ == t@.skip(field@.len() as int + 1));
        }
        let v = unquote(&rest);
        if v.len() > 0 {
            Some(v)
        } else {
            None
        }
    } else {
        None
    }
}

/// The value of a field in the text of a manifest file.
pub fn parse_yaml_field(content: &str, field: &str) -> (r: Option<String>)
    ensures
        crate::chars::opt_text(r) == field_of(content@, field@),
{
    let cv = chars_of(content);
    let fv = chars_of(field);
    let ls = lines_of(&cv);
    let mut i: usize = 0;
    proof {
        assert(rows(ls@).skip(0) == rows(ls@));
    }
    while i < ls.len()
        invariant
            i <= ls.len(),
            cv@ == content@,
            fv@ == field@,
            rows(ls@) == lines(cv@),
            field_of(cv@, fv@) == first_value(rows(ls@).skip(i as int), fv@),
        decreases ls.len() - i,
    {
        proof {
            assert(rows(ls@).skip(i as int)[0] == ls@[i as int]@);
            assert(rows(ls@).skip(i as int).drop_first() == rows(ls@).skip(i + 1));
        }
        match value_in_line(&ls[i], &fv) {
            Some(v) => {
                let text = string_of(&v);
                proof {
                    let here = rows(ls@).skip(i as int);
                    assert(here.len() > 0);
                    assert(line_value(here[0], fv@) == Some(v@));
                    assert(first_value(here, fv@) == Some(text@));
                }
                return Some(text);
            },
            None => {},
        }
        i += 1;
    }
    None
}

/// The tags in the text of a manifest file.
pub fn parse_yaml_tags(content: &str) -> (r: Vec<String>)
    ensures
        crate::chars::texts(r@) == tags_of(content@),
{
    let cv = chars_of(content);
    let ls = lines_of(&cv);
    let item = chars_of("- ");
    let mut tags: Vec<String> = Vec::new();
    let mut in_tags = false;
    let mut i: usize = 0;
    proof {
        assert(rows(ls@).skip(0) == rows(ls@));
        reveal_strlit("- ");
    }
    while i < ls.len()
        invariant
            i <= ls.len(),
            item@ == "- "@,
            item@.len() == 2,
            rows(ls@) == lines(cv@),
            tags_of(cv@) == crate::chars::texts(tags@) + tags_in(rows(ls@).skip(i as int), in_tags),
        decreases ls.len() - i,
    {
        proof {
            assert(rows(ls@).skip(i as int)[0] == ls@[i as int]@);
            assert(rows(ls@).skip(i as int).drop_first() == rows(ls@).skip(i + 1));
        }
        let t = trim(&ls[i]);
        if is_text(&t, "Tags:") {
            in_tags = true;
        } else if in_tags && has_prefix(&t, &item) {
            let rest = slice_of(&t, 2, t.len());
            let tag = unquote(&rest);
            if tag.len() > 0 {
                let text = string_of(&tag);
                proof {
                    assert(crate::chars::texts(tags@.push(text)) == crate::chars::texts(tags@).push(
                        tag@,
                    ));
                }
                tags.push(text);
            }
        } else {
            in_tags = false;
        }
        i += 1;
    }
    tags
}

} // verus!
