//! Package identifiers of the form `Publisher.Package` and the place of a
//! package in the manifest repository.

use crate::chars::{char_to_lowercase, chars_of, lowercase_char, push_all, push_str, slice_of};
use crate::text::{find_char, first_index};
use vstd::prelude::*;

verus! {

/// The two parts of an identifier around its first dot, if it has a dot.
pub open spec fn identifier_parts(id: Seq<char>) -> Option<(Seq<char>, Seq<char>)> {
    let i = first_index(id, '.');
    if 0 <= i < id.len() {
        Some((id.take(i), id.skip(i + 1)))
    } else {
        None
    }
}

/// The lower-case form of the first character of `s`, or an underscore where
/// `s` is empty.
pub open spec fn first_letter(s: Seq<char>) -> Seq<char> {
    if s.len() > 0 {
        lowercase_char(s[0])
    } else {
        lowercase_char('_')
    }
}

/// The directory of a package below the root of the manifest repository:
/// `manifests`, the first letter, the publisher and the package.
pub open spec fn package_dir(letter_of: Seq<char>, publisher: Seq<char>, package: Seq<char>) -> Seq<
    char,
> {
    "manifests/"@ + first_letter(letter_of) + "/"@ + publisher + "/"@ + package
}

/// The folders, from the outermost on, in which the files of a package
/// version are saved on the user's desktop. An identifier without a dot
/// stands for both publisher and package.
pub open spec fn manifest_folders(id: Seq<char>, version: Seq<char>) -> Seq<Seq<char>> {
    let (publisher, package) = match identifier_parts(id) {
        Some(parts) => parts,
        None => (id, id),
    };
    seq!["winget-manifests"@, first_letter(id), publisher, package, version]
}

/// The folders in which the files of a package version are saved.
pub fn manifest_folder(package_id: &str, version: &str) -> (r: Vec<String>)
    ensures
        crate::chars::texts(r@) == manifest_folders(package_id@, version@),
{
    let id = chars_of(package_id);
    let mut letter: Vec<char> = Vec::new();
    push_first_letter(&mut letter, &id);
    let (publisher, package) = match split_identifier(&id) {
        Some((a, b)) => (crate::chars::string_of(&a), crate::chars::string_of(&b)),
        None => (package_id.to_owned(), package_id.to_owned()),
    };
    let a = "winget-manifests".to_owned();
    let b = crate::chars::string_of(&letter);
    let e = version.to_owned();
    let mut v: Vec<String> = Vec::new();
    v.push(a);
    v.push(b);
    v.push(publisher);
    v.push(package);
    v.push(e);
    proof {
        assert(crate::chars::texts(v@) == seq![a@, b@, publisher@, package@, e@]);
    }
    v
}

/// Splits an identifier at its first dot.
pub fn split_identifier(id: &Vec<char>) -> (r: Option<(Vec<char>, Vec<char>)>)
    ensures
        match r {
            Some((publisher, package)) => identifier_parts(id@) == Some((publisher@, package@)),
            None => identifier_parts(id@) is None,
        },
{
    let i = find_char(id, '.');
    if i < id.len() {
        Some((slice_of(id, 0, i), slice_of(id, i + 1, id.len())))
    } else {
        None
    }
}

/// Appends the first letter of `s` in lower case.
pub fn push_first_letter(out: &mut Vec<char>, s: &Vec<char>)
    ensures
        final(out)@ == old(out)@ + first_letter(s@),
{
    let c = if s.len() > 0 {
        s[0]
    } else {
        '_'
    };
    let lower = char_to_lowercase(c);
    push_str(out, lower.as_str());
}

/// Appends the directory of a package whose first letter is already in
/// lower case: `manifests`, the letter, the publisher and the package, with
/// a slash between them.
pub fn push_package_dir_with(
    out: &mut Vec<char>,
    letter: &Vec<char>,
    publisher: &Vec<char>,
    package: &Vec<char>,
)
    ensures
        final(out)@ == old(out)@ + "manifests/"@ + letter@ + "/"@ + publisher@ + "/"@ + package@,
{
    let mut part = chars_of("manifests/");
    push_all(&mut part, letter);
    push_str(&mut part, "/");
    push_all(&mut part, publisher);
    push_str(&mut part, "/");
    push_all(&mut part, package);
    push_all(out, &part);
    proof {
        assert(out@ == old(out)@ + "manifests/"@ + letter@ + "/"@ + publisher@ + "/"@ + package@);
    }
}

/// Appends the directory of a package. The letter is the first character of
/// `letter_of` in lower case.
pub fn push_package_dir(
    out: &mut Vec<char>,
    letter_of: &Vec<char>,
    publisher: &Vec<char>,
    package: &Vec<char>,
)
    ensures
        final(out)@ == old(out)@ + package_dir(letter_of@, publisher@, package@),
{
    let mut letter: Vec<char> = Vec::new();
    push_first_letter(&mut letter, letter_of);
    push_package_dir_with(out, &letter, publisher, package);
    proof {
        assert(letter@ == first_letter(letter_of@));
        assert(out@ == old(out)@ + package_dir(letter_of@, publisher@, package@));
    }
}

} // verus!
