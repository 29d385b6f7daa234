//! SHA-256 of data that arrives in pieces, and digests as text.

use crate::chars::string_of;
use sha2::Digest;
use vstd::prelude::*;

verus! {

/// A SHA-256 hasher of `sha2`. Its type is an alias of a generic type with
/// bounds of its own, which cannot be declared to the verifier, so the
/// hasher is kept behind this struct.
#[verifier::external_body]
pub struct Sha256State {
    inner: sha2::Sha256,
}

/// The bytes that a hasher has taken in so far.
pub uninterp spec fn absorbed(hasher: Sha256State) -> Seq<u8>;

/// The SHA-256 digest of a sequence of bytes.
pub uninterp spec fn sha256(data: Seq<u8>) -> Seq<u8>;

/// `Digest::new` of `sha2` returns a hasher that has taken in nothing.
#[verifier::external_body]
pub(crate) fn hasher_new() -> (h: Sha256State)
    ensures
        absorbed(h) == Seq::<u8>::empty(),
{
    Sha256State { inner: sha2::Sha256::new() }
}

/// `Digest::update` of `sha2` takes in the data after what was taken in
/// before.
#[verifier::external_body]
pub(crate) fn hasher_update(h: &mut Sha256State, data: &[u8])
    ensures
        absorbed(*final(h)) == absorbed(*old(h)) + data@,
{
    h.inner.update(data);
}

/// `Digest::finalize` of `sha2` returns the digest of all that was taken
/// in, which `sha256` names.
#[verifier::external_body]
pub(crate) fn hasher_finalize(h: Sha256State) -> (d: Vec<u8>)
    ensures
        d@ == sha256(absorbed(h)),
{
    h.inner.finalize().to_vec()
}

/// The upper-case hexadecimal digit for a number below sixteen.
pub open spec fn hex_digit(n: u8) -> char {
    if n < 10 {
        (('0' as u8) + n) as char
    } else {
        (('A' as u8) + (n - 10) as u8) as char
    }
}

/// Bytes in upper-case hexadecimal, two digits for each byte.
pub open spec fn hex_upper(data: Seq<u8>) -> Seq<char>
    decreases data.len(),
{
    if data.len() == 0 {
        Seq::empty()
    } else {
        hex_upper(data.drop_last()).push(hex_digit(data.last() / 16)).push(
            hex_digit(data.last() % 16),
        )
    }
}

fn hex_digit_of(n: u8) -> (c: char)
    requires
        n < 16,
    ensures
        c == hex_digit(n),
{
    if n < 10 {
        (('0' as u8) + n) as char
    } else {
        (('A' as u8) + (n - 10)) as char
    }
}

/// Bytes in upper-case hexadecimal.
pub fn to_hex_upper(data: &Vec<u8>) -> (r: String)
    ensures
        r@ == hex_upper(data@),
{
    let mut out: Vec<char> = Vec::new();
    let mut i: usize = 0;
    while i < data.len()
        invariant
            i <= data.len(),
            out@ == hex_upper(data@.take(i as int)),
        decreases data.len() - i,
    {
        proof {
            assert(data@.take(i + 1).drop_last() == data@.take(i as int));
        }
        let b = data[i];
        out.push(hex_digit_of(b / 16));
        out.push(hex_digit_of(b % 16));
        i += 1;
    }
    proof {
        assert(data@.take(data.len() as int) == data@);
    }
    string_of(&out)
}

} // verus!
