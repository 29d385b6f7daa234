//! Decoding of Base64 text and of UTF-8 bytes.

use vstd::prelude::*;
use vstd::utf8::{decode_utf8, valid_utf8};
use base64::Engine;

verus! {

/// What a text decodes to in Base64 with the standard alphabet and padding:
/// the bytes, or the decoder's message where the text is not such an
/// encoding.
pub uninterp spec fn base64_decoded(input: Seq<char>) -> Result<Seq<u8>, Seq<char>>;

/// `Engine::decode` of `base64`, on the engine `STANDARD`, returns the bytes
/// that the text encodes or an error, which is handed on as its message.
/// `base64_decoded` names that result.
#[verifier::external_body]
pub(crate) fn base64_decode(input: &str) -> (r: Result<Vec<u8>, String>)
    ensures
        match r {
            Ok(bytes) => base64_decoded(input@) == Ok::<Seq<u8>, Seq<char>>(bytes@),
            Err(message) => base64_decoded(input@) == Err::<Seq<u8>, Seq<char>>(message@),
        },
{
    match base64::engine::general_purpose::STANDARD.decode(input) {
        Ok(bytes) => Ok(bytes),
        Err(e) => Err(e.to_string()),
    }
}

/// The message that says why bytes are not UTF-8.
pub uninterp spec fn utf8_error_text(bytes: Seq<u8>) -> Seq<char>;

/// `String::from_utf8` of the standard library returns the text that the
/// bytes encode where they are valid UTF-8, and otherwise an error, which is
/// handed on as its message.
#[verifier::external_body]
pub(crate) fn string_from_utf8(bytes: Vec<u8>) -> (r: Result<String, String>)
    ensures
        match r {
            Ok(text) => valid_utf8(bytes@) && text@ == decode_utf8(bytes@),
            Err(message) => !valid_utf8(bytes@) && message@ == utf8_error_text(bytes@),
        },
{
    match String::from_utf8(bytes) {
        Ok(text) => Ok(text),
        Err(e) => Err(e.to_string()),
    }
}

} // verus!
