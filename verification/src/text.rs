//! Decoding of the recognizer's result body.
//!
//! Completion-cause "success" carries the recognized text in the message
//! body. The body is decoded as UTF-8; an invalid encoding is tolerated by
//! substituting a diagnostic placeholder string.

use vstd::prelude::*;

verus! {

/// What `std::str::from_utf8` returns on a byte sequence: `Some` of the
/// decoded characters exactly when the bytes are valid UTF-8, `None`
/// otherwise. The result depends on the bytes alone.
pub uninterp spec fn utf8_decode(bytes: Seq<u8>) -> Option<Seq<char>>;

/// The diagnostic text substituted when the body is not valid UTF-8.
pub open spec fn invalid_utf8_placeholder() -> Seq<char> {
    "server sent a result that is not valid UTF-8"@
}

/// Relies on std::str::from_utf8: it returns `Ok` of the decoded text
/// exactly when the bytes are valid UTF-8, and the result is a function of
/// the bytes alone.
#[verifier::external_body]
fn decode_utf8(bytes: &Vec<u8>) -> (r: Option<String>)
    ensures
        r matches Some(s) ==> utf8_decode(bytes@) == Some(s@),
        r is None <==> utf8_decode(bytes@) is None,
{
    match std::str::from_utf8(bytes.as_slice()) {
        Ok(s) => Some(s.to_string()),
        Err(_) => None,
    }
}

/// Decode a result body: the text itself when the body is valid UTF-8, the
/// diagnostic placeholder otherwise.
pub fn decode_result_text(body: &Vec<u8>) -> (text: String)
    ensures
        utf8_decode(body@) matches Some(cs) ==> text@ == cs,
        utf8_decode(body@) is None ==> text@ == invalid_utf8_placeholder(),
{
    match decode_utf8(body) {
        Some(s) => s,
        None => String::from_str("server sent a result that is not valid UTF-8"),
    }
}

} // verus!
