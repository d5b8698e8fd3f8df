//! Marshaling of foreign text arguments.
//!
//! A text argument arrives from the foreign caller as a raw,
//! null-terminated byte pointer.  The boundary models it as
//! `Option<Vec<u8>>`: `None` for a null pointer, otherwise the bytes up
//! to the terminator.  Before any byte sequence reaches the engine it
//! must decode as well-formed UTF-8; a malformed one is rejected with the
//! operation's failure sentinel.
use vstd::prelude::*;
use vstd::utf8::decode_utf8;
use vstd::utf8::valid_utf8;

verus! {

/// Relies on `core::str::from_utf8`: it accepts exactly the well-formed
/// UTF-8 byte sequences and yields the text they encode.
#[verifier::external_body]
fn bytes_to_text(bytes: &Vec<u8>) -> (r: Option<String>)
    ensures
        r is Some <==> valid_utf8(bytes@),
        r matches Some(s) ==> s@ == decode_utf8(bytes@),
{
    match core::str::from_utf8(bytes.as_slice()) {
        Ok(s) => Some(s.to_owned()),
        Err(_) => None,
    }
}

/// Validates a foreign text argument: rejects the null pointer and any
/// byte sequence that is not well-formed UTF-8, and otherwise hands back
/// the decoded text.
pub fn marshal_text(text: &Option<Vec<u8>>) -> (r: Option<String>)
    ensures
        r is Some <==> (*text matches Some(b) && valid_utf8(b@)),
        r matches Some(s) ==> s@ == decode_utf8(text->0@),
{
    match text {
        None => None,
        Some(bytes) => bytes_to_text(bytes),
    }
}

} // verus!
