//! Decoding of delivered payloads and encoding of request parameters.
//!
//! The foreign side hands results back as raw bytes; the waiting caller
//! reads them as UTF-8 text. A payload that is not valid UTF-8 collapses
//! into a fixed sentinel string rather than an error value, and a delivery
//! that never carried bytes reads as the empty text.

use vstd::prelude::*;
use vstd::utf8::{decode_utf8, encode_utf8, encode_utf8_decode_utf8, encode_utf8_valid_utf8,
    valid_utf8};

verus! {

/// The sentinel text handed to the caller when a delivered payload is not
/// valid UTF-8.
pub open spec fn error_sentinel() -> Seq<char> {
    "error"@
}

/// The text a raw foreign payload resolves to: its decoded characters where
/// the bytes are valid UTF-8, the error sentinel otherwise.
pub open spec fn payload_text(bytes: Seq<u8>) -> Seq<char> {
    if valid_utf8(bytes) {
        decode_utf8(bytes)
    } else {
        error_sentinel()
    }
}

/// Relies on `String::from_utf8`: it succeeds exactly on input that is a
/// valid UTF-8 encoding, and the returned string holds the characters that
/// the input encodes.
#[verifier::external_body]
fn bytes_to_string(bytes: Vec<u8>) -> (r: Option<String>)
    ensures
        r is Some <==> valid_utf8(bytes@),
        r is Some ==> r.unwrap()@ == decode_utf8(bytes@),
{
    String::from_utf8(bytes).ok()
}

/// Decode a delivered payload as UTF-8 text, collapsing a decode failure
/// into the fixed error sentinel.
pub fn decode_payload(bytes: Vec<u8>) -> (text: String)
    ensures
        text@ == payload_text(bytes@),
{
    match bytes_to_string(bytes) {
        Some(text) => text,
        None => "error".to_owned(),
    }
}

/// Encode a request parameter as the byte view handed to the foreign side
/// for the duration of the initiating call.
pub fn parameter_bytes(params: &str) -> (bytes: Vec<u8>)
    ensures
        bytes@ == encode_utf8(params@),
{
    vstd::slice::slice_to_vec(params.as_bytes())
}

/// A payload that is valid UTF-8 resolves to exactly its decoded text.
pub proof fn lemma_valid_payload_text(bytes: Seq<u8>)
    requires
        valid_utf8(bytes),
    ensures
        payload_text(bytes) == decode_utf8(bytes),
{
}

/// A payload that is not valid UTF-8 resolves to the error sentinel.
pub proof fn lemma_invalid_payload_text(bytes: Seq<u8>)
    requires
        !valid_utf8(bytes),
    ensures
        payload_text(bytes) == error_sentinel(),
{
}

/// An empty payload is valid UTF-8 and resolves to the empty text, so a
/// delivery that carried no bytes reads as an empty string.
pub proof fn lemma_empty_payload_text()
    ensures
        payload_text(Seq::<u8>::empty()) == Seq::<char>::empty(),
{
    assert(valid_utf8(Seq::<u8>::empty()));
    assert(decode_utf8(Seq::<u8>::empty()) =~= Seq::<char>::empty());
}

/// A parameter encoded for the foreign side and echoed back unchanged
/// resolves to exactly the original parameter text, the empty and the
/// non-ASCII parameter included.
pub proof fn lemma_echoed_parameter_text(params: Seq<char>)
    ensures
        payload_text(encode_utf8(params)) == params,
{
    encode_utf8_valid_utf8(params);
    encode_utf8_decode_utf8(params);
}

} // verus!
