//! The two encodings the login payload is written in: base64 and JSON text.
//!
//! Both are computed by the crates that own them. What they return is given a
//! name here, so that the rest of the library can say exactly which bytes go
//! where without restating either format.

use vstd::prelude::*;

verus! {

/// The padded base64 text, in the standard alphabet, that `base64::encode`
/// returns for `bytes`.
pub uninterp spec fn base64_standard(bytes: Seq<u8>) -> Seq<char>;

/// The JSON string literal, quotes and escapes included, that
/// `serde_json::to_string` returns for the text `text`.
pub uninterp spec fn json_string(text: Seq<char>) -> Seq<char>;

/// Calls `base64::encode`, and calls what it returns `base64_standard` of the
/// input. The call computes the output length up front and panics if that
/// overflows `usize`; it cannot for a slice, which holds at most `isize::MAX`
/// bytes.
#[verifier::external_body]
#[allow(deprecated)]
pub(crate) fn base64_encode(bytes: &[u8]) -> (text: String)
    ensures
        text@ == base64_standard(bytes@),
{
    base64::encode(bytes)
}

/// Calls `base64::decode`. Its engine is the one `base64::encode` uses, set to
/// insist on canonical padding and to refuse stray trailing bits, so it accepts
/// exactly the texts that `base64::encode` produces and gives back the bytes
/// they were produced from.
#[verifier::external_body]
#[allow(deprecated)]
pub(crate) fn base64_decode(text: &str) -> (bytes: Option<Vec<u8>>)
    ensures
        bytes is Some ==> base64_standard(bytes->0@) == text@,
        forall|source: Seq<u8>| #[trigger]
            base64_standard(source) == text@ ==> bytes is Some && bytes->0@ == source,
{
    base64::decode(text).ok()
}

/// Calls `serde_json::to_string` on a string slice, and calls what it returns
/// `json_string` of the input. Serialising a string slice into memory has no
/// failure path: the only errors are those of the serialised type and of the
/// writer, and neither a `str` nor a `Vec<u8>` raises any.
#[verifier::external_body]
pub(crate) fn json_quote(text: &str) -> (quoted: String)
    ensures
        quoted@ == json_string(text@),
{
    serde_json::to_string(text).expect("a string slice always serialises")
}

} // verus!
