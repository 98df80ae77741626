//! Encodings that other crates compute for this library.
//!
//! Nothing in this file is proved: each function states what the called
//! function returns, and the rest of the library is verified against these
//! statements.

use vstd::prelude::*;
use vstd::utf8::{decode_utf8, valid_utf8};
use base64::Engine;

verus! {

/// The error that `serde_json` reports for a text that is no JSON document.
#[verifier::external_type_specification]
#[verifier::external_body]
pub struct ExJsonError(serde_json::Error);

/// The standard, padded base64 text of a run of bytes, as
/// `base64::engine::general_purpose::STANDARD` encodes it.
pub uninterp spec fn base64_standard(data: Seq<u8>) -> Seq<char>;

/// The text that `String::from_utf8_lossy` reads from a run of bytes that
/// is no valid UTF-8: the invalid parts are replaced.
pub uninterp spec fn utf8_lossy(data: Seq<u8>) -> Seq<char>;

/// The text of a run of bytes: the characters that it encodes where it is
/// valid UTF-8, and the text with its invalid parts replaced where it is
/// not.
pub open spec fn text_of(data: Seq<u8>) -> Seq<char> {
    if valid_utf8(data) {
        decode_utf8(data)
    } else {
        utf8_lossy(data)
    }
}

/// The JSON string literal, quotes and escapes included, that `serde_json`
/// writes for a text.
pub uninterp spec fn json_string_literal(text: Seq<char>) -> Seq<char>;

/// Whether `serde_json` reads a text as one JSON document.
pub uninterp spec fn json_valid(doc: Seq<char>) -> bool;

/// The string that a JSON document holds at a JSON pointer, if the pointer
/// leads to a string there.
pub uninterp spec fn json_text_at(doc: Seq<char>, pointer: Seq<char>) -> Option<Seq<char>>;

/// The encoder computes its output length as a `usize`; an input of this
/// length does not overflow it.
pub open spec fn base64_fits(len: nat) -> bool {
    (len / 3) * 4 + 4 <= usize::MAX
}

/// The view of a text that may be absent.
pub open spec fn text_view(text: Option<String>) -> Option<Seq<char>> {
    match text {
        Some(t) => Some(t@),
        None => None,
    }
}

/// Calls `Engine::encode` of the `base64` crate on its `STANDARD` engine.
/// The result is named `base64_standard`; the input must be short enough for
/// the engine's length computation, which panics on overflow.
#[verifier::external_body]
pub(crate) fn base64_encode(data: &[u8]) -> (r: String)
    requires
        base64_fits(data@.len()),
    ensures
        r@ == base64_standard(data@),
{
    base64::engine::general_purpose::STANDARD.encode(data)
}

/// Calls `String::from_utf8_lossy` and takes ownership of the text. Valid
/// UTF-8 comes back as the string that it encodes; for any other bytes the
/// result is named `utf8_lossy`.
#[verifier::external_body]
pub(crate) fn lossy_text(data: &[u8]) -> (r: String)
    ensures
        valid_utf8(data@) ==> r@ == decode_utf8(data@),
        !valid_utf8(data@) ==> r@ == utf8_lossy(data@),
{
    String::from_utf8_lossy(data).into_owned()
}

/// Writes a text as `serde_json` displays `Value::String`: as a JSON string
/// literal. The result is named `json_string_literal`.
#[verifier::external_body]
pub(crate) fn json_quote(text: &str) -> (r: String)
    ensures
        r@ == json_string_literal(text@),
{
    serde_json::Value::String(text.to_owned()).to_string()
}

/// Reads a text with `serde_json::from_str` and looks up each pointer with
/// `Value::pointer` and `Value::as_str`. The call fails exactly on a text
/// that is no JSON document (`json_valid`); otherwise it returns, pointer by
/// pointer, the string found there (`json_text_at`).
#[verifier::external_body]
pub(crate) fn json_texts(doc: &str, pointers: &Vec<&str>) -> (r: Result<
    Vec<Option<String>>,
    serde_json::Error,
>)
    ensures
        r is Ok <==> json_valid(doc@),
        r matches Ok(found) ==> found@.len() == pointers@.len() && forall|i: int|
            0 <= i < found@.len() ==> text_view(#[trigger] found@[i]) == json_text_at(
                doc@,
                pointers@[i]@,
            ),
{
    let value: serde_json::Value = serde_json::from_str(doc)?;
    Ok(
        pointers.iter().map(
            |p| value.pointer(p).and_then(|v| v.as_str()).map(|t| t.to_owned()),
        ).collect(),
    )
}

} // verus!
