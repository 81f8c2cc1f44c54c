//! The boundary to code that is called but not verified. Every contract in
//! this module is taken on trust from the crate it names.

use vstd::prelude::*;

verus! {

/// `serde_json::Error`, carried through as an opaque value.
#[verifier::external_type_specification]
#[verifier::external_body]
pub struct ExJsonError(serde_json::Error);

/// The JSON string literal for a text: the text between double quotes, with
/// the escapes that `serde_json` writes.
pub uninterp spec fn json_string_literal(text: Seq<char>) -> Seq<char>;

/// The text that the standard base64 alphabet, with padding, gives for a
/// sequence of bytes.
pub uninterp spec fn base64_standard(bytes: Seq<u8>) -> Seq<char>;

/// `base64::Engine::encode` of the `STANDARD` engine: the base64 text of the
/// bytes. The call panics where the length of that text does not fit in
/// `usize`, so such inputs are left out.
#[verifier::external_body]
pub(crate) fn base64_encode(data: &[u8]) -> (text: String)
    requires
        data@.len() / 3 * 4 + 4 <= usize::MAX,
    ensures
        text@ == base64_standard(data@),
{
    base64::Engine::encode(&base64::engine::general_purpose::STANDARD, data)
}

/// `uuid::Uuid::new_v4`, shown in its hyphenated form. The value is random;
/// the hyphenated form always has 36 characters.
#[verifier::external_body]
pub(crate) fn random_uuid_hyphenated() -> (text: String)
    ensures
        text@.len() == 36,
{
    uuid::Uuid::new_v4().to_string()
}

/// `uuid::Uuid::new_v4`, shown in its simple form. The value is random; the
/// simple form always has 32 characters.
#[verifier::external_body]
pub(crate) fn random_uuid_simple() -> (text: String)
    ensures
        text@.len() == 32,
{
    uuid::Uuid::new_v4().simple().to_string()
}

/// `time::OffsetDateTime::now_utc` followed by `unix_timestamp_nanos`: the
/// clock's reading in nanoseconds since the epoch. Nothing is claimed of it.
#[verifier::external_body]
pub(crate) fn unix_nanos_now() -> (nanos: i128) {
    time::OffsetDateTime::now_utc().unix_timestamp_nanos()
}

/// `serde_json::to_string` on a string slice: the JSON string literal of the
/// text. For a string slice the call writes into a byte vector and has no
/// error of its own, so it succeeds on every text.
#[verifier::external_body]
pub(crate) fn json_quote(text: &str) -> (quoted: Result<String, serde_json::Error>)
    ensures
        quoted is Ok,
        quoted->Ok_0@ == json_string_literal(text@),
{
    serde_json::to_string(text)
}

} // verus!
