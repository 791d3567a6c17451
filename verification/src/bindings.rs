//! The few places where the crate leans on code it cannot see into.
//!
//! Every function here is a thin call into another library.  The verifier
//! takes the stated contract on faith, so each one says in words what it
//! assumes of the code behind it.

use base64::Engine;
use vstd::prelude::*;

verus! {

/// The error type of `base64` decoding, carried through unexamined.
#[verifier::external_type_specification]
#[verifier::external_body]
pub struct ExDecodeError(base64::DecodeError);

/// What `base64::engine::general_purpose::STANDARD.decode` makes of `input`:
/// the decoded bytes, or `None` where it reports a `DecodeError`.
pub uninterp spec fn base64_standard_decoded(input: Seq<u8>) -> Option<Seq<u8>>;

/// Calls `Engine::decode` on the `STANDARD` engine of `base64` (standard
/// alphabet, canonical padding required).
///
/// Assumed: the outcome depends on the input bytes alone, so it can be named
/// by [`base64_standard_decoded`]; success hands back exactly the named bytes
/// and failure corresponds to `None`.
#[verifier::external_body]
pub(crate) fn decode_standard(input: &[u8]) -> (r: Result<Vec<u8>, base64::DecodeError>)
    ensures
        match r {
            Ok(bytes) => base64_standard_decoded(input@) == Some(bytes@),
            Err(_) => base64_standard_decoded(input@).is_none(),
        },
{
    base64::engine::general_purpose::STANDARD.decode(input)
}

/// What `String::from_utf8_lossy` makes of `bytes`: the text they encode, with
/// U+FFFD in place of every ill-formed sequence.
pub uninterp spec fn utf8_lossy_text(bytes: Seq<u8>) -> Seq<char>;

/// Calls `String::from_utf8_lossy` and takes ownership of the text.
///
/// Assumed: the text depends on the bytes alone, so it can be named by
/// [`utf8_lossy_text`].
#[verifier::external_body]
pub(crate) fn decode_utf8_lossy(bytes: &[u8]) -> (r: String)
    ensures
        r@ == utf8_lossy_text(bytes@),
{
    String::from_utf8_lossy(bytes).into_owned()
}

/// What `std::path::Path::join` makes of `base` extended by `part`, on the
/// platform the crate is built for.
pub uninterp spec fn joined_path(base: Seq<char>, part: Seq<char>) -> Seq<char>;

/// Calls `Path::join` on `base` with `part` and hands the result back as text.
///
/// Assumed: for one build target the joined path depends on the two texts
/// alone, so it can be named by [`joined_path`].  Both inputs are valid
/// Unicode, hence so is the result, and the conversion back to text loses
/// nothing.
#[verifier::external_body]
pub(crate) fn join_path(base: &str, part: &str) -> (r: String)
    ensures
        r@ == joined_path(base@, part@),
{
    std::path::Path::new(base).join(part).to_string_lossy().into_owned()
}

/// Calls `Uuid::new_v4` and renders the identifier with its `Display` impl.
///
/// Assumed: the rendering is the hyphenated form, which is 36 characters
/// long.  Nothing is assumed about which identifier comes back; two calls
/// may, as far as the verifier knows, return anything of that length.
#[verifier::external_body]
pub(crate) fn random_uuid_text() -> (r: String)
    ensures
        r@.len() == 36,
{
    uuid::Uuid::new_v4().to_string()
}

/// Reads the system clock with `SystemTime::now`, converts the instant with
/// `chrono`'s `From<SystemTime> for DateTime<Utc>` and renders it with
/// `to_rfc3339`.
///
/// Nothing is assumed about the text that comes back.  The conversion takes
/// a clock that stands before 1970 as well as one that stands after it.
#[verifier::external_body]
pub(crate) fn utc_now_rfc3339() -> (r: String) {
    chrono::DateTime::<chrono::Utc>::from(std::time::SystemTime::now()).to_rfc3339()
}

} // verus!
