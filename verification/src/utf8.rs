//! UTF-8 decoding as the standard library performs it, stated over
//! `vstd::utf8`.

use vstd::prelude::*;
use vstd::string::StringSliceAdditionalSpecFns;
use vstd::utf8::*;
use crate::encoding::decodable_len;

verus! {

/// `core::str::Utf8Error`, which says where UTF-8 validation stopped. It is
/// passed along unread.
#[verifier::external_type_specification]
#[verifier::external_body]
pub struct ExUtf8Error(core::str::Utf8Error);

/// `core::str::from_utf8` accepts exactly the well-formed UTF-8 byte
/// sequences, and the string slice it returns on success consists of the very
/// bytes it was given.
pub assume_specification[ core::str::from_utf8 ](v: &[u8]) -> (r: Result<
    &str,
    core::str::Utf8Error,
>)
    ensures
        r is Ok <==> valid_utf8(v@),
        r matches Ok(s) ==> s.spec_bytes() == v@,
;

/// U+FFFD, the character that stands in for what cannot be decoded.
pub const REPLACEMENT: char = '\u{FFFD}';

/// The text that lossy UTF-8 decoding makes of `bytes`, malformed parts
/// replaced.
pub uninterp spec fn utf8_lossy_text(bytes: Seq<u8>) -> Seq<char>;

/// `String::from_utf8_lossy`: decodes all of `bytes` as UTF-8 and puts U+FFFD
/// in place of what is malformed. Well-formed input comes out as the
/// characters it encodes; of any other input at least one part is replaced.
/// The length bound leaves room for three bytes of text for each byte read.
#[verifier::external_body]
pub(crate) fn utf8_lossy(bytes: &[u8]) -> (text: String)
    requires
        decodable_len(bytes@.len()),
    ensures
        text@ == utf8_lossy_text(bytes@),
        valid_utf8(bytes@) ==> text@ == decode_utf8(bytes@),
        !valid_utf8(bytes@) ==> text@.contains(REPLACEMENT),
{
    String::from_utf8_lossy(bytes).into_owned()
}

/// Whether `bytes` is well-formed UTF-8.
pub fn is_utf8(bytes: &[u8]) -> (valid: bool)
    ensures
        valid == valid_utf8(bytes@),
{
    core::str::from_utf8(bytes).is_ok()
}

/// The text that `bytes` encodes, when `bytes` is well-formed UTF-8.
pub fn strict_utf8(bytes: &[u8]) -> (text: Option<String>)
    ensures
        text is Some <==> valid_utf8(bytes@),
        text matches Some(t) ==> t@ == decode_utf8(bytes@),
{
    match core::str::from_utf8(bytes) {
        Ok(s) => {
            proof {
                encode_utf8_decode_utf8(s@);
            }
            Some(s.to_owned())
        },
        Err(_) => None,
    }
}

} // verus!
