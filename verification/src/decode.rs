//! Decoding the bytes of a file into text.

use vstd::prelude::*;
use vstd::slice::slice_subrange;
use vstd::string::StringSliceAdditionalSpecFns;
use vstd::utf8::*;
use crate::encoding::{
    decodable_len, detected_encoding, fits_decoder, leading_bom, sniff_bom, utf16be_bom,
    utf16le_bom, utf8_bom, TextEncoding,
};
use crate::utf16::{
    lemma_utf16_round_trip, strict_utf16, utf16_bytes, utf16be_lossy, utf16be_lossy_text,
    utf16le_lossy, utf16le_lossy_text,
};
use crate::utf8::{strict_utf8, utf8_lossy, utf8_lossy_text, REPLACEMENT};
use crate::windows_1252::{cp1252_char, cp1252_text, windows_1252_text};

verus! {

/// `bytes` read as UTF-8, malformed parts replaced.
pub open spec fn lossy_utf8(bytes: Seq<u8>) -> Seq<char> {
    if valid_utf8(bytes) {
        decode_utf8(bytes)
    } else {
        utf8_lossy_text(bytes)
    }
}

/// `bytes` read as UTF-16 in the given byte order, malformed parts replaced.
pub open spec fn lossy_utf16(bytes: Seq<u8>, big_endian: bool) -> Seq<char> {
    match strict_utf16(bytes, big_endian) {
        Some(text) => text,
        None => if big_endian {
            utf16be_lossy_text(bytes)
        } else {
            utf16le_lossy_text(bytes)
        },
    }
}

/// The text of a file that holds `bytes`. A byte-order mark decides the
/// encoding and is not part of the text; what follows it is decoded with
/// replacement. Without a mark, well-formed UTF-8 is taken as it stands, and
/// anything else is read byte by byte as windows-1252.
pub open spec fn decoded_text(bytes: Seq<u8>) -> Seq<char> {
    match detected_encoding(bytes) {
        TextEncoding::Utf8Bom => lossy_utf8(bytes.skip(3)),
        TextEncoding::Utf16LeBom => lossy_utf16(bytes.skip(2), false),
        TextEncoding::Utf16BeBom => lossy_utf16(bytes.skip(2), true),
        TextEncoding::Utf8 => decode_utf8(bytes),
        TextEncoding::Windows1252 => cp1252_text(bytes),
    }
}

/// Whether `bytes` begins with a byte-order mark and what follows the mark
/// is malformed in the encoding that the mark announces.
pub open spec fn malformed_behind_mark(bytes: Seq<u8>) -> bool {
    match leading_bom(bytes) {
        Some(TextEncoding::Utf16LeBom) => strict_utf16(bytes.skip(2), false) is None,
        Some(TextEncoding::Utf16BeBom) => strict_utf16(bytes.skip(2), true) is None,
        Some(_) => !valid_utf8(bytes.skip(3)),
        None => false,
    }
}

/// Decodes the bytes of a file into text. Every input gives a text; none is
/// rejected. Where a part of the input is replaced, the text holds U+FFFD.
pub fn decode(bytes: &[u8]) -> (text: String)
    requires
        decodable_len(bytes@.len()),
    ensures
        text@ == decoded_text(bytes@),
        malformed_behind_mark(bytes@) ==> text@.contains(REPLACEMENT),
{
    match sniff_bom(bytes) {
        Some(mark) => {
            let rest = slice_subrange(bytes, mark.bom_len(), bytes.len());
            match mark {
                TextEncoding::Utf16LeBom => utf16le_lossy(rest),
                TextEncoding::Utf16BeBom => utf16be_lossy(rest),
                _ => utf8_lossy(rest),
            }
        },
        None => match strict_utf8(bytes) {
            Some(text) => text,
            None => windows_1252_text(bytes),
        },
    }
}

/// Decodes the bytes of a file into text, unless there are too many of them
/// for the text to be sure to fit in a string.
pub fn try_decode(bytes: &[u8]) -> (text: Option<String>)
    ensures
        text is Some <==> decodable_len(bytes@.len()),
        text matches Some(t) ==> t@ == decoded_text(bytes@) && (malformed_behind_mark(bytes@)
            ==> t@.contains(REPLACEMENT)),
{
    if fits_decoder(bytes.len()) {
        Some(decode(bytes))
    } else {
        None
    }
}

/// The bytes that a file holds for `text`: its UTF-8 encoding, with no
/// byte-order mark before it.
pub fn encode(text: &str) -> (bytes: &[u8])
    ensures
        bytes@ == encode_utf8(text@),
{
    text.as_bytes()
}

/// An empty file holds the empty text.
pub proof fn lemma_decode_empty()
    ensures
        decoded_text(Seq::<u8>::empty()) == Seq::<char>::empty(),
{
}

/// Well-formed UTF-8 never begins with a UTF-16 byte-order mark: 0xFE and
/// 0xFF begin no character.
pub proof fn lemma_utf8_has_no_utf16_bom(bytes: Seq<u8>)
    requires
        valid_utf8(bytes),
    ensures
        !utf16le_bom().is_prefix_of(bytes),
        !utf16be_bom().is_prefix_of(bytes),
{
    if bytes.len() >= 2 {
        assert(valid_first_scalar(bytes));
        assert(bytes[0] <= 0xf7);
    }
}

/// Text written as UTF-8 behind the UTF-8 byte-order mark is decoded as
/// itself.
pub proof fn lemma_utf8_bom_round_trip(text: Seq<char>)
    ensures
        decoded_text(utf8_bom() + encode_utf8(text)) == text,
{
    let bytes = utf8_bom() + encode_utf8(text);
    assert(bytes.skip(3) =~= encode_utf8(text));
    encode_utf8_valid_utf8(text);
    encode_utf8_decode_utf8(text);
}

/// Text written as UTF-16 behind the byte-order mark of its byte order is
/// decoded as itself.
pub proof fn lemma_utf16_bom_round_trip(text: Seq<char>, big_endian: bool)
    ensures
        decoded_text(
            (if big_endian {
                utf16be_bom()
            } else {
                utf16le_bom()
            }) + utf16_bytes(text, big_endian),
        ) == text,
{
    let bom = if big_endian {
        utf16be_bom()
    } else {
        utf16le_bom()
    };
    let bytes = bom + utf16_bytes(text, big_endian);
    assert(bytes[0] == bom[0] && bytes[1] == bom[1]);
    assert(bytes.skip(2) =~= utf16_bytes(text, big_endian));
    lemma_utf16_round_trip(text, big_endian);
}

proof fn lemma_bom_scalar(c: u32)
    by (bit_vector)
    ensures
        has_width_1_encoding(c) ==> leading_byte_width_1(c) != 0xEFu8,
        has_width_2_encoding(c) ==> leading_byte_width_2(c) != 0xEFu8,
        has_width_3_encoding(c) ==> (c == 0xFEFFu32 <==> leading_byte_width_3(c) == 0xEFu8
            && second_last_continuation_byte(c) == 0xBBu8 && last_continuation_byte(c) == 0xBFu8),
        has_width_4_encoding(c) ==> leading_byte_width_4(c) != 0xEFu8,
{
}

/// The UTF-8 bytes of a text begin with the UTF-8 byte-order mark exactly
/// when the text begins with U+FEFF, the character that the mark encodes.
pub proof fn lemma_utf8_bom_is_first_char(text: Seq<char>)
    ensures
        utf8_bom().is_prefix_of(encode_utf8(text)) <==> text.len() > 0 && text[0] == '\u{FEFF}',
{
    let bytes = encode_utf8(text);
    if text.len() > 0 {
        let c = text[0] as u32;
        char_is_scalar(text[0]);
        lemma_bom_scalar(c);
        if utf8_bom().is_prefix_of(bytes) {
            assert(utf8_bom()[0] == bytes[0] && utf8_bom()[1] == bytes[1] && utf8_bom()[2]
                == bytes[2]);
            char_u32_cast(text[0], c);
        }
    }
}

/// Text written as UTF-8 without a byte-order mark is decoded as itself,
/// unless it begins with U+FEFF: the bytes of that character are the UTF-8
/// byte-order mark and are taken for one. So what `encode` writes, `decode`
/// reads back unchanged.
pub proof fn lemma_utf8_round_trip(text: Seq<char>)
    requires
        text.len() == 0 || text[0] != '\u{FEFF}',
    ensures
        decoded_text(encode_utf8(text)) == text,
{
    lemma_utf8_bom_is_first_char(text);
    encode_utf8_valid_utf8(text);
    encode_utf8_decode_utf8(text);
    lemma_utf8_has_no_utf16_bom(encode_utf8(text));
}

/// A file without a byte-order mark that is not well-formed UTF-8 is decoded
/// into one character for each of its bytes: the windows-1252 character of
/// that byte.
pub proof fn lemma_fallback_one_char_per_byte(bytes: Seq<u8>)
    requires
        leading_bom(bytes) is None,
        !valid_utf8(bytes),
    ensures
        decoded_text(bytes).len() == bytes.len(),
        forall|i: int| 0 <= i < bytes.len() ==> decoded_text(bytes)[i] == cp1252_char(bytes[i]),
{
}

} // verus!
