//! UTF-16: code units, byte order, and the decoders for byte-order-marked
//! files.

use vstd::prelude::*;
use crate::encoding::decodable_len;
use crate::utf8::REPLACEMENT;

verus! {

/// Whether `unit` is the first half of a surrogate pair.
pub open spec fn is_high_surrogate(unit: u16) -> bool {
    0xD800 <= unit <= 0xDBFF
}

/// Whether `unit` is the second half of a surrogate pair.
pub open spec fn is_low_surrogate(unit: u16) -> bool {
    0xDC00 <= unit <= 0xDFFF
}

/// The scalar value that the surrogate pair `high`, `low` stands for.
pub open spec fn pair_scalar(high: u16, low: u16) -> int {
    0x10000 + (high - 0xD800) * 0x400 + (low - 0xDC00)
}

/// The code units of one character: itself below U+10000, a surrogate pair
/// from there on.
pub open spec fn encode_utf16_char(c: char) -> Seq<u16> {
    let v = c as int;
    if v < 0x10000 {
        seq![v as u16]
    } else {
        seq![(0xD800 + (v - 0x10000) / 0x400) as u16, (0xDC00 + (v - 0x10000) % 0x400) as u16]
    }
}

/// The UTF-16 code units of `text`.
pub open spec fn encode_utf16(text: Seq<char>) -> Seq<u16>
    decreases text.len(),
{
    if text.len() == 0 {
        seq![]
    } else {
        encode_utf16_char(text[0]) + encode_utf16(text.drop_first())
    }
}

/// Whether every surrogate in `units` is part of a high-low pair.
pub open spec fn well_formed_utf16(units: Seq<u16>) -> bool
    decreases units.len(),
{
    if units.len() == 0 {
        true
    } else if is_high_surrogate(units[0]) {
        units.len() >= 2 && is_low_surrogate(units[1]) && well_formed_utf16(units.skip(2))
    } else {
        !is_low_surrogate(units[0]) && well_formed_utf16(units.skip(1))
    }
}

/// The characters that well-formed `units` stand for.
pub open spec fn decode_utf16(units: Seq<u16>) -> Seq<char>
    recommends
        well_formed_utf16(units),
    decreases units.len(),
{
    if units.len() == 0 {
        seq![]
    } else if is_high_surrogate(units[0]) && units.len() >= 2 {
        seq![pair_scalar(units[0], units[1]) as char] + decode_utf16(units.skip(2))
    } else {
        seq![units[0] as char] + decode_utf16(units.skip(1))
    }
}

/// The code unit that two consecutive bytes make up in the given byte order.
pub open spec fn unit_of_bytes(first: u8, second: u8, big_endian: bool) -> u16 {
    if big_endian {
        (first * 0x100 + second) as u16
    } else {
        (second * 0x100 + first) as u16
    }
}

/// The code units that the byte pairs of `bytes` make up; a last odd byte is
/// left out.
pub open spec fn units_of_bytes(bytes: Seq<u8>, big_endian: bool) -> Seq<u16> {
    Seq::new(
        bytes.len() / 2,
        |i: int| unit_of_bytes(bytes[2 * i], bytes[2 * i + 1], big_endian),
    )
}

/// `units` written out as bytes, two per unit, in the given byte order.
pub open spec fn bytes_of_units(units: Seq<u16>, big_endian: bool) -> Seq<u8> {
    Seq::new(
        2 * units.len(),
        |i: int|
            if (i % 2 == 0) == big_endian {
                (units[i / 2] / 0x100) as u8
            } else {
                (units[i / 2] % 0x100) as u8
            },
    )
}

/// `text` encoded as UTF-16 in the given byte order, without a byte-order
/// mark.
pub open spec fn utf16_bytes(text: Seq<char>, big_endian: bool) -> Seq<u8> {
    bytes_of_units(encode_utf16(text), big_endian)
}

/// The text that `bytes` encodes, when `bytes` is well-formed UTF-16 in the
/// given byte order: an even number of bytes whose code units pair up their
/// surrogates.
pub open spec fn strict_utf16(bytes: Seq<u8>, big_endian: bool) -> Option<Seq<char>> {
    if bytes.len() % 2 == 0 && well_formed_utf16(units_of_bytes(bytes, big_endian)) {
        Some(decode_utf16(units_of_bytes(bytes, big_endian)))
    } else {
        None
    }
}

/// Reading back the bytes of code units gives the code units.
pub proof fn lemma_units_of_bytes_of_units(units: Seq<u16>, big_endian: bool)
    ensures
        bytes_of_units(units, big_endian).len() == 2 * units.len(),
        units_of_bytes(bytes_of_units(units, big_endian), big_endian) == units,
{
    let back = units_of_bytes(bytes_of_units(units, big_endian), big_endian);
    assert forall|i: int| 0 <= i < units.len() implies back[i] == units[i] by {
        let u = units[i];
        assert((u / 0x100) * 0x100 + u % 0x100 == u);
    }
}

/// The code units of a character, put before well-formed units, are decoded
/// as that character.
pub proof fn lemma_decode_utf16_char(c: char, rest: Seq<u16>)
    requires
        well_formed_utf16(rest),
    ensures
        well_formed_utf16(encode_utf16_char(c) + rest),
        decode_utf16(encode_utf16_char(c) + rest) == seq![c] + decode_utf16(rest),
{
    let units = encode_utf16_char(c) + rest;
    if (c as int) < 0x10000 {
        assert(units.skip(1) =~= rest);
    } else {
        assert(units.skip(2) =~= rest);
    }
}

/// The code units of any text are well formed and decode to that text.
pub proof fn lemma_decode_encode_utf16(text: Seq<char>)
    ensures
        well_formed_utf16(encode_utf16(text)),
        decode_utf16(encode_utf16(text)) == text,
    decreases text.len(),
{
    if text.len() > 0 {
        lemma_decode_encode_utf16(text.drop_first());
        lemma_decode_utf16_char(text[0], encode_utf16(text.drop_first()));
    }
}

/// Text written as UTF-16 in either byte order reads back as itself.
pub proof fn lemma_utf16_round_trip(text: Seq<char>, big_endian: bool)
    ensures
        strict_utf16(utf16_bytes(text, big_endian), big_endian) == Some(text),
{
    lemma_units_of_bytes_of_units(encode_utf16(text), big_endian);
    lemma_decode_encode_utf16(text);
}

/// The text that the little-endian UTF-16 decoder makes of `bytes`, malformed
/// parts replaced.
pub uninterp spec fn utf16le_lossy_text(bytes: Seq<u8>) -> Seq<char>;

/// The text that the big-endian UTF-16 decoder makes of `bytes`, malformed
/// parts replaced.
pub uninterp spec fn utf16be_lossy_text(bytes: Seq<u8>) -> Seq<char>;

/// `encoding_rs::UTF_16LE.decode_without_bom_handling`: decodes all of
/// `bytes` as little-endian UTF-16, looks for no byte-order mark, and puts
/// U+FFFD in place of what is malformed. Well-formed input comes out as the
/// characters it encodes; of any other input at least one part is replaced.
/// The length bound keeps the decoder's buffer size within what a string can
/// hold.
#[verifier::external_body]
pub(crate) fn utf16le_lossy(bytes: &[u8]) -> (text: String)
    requires
        decodable_len(bytes@.len()),
    ensures
        text@ == utf16le_lossy_text(bytes@),
        strict_utf16(bytes@, false) matches Some(t) ==> text@ == t,
        strict_utf16(bytes@, false) is None ==> text@.contains(REPLACEMENT),
{
    encoding_rs::UTF_16LE.decode_without_bom_handling(bytes).0.into_owned()
}

/// `encoding_rs::UTF_16BE.decode_without_bom_handling`: as for the
/// little-endian decoder, with the bytes of each code unit in the other
/// order.
#[verifier::external_body]
pub(crate) fn utf16be_lossy(bytes: &[u8]) -> (text: String)
    requires
        decodable_len(bytes@.len()),
    ensures
        text@ == utf16be_lossy_text(bytes@),
        strict_utf16(bytes@, true) matches Some(t) ==> text@ == t,
        strict_utf16(bytes@, true) is None ==> text@.contains(REPLACEMENT),
{
    encoding_rs::UTF_16BE.decode_without_bom_handling(bytes).0.into_owned()
}

/// `str::encode_utf16`: the UTF-16 code units of `text`, in order, without a
/// byte-order mark.
#[verifier::external_body]
pub(crate) fn utf16_units(text: &str) -> (units: Vec<u16>)
    ensures
        units@ == encode_utf16(text@),
{
    text.encode_utf16().collect()
}

} // verus!
