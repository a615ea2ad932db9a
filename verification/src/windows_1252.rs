//! The Windows Latin-1 code page (windows-1252), in which every byte is one
//! character.

use vstd::prelude::*;
use crate::encoding::decodable_len;

verus! {

/// The character that `byte` stands for in windows-1252. Bytes below 0x80 and
/// from 0xA0 on are the code points of the same number; the 32 bytes in
/// between are punctuation and letters from elsewhere in Unicode, and the
/// five of them that the code page leaves unassigned are the control
/// characters of the same number.
pub open spec fn cp1252_char(byte: u8) -> char {
    match byte {
        0x80u8 => '\u{20AC}',
        0x82u8 => '\u{201A}',
        0x83u8 => '\u{0192}',
        0x84u8 => '\u{201E}',
        0x85u8 => '\u{2026}',
        0x86u8 => '\u{2020}',
        0x87u8 => '\u{2021}',
        0x88u8 => '\u{02C6}',
        0x89u8 => '\u{2030}',
        0x8Au8 => '\u{0160}',
        0x8Bu8 => '\u{2039}',
        0x8Cu8 => '\u{0152}',
        0x8Eu8 => '\u{017D}',
        0x91u8 => '\u{2018}',
        0x92u8 => '\u{2019}',
        0x93u8 => '\u{201C}',
        0x94u8 => '\u{201D}',
        0x95u8 => '\u{2022}',
        0x96u8 => '\u{2013}',
        0x97u8 => '\u{2014}',
        0x98u8 => '\u{02DC}',
        0x99u8 => '\u{2122}',
        0x9Au8 => '\u{0161}',
        0x9Bu8 => '\u{203A}',
        0x9Cu8 => '\u{0153}',
        0x9Eu8 => '\u{017E}',
        0x9Fu8 => '\u{0178}',
        _ => byte as char,
    }
}

/// `bytes` read as windows-1252: one character for each byte.
pub open spec fn cp1252_text(bytes: Seq<u8>) -> Seq<char> {
    Seq::new(bytes.len(), |i: int| cp1252_char(bytes[i]))
}

/// The character that `byte` stands for in windows-1252.
pub fn windows_1252_char(byte: u8) -> (c: char)
    ensures
        c == cp1252_char(byte),
{
    match byte {
        0x80u8 => '\u{20AC}',
        0x82u8 => '\u{201A}',
        0x83u8 => '\u{0192}',
        0x84u8 => '\u{201E}',
        0x85u8 => '\u{2026}',
        0x86u8 => '\u{2020}',
        0x87u8 => '\u{2021}',
        0x88u8 => '\u{02C6}',
        0x89u8 => '\u{2030}',
        0x8Au8 => '\u{0160}',
        0x8Bu8 => '\u{2039}',
        0x8Cu8 => '\u{0152}',
        0x8Eu8 => '\u{017D}',
        0x91u8 => '\u{2018}',
        0x92u8 => '\u{2019}',
        0x93u8 => '\u{201C}',
        0x94u8 => '\u{201D}',
        0x95u8 => '\u{2022}',
        0x96u8 => '\u{2013}',
        0x97u8 => '\u{2014}',
        0x98u8 => '\u{02DC}',
        0x99u8 => '\u{2122}',
        0x9Au8 => '\u{0161}',
        0x9Bu8 => '\u{203A}',
        0x9Cu8 => '\u{0153}',
        0x9Eu8 => '\u{017E}',
        0x9Fu8 => '\u{0178}',
        _ => byte as char,
    }
}

/// `encoding_rs::WINDOWS_1252.decode_without_bom_handling`: decodes all of
/// `bytes` as windows-1252 and looks for no byte-order mark. Its table
/// assigns a character to every byte, so nothing is ever replaced: the text
/// has the character of each byte, in order. The length bound keeps the
/// decoder's buffer size within what a string can hold.
#[verifier::external_body]
pub(crate) fn windows_1252_text(bytes: &[u8]) -> (text: String)
    requires
        decodable_len(bytes@.len()),
    ensures
        text@ == cp1252_text(bytes@),
{
    encoding_rs::WINDOWS_1252.decode_without_bom_handling(bytes).0.into_owned()
}

} // verus!
