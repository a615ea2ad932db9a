//! Which encoding a file's bytes are taken to be in.

use vstd::prelude::*;
use vstd::utf8::*;
use crate::utf8::is_utf8;

verus! {

/// The encodings a file may be read as, in the order in which they are tried.
#[derive(Clone, Copy, Debug, PartialEq, Eq, Structural)]
pub enum TextEncoding {
    /// UTF-8 announced by a byte-order mark.
    Utf8Bom,
    /// Little-endian UTF-16 announced by a byte-order mark.
    Utf16LeBom,
    /// Big-endian UTF-16 announced by a byte-order mark.
    Utf16BeBom,
    /// Well-formed UTF-8 without a byte-order mark.
    Utf8,
    /// The single-byte code page windows-1252, taken when nothing else fits.
    Windows1252,
}

/// The UTF-8 byte-order mark.
pub open spec fn utf8_bom() -> Seq<u8> {
    seq![0xEFu8, 0xBBu8, 0xBFu8]
}

/// The little-endian UTF-16 byte-order mark.
pub open spec fn utf16le_bom() -> Seq<u8> {
    seq![0xFFu8, 0xFEu8]
}

/// The big-endian UTF-16 byte-order mark.
pub open spec fn utf16be_bom() -> Seq<u8> {
    seq![0xFEu8, 0xFFu8]
}

impl TextEncoding {
    /// The byte-order mark that announces this encoding; empty for the two
    /// encodings that have none.
    pub open spec fn bom(self) -> Seq<u8> {
        match self {
            TextEncoding::Utf8Bom => utf8_bom(),
            TextEncoding::Utf16LeBom => utf16le_bom(),
            TextEncoding::Utf16BeBom => utf16be_bom(),
            TextEncoding::Utf8 => Seq::empty(),
            TextEncoding::Windows1252 => Seq::empty(),
        }
    }

    /// The number of bytes of this encoding's byte-order mark.
    pub fn bom_len(self) -> (len: usize)
        ensures
            len == self.bom().len(),
    {
        match self {
            TextEncoding::Utf8Bom => 3,
            TextEncoding::Utf16LeBom => 2,
            TextEncoding::Utf16BeBom => 2,
            TextEncoding::Utf8 => 0,
            TextEncoding::Windows1252 => 0,
        }
    }
}

/// Whether input of `len` bytes can be decoded: the text may take three bytes
/// for each byte read, and no string is longer than `isize::MAX` bytes.
pub open spec fn decodable_len(len: nat) -> bool {
    3 * len <= isize::MAX
}

/// Whether input of `len` bytes can be decoded.
pub fn fits_decoder(len: usize) -> (fits: bool)
    ensures
        fits == decodable_len(len as nat),
{
    len <= (isize::MAX as usize) / 3
}

/// The byte-order mark that `bytes` begins with, if any. The UTF-8 mark is
/// looked for first, then the little-endian and the big-endian UTF-16 marks.
pub open spec fn leading_bom(bytes: Seq<u8>) -> Option<TextEncoding> {
    if utf8_bom().is_prefix_of(bytes) {
        Some(TextEncoding::Utf8Bom)
    } else if utf16le_bom().is_prefix_of(bytes) {
        Some(TextEncoding::Utf16LeBom)
    } else if utf16be_bom().is_prefix_of(bytes) {
        Some(TextEncoding::Utf16BeBom)
    } else {
        None
    }
}

/// The encoding that `bytes` is read as. A byte-order mark decides, whatever
/// follows it. Without one, well-formed UTF-8 is UTF-8 and everything else is
/// windows-1252.
pub open spec fn detected_encoding(bytes: Seq<u8>) -> TextEncoding {
    match leading_bom(bytes) {
        Some(mark) => mark,
        None => if valid_utf8(bytes) {
            TextEncoding::Utf8
        } else {
            TextEncoding::Windows1252
        },
    }
}

/// Finds the byte-order mark at the start of `bytes`.
pub fn sniff_bom(bytes: &[u8]) -> (mark: Option<TextEncoding>)
    ensures
        mark == leading_bom(bytes@),
{
    let n = bytes.len();
    if n >= 3 && bytes[0] == 0xEF && bytes[1] == 0xBB && bytes[2] == 0xBF {
        Some(TextEncoding::Utf8Bom)
    } else if n >= 2 && bytes[0] == 0xFF && bytes[1] == 0xFE {
        Some(TextEncoding::Utf16LeBom)
    } else if n >= 2 && bytes[0] == 0xFE && bytes[1] == 0xFF {
        Some(TextEncoding::Utf16BeBom)
    } else {
        None
    }
}

/// Determines the encoding that `bytes` is read as.
pub fn detect_encoding(bytes: &[u8]) -> (encoding: TextEncoding)
    ensures
        encoding == detected_encoding(bytes@),
{
    match sniff_bom(bytes) {
        Some(mark) => mark,
        None => if is_utf8(bytes) {
            TextEncoding::Utf8
        } else {
            TextEncoding::Windows1252
        },
    }
}

} // verus!
