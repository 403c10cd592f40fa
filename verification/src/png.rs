//! The chunks of a PNG file, as far as the library reads them itself.
//!
//! A PNG file is a signature of eight bytes and then chunks. A chunk is the
//! length of its data in four bytes, most significant first, its type in four
//! bytes, the data, and a checksum of four bytes.

use vstd::prelude::*;

verus! {

/// Length of the signature that a PNG file begins with.
pub const SIGNATURE_LENGTH: usize = 8;

/// Length of what stands before the data of a chunk: its length and its type.
pub const HEADER_LENGTH: usize = 8;

/// Length of the checksum that ends a chunk.
pub const CHECKSUM_LENGTH: usize = 4;

/// The most bytes that a palette of 256 colours takes.
pub const PALETTE_MAX_LENGTH: u32 = 768;

/// The number that the four bytes from `at` on spell, most significant first.
pub open spec fn be_u32(bytes: Seq<u8>, at: int) -> int
    recommends
        0 <= at,
        at + 4 <= bytes.len(),
{
    bytes[at] * 0x100_0000 + bytes[at + 1] * 0x1_0000 + bytes[at + 2] * 0x100 + bytes[at + 3]
}

/// Whether the four bytes from `at` on spell `PLTE`, the type of the chunk
/// that holds the palette.
pub open spec fn is_palette_type(bytes: Seq<u8>, at: int) -> bool
    recommends
        0 <= at,
        at + 4 <= bytes.len(),
{
    bytes[at] == 0x50 && bytes[at + 1] == 0x4c && bytes[at + 2] == 0x54 && bytes[at + 3] == 0x45
}

/// Whether a palette of `length` bytes is a whole number of colours of three
/// bytes each, and no more than 256 of them.
pub open spec fn palette_length_fits(length: int) -> bool {
    length % 3 == 0 && length <= PALETTE_MAX_LENGTH
}

/// Whether every palette chunk that begins at `at` or later has a length that
/// fits. The chunks are found by their lengths alone: the next one begins
/// where the data and the checksum of this one end. What is left of the file
/// where no whole chunk header stands any more is not looked at.
pub open spec fn palettes_fit_from(bytes: Seq<u8>, at: int) -> bool
    decreases bytes.len() - at,
{
    if at < 0 || at + HEADER_LENGTH > bytes.len() {
        true
    } else if is_palette_type(bytes, at + 4) && !palette_length_fits(be_u32(bytes, at)) {
        false
    } else if at + HEADER_LENGTH + be_u32(bytes, at) + CHECKSUM_LENGTH <= bytes.len() {
        palettes_fit_from(bytes, at + HEADER_LENGTH + be_u32(bytes, at) + CHECKSUM_LENGTH)
    } else {
        true
    }
}

/// Whether every palette chunk of the file has a length that fits.
pub open spec fn palettes_fit(bytes: Seq<u8>) -> bool {
    palettes_fit_from(bytes, SIGNATURE_LENGTH as int)
}

/// Reads four bytes as a number, most significant first.
fn read_be_u32(bytes: &[u8], at: usize) -> (value: u32)
    requires
        at + 4 <= bytes.len(),
    ensures
        value == be_u32(bytes@, at as int),
{
    let first: u32 = bytes[at] as u32;
    let second: u32 = bytes[at + 1] as u32;
    let third: u32 = bytes[at + 2] as u32;
    let fourth: u32 = bytes[at + 3] as u32;
    first * 0x100_0000 + second * 0x1_0000 + third * 0x100 + fourth
}

/// Tells whether the type of a chunk is that of the palette.
fn has_palette_type(bytes: &[u8], at: usize) -> (palette: bool)
    requires
        at + 4 <= bytes.len(),
    ensures
        palette == is_palette_type(bytes@, at as int),
{
    bytes[at] == 0x50 && bytes[at + 1] == 0x4c && bytes[at + 2] == 0x54 && bytes[at + 3] == 0x45
}

/// Walks the chunks of a file and tells whether every palette among them has
/// a length that fits.
pub fn check_palettes(bytes: &[u8]) -> (fit: bool)
    ensures
        fit == palettes_fit(bytes@),
{
    let end: usize = bytes.len();
    let mut at: usize = SIGNATURE_LENGTH;
    while at <= end && end - at >= HEADER_LENGTH
        invariant
            end == bytes.len(),
            palettes_fit(bytes@) == palettes_fit_from(bytes@, at as int),
        decreases end - at,
    {
        let length: u32 = read_be_u32(bytes, at);
        if has_palette_type(bytes, at + 4) && !(length % 3 == 0 && length <= PALETTE_MAX_LENGTH) {
            return false;
        }
        let left: u64 = (end - at - HEADER_LENGTH) as u64;
        let chunk: u64 = length as u64 + CHECKSUM_LENGTH as u64;
        if chunk > left {
            return true;
        }
        at = at + HEADER_LENGTH + length as usize + CHECKSUM_LENGTH;
    }
    true
}

} // verus!
