//! The built-in hexadecimal font: sixteen glyphs of five bytes each, kept
//! in the first eighty memory cells.

use vstd::prelude::*;

verus! {

/// Number of bytes one glyph takes.
pub const GLYPH_BYTES: u16 = 5;

/// Number of bytes the whole font takes.
pub const FONT_BYTES: usize = 80;

/// The glyphs for the digits `0` to `F`, five rows each, a row in the high
/// nibble of its byte.
pub const FONT: [u8; 80] = [
    0xF0, 0x90, 0x90, 0x90, 0xF0,
    0x20, 0x60, 0x20, 0x20, 0x70,
    0xF0, 0x10, 0xF0, 0x80, 0xF0,
    0xF0, 0x10, 0xF0, 0x10, 0xF0,
    0x90, 0x90, 0xF0, 0x10, 0x10,
    0xF0, 0x80, 0xF0, 0x10, 0xF0,
    0xF0, 0x80, 0xF0, 0x90, 0xF0,
    0xF0, 0x10, 0x20, 0x40, 0x40,
    0xF0, 0x90, 0xF0, 0x90, 0xF0,
    0xF0, 0x90, 0xF0, 0x10, 0xF0,
    0xF0, 0x90, 0xF0, 0x90, 0x90,
    0xE0, 0x90, 0xE0, 0x90, 0xE0,
    0xF0, 0x80, 0x80, 0x80, 0xF0,
    0xE0, 0x90, 0x90, 0x90, 0xE0,
    0xF0, 0x80, 0xF0, 0x80, 0xF0,
    0xF0, 0x80, 0xF0, 0x80, 0x80,
];

/// The font as a sequence of bytes.
pub open spec fn font_glyphs() -> Seq<u8> {
    FONT@
}

/// The address of the glyph for the hexadecimal digit in the low nibble
/// of `value`.
pub open spec fn glyph_address(value: u8) -> int {
    (value % 16) * GLYPH_BYTES
}

} // verus!
