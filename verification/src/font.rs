//! The built-in hexadecimal font.

use vstd::prelude::*;

verus! {

/// Number of bytes in one glyph of the built-in font.
pub const GLYPH_SIZE: usize = 5;

/// Number of bytes in the whole font table.
pub const FONT_SIZE: usize = 80;

/// The sixteen glyphs `0`..`F`, five bytes each, one byte per row with the
/// leftmost pixel in the most significant bit.
pub const FONT_SET: [u8; 80] = [
    0xF0, 0x90, 0x90, 0x90, 0xF0,
    0x20, 0x60, 0x20, 0x20, 0x70,
    0xF0, 0x10, 0xF0, 0x80, 0xF0,
    0xF0, 0x10, 0xF0, 0x10, 0xF0,
    0x90, 0x90, 0xF0, 0x10, 0x10,
    0xF0, 0x80, 0xF0, 0x10, 0xF0,
    0xF0, 0x80, 0xF0, 0x90, 0xF0,
    0xF0, 0x10, 0x20, 0x40, 0x40,
    0xF0, 0x90, 0xF0, 0x90, 0xF0,
    0xF0, 0x90, 0xF0, 0x10, 0xF0,
    0xF0, 0x90, 0xF0, 0x90, 0x90,
    0xE0, 0x90, 0xE0, 0x90, 0xE0,
    0xF0, 0x80, 0x80, 0x80, 0xF0,
    0xE0, 0x90, 0x90, 0x90, 0xE0,
    0xF0, 0x80, 0xF0, 0x80, 0xF0,
    0xF0, 0x80, 0xF0, 0x80, 0x80,
];

/// The font table as a sequence of bytes.
pub open spec fn font_set() -> Seq<u8> {
    FONT_SET@
}

} // verus!
