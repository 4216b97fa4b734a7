//! The built-in glyphs for the sixteen hexadecimal digits.

use crate::display::Sprite;
use vstd::prelude::*;

verus! {

/// The small glyphs for `0` to `F`, five bytes each.
pub const FONTSET: [u8; 80] = [
    0xF0, 0x90, 0x90, 0x90, 0xF0,
    0x20, 0x60, 0x20, 0x20, 0x70,
    0xF0, 0x10, 0xF0, 0x80, 0xF0,
    0xF0, 0x10, 0xF0, 0x10, 0xF0,
    0x90, 0x90, 0xF0, 0x10, 0x10,
    0xF0, 0x80, 0xF0, 0x10, 0xF0,
    0xF0, 0x80, 0xF0, 0x90, 0xF0,
    0xF0, 0x10, 0x20, 0x40, 0x40,
    0xF0, 0x90, 0xF0, 0x90, 0xF0,
    0xF0, 0x90, 0xF0, 0x10, 0xF0,
    0xF0, 0x90, 0xF0, 0x90, 0x90,
    0xE0, 0x90, 0xE0, 0x90, 0xE0,
    0xF0, 0x80, 0x80, 0x80, 0xF0,
    0xE0, 0x90, 0x90, 0x90, 0xE0,
    0xF0, 0x80, 0xF0, 0x80, 0xF0,
    0xF0, 0x80, 0xF0, 0x80, 0x80,
];

/// The large glyphs for `0` to `F`, ten bytes each.
pub const SFONTSET: [u8; 160] = [
    0xF0, 0xF0, 0x90, 0x90, 0x90, 0x90, 0x90, 0x90, 0xF0, 0xF0,
    0x20, 0x20, 0x60, 0x60, 0x20, 0x20, 0x20, 0x20, 0x70, 0x70,
    0xF0, 0xF0, 0x10, 0x10, 0xF0, 0xF0, 0x80, 0x80, 0xF0, 0xF0,
    0xF0, 0xF0, 0x10, 0x10, 0xF0, 0xF0, 0x10, 0x10, 0xF0, 0xF0,
    0x90, 0x90, 0x90, 0x90, 0xF0, 0xF0, 0x10, 0x10, 0x10, 0x10,
    0xF0, 0xF0, 0x80, 0x80, 0xF0, 0xF0, 0x10, 0x10, 0xF0, 0xF0,
    0xF0, 0xF0, 0x80, 0x80, 0xF0, 0xF0, 0x90, 0x90, 0xF0, 0xF0,
    0xF0, 0xF0, 0x10, 0x10, 0x20, 0x20, 0x40, 0x40, 0x40, 0x40,
    0xF0, 0xF0, 0x90, 0x90, 0xF0, 0xF0, 0x90, 0x90, 0xF0, 0xF0,
    0xF0, 0xF0, 0x90, 0x90, 0xF0, 0xF0, 0x10, 0x10, 0xF0, 0xF0,
    0xF0, 0xF0, 0x90, 0x90, 0xF0, 0xF0, 0x90, 0x90, 0x90, 0x90,
    0xE0, 0xE0, 0x90, 0x90, 0xE0, 0xE0, 0x90, 0x90, 0xE0, 0xE0,
    0xF0, 0xF0, 0x80, 0x80, 0x80, 0x80, 0x80, 0x80, 0xF0, 0xF0,
    0xE0, 0xE0, 0x90, 0x90, 0x90, 0x90, 0x90, 0x90, 0xE0, 0xE0,
    0xF0, 0xF0, 0x80, 0x80, 0xF0, 0xF0, 0x80, 0x80, 0xF0, 0xF0,
    0xF0, 0xF0, 0x80, 0x80, 0xF0, 0xF0, 0x80, 0x80, 0x80, 0x80,
];

/// The byte that a fresh machine holds at memory offset `i`, for `i` below
/// 240: the small font followed by the large font.
pub open spec fn font_byte(i: int) -> u8 {
    if i < 80 {
        FONTSET@[i]
    } else {
        SFONTSET@[i - 80]
    }
}

/// The small glyph for `digit` as a sprite of five rows of eight pixels.
pub open spec fn glyph_sprite(digit: int) -> Sprite {
    Sprite { rows: Seq::new(5, |r: int| FONTSET@[5 * digit + r] as u16), cols: 8 }
}

/// Memory offset of the small glyph for `digit`: five bytes per glyph from
/// the start of memory.
pub open spec fn small_glyph_offset(digit: int) -> int {
    5 * digit
}

/// Memory offset of the large glyph for `digit`: ten bytes per glyph behind
/// the small font.
pub open spec fn big_glyph_offset(digit: int) -> int {
    10 * digit + 80
}

/// Whether `memory` still holds both fonts where a fresh machine has them.
pub open spec fn fonts_intact(memory: Seq<u8>) -> bool {
    forall|i: int| 0 <= i < 240 ==> memory[i] == font_byte(i)
}

} // verus!
