//! The sixteen-key pad and the keyboard keys that stand for it.

use crate::machine::Chip8;
use crate::model::State;
use vstd::prelude::*;

verus! {

/// The pad key that a keyboard key stands for. The pad
///
/// ```text
/// 1 2 3 C
/// 4 5 6 D
/// 7 8 9 E
/// A 0 B F
/// ```
///
/// lies on the keyboard block
///
/// ```text
/// 1 2 3 4
/// q w e r
/// a s d f
/// z x c v
/// ```
pub open spec fn pad_key_of(key: char) -> Option<u8> {
    if key == '1' {
        Some(0x1u8)
    } else if key == '2' {
        Some(0x2u8)
    } else if key == '3' {
        Some(0x3u8)
    } else if key == '4' {
        Some(0xCu8)
    } else if key == 'q' {
        Some(0x4u8)
    } else if key == 'w' {
        Some(0x5u8)
    } else if key == 'e' {
        Some(0x6u8)
    } else if key == 'r' {
        Some(0xDu8)
    } else if key == 'a' {
        Some(0x7u8)
    } else if key == 's' {
        Some(0x8u8)
    } else if key == 'd' {
        Some(0x9u8)
    } else if key == 'f' {
        Some(0xEu8)
    } else if key == 'z' {
        Some(0xAu8)
    } else if key == 'x' {
        Some(0x0u8)
    } else if key == 'c' {
        Some(0xBu8)
    } else if key == 'v' {
        Some(0xFu8)
    } else {
        None
    }
}

/// The pad key that a keyboard key stands for, if it stands for one.
pub fn pad_key(key: char) -> (pad: Option<u8>)
    ensures
        pad == pad_key_of(key),
        pad matches Some(k) ==> k < 16,
{
    match key {
        '1' => Some(0x1),
        '2' => Some(0x2),
        '3' => Some(0x3),
        '4' => Some(0xC),
        'q' => Some(0x4),
        'w' => Some(0x5),
        'e' => Some(0x6),
        'r' => Some(0xD),
        'a' => Some(0x7),
        's' => Some(0x8),
        'd' => Some(0x9),
        'f' => Some(0xE),
        'z' => Some(0xA),
        'x' => Some(0x0),
        'c' => Some(0xB),
        'v' => Some(0xF),
        _ => None,
    }
}

impl Chip8 {
    /// Records that a keyboard key went down or up. A key that stands for
    /// no pad key changes nothing.
    pub fn handle_keys(&mut self, key: char, pressed: bool)
        ensures
            final(self)@ == match pad_key_of(key) {
                Some(k) => State { keys: old(self)@.keys.update(k as int, pressed), ..old(self)@ },
                None => old(self)@,
            },
    {
        match pad_key(key) {
            Some(k) => self.update_keys(k, pressed),
            None => {},
        }
    }
}

} // verus!
