//! Instruction words: their bit fields and the instructions they encode.

use vstd::prelude::*;

verus! {

/// The upper eight bits of an instruction word.
pub open spec fn high_byte_of(op: u16) -> u8 {
    (op / 256) as u8
}

/// The lower eight bits of an instruction word.
pub open spec fn low_byte_of(op: u16) -> u8 {
    (op % 256) as u8
}

/// The four-bit slice of an instruction word at `position`, counted from 1
/// (the highest four bits) to 4 (the lowest).
pub open spec fn nibble_of(op: u16, position: int) -> u8 {
    if position == 1 {
        (op / 4096) as u8
    } else if position == 2 {
        ((op / 256) % 16) as u8
    } else if position == 3 {
        ((op / 16) % 16) as u8
    } else {
        (op % 16) as u8
    }
}

/// The twelve-bit address operand of an instruction word.
pub open spec fn nnn_of(op: u16) -> u16 {
    (op % 4096) as u16
}

/// Shifts and masks on a 16-bit word, read as divisions and remainders.
pub proof fn lemma_word_slices(w: u16)
    by (bit_vector)
    ensures
        w >> 8 == w / 256,
        w >> 12 == w / 4096,
        w & 0x00FF == w % 256,
        w & 0x000F == w % 16,
        w & 0x0FFF == w % 4096,
        (w >> 8) & 0x000F == (w / 256) % 16,
        (w >> 4) & 0x000F == (w / 16) % 16,
{
}

/// Slices of a 16-bit instruction word.
pub trait ByteManip {
    /// The word that the slices are taken from.
    spec fn word(&self) -> u16;

    /// The upper eight bits.
    fn high_byte(&self) -> (b: u8)
        ensures
            b == high_byte_of(self.word()),
    ;

    /// The lower eight bits.
    fn low_byte(&self) -> (b: u8)
        ensures
            b == low_byte_of(self.word()),
    ;

    /// The nibble at `position`, from 1 (highest) to 4 (lowest).
    fn nibble(&self, position: u8) -> (n: u8)
        requires
            1 <= position <= 4,
        ensures
            n == nibble_of(self.word(), position as int),
            n < 16,
    ;

    /// Index of the first register operand (the second nibble).
    fn x(&self) -> (r: usize)
        ensures
            r == nibble_of(self.word(), 2),
            r < 16,
    ;

    /// Index of the second register operand (the third nibble).
    fn y(&self) -> (r: usize)
        ensures
            r == nibble_of(self.word(), 3),
            r < 16,
    ;

    /// The address operand (the low twelve bits).
    fn nnn(&self) -> (a: u16)
        ensures
            a == nnn_of(self.word()),
            a < 4096,
    ;
}

impl ByteManip for u16 {
    open spec fn word(&self) -> u16 {
        *self
    }

    #[inline]
    fn high_byte(&self) -> (b: u8) {
        proof {
            lemma_word_slices(*self);
        }
        (*self >> 8) as u8
    }

    #[inline]
    fn low_byte(&self) -> (b: u8) {
        proof {
            lemma_word_slices(*self);
        }
        (*self & 0x00FF) as u8
    }

    #[inline]
    fn nibble(&self, position: u8) -> (n: u8) {
        proof {
            lemma_word_slices(*self);
        }
        match position {
            1 => (*self >> 12) as u8,
            2 => ((*self >> 8) & 0x000F) as u8,
            3 => ((*self >> 4) & 0x000F) as u8,
            _ => (*self & 0x000F) as u8,
        }
    }

    #[inline]
    fn x(&self) -> (r: usize) {
        self.nibble(2) as usize
    }

    #[inline]
    fn y(&self) -> (r: usize) {
        self.nibble(3) as usize
    }

    #[inline]
    fn nnn(&self) -> (a: u16) {
        proof {
            lemma_word_slices(*self);
        }
        *self & 0x0FFF
    }
}

/// The word made of a high and a low byte.
pub open spec fn word_of(hi: u8, lo: u8) -> u16 {
    (hi * 256 + lo) as u16
}

/// Joins two bytes into a word, high byte first.
#[inline]
pub fn join_bytes(hi: u8, lo: u8) -> (w: u16)
    ensures
        w == word_of(hi, lo),
{
    assert(((hi as u16) << 8) | (lo as u16) == (hi as u16) * 256 + (lo as u16)) by (bit_vector);
    ((hi as u16) << 8) | (lo as u16)
}

/// One decoded instruction. Register operands `x` and `y` are register
/// indices, `nn` is an eight-bit immediate, `nnn` a twelve-bit address and
/// `n` a four-bit count.
#[derive(Clone, Copy, Debug, PartialEq, Eq)]
pub enum Instruction {
    /// `00CN`: scroll the display down by `n` rows.
    ScrollDown { n: u8 },
    /// `00E0`: clear the display.
    Clear,
    /// `00EE`: return from a subroutine.
    Return,
    /// `00FB`: scroll the display right.
    ScrollRight,
    /// `00FC`: scroll the display left.
    ScrollLeft,
    /// `00FE`: leave extended mode.
    LowRes,
    /// `00FF`: enter extended mode.
    HighRes,
    /// `1NNN`: jump to `nnn`.
    Jump { nnn: u16 },
    /// `2NNN`: call the subroutine at `nnn`.
    Call { nnn: u16 },
    /// `3XNN`: skip the next instruction if register `x` equals `nn`.
    SkipEqImm { x: u8, nn: u8 },
    /// `4XNN`: skip the next instruction if register `x` differs from `nn`.
    SkipNeImm { x: u8, nn: u8 },
    /// `5XY0`: skip the next instruction if registers `x` and `y` are equal.
    SkipEqReg { x: u8, y: u8 },
    /// `6XNN`: load `nn` into register `x`.
    LoadImm { x: u8, nn: u8 },
    /// `7XNN`: add `nn` to register `x`, wrapping, without touching the flag.
    AddImm { x: u8, nn: u8 },
    /// `8XY0`: copy register `y` into register `x`.
    Move { x: u8, y: u8 },
    /// `8XY1`: bitwise OR of register `y` into register `x`.
    Or { x: u8, y: u8 },
    /// `8XY2`: bitwise AND of register `y` into register `x`.
    And { x: u8, y: u8 },
    /// `8XY3`: bitwise XOR of register `y` into register `x`.
    Xor { x: u8, y: u8 },
    /// `8XY4`: add register `y` to register `x`; the flag reports a carry.
    Add { x: u8, y: u8 },
    /// `8XY5`: subtract register `y` from register `x`; the flag is 1 when
    /// there was no borrow.
    Sub { x: u8, y: u8 },
    /// `8XY6`: shift register `x` right by one; the flag takes the bit
    /// shifted out.
    ShiftRight { x: u8 },
    /// `8XY7`: set register `x` to register `y` minus register `x`; the flag
    /// is 1 when there was no borrow.
    SubFrom { x: u8, y: u8 },
    /// `8XYE`: shift register `x` left by one; the flag takes the bit
    /// shifted out.
    ShiftLeft { x: u8 },
    /// `9XY0`: skip the next instruction if registers `x` and `y` differ.
    SkipNeReg { x: u8, y: u8 },
    /// `ANNN`: load `nnn` into the index register.
    LoadIndex { nnn: u16 },
    /// `BNNN`: jump to `nnn` plus register 0.
    JumpOffset { nnn: u16 },
    /// `CXNN`: load register `x` with `nn` AND a fresh random byte.
    Random { x: u8, nn: u8 },
    /// `DXYN`: draw a sprite at the position held in registers `x` and `y`.
    Draw { x: u8, y: u8, n: u8 },
    /// `EX9E`: skip the next instruction if the key named by register `x`
    /// is down.
    SkipKey { x: u8 },
    /// `EXA1`: skip the next instruction if the key named by register `x`
    /// is up.
    SkipNoKey { x: u8 },
    /// `FX07`: copy the delay timer into register `x`.
    ReadDelay { x: u8 },
    /// `FX0A`: wait for a key and store its index in register `x`.
    WaitKey { x: u8 },
    /// `FX15`: copy register `x` into the delay timer.
    SetDelay { x: u8 },
    /// `FX18`: copy register `x` into the sound timer.
    SetSound { x: u8 },
    /// `FX1E`: add register `x` to the index register; the flag reports an
    /// overflow.
    AddIndex { x: u8 },
    /// `FX29`: point the index register at the small glyph for the digit in
    /// register `x`.
    Glyph { x: u8 },
    /// `FX30`: point the index register at the large glyph for the digit in
    /// register `x`.
    BigGlyph { x: u8 },
    /// `FX33`: store the decimal digits of register `x` at the index
    /// register.
    Bcd { x: u8 },
    /// `FX55`: store registers 0 to `x` at the index register.
    Store { x: u8 },
    /// `FX65`: load registers 0 to `x` from the index register.
    Load { x: u8 },
    /// `FX75`: store registers 0 to `x` in the user flags.
    StoreFlags { x: u8 },
    /// `FX85`: load registers 0 to `x` from the user flags.
    LoadFlags { x: u8 },
}

impl Instruction {
    /// Every operand lies in the range that its field of the instruction
    /// word can hold.
    pub open spec fn wf(self) -> bool {
        match self {
            Instruction::ScrollDown { n } => n < 16,
            Instruction::Clear
            | Instruction::Return
            | Instruction::ScrollRight
            | Instruction::ScrollLeft
            | Instruction::LowRes
            | Instruction::HighRes => true,
            Instruction::Jump { nnn }
            | Instruction::Call { nnn }
            | Instruction::LoadIndex { nnn }
            | Instruction::JumpOffset { nnn } => nnn < 4096,
            Instruction::SkipEqImm { x, nn }
            | Instruction::SkipNeImm { x, nn }
            | Instruction::LoadImm { x, nn }
            | Instruction::AddImm { x, nn }
            | Instruction::Random { x, nn } => x < 16,
            Instruction::SkipEqReg { x, y }
            | Instruction::SkipNeReg { x, y }
            | Instruction::Move { x, y }
            | Instruction::Or { x, y }
            | Instruction::And { x, y }
            | Instruction::Xor { x, y }
            | Instruction::Add { x, y }
            | Instruction::Sub { x, y }
            | Instruction::SubFrom { x, y } => x < 16 && y < 16,
            Instruction::Draw { x, y, n } => x < 16 && y < 16 && n < 16,
            Instruction::ShiftRight { x }
            | Instruction::ShiftLeft { x }
            | Instruction::SkipKey { x }
            | Instruction::SkipNoKey { x }
            | Instruction::ReadDelay { x }
            | Instruction::WaitKey { x }
            | Instruction::SetDelay { x }
            | Instruction::SetSound { x }
            | Instruction::AddIndex { x }
            | Instruction::Glyph { x }
            | Instruction::BigGlyph { x }
            | Instruction::Bcd { x }
            | Instruction::Store { x }
            | Instruction::Load { x }
            | Instruction::StoreFlags { x }
            | Instruction::LoadFlags { x } => x < 16,
        }
    }
}

/// The instruction that the words of the `0___` family encode.
pub open spec fn decoded_system(op: u16) -> Option<Instruction> {
    if 0x00C0 <= op <= 0x00CF {
        Some(Instruction::ScrollDown { n: nibble_of(op, 4) })
    } else if op == 0x00E0 {
        Some(Instruction::Clear)
    } else if op == 0x00EE {
        Some(Instruction::Return)
    } else if op == 0x00FB {
        Some(Instruction::ScrollRight)
    } else if op == 0x00FC {
        Some(Instruction::ScrollLeft)
    } else if op == 0x00FE {
        Some(Instruction::LowRes)
    } else if op == 0x00FF {
        Some(Instruction::HighRes)
    } else {
        None
    }
}

/// The instruction that the words of the `8XY_` family encode.
pub open spec fn decoded_alu(op: u16) -> Option<Instruction> {
    let x = nibble_of(op, 2);
    let y = nibble_of(op, 3);
    let n = nibble_of(op, 4);
    if n == 0x0 {
        Some(Instruction::Move { x, y })
    } else if n == 0x1 {
        Some(Instruction::Or { x, y })
    } else if n == 0x2 {
        Some(Instruction::And { x, y })
    } else if n == 0x3 {
        Some(Instruction::Xor { x, y })
    } else if n == 0x4 {
        Some(Instruction::Add { x, y })
    } else if n == 0x5 {
        Some(Instruction::Sub { x, y })
    } else if n == 0x6 {
        Some(Instruction::ShiftRight { x })
    } else if n == 0x7 {
        Some(Instruction::SubFrom { x, y })
    } else if n == 0xE {
        Some(Instruction::ShiftLeft { x })
    } else {
        None
    }
}

/// The instruction that the words of the `FX__` family encode.
pub open spec fn decoded_misc(op: u16) -> Option<Instruction> {
    let x = nibble_of(op, 2);
    let nn = low_byte_of(op);
    if nn == 0x07 {
        Some(Instruction::ReadDelay { x })
    } else if nn == 0x0A {
        Some(Instruction::WaitKey { x })
    } else if nn == 0x15 {
        Some(Instruction::SetDelay { x })
    } else if nn == 0x18 {
        Some(Instruction::SetSound { x })
    } else if nn == 0x1E {
        Some(Instruction::AddIndex { x })
    } else if nn == 0x29 {
        Some(Instruction::Glyph { x })
    } else if nn == 0x30 {
        Some(Instruction::BigGlyph { x })
    } else if nn == 0x33 {
        Some(Instruction::Bcd { x })
    } else if nn == 0x55 {
        Some(Instruction::Store { x })
    } else if nn == 0x65 {
        Some(Instruction::Load { x })
    } else if nn == 0x75 {
        Some(Instruction::StoreFlags { x })
    } else if nn == 0x85 {
        Some(Instruction::LoadFlags { x })
    } else {
        None
    }
}

/// The instruction that an instruction word encodes, or `None` for a word
/// that encodes none.
pub open spec fn decoded(op: u16) -> Option<Instruction> {
    let family = nibble_of(op, 1);
    let x = nibble_of(op, 2);
    let y = nibble_of(op, 3);
    let n = nibble_of(op, 4);
    let nn = low_byte_of(op);
    let nnn = nnn_of(op);
    if family == 0x0 {
        decoded_system(op)
    } else if family == 0x1 {
        Some(Instruction::Jump { nnn })
    } else if family == 0x2 {
        Some(Instruction::Call { nnn })
    } else if family == 0x3 {
        Some(Instruction::SkipEqImm { x, nn })
    } else if family == 0x4 {
        Some(Instruction::SkipNeImm { x, nn })
    } else if family == 0x5 {
        if n == 0 {
            Some(Instruction::SkipEqReg { x, y })
        } else {
            None
        }
    } else if family == 0x6 {
        Some(Instruction::LoadImm { x, nn })
    } else if family == 0x7 {
        Some(Instruction::AddImm { x, nn })
    } else if family == 0x8 {
        decoded_alu(op)
    } else if family == 0x9 {
        if n == 0 {
            Some(Instruction::SkipNeReg { x, y })
        } else {
            None
        }
    } else if family == 0xA {
        Some(Instruction::LoadIndex { nnn })
    } else if family == 0xB {
        Some(Instruction::JumpOffset { nnn })
    } else if family == 0xC {
        Some(Instruction::Random { x, nn })
    } else if family == 0xD {
        Some(Instruction::Draw { x, y, n })
    } else if family == 0xE {
        if nn == 0x9E {
            Some(Instruction::SkipKey { x })
        } else if nn == 0xA1 {
            Some(Instruction::SkipNoKey { x })
        } else {
            None
        }
    } else {
        decoded_misc(op)
    }
}

/// The fields of the word made of four nibbles.
pub proof fn lemma_fields(family: u8, x: u8, y: u8, n: u8)
    requires
        family < 16,
        x < 16,
        y < 16,
        n < 16,
    ensures
        ({
            let op = (family * 4096 + x * 256 + y * 16 + n) as u16;
            &&& op == family * 4096 + x * 256 + y * 16 + n
            &&& nibble_of(op, 1) == family
            &&& nibble_of(op, 2) == x
            &&& nibble_of(op, 3) == y
            &&& nibble_of(op, 4) == n
            &&& low_byte_of(op) == y * 16 + n
            &&& nnn_of(op) == x * 256 + y * 16 + n
        }),
{
    let rest = x * 256 + y * 16 + n;
    let op = family * 4096 + rest;
    assert(0 <= rest < 4096);
    assert(op / 4096 == family && op % 4096 == rest);
    assert(op / 256 == family * 16 + x && op % 256 == y * 16 + n);
    assert(op / 16 == family * 256 + x * 16 + y && op % 16 == n);
    assert((family * 16 + x) % 16 == x);
    assert((family * 256 + x * 16 + y) % 16 == y);
}

/// The fields of the word made of a family nibble, a register nibble and
/// a byte.
pub proof fn lemma_fields_byte(family: u8, x: u8, nn: u8)
    requires
        family < 16,
        x < 16,
    ensures
        ({
            let op = (family * 4096 + x * 256 + nn) as u16;
            &&& op == family * 4096 + x * 256 + nn
            &&& nibble_of(op, 1) == family
            &&& nibble_of(op, 2) == x
            &&& nibble_of(op, 3) == nn / 16
            &&& nibble_of(op, 4) == nn % 16
            &&& low_byte_of(op) == nn
            &&& nnn_of(op) == x * 256 + nn
        }),
{
    lemma_fields(family, x, nn / 16, nn % 16);
}

/// The fields of the word made of a family nibble and an address.
pub proof fn lemma_fields_address(family: u8, nnn: u16)
    requires
        family < 16,
        nnn < 4096,
    ensures
        ({
            let op = (family * 4096 + nnn) as u16;
            &&& op == family * 4096 + nnn
            &&& nibble_of(op, 1) == family
            &&& nnn_of(op) == nnn
        }),
{
}

fn decode_system(op: u16) -> (ins: Option<Instruction>)
    ensures
        ins == decoded_system(op),
{
    match op {
        0x00C0..=0x00CF => Some(Instruction::ScrollDown { n: op.nibble(4) }),
        0x00E0 => Some(Instruction::Clear),
        0x00EE => Some(Instruction::Return),
        0x00FB => Some(Instruction::ScrollRight),
        0x00FC => Some(Instruction::ScrollLeft),
        0x00FE => Some(Instruction::LowRes),
        0x00FF => Some(Instruction::HighRes),
        _ => None,
    }
}

fn decode_alu(op: u16) -> (ins: Option<Instruction>)
    ensures
        ins == decoded_alu(op),
{
    let x: u8 = op.nibble(2);
    let y: u8 = op.nibble(3);
    match op.nibble(4) {
        0x0 => Some(Instruction::Move { x, y }),
        0x1 => Some(Instruction::Or { x, y }),
        0x2 => Some(Instruction::And { x, y }),
        0x3 => Some(Instruction::Xor { x, y }),
        0x4 => Some(Instruction::Add { x, y }),
        0x5 => Some(Instruction::Sub { x, y }),
        0x6 => Some(Instruction::ShiftRight { x }),
        0x7 => Some(Instruction::SubFrom { x, y }),
        0xE => Some(Instruction::ShiftLeft { x }),
        _ => None,
    }
}

fn decode_misc(op: u16) -> (ins: Option<Instruction>)
    ensures
        ins == decoded_misc(op),
{
    let x: u8 = op.nibble(2);
    match op.low_byte() {
        0x07 => Some(Instruction::ReadDelay { x }),
        0x0A => Some(Instruction::WaitKey { x }),
        0x15 => Some(Instruction::SetDelay { x }),
        0x18 => Some(Instruction::SetSound { x }),
        0x1E => Some(Instruction::AddIndex { x }),
        0x29 => Some(Instruction::Glyph { x }),
        0x30 => Some(Instruction::BigGlyph { x }),
        0x33 => Some(Instruction::Bcd { x }),
        0x55 => Some(Instruction::Store { x }),
        0x65 => Some(Instruction::Load { x }),
        0x75 => Some(Instruction::StoreFlags { x }),
        0x85 => Some(Instruction::LoadFlags { x }),
        _ => None,
    }
}

/// Decodes an instruction word. The first nibble selects the family; the
/// families `0`, `5`, `8`, `9`, `E` and `F` are told apart further by their
/// low nibble or low byte, and hold words that encode nothing.
pub fn decode(op: u16) -> (ins: Option<Instruction>)
    ensures
        ins == decoded(op),
        ins matches Some(i) ==> i.wf(),
{
    let x: u8 = op.nibble(2);
    let y: u8 = op.nibble(3);
    let n: u8 = op.nibble(4);
    let nn: u8 = op.low_byte();
    let nnn: u16 = op.nnn();
    match op.nibble(1) {
        0x0 => decode_system(op),
        0x1 => Some(Instruction::Jump { nnn }),
        0x2 => Some(Instruction::Call { nnn }),
        0x3 => Some(Instruction::SkipEqImm { x, nn }),
        0x4 => Some(Instruction::SkipNeImm { x, nn }),
        0x5 => if n == 0 {
            Some(Instruction::SkipEqReg { x, y })
        } else {
            None
        },
        0x6 => Some(Instruction::LoadImm { x, nn }),
        0x7 => Some(Instruction::AddImm { x, nn }),
        0x8 => decode_alu(op),
        0x9 => if n == 0 {
            Some(Instruction::SkipNeReg { x, y })
        } else {
            None
        },
        0xA => Some(Instruction::LoadIndex { nnn }),
        0xB => Some(Instruction::JumpOffset { nnn }),
        0xC => Some(Instruction::Random { x, nn }),
        0xD => Some(Instruction::Draw { x, y, n }),
        0xE => match nn {
            0x9E => Some(Instruction::SkipKey { x }),
            0xA1 => Some(Instruction::SkipNoKey { x }),
            _ => None,
        },
        _ => decode_misc(op),
    }
}

} // verus!
