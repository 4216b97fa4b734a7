//! The machine as a mathematical value, and what every instruction does to
//! it.

use crate::display::{binary, blank, collides, drawn, scrolled_down, scrolled_left, scrolled_right, sprite_at};
use crate::font::{big_glyph_offset, font_byte, small_glyph_offset};
use crate::opcode::{decoded, word_of, Instruction};
use vstd::prelude::*;

verus! {

/// Address at which programs are loaded and start to run.
pub const PROGRAM_START: u16 = 0x200;

/// Number of bytes that a program can have at most: what lies between
/// [`PROGRAM_START`] and the end of memory.
pub const PROGRAM_CAPACITY: usize = 3584;

/// Index of the register that instructions use as carry, borrow and
/// collision flag.
pub const FLAG: usize = 15;

/// The whole state of a machine.
#[verifier::ext_equal]
pub struct State {
    /// The 4096 bytes of memory.
    pub memory: Seq<u8>,
    /// The 8192 cells of the framebuffer.
    pub gfx: Seq<u8>,
    /// Whether the display is due to be presented again.
    pub draw_flag: bool,
    /// Whether a draw that darkens no pixel leaves `draw_flag` as it is.
    pub no_overdraw: bool,
    /// The sixteen general registers.
    pub v: Seq<u8>,
    /// The index register.
    pub i: u16,
    /// The program counter.
    pub pc: u16,
    /// The delay timer.
    pub delay_timer: u8,
    /// The sound timer.
    pub sound_timer: u8,
    /// The sixteen slots of the call stack.
    pub stack: Seq<u16>,
    /// The stack pointer: 16 when the stack is empty, one less per call.
    pub sp: u16,
    /// Which of the sixteen keys are down.
    pub keys: Seq<bool>,
    /// Whether the extended resolution is active.
    pub extended: bool,
    /// The eight user flags.
    pub user_flags: Seq<u8>,
}

/// The value of `n` in sixteen bits, wrapping round.
pub open spec fn wrap16(n: int) -> u16 {
    (n % 0x1_0000) as u16
}

/// The value of `n` in eight bits, wrapping round.
pub open spec fn wrap8(n: int) -> u8 {
    (n % 0x100) as u8
}

/// The memory cell that address `a` names: addresses past the end of memory
/// wrap round to its start.
pub open spec fn cell(a: int) -> int {
    a % 4096
}

/// The stack slot that a stack pointer names: the slots form a ring.
pub open spec fn slot(sp: int) -> int {
    sp % 16
}

/// The key that a register value names: its low four bits.
pub open spec fn key_of(value: u8) -> int {
    value as int % 16
}

/// How many of the first `n` keys are down.
pub open spec fn keys_down(keys: Seq<bool>, n: int) -> int
    decreases n,
{
    if n <= 0 {
        0
    } else if keys[n - 1] {
        keys_down(keys, n - 1) + 1
    } else {
        keys_down(keys, n - 1)
    }
}

/// The highest of the first `n` keys that is down, or -1 if none is.
pub open spec fn highest_key_down(keys: Seq<bool>, n: int) -> int
    decreases n,
{
    if n <= 0 {
        -1
    } else if keys[n - 1] {
        n - 1
    } else {
        highest_key_down(keys, n - 1)
    }
}

/// Memory after registers 0 to `x` were stored at `index`.
pub open spec fn stored(memory: Seq<u8>, index: int, v: Seq<u8>, x: int) -> Seq<u8> {
    Seq::new(
        4096,
        |a: int|
            if (a - index) % 4096 <= x {
                v[(a - index) % 4096]
            } else {
                memory[a]
            },
    )
}

/// The registers after registers 0 to `x` were loaded from `index`.
pub open spec fn loaded(memory: Seq<u8>, index: int, v: Seq<u8>, x: int) -> Seq<u8> {
    Seq::new(
        16,
        |k: int|
            if k <= x {
                memory[cell(index + k)]
            } else {
                v[k]
            },
    )
}

/// The user flags after registers 0 to `x` were stored in them. There are
/// eight flags only: registers from 8 on are left out.
pub open spec fn flags_stored(flags: Seq<u8>, v: Seq<u8>, x: int) -> Seq<u8> {
    Seq::new(
        8,
        |k: int|
            if k <= x {
                v[k]
            } else {
                flags[k]
            },
    )
}

/// The registers after registers 0 to `x` were loaded from the user flags.
/// There are eight flags only: registers from 8 on keep their value.
pub open spec fn flags_loaded(flags: Seq<u8>, v: Seq<u8>, x: int) -> Seq<u8> {
    Seq::new(
        16,
        |k: int|
            if k <= x && k < 8 {
                flags[k]
            } else {
                v[k]
            },
    )
}

/// Memory after the three decimal digits of `value` were stored at `index`,
/// hundreds first.
pub open spec fn bcd_stored(memory: Seq<u8>, index: int, value: u8) -> Seq<u8> {
    memory.update(cell(index), (value / 100) as u8).update(
        cell(index + 1),
        ((value / 10) % 10) as u8,
    ).update(cell(index + 2), (value % 10) as u8)
}

impl State {
    /// Every part has its size, and every framebuffer cell is fully off or
    /// fully on.
    pub open spec fn wf(self) -> bool {
        &&& self.memory.len() == 4096
        &&& binary(self.gfx)
        &&& self.v.len() == 16
        &&& self.stack.len() == 16
        &&& self.keys.len() == 16
        &&& self.user_flags.len() == 8
    }

    /// The state of a fresh machine: both fonts at the start of memory, the
    /// program counter at [`PROGRAM_START`], an empty stack, a dark display
    /// that is due to be presented, and everything else zero.
    pub open spec fn initial() -> State {
        State {
            memory: Seq::new(
                4096,
                |a: int|
                    if a < 240 {
                        font_byte(a)
                    } else {
                        0u8
                    },
            ),
            gfx: blank(),
            draw_flag: true,
            no_overdraw: false,
            v: Seq::new(16, |k: int| 0u8),
            i: 0,
            pc: PROGRAM_START,
            delay_timer: 0,
            sound_timer: 0,
            stack: Seq::new(16, |k: int| 0u16),
            sp: 16,
            keys: Seq::new(16, |k: int| false),
            extended: false,
            user_flags: Seq::new(8, |k: int| 0u8),
        }
    }

    /// The instruction word at the program counter, high byte first.
    pub open spec fn opcode(self) -> u16 {
        word_of(self.memory[cell(self.pc as int)], self.memory[cell(self.pc + 1)])
    }

    /// The state with the program counter moved on by `n`.
    pub open spec fn advanced(self, n: int) -> State {
        State { pc: wrap16(self.pc + n), ..self }
    }

    /// The state with the program counter moved past the next instruction
    /// if `skip` holds, and to the next instruction if not.
    pub open spec fn skipping(self, skip: bool) -> State {
        if skip {
            self.advanced(4)
        } else {
            self.advanced(2)
        }
    }

    /// The state with register `x` set to `value`.
    pub open spec fn with_reg(self, x: int, value: u8) -> State {
        State { v: self.v.update(x, value), ..self }
    }

    /// The state with the flag register set to 1 if `raised` holds, and to
    /// 0 if not.
    pub open spec fn with_flag(self, raised: bool) -> State {
        self.with_reg(
            FLAG as int,
            if raised {
                1u8
            } else {
                0u8
            },
        )
    }

    /// The state after a call to `nnn`: the stack pointer goes down by one
    /// and the address of the call instruction goes into the slot it then
    /// names.
    pub open spec fn called(self, nnn: u16) -> State {
        let sp = wrap16(self.sp - 1);
        State { sp, stack: self.stack.update(slot(sp as int), self.pc), pc: nnn, ..self }
    }

    /// The state after a return: execution goes on behind the call
    /// instruction whose address the stack pointer names, and the stack
    /// pointer goes up by one.
    pub open spec fn returned(self) -> State {
        State {
            pc: wrap16(self.stack[slot(self.sp as int)] + 2),
            sp: wrap16(self.sp + 1),
            ..self
        }
    }

    /// The state after a wait for a key into register `x`. With no key down
    /// nothing changes, so that the same instruction runs again. Otherwise
    /// the register takes the highest key that is down, and the program
    /// counter moves on by one instruction for every key that is down.
    pub open spec fn key_awaited(self, x: int) -> State {
        if keys_down(self.keys, 16) == 0 {
            self
        } else {
            self.with_reg(x, highest_key_down(self.keys, 16) as u8).advanced(
                2 * keys_down(self.keys, 16),
            )
        }
    }

    /// The state after a draw of `n` sprite rows at the position held in
    /// registers `x` and `y`. The flag register reports whether a lit pixel
    /// went dark. The display becomes due to be presented, unless
    /// `no_overdraw` is set and every drawn pixel only lit a dark one.
    pub open spec fn sprite_drawn(self, x: int, y: int, n: int) -> State {
        let sprite = sprite_at(self.memory, self.i as int, n, self.extended);
        let hit = collides(self.gfx, sprite, self.extended, self.v[x] as int, self.v[y] as int);
        State {
            gfx: drawn(self.gfx, sprite, self.extended, self.v[x] as int, self.v[y] as int),
            draw_flag: self.draw_flag || !self.no_overdraw || hit,
            ..self
        }.with_flag(hit).advanced(2)
    }

    /// The state after `ins` was carried out; `random` is the byte that
    /// [`Instruction::Random`] draws, and no other instruction looks at it.
    pub open spec fn apply(self, ins: Instruction, random: u8) -> State {
        match ins {
            Instruction::ScrollDown { n } => State {
                gfx: scrolled_down(self.gfx, self.extended, n as int),
                draw_flag: true,
                ..self
            }.advanced(2),
            Instruction::Clear => State { gfx: blank(), draw_flag: true, ..self }.advanced(2),
            Instruction::Return => self.returned(),
            Instruction::ScrollRight => State {
                gfx: scrolled_right(self.gfx, self.extended),
                draw_flag: true,
                ..self
            }.advanced(2),
            Instruction::ScrollLeft => State {
                gfx: scrolled_left(self.gfx, self.extended),
                draw_flag: true,
                ..self
            }.advanced(2),
            Instruction::LowRes => State { extended: false, ..self }.advanced(2),
            Instruction::HighRes => State { extended: true, ..self }.advanced(2),
            Instruction::Jump { nnn } => State { pc: nnn, ..self },
            Instruction::Call { nnn } => self.called(nnn),
            Instruction::SkipEqImm { x, nn } => self.skipping(self.v[x as int] == nn),
            Instruction::SkipNeImm { x, nn } => self.skipping(self.v[x as int] != nn),
            Instruction::SkipEqReg { x, y } => self.skipping(self.v[x as int] == self.v[y as int]),
            Instruction::SkipNeReg { x, y } => self.skipping(self.v[x as int] != self.v[y as int]),
            Instruction::LoadImm { x, nn } => self.with_reg(x as int, nn).advanced(2),
            Instruction::AddImm { x, nn } => self.with_reg(
                x as int,
                wrap8(self.v[x as int] + nn),
            ).advanced(2),
            Instruction::Move { x, y } => self.with_reg(x as int, self.v[y as int]).advanced(2),
            Instruction::Or { x, y } => self.with_reg(
                x as int,
                self.v[x as int] | self.v[y as int],
            ).advanced(2),
            Instruction::And { x, y } => self.with_reg(
                x as int,
                self.v[x as int] & self.v[y as int],
            ).advanced(2),
            Instruction::Xor { x, y } => self.with_reg(
                x as int,
                self.v[x as int] ^ self.v[y as int],
            ).advanced(2),
            Instruction::Add { x, y } => self.with_reg(
                x as int,
                wrap8(self.v[x as int] + self.v[y as int]),
            ).with_flag(self.v[x as int] + self.v[y as int] > 255).advanced(2),
            Instruction::Sub { x, y } => self.with_reg(
                x as int,
                wrap8(self.v[x as int] - self.v[y as int]),
            ).with_flag(self.v[x as int] >= self.v[y as int]).advanced(2),
            Instruction::SubFrom { x, y } => self.with_reg(
                x as int,
                wrap8(self.v[y as int] - self.v[x as int]),
            ).with_flag(self.v[y as int] >= self.v[x as int]).advanced(2),
            Instruction::ShiftRight { x } => {
                let flagged = self.with_flag(self.v[x as int] % 2 == 1);
                flagged.with_reg(x as int, (flagged.v[x as int] / 2) as u8).advanced(2)
            },
            Instruction::ShiftLeft { x } => {
                let flagged = self.with_flag(self.v[x as int] >= 128);
                flagged.with_reg(x as int, wrap8(flagged.v[x as int] * 2)).advanced(2)
            },
            Instruction::LoadIndex { nnn } => State { i: nnn, ..self }.advanced(2),
            Instruction::JumpOffset { nnn } => State { pc: wrap16(nnn + self.v[0]), ..self },
            Instruction::Random { x, nn } => self.with_reg(x as int, nn & random).advanced(2),
            Instruction::Draw { x, y, n } => self.sprite_drawn(x as int, y as int, n as int),
            Instruction::SkipKey { x } => self.skipping(self.keys[key_of(self.v[x as int])]),
            Instruction::SkipNoKey { x } => self.skipping(!self.keys[key_of(self.v[x as int])]),
            Instruction::ReadDelay { x } => self.with_reg(x as int, self.delay_timer).advanced(2),
            Instruction::WaitKey { x } => self.key_awaited(x as int),
            Instruction::SetDelay { x } => State {
                delay_timer: self.v[x as int],
                ..self
            }.advanced(2),
            Instruction::SetSound { x } => State {
                sound_timer: self.v[x as int],
                ..self
            }.advanced(2),
            Instruction::AddIndex { x } => State {
                i: wrap16(self.i + self.v[x as int]),
                ..self
            }.with_flag(self.i + self.v[x as int] > 0xFFFF).advanced(2),
            Instruction::Glyph { x } => State {
                i: small_glyph_offset(self.v[x as int] as int) as u16,
                ..self
            }.advanced(2),
            Instruction::BigGlyph { x } => State {
                i: big_glyph_offset(self.v[x as int] as int) as u16,
                ..self
            }.advanced(2),
            Instruction::Bcd { x } => State {
                memory: bcd_stored(self.memory, self.i as int, self.v[x as int]),
                ..self
            }.advanced(2),
            Instruction::Store { x } => State {
                memory: stored(self.memory, self.i as int, self.v, x as int),
                ..self
            }.advanced(2),
            Instruction::Load { x } => State {
                v: loaded(self.memory, self.i as int, self.v, x as int),
                ..self
            }.advanced(2),
            Instruction::StoreFlags { x } => State {
                user_flags: flags_stored(self.user_flags, self.v, x as int),
                ..self
            }.advanced(2),
            Instruction::LoadFlags { x } => State {
                v: flags_loaded(self.user_flags, self.v, x as int),
                ..self
            }.advanced(2),
        }
    }

    /// Whether the word at the program counter encodes no instruction.
    pub open spec fn faulty(self) -> bool {
        decoded(self.opcode()) is None
    }

    /// The state after one step: the instruction at the program counter is
    /// carried out. A word that encodes no instruction leaves the machine
    /// as it is.
    pub open spec fn step(self, random: u8) -> State {
        match decoded(self.opcode()) {
            Some(ins) => self.apply(ins, random),
            None => self,
        }
    }

    /// The state after one tick of the 60 Hz clock: each timer that is not
    /// yet zero goes down by one.
    pub open spec fn ticked(self) -> State {
        State {
            delay_timer: if self.delay_timer > 0 {
                (self.delay_timer - 1) as u8
            } else {
                0u8
            },
            sound_timer: if self.sound_timer > 0 {
                (self.sound_timer - 1) as u8
            } else {
                0u8
            },
            ..self
        }
    }

    /// The state after `image` was copied into memory from
    /// [`PROGRAM_START`] on.
    pub open spec fn program_loaded(self, image: Seq<u8>) -> State {
        State {
            memory: Seq::new(
                4096,
                |a: int|
                    if PROGRAM_START <= a < PROGRAM_START + image.len() {
                        image[a - PROGRAM_START]
                    } else {
                        self.memory[a]
                    },
            ),
            ..self
        }
    }
}

} // verus!
