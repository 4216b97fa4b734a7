//! The machine itself: its storage, and the code that runs instructions on
//! it.

use crate::display::{binary, height_of, width_of, Framebuffer};
use crate::font::{font_byte, FONTSET, SFONTSET};
use crate::model::{cell, highest_key_down, keys_down, wrap8, State, PROGRAM_CAPACITY, PROGRAM_START};
use crate::opcode::{decode, decoded, join_bytes, Instruction};
use crate::rng::random_byte;
use vstd::prelude::*;

verus! {

/// Why a program was not loaded.
#[derive(Clone, Copy, Debug, PartialEq, Eq)]
pub enum LoadError {
    /// The image could not be read.
    Unreadable,
    /// The image does not fit between the load address and the end of
    /// memory.
    TooLarge,
}

/// What stopped a step: the word at the program counter encodes no
/// instruction.
#[derive(Clone, Copy, Debug, PartialEq, Eq)]
pub struct Fault {
    /// The program counter, which still names the offending word.
    pub pc: u16,
    /// The offending word.
    pub opcode: u16,
}

/// What a step on state `s` reports: a fault if the word at the program
/// counter encodes no instruction, success if it encodes one.
pub open spec fn outcome(s: State) -> Result<(), Fault> {
    if s.faulty() {
        Err(Fault { pc: s.pc, opcode: s.opcode() })
    } else {
        Ok(())
    }
}

/// Whether the instruction at the program counter of `s` draws a random
/// byte.
pub open spec fn draws_random(s: State) -> bool {
    decoded(s.opcode()) matches Some(Instruction::Random { .. })
}

/// A CHIP-8 machine.
pub struct Chip8 {
    memory: [u8; 4096],
    gfx: Framebuffer,
    draw_flag: bool,
    no_overdraw: bool,
    v: [u8; 16],
    i: u16,
    pc: u16,
    delay_timer: u8,
    sound_timer: u8,
    stack: [u16; 16],
    sp: u16,
    key: [bool; 16],
    extended_mode: bool,
    user_flags: [u8; 8],
}

impl View for Chip8 {
    type V = State;

    closed spec fn view(&self) -> State {
        State {
            memory: self.memory@,
            gfx: self.gfx@,
            draw_flag: self.draw_flag,
            no_overdraw: self.no_overdraw,
            v: self.v@,
            i: self.i,
            pc: self.pc,
            delay_timer: self.delay_timer,
            sound_timer: self.sound_timer,
            stack: self.stack@,
            sp: self.sp,
            keys: self.key@,
            extended: self.extended_mode,
            user_flags: self.user_flags@,
        }
    }
}

impl Chip8 {
    /// A fresh machine.
    pub fn init() -> (machine: Chip8)
        ensures
            machine@ == State::initial(),
    {
        let mut temp = Chip8 {
            memory: [0; 4096],
            gfx: Framebuffer::new(),
            draw_flag: true,
            no_overdraw: false,
            v: [0; 16],
            i: 0,
            pc: PROGRAM_START,
            delay_timer: 0,
            sound_timer: 0,
            stack: [0; 16],
            sp: 16,
            key: [false; 16],
            extended_mode: false,
            user_flags: [0; 8],
        };
        let ghost fresh = temp@;
        let mut a: usize = 0;
        while a < 240
            invariant
                a <= 240,
                temp@ == (State { memory: temp.memory@, ..fresh }),
                forall|b: int|
                    0 <= b < 4096 ==> temp.memory@[b] == if b < a {
                        font_byte(b)
                    } else {
                        0u8
                    },
            decreases 240 - a,
        {
            temp.memory[a] = if a < 80 {
                FONTSET[a]
            } else {
                SFONTSET[a - 80]
            };
            a += 1;
        }
        assert(temp@ =~= State::initial());
        temp
    }

    /// Copies a program image into memory from address 0x200 on, over
    /// whatever was there. `image` is `None` when the image could not be
    /// read. On an error the machine is left as it was.
    pub fn load_program(&mut self, image: Option<&[u8]>) -> (res: Result<(), LoadError>)
        ensures
            image is None ==> res == Err::<(), LoadError>(LoadError::Unreadable),
            image matches Some(bytes) && bytes@.len() > PROGRAM_CAPACITY ==> res == Err::<
                (),
                LoadError,
            >(LoadError::TooLarge),
            image matches Some(bytes) && bytes@.len() <= PROGRAM_CAPACITY ==> res == Ok::<
                (),
                LoadError,
            >(()),
            res is Err ==> final(self)@ == old(self)@,
            res is Ok ==> final(self)@ == old(self)@.program_loaded(image.unwrap()@),
    {
        let bytes: &[u8] = match image {
            Some(bytes) => bytes,
            None => {
                return Err(LoadError::Unreadable);
            },
        };
        if bytes.len() > PROGRAM_CAPACITY {
            return Err(LoadError::TooLarge);
        }
        let ghost before = self@;
        let mut index: usize = 0;
        while index < bytes.len()
            invariant
                index <= bytes@.len() <= 3584,
                self@ == (State { memory: self.memory@, ..before }),
                forall|a: int|
                    0 <= a < 4096 ==> self.memory@[a] == if 0x200 <= a < 0x200 + index {
                        bytes@[a - 0x200]
                    } else {
                        before.memory[a]
                    },
            decreases bytes@.len() - index,
        {
            self.memory[PROGRAM_START as usize + index] = bytes[index];
            index += 1;
        }
        assert(self@ =~= before.program_loaded(bytes@));
        Ok(())
    }

    /// Advances the 60 Hz clock by one tick: each timer that is not yet
    /// zero goes down by one.
    #[inline]
    pub fn tick(&mut self)
        ensures
            final(self)@ == old(self)@.ticked(),
    {
        if self.delay_timer > 0 {
            self.delay_timer -= 1;
        }
        if self.sound_timer > 0 {
            self.sound_timer -= 1;
        }
    }

    /// Records that key `key` went down or up.
    #[inline]
    pub fn update_keys(&mut self, key: u8, pressed: bool)
        requires
            key < 16,
        ensures
            final(self)@ == (State {
                keys: old(self)@.keys.update(key as int, pressed),
                ..old(self)@
            }),
    {
        self.key[key as usize] = pressed;
    }

    /// Width and height of the active resolution, in pixels.
    #[inline]
    pub fn screen_dimens(&self) -> (dimens: (usize, usize))
        ensures
            dimens.0 == width_of(self@.extended),
            dimens.1 == height_of(self@.extended),
    {
        if self.extended_mode {
            (128, 64)
        } else {
            (64, 32)
        }
    }

    /// The framebuffer, row by row over the active resolution; every cell
    /// is 0 or 255.
    pub fn gfx(&self) -> (cells: &[u8; 8192])
        ensures
            cells@ == self@.gfx,
            binary(self@.gfx),
    {
        self.gfx.cells()
    }

    /// The memory.
    pub fn memory(&self) -> (memory: &[u8; 4096])
        ensures
            memory@ == self@.memory,
    {
        &self.memory
    }

    /// The general registers.
    pub fn registers(&self) -> (v: &[u8; 16])
        ensures
            v@ == self@.v,
    {
        &self.v
    }

    /// The call stack.
    pub fn stack(&self) -> (stack: &[u16; 16])
        ensures
            stack@ == self@.stack,
    {
        &self.stack
    }

    /// The keypad: which keys are down.
    pub fn keys(&self) -> (keys: &[bool; 16])
        ensures
            keys@ == self@.keys,
    {
        &self.key
    }

    /// The user flags.
    pub fn user_flags(&self) -> (flags: &[u8; 8])
        ensures
            flags@ == self@.user_flags,
    {
        &self.user_flags
    }

    /// The program counter.
    pub fn pc(&self) -> (pc: u16)
        ensures
            pc == self@.pc,
    {
        self.pc
    }

    /// The stack pointer.
    pub fn sp(&self) -> (sp: u16)
        ensures
            sp == self@.sp,
    {
        self.sp
    }

    /// The index register.
    pub fn index(&self) -> (i: u16)
        ensures
            i == self@.i,
    {
        self.i
    }

    /// The delay timer.
    pub fn delay_timer(&self) -> (t: u8)
        ensures
            t == self@.delay_timer,
    {
        self.delay_timer
    }

    /// The sound timer.
    pub fn sound_timer(&self) -> (t: u8)
        ensures
            t == self@.sound_timer,
    {
        self.sound_timer
    }

    /// Whether a tone is due: it is for as long as the sound timer is not
    /// zero.
    pub fn sound_active(&self) -> (active: bool)
        ensures
            active == (self@.sound_timer > 0),
    {
        self.sound_timer > 0
    }

    /// Whether the extended resolution is active.
    pub fn extended_mode(&self) -> (extended: bool)
        ensures
            extended == self@.extended,
    {
        self.extended_mode
    }

    /// Whether the display is due to be presented again.
    pub fn draw_flag(&self) -> (due: bool)
        ensures
            due == self@.draw_flag,
    {
        self.draw_flag
    }

    /// Marks the display as presented.
    pub fn clear_draw_flag(&mut self)
        ensures
            final(self)@ == (State { draw_flag: false, ..old(self)@ }),
    {
        self.draw_flag = false;
    }

    /// Whether a draw that darkens no pixel leaves the draw flag alone.
    pub fn no_overdraw(&self) -> (on: bool)
        ensures
            on == self@.no_overdraw,
    {
        self.no_overdraw
    }

    /// Chooses whether a draw that darkens no pixel leaves the draw flag
    /// alone.
    pub fn set_no_overdraw(&mut self, on: bool)
        ensures
            final(self)@ == (State { no_overdraw: on, ..old(self)@ }),
    {
        self.no_overdraw = on;
    }

    /// Stores `value` at `address`; addresses past the end of memory wrap
    /// round to its start.
    pub fn write_memory(&mut self, address: u16, value: u8)
        ensures
            final(self)@ == (State {
                memory: old(self)@.memory.update(address as int % 4096, value),
                ..old(self)@
            }),
    {
        self.memory[(address % 4096) as usize] = value;
    }

    /// The instruction word at the program counter.
    pub fn fetch(&self) -> (op: u16)
        ensures
            op == self@.opcode(),
    {
        join_bytes(
            self.memory[(self.pc % 4096) as usize],
            self.memory[(self.pc as usize + 1) % 4096],
        )
    }

    /// Moves the program counter on by `n`.
    fn advance(&mut self, n: u16)
        ensures
            final(self)@ == old(self)@.advanced(n as int),
    {
        self.pc = self.pc.wrapping_add(n);
    }

    /// Moves the program counter past the next instruction if `skip`
    /// holds, and to the next instruction if not.
    fn skip_if(&mut self, skip: bool)
        ensures
            final(self)@ == old(self)@.skipping(skip),
    {
        if skip {
            self.advance(4);
        } else {
            self.advance(2);
        }
    }

    /// Sets the flag register to 1 if `raised` holds, and to 0 if not.
    fn set_flag(&mut self, raised: bool)
        ensures
            final(self)@ == old(self)@.with_flag(raised),
    {
        self.v[15] = if raised {
            1
        } else {
            0
        };
    }

    /// `FX0A`: looks for keys that are down.
    fn wait_key(&mut self, x: u8)
        requires
            x < 16,
        ensures
            final(self)@ == old(self)@.key_awaited(x as int),
    {
        let ghost before = self@;
        let mut k: usize = 0;
        while k < 16
            invariant
                k <= 16,
                x < 16,
                before.v.len() == 16,
                self.key@ == before.keys,
                0 <= keys_down(before.keys, k as int) <= k,
                -1 <= highest_key_down(before.keys, k as int) < k,
                keys_down(before.keys, k as int) == 0 ==> self@ == before,
                keys_down(before.keys, k as int) > 0 ==> self@ == before.with_reg(
                    x as int,
                    highest_key_down(before.keys, k as int) as u8,
                ).advanced(2 * keys_down(before.keys, k as int)),
            decreases 16 - k,
        {
            if self.key[k] {
                self.v[x as usize] = k as u8;
                self.pc = self.pc.wrapping_add(2);
                assert(self@ =~= before.with_reg(x as int, k as u8).advanced(
                    2 * keys_down(before.keys, k as int + 1),
                ));
            }
            k += 1;
        }
    }

    /// `FX33`: stores the decimal digits of register `x`.
    fn store_bcd(&mut self, x: u8)
        requires
            x < 16,
        ensures
            final(self)@ == old(self)@.apply(Instruction::Bcd { x }, 0),
    {
        let d: u8 = self.v[x as usize];
        let at: usize = self.i as usize;
        self.memory[at % 4096] = d / 100;
        self.memory[(at + 1) % 4096] = (d / 10) % 10;
        self.memory[(at + 2) % 4096] = d % 10;
        self.advance(2);
    }

    /// `FX55`: stores registers 0 to `x` at the index register, which
    /// keeps its value.
    fn store_registers(&mut self, x: u8)
        requires
            x < 16,
        ensures
            final(self)@ == old(self)@.apply(Instruction::Store { x }, 0),
    {
        let ghost before = self@;
        let at: usize = self.i as usize;
        let mut k: usize = 0;
        while k < x as usize + 1
            invariant
                k <= x + 1 <= 16,
                at == before.i,
                self@ == (State { memory: self.memory@, ..before }),
                forall|a: int|
                    0 <= a < 4096 ==> self.memory@[a] == if (a - at) % 4096 < k {
                        before.v[(a - at) % 4096]
                    } else {
                        before.memory[a]
                    },
            decreases x + 1 - k,
        {
            proof {
                lemma_cell_round(at as int, k as int);
            }
            self.memory[(at + k) % 4096] = self.v[k];
            k += 1;
        }
        self.advance(2);
        assert(self@ =~= before.apply(Instruction::Store { x }, 0));
    }

    /// `FX65`: loads registers 0 to `x` from the index register, which
    /// keeps its value.
    fn load_registers(&mut self, x: u8)
        requires
            x < 16,
        ensures
            final(self)@ == old(self)@.apply(Instruction::Load { x }, 0),
    {
        let ghost before = self@;
        let at: usize = self.i as usize;
        let mut k: usize = 0;
        while k < x as usize + 1
            invariant
                k <= x + 1 <= 16,
                at == before.i,
                self@ == (State { v: self.v@, ..before }),
                forall|j: int|
                    0 <= j < 16 ==> self.v@[j] == if j < k {
                        before.memory[cell(at + j)]
                    } else {
                        before.v[j]
                    },
            decreases x + 1 - k,
        {
            self.v[k] = self.memory[(at + k) % 4096];
            k += 1;
        }
        self.advance(2);
        assert(self@ =~= before.apply(Instruction::Load { x }, 0));
    }

    /// `FX75`: stores registers 0 to `x` in the user flags, as far as
    /// there are flags.
    fn store_flags(&mut self, x: u8)
        requires
            x < 16,
        ensures
            final(self)@ == old(self)@.apply(Instruction::StoreFlags { x }, 0),
    {
        let ghost before = self@;
        let mut k: usize = 0;
        while k < x as usize + 1 && k < 8
            invariant
                k <= x + 1 <= 16,
                k <= 8,
                self@ == (State { user_flags: self.user_flags@, ..before }),
                forall|j: int|
                    0 <= j < 8 ==> self.user_flags@[j] == if j < k {
                        before.v[j]
                    } else {
                        before.user_flags[j]
                    },
            decreases 8 - k,
        {
            self.user_flags[k] = self.v[k];
            k += 1;
        }
        self.advance(2);
        assert(self@ =~= before.apply(Instruction::StoreFlags { x }, 0));
    }

    /// `FX85`: loads registers 0 to `x` from the user flags, as far as
    /// there are flags.
    fn load_flags(&mut self, x: u8)
        requires
            x < 16,
        ensures
            final(self)@ == old(self)@.apply(Instruction::LoadFlags { x }, 0),
    {
        let ghost before = self@;
        let mut k: usize = 0;
        while k < x as usize + 1 && k < 8
            invariant
                k <= x + 1 <= 16,
                k <= 8,
                self@ == (State { v: self.v@, ..before }),
                forall|j: int|
                    0 <= j < 16 ==> self.v@[j] == if j < k {
                        before.user_flags[j]
                    } else {
                        before.v[j]
                    },
            decreases 8 - k,
        {
            self.v[k] = self.user_flags[k];
            k += 1;
        }
        self.advance(2);
        assert(self@ =~= before.apply(Instruction::LoadFlags { x }, 0));
    }

    /// `DXYN`: draws a sprite.
    fn draw_sprite(&mut self, x: u8, y: u8, n: u8)
        requires
            x < 16,
            y < 16,
            n < 16,
        ensures
            final(self)@ == old(self)@.sprite_drawn(x as int, y as int, n as int),
    {
        let vx: u8 = self.v[x as usize];
        let vy: u8 = self.v[y as usize];
        let hit = self.gfx.draw(&self.memory, self.i, n, self.extended_mode, vx, vy);
        self.draw_flag = self.draw_flag || !self.no_overdraw || hit;
        self.set_flag(hit);
        self.advance(2);
    }

    /// Sets register `x` and moves on to the next instruction.
    fn set_reg_next(&mut self, x: u8, value: u8)
        requires
            x < 16,
        ensures
            final(self)@ == old(self)@.with_reg(x as int, value).advanced(2),
    {
        self.v[x as usize] = value;
        self.advance(2);
    }

    /// Sets register `x`, then the flag, and moves on to the next
    /// instruction.
    fn set_reg_flag_next(&mut self, x: u8, value: u8, raised: bool)
        requires
            x < 16,
        ensures
            final(self)@ == old(self)@.with_reg(x as int, value).with_flag(raised).advanced(2),
    {
        self.v[x as usize] = value;
        self.set_flag(raised);
        self.advance(2);
    }

    /// `8XY6`: the flag takes the lowest bit of register `x`, then the
    /// register is halved.
    fn shift_right(&mut self, x: u8)
        requires
            x < 16,
        ensures
            final(self)@ == old(self)@.apply(Instruction::ShiftRight { x }, 0),
    {
        let a: u8 = self.v[x as usize];
        proof {
            lemma_shifts(a);
        }
        self.set_flag(a & 1 == 1);
        let b: u8 = self.v[x as usize];
        proof {
            lemma_shifts(b);
        }
        self.v[x as usize] = b >> 1;
        self.advance(2);
    }

    /// `8XYE`: the flag takes the highest bit of register `x`, then the
    /// register is doubled.
    fn shift_left(&mut self, x: u8)
        requires
            x < 16,
        ensures
            final(self)@ == old(self)@.apply(Instruction::ShiftLeft { x }, 0),
    {
        let a: u8 = self.v[x as usize];
        proof {
            lemma_shifts(a);
        }
        self.set_flag(a >> 7 == 1);
        let b: u8 = self.v[x as usize];
        proof {
            lemma_shifts(b);
        }
        self.v[x as usize] = b << 1;
        self.advance(2);
    }

    /// `2NNN`: pushes the address of this instruction and jumps.
    fn call(&mut self, nnn: u16)
        ensures
            final(self)@ == old(self)@.called(nnn),
    {
        self.sp = self.sp.wrapping_sub(1);
        self.stack[(self.sp % 16) as usize] = self.pc;
        self.pc = nnn;
    }

    /// `00EE`: pops the address of a call and goes on behind it.
    fn ret(&mut self)
        ensures
            final(self)@ == old(self)@.returned(),
    {
        self.pc = self.stack[(self.sp % 16) as usize].wrapping_add(2);
        self.sp = self.sp.wrapping_add(1);
    }

    /// `00E0`: clears the display.
    fn clear_screen(&mut self)
        ensures
            final(self)@ == old(self)@.apply(Instruction::Clear, 0),
    {
        self.gfx.clear();
        self.draw_flag = true;
        self.advance(2);
    }

    /// `00CN`: scrolls the display down.
    fn scroll_down(&mut self, n: u8)
        requires
            n < 16,
        ensures
            final(self)@ == old(self)@.apply(Instruction::ScrollDown { n }, 0),
    {
        self.gfx.scroll_down(self.extended_mode, n);
        self.draw_flag = true;
        self.advance(2);
    }

    /// `00FB`: scrolls the display right.
    fn scroll_right(&mut self)
        ensures
            final(self)@ == old(self)@.apply(Instruction::ScrollRight, 0),
    {
        self.gfx.scroll_right(self.extended_mode);
        self.draw_flag = true;
        self.advance(2);
    }

    /// `00FC`: scrolls the display left.
    fn scroll_left(&mut self)
        ensures
            final(self)@ == old(self)@.apply(Instruction::ScrollLeft, 0),
    {
        self.gfx.scroll_left(self.extended_mode);
        self.draw_flag = true;
        self.advance(2);
    }

    /// `00FE` and `00FF`: chooses the resolution.
    fn set_mode(&mut self, extended: bool)
        ensures
            final(self)@ == (State { extended, ..old(self)@ }).advanced(2),
    {
        self.extended_mode = extended;
        self.advance(2);
    }

    /// `1NNN` and `BNNN`: goes on at `to`.
    fn jump(&mut self, to: u16)
        ensures
            final(self)@ == (State { pc: to, ..old(self)@ }),
    {
        self.pc = to;
    }

    /// Sets the index register and moves on to the next instruction.
    fn set_index_next(&mut self, value: u16)
        ensures
            final(self)@ == (State { i: value, ..old(self)@ }).advanced(2),
    {
        self.i = value;
        self.advance(2);
    }

    /// `FX1E`: adds register `x` to the index register.
    fn add_index(&mut self, x: u8)
        requires
            x < 16,
        ensures
            final(self)@ == old(self)@.apply(Instruction::AddIndex { x }, 0),
    {
        let a: u16 = self.v[x as usize] as u16;
        let carry: bool = self.i > 0xFFFF - a;
        self.i = self.i.wrapping_add(a);
        self.set_flag(carry);
        self.advance(2);
    }

    /// `FX15`: sets the delay timer.
    fn set_delay(&mut self, value: u8)
        ensures
            final(self)@ == (State { delay_timer: value, ..old(self)@ }).advanced(2),
    {
        self.delay_timer = value;
        self.advance(2);
    }

    /// `FX18`: sets the sound timer.
    fn set_sound(&mut self, value: u8)
        ensures
            final(self)@ == (State { sound_timer: value, ..old(self)@ }).advanced(2),
    {
        self.sound_timer = value;
        self.advance(2);
    }

    /// Carries out one instruction; `random` is the byte that
    /// [`Instruction::Random`] draws.
    fn execute(&mut self, ins: Instruction, random: u8)
        requires
            ins.wf(),
        ensures
            final(self)@ == old(self)@.apply(ins, random),
    {
        match ins {
            Instruction::ScrollDown { n } => self.scroll_down(n),
            Instruction::Clear => self.clear_screen(),
            Instruction::Return => self.ret(),
            Instruction::ScrollRight => self.scroll_right(),
            Instruction::ScrollLeft => self.scroll_left(),
            Instruction::LowRes => self.set_mode(false),
            Instruction::HighRes => self.set_mode(true),
            Instruction::Jump { nnn } => self.jump(nnn),
            Instruction::Call { nnn } => self.call(nnn),
            Instruction::SkipEqImm { x, nn } => self.skip_if(self.v[x as usize] == nn),
            Instruction::SkipNeImm { x, nn } => self.skip_if(self.v[x as usize] != nn),
            Instruction::SkipEqReg { x, y } => self.skip_if(
                self.v[x as usize] == self.v[y as usize],
            ),
            Instruction::SkipNeReg { x, y } => self.skip_if(
                self.v[x as usize] != self.v[y as usize],
            ),
            Instruction::LoadImm { x, nn } => self.set_reg_next(x, nn),
            Instruction::AddImm { x, nn } => self.set_reg_next(x, add8(self.v[x as usize], nn)),
            Instruction::Move { x, y } => self.set_reg_next(x, self.v[y as usize]),
            Instruction::Or { x, y } => self.set_reg_next(
                x,
                self.v[x as usize] | self.v[y as usize],
            ),
            Instruction::And { x, y } => self.set_reg_next(
                x,
                self.v[x as usize] & self.v[y as usize],
            ),
            Instruction::Xor { x, y } => self.set_reg_next(
                x,
                self.v[x as usize] ^ self.v[y as usize],
            ),
            Instruction::Add { x, y } => {
                let a: u8 = self.v[x as usize];
                let b: u8 = self.v[y as usize];
                self.set_reg_flag_next(x, add8(a, b), carries(a, b))
            },
            Instruction::Sub { x, y } => {
                let a: u8 = self.v[x as usize];
                let b: u8 = self.v[y as usize];
                self.set_reg_flag_next(x, sub8(a, b), a >= b)
            },
            Instruction::SubFrom { x, y } => {
                let a: u8 = self.v[x as usize];
                let b: u8 = self.v[y as usize];
                self.set_reg_flag_next(x, sub8(b, a), b >= a)
            },
            Instruction::ShiftRight { x } => self.shift_right(x),
            Instruction::ShiftLeft { x } => self.shift_left(x),
            Instruction::LoadIndex { nnn } => self.set_index_next(nnn),
            Instruction::JumpOffset { nnn } => self.jump(nnn + self.v[0] as u16),
            Instruction::Random { x, nn } => self.set_reg_next(x, nn & random),
            Instruction::Draw { x, y, n } => self.draw_sprite(x, y, n),
            Instruction::SkipKey { x } => self.skip_if(
                self.key[(self.v[x as usize] % 16) as usize],
            ),
            Instruction::SkipNoKey { x } => self.skip_if(
                !self.key[(self.v[x as usize] % 16) as usize],
            ),
            Instruction::ReadDelay { x } => self.set_reg_next(x, self.delay_timer),
            Instruction::WaitKey { x } => self.wait_key(x),
            Instruction::SetDelay { x } => self.set_delay(self.v[x as usize]),
            Instruction::SetSound { x } => self.set_sound(self.v[x as usize]),
            Instruction::AddIndex { x } => self.add_index(x),
            Instruction::Glyph { x } => self.set_index_next(self.v[x as usize] as u16 * 5),
            Instruction::BigGlyph { x } => self.set_index_next(
                self.v[x as usize] as u16 * 10 + 80,
            ),
            Instruction::Bcd { x } => self.store_bcd(x),
            Instruction::Store { x } => self.store_registers(x),
            Instruction::Load { x } => self.load_registers(x),
            Instruction::StoreFlags { x } => self.store_flags(x),
            Instruction::LoadFlags { x } => self.load_flags(x),
        }
    }

    /// Runs the instruction at the program counter, with `random` as the
    /// byte that a `CXNN` instruction draws. A word that encodes no
    /// instruction is answered with a fault and leaves the machine as it
    /// is.
    pub fn step_with(&mut self, random: u8) -> (res: Result<(), Fault>)
        ensures
            final(self)@ == old(self)@.step(random),
            res == outcome(old(self)@),
    {
        let op: u16 = self.fetch();
        match decode(op) {
            Some(ins) => {
                self.execute(ins, random);
                Ok(())
            },
            None => Err(Fault { pc: self.pc, opcode: op }),
        }
    }

    /// Whether the instruction at the program counter draws a random byte.
    pub fn wants_random(&self) -> (wants: bool)
        ensures
            wants == draws_random(self@),
    {
        match decode(self.fetch()) {
            Some(Instruction::Random { .. }) => true,
            _ => false,
        }
    }

    /// Runs the instruction at the program counter. A `CXNN` instruction
    /// draws a fresh random byte; every other instruction does what
    /// [`Chip8::step_with`] does with any byte. A word that encodes no
    /// instruction is answered with a fault and leaves the machine as it
    /// is.
    pub fn step(&mut self) -> (res: Result<(), Fault>)
        ensures
            exists|random: u8| final(self)@ == old(self)@.step(random),
            !draws_random(old(self)@) ==> final(self)@ == old(self)@.step(0),
            res == outcome(old(self)@),
    {
        let random: u8 = if self.wants_random() {
            random_byte()
        } else {
            0
        };
        self.step_with(random)
    }
}

/// The sum of two bytes modulo 256.
fn add8(a: u8, b: u8) -> (sum: u8)
    ensures
        sum == wrap8(a + b),
{
    a.wrapping_add(b)
}

/// Whether the sum of two bytes does not fit in a byte.
fn carries(a: u8, b: u8) -> (carry: bool)
    ensures
        carry == (a + b > 255),
{
    a as u16 + b as u16 > 255
}

/// The difference of two bytes modulo 256.
fn sub8(a: u8, b: u8) -> (difference: u8)
    ensures
        difference == wrap8(a - b),
{
    a.wrapping_sub(b)
}

/// Shifts and masks on a byte, read as divisions and remainders.
proof fn lemma_shifts(b: u8)
    by (bit_vector)
    ensures
        b >> 1 == b / 2,
        b >> 7 == b / 128,
        b & 1 == b % 2,
        b < 128 ==> b << 1 == b * 2,
        b >= 128 ==> b << 1 == b * 2 - 256,
{
}

/// Going `k` bytes up from address `at` and looking back gives `k`, and
/// only one memory cell lies `k` bytes up from `at`.
proof fn lemma_cell_round(at: int, k: int)
    requires
        0 <= k < 4096,
    ensures
        0 <= (at + k) % 4096 < 4096,
        ((at + k) % 4096 - at) % 4096 == k,
        forall|a: int| 0 <= a < 4096 && #[trigger] ((a - at) % 4096) == k ==> a == (at + k) % 4096,
{
}

} // verus!
