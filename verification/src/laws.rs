//! What holds of the machine in general, proved over its model.

use crate::display::{binary, blank, collides, covers, drawn, flipped, scrolled_down, scrolled_left, scrolled_right, sprite_at, Sprite, OFF, ON};
use crate::font::{font_byte, fonts_intact, glyph_sprite};
use crate::machine::draws_random;
use crate::model::{cell, slot, wrap16, wrap8, State};
use crate::opcode::{decoded, lemma_fields, lemma_fields_address, lemma_fields_byte, Instruction};
use vstd::prelude::*;

verus! {

/// A fresh machine is well formed.
pub proof fn law_initial_wf()
    ensures
        State::initial().wf(),
{
}

/// A fresh machine holds both fonts, and loading a program leaves them in
/// place.
pub proof fn law_fonts_in_place(s: State, image: Seq<u8>)
    requires
        s.wf(),
        fonts_intact(s.memory),
    ensures
        fonts_intact(State::initial().memory),
        fonts_intact(s.program_loaded(image).memory),
{
}

/// A dark display is well formed, and scrolling or drawing keeps every cell
/// fully off or fully on.
pub proof fn law_display_binary(cells: Seq<u8>, sprite: Sprite, extended: bool, vx: int, vy: int, rows: int)
    requires
        binary(cells),
        0 <= rows < 16,
    ensures
        binary(blank()),
        binary(scrolled_down(cells, extended, rows)),
        binary(scrolled_right(cells, extended)),
        binary(scrolled_left(cells, extended)),
        binary(drawn(cells, sprite, extended, vx, vy)),
{
}

/// Whatever instruction runs, a well-formed machine stays well formed.
pub proof fn law_apply_preserves_wf(s: State, ins: Instruction, random: u8)
    requires
        s.wf(),
        ins.wf(),
    ensures
        s.apply(ins, random).wf(),
{
    match ins {
        Instruction::ScrollDown { n } => {
            law_display_binary(s.gfx, Sprite { rows: Seq::empty(), cols: 8 }, s.extended, 0, 0, n as int);
        },
        Instruction::Draw { x, y, n } => {
            law_display_binary(
                s.gfx,
                sprite_at(s.memory, s.i as int, n as int, s.extended),
                s.extended,
                s.v[x as int] as int,
                s.v[y as int] as int,
                0,
            );
        },
        _ => {
            law_display_binary(s.gfx, Sprite { rows: Seq::empty(), cols: 8 }, s.extended, 0, 0, 0);
        },
    }
}

/// A step, a tick and a program load keep a well-formed machine well
/// formed.
pub proof fn law_wf_preserved(s: State, random: u8, image: Seq<u8>)
    requires
        s.wf(),
    ensures
        s.step(random).wf(),
        s.ticked().wf(),
        s.program_loaded(image).wf(),
{
    match decoded(s.opcode()) {
        Some(ins) => {
            law_decoded_wf(s.opcode());
            law_apply_preserves_wf(s, ins, random);
        },
        None => {},
    }
}

/// The operands of a decoded instruction lie in their ranges.
pub proof fn law_decoded_wf(op: u16)
    ensures
        decoded(op) matches Some(ins) ==> ins.wf(),
{
}

/// Only a `CXNN` instruction looks at the random byte: a step on any other
/// instruction gives the same state whatever byte it is handed.
pub proof fn law_random_only_for_cxnn(s: State, r1: u8, r2: u8)
    requires
        !draws_random(s),
    ensures
        s.step(r1) == s.step(r2),
{
}

/// `6XNN` loads `nn` into register `x`: reading the register right after
/// gives `nn` exactly.
pub proof fn law_load_immediate(s: State, x: u8, nn: u8, random: u8)
    requires
        s.wf(),
        x < 16,
        s.opcode() == 0x6000 + x * 256 + nn,
    ensures
        s.step(random).v[x as int] == nn,
        s.step(random) == s.with_reg(x as int, nn).advanced(2),
{
    lemma_fields_byte(6, x, nn);
    assert(decoded(s.opcode()) == Some(Instruction::LoadImm { x, nn }));
}

/// `7XNN` adds `nn` to register `x` modulo 256 and leaves every other
/// register, the flag among them, as it was.
pub proof fn law_add_immediate(s: State, x: u8, nn: u8, random: u8)
    requires
        s.wf(),
        x < 16,
        s.opcode() == 0x7000 + x * 256 + nn,
    ensures
        s.step(random).v[x as int] == wrap8(s.v[x as int] + nn),
        forall|k: int| 0 <= k < 16 && k != x ==> s.step(random).v[k] == s.v[k],
{
    lemma_fields_byte(7, x, nn);
    assert(decoded(s.opcode()) == Some(Instruction::AddImm { x, nn }));
}

/// `3XNN` moves the program counter on by 4 if register `x` equals `nn`,
/// and by 2 if it does not.
pub proof fn law_skip_if_equal(s: State, x: u8, nn: u8, random: u8)
    requires
        s.wf(),
        x < 16,
        s.opcode() == 0x3000 + x * 256 + nn,
    ensures
        s.v[x as int] == nn ==> s.step(random).pc == wrap16(s.pc + 4),
        s.v[x as int] != nn ==> s.step(random).pc == wrap16(s.pc + 2),
{
    lemma_fields_byte(3, x, nn);
    assert(decoded(s.opcode()) == Some(Instruction::SkipEqImm { x, nn }));
}

/// A return right after a call goes on behind the call instruction and
/// puts the stack pointer back, wherever in its ring of slots the stack
/// pointer stood.
pub proof fn law_push_then_pop(s: State, nnn: u16)
    requires
        s.wf(),
    ensures
        s.called(nnn).returned().pc == wrap16(s.pc + 2),
        s.called(nnn).returned().sp == s.sp,
        s.called(nnn).returned().stack == s.stack.update(
            slot(wrap16(s.sp - 1) as int),
            s.pc,
        ),
{
}

/// `2NNN` followed by `00EE`: the return goes on right behind the call
/// instruction and puts the stack pointer back where it was before the
/// call.
pub proof fn law_call_then_return(s: State, nnn: u16, r1: u8, r2: u8)
    requires
        s.wf(),
        nnn < 4096,
        s.opcode() == 0x2000 + nnn,
        s.step(r1).opcode() == 0x00EE,
    ensures
        s.step(r1).pc == nnn,
        s.step(r1).step(r2).pc == wrap16(s.pc + 2),
        s.step(r1).step(r2).sp == s.sp,
{
    lemma_fields_address(2, nnn);
    assert(decoded(s.opcode()) == Some(Instruction::Call { nnn }));
    let t = s.step(r1);
    assert(t == s.called(nnn));
    assert(decoded(0x00EEu16) == Some(Instruction::Return));
    assert(t.step(r2) == t.returned());
    law_push_then_pop(s, nnn);
}

/// `00E0` turns every framebuffer cell off and raises the draw flag.
pub proof fn law_clear(s: State, random: u8)
    requires
        s.wf(),
        s.opcode() == 0x00E0,
    ensures
        forall|p: int| 0 <= p < 8192 ==> s.step(random).gfx[p] == OFF,
        s.step(random).draw_flag,
{
    assert(decoded(0x00E0u16) == Some(Instruction::Clear));
}

/// Drawing a sprite twice at one position gives back the framebuffer as it
/// was, and the second draw collides exactly if the first lit a pixel that
/// was dark.
pub proof fn law_draw_twice_cells(cells: Seq<u8>, sprite: Sprite, extended: bool, vx: int, vy: int)
    requires
        binary(cells),
    ensures
        drawn(drawn(cells, sprite, extended, vx, vy), sprite, extended, vx, vy) == cells,
        collides(drawn(cells, sprite, extended, vx, vy), sprite, extended, vx, vy) <==> exists|
            p: int,
        |
            covers(sprite, extended, vx, vy, p) && cells[p] == OFF,
{
    let once = drawn(cells, sprite, extended, vx, vy);
    let twice = drawn(once, sprite, extended, vx, vy);
    assert(twice =~= cells);
    if collides(once, sprite, extended, vx, vy) {
        let p = choose|p: int| covers(sprite, extended, vx, vy, p) && once[p] == ON;
        assert(covers(sprite, extended, vx, vy, p) && cells[p] == OFF);
    }
    if exists|p: int| covers(sprite, extended, vx, vy, p) && cells[p] == OFF {
        let p = choose|p: int| covers(sprite, extended, vx, vy, p) && cells[p] == OFF;
        assert(covers(sprite, extended, vx, vy, p) && once[p] == ON);
    }
}

/// `DXYN` twice in a row, the second time at the position of the first:
/// the framebuffer is again what it was, so every pixel that the sprite
/// touched and that was dark is dark again; and the second draw sets the
/// flag register to 1, provided the sprite touched a pixel that was dark.
pub proof fn law_draw_twice(s: State, x: u8, y: u8, n: u8, r1: u8, r2: u8)
    requires
        s.wf(),
        x < 16,
        y < 16,
        n < 16,
        s.opcode() == 0xD000 + x * 256 + y * 16 + n,
        s.step(r1).opcode() == s.opcode(),
        s.step(r1).v[x as int] == s.v[x as int],
        s.step(r1).v[y as int] == s.v[y as int],
    ensures
        s.step(r1).step(r2).gfx == s.gfx,
        forall|p: int|
            covers(
                sprite_at(s.memory, s.i as int, n as int, s.extended),
                s.extended,
                s.v[x as int] as int,
                s.v[y as int] as int,
                p,
            ) ==> s.step(r1).gfx[p] == flipped(s.gfx[p]) && s.step(r1).step(r2).gfx[p] == s.gfx[p],
        (exists|p: int|
            covers(
                sprite_at(s.memory, s.i as int, n as int, s.extended),
                s.extended,
                s.v[x as int] as int,
                s.v[y as int] as int,
                p,
            ) && s.gfx[p] == OFF) ==> s.step(r1).step(r2).v[15] == 1,
{
    let sprite = sprite_at(s.memory, s.i as int, n as int, s.extended);
    let vx = s.v[x as int] as int;
    let vy = s.v[y as int] as int;
    let t = s.step(r1);
    lemma_fields(0xD, x, y, n);
    assert(decoded(s.opcode()) == Some(Instruction::Draw { x, y, n }));
    assert(t == s.sprite_drawn(x as int, y as int, n as int));
    assert(t.gfx == drawn(s.gfx, sprite, s.extended, vx, vy));
    assert(t.memory == s.memory && t.i == s.i && t.extended == s.extended);
    law_draw_twice_cells(s.gfx, sprite, s.extended, vx, vy);
    let u = t.step(r2);
    assert(u == t.sprite_drawn(x as int, y as int, n as int));
    assert(u.gfx == drawn(t.gfx, sprite, s.extended, vx, vy));
    assert(u.gfx == s.gfx);
    assert forall|p: int| covers(sprite, s.extended, vx, vy, p) implies t.gfx[p] == flipped(
        s.gfx[p],
    ) && u.gfx[p] == s.gfx[p] by {
        assert(0 <= p < 8192);
    }
    if exists|p: int| covers(sprite, s.extended, vx, vy, p) && s.gfx[p] == OFF {
        assert(collides(t.gfx, sprite, s.extended, vx, vy));
        assert(u.v[15] == 1);
    }
}

/// `FX29` with digit `d` in register `x`, followed by `DXY5`: what is drawn
/// is the built-in five-row glyph for `d`. It holds as long as the program
/// has not written over the font.
pub proof fn law_glyph_drawn(s: State, x: u8, d: u8, x2: u8, y2: u8, r1: u8, r2: u8)
    requires
        s.wf(),
        fonts_intact(s.memory),
        x < 16,
        x2 < 16,
        y2 < 16,
        d < 16,
        s.v[x as int] == d,
        s.opcode() == 0xF029 + x * 256,
        s.step(r1).opcode() == 0xD005 + x2 * 256 + y2 * 16,
    ensures
        s.step(r1).i == 5 * d,
        s.step(r1).step(r2).gfx == drawn(
            s.gfx,
            glyph_sprite(d as int),
            s.extended,
            s.v[x2 as int] as int,
            s.v[y2 as int] as int,
        ),
{
    let t = s.step(r1);
    lemma_fields_byte(0xF, x, 0x29);
    assert(decoded(s.opcode()) == Some(Instruction::Glyph { x }));
    assert(t == (State { i: (5 * d) as u16, ..s }).advanced(2));
    lemma_fields(0xD, x2, y2, 5);
    assert(decoded(t.opcode()) == Some(Instruction::Draw { x: x2, y: y2, n: 5 }));
    assert(t.step(r2) == t.sprite_drawn(x2 as int, y2 as int, 5));
    let sprite = sprite_at(t.memory, t.i as int, 5, t.extended);
    assert(sprite.cols == 8);
    assert(sprite.rows =~= glyph_sprite(d as int).rows) by {
        assert forall|r: int| 0 <= r < 5 implies sprite.rows[r] == glyph_sprite(d as int).rows[r] by {
            let a = 5 * d + r;
            assert(0 <= a < 80 && a % 4096 == a);
            assert(t.memory[a] == s.memory[a]);
            assert(s.memory[a] == font_byte(a));
            assert(sprite.rows[r] == t.memory[cell(t.i + r)] as u16);
        }
    }
    assert(sprite == glyph_sprite(d as int));
}

/// A tick never takes a timer below zero: a timer at zero stays there, and
/// any other goes down by exactly one.
pub proof fn law_tick_floor(s: State)
    ensures
        s.delay_timer == 0 ==> s.ticked().delay_timer == 0,
        s.sound_timer == 0 ==> s.ticked().sound_timer == 0,
        s.delay_timer > 0 ==> s.ticked().delay_timer == s.delay_timer - 1,
        s.sound_timer > 0 ==> s.ticked().sound_timer == s.sound_timer - 1,
{
}

} // verus!
