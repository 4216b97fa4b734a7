//! Text renderings of a machine's state, for a developer to read.

use crate::machine::{Chip8, Fault};
use crate::model::State;
use crate::opcode::{join_bytes, word_of};
use vstd::prelude::*;

verus! {

/// `String::push` appends one character to the end of the string.
pub assume_specification[ String::push ](s: &mut String, ch: char)
    ensures
        final(s)@ == old(s)@.push(ch),
;

/// The sixteen hexadecimal digits, capitals for ten to fifteen.
pub const DIGITS: [char; 16] = [
    '0', '1', '2', '3', '4', '5', '6', '7', '8', '9', 'A', 'B', 'C', 'D', 'E', 'F',
];

/// Character for a lit pixel.
pub const LIT: char = '\u{2588}';

/// Character for a dark pixel.
pub const DARK: char = '\u{2591}';

/// Character of the line above the picture.
pub const UPPER_EDGE: char = '\u{2581}';

/// Character of the line below the picture.
pub const LOWER_EDGE: char = '\u{2594}';

/// `n` in two hexadecimal digits.
pub open spec fn hex2(n: u8) -> Seq<char> {
    seq![DIGITS@[n as int / 16], DIGITS@[n as int % 16]]
}

/// `n` in four hexadecimal digits.
pub open spec fn hex4(n: u16) -> Seq<char> {
    seq![
        DIGITS@[n as int / 4096],
        DIGITS@[(n as int / 256) % 16],
        DIGITS@[(n as int / 16) % 16],
        DIGITS@[n as int % 16],
    ]
}

/// `n` in decimal digits, without leading zeros.
pub open spec fn decimal(n: nat) -> Seq<char>
    decreases n,
{
    if n < 10 {
        seq![DIGITS@[n as int]]
    } else {
        decimal(n / 10).push(DIGITS@[n as int % 10])
    }
}

/// The line for register `k`: its index and its value, followed by a line
/// break after every fourth register and by a tab after the others.
pub open spec fn register_text(v: Seq<u8>, k: int) -> Seq<char> {
    "V[0x"@ + hex2(k as u8) + "] = 0x"@ + hex2(v[k]) + if (k + 1) % 4 == 0 {
        "\n"@
    } else {
        "\t"@
    }
}

/// The lines for the first `n` registers.
pub open spec fn registers_text(v: Seq<u8>, n: int) -> Seq<char>
    decreases n,
{
    if n <= 0 {
        Seq::empty()
    } else {
        registers_text(v, n - 1) + register_text(v, n - 1)
    }
}

/// The register report: program counter, instruction word at the program
/// counter, index register and stack pointer, one per line, then the
/// registers four to a line, then an empty line.
pub open spec fn reginfo_text(s: State) -> Seq<char> {
    "PC = "@ + hex4(s.pc) + "\nINSTRUCTION = "@ + hex4(s.opcode()) + "\nI = "@ + hex4(s.i)
        + "\nSP = "@ + decimal(s.sp as nat) + "\n"@ + registers_text(s.v, 16) + "\n"@
}

/// A line of 66 times the character `edge`, with its line break.
pub open spec fn edge_text(edge: char) -> Seq<char> {
    Seq::new(66, |k: int| edge).push('\n')
}

/// Row `y` of the picture: the first 64 cells of the row between two
/// bars.
pub open spec fn row_text(gfx: Seq<u8>, y: int) -> Seq<char> {
    seq!['|'] + Seq::new(
        64,
        |x: int|
            if gfx[x + y * 64] == 255 {
                LIT
            } else {
                DARK
            },
    ) + seq!['|', '\n']
}

/// The first `n` rows of the picture.
pub open spec fn rows_text(gfx: Seq<u8>, n: int) -> Seq<char>
    decreases n,
{
    if n <= 0 {
        Seq::empty()
    } else {
        rows_text(gfx, n - 1) + row_text(gfx, n - 1)
    }
}

/// The picture: 32 rows of 64 pixels, framed. It shows the first 2048
/// cells whatever the active resolution.
pub open spec fn gfx_text(gfx: Seq<u8>) -> Seq<char> {
    edge_text(UPPER_EDGE) + rows_text(gfx, 32) + edge_text(LOWER_EDGE)
}

/// The line for the memory word at the even address `a`.
pub open spec fn word_text(memory: Seq<u8>, a: int) -> Seq<char> {
    hex4(a as u16) + ": "@ + hex4(word_of(memory[a], memory[a + 1])) + "\n"@
}

/// The lines for the first `n` words of memory.
pub open spec fn words_text(memory: Seq<u8>, n: int) -> Seq<char>
    decreases n,
{
    if n <= 0 {
        Seq::empty()
    } else {
        words_text(memory, n - 1) + word_text(memory, 2 * (n - 1))
    }
}

/// The announcement of a fault, with the offending word in decimal.
pub open spec fn fault_text(fault: Fault) -> Seq<char> {
    "!!PANIC!!\n!!UNKNOWN OPCODE "@ + decimal(fault.opcode as nat) + "!!\n"@
}

fn push_hex2(out: &mut String, n: u8)
    ensures
        final(out)@ == old(out)@ + hex2(n),
{
    out.push(DIGITS[(n / 16) as usize]);
    out.push(DIGITS[(n % 16) as usize]);
    assert(out@ =~= old(out)@ + hex2(n));
}

fn push_hex4(out: &mut String, n: u16)
    ensures
        final(out)@ == old(out)@ + hex4(n),
{
    out.push(DIGITS[(n / 4096) as usize]);
    out.push(DIGITS[((n / 256) % 16) as usize]);
    out.push(DIGITS[((n / 16) % 16) as usize]);
    out.push(DIGITS[(n % 16) as usize]);
    assert(out@ =~= old(out)@ + hex4(n));
}

fn push_decimal(out: &mut String, n: u16)
    ensures
        final(out)@ == old(out)@ + decimal(n as nat),
    decreases n,
{
    if n >= 10 {
        push_decimal(out, n / 10);
    }
    out.push(DIGITS[(n % 10) as usize]);
    assert(out@ =~= old(out)@ + decimal(n as nat));
}

fn push_edge(out: &mut String, edge: char)
    ensures
        final(out)@ == old(out)@ + edge_text(edge),
{
    let mut k: usize = 0;
    while k < 66
        invariant
            k <= 66,
            out@ == old(out)@ + Seq::new(k as nat, |j: int| edge),
        decreases 66 - k,
    {
        out.push(edge);
        k += 1;
        assert(out@ =~= old(out)@ + Seq::new(k as nat, |j: int| edge));
    }
    out.push('\n');
    assert(out@ =~= old(out)@ + edge_text(edge));
}

impl Chip8 {
    /// The register report: program counter, instruction word at the
    /// program counter, index register and stack pointer, then the sixteen
    /// registers four to a line.
    pub fn reginfo(&self) -> (text: String)
        ensures
            text@ == reginfo_text(self@),
    {
        let mut out = String::new();
        out.append("PC = ");
        push_hex4(&mut out, self.pc());
        out.append("\nINSTRUCTION = ");
        push_hex4(&mut out, self.fetch());
        out.append("\nI = ");
        push_hex4(&mut out, self.index());
        out.append("\nSP = ");
        push_decimal(&mut out, self.sp());
        out.append("\n");
        let ghost head = out@;
        let v = self.registers();
        let mut k: usize = 0;
        while k < 16
            invariant
                k <= 16,
                v@ == self@.v,
                out@ == head + registers_text(self@.v, k as int),
            decreases 16 - k,
        {
            let ghost line_start = out@;
            out.append("V[0x");
            push_hex2(&mut out, k as u8);
            out.append("] = 0x");
            push_hex2(&mut out, v[k]);
            if (k + 1) % 4 == 0 {
                out.append("\n");
            } else {
                out.append("\t");
            }
            assert(out@ =~= line_start + register_text(self@.v, k as int));
            k += 1;
            assert(out@ =~= head + registers_text(self@.v, k as int));
        }
        out.append("\n");
        assert(out@ =~= reginfo_text(self@));
        out
    }

    /// The picture, framed: 32 rows of 64 pixels.
    pub fn dumpgfx(&self) -> (text: String)
        ensures
            text@ == gfx_text(self@.gfx),
    {
        let gfx = self.gfx();
        let mut out = String::new();
        push_edge(&mut out, UPPER_EDGE);
        let ghost head = out@;
        let mut y: usize = 0;
        while y < 32
            invariant
                y <= 32,
                gfx@ == self@.gfx,
                out@ == head + rows_text(self@.gfx, y as int),
            decreases 32 - y,
        {
            let ghost row_start = out@;
            out.push('|');
            let mut x: usize = 0;
            while x < 64
                invariant
                    x <= 64,
                    y < 32,
                    gfx@ == self@.gfx,
                    out@ == row_start.push('|') + Seq::new(
                        x as nat,
                        |j: int|
                            if self@.gfx[j + y * 64] == 255 {
                                LIT
                            } else {
                                DARK
                            },
                    ),
                decreases 64 - x,
            {
                out.push(
                    if gfx[x + (y * 64)] == 255 {
                        LIT
                    } else {
                        DARK
                    },
                );
                x += 1;
                assert(out@ =~= row_start.push('|') + Seq::new(
                    x as nat,
                    |j: int|
                        if self@.gfx[j + y * 64] == 255 {
                            LIT
                        } else {
                            DARK
                        },
                ));
            }
            out.push('|');
            out.push('\n');
            assert(out@ =~= row_start + row_text(self@.gfx, y as int));
            y += 1;
            assert(out@ =~= head + rows_text(self@.gfx, y as int));
        }
        push_edge(&mut out, LOWER_EDGE);
        assert(out@ =~= gfx_text(self@.gfx));
        out
    }

    /// The whole memory, one line for every two bytes: the address and the
    /// word at it, both in hexadecimal.
    pub fn dump_memory(&self) -> (text: String)
        ensures
            text@ == words_text(self@.memory, 2048),
    {
        let memory = self.memory();
        let mut out = String::new();
        let mut n: usize = 0;
        while n < 2048
            invariant
                n <= 2048,
                memory@ == self@.memory,
                out@ == words_text(self@.memory, n as int),
            decreases 2048 - n,
        {
            let ghost line_start = out@;
            let a: usize = 2 * n;
            push_hex4(&mut out, a as u16);
            out.append(": ");
            push_hex4(&mut out, join_bytes(memory[a], memory[a + 1]));
            out.append("\n");
            assert(out@ =~= line_start + word_text(self@.memory, a as int));
            n += 1;
        }
        out
    }
}

impl Fault {
    /// The announcement of the fault, with the offending word in decimal.
    pub fn announcement(&self) -> (text: String)
        ensures
            text@ == fault_text(*self),
    {
        let mut out = String::new();
        out.append("!!PANIC!!\n!!UNKNOWN OPCODE ");
        push_decimal(&mut out, self.opcode);
        out.append("!!\n");
        assert(out@ =~= fault_text(*self));
        out
    }
}

} // verus!
