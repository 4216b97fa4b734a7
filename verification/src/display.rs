//! The framebuffer: one byte per pixel, addressed row by row over the
//! dimensions of the active resolution.

use crate::opcode::{join_bytes, word_of};
use vstd::prelude::*;

verus! {

/// Number of cells in the framebuffer, enough for the extended resolution.
pub const CELLS: usize = 8192;

/// Value of a cell whose pixel is lit.
pub const ON: u8 = 255;

/// Value of a cell whose pixel is dark.
pub const OFF: u8 = 0;

/// Pixels per row in the standard or the extended resolution.
pub open spec fn width_of(extended: bool) -> int {
    if extended {
        128
    } else {
        64
    }
}

/// Rows in the standard or the extended resolution.
pub open spec fn height_of(extended: bool) -> int {
    if extended {
        64
    } else {
        32
    }
}

/// Cells of the active screen: they are the first cells of the
/// framebuffer.
pub open spec fn screen_cells(extended: bool) -> int {
    if extended {
        8192
    } else {
        2048
    }
}

/// Pixels by which a sideways scroll moves the picture.
pub open spec fn side_step(extended: bool) -> int {
    if extended {
        4
    } else {
        2
    }
}

/// Every cell is either fully off or fully on.
pub open spec fn binary(cells: Seq<u8>) -> bool {
    &&& cells.len() == CELLS
    &&& forall|p: int| 0 <= p < CELLS ==> cells[p] == OFF || cells[p] == ON
}

/// The framebuffer with every pixel dark.
pub open spec fn blank() -> Seq<u8> {
    Seq::new(CELLS as nat, |p: int| OFF)
}

/// A cell after its pixel was toggled.
pub open spec fn flipped(cell: u8) -> u8 {
    if cell == ON {
        OFF
    } else {
        ON
    }
}

/// The framebuffer after the picture moved down by `rows` rows: the whole
/// buffer shifts towards its end by `rows` times the active width, and the
/// cells vacated at its start are dark.
pub open spec fn scrolled_down(cells: Seq<u8>, extended: bool, rows: int) -> Seq<u8> {
    let k = width_of(extended) * rows;
    Seq::new(
        CELLS as nat,
        |p: int|
            if p < k {
                OFF
            } else {
                cells[p - k]
            },
    )
}

/// The framebuffer after every row of the active screen moved right by
/// [`side_step`] pixels; the vacated left edge is dark, and cells past the
/// active screen keep their value.
pub open spec fn scrolled_right(cells: Seq<u8>, extended: bool) -> Seq<u8> {
    let w = width_of(extended);
    let s = side_step(extended);
    Seq::new(
        CELLS as nat,
        |p: int|
            if p < screen_cells(extended) {
                if p % w < s {
                    OFF
                } else {
                    cells[p - s]
                }
            } else {
                cells[p]
            },
    )
}

/// The framebuffer after every row of the active screen moved left by
/// [`side_step`] pixels; the vacated right edge is dark, and cells past the
/// active screen keep their value.
pub open spec fn scrolled_left(cells: Seq<u8>, extended: bool) -> Seq<u8> {
    let w = width_of(extended);
    let s = side_step(extended);
    Seq::new(
        CELLS as nat,
        |p: int|
            if p < screen_cells(extended) {
                if p % w >= w - s {
                    OFF
                } else {
                    cells[p + s]
                }
            } else {
                cells[p]
            },
    )
}

/// A sprite: its rows from top to bottom, each holding `cols` pixels in its
/// low bits, the leftmost pixel in the highest of them.
pub struct Sprite {
    pub rows: Seq<u16>,
    pub cols: int,
}

/// The word with only the bit of a sprite row's leftmost pixel set.
pub open spec fn top_bit(cols: int) -> u16 {
    if cols == 16 {
        0x8000
    } else {
        0x80
    }
}

impl Sprite {
    /// Whether the pixel in row `r`, column `c` of the sprite is set.
    pub open spec fn lit(self, r: int, c: int) -> bool {
        &&& 0 <= r < self.rows.len()
        &&& 0 <= c < self.cols
        &&& self.rows[r] & (top_bit(self.cols) >> (c as u16)) != 0
    }
}

/// Number of rows of the sprite that a draw with row count `n` reads: a
/// count of zero stands for sixteen rows.
pub open spec fn sprite_rows(n: int) -> int {
    if n == 0 {
        16
    } else {
        n
    }
}

/// Whether a draw with row count `n` reads rows of sixteen pixels, two bytes
/// each: only a count of zero does, and only in extended mode.
pub open spec fn sprite_wide(n: int, extended: bool) -> bool {
    n == 0 && extended
}

/// The sprite that a draw with row count `n` reads from `memory` at
/// `index`. Addresses past the end of memory wrap round to its start.
pub open spec fn sprite_at(memory: Seq<u8>, index: int, n: int, extended: bool) -> Sprite {
    if sprite_wide(n, extended) {
        Sprite {
            rows: Seq::new(
                16,
                |r: int|
                    word_of(memory[(index + 2 * r) % 4096], memory[(index + 2 * r + 1) % 4096]),
            ),
            cols: 16,
        }
    } else {
        Sprite {
            rows: Seq::new(sprite_rows(n) as nat, |r: int| memory[(index + r) % 4096] as u16),
            cols: 8,
        }
    }
}

/// The cell of the pixel in column `x`, row `y`, both wrapped onto the
/// active screen.
pub open spec fn cell_index(extended: bool, x: int, y: int) -> int {
    x % width_of(extended) + (y % height_of(extended)) * width_of(extended)
}

/// How many columns right of column `vx` cell `p` lies, going round the
/// active screen.
pub open spec fn col_offset(extended: bool, vx: int, p: int) -> int {
    (p % width_of(extended) - vx) % width_of(extended)
}

/// How many rows below row `vy` cell `p` lies, going round the active
/// screen.
pub open spec fn row_offset(extended: bool, vy: int, p: int) -> int {
    (p / width_of(extended) - vy) % height_of(extended)
}

/// Whether a set pixel of `sprite`, drawn with its top left corner at
/// column `vx`, row `vy`, falls on cell `p`.
pub open spec fn covers(sprite: Sprite, extended: bool, vx: int, vy: int, p: int) -> bool {
    &&& 0 <= p < screen_cells(extended)
    &&& sprite.lit(row_offset(extended, vy, p), col_offset(extended, vx, p))
}

/// The framebuffer after `sprite` was drawn at column `vx`, row `vy`: every
/// cell that a set pixel falls on is toggled.
pub open spec fn drawn(cells: Seq<u8>, sprite: Sprite, extended: bool, vx: int, vy: int) -> Seq<
    u8,
> {
    Seq::new(
        CELLS as nat,
        |p: int|
            if covers(sprite, extended, vx, vy, p) {
                flipped(cells[p])
            } else {
                cells[p]
            },
    )
}

/// Whether drawing `sprite` at column `vx`, row `vy` turns a lit pixel
/// dark.
pub open spec fn collides(cells: Seq<u8>, sprite: Sprite, extended: bool, vx: int, vy: int) -> bool {
    exists|p: int| covers(sprite, extended, vx, vy, p) && cells[p] == ON
}

/// Going `c` steps up from `v` round a ring of `m` positions and looking
/// back gives `c`, and only one position of the ring lies `c` steps up
/// from `v`.
proof fn lemma_ring(m: int, v: int, c: int)
    requires
        m == 32 || m == 64 || m == 128,
        0 <= c < m,
    ensures
        0 <= (v + c) % m < m,
        ((v + c) % m - v) % m == c,
        forall|x: int| 0 <= x < m && #[trigger] ((x - v) % m) == c ==> x == (v + c) % m,
{
    if m == 32 {
        assert(((v + c) % 32 - v) % 32 == c);
        assert forall|x: int| 0 <= x < 32 && #[trigger] ((x - v) % 32) == c implies x == (v + c)
            % 32 by {}
    } else if m == 64 {
        assert(((v + c) % 64 - v) % 64 == c);
        assert forall|x: int| 0 <= x < 64 && #[trigger] ((x - v) % 64) == c implies x == (v + c)
            % 64 by {}
    } else {
        assert(((v + c) % 128 - v) % 128 == c);
        assert forall|x: int| 0 <= x < 128 && #[trigger] ((x - v) % 128) == c implies x == (v
            + c) % 128 by {}
    }
}

/// The pixel in row `r`, column `c` of a sprite drawn at column `vx`, row
/// `vy` falls on the cell that lies `r` rows below and `c` columns right of
/// that corner, and on no other.
pub proof fn lemma_cell_offsets(extended: bool, vx: int, vy: int, r: int, c: int)
    requires
        0 <= r < height_of(extended),
        0 <= c < width_of(extended),
    ensures
        0 <= cell_index(extended, vx + c, vy + r) < screen_cells(extended),
        row_offset(extended, vy, cell_index(extended, vx + c, vy + r)) == r,
        col_offset(extended, vx, cell_index(extended, vx + c, vy + r)) == c,
        forall|p: int|
            0 <= p < screen_cells(extended) && #[trigger] row_offset(
                extended,
                vy,
                p,
            ) == r && col_offset(extended, vx, p) == c ==> p == cell_index(
                extended,
                vx + c,
                vy + r,
            ),
{
    let w = width_of(extended);
    let h = height_of(extended);
    let a = (vx + c) % w;
    let b = (vy + r) % h;
    let pos = cell_index(extended, vx + c, vy + r);
    lemma_ring(w, vx, c);
    lemma_ring(h, vy, r);
    assert(pos == a + b * w);
    assert(pos % w == a && pos / w == b) by {
        if extended {
            assert((a + b * 128) % 128 == a && (a + b * 128) / 128 == b);
        } else {
            assert((a + b * 64) % 64 == a && (a + b * 64) / 64 == b);
        }
    }
    assert forall|p: int|
        0 <= p < screen_cells(extended) && #[trigger] row_offset(extended, vy, p) == r && col_offset(
            extended,
            vx,
            p,
        ) == c implies p == pos by {
        let x = p % w;
        let y = p / w;
        assert(0 <= x < w && 0 <= y < h && p == y * w + x) by {
            if extended {
                assert(0 <= p % 128 < 128 && 0 <= p / 128 < 64 && p == (p / 128) * 128 + p % 128);
            } else {
                assert(0 <= p % 64 < 64 && 0 <= p / 64 < 32 && p == (p / 64) * 64 + p % 64);
            }
        }
        assert((x - vx) % w == c);
        assert((y - vy) % h == r);
        assert(x == a);
        assert(y == b);
    }
}

/// The part of [`covers`] that a draw has dealt with once it has finished
/// the sprite rows above `r` and the columns left of `c` in row `r`.
pub open spec fn covers_before(
    sprite: Sprite,
    extended: bool,
    vx: int,
    vy: int,
    p: int,
    r: int,
    c: int,
) -> bool {
    &&& covers(sprite, extended, vx, vy, p)
    &&& (row_offset(extended, vy, p) < r || (row_offset(extended, vy, p) == r && col_offset(
        extended,
        vx,
        p,
    ) < c))
}

/// The pixel states of the display.
pub struct Framebuffer {
    cells: [u8; 8192],
}

impl View for Framebuffer {
    type V = Seq<u8>;

    closed spec fn view(&self) -> Seq<u8> {
        self.cells@
    }
}

impl Framebuffer {
    #[verifier::type_invariant]
    spec fn inv(self) -> bool {
        binary(self.cells@)
    }

    /// A framebuffer with every pixel dark.
    pub fn new() -> (fb: Framebuffer)
        ensures
            fb@ == blank(),
    {
        let fb = Framebuffer { cells: [0; 8192] };
        assert(fb@ =~= blank());
        fb
    }

    /// The cells, row by row.
    pub fn cells(&self) -> (cells: &[u8; 8192])
        ensures
            cells@ == self@,
            binary(self@),
    {
        proof {
            use_type_invariant(self);
        }
        &self.cells
    }

    /// Turns every pixel dark.
    pub fn clear(&mut self)
        ensures
            final(self)@ == blank(),
    {
        self.cells = [0; 8192];
        assert(self@ =~= blank());
    }

    /// Moves the picture down by `rows` rows of the active width.
    pub fn scroll_down(&mut self, extended: bool, rows: u8)
        requires
            rows < 16,
        ensures
            final(self)@ == scrolled_down(old(self)@, extended, rows as int),
    {
        proof {
            use_type_invariant(&*self);
        }
        let width: usize = if extended {
            128
        } else {
            64
        };
        let k: usize = width * (rows as usize);
        let ghost before = self.cells@;
        let mut p: usize = 8192;
        while p > k
            invariant
                k <= p <= 8192,
                binary(before),
                binary(self.cells@),
                forall|q: int| 0 <= q < p ==> self.cells@[q] == before[q],
                forall|q: int| p <= q < 8192 ==> self.cells@[q] == before[q - k],
            decreases p,
        {
            p -= 1;
            self.cells[p] = self.cells[p - k];
        }
        while p > 0
            invariant
                p <= k <= 8192,
                binary(before),
                binary(self.cells@),
                forall|q: int| p <= q < k ==> self.cells@[q] == OFF,
                forall|q: int| k <= q < 8192 ==> self.cells@[q] == before[q - k],
            decreases p,
        {
            p -= 1;
            self.cells[p] = 0;
        }
        assert(self@ =~= scrolled_down(before, extended, rows as int));
    }

    /// Moves every row of the active screen right by [`side_step`] pixels.
    pub fn scroll_right(&mut self, extended: bool)
        ensures
            final(self)@ == scrolled_right(old(self)@, extended),
    {
        proof {
            use_type_invariant(&*self);
        }
        let (width, height, step): (usize, usize, usize) = if extended {
            (128, 64, 4)
        } else {
            (64, 32, 2)
        };
        let end: usize = width * height;
        let ghost before = self.cells@;
        let mut p: usize = end;
        while p > 0
            invariant
                p <= end <= 8192,
                end == screen_cells(extended),
                width == width_of(extended),
                step == side_step(extended),
                binary(before),
                binary(self.cells@),
                forall|q: int| 0 <= q < p ==> self.cells@[q] == before[q],
                forall|q: int| end <= q < 8192 ==> self.cells@[q] == before[q],
                forall|q: int|
                    p <= q < end ==> self.cells@[q] == if q % (width as int) < step {
                        OFF
                    } else {
                        before[q - step]
                    },
            decreases p,
        {
            p -= 1;
            if p % width < step {
                self.cells[p] = 0;
            } else {
                self.cells[p] = self.cells[p - step];
            }
        }
        assert(self@ =~= scrolled_right(before, extended));
    }

    /// Moves every row of the active screen left by [`side_step`] pixels.
    pub fn scroll_left(&mut self, extended: bool)
        ensures
            final(self)@ == scrolled_left(old(self)@, extended),
    {
        proof {
            use_type_invariant(&*self);
        }
        let (width, height, step): (usize, usize, usize) = if extended {
            (128, 64, 4)
        } else {
            (64, 32, 2)
        };
        let end: usize = width * height;
        let ghost before = self.cells@;
        let mut p: usize = 0;
        while p < end
            invariant
                p <= end <= 8192,
                end == screen_cells(extended),
                width == width_of(extended),
                step == side_step(extended),
                binary(before),
                binary(self.cells@),
                forall|q: int| p <= q < 8192 ==> self.cells@[q] == before[q],
                forall|q: int|
                    0 <= q < p ==> self.cells@[q] == if q % (width as int) >= width - step {
                        OFF
                    } else {
                        before[q + step]
                    },
            decreases end - p,
        {
            if p % width >= width - step {
                self.cells[p] = 0;
            } else {
                self.cells[p] = self.cells[p + step];
            }
            p += 1;
        }
        assert(self@ =~= scrolled_left(before, extended));
    }

    /// Draws the sprite that `memory` holds at `index` with its top left
    /// corner at column `vx`, row `vy`: a row count `n` of zero stands for
    /// sixteen rows, which in extended mode are sixteen pixels wide. Every
    /// set pixel toggles the cell it falls on, going round the edges of the
    /// active screen. Returns whether a lit pixel was turned dark.
    pub fn draw(
        &mut self,
        memory: &[u8; 4096],
        index: u16,
        n: u8,
        extended: bool,
        vx: u8,
        vy: u8,
    ) -> (collision: bool)
        requires
            n < 16,
        ensures
            final(self)@ == drawn(
                old(self)@,
                sprite_at(memory@, index as int, n as int, extended),
                extended,
                vx as int,
                vy as int,
            ),
            collision == collides(
                old(self)@,
                sprite_at(memory@, index as int, n as int, extended),
                extended,
                vx as int,
                vy as int,
            ),
    {
        proof {
            use_type_invariant(&*self);
        }
        let (width, height): (usize, usize) = if extended {
            (128, 64)
        } else {
            (64, 32)
        };
        let rows: usize = if n == 0 {
            16
        } else {
            n as usize
        };
        let wide: bool = n == 0 && extended;
        let cols: u16 = if wide {
            16
        } else {
            8
        };
        let top: u16 = if wide {
            0x8000
        } else {
            0x80
        };
        let ghost before = self.cells@;
        let ghost sprite = sprite_at(memory@, index as int, n as int, extended);
        let mut collision = false;
        let mut yline: usize = 0;
        while yline < rows
            invariant
                yline <= rows <= 16,
                width == width_of(extended),
                height == height_of(extended),
                wide == sprite_wide(n as int, extended),
                sprite == sprite_at(memory@, index as int, n as int, extended),
                sprite.rows.len() == rows,
                sprite.cols == cols,
                top == top_bit(cols as int),
                binary(before),
                binary(self.cells@),
                forall|p: int|
                    0 <= p < 8192 ==> self.cells@[p] == if covers_before(
                        sprite,
                        extended,
                        vx as int,
                        vy as int,
                        p,
                        yline as int,
                        0,
                    ) {
                        flipped(before[p])
                    } else {
                        before[p]
                    },
                collision <==> exists|p: int|
                    covers_before(sprite, extended, vx as int, vy as int, p, yline as int, 0)
                        && before[p] == ON,
            decreases rows - yline,
        {
            let bits: u16 = if wide {
                join_bytes(
                    memory[(index as usize + yline * 2) % 4096],
                    memory[(index as usize + yline * 2 + 1) % 4096],
                )
            } else {
                memory[(index as usize + yline) % 4096] as u16
            };
            let mut xline: u16 = 0;
            while xline < cols
                invariant
                    xline <= cols <= 16,
                    yline < rows <= 16,
                    width == width_of(extended),
                    height == height_of(extended),
                    sprite.rows.len() == rows,
                    sprite.cols == cols,
                    top == top_bit(cols as int),
                    bits == sprite.rows[yline as int],
                    binary(before),
                    binary(self.cells@),
                    forall|p: int|
                        0 <= p < 8192 ==> self.cells@[p] == if covers_before(
                            sprite,
                            extended,
                            vx as int,
                            vy as int,
                            p,
                            yline as int,
                            xline as int,
                        ) {
                            flipped(before[p])
                        } else {
                            before[p]
                        },
                    collision <==> exists|p: int|
                        covers_before(
                            sprite,
                            extended,
                            vx as int,
                            vy as int,
                            p,
                            yline as int,
                            xline as int,
                        ) && before[p] == ON,
                decreases cols - xline,
            {
                let pos: usize = (vx as usize + xline as usize) % width + ((vy as usize + yline)
                    % height) * width;
                proof {
                    lemma_cell_offsets(extended, vx as int, vy as int, yline as int, xline as int);
                    lemma_toggle();
                }
                if bits & (top >> xline) != 0 {
                    if self.cells[pos] == 255 {
                        collision = true;
                    }
                    self.cells[pos] = self.cells[pos] ^ 255;
                }
                xline += 1;
            }
            yline += 1;
        }
        assert(self@ =~= drawn(before, sprite, extended, vx as int, vy as int));
        collision
    }
}

/// Toggling a cell with exclusive-or takes it from off to on and back.
proof fn lemma_toggle()
    by (bit_vector)
    ensures
        0u8 ^ 255u8 == 255u8,
        255u8 ^ 255u8 == 0u8,
{
}

} // verus!
