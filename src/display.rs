//! The 64 x 32 monochrome pixel grid and the XOR sprite blit.

use vstd::prelude::*;
use vstd::arithmetic::div_mod::{
    lemma_add_mod_noop,
    lemma_fundamental_div_mod_converse,
    lemma_mod_bound,
    lemma_mod_twice,
    lemma_small_mod,
    lemma_sub_mod_noop,
};

verus! {

/// Pixels per row.
pub const WIDTH: usize = 64;

/// Pixel rows.
pub const HEIGHT: usize = 32;

/// Pixels in the grid.
pub const CELLS: usize = 2048;

/// The value of an unlit pixel in a frame buffer (black).
pub const OFF_RGB: u32 = 0x000000;

/// The grid, row by row: pixel `(px, py)` is cell `py * 64 + px`.
pub struct Display {
    pub cells: [bool; 2048],
}

impl View for Display {
    type V = Seq<bool>;

    open spec fn view(&self) -> Seq<bool> {
        self.cells@
    }
}

/// Column of cell `i`.
pub open spec fn column_of(i: int) -> int {
    i % 64
}

/// Row of cell `i`.
pub open spec fn row_of(i: int) -> int {
    i / 64
}

/// Bit `c` of a sprite row, counted from the most significant bit: column `c`
/// of the row, left to right.
pub open spec fn sprite_bit(row: u8, c: int) -> bool {
    (row >> ((7 - c) as u8)) & 1u8 == 1u8
}

/// How many rows below `y0` screen row `py` lies, wrapping at the bottom.
pub open spec fn row_offset(y0: u8, py: int) -> int {
    (py - y0) % 32
}

/// How many columns right of `x0` screen column `px` lies, wrapping at the
/// right edge.
pub open spec fn col_offset(x0: u8, px: int) -> int {
    (px - x0) % 64
}

/// Whether a set bit of `sprite`, drawn with its top left corner at
/// `(x0, y0)`, lands on cell `i`: row `r` and column `c` of the sprite land
/// on `((x0 + c) mod 64, (y0 + r) mod 32)`.
pub open spec fn covers(sprite: Seq<u8>, x0: u8, y0: u8, i: int) -> bool {
    let r = row_offset(y0, row_of(i));
    let c = col_offset(x0, column_of(i));
    r < sprite.len() && c < 8 && sprite_bit(sprite[r], c)
}

/// The grid after drawing `sprite` at `(x0, y0)`: each covered cell flips.
pub open spec fn blit(cells: Seq<bool>, sprite: Seq<u8>, x0: u8, y0: u8) -> Seq<bool> {
    Seq::new(cells.len(), |i: int| cells[i] != covers(sprite, x0, y0, i))
}

/// Whether drawing `sprite` at `(x0, y0)` turns some lit cell off.
pub open spec fn collides(cells: Seq<bool>, sprite: Seq<u8>, x0: u8, y0: u8) -> bool {
    exists|i: int| 0 <= i < cells.len() && #[trigger] cells[i] && covers(sprite, x0, y0, i)
}

/// Whether sprite position `(rr, cc)` comes before `(r, c)` in row-major order.
spec fn precedes(rr: int, cc: int, r: int, c: int) -> bool {
    rr < r || (rr == r && cc < c)
}

/// Whether cell `i` is covered from a sprite position before `(r, c)`.
spec fn covered_before(sprite: Seq<u8>, x0: u8, y0: u8, i: int, r: int, c: int) -> bool {
    covers(sprite, x0, y0, i) && precedes(
        row_offset(y0, row_of(i)),
        col_offset(x0, column_of(i)),
        r,
        c,
    )
}

/// The grid once the sprite positions before `(r, c)` have been drawn.
spec fn blit_until(cells: Seq<bool>, sprite: Seq<u8>, x0: u8, y0: u8, r: int, c: int) -> Seq<bool> {
    Seq::new(cells.len(), |i: int| cells[i] != covered_before(sprite, x0, y0, i, r, c))
}

/// Whether a sprite position before `(r, c)` turns a lit cell off.
spec fn collides_until(cells: Seq<bool>, sprite: Seq<u8>, x0: u8, y0: u8, r: int, c: int) -> bool {
    exists|i: int|
        0 <= i < cells.len() && #[trigger] cells[i] && covered_before(sprite, x0, y0, i, r, c)
}

/// Stepping `k` places from `base` and measuring back gives `k`.
proof fn lemma_offset_round_trip(base: int, k: int, m: int)
    requires
        0 <= k < m,
    ensures
        (((base + k) % m) - base) % m == k,
{
    lemma_sub_mod_noop(base + k, base, m);
    lemma_mod_twice(base + k, m);
    lemma_sub_mod_noop((base + k) % m, base, m);
    lemma_small_mod(k as nat, m as nat);
}

/// Measuring from `base` to `p` and stepping back gives `p`.
proof fn lemma_position_round_trip(base: int, p: int, m: int)
    requires
        0 <= p < m,
    ensures
        (base + (p - base) % m) % m == p,
{
    lemma_add_mod_noop(base, (p - base) % m, m);
    lemma_mod_twice(p - base, m);
    lemma_add_mod_noop(base, p - base, m);
    lemma_small_mod(p as nat, m as nat);
}

/// Cell `py * 64 + px` lies in column `px` of row `py`.
proof fn lemma_cell_coordinates(px: int, py: int)
    requires
        0 <= px < 64,
        0 <= py < 32,
    ensures
        0 <= py * 64 + px < 2048,
        column_of(py * 64 + px) == px,
        row_of(py * 64 + px) == py,
{
    lemma_fundamental_div_mod_converse(py * 64 + px, 64, py, px);
}

/// Sprite position `(r, c)` lands on cell `i` and on no other.
proof fn lemma_landing_cell(x0: u8, y0: u8, r: int, c: int, i: int)
    requires
        0 <= r < 32,
        0 <= c < 8,
        i == ((y0 + r) % 32) * 64 + (x0 + c) % 64,
    ensures
        0 <= i < 2048,
        row_offset(y0, row_of(i)) == r,
        col_offset(x0, column_of(i)) == c,
        forall|j: int|
            0 <= j < 2048 && row_offset(y0, row_of(j)) == r && col_offset(x0, column_of(j)) == c
                ==> j == i,
{
    lemma_mod_bound(y0 + r, 32);
    lemma_mod_bound(x0 + c, 64);
    lemma_cell_coordinates((x0 + c) % 64, (y0 + r) % 32);
    lemma_offset_round_trip(y0 as int, r, 32);
    lemma_offset_round_trip(x0 as int, c, 64);
    assert forall|j: int|
        0 <= j < 2048 && row_offset(y0, row_of(j)) == r && col_offset(x0, column_of(j))
            == c implies j == i by {
        lemma_fundamental_div_mod_converse(j, 64, j / 64, j % 64);
        lemma_mod_bound(j, 64);
        lemma_position_round_trip(y0 as int, j / 64, 32);
        lemma_position_round_trip(x0 as int, j % 64, 64);
    }
}

impl Display {
    /// A grid with every pixel off.
    pub fn new() -> (d: Display)
        ensures
            d@ == Seq::new(2048, |i: int| false),
    {
        let d = Display { cells: [false; 2048] };
        assert(d@ =~= Seq::new(2048, |i: int| false));
        d
    }

    /// Turns every pixel off.
    pub fn clear(&mut self)
        ensures
            final(self)@ == Seq::new(2048, |i: int| false),
    {
        self.cells = [false; 2048];
        assert(self@ =~= Seq::new(2048, |i: int| false));
    }

    /// Whether pixel `(px, py)` is lit.
    pub fn pixel(&self, px: usize, py: usize) -> (lit: bool)
        requires
            px < WIDTH,
            py < HEIGHT,
        ensures
            lit == self@[py * 64 + px],
    {
        self.cells[py * 64 + px]
    }

    /// Draws `sprite`, one byte per row and the most significant bit on the
    /// left, with its top left corner at `(x0, y0)`. Each pixel under a set
    /// bit flips; both axes wrap. Returns whether some lit pixel went off.
    pub fn draw_sprite(&mut self, x0: u8, y0: u8, sprite: &[u8]) -> (collision: bool)
        requires
            sprite@.len() <= HEIGHT,
        ensures
            final(self)@ == blit(old(self)@, sprite@, x0, y0),
            collision == collides(old(self)@, sprite@, x0, y0),
    {
        let ghost start = self@;
        let mut collision = false;
        let mut r: usize = 0;
        assert(self@ =~= blit_until(start, sprite@, x0, y0, 0, 0));
        while r < sprite.len()
            invariant
                r <= sprite@.len() <= 32,
                start.len() == 2048,
                self@ == blit_until(start, sprite@, x0, y0, r as int, 0),
                collision == collides_until(start, sprite@, x0, y0, r as int, 0),
            decreases sprite@.len() - r,
        {
            let row = sprite[r];
            let py = (y0 as usize + r) % 32;
            let mut c: usize = 0;
            while c < 8
                invariant
                    r < sprite@.len() <= 32,
                    c <= 8,
                    row == sprite@[r as int],
                    py == (y0 + r) % 32,
                    start.len() == 2048,
                    self@ == blit_until(start, sprite@, x0, y0, r as int, c as int),
                    collision == collides_until(start, sprite@, x0, y0, r as int, c as int),
                decreases 8 - c,
            {
                let px = (x0 as usize + c) % 64;
                let bit = (row >> (7 - c as u8)) & 1 == 1;
                let idx = py * 64 + px;
                proof {
                    lemma_landing_cell(x0, y0, r as int, c as int, idx as int);
                    assert(covers(sprite@, x0, y0, idx as int) == bit);
                }
                let lit = self.cells[idx];
                let ghost before = self@;
                let ghost was_colliding = collision;
                if bit && lit {
                    collision = true;
                }
                self.cells[idx] = lit != bit;
                proof {
                    let next = blit_until(start, sprite@, x0, y0, r as int, c + 1);
                    assert(lit == start[idx as int]);
                    assert(self@ =~= next);
                    if collision {
                        if was_colliding {
                            let j = choose|j: int|
                                0 <= j < start.len() && #[trigger] start[j] && covered_before(
                                    sprite@,
                                    x0,
                                    y0,
                                    j,
                                    r as int,
                                    c as int,
                                );
                            assert(covered_before(sprite@, x0, y0, j, r as int, c + 1));
                        } else {
                            assert(start[idx as int] && covered_before(
                                sprite@,
                                x0,
                                y0,
                                idx as int,
                                r as int,
                                c + 1,
                            ));
                        }
                    } else {
                        assert forall|j: int|
                            0 <= j < start.len() && #[trigger] start[j] implies !covered_before(
                            sprite@,
                            x0,
                            y0,
                            j,
                            r as int,
                            c + 1,
                        ) by {
                            if covered_before(sprite@, x0, y0, j, r as int, c + 1) {
                                assert(covered_before(sprite@, x0, y0, j, r as int, c as int) || j
                                    == idx);
                            }
                        }
                    }
                }
                c = c + 1;
            }
            proof {
                assert(blit_until(start, sprite@, x0, y0, r as int, 8) =~= blit_until(
                    start,
                    sprite@,
                    x0,
                    y0,
                    r + 1,
                    0,
                ));
                assert forall|j: int| 0 <= j < start.len() implies covered_before(
                    sprite@,
                    x0,
                    y0,
                    j,
                    r as int,
                    8,
                ) == covered_before(sprite@, x0, y0, j, r + 1, 0) by {}
            }
            r = r + 1;
        }
        proof {
            assert(blit_until(start, sprite@, x0, y0, r as int, 0) =~= blit(start, sprite@, x0, y0));
            assert forall|j: int| 0 <= j < start.len() implies covered_before(
                sprite@,
                x0,
                y0,
                j,
                r as int,
                0,
            ) == covers(sprite@, x0, y0, j) by {}
        }
        collision
    }

    /// The grid as `0xRRGGBB` values, row by row: `on` for a lit pixel and
    /// black for an unlit one.
    pub fn frame_buffer(&self, on: u32) -> (buf: Vec<u32>)
        ensures
            buf@ == Seq::new(2048, |i: int| if self@[i] { on } else { OFF_RGB }),
    {
        let mut buf: Vec<u32> = Vec::with_capacity(CELLS);
        let mut i: usize = 0;
        while i < CELLS
            invariant
                i <= 2048,
                buf@ == Seq::new(i as nat, |k: int| if self@[k] { on } else { OFF_RGB }),
            decreases 2048 - i,
        {
            if self.cells[i] {
                buf.push(on);
            } else {
                buf.push(OFF_RGB);
            }
            i = i + 1;
            assert(buf@ =~= Seq::new(i as nat, |k: int| if self@[k] { on } else { OFF_RGB }));
        }
        buf
    }
}

} // verus!
