use vstd::prelude::*;
use crate::model::Machine;
use crate::state::RAM_SIZE;
use crate::step::Cpu;
use crate::utils::Dstatus;

verus! {

/// Whether a sprite row has its pixel `col` set, pixel 0 being the leftmost
/// one and the most significant bit.
pub open spec fn sprite_bit(row: u8, col: u8) -> bool {
    row & (0x80u8 >> col) != 0
}

/// Whether the sprite of `n` rows stored at `m.i`, placed with its top left
/// corner at column `m.v[x]`, row `m.v[y]`, has a set pixel on framebuffer
/// cell `cell`. Columns wrap modulo 64 and rows modulo 32; a sprite row whose
/// address lies beyond memory has no pixels.
pub open spec fn sprite_covers(m: Machine, x: int, y: int, n: int, cell: int) -> bool {
    let col = (cell % 64 - m.v[x]) % 64;
    let row = (cell / 64 - m.v[y]) % 32;
    &&& 0 <= cell < 2048
    &&& col < 8
    &&& row < n
    &&& m.i + row < 4096
    &&& sprite_bit(m.ram[m.i + row], col as u8)
}

/// Whether drawing the sprite darkens a cell that was lit.
pub open spec fn sprite_collides(m: Machine, x: int, y: int, n: int) -> bool {
    exists|cell: int| m.screen[cell] && #[trigger] sprite_covers(m, x, y, n, cell)
}

/// The machine after drawing: every cell under a set sprite pixel is
/// inverted, and `VF` is 1 if a lit cell went dark and 0 otherwise.
pub open spec fn draw_spec(m: Machine, x: int, y: int, n: int) -> Machine {
    Machine {
        v: m.v.update(0xF, if sprite_collides(m, x, y, n) { 1u8 } else { 0u8 }),
        screen: Seq::new(2048, |cell: int| m.screen[cell] != sprite_covers(m, x, y, n, cell)),
        ..m
    }
}

/// `sprite_covers`, restricted to the sprite pixels that come before pixel
/// `cols` of row `rows` in drawing order.
#[verifier::opaque]
spec fn covers_before(m: Machine, x: int, y: int, n: int, rows: int, cols: int, cell: int) -> bool {
    let col = (cell % 64 - m.v[x]) % 64;
    let row = (cell / 64 - m.v[y]) % 32;
    sprite_covers(m, x, y, n, cell) && (row < rows || (row == rows && col < cols))
}

/// Whether one of the sprite pixels before pixel `cols` of row `rows` lies
/// on a cell that was lit.
spec fn collides_before(m: Machine, x: int, y: int, n: int, rows: int, cols: int) -> bool {
    exists|cell: int| m.screen[cell] && #[trigger] covers_before(m, x, y, n, rows, cols, cell)
}

/// The flag value that stands for a collision.
spec fn flag_of(collision: bool) -> u8 {
    if collision {
        1
    } else {
        0
    }
}

/// Two drawing positions that have passed the same pixels on every cell have
/// met the same collisions.
proof fn lemma_collides_same(
    m: Machine,
    x: int,
    y: int,
    n: int,
    rows1: int,
    cols1: int,
    rows2: int,
    cols2: int,
)
    requires
        forall|cell: int|
            covers_before(m, x, y, n, rows1, cols1, cell) == covers_before(
                m,
                x,
                y,
                n,
                rows2,
                cols2,
                cell,
            ),
    ensures
        collides_before(m, x, y, n, rows1, cols1) == collides_before(m, x, y, n, rows2, cols2),
{
    if collides_before(m, x, y, n, rows1, cols1) {
        let w = choose|cell: int|
            m.screen[cell] && #[trigger] covers_before(m, x, y, n, rows1, cols1, cell);
        assert(covers_before(m, x, y, n, rows2, cols2, w));
    }
    if collides_before(m, x, y, n, rows2, cols2) {
        let w = choose|cell: int|
            m.screen[cell] && #[trigger] covers_before(m, x, y, n, rows2, cols2, cell);
        assert(covers_before(m, x, y, n, rows1, cols1, w));
    }
}

/// Before the first pixel nothing is covered.
proof fn lemma_draw_start(m: Machine, x: int, y: int, n: int)
    ensures
        forall|cell: int| !covers_before(m, x, y, n, 0, 0, cell),
        !collides_before(m, x, y, n, 0, 0),
{
    reveal(covers_before);
}

/// Behind the last pixel the whole sprite is covered.
proof fn lemma_draw_end(m: Machine, x: int, y: int, n: int)
    ensures
        forall|cell: int| covers_before(m, x, y, n, n, 0, cell) == sprite_covers(m, x, y, n, cell),
        collides_before(m, x, y, n, n, 0) == sprite_collides(m, x, y, n),
{
    reveal(covers_before);
    if collides_before(m, x, y, n, n, 0) {
        let w = choose|cell: int| m.screen[cell] && #[trigger] covers_before(m, x, y, n, n, 0, cell);
        assert(sprite_covers(m, x, y, n, w));
    }
    if sprite_collides(m, x, y, n) {
        let w = choose|cell: int| m.screen[cell] && #[trigger] sprite_covers(m, x, y, n, cell);
        assert(covers_before(m, x, y, n, n, 0, w));
    }
}

/// The end of one row is the start of the next.
proof fn lemma_row_done(m: Machine, x: int, y: int, n: int, row: int)
    ensures
        forall|cell: int|
            covers_before(m, x, y, n, row, 8, cell) == covers_before(m, x, y, n, row + 1, 0, cell),
        collides_before(m, x, y, n, row, 8) == collides_before(m, x, y, n, row + 1, 0),
{
    reveal(covers_before);
    lemma_collides_same(m, x, y, n, row, 8, row + 1, 0);
}

/// A row stored beyond memory covers nothing.
proof fn lemma_row_skipped(m: Machine, x: int, y: int, n: int, row: int)
    requires
        m.i + row >= 4096,
    ensures
        forall|cell: int|
            covers_before(m, x, y, n, row, 0, cell) == covers_before(m, x, y, n, row + 1, 0, cell),
        collides_before(m, x, y, n, row, 0) == collides_before(m, x, y, n, row + 1, 0),
{
    reveal(covers_before);
    lemma_collides_same(m, x, y, n, row, 0, row + 1, 0);
}

/// Passing pixel `col` of row `row` adds the cell under it if the pixel is
/// set, and no other cell.
proof fn lemma_pixel_done(m: Machine, x: int, y: int, n: int, row: int, col: int, idx: int)
    requires
        0 <= row < n <= 32,
        0 <= col < 8,
        m.i + row < 4096,
        idx == (m.v[x] + col) % 64 + 64 * ((m.v[y] + row) % 32),
    ensures
        0 <= idx < 2048,
        !covers_before(m, x, y, n, row, col, idx),
        covers_before(m, x, y, n, row, col + 1, idx) == sprite_bit(m.ram[m.i + row], col as u8),
        forall|cell: int|
            cell != idx ==> covers_before(m, x, y, n, row, col + 1, cell) == covers_before(
                m,
                x,
                y,
                n,
                row,
                col,
                cell,
            ),
        collides_before(m, x, y, n, row, col + 1) == (collides_before(m, x, y, n, row, col) || (
        m.screen[idx] && sprite_bit(m.ram[m.i + row], col as u8))),
{
    reveal(covers_before);
    let vx = m.v[x] as int;
    let vy = m.v[y] as int;
    let cx = (vx + col) % 64;
    let cy = (vy + row) % 32;
    assert(idx % 64 == cx && idx / 64 == cy);
    assert((cx - vx) % 64 == col);
    assert((cy - vy) % 32 == row);
    assert forall|cell: int| cell != idx implies covers_before(m, x, y, n, row, col + 1, cell)
        == covers_before(m, x, y, n, row, col, cell) by {
        if 0 <= cell < 2048 && (cell % 64 - vx) % 64 == col && (cell / 64 - vy) % 32 == row {
            assert(cell % 64 == cx);
            assert(cell / 64 == cy);
        }
    }
    if collides_before(m, x, y, n, row, col) {
        let w = choose|cell: int|
            m.screen[cell] && #[trigger] covers_before(m, x, y, n, row, col, cell);
        assert(covers_before(m, x, y, n, row, col + 1, w));
    }
    if m.screen[idx] && sprite_bit(m.ram[m.i + row], col as u8) {
        assert(covers_before(m, x, y, n, row, col + 1, idx));
    }
    if collides_before(m, x, y, n, row, col + 1) {
        let w = choose|cell: int|
            m.screen[cell] && #[trigger] covers_before(m, x, y, n, row, col + 1, cell);
        if w != idx {
            assert(covers_before(m, x, y, n, row, col, w));
        }
    }
}

impl Cpu {
    /// Draws the sprite of `height` rows stored at the index register, with
    /// its top left corner at column `V[x_idx]` modulo 64 and row `V[y_idx]`
    /// modulo 32. Set sprite pixels invert the cells under them, wrapping
    /// round the edges of the screen. `VF` becomes 1 if a lit cell went dark
    /// and 0 otherwise. Rows stored beyond the end of memory are left out.
    pub fn draw_sprite(&mut self, x_idx: usize, y_idx: usize, height: usize)
        requires
            x_idx < 16,
            y_idx < 16,
            height < 16,
        ensures
            final(self)@ == draw_spec(
                old(self)@,
                x_idx as int,
                y_idx as int,
                height as int,
            ),
    {
        let ghost m0 = old(self)@;
        let ghost x = x_idx as int;
        let ghost y = y_idx as int;
        let ghost n = height as int;
        let x_coord: usize = self.state.v_reg[x_idx] as usize;
        let y_coord: usize = self.state.v_reg[y_idx] as usize;
        self.state.v_reg[0xF] = 0;
        proof {
            lemma_draw_start(m0, x, y, n);
        }
        let mut y_line: usize = 0;
        while y_line < height
            invariant
                y_line <= height < 16,
                x_coord == m0.v[x],
                y_coord == m0.v[y],
                m0 == old(self)@,
                n == height,
                self.state.ram == old(self).state.ram,
                self.state.stack == old(self).state.stack,
                self.state.sound_tmr == old(self).state.sound_tmr,
                self.state.delay_tmr == old(self).state.delay_tmr,
                self.state.i_reg == old(self).state.i_reg,
                self.state.sp == old(self).state.sp,
                self.state.pc == old(self).state.pc,
                self.state.keys == old(self).state.keys,
                forall|r: int| 0 <= r < 15 ==> self.state.v_reg[r] == old(self).state.v_reg[r],
                self.state.v_reg[15] == flag_of(collides_before(m0, x, y, n, y_line as int, 0)),
                forall|cell: int|
                    0 <= cell < 2048 ==> (self.state.screen[cell] == Dstatus::On) == (
                    m0.screen[cell] != covers_before(m0, x, y, n, y_line as int, 0, cell)),
            decreases height - y_line,
        {
            let addr: usize = self.state.i_reg as usize + y_line;
            if addr < RAM_SIZE {
                let pixels: u8 = self.state.ram[addr];
                let mut x_line: usize = 0;
                while x_line < 8
                    invariant
                        x_line <= 8,
                        y_line < height < 16,
                        x_coord == m0.v[x],
                        y_coord == m0.v[y],
                        m0 == old(self)@,
                        n == height,
                        addr == m0.i + y_line,
                        addr < 4096,
                        pixels == m0.ram[addr as int],
                        self.state.ram == old(self).state.ram,
                        self.state.stack == old(self).state.stack,
                        self.state.sound_tmr == old(self).state.sound_tmr,
                        self.state.delay_tmr == old(self).state.delay_tmr,
                        self.state.i_reg == old(self).state.i_reg,
                        self.state.sp == old(self).state.sp,
                        self.state.pc == old(self).state.pc,
                        self.state.keys == old(self).state.keys,
                        forall|r: int|
                            0 <= r < 15 ==> self.state.v_reg[r] == old(self).state.v_reg[r],
                        self.state.v_reg[15] == flag_of(
                            collides_before(m0, x, y, n, y_line as int, x_line as int),
                        ),
                        forall|cell: int|
                            0 <= cell < 2048 ==> (self.state.screen[cell] == Dstatus::On) == (
                            m0.screen[cell] != covers_before(
                                m0,
                                x,
                                y,
                                n,
                                y_line as int,
                                x_line as int,
                                cell,
                            )),
                    decreases 8 - x_line,
                {
                    let col: usize = (x_coord + x_line) % 64;
                    let row: usize = (y_coord + y_line) % 32;
                    let idx: usize = col + 64 * row;
                    proof {
                        lemma_pixel_done(m0, x, y, n, y_line as int, x_line as int, idx as int);
                    }
                    if (pixels & (0x80u8 >> (x_line as u8))) != 0 {
                        if self.state.screen[idx] == Dstatus::On {
                            self.state.v_reg[0xF] = 1;
                            self.state.screen[idx] = Dstatus::Off;
                        } else {
                            self.state.screen[idx] = Dstatus::On;
                        }
                    }
                    x_line = x_line + 1;
                }
                proof {
                    lemma_row_done(m0, x, y, n, y_line as int);
                }
            } else {
                proof {
                    lemma_row_skipped(m0, x, y, n, y_line as int);
                }
            }
            y_line = y_line + 1;
        }
        proof {
            lemma_draw_end(m0, x, y, n);
        }
    }
}

} // verus!
