//! The display buffer: 32 rows of 64 monochrome pixels, changed only by
//! clearing it and by drawing sprites onto it with exclusive or.

use vstd::prelude::*;

verus! {

/// Pixels in a row.
pub const WIDTH: usize = 64;

/// Rows of the display.
pub const HEIGHT: usize = 32;

/// A display is 32 rows of 64 pixels each.
pub open spec fn well_shaped(d: Seq<Seq<bool>>) -> bool {
    &&& d.len() == 32
    &&& forall|r: int| 0 <= r < 32 ==> #[trigger] d[r].len() == 64
}

/// The display with every pixel off.
pub open spec fn blank() -> Seq<Seq<bool>> {
    Seq::new(32, |r: int| Seq::new(64, |c: int| false))
}

/// Whether column `col` of a sprite row is set: the row's byte holds its
/// leftmost pixel in its highest bit.
pub open spec fn sprite_bit(byte: u8, col: int) -> bool {
    if col == 0 {
        byte / 128 % 2 == 1
    } else if col == 1 {
        byte / 64 % 2 == 1
    } else if col == 2 {
        byte / 32 % 2 == 1
    } else if col == 3 {
        byte / 16 % 2 == 1
    } else if col == 4 {
        byte / 8 % 2 == 1
    } else if col == 5 {
        byte / 4 % 2 == 1
    } else if col == 6 {
        byte / 2 % 2 == 1
    } else {
        byte % 2 == 1
    }
}

/// A display row after the sprite row `byte` was drawn with its left edge at
/// column `x0`: the eight pixels under the sprite flip where the sprite is set.
pub open spec fn xor_row(row: Seq<bool>, x0: int, byte: u8) -> Seq<bool> {
    Seq::new(
        64,
        |c: int|
            if x0 <= c < x0 + 8 {
                row[c] != sprite_bit(byte, c - x0)
            } else {
                row[c]
            },
    )
}

/// Whether drawing the sprite row `byte` at column `x0` turns a lit pixel of
/// `row` off.
pub open spec fn row_erased(row: Seq<bool>, x0: int, byte: u8) -> bool {
    row_erased_before(row, x0, byte, 8)
}

/// Whether one of the first `cols` pixels of the sprite row `byte`, drawn at
/// column `x0`, turns a lit pixel of `row` off.
pub open spec fn row_erased_before(row: Seq<bool>, x0: int, byte: u8, cols: int) -> bool {
    exists|c: int| x0 <= c < x0 + cols && #[trigger] row[c] && sprite_bit(byte, c - x0)
}

/// The display after `sprite` was drawn with its top left corner at column
/// `x0` and row `y0`.
pub open spec fn drawn(d: Seq<Seq<bool>>, x0: int, y0: int, sprite: Seq<u8>) -> Seq<Seq<bool>> {
    Seq::new(
        32,
        |r: int|
            if y0 <= r < y0 + sprite.len() {
                xor_row(d[r], x0, sprite[r - y0])
            } else {
                d[r]
            },
    )
}

/// Whether drawing `sprite` at `(x0, y0)` turns any lit pixel off.
pub open spec fn erased(d: Seq<Seq<bool>>, x0: int, y0: int, sprite: Seq<u8>) -> bool {
    exists|k: int| 0 <= k < sprite.len() && row_erased(#[trigger] d[y0 + k], x0, sprite[k])
}

/// Whether a sprite of `rows` rows with its corner at `(x0, y0)` lies on the
/// display. A sprite without rows touches no pixel and always does.
pub open spec fn fits(x0: int, y0: int, rows: int) -> bool {
    rows == 0 || (x0 + 8 <= 64 && y0 + rows <= 32)
}

/// The ten characters that clear a terminal and put its cursor in the top
/// left corner: `ESC [ 2 J`, then `ESC [ 1 ; 1 H`.
pub open spec fn clear_sequence() -> Seq<char> {
    seq!['\u{1B}', '[', '2', 'J', '\u{1B}', '[', '1', ';', '1', 'H']
}

/// The rows of the display as text: one line of 64 characters per row, a
/// full block for a lit pixel and a space for a dark one, each line ended by
/// a line feed.
pub open spec fn rows_text(d: Seq<Seq<bool>>) -> Seq<char> {
    Seq::new(
        32 * 65,
        |k: int|
            if k % 65 == 64 {
                '\n'
            } else if d[k / 65][k % 65] {
                '\u{2588}'
            } else {
                ' '
            },
    )
}

/// The display as a terminal shows it: the clear sequence, then the rows.
pub open spec fn text(d: Seq<Seq<bool>>) -> Seq<char> {
    clear_sequence() + rows_text(d)
}

/// The display buffer.
pub struct Display {
    pixels: [[bool; 64]; 32],
}

impl View for Display {
    type V = Seq<Seq<bool>>;

    closed spec fn view(&self) -> Seq<Seq<bool>> {
        Seq::new(32, |r: int| self.pixels@[r]@)
    }
}

impl Display {
    /// A dark display.
    pub fn new() -> (d: Display)
        ensures
            d@ == blank(),
    {
        let d = Display { pixels: [[false; 64]; 32] };
        assert(d@ =~~= blank());
        d
    }

    /// Turns every pixel off.
    pub fn clear(&mut self)
        ensures
            final(self)@ == blank(),
    {
        self.pixels = [[false; 64]; 32];
        assert(self@ =~~= blank());
    }

    /// The pixel in column `x` of row `y`.
    pub fn pixel(&self, x: usize, y: usize) -> (on: bool)
        requires
            x < 64,
            y < 32,
        ensures
            on == self@[y as int][x as int],
    {
        self.pixels[y][x]
    }

    /// Draws `sprite`, one byte per row, with its top left corner at column
    /// `x0` and row `y0`, and says whether a lit pixel went dark.
    pub fn draw(&mut self, x0: usize, y0: usize, sprite: &[u8]) -> (hit: bool)
        requires
            x0 + 8 <= 64,
            y0 + sprite@.len() <= 32,
        ensures
            final(self)@ == drawn(old(self)@, x0 as int, y0 as int, sprite@),
            hit == erased(old(self)@, x0 as int, y0 as int, sprite@),
    {
        let rows: usize = sprite.len();
        let mut hit: bool = false;
        let mut i: usize = 0;
        while i < rows
            invariant
                i <= rows,
                rows == sprite@.len(),
                x0 + 8 <= 64,
                y0 + rows <= 32,
                self@ == drawn(old(self)@, x0 as int, y0 as int, sprite@.take(i as int)),
                hit == erased(old(self)@, x0 as int, y0 as int, sprite@.take(i as int)),
            decreases rows - i,
        {
            let byte: u8 = sprite[i];
            let ghost before = self@;
            let row_hit = self.draw_row(x0, y0 + i, byte);
            proof {
                let d = old(self)@;
                let done = sprite@.take(i as int);
                let next = sprite@.take(i + 1);
                assert(before[y0 + i] == d[y0 + i]);
                assert(self@ =~= drawn(d, x0 as int, y0 as int, next));
                if erased(d, x0 as int, y0 as int, done) {
                    let k = choose|k: int|
                        0 <= k < done.len() && row_erased(#[trigger] d[y0 + k], x0 as int, done[k]);
                    assert(row_erased(d[y0 + k], x0 as int, next[k]));
                }
                if row_hit {
                    assert(row_erased(d[y0 + i], x0 as int, next[i as int]));
                }
                if erased(d, x0 as int, y0 as int, next) {
                    let k = choose|k: int|
                        0 <= k < next.len() && row_erased(#[trigger] d[y0 + k], x0 as int, next[k]);
                    if k < i {
                        assert(row_erased(d[y0 + k], x0 as int, done[k]));
                    }
                }
            }
            hit = hit || row_hit;
            i += 1;
        }
        proof {
            assert(sprite@.take(rows as int) =~= sprite@);
        }
        hit
    }

    /// Draws one sprite row with its left edge at column `x0` of row `y`.
    fn draw_row(&mut self, x0: usize, y: usize, byte: u8) -> (hit: bool)
        requires
            x0 + 8 <= 64,
            y < 32,
        ensures
            final(self)@ == old(self)@.update(
                y as int,
                xor_row(old(self)@[y as int], x0 as int, byte),
            ),
            hit == row_erased(old(self)@[y as int], x0 as int, byte),
    {
        let ghost row0 = self@[y as int];
        let mut hit: bool = false;
        let mut j: usize = 0;
        while j < 8
            invariant
                j <= 8,
                x0 + 8 <= 64,
                y < 32,
                row0 == old(self)@[y as int],
                forall|r: int| 0 <= r < 32 && r != y ==> #[trigger] self@[r] == old(self)@[r],
                forall|c: int|
                    0 <= c < 64 ==> #[trigger] self@[y as int][c] == if x0 <= c < x0 + j {
                        row0[c] != sprite_bit(byte, c - x0)
                    } else {
                        row0[c]
                    },
                hit == row_erased_before(row0, x0 as int, byte, j as int),
            decreases 8 - j,
        {
            let ghost prev = self@;
            let shift: u8 = (7 - j) as u8;
            let bit: bool = byte & (1u8 << shift) != 0;
            proof {
                lemma_sprite_bit(byte, shift);
            }
            let lit: bool = self.pixels[y][x0 + j];
            assert(lit == prev[y as int][x0 + j]);
            if lit && bit {
                hit = true;
            }
            self.pixels[y][x0 + j] = lit != bit;
            proof {
                assert forall|r: int| 0 <= r < 32 && r != y implies #[trigger] self@[r]
                    == old(self)@[r] by {
                    assert(self@[r] == prev[r]);
                }
                assert forall|c: int| 0 <= c < 64 implies #[trigger] self@[y as int][c] == if x0
                    <= c < x0 + j + 1 {
                    row0[c] != sprite_bit(byte, c - x0)
                } else {
                    row0[c]
                } by {
                    if c != x0 + j {
                        assert(self@[y as int][c] == prev[y as int][c]);
                    }
                }
                if row_erased_before(row0, x0 as int, byte, j as int) {
                    let c = choose|c: int|
                        x0 <= c < x0 + j && #[trigger] row0[c] && sprite_bit(byte, c - x0);
                    assert(row0[c]);
                }
                if lit && bit {
                    assert(row0[x0 + j]);
                }
                if row_erased_before(row0, x0 as int, byte, j + 1) {
                    let c = choose|c: int|
                        x0 <= c < x0 + j + 1 && #[trigger] row0[c] && sprite_bit(byte, c - x0);
                    if c < x0 + j {
                        assert(row0[c]);
                    }
                }
            }
            j += 1;
        }
        proof {
            assert(self@[y as int] =~= xor_row(row0, x0 as int, byte));
            assert(self@ =~= old(self)@.update(y as int, xor_row(row0, x0 as int, byte)));
        }
        hit
    }

    /// The text that shows the display on a terminal: the sequence that
    /// clears the terminal and homes the cursor, then the rows, top to
    /// bottom.
    pub fn blit(&self) -> (out: Vec<char>)
        ensures
            out@ == text(self@),
    {
        let mut out: Vec<char> = Vec::new();
        out.push('\u{1B}');
        out.push('[');
        out.push('2');
        out.push('J');
        out.push('\u{1B}');
        out.push('[');
        out.push('1');
        out.push(';');
        out.push('1');
        out.push('H');
        assert(out@ =~= clear_sequence());
        let mut y: usize = 0;
        while y < 32
            invariant
                y <= 32,
                out@.len() == 10 + y * 65,
                out@.take(10) == clear_sequence(),
                forall|k: int| 0 <= k < y * 65 ==> out@[10 + k] == rows_text(self@)[k],
            decreases 32 - y,
        {
            let mut x: usize = 0;
            while x < 64
                invariant
                    y < 32,
                    x <= 64,
                    out@.len() == 10 + y * 65 + x,
                    out@.take(10) == clear_sequence(),
                    forall|k: int|
                        0 <= k < y * 65 + x ==> out@[10 + k] == rows_text(self@)[k],
                decreases 64 - x,
            {
                let ghost k = y * 65 + x;
                let ghost before = out@;
                assert(k / 65 == y && k % 65 == x);
                if self.pixels[y][x] {
                    out.push('\u{2588}');
                } else {
                    out.push(' ');
                }
                assert(out@.take(10) =~= before.take(10));
                x += 1;
            }
            let ghost k = y * 65 + 64;
            let ghost before = out@;
            assert(k / 65 == y && k % 65 == 64);
            out.push('\n');
            assert(out@.take(10) =~= before.take(10));
            y += 1;
        }
        assert(out@ =~= text(self@)) by {
            assert(out@.len() == 2090);
            assert forall|k: int| 0 <= k < 2090 implies out@[k] == text(self@)[k] by {
                if k < 10 {
                    assert(out@[k] == out@.take(10)[k]);
                } else {
                    assert(out@[10 + (k - 10)] == rows_text(self@)[k - 10]);
                }
            }
        }
        out
    }
}

/// The mask `1 << shift` picks from a sprite row the bit of column
/// `7 - shift`.
proof fn lemma_sprite_bit(byte: u8, shift: u8)
    requires
        shift < 8,
    ensures
        (byte & (1u8 << shift) != 0) == sprite_bit(byte, 7 - shift),
{
    assert(shift < 8 ==> ((byte & (1u8 << shift) != 0) == if shift == 7 {
        byte / 128 % 2 == 1
    } else if shift == 6 {
        byte / 64 % 2 == 1
    } else if shift == 5 {
        byte / 32 % 2 == 1
    } else if shift == 4 {
        byte / 16 % 2 == 1
    } else if shift == 3 {
        byte / 8 % 2 == 1
    } else if shift == 2 {
        byte / 4 % 2 == 1
    } else if shift == 1 {
        byte / 2 % 2 == 1
    } else {
        byte % 2 == 1
    })) by (bit_vector);
}

} // verus!
