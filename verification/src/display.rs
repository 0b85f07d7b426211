//! The 64x32 monochrome display and its XOR compositing.

use crate::text::push_char;
use vstd::prelude::*;

verus! {

/// The blank screen: every pixel off.
pub open spec fn blank() -> Seq<bool> {
    Seq::new(2048, |k: int| false)
}

/// Whether bit `col` of a sprite row is set, counting columns from the left,
/// so that column 0 is the most significant bit.
pub open spec fn sprite_bit(byte: u8, col: int) -> bool {
    (byte >> ((7 - col) as u8)) & 1 == 1
}

/// The column of a sprite whose left end is at column `x` that falls on the
/// pixel at row-major position `k`, columns wrapping within the row.
pub open spec fn sprite_col(x: int, k: int) -> int {
    (k % 64 - x) % 64
}

/// Whether a sprite row drawn with its left end at column `x` of row `y`
/// lights the pixel at row-major position `k`. Columns wrap within the row
/// and the row wraps within the height of the screen.
pub open spec fn row_covers(byte: u8, x: int, y: int, k: int) -> bool {
    k / 64 == y % 32 && sprite_col(x, k) < 8 && sprite_bit(byte, sprite_col(x, k))
}

/// The screen after a sprite row is XORed onto it.
pub open spec fn draw_byte_pixels(pixels: Seq<bool>, byte: u8, x: int, y: int) -> Seq<bool> {
    Seq::new(2048, |k: int| pixels[k] != row_covers(byte, x, y, k))
}

/// Whether XORing a sprite row onto the screen turns a lit pixel off.
pub open spec fn byte_collides(pixels: Seq<bool>, byte: u8, x: int, y: int) -> bool {
    exists|k: int| 0 <= k < 2048 && pixels[k] && #[trigger] row_covers(byte, x, y, k)
}

/// Whether a sprite drawn with its top left corner at column `x` of row `y`
/// lights the pixel at row-major position `k`. Columns wrap within the row
/// and rows wrap within the height of the screen. For sprites of at most 32
/// rows, so that no two rows fall on one row of the screen.
pub open spec fn sprite_covers(rows: Seq<u8>, x: int, y: int, k: int) -> bool {
    let r = (k / 64 - y) % 32;
    r < rows.len() && sprite_col(x, k) < 8 && sprite_bit(rows[r], sprite_col(x, k))
}

/// The screen after a sprite is XORed onto it.
pub open spec fn draw_sprite_pixels(pixels: Seq<bool>, rows: Seq<u8>, x: int, y: int) -> Seq<
    bool,
> {
    Seq::new(2048, |k: int| pixels[k] != sprite_covers(rows, x, y, k))
}

/// Whether XORing a sprite onto the screen turns a lit pixel off.
pub open spec fn sprite_collides(pixels: Seq<bool>, rows: Seq<u8>, x: int, y: int) -> bool {
    exists|k: int| 0 <= k < 2048 && pixels[k] && #[trigger] sprite_covers(rows, x, y, k)
}

/// Drawing the first `row + 1` rows of a sprite is drawing its first `row`
/// rows and then XORing the next row onto the screen, one row further down;
/// and it turns a lit pixel off exactly if one of the two does.
pub proof fn lemma_draw_next_row(pixels: Seq<bool>, rows: Seq<u8>, row: int, x: int, y: int)
    requires
        pixels.len() == 2048,
        0 <= row < 32,
        row < rows.len(),
        0 <= x,
        0 <= y,
    ensures
        ({
            let before = draw_sprite_pixels(pixels, rows.take(row), x, y);
            &&& draw_sprite_pixels(pixels, rows.take(row + 1), x, y) == draw_byte_pixels(
                before,
                rows[row],
                x,
                y + row,
            )
            &&& sprite_collides(pixels, rows.take(row + 1), x, y) == (sprite_collides(
                pixels,
                rows.take(row),
                x,
                y,
            ) || byte_collides(before, rows[row], x, y + row))
        }),
{
    let fewer = rows.take(row);
    let more = rows.take(row + 1);
    let byte = rows[row];
    let mid = draw_sprite_pixels(pixels, fewer, x, y);
    assert forall|k: int| 0 <= k < 2048 implies {
        let above = sprite_covers(fewer, x, y, k);
        let here = row_covers(byte, x, y + row, k);
        #[trigger] sprite_covers(more, x, y, k) == (above || here) && !(above && here)
    } by {
        let r = (k / 64 - y) % 32;
        assert((k / 64 == (y + row) % 32) == (r == row));
        if r < row {
            assert(more[r] == fewer[r]);
        }
    }
    assert(draw_sprite_pixels(pixels, more, x, y) =~= draw_byte_pixels(mid, byte, x, y + row));
    if sprite_collides(pixels, more, x, y) {
        let k = choose|k: int|
            0 <= k < 2048 && pixels[k] && #[trigger] sprite_covers(more, x, y, k);
        if !sprite_covers(fewer, x, y, k) {
            assert(mid[k] && row_covers(byte, x, y + row, k));
        }
    }
    if sprite_collides(pixels, fewer, x, y) {
        let k = choose|k: int|
            0 <= k < 2048 && pixels[k] && #[trigger] sprite_covers(fewer, x, y, k);
        assert(sprite_covers(more, x, y, k));
    }
    if byte_collides(mid, byte, x, y + row) {
        let k = choose|k: int|
            0 <= k < 2048 && mid[k] && #[trigger] row_covers(byte, x, y + row, k);
        assert(sprite_covers(more, x, y, k));
        assert(!sprite_covers(fewer, x, y, k));
        assert(pixels[k]);
    }
}

/// The text that shows a screen on a terminal: the escape sequences that
/// clear the terminal and move the cursor home, then one line per row with a
/// white square for each lit pixel and a black square for each dark one.
pub open spec fn render_text(pixels: Seq<bool>) -> Seq<char> {
    Seq::new(
        2087,
        |n: int|
            if n < 7 {
                seq!['\x1B', '[', '2', 'J', '\x1B', '[', 'H'][n]
            } else if (n - 7) % 65 == 64 {
                '\n'
            } else if pixels[(n - 7) / 65 * 64 + (n - 7) % 65] {
                '\u{2B1C}'
            } else {
                '\u{2B1B}'
            },
    )
}

/// Whether one of the leftmost `cols` columns of a sprite row lights the
/// pixel at position `k`.
spec fn row_covers_upto(byte: u8, x: int, y: int, cols: int, k: int) -> bool {
    row_covers(byte, x, y, k) && sprite_col(x, k) < cols
}

/// Column `col` of a sprite row drawn at `(x, y)` falls on one pixel alone.
proof fn lemma_column_pixel(x: int, y: int, col: int)
    requires
        0 <= x,
        0 <= y,
        0 <= col < 8,
    ensures
        ({
            let idx = (y % 32) * 64 + (x % 64 + col) % 64;
            &&& 0 <= idx < 2048
            &&& idx / 64 == y % 32
            &&& sprite_col(x, idx) == col
            &&& forall|k: int|
                0 <= k < 2048 && k / 64 == y % 32 && #[trigger] sprite_col(x, k) == col ==> k
                    == idx
        }),
{
}

/// The display: 64 columns by 32 rows of pixels that are lit or dark.
pub struct Display {
    pixel: [bool; 2048],
}

impl View for Display {
    type V = Seq<bool>;

    /// The pixels in row-major order: pixel `(x, y)` is at `y * 64 + x`.
    closed spec fn view(&self) -> Seq<bool> {
        self.pixel@
    }
}

impl Display {
    /// The number of columns.
    pub const WIDTH: usize = 64;

    /// The number of rows.
    pub const HEIGHT: usize = 32;

    /// A screen has 2048 pixels.
    pub proof fn lemma_view_len(&self)
        ensures
            self@.len() == 2048,
    {
    }

    /// A blank screen.
    pub fn new() -> (display: Display)
        ensures
            display@ == blank(),
    {
        Self::default()
    }

    /// Turns every pixel off.
    pub fn reset(&mut self)
        ensures
            final(self)@ == blank(),
    {
        self.pixel = [false;2048];
    }

    /// XORs one sprite row of eight pixels onto the screen, its leftmost pixel
    /// at column `x % 64` of row `y % 32`, wrapping within that row. Returns
    /// whether a lit pixel was turned off.
    pub fn draw_byte(&mut self, byte: u8, x: usize, y: usize) -> (flip: bool)
        ensures
            final(self)@ == draw_byte_pixels(old(self)@, byte, x as int, y as int),
            flip == byte_collides(old(self)@, byte, x as int, y as int),
    {
        let row = y % Self::HEIGHT;
        let left = x % Self::WIDTH;
        let ghost before = self@;
        let mut flip = false;
        let mut col: usize = 0;
        while col < 8
            invariant
                col <= 8,
                row == y % 32,
                left == x % 64,
                before.len() == 2048,
                self@.len() == 2048,
                forall|k: int|
                    0 <= k < 2048 ==> self@[k] == (before[k] != #[trigger] row_covers_upto(
                        byte,
                        x as int,
                        y as int,
                        col as int,
                        k,
                    )),
                flip == exists|k: int|
                    0 <= k < 2048 && before[k] && #[trigger] row_covers_upto(
                        byte,
                        x as int,
                        y as int,
                        col as int,
                        k,
                    ),
            decreases 8 - col,
        {
            let shift: u8 = 7 - col as u8;
            let idx = row * Self::WIDTH + (left + col) % Self::WIDTH;
            let lit = (byte >> shift) & 1 == 1;
            let ghost mid = self@;
            let ghost flip_mid = flip;
            proof {
                lemma_column_pixel(x as int, y as int, col as int);
            }
            if lit {
                let was = self.pixel[idx];
                flip = flip || was;
                self.pixel[idx] = !was;
            }
            proof {
                let (xi, yi, c) = (x as int, y as int, col as int);
                assert(lit == row_covers_upto(byte, xi, yi, c + 1, idx as int));
                assert(!row_covers_upto(byte, xi, yi, c, idx as int));
                assert forall|k: int| 0 <= k < 2048 && k != idx implies row_covers_upto(
                    byte,
                    xi,
                    yi,
                    c,
                    k,
                ) == #[trigger] row_covers_upto(byte, xi, yi, c + 1, k) by {
                    if row_covers(byte, xi, yi, k) && sprite_col(xi, k) == c {
                        assert(k == idx);
                    }
                }
                assert forall|k: int| 0 <= k < 2048 implies self@[k] == (before[k]
                    != #[trigger] row_covers_upto(byte, xi, yi, c + 1, k)) by {
                    if k == idx {
                        assert(mid[k] == (before[k] != row_covers_upto(byte, xi, yi, c, k)));
                    } else {
                        assert(self@[k] == mid[k]);
                        assert(mid[k] == (before[k] != row_covers_upto(byte, xi, yi, c, k)));
                    }
                }
                let now = exists|k: int|
                    0 <= k < 2048 && before[k] && #[trigger] row_covers_upto(
                        byte,
                        xi,
                        yi,
                        c + 1,
                        k,
                    );
                if flip_mid {
                    let k = choose|k: int|
                        0 <= k < 2048 && before[k] && #[trigger] row_covers_upto(
                            byte,
                            xi,
                            yi,
                            c,
                            k,
                        );
                    assert(row_covers_upto(byte, xi, yi, c + 1, k));
                    assert(now);
                } else if lit && mid[idx as int] {
                    assert(before[idx as int]);
                    assert(row_covers_upto(byte, xi, yi, c + 1, idx as int));
                    assert(now);
                } else if now {
                    let k = choose|k: int|
                        0 <= k < 2048 && before[k] && #[trigger] row_covers_upto(
                            byte,
                            xi,
                            yi,
                            c + 1,
                            k,
                        );
                    if k != idx {
                        assert(row_covers_upto(byte, xi, yi, c, k));
                    }
                    assert(false);
                }
                assert(flip == now);
            }
            col += 1;
        }
        proof {
            let (xi, yi) = (x as int, y as int);
            assert forall|k: int| 0 <= k < 2048 implies self@[k] == draw_byte_pixels(
                before,
                byte,
                xi,
                yi,
            )[k] by {
                assert(row_covers_upto(byte, xi, yi, 8, k) == row_covers(byte, xi, yi, k));
            }
            assert(self@ =~= draw_byte_pixels(before, byte, xi, yi));
            if flip {
                let k = choose|k: int|
                    0 <= k < 2048 && before[k] && #[trigger] row_covers_upto(byte, xi, yi, 8, k);
                assert(row_covers(byte, xi, yi, k));
            }
            if byte_collides(before, byte, xi, yi) {
                let k = choose|k: int|
                    0 <= k < 2048 && before[k] && #[trigger] row_covers(byte, xi, yi, k);
                assert(row_covers_upto(byte, xi, yi, 8, k));
            }
        }
        flip
    }

    /// The screen as text for a terminal.
    pub fn render(&self) -> (text: String)
        ensures
            text@ == render_text(self@),
    {
        let mut text = String::new();
        push_char(&mut text, '\x1B');
        push_char(&mut text, '[');
        push_char(&mut text, '2');
        push_char(&mut text, 'J');
        push_char(&mut text, '\x1B');
        push_char(&mut text, '[');
        push_char(&mut text, 'H');
        let mut y: usize = 0;
        while y < Self::HEIGHT
            invariant
                y <= 32,
                text@ == render_text(self@).take(7 + 65 * y),
            decreases 32 - y,
        {
            let mut x: usize = 0;
            while x < Self::WIDTH
                invariant
                    y < 32,
                    x <= 64,
                    text@ == render_text(self@).take(7 + 65 * y + x),
                decreases 64 - x,
            {
                let c = if self.pixel[y * Self::WIDTH + x] {
                    '\u{2B1C}'
                } else {
                    '\u{2B1B}'
                };
                push_char(&mut text, c);
                x += 1;
            }
            push_char(&mut text, '\n');
            y += 1;
        }
        text
    }
}

impl Clone for Display {
    /// A display with the same pixels.
    fn clone(&self) -> (display: Display)
        ensures
            display@ == self@,
    {
        Display { pixel: self.pixel }
    }
}

impl Default for Display {
    /// A blank screen.
    fn default() -> (display: Display)
        ensures
            display@ == blank(),
    {
        Display { pixel: [false;2048] }
    }
}

impl std::ops::Index<(usize, usize)> for Display {
    type Output = bool;

    /// The pixel at column `index.0` of row `index.1`.
    fn index(&self, index: (usize, usize)) -> (on: &bool)
        ensures
            *on == self@[index.1 * 64 + index.0],
    {
        &self.pixel[index.1 * Display::WIDTH + index.0]
    }
}

impl vstd::std_specs::core::IndexSpecImpl<(usize, usize)> for Display {
    open spec fn index_req(&self, index: &(usize, usize)) -> bool {
        index.0 < 64 && index.1 < 32
    }
}

impl std::ops::IndexMut<(usize, usize)> for Display {
    /// The pixel at column `index.0` of row `index.1`, for writing.
    fn index_mut(&mut self, index: (usize, usize)) -> (on: &mut bool)
        requires
            index.0 < 64,
            index.1 < 32,
        ensures
            *on == old(self)@[index.1 * 64 + index.0],
            final(self)@ == old(self)@.update(index.1 * 64 + index.0, *final(on)),
    {
        &mut self.pixel[index.1 * Display::WIDTH + index.0]
    }
}

} // verus!
