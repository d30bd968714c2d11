//! The monochrome screen: a grid of cells that sprites are drawn onto.

use vstd::prelude::*;

verus! {

/// The width of the screen in cells.
pub const WIDTH: usize = 64;

/// The height of the screen in cells.
pub const HEIGHT: usize = 32;

/// The number of cells of the screen.
pub const SIZE: usize = WIDTH * HEIGHT;

/// The number of columns that one sprite row covers.
pub const SPRITE_WIDTH: usize = 8;

/// The screen: `WIDTH` by `HEIGHT` cells, kept row by row from the top-left
/// corner. The view is the sequence of its `SIZE` cells in that order.
#[derive(Debug, PartialEq, Eq, Hash, PartialOrd, Ord)]
pub struct Screen {
    raw: [bool; SIZE],
}

impl View for Screen {
    type V = Seq<bool>;

    closed spec fn view(&self) -> Seq<bool> {
        self.raw@
    }
}

/// The screen with every cell unset.
pub open spec fn blank() -> Seq<bool> {
    Seq::new(SIZE as nat, |p: int| false)
}

/// Whether bit `col` of `byte` is set, counted from the most significant bit.
pub open spec fn byte_bit(byte: u8, col: u8) -> bool {
    byte & (0x80u8 >> col) != 0
}

/// Whether the sprite has a set bit in row `row`, column `col`, both counted
/// from its top-left corner. Outside the sprite nothing is set.
pub open spec fn sprite_bit(sprite: Seq<u8>, row: int, col: int) -> bool {
    0 <= row < sprite.len() && 0 <= col < SPRITE_WIDTH && byte_bit(sprite[row], col as u8)
}

/// Whether a sprite drawn at `(x, y)` has a set bit on the cell at position
/// `p` of the view. The corner wraps round the screen; the sprite does not.
pub open spec fn hits(sprite: Seq<u8>, x: int, y: int, p: int) -> bool {
    sprite_bit(sprite, p / (WIDTH as int) - y % (HEIGHT as int), p % (WIDTH as int) - x % (WIDTH as int))
}

/// The screen after a sprite was drawn at `(x, y)`: each cell that the sprite
/// hits is flipped.
pub open spec fn drawn(screen: Seq<bool>, sprite: Seq<u8>, x: int, y: int) -> Seq<bool> {
    Seq::new(SIZE as nat, |p: int| screen[p] != hits(sprite, x, y, p))
}

/// Whether drawing a sprite at `(x, y)` unsets a cell that was set.
pub open spec fn erases(screen: Seq<bool>, sprite: Seq<u8>, x: int, y: int) -> bool {
    exists|p: int| 0 <= p < SIZE && screen[p] && #[trigger] hits(sprite, x, y, p)
}

/// Drawing flips the cells under the set bits of the sprite and no others:
/// the cell in column `column` of row `row` is flipped exactly when the
/// sprite has a set bit that many columns and rows from its corner.
pub proof fn lemma_draw_cell(screen: Seq<bool>, sprite: Seq<u8>, x: int, y: int, column: int, row: int)
    requires
        screen.len() == SIZE,
        0 <= column < WIDTH,
        0 <= row < HEIGHT,
    ensures
        drawn(screen, sprite, x, y)[row * WIDTH + column] == (screen[row * WIDTH + column]
            != sprite_bit(sprite, row - y % (HEIGHT as int), column - x % (WIDTH as int))),
{
    let p = row * WIDTH + column;
}

/// A sprite does not reach round an edge: drawing leaves a cell as it was if
/// the cell lies left of the corner or above it, eight or more columns right
/// of it, or as many rows below it as the sprite has. What would fall beyond
/// the right or the bottom edge does not come back on the far side.
pub proof fn lemma_draw_clips(screen: Seq<bool>, sprite: Seq<u8>, x: int, y: int, column: int, row: int)
    requires
        screen.len() == SIZE,
        0 <= column < WIDTH,
        0 <= row < HEIGHT,
        column < x % (WIDTH as int) || column >= x % (WIDTH as int) + SPRITE_WIDTH || row < y % (
        HEIGHT as int) || row >= y % (HEIGHT as int) + sprite.len(),
    ensures
        drawn(screen, sprite, x, y)[row * WIDTH + column] == screen[row * WIDTH + column],
{
    lemma_draw_cell(screen, sprite, x, y, column, row);
}

/// Drawing the same sprite at the same place twice brings the screen back.
pub proof fn lemma_draw_twice(screen: Seq<bool>, sprite: Seq<u8>, x: int, y: int)
    requires
        screen.len() == SIZE,
    ensures
        drawn(drawn(screen, sprite, x, y), sprite, x, y) == screen,
{
}

/// Whether the cell at position `p` has been dealt with once the rows above
/// row `i` of a sprite at `(left, top)` are drawn, and the first `j` columns
/// of that row.
spec fn reached(left: int, top: int, i: int, j: int, p: int) -> bool {
    let row = p / (WIDTH as int) - top;
    let col = p % (WIDTH as int) - left;
    row < i || (row == i && col < j)
}

impl Screen {
    /// The cell in column `x` of row `y`.
    pub open spec fn spec_pixel(self, x: int, y: int) -> bool {
        self@[y * WIDTH + x]
    }

    /// The view has as many cells as the screen.
    pub proof fn lemma_size(self)
        ensures
            self@.len() == SIZE,
    {
    }

    /// Returns a screen with every cell unset.
    pub fn new() -> (r: Self)
        ensures
            r@ == blank(),
    {
        Self { raw: [false;SIZE] }
    }

    /// Draws `sprite`, one byte a row and the most significant bit leftmost,
    /// with its top-left corner at column `x % WIDTH` of row `y % HEIGHT`.
    /// Each cell under a set bit is flipped; what would fall beyond the right
    /// or the bottom edge is left out. Returns whether a set cell was unset.
    pub fn draw_sprite(&mut self, sprite: &[u8], x: usize, y: usize) -> (erased: bool)
        ensures
            final(self)@ == drawn(old(self)@, sprite@, x as int, y as int),
            erased == erases(old(self)@, sprite@, x as int, y as int),
    {
        let ghost x0 = x as int;
        let ghost y0 = y as int;
        let x = x % WIDTH;
        let y = y % HEIGHT;
        let mut erased = false;
        let mut i: usize = 0;
        while i < sprite.len() && y + i < HEIGHT
            invariant
                x == x0 % (WIDTH as int),
                y == y0 % (HEIGHT as int),
                i <= sprite.len(),
                y + i <= HEIGHT,
                forall|p: int|
                    0 <= p < SIZE ==> self.raw@[p] == (old(self)@[p] != (reached(
                        x as int,
                        y as int,
                        i as int,
                        0,
                        p,
                    ) && hits(sprite@, x0, y0, p))),
                erased <==> exists|p: int|
                    0 <= p < SIZE && old(self)@[p] && reached(x as int, y as int, i as int, 0, p)
                        && #[trigger] hits(sprite@, x0, y0, p),
            decreases sprite.len() - i,
        {
            let row = sprite[i];
            let mut j: usize = 0;
            while j < SPRITE_WIDTH && x + j < WIDTH
                invariant
                    x == x0 % (WIDTH as int),
                    y == y0 % (HEIGHT as int),
                    i < sprite.len(),
                    y + i < HEIGHT,
                    row == sprite@[i as int],
                    j <= SPRITE_WIDTH,
                    x + j <= WIDTH,
                    forall|p: int|
                        0 <= p < SIZE ==> self.raw@[p] == (old(self)@[p] != (reached(
                            x as int,
                            y as int,
                            i as int,
                            j as int,
                            p,
                        ) && hits(sprite@, x0, y0, p))),
                    erased <==> exists|p: int|
                        0 <= p < SIZE && old(self)@[p] && reached(
                            x as int,
                            y as int,
                            i as int,
                            j as int,
                            p,
                        ) && #[trigger] hits(sprite@, x0, y0, p),
                decreases SPRITE_WIDTH - j,
            {
                let bit = row & (0x80u8 >> j) != 0;
                let pos = (y + i) * WIDTH + x + j;
                let pixel = self.raw[pos];
                self.raw[pos] = pixel != bit;
                if pixel && bit {
                    erased = true;
                }
                proof {
                    let here = pos as int;
                    assert(bit == byte_bit(row, j as u8));
                    assert forall|p: int| 0 <= p < SIZE && p != here implies reached(
                        x as int,
                        y as int,
                        i as int,
                        j + 1,
                        p,
                    ) == reached(x as int, y as int, i as int, j as int, p) by {}
                    if pixel && bit {
                        assert(old(self)@[here] && hits(sprite@, x0, y0, here));
                    }
                }
                j += 1;
            }
            proof {
                assert forall|p: int| 0 <= p < SIZE implies (reached(
                    x as int,
                    y as int,
                    i as int,
                    j as int,
                    p,
                ) && hits(sprite@, x0, y0, p)) == (reached(x as int, y as int, i + 1, 0, p) && hits(
                    sprite@,
                    x0,
                    y0,
                    p,
                )) by {}
            }
            i += 1;
        }
        proof {
            assert forall|p: int| 0 <= p < SIZE implies (reached(x as int, y as int, i as int, 0, p)
                && hits(sprite@, x0, y0, p)) == hits(sprite@, x0, y0, p) by {}
        }
        erased
    }

    /// Unsets every cell.
    pub fn clear(&mut self)
        ensures
            final(self)@ == blank(),
    {
        self.raw = [false;SIZE];
    }

    /// Tells whether the cell in column `x` of row `y` is set.
    pub fn pixel(&self, x: usize, y: usize) -> (r: bool)
        requires
            x < WIDTH,
            y < HEIGHT,
        ensures
            r == self.spec_pixel(x as int, y as int),
    {
        self.raw[y * WIDTH + x]
    }
}

impl Clone for Screen {
    /// Returns a screen with the same cells.
    fn clone(&self) -> (r: Self)
        ensures
            r@ == self@,
    {
        Self { raw: self.raw }
    }
}

impl Default for Screen {
    /// The screen with every cell unset, as [`Screen::new`] returns it.
    fn default() -> (r: Self)
        ensures
            r@ == blank(),
    {
        Screen::new()
    }
}

} // verus!
