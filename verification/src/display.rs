//! The 64x32 monochrome display and the expansion of sprite bytes into pixels.
//!
//! A display is viewed as a grid `grid[x][y]` of booleans, `x` being the
//! column and `y` the row. Coordinates are never wrapped: a pixel outside
//! the grid cannot be addressed.

use vstd::prelude::*;

verus! {

/// Number of pixel columns.
pub const DISPLAY_WIDTH: usize = 64;

/// Number of pixel rows.
pub const DISPLAY_HEIGHT: usize = 32;

/// Number of pixels that one sprite byte covers.
pub const SPRITE_WIDTH: usize = 8;

/// Number of characters in one line of the text form: the pixels of one
/// column and a line feed.
pub const LINE_LENGTH: usize = 33;

/// Whether `grid` has the shape of the display: [`DISPLAY_WIDTH`] columns of
/// [`DISPLAY_HEIGHT`] pixels each.
pub open spec fn is_grid(grid: Seq<Seq<bool>>) -> bool {
    &&& grid.len() == DISPLAY_WIDTH
    &&& forall|x: int| 0 <= x < DISPLAY_WIDTH ==> (#[trigger] grid[x]).len() == DISPLAY_HEIGHT
}

/// The grid with every pixel off.
pub open spec fn blank_grid() -> Seq<Seq<bool>> {
    Seq::new(DISPLAY_WIDTH as nat, |x: int| Seq::new(DISPLAY_HEIGHT as nat, |y: int| false))
}

/// `grid` with the pixel at column `x`, row `y` toggled.
pub open spec fn flip(grid: Seq<Seq<bool>>, x: int, y: int) -> Seq<Seq<bool>> {
    grid.update(x, grid[x].update(y, !grid[x][y]))
}

/// The character that stands for a pixel in the text form of the display:
/// a full block for a pixel that is on, a space for one that is off.
pub open spec fn glyph(on: bool) -> char {
    if on {
        '\u{2588}'
    } else {
        ' '
    }
}

/// The text form of `grid`: one line per column of the grid, each line one
/// [`glyph`] per pixel of that column followed by a line feed.
pub open spec fn grid_text(grid: Seq<Seq<bool>>) -> Seq<char> {
    Seq::new(
        (DISPLAY_WIDTH * LINE_LENGTH) as nat,
        |k: int|
            if k % (LINE_LENGTH as int) == DISPLAY_HEIGHT {
                '\n'
            } else {
                glyph(grid[k / (LINE_LENGTH as int)][k % (LINE_LENGTH as int)])
            },
    )
}

/// Whether `byte`, read as a row of a sprite, sets the pixel in `column`.
/// Column 0 is the most significant bit.
pub open spec fn sprite_bit(byte: u8, column: int) -> bool {
    byte & (0x80u8 >> (column as u8)) != 0
}

/// The [`SPRITE_WIDTH`] pixels of one sprite byte, leftmost first.
pub open spec fn sprite_row(byte: u8) -> Seq<bool> {
    Seq::new(SPRITE_WIDTH as nat, |column: int| sprite_bit(byte, column))
}

/// Whether `rows` is the expansion of the sprite bytes `memory`, one row per byte.
pub open spec fn is_sprite_of(rows: Seq<Vec<bool>>, memory: Seq<u8>) -> bool {
    &&& rows.len() == memory.len()
    &&& forall|r: int| 0 <= r < memory.len() ==> (#[trigger] rows[r])@ == sprite_row(memory[r])
}

/// Toggling the same pixel twice restores the grid.
pub proof fn lemma_flip_twice(grid: Seq<Seq<bool>>, x: int, y: int)
    requires
        is_grid(grid),
        0 <= x < DISPLAY_WIDTH,
        0 <= y < DISPLAY_HEIGHT,
    ensures
        flip(flip(grid, x, y), x, y) == grid,
{
    assert(flip(flip(grid, x, y), x, y)[x] =~= grid[x]);
}

/// Toggling a pixel inverts that pixel, changes no other and keeps the
/// grid's shape.
pub proof fn lemma_flip_one(grid: Seq<Seq<bool>>, x: int, y: int, other_x: int, other_y: int)
    requires
        is_grid(grid),
        0 <= x < DISPLAY_WIDTH,
        0 <= y < DISPLAY_HEIGHT,
        0 <= other_x < DISPLAY_WIDTH,
        0 <= other_y < DISPLAY_HEIGHT,
    ensures
        is_grid(flip(grid, x, y)),
        flip(grid, x, y)[x][y] == !grid[x][y],
        (other_x != x || other_y != y) ==> flip(grid, x, y)[other_x][other_y]
            == grid[other_x][other_y],
{
}

/// The blank grid has the display's shape and every pixel of it is off.
pub proof fn lemma_blank_grid(x: int, y: int)
    requires
        0 <= x < DISPLAY_WIDTH,
        0 <= y < DISPLAY_HEIGHT,
    ensures
        is_grid(blank_grid()),
        !blank_grid()[x][y],
{
}

/// The display: a grid of pixels, each on or off. Its view is the grid.
#[derive(Debug, Clone, Copy, PartialEq, PartialOrd, Ord, Eq)]
pub struct Chip8Display {
    data: [[bool; 32]; 64],
}

impl View for Chip8Display {
    type V = Seq<Seq<bool>>;

    closed spec fn view(&self) -> Seq<Seq<bool>> {
        Seq::new(DISPLAY_WIDTH as nat, |x: int| self.data@[x]@)
    }
}

impl Chip8Display {
    /// The view of any display has the display's shape.
    pub broadcast proof fn lemma_is_grid(&self)
        ensures
            #[trigger] is_grid(self@),
    {
    }

    /// A display with every pixel off.
    #[must_use]
    pub fn new() -> (display: Self)
        ensures
            display@ == blank_grid(),
    {
        let display = Chip8Display { data: [[false; 32]; 64] };
        assert(display@ =~~= blank_grid());
        display
    }

    /// Turns every pixel off.
    pub fn clear(&mut self)
        ensures
            final(self)@ == blank_grid(),
    {
        self.data = [[false; 32]; 64];
        assert(self@ =~~= blank_grid());
    }

    /// Toggles the pixel at column `x`, row `y`.
    pub fn flip_pixel(&mut self, x: u8, y: u8)
        requires
            x < DISPLAY_WIDTH,
            y < DISPLAY_HEIGHT,
        ensures
            final(self)@ == flip(old(self)@, x as int, y as int),
    {
        self.data[x as usize][y as usize] ^= true;
    }

    /// The pixels by column: element `x` of the slice holds the
    /// [`DISPLAY_HEIGHT`] pixels of column `x`, top first.
    #[must_use]
    pub fn get(&self) -> (columns: &[[bool; 32]])
        ensures
            columns@.len() == DISPLAY_WIDTH,
            forall|x: int| 0 <= x < DISPLAY_WIDTH ==> (#[trigger] columns@[x])@ == self@[x],
    {
        &self.data
    }

    /// Renders the display as text for a preview in a terminal.
    #[must_use]
    pub fn to_text(&self) -> (text: String)
        ensures
            text@ == grid_text(self@),
    {
        let mut text = String::new();
        let mut x: usize = 0;
        while x < DISPLAY_WIDTH
            invariant
                x <= DISPLAY_WIDTH,
                text@.len() == x * LINE_LENGTH,
                forall|k: int| 0 <= k < x * LINE_LENGTH ==> text@[k] == grid_text(self@)[k],
            decreases DISPLAY_WIDTH - x,
        {
            let mut y: usize = 0;
            while y < DISPLAY_HEIGHT
                invariant
                    x < DISPLAY_WIDTH,
                    y <= DISPLAY_HEIGHT,
                    text@.len() == x * LINE_LENGTH + y,
                    forall|k: int|
                        0 <= k < x * LINE_LENGTH + y ==> text@[k] == grid_text(self@)[k],
                decreases DISPLAY_HEIGHT - y,
            {
                proof {
                    reveal_strlit("\u{2588}");
                    reveal_strlit(" ");
                }
                if self.data[x][y] {
                    text.append("\u{2588}");
                } else {
                    text.append(" ");
                }
                y += 1;
            }
            proof {
                reveal_strlit("\n");
            }
            text.append("\n");
            x += 1;
        }
        text
    }
}

impl Default for Chip8Display {
    fn default() -> (display: Self)
        ensures
            display@ == blank_grid(),
    {
        Chip8Display::new()
    }
}

/// Expands sprite bytes into rows of pixels, one row per byte.
#[must_use]
pub fn memory_to_flip_instructions(memory: &[u8]) -> (rows: Vec<Vec<bool>>)
    ensures
        is_sprite_of(rows@, memory@),
{
    let mut rows: Vec<Vec<bool>> = Vec::new();
    let mut r: usize = 0;
    while r < memory.len()
        invariant
            r <= memory@.len(),
            rows@.len() == r,
            forall|k: int| 0 <= k < r ==> (#[trigger] rows@[k])@ == sprite_row(memory@[k]),
        decreases memory@.len() - r,
    {
        rows.push(byte_to_flip_instructions(memory[r]));
        r += 1;
    }
    rows
}

/// Expands one sprite byte into its pixels, most significant bit first.
fn byte_to_flip_instructions(byte: u8) -> (row: Vec<bool>)
    ensures
        row@ == sprite_row(byte),
{
    let mut mask: u8 = 0x80;
    let mut row: Vec<bool> = Vec::new();
    let mut column: u8 = 0;
    assert(0x80u8 >> 0u8 == 0x80u8) by (bit_vector);
    while column < 8
        invariant
            column <= 8,
            mask == 0x80u8 >> column,
            row@.len() == column,
            forall|c: int| 0 <= c < column ==> row@[c] == sprite_bit(byte, c),
        decreases 8 - column,
    {
        row.push((byte & mask) != 0);
        assert((0x80u8 >> column) >> 1 == 0x80u8 >> ((column + 1) as u8)) by (bit_vector)
            requires
                column < 8,
        ;
        mask >>= 1;
        column += 1;
    }
    row
}

} // verus!
