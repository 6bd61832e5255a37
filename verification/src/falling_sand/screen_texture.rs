//! A raster of RGBA pixels and the few drawing operations the overlay needs.

use vstd::prelude::*;

use crate::falling_sand::elements::{Element, ElementType};
use crate::grid::{coords_at, index_at, lemma_index_of_position, lemma_position_of_index};

verus! {

/// The colour of overlay text.
pub const COLOR_FONT: [u8; 4] = [0xFF, 0xFF, 0xFF, 0xFF];

/// The glyphs of the overlay font, five pixels wide and eight high: the ten
/// digits, the full stop, and a blank that stands for every other character.
pub const FONT: [[[u8; 5]; 8]; 12] = [
    [
        [0, 1, 1, 1, 0],
        [1, 0, 0, 0, 1],
        [1, 0, 0, 0, 1],
        [1, 0, 0, 0, 1],
        [1, 0, 0, 0, 1],
        [1, 0, 0, 0, 1],
        [1, 0, 0, 0, 1],
        [0, 1, 1, 1, 0],
    ],
    [
        [0, 0, 1, 0, 0],
        [0, 1, 1, 0, 0],
        [0, 0, 1, 0, 0],
        [0, 0, 1, 0, 0],
        [0, 0, 1, 0, 0],
        [0, 0, 1, 0, 0],
        [0, 0, 1, 0, 0],
        [0, 1, 1, 1, 0],
    ],
    [
        [0, 1, 1, 1, 0],
        [1, 0, 0, 0, 1],
        [0, 0, 0, 0, 1],
        [0, 0, 0, 1, 0],
        [0, 0, 1, 0, 0],
        [0, 1, 0, 0, 0],
        [1, 0, 0, 0, 0],
        [1, 1, 1, 1, 1],
    ],
    [
        [0, 1, 1, 1, 0],
        [1, 0, 0, 0, 1],
        [0, 0, 0, 0, 1],
        [0, 0, 1, 1, 0],
        [0, 0, 0, 0, 1],
        [0, 0, 0, 0, 1],
        [1, 0, 0, 0, 1],
        [0, 1, 1, 1, 0],
    ],
    [
        [0, 0, 0, 1, 0],
        [0, 0, 1, 1, 0],
        [0, 1, 0, 1, 0],
        [1, 0, 0, 1, 0],
        [1, 1, 1, 1, 1],
        [0, 0, 0, 1, 0],
        [0, 0, 0, 1, 0],
        [0, 0, 0, 1, 0],
    ],
    [
        [1, 1, 1, 1, 1],
        [1, 0, 0, 0, 0],
        [1, 0, 0, 0, 0],
        [1, 1, 1, 1, 0],
        [0, 0, 0, 0, 1],
        [0, 0, 0, 0, 1],
        [1, 0, 0, 0, 1],
        [0, 1, 1, 1, 0],
    ],
    [
        [0, 0, 1, 1, 0],
        [0, 1, 0, 0, 0],
        [1, 0, 0, 0, 0],
        [1, 1, 1, 1, 0],
        [1, 0, 0, 0, 1],
        [1, 0, 0, 0, 1],
        [1, 0, 0, 0, 1],
        [0, 1, 1, 1, 0],
    ],
    [
        [1, 1, 1, 1, 1],
        [0, 0, 0, 0, 1],
        [0, 0, 0, 1, 0],
        [0, 0, 0, 1, 0],
        [0, 0, 1, 0, 0],
        [0, 0, 1, 0, 0],
        [0, 1, 0, 0, 0],
        [0, 1, 0, 0, 0],
    ],
    [
        [0, 1, 1, 1, 0],
        [1, 0, 0, 0, 1],
        [1, 0, 0, 0, 1],
        [0, 1, 1, 1, 0],
        [1, 0, 0, 0, 1],
        [1, 0, 0, 0, 1],
        [1, 0, 0, 0, 1],
        [0, 1, 1, 1, 0],
    ],
    [
        [0, 1, 1, 1, 0],
        [1, 0, 0, 0, 1],
        [1, 0, 0, 0, 1],
        [1, 0, 0, 0, 1],
        [0, 1, 1, 1, 1],
        [0, 0, 0, 0, 1],
        [0, 0, 0, 1, 0],
        [0, 1, 1, 0, 0],
    ],
    [
        [0, 0, 0, 0, 0],
        [0, 0, 0, 0, 0],
        [0, 0, 0, 0, 0],
        [0, 0, 0, 0, 0],
        [0, 0, 0, 0, 0],
        [0, 0, 0, 0, 0],
        [0, 0, 0, 0, 0],
        [0, 0, 1, 0, 0],
    ],
    [
        [0, 0, 0, 0, 0],
        [0, 0, 0, 0, 0],
        [0, 0, 0, 0, 0],
        [0, 0, 0, 0, 0],
        [0, 0, 0, 0, 0],
        [0, 0, 0, 0, 0],
        [0, 0, 0, 0, 0],
        [0, 0, 0, 0, 0],
    ],
];

/// The width a character takes up on the raster, gap included.
pub const GLYPH_STEP: usize = 6;

/// The height a line of text takes up on the raster, gap included.
pub const LINE_STEP: usize = 10;

/// A raster of `dimensions.0` by `dimensions.1` pixels, four bytes a pixel,
/// row by row from the top.
pub struct ScreenTexture {
    pub pixel_data: Vec<u8>,
    pub dimensions: (usize, usize),
}

/// The pixel `(x, y)` that the byte at `byte` belongs to, on a raster
/// `width` pixels wide.
pub open spec fn pixel_of(width: int, byte: int) -> (int, int) {
    coords_at(width, byte / 4)
}

/// The bytes `data` with the four bytes from `at` on replaced by `color`.
pub open spec fn drawn(data: Seq<u8>, at: int, color: [u8; 4]) -> Seq<u8> {
    data.update(at, color[0]).update(at + 1, color[1]).update(at + 2, color[2]).update(
        at + 3,
        color[3],
    )
}

/// Whether `after` is `before` inked over: every byte of a pixel for which
/// `ink` names a colour holds that colour's byte, every other byte is as it
/// was. The raster is `width` pixels wide.
pub open spec fn inked(
    before: Seq<u8>,
    after: Seq<u8>,
    width: int,
    ink: spec_fn(int, int) -> Option<[u8; 4]>,
) -> bool {
    &&& after.len() == before.len()
    &&& forall|k: int|
        0 <= k < before.len() ==> #[trigger] after[k] == match ink(
            pixel_of(width, k).0,
            pixel_of(width, k).1,
        ) {
            Some(color) => color[k % 4],
            None => before[k],
        }
}

/// Drawing one pixel changes the four bytes of that pixel and no others.
pub proof fn lemma_drawn_is_inked(
    data: Seq<u8>,
    width: int,
    height: int,
    x: int,
    y: int,
    color: [u8; 4],
)
    requires
        data.len() == width * height * 4,
        0 <= x < width,
        0 <= y < height,
    ensures
        0 <= index_at(width, x, y) * 4,
        index_at(width, x, y) * 4 + 4 <= data.len(),
        inked(
            data,
            drawn(data, index_at(width, x, y) * 4, color),
            width,
            |px: int, py: int|
                if px == x && py == y {
                    Some(color)
                } else {
                    None
                },
        ),
{
    lemma_index_of_position(width, height, x, y);
    let at = index_at(width, x, y) * 4;
    let after = drawn(data, at, color);
    assert forall|k: int| 0 <= k < data.len() implies #[trigger] after[k] == if pixel_of(
        width,
        k,
    ).0 == x && pixel_of(width, k).1 == y {
        color[k % 4]
    } else {
        data[k]
    } by {
        lemma_position_of_index(width, height, k / 4);
    }
}

/// The glyph that stands for `character` in `FONT`.
pub open spec fn glyph_of(character: char) -> int {
    match character {
        '0' => 0,
        '1' => 1,
        '2' => 2,
        '3' => 3,
        '4' => 4,
        '5' => 5,
        '6' => 6,
        '7' => 7,
        '8' => 8,
        '9' => 9,
        '.' => 10,
        _ => 11,
    }
}

/// Whether the text `text`, written in lines and columns of characters
/// with its first character at column `position.0` of line `position.1`,
/// lights the pixel `(px, py)`.
pub open spec fn lit(text: Seq<char>, position: (i64, i64), px: int, py: int) -> bool {
    let across = px - position.0 * GLYPH_STEP;
    let down = py - position.1 * LINE_STEP;
    &&& 0 <= across / (GLYPH_STEP as int) < text.len()
    &&& across % (GLYPH_STEP as int) < 5
    &&& 0 <= down < 8
    &&& FONT[glyph_of(text[across / (GLYPH_STEP as int)])][down][across % (GLYPH_STEP as int)] == 1
}

/// Whether the pixel `(px, py)` is lit by what has been written of `text`
/// once `chars` characters, then `rows` rows of the next one, then `columns`
/// pixels of its next row are done.
pub open spec fn lit_so_far(
    text: Seq<char>,
    position: (i64, i64),
    px: int,
    py: int,
    chars: int,
    rows: int,
    columns: int,
) -> bool {
    let across = px - position.0 * GLYPH_STEP;
    let down = py - position.1 * LINE_STEP;
    let at = across / (GLYPH_STEP as int);
    let column = across % (GLYPH_STEP as int);
    lit(text, position, px, py) && (at < chars || (at == chars && (down < rows || (down == rows
        && column < columns))))
}

/// The overlay colour of a material in the debug view: black for sand, teal
/// for an empty cell, red for anything else.
pub open spec fn debug_color(material: ElementType) -> [u8; 4] {
    match material {
        ElementType::Sand => [0u8, 0u8, 0u8, 0xFFu8],
        ElementType::Empty => [0u8, 0xCCu8, 0xCCu8, 0xFFu8],
        _ => [0xFFu8, 0u8, 0u8, 0xFFu8],
    }
}

impl ScreenTexture {
    /// The raster holds four bytes for each of its pixels.
    pub open spec fn wf(&self) -> bool {
        self.pixel_data@.len() == self.dimensions.0 * self.dimensions.1 * 4
    }

    /// Whether `(x, y)` is a pixel of the raster.
    pub open spec fn covers(&self, x: int, y: int) -> bool {
        0 <= x < self.dimensions.0 && 0 <= y < self.dimensions.1
    }

    /// The index of the first byte of the pixel `(x, y)`.
    pub fn get_pixel_index(&self, x: usize, y: usize) -> (index: usize)
        requires
            (y * self.dimensions.0 + x) * 4 <= usize::MAX,
        ensures
            index == index_at(self.dimensions.0 as int, x as int, y as int) * 4,
    {
        assert(0 <= y * self.dimensions.0) by (nonlinear_arith);
        (y * self.dimensions.0 + x) * 4
    }

    /// Paints the pixel `(x, y)` in `color`: writes the four bytes of
    /// `color` from the pixel's index on. All it needs is that those four
    /// bytes lie within `pixel_data`. On a raster that holds four bytes for
    /// each of its pixels, and for a pixel of that raster, these are the
    /// bytes of that pixel and of no other.
    pub fn draw_pixel_at_coordinate(&mut self, x: usize, y: usize, color: [u8; 4])
        requires
            (y * old(self).dimensions.0 + x) * 4 + 4 <= old(self).pixel_data@.len(),
        ensures
            final(self).dimensions == old(self).dimensions,
            final(self).pixel_data@ == drawn(
                old(self).pixel_data@,
                index_at(old(self).dimensions.0 as int, x as int, y as int) * 4,
                color,
            ),
            old(self).wf() ==> final(self).wf(),
            old(self).wf() && old(self).covers(x as int, y as int) ==> inked(
                old(self).pixel_data@,
                final(self).pixel_data@,
                old(self).dimensions.0 as int,
                |px: int, py: int|
                    if px == x && py == y {
                        Some(color)
                    } else {
                        None
                    },
            ),
    {
        proof {
            if self.wf() && self.covers(x as int, y as int) {
                lemma_drawn_is_inked(
                    self.pixel_data@,
                    self.dimensions.0 as int,
                    self.dimensions.1 as int,
                    x as int,
                    y as int,
                    color,
                );
            }
            assert(self.pixel_data.len() == self.pixel_data@.len());
            assert(index_at(self.dimensions.0 as int, x as int, y as int) == y * self.dimensions.0
                + x);
            assert(0 <= y * self.dimensions.0) by (nonlinear_arith);
        }
        let pixel_index: usize = self.get_pixel_index(x, y);
        self.pixel_data[pixel_index] = color[0];
        self.pixel_data[pixel_index + 1] = color[1];
        self.pixel_data[pixel_index + 2] = color[2];
        self.pixel_data[pixel_index + 3] = color[3];
    }

    /// Paints the pixel `(x, y)` of the raster in `color`, and nothing else.
    fn paint(&mut self, x: usize, y: usize, color: [u8; 4])
        requires
            old(self).wf(),
            old(self).covers(x as int, y as int),
        ensures
            final(self).wf(),
            final(self).dimensions == old(self).dimensions,
            inked(
                old(self).pixel_data@,
                final(self).pixel_data@,
                old(self).dimensions.0 as int,
                |px: int, py: int|
                    if px == x && py == y {
                        Some(color)
                    } else {
                        None
                    },
            ),
    {
        proof {
            lemma_drawn_is_inked(
                self.pixel_data@,
                self.dimensions.0 as int,
                self.dimensions.1 as int,
                x as int,
                y as int,
                color,
            );
            assert(index_at(self.dimensions.0 as int, x as int, y as int) == y * self.dimensions.0
                + x);
        }
        self.draw_pixel_at_coordinate(x, y, color);
    }

    /// Whether the signed position `(x, y)` is a pixel of the raster.
    pub fn is_in_bounds(&self, x: i64, y: i64) -> (inside: bool)
        ensures
            inside == self.covers(x as int, y as int),
    {
        x >= 0 && (x as u64 as u128) < self.dimensions.0 as u128 && y >= 0 && (y as u64 as u128)
            < self.dimensions.1 as u128
    }

    /// Paints in `color` the rectangle whose top left pixel is `top_left`
    /// and that reaches `size.0` pixels further to the right and `size.1`
    /// pixels further down, both ends included.
    pub fn print_filled_rect(&mut self, top_left: (usize, usize), size: (usize, usize), color: [
        u8; 4])
        requires
            old(self).wf(),
            old(self).covers(top_left.0 + size.0, top_left.1 + size.1),
        ensures
            final(self).wf(),
            final(self).dimensions == old(self).dimensions,
            inked(
                old(self).pixel_data@,
                final(self).pixel_data@,
                old(self).dimensions.0 as int,
                |px: int, py: int|
                    if top_left.0 <= px <= top_left.0 + size.0 && top_left.1 <= py <= top_left.1
                        + size.1 {
                        Some(color)
                    } else {
                        None
                    },
            ),
    {
        let ghost start = self.pixel_data@;
        let ghost width = self.dimensions.0 as int;
        let left: usize = top_left.0;
        let right: usize = top_left.0 + size.0;
        let top: usize = top_left.1;
        let bottom: usize = top_left.1 + size.1;
        let mut y: usize = top;
        while y <= bottom
            invariant
                self.wf(),
                self.dimensions == old(self).dimensions,
                width == self.dimensions.0,
                self.covers(right as int, bottom as int),
                left <= right,
                top <= y <= bottom + 1,
                inked(
                    start,
                    self.pixel_data@,
                    width,
                    |px: int, py: int|
                        if left <= px <= right && top <= py < y {
                            Some(color)
                        } else {
                            None
                        },
                ),
            decreases bottom + 1 - y,
        {
            let mut x: usize = left;
            while x <= right
                invariant
                    self.wf(),
                    self.dimensions == old(self).dimensions,
                    width == self.dimensions.0,
                    self.covers(right as int, bottom as int),
                    top <= y <= bottom,
                    left <= x <= right + 1,
                    inked(
                        start,
                        self.pixel_data@,
                        width,
                        |px: int, py: int|
                            if left <= px <= right && (top <= py < y || (py == y && px < x)) {
                                Some(color)
                            } else {
                                None
                            },
                    ),
                decreases right + 1 - x,
            {
                self.paint(x, y, color);
                x += 1;
            }
            y += 1;
        }
    }

    /// Paints in `color` the outline of the rectangle whose top left pixel
    /// is `top_left` and that reaches `size.0` pixels further to the right
    /// and `size.1` pixels further down.
    pub fn print_empty_rect(&mut self, top_left: (usize, usize), size: (usize, usize), color: [
        u8; 4])
        requires
            old(self).wf(),
            old(self).covers(top_left.0 + size.0, top_left.1 + size.1),
        ensures
            final(self).wf(),
            final(self).dimensions == old(self).dimensions,
            inked(
                old(self).pixel_data@,
                final(self).pixel_data@,
                old(self).dimensions.0 as int,
                |px: int, py: int|
                    if top_left.0 <= px <= top_left.0 + size.0 && top_left.1 <= py <= top_left.1
                        + size.1 && (px == top_left.0 || px == top_left.0 + size.0 || py
                        == top_left.1 || py == top_left.1 + size.1) {
                        Some(color)
                    } else {
                        None
                    },
            ),
    {
        let ghost start = self.pixel_data@;
        let ghost width = self.dimensions.0 as int;
        let left: usize = top_left.0;
        let right: usize = top_left.0 + size.0;
        let top: usize = top_left.1;
        let bottom: usize = top_left.1 + size.1;
        let mut y: usize = top;
        while y <= bottom
            invariant
                self.wf(),
                self.dimensions == old(self).dimensions,
                width == self.dimensions.0,
                self.covers(right as int, bottom as int),
                left <= right,
                top <= y <= bottom + 1,
                inked(
                    start,
                    self.pixel_data@,
                    width,
                    |px: int, py: int|
                        if (px == left || px == right) && top <= py < y {
                            Some(color)
                        } else {
                            None
                        },
                ),
            decreases bottom + 1 - y,
        {
            self.paint(left, y, color);
            self.paint(right, y, color);
            y += 1;
        }
        let mut x: usize = left;
        while x <= right
            invariant
                self.wf(),
                self.dimensions == old(self).dimensions,
                width == self.dimensions.0,
                self.covers(right as int, bottom as int),
                top <= bottom,
                left <= x <= right + 1,
                inked(
                    start,
                    self.pixel_data@,
                    width,
                    |px: int, py: int|
                        if left <= px <= right && top <= py <= bottom && (px == left || px
                            == right || ((py == top || py == bottom) && px < x)) {
                            Some(color)
                        } else {
                            None
                        },
                ),
            decreases right + 1 - x,
        {
            self.paint(x, top, color);
            self.paint(x, bottom, color);
            x += 1;
        }
    }

    /// The overlay colour of a material in the debug view.
    fn debug_color(material: ElementType) -> (color: [u8; 4])
        ensures
            color == debug_color(material),
    {
        match material {
            ElementType::Sand => [0, 0, 0, 0xFF],
            ElementType::Empty => [0, 0xCC, 0xCC, 0xFF],
            _ => [0xFF, 0, 0, 0xFF],
        }
    }

    /// Draws the three by three cells of `surrounding_data` into the top
    /// right corner of the raster, one pixel a cell: black for sand, teal for
    /// an empty cell, red for anything else.
    pub fn encode_debug_info(&mut self, surrounding_data: [[Element; 3]; 3])
        requires
            old(self).wf(),
            old(self).dimensions.0 >= 3,
            old(self).dimensions.1 >= 3,
        ensures
            final(self).wf(),
            final(self).dimensions == old(self).dimensions,
            inked(
                old(self).pixel_data@,
                final(self).pixel_data@,
                old(self).dimensions.0 as int,
                |px: int, py: int|
                    if old(self).dimensions.0 - 3 <= px < old(self).dimensions.0 && 0 <= py < 3 {
                        Some(
                            debug_color(
                                surrounding_data[py][px - (old(self).dimensions.0
                                    - 3)].element_type,
                            ),
                        )
                    } else {
                        None
                    },
            ),
    {
        let ghost start = self.pixel_data@;
        let ghost width = self.dimensions.0 as int;
        let x_start: usize = self.dimensions.0 - 3;
        let mut y: usize = 0;
        while y < 3
            invariant
                self.wf(),
                self.dimensions == old(self).dimensions,
                width == self.dimensions.0,
                x_start == self.dimensions.0 - 3,
                self.dimensions.1 >= 3,
                y <= 3,
                inked(
                    start,
                    self.pixel_data@,
                    width,
                    |px: int, py: int|
                        if x_start <= px < x_start + 3 && 0 <= py < y {
                            Some(debug_color(surrounding_data[py][px - x_start].element_type))
                        } else {
                            None
                        },
                ),
            decreases 3 - y,
        {
            let mut x: usize = 0;
            while x < 3
                invariant
                    self.wf(),
                    self.dimensions == old(self).dimensions,
                    width == self.dimensions.0,
                    x_start == self.dimensions.0 - 3,
                    self.dimensions.1 >= 3,
                    y < 3,
                    x <= 3,
                    inked(
                        start,
                        self.pixel_data@,
                        width,
                        |px: int, py: int|
                            if x_start <= px < x_start + 3 && (0 <= py < y || (py == y && px
                                < x_start + x)) {
                                Some(debug_color(surrounding_data[py][px - x_start].element_type))
                            } else {
                                None
                            },
                    ),
                decreases 3 - x,
            {
                let color = Self::debug_color(surrounding_data[y][x].element_type);
                self.paint(x_start + x, y, color);
                x += 1;
            }
            y += 1;
        }
    }

    /// The glyph that stands for `character` in `FONT`.
    fn glyph_index(character: char) -> (glyph: usize)
        ensures
            glyph == glyph_of(character),
            glyph < 12,
    {
        match character {
            '0' => 0,
            '1' => 1,
            '2' => 2,
            '3' => 3,
            '4' => 4,
            '5' => 5,
            '6' => 6,
            '7' => 7,
            '8' => 8,
            '9' => 9,
            '.' => 10,
            _ => 11,
        }
    }

    /// Writes `text` in `COLOR_FONT`, its first character at column
    /// `position.0` of line `position.1`, where a column is `GLYPH_STEP`
    /// pixels wide and a line `LINE_STEP` pixels high. Digits and the full
    /// stop have glyphs; every other character leaves a blank. What falls
    /// outside the raster is left out.
    pub fn print(&mut self, text: String, position: (i64, i64))
        requires
            old(self).wf(),
        ensures
            final(self).wf(),
            final(self).dimensions == old(self).dimensions,
            inked(
                old(self).pixel_data@,
                final(self).pixel_data@,
                old(self).dimensions.0 as int,
                |px: int, py: int|
                    if lit(text@, position, px, py) {
                        Some(COLOR_FONT)
                    } else {
                        None
                    },
            ),
    {
        let ghost start = self.pixel_data@;
        let ghost width = self.dimensions.0 as int;
        let pixel_y: i128 = position.1 as i128 * LINE_STEP as i128;
        let count: usize = text.as_str().unicode_len();
        let mut c: usize = 0;
        while c < count
            invariant
                self.wf(),
                self.dimensions == old(self).dimensions,
                width == self.dimensions.0,
                count == text@.len(),
                pixel_y == position.1 * LINE_STEP,
                c <= count,
                inked(
                    start,
                    self.pixel_data@,
                    width,
                    |px: int, py: int|
                        if lit_so_far(text@, position, px, py, c as int, 0, 0) {
                            Some(COLOR_FONT)
                        } else {
                            None
                        },
                ),
            decreases count - c,
        {
            let glyph: usize = Self::glyph_index(text.as_str().get_char(c));
            let pixel_x: i128 = position.0 as i128 * GLYPH_STEP as i128 + (c as i128)
                * GLYPH_STEP as i128;
            let mut k: usize = 0;
            while k < 8
                invariant
                    self.wf(),
                    self.dimensions == old(self).dimensions,
                    width == self.dimensions.0,
                    count == text@.len(),
                    pixel_y == position.1 * LINE_STEP,
                    pixel_x == position.0 * GLYPH_STEP + c * GLYPH_STEP,
                    c < count,
                    glyph == glyph_of(text@[c as int]),
                    glyph < 12,
                    k <= 8,
                    inked(
                        start,
                        self.pixel_data@,
                        width,
                        |px: int, py: int|
                            if lit_so_far(text@, position, px, py, c as int, k as int, 0) {
                                Some(COLOR_FONT)
                            } else {
                                None
                            },
                    ),
                decreases 8 - k,
            {
                let new_y: i128 = pixel_y + k as i128;
                let mut i: usize = 0;
                while i < 5
                    invariant
                        self.wf(),
                        self.dimensions == old(self).dimensions,
                        width == self.dimensions.0,
                        count == text@.len(),
                        pixel_y == position.1 * LINE_STEP,
                        pixel_x == position.0 * GLYPH_STEP + c * GLYPH_STEP,
                        new_y == pixel_y + k,
                        c < count,
                        glyph == glyph_of(text@[c as int]),
                        glyph < 12,
                        k < 8,
                        i <= 5,
                        inked(
                            start,
                            self.pixel_data@,
                            width,
                            |px: int, py: int|
                                if lit_so_far(
                                    text@,
                                    position,
                                    px,
                                    py,
                                    c as int,
                                    k as int,
                                    i as int,
                                ) {
                                    Some(COLOR_FONT)
                                } else {
                                    None
                                },
                        ),
                    decreases 5 - i,
                {
                    let new_x: i128 = pixel_x + i as i128;
                    let ghost before = self.pixel_data@;
                    if new_x >= 0 && new_x < self.dimensions.0 as i128 && new_y >= 0 && new_y
                        < self.dimensions.1 as i128 {
                        if FONT[glyph][k][i] == 1 {
                            self.paint(
                                new_x as usize,
                                new_y as usize,
                                COLOR_FONT,
                            );
                        }
                    }
                    proof {
                        let now = self.pixel_data@;
                        assert forall|b: int| 0 <= b < start.len() implies #[trigger] now[b]
                            == if lit_so_far(
                            text@,
                            position,
                            pixel_of(width, b).0,
                            pixel_of(width, b).1,
                            c as int,
                            k as int,
                            i + 1,
                        ) {
                            COLOR_FONT[b % 4]
                        } else {
                            start[b]
                        } by {
                            let px = pixel_of(width, b).0;
                            let py = pixel_of(width, b).1;
                            lemma_position_of_index(width, self.dimensions.1 as int, b / 4);
                            let across = px - position.0 * GLYPH_STEP;
                            let down = py - position.1 * LINE_STEP;
                            assert((px == new_x && py == new_y) <==> (across / 6 == c && across % 6
                                == i && down == k));
                            assert(before[b] == before[b]);
                        }
                    }
                    i += 1;
                }
                k += 1;
            }
            c += 1;
        }
    }
}

} // verus!
