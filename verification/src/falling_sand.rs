//! The board: a dense, fixed-size grid of cells, its indexing and neighbour
//! queries, and the operations that paint and inspect it.

pub mod elements;
pub mod screen_texture;
pub mod update_functions;

use vstd::prelude::*;

use crate::chance::{heads_for, random_below, random_coin};
use crate::falling_sand::elements::{fresh_cell, Element, ElementType};
use crate::falling_sand::screen_texture::ScreenTexture;
use crate::footprint::same_frame;
use crate::grid::{coords_at, lemma_index_of_position, lemma_position_of_index, Grid};

verus! {

pub const COLORS_YELLOW: [u8; 4] = [0xCC, 0xCC, 0x00, 0xFF];

pub const COLORS_BLUE: [u8; 4] = [0x00, 0xCC, 0xFF, 0xFF];

pub const COLORS_MARIO_BACKGROUND: [u8; 4] = [0x09, 0x26, 0x41, 0xFF];

pub const COLORS_BACKGROUND: [u8; 4] = [0x21, 0x13, 0x38, 0xFF];

pub const COLORS_BLACK: [u8; 4] = [0x00, 0x00, 0x00, 0xFF];

pub const COLORS_WHITE: [u8; 4] = [0xFF, 0xFF, 0xFF, 0xFF];

pub const COLORS_GREY: [u8; 4] = [0xAA, 0xAA, 0xAA, 0xFF];

pub const COLORS_BROWN: [u8; 4] = [0x80, 0x5D, 0x3C, 0xFF];

pub const COLORS_LIGHT_GREEN: [u8; 4] = [0xAB, 0xF7, 0xB1, 0xFF];

pub const COLORS_PALE_YELLOW: [u8; 4] = [0xFF, 0xFC, 0xD3, 0xFF];

pub const COLORS_DARK_GREEN: [u8; 4] = [0x17, 0x35, 0x18, 0xFF];

pub const COLORS_DARK_RED: [u8; 4] = [0xFF, 0x00, 0x00, 0xFF];

pub const COLORS_DARK_ORANGE: [u8; 4] = [0xE7, 0x96, 0x8B, 0xFF];

/// The colour in which a material is shown.
pub open spec fn material_color(material: ElementType) -> [u8; 4] {
    match material {
        ElementType::Sand => COLORS_YELLOW,
        ElementType::Water => COLORS_BLUE,
        ElementType::Wall => COLORS_GREY,
        ElementType::Dirt => COLORS_BROWN,
        ElementType::Seed => COLORS_LIGHT_GREEN,
        ElementType::Grass => COLORS_PALE_YELLOW,
        ElementType::Kelp => COLORS_DARK_GREEN,
        ElementType::Minnow => COLORS_DARK_RED,
        ElementType::Egg => COLORS_DARK_ORANGE,
        _ => COLORS_MARIO_BACKGROUND,
    }
}

/// The simulation board.
pub struct SandBoard {
    granules: Vec<Element>,
    pub width: usize,
    pub height: usize,
    /// Whether the bottom edge is a solid floor. When it is not, what falls
    /// past the bottom row is deleted.
    pub is_floor: bool,
    update_cycle: bool,
}

/// How many cells of `cells` hold a material other than `Empty`.
pub open spec fn count_granules(cells: Seq<Element>) -> nat
    decreases cells.len(),
{
    if cells.len() == 0 {
        0
    } else {
        count_granules(cells.drop_last()) + if cells.last().element_type != ElementType::Empty {
            1nat
        } else {
            0nat
        }
    }
}

/// The cell at `(x + dx, y + dy)`, or the `ScreenEdge` sentinel where that
/// position is off the grid.
pub open spec fn neighbour_cell(g: Grid, x: int, y: int, dx: int, dy: int) -> Element {
    if g.in_bounds(x + dx, y + dy) {
        g.cells[g.index_of(x + dx, y + dy)]
    } else {
        fresh_cell(ElementType::ScreenEdge, false)
    }
}

/// Whether `(x, y)` is less than `radius` away from `(cx, cy)`, as the crow
/// flies.
pub open spec fn within_radius(cx: int, cy: int, x: int, y: int, radius: int) -> bool {
    (x - cx) * (x - cx) + (y - cy) * (y - cy) < radius * radius
}

/// Whether painting with `radius` around `(cx, cy)` covers the cell at
/// `index`.
pub open spec fn covered(g: Grid, cx: int, cy: int, radius: int, index: int) -> bool {
    within_radius(cx, cy, g.column(index), g.row(index), radius)
}

/// How many of the first `count` cells were empty and are covered by
/// painting with `radius` around `(cx, cy)`.
pub open spec fn count_filled(g: Grid, cx: int, cy: int, radius: int, count: nat) -> nat
    decreases count,
{
    if count == 0 {
        0
    } else {
        count_filled(g, cx, cy, radius, (count - 1) as nat) + if covered(
            g,
            cx,
            cy,
            radius,
            count - 1,
        ) && g.material(count - 1) == ElementType::Empty {
            1nat
        } else {
            0nat
        }
    }
}

/// Whether `after` is `before` painted with `material` within `radius` of
/// `(cx, cy)`: every cell covered is a default cell of the material, water
/// facing either way, and every other cell is as it was. The `ScreenEdge`
/// sentinel is no paint: with it, the grid is as it was.
pub open spec fn painted(
    before: Grid,
    after: Grid,
    cx: int,
    cy: int,
    radius: int,
    material: ElementType,
) -> bool {
    if material == ElementType::ScreenEdge {
        after == before
    } else {
        painted_over(before, after, cx, cy, radius, material)
    }
}

/// Whether `after` is `before` with every cell within `radius` of
/// `(cx, cy)` made a default cell of `material`, water facing either way,
/// and every other cell as it was.
pub open spec fn painted_over(
    before: Grid,
    after: Grid,
    cx: int,
    cy: int,
    radius: int,
    material: ElementType,
) -> bool {
    &&& same_frame(before, after)
    &&& forall|j: int|
        0 <= j < before.cells.len() ==> #[trigger] after.cells[j] == if covered(
            before,
            cx,
            cy,
            radius,
            j,
        ) {
            fresh_cell(material, after.cells[j].direction)
        } else {
            before.cells[j]
        }
}

/// Whether `after` is `before` with every cell of the rows from `from_row`
/// up to `to_row` exclusive made a default cell of `material`. Water may face
/// either way.
pub open spec fn rows_filled(
    before: Grid,
    after: Grid,
    from_row: int,
    to_row: int,
    material: ElementType,
) -> bool {
    &&& same_frame(before, after)
    &&& forall|j: int|
        0 <= j < before.cells.len() ==> #[trigger] after.cells[j] == if from_row <= before.row(j)
            < to_row {
            fresh_cell(material, after.cells[j].direction)
        } else {
            before.cells[j]
        }
}

/// Whether `after` can come of scattering sand and water over the rows of
/// `before` from `from_row` up to `to_row` exclusive: each cell of those
/// rows is as it was, or default sand if `sand` is allowed, or default water
/// facing either way if `water` is allowed; every other cell is as it was.
pub open spec fn rows_scattered(
    before: Grid,
    after: Grid,
    from_row: int,
    to_row: int,
    sand: bool,
    water: bool,
) -> bool {
    &&& same_frame(before, after)
    &&& forall|j: int|
        0 <= j < before.cells.len() ==> {
            ||| #[trigger] after.cells[j] == before.cells[j]
            ||| from_row <= before.row(j) < to_row && sand && after.cells[j] == fresh_cell(
                ElementType::Sand,
                false,
            )
            ||| from_row <= before.row(j) < to_row && water && after.cells[j] == fresh_cell(
                ElementType::Water,
                after.cells[j].direction,
            )
        }
}

/// What scattering makes of the cell `cell` when `drawn` is thrown for it,
/// out of a hundred: sand where the throw is below `sand_percent`, water
/// facing as `facing` says where it is below `sand_percent + water_percent`,
/// and the cell as it was otherwise.
pub open spec fn sprinkled(
    cell: Element,
    drawn: u32,
    facing: bool,
    sand_percent: u32,
    water_percent: u32,
) -> Element {
    if drawn < sand_percent {
        fresh_cell(ElementType::Sand, false)
    } else if drawn < sand_percent + water_percent {
        fresh_cell(ElementType::Water, facing)
    } else {
        cell
    }
}

/// The grid `before` with sand and water scattered over the rows from
/// `from_row` up to `to_row` exclusive, where `draws[j]` is thrown for the
/// cell at `j` and `facings[j]` is the way it faces if it becomes water.
/// Every other cell is as it was.
pub open spec fn scattered(
    before: Grid,
    from_row: int,
    to_row: int,
    sand_percent: u32,
    water_percent: u32,
    draws: Seq<u32>,
    facings: Seq<bool>,
) -> Grid {
    Grid {
        cells: Seq::new(
            before.cells.len(),
            |j: int|
                if from_row <= before.row(j) < to_row {
                    sprinkled(before.cells[j], draws[j], facings[j], sand_percent, water_percent)
                } else {
                    before.cells[j]
                },
        ),
        ..before
    }
}

/// Whether `draws` and `facings` hold a throw out of a hundred and a facing
/// for each of `count` cells.
pub open spec fn percent_draws(draws: Seq<u32>, facings: Seq<bool>, count: nat) -> bool {
    &&& draws.len() == count
    &&& facings.len() == count
    &&& forall|j: int| 0 <= j < count ==> #[trigger] draws[j] < 100
}

/// Painting with radius zero covers no cell, so it fills none.
pub proof fn lemma_radius_zero_covers_nothing(g: Grid, cx: int, cy: int, count: nat)
    ensures
        forall|j: int| !covered(g, cx, cy, 0, j),
        count_filled(g, cx, cy, 0, count) == 0,
    decreases count,
{
    assert forall|j: int| !covered(g, cx, cy, 0, j) by {
        let dx = g.column(j) - cx;
        let dy = g.row(j) - cy;
        assert(dx * dx + dy * dy >= 0) by (nonlinear_arith);
    }
    if count > 0 {
        lemma_radius_zero_covers_nothing(g, cx, cy, (count - 1) as nat);
    }
}

/// A board of `count` default empty cells.
pub open spec fn empty_cells(count: nat) -> Seq<Element> {
    Seq::new(count, |i: int| fresh_cell(ElementType::Empty, false))
}

/// A grid of nothing but empty cells holds no granule.
pub proof fn lemma_empty_cells_hold_no_granule(count: nat)
    ensures
        count_granules(empty_cells(count)) == 0,
    decreases count,
{
    if count > 0 {
        assert(empty_cells(count).drop_last() =~= empty_cells((count - 1) as nat));
        lemma_empty_cells_hold_no_granule((count - 1) as nat);
    }
}

impl View for SandBoard {
    type V = Grid;

    closed spec fn view(&self) -> Grid {
        Grid {
            cells: self.granules@,
            width: self.width as int,
            height: self.height as int,
            is_floor: self.is_floor,
            parity: self.update_cycle,
        }
    }
}

impl SandBoard {
    /// The board's dimensions match its cells and no cell holds the
    /// `ScreenEdge` sentinel. Every operation keeps this.
    pub open spec fn wf(&self) -> bool {
        self@.wf()
    }

    /// A board of `width` by `height` empty cells, with a solid floor.
    pub fn new(width: usize, height: usize) -> (board: Self)
        requires
            width * height <= usize::MAX,
        ensures
            board.wf(),
            board@ == (Grid {
                cells: empty_cells((width * height) as nat),
                width: width as int,
                height: height as int,
                is_floor: true,
                parity: true,
            }),
            count_granules(board@.cells) == 0,
            forall|i: int|
                0 <= i < board@.cells.len() ==> (#[trigger] board@.cells[i]).element_type
                    == ElementType::Empty,
    {
        proof {
            lemma_empty_cells_hold_no_granule((width * height) as nat);
        }
        let indices: usize = width * height;
        let mut granules: Vec<Element> = Vec::new();
        let mut i: usize = 0;
        while i < indices
            invariant
                i <= indices,
                granules@ == empty_cells(i as nat),
            decreases indices - i,
        {
            granules.push(Element::fresh(ElementType::Empty, false));
            i += 1;
            assert(granules@ =~= empty_cells(i as nat));
        }
        Self { granules, width, height, is_floor: true, update_cycle: true }
    }

    /// Empties every cell in place. Dimensions, floor and parity stay.
    pub fn reset(&mut self)
        requires
            old(self).wf(),
        ensures
            final(self).wf(),
            final(self)@ == (Grid { cells: empty_cells(old(self)@.cells.len()), ..old(self)@ }),
            count_granules(final(self)@.cells) == 0,
            forall|i: int|
                0 <= i < final(self)@.cells.len() ==> (#[trigger] final(self)@.cells[i]).element_type
                    == ElementType::Empty,
    {
        proof {
            lemma_empty_cells_hold_no_granule(self@.cells.len());
        }
        let indices: usize = self.granules.len();
        let mut granules: Vec<Element> = Vec::new();
        let mut i: usize = 0;
        while i < indices
            invariant
                i <= indices,
                granules@ == empty_cells(i as nat),
            decreases indices - i,
        {
            granules.push(Element::fresh(ElementType::Empty, false));
            i += 1;
            assert(granules@ =~= empty_cells(i as nat));
        }
        self.granules = granules;
    }

    /// The row-major index of `(x, y)`.
    pub fn get_index_from_coordinates(&self, x: usize, y: usize) -> (index: usize)
        requires
            self.wf(),
            self@.in_bounds(x as int, y as int),
        ensures
            index == self@.index_of(x as int, y as int),
            index < self@.cells.len(),
            coords_at(self@.width, index as int) == (x as int, y as int),
    {
        proof {
            lemma_index_of_position(self.width as int, self.height as int, x as int, y as int);
            assert(0 <= y * self.width) by (nonlinear_arith);
            assert(y * self.width + x < self.granules.len());
        }
        y * self.width + x
    }

    /// The position `(x, y)` of the row-major index `index`.
    pub fn get_coordinates_from_index(&self, index: usize) -> (position: (usize, usize))
        requires
            self.wf(),
            index < self@.cells.len(),
        ensures
            (position.0 as int, position.1 as int) == coords_at(self@.width, index as int),
            self@.in_bounds(position.0 as int, position.1 as int),
            self@.index_of(position.0 as int, position.1 as int) == index,
    {
        proof {
            lemma_position_of_index(self.width as int, self.height as int, index as int);
        }
        let x: usize = index % self.width;
        let y: usize = index / self.width;
        (x, y)
    }

    /// Whether `(x, y)` is a position on the board.
    pub fn is_in_coordinate_bounds(&self, x: usize, y: usize) -> (inside: bool)
        ensures
            inside == self@.in_bounds(x as int, y as int),
    {
        x < self.width && y < self.height
    }

    /// Whether the signed position `(x, y)` is on the board.
    pub fn is_in_coordinate_bounds_signed(&self, x: i64, y: i64) -> (inside: bool)
        ensures
            inside == self@.in_bounds(x as int, y as int),
    {
        x >= 0 && (x as u64 as u128) < self.width as u128 && y >= 0 && (y as u64 as u128)
            < self.height as u128
    }

    /// The index of the cell `(x_relative, y_relative)` away from `index`, or
    /// `None` where that position is off the board.
    pub fn get_relative_index(&self, index: usize, x_relative: i64, y_relative: i64) -> (neighbour:
        Option<usize>)
        requires
            self.wf(),
            index < self@.cells.len(),
        ensures
            match neighbour {
                Some(found) => self@.relative(index as int, x_relative as int, y_relative as int)
                    == Some(found as int) && found < self@.cells.len(),
                None => self@.relative(index as int, x_relative as int, y_relative as int)
                    is None,
            },
    {
        let (x, y) = self.get_coordinates_from_index(index);
        let new_x: i128 = x as i128 + x_relative as i128;
        let new_y: i128 = y as i128 + y_relative as i128;
        if new_x >= 0 && new_x < self.width as i128 && new_y >= 0 && new_y < self.height as i128 {
            Some(self.get_index_from_coordinates(new_x as usize, new_y as usize))
        } else {
            None
        }
    }

    /// The cell at `(x, y)`, or `None` where that position is off the board.
    pub fn granule_at(&self, x: usize, y: usize) -> (found: Option<Element>)
        requires
            self.wf(),
        ensures
            found == if self@.in_bounds(x as int, y as int) {
                Some(self@.cells[self@.index_of(x as int, y as int)])
            } else {
                None
            },
    {
        if self.is_in_coordinate_bounds(x, y) {
            let index: usize = self.get_index_from_coordinates(x, y);
            Some(self.granules[index])
        } else {
            None
        }
    }

    /// The parity bit: cells whose `update_toggle` equals it are skipped by
    /// the sweep in progress.
    pub fn cycle_parity(&self) -> (parity: bool)
        ensures
            parity == self@.parity,
    {
        self.update_cycle
    }

    /// How many cells hold a material other than `Empty`.
    pub fn get_granule_count(&self) -> (count: usize)
        ensures
            count == count_granules(self@.cells),
    {
        let mut count: usize = 0;
        let mut i: usize = 0;
        while i < self.granules.len()
            invariant
                i <= self.granules.len(),
                count <= i,
                count == count_granules(self.granules@.take(i as int)),
            decreases self.granules.len() - i,
        {
            assert(self.granules@.take(i as int + 1).drop_last() =~= self.granules@.take(i as int));
            if self.granules[i].element_type != ElementType::Empty {
                count += 1;
            }
            i += 1;
        }
        assert(self.granules@.take(i as int) =~= self.granules@);
        count
    }

    /// The cell `(x_relative, y_relative)` away from `index`, or the
    /// `ScreenEdge` sentinel where that position is off the board.
    fn peek(&self, index: usize, x_relative: i64, y_relative: i64) -> (cell: Element)
        requires
            self.wf(),
            index < self@.cells.len(),
        ensures
            cell == neighbour_cell(
                self@,
                self@.column(index as int),
                self@.row(index as int),
                x_relative as int,
                y_relative as int,
            ),
    {
        match self.get_relative_index(index, x_relative, y_relative) {
            Some(found) => self.granules[found],
            None => Element::fresh(ElementType::ScreenEdge, false),
        }
    }

    /// The three by three cells around the cell at `center_index`, row by
    /// row from the top, the cell itself in the middle. Positions off the
    /// board hold the `ScreenEdge` sentinel, and only they do.
    pub fn get_surrounding_from_index(&self, center_index: usize) -> (window: [[Element; 3]; 3])
        requires
            self.wf(),
            center_index < self@.cells.len(),
        ensures
            forall|k: int, i: int|
                0 <= k < 3 && 0 <= i < 3 ==> #[trigger] window[k][i] == neighbour_cell(
                    self@,
                    self@.column(center_index as int),
                    self@.row(center_index as int),
                    i - 1,
                    k - 1,
                ),
            forall|k: int, i: int|
                0 <= k < 3 && 0 <= i < 3 ==> ((#[trigger] window[k][i]).element_type
                    == ElementType::ScreenEdge <==> !self@.in_bounds(
                    self@.column(center_index as int) + i - 1,
                    self@.row(center_index as int) + k - 1,
                )),
    {
        proof {
            lemma_position_of_index(self@.width, self@.height, center_index as int);
            assert forall|x: int, y: int| self@.in_bounds(x, y) implies 0 <= self@.index_of(x, y)
                < self@.cells.len() by {
                lemma_index_of_position(self@.width, self@.height, x, y);
            }
        }
        [
            [
                self.peek(center_index, -1, -1),
                self.peek(center_index, 0, -1),
                self.peek(center_index, 1, -1),
            ],
            [
                self.peek(center_index, -1, 0),
                self.peek(center_index, 0, 0),
                self.peek(center_index, 1, 0),
            ],
            [
                self.peek(center_index, -1, 1),
                self.peek(center_index, 0, 1),
                self.peek(center_index, 1, 1),
            ],
        ]
    }

    /// The three by three cells around `(x, y)`, as
    /// `get_surrounding_from_index` gives them; nine empty cells where
    /// `(x, y)` itself is off the board.
    pub fn get_surrounding(&self, x: usize, y: usize) -> (window: [[Element; 3]; 3])
        requires
            self.wf(),
        ensures
            forall|k: int, i: int|
                0 <= k < 3 && 0 <= i < 3 ==> #[trigger] window[k][i] == if self@.in_bounds(
                    x as int,
                    y as int,
                ) {
                    neighbour_cell(self@, x as int, y as int, i - 1, k - 1)
                } else {
                    fresh_cell(ElementType::Empty, false)
                },
    {
        if self.is_in_coordinate_bounds(x, y) {
            let center_index = self.get_index_from_coordinates(x, y);
            self.get_surrounding_from_index(center_index)
        } else {
            let empty = Element::fresh(ElementType::Empty, false);
            [[empty, empty, empty], [empty, empty, empty], [empty, empty, empty]]
        }
    }

    /// Whether `(px, py)` is less than `radius` away from `(cx, cy)`.
    fn is_within_radius(px: usize, py: usize, cx: usize, cy: usize, radius: usize) -> (inside:
        bool)
        ensures
            inside == within_radius(cx as int, cy as int, px as int, py as int, radius as int),
    {
        let dx: u128 = if px >= cx {
            (px - cx) as u128
        } else {
            (cx - px) as u128
        };
        let dy: u128 = if py >= cy {
            (py - cy) as u128
        } else {
            (cy - py) as u128
        };
        let reach: u128 = radius as u128;
        proof {
            assert((px - cx) * (px - cx) == dx * dx) by (nonlinear_arith)
                requires
                    dx == px - cx || dx == cx - px,
            ;
            assert((py - cy) * (py - cy) == dy * dy) by (nonlinear_arith)
                requires
                    dy == py - cy || dy == cy - py,
            ;
        }
        if dx >= reach || dy >= reach {
            proof {
                assert(dx * dx + dy * dy >= reach * reach) by (nonlinear_arith)
                    requires
                        dx >= reach || dy >= reach,
                        0 <= dx,
                        0 <= dy,
                        0 <= reach,
                ;
            }
            return false;
        }
        proof {
            assert(dx * dx < reach * reach && dy * dy < reach * reach && reach * reach
                <= 0xFFFF_FFFF_FFFF_FFFF * 0xFFFF_FFFF_FFFF_FFFF) by (nonlinear_arith)
                requires
                    0 <= dx < reach,
                    0 <= dy < reach,
                    reach <= 0xFFFF_FFFF_FFFF_FFFF,
            ;
        }
        dx * dx < reach * reach - dy * dy
    }

    /// Paints with `granule_type` every cell of the board that is less than
    /// `radius` away from `(x, y)`, whatever it held, and returns how many of
    /// the cells painted were empty before. `(x, y)` need not be on the
    /// board, and a radius of zero paints nothing. Each painted cell is the
    /// default cell of the material; painted water faces either way. The
    /// `ScreenEdge` sentinel is never written: with it nothing is painted
    /// and nothing counted.
    pub fn add_granules(&mut self, x: usize, y: usize, radius: usize, granule_type: ElementType)
        -> (added: usize)
        requires
            old(self).wf(),
        ensures
            final(self).wf(),
            painted(old(self)@, final(self)@, x as int, y as int, radius as int, granule_type),
            radius == 0 ==> final(self)@ == old(self)@ && added == 0,
            granule_type == ElementType::ScreenEdge ==> final(self)@ == old(self)@ && added == 0,
            granule_type != ElementType::ScreenEdge ==> added == count_filled(
                old(self)@,
                x as int,
                y as int,
                radius as int,
                old(self)@.cells.len(),
            ),
    {
        if granule_type == ElementType::ScreenEdge {
            return 0;
        }
        let ghost start = self@;
        let count: usize = self.granules.len();
        let mut added: usize = 0;
        let mut index: usize = 0;
        while index < count
            invariant
                self.wf(),
                start.wf(),
                same_frame(start, self@),
                count == start.cells.len(),
                index <= count,
                added <= index,
                granule_type != ElementType::ScreenEdge,
                added == count_filled(start, x as int, y as int, radius as int, index as nat),
                forall|j: int|
                    0 <= j < index ==> #[trigger] self@.cells[j] == if covered(
                        start,
                        x as int,
                        y as int,
                        radius as int,
                        j,
                    ) {
                        fresh_cell(granule_type, self@.cells[j].direction)
                    } else {
                        start.cells[j]
                    },
                forall|j: int| index <= j < count ==> #[trigger] self@.cells[j] == start.cells[j],
            decreases count - index,
        {
            let (px, py) = self.get_coordinates_from_index(index);
            if Self::is_within_radius(px, py, x, y, radius) {
                if self.granules[index].element_type == ElementType::Empty {
                    added += 1;
                }
                self.put(index, Element::new(granule_type));
            }
            index += 1;
        }
        proof {
            if radius == 0 {
                lemma_radius_zero_covers_nothing(start, x as int, y as int, count as nat);
                assert(self@.cells =~= start.cells);
            }
        }
        added
    }

    /// How many cells wide the board is.
    pub fn width(&self) -> (width: usize)
        ensures
            width == self@.width,
    {
        self.width
    }

    /// How many cells high the board is.
    pub fn height(&self) -> (height: usize)
        ensures
            height == self@.height,
    {
        self.height
    }

    /// Makes the bottom edge a solid floor, or an open drain.
    pub fn set_floor(&mut self, is_floor: bool)
        ensures
            final(self)@ == (Grid { is_floor, ..old(self)@ }),
    {
        self.is_floor = is_floor;
    }

    /// Whether the bottom edge is a solid floor.
    pub fn has_floor(&self) -> (is_floor: bool)
        ensures
            is_floor == self@.is_floor,
    {
        self.is_floor
    }

    /// Paints the cell at `(x, y)` with the default cell of `granule_type`,
    /// if `(x, y)` is on the board. The `ScreenEdge` sentinel is never
    /// written: with it the board stays as it is.
    pub fn add_granule(&mut self, x: usize, y: usize, granule_type: ElementType)
        requires
            old(self).wf(),
        ensures
            final(self).wf(),
            granule_type == ElementType::ScreenEdge ==> final(self)@ == old(self)@,
            exists|facing: bool|
                final(self)@ == if old(self)@.in_bounds(x as int, y as int) && granule_type
                    != ElementType::ScreenEdge {
                    old(self)@.set(
                        old(self)@.index_of(x as int, y as int),
                        #[trigger] fresh_cell(granule_type, facing),
                    )
                } else {
                    old(self)@
                },
    {
        if granule_type != ElementType::ScreenEdge && self.is_in_coordinate_bounds(x, y) {
            let index: usize = self.get_index_from_coordinates(x, y);
            let cell = Element::new(granule_type);
            self.put(index, cell);
            assert(cell == fresh_cell(granule_type, cell.direction));
        } else {
            assert(fresh_cell(granule_type, false) == fresh_cell(granule_type, false));
        }
    }

    /// Writes `cell` at `(x, y)`, if `(x, y)` is on the board. A cell that
    /// holds the `ScreenEdge` sentinel is never written: with it the board
    /// stays as it is.
    pub fn place(&mut self, x: usize, y: usize, cell: Element)
        requires
            old(self).wf(),
        ensures
            final(self).wf(),
            final(self)@ == if old(self)@.in_bounds(x as int, y as int) && cell.element_type
                != ElementType::ScreenEdge {
                old(self)@.set(old(self)@.index_of(x as int, y as int), cell)
            } else {
                old(self)@
            },
    {
        if cell.element_type != ElementType::ScreenEdge && self.is_in_coordinate_bounds(x, y) {
            let index: usize = self.get_index_from_coordinates(x, y);
            self.put(index, cell);
        }
    }

    /// Makes every cell of the rows from `from_row` up to `to_row` exclusive
    /// a default cell of `material`.
    fn fill_rows(&mut self, from_row: usize, to_row: usize, material: ElementType)
        requires
            old(self).wf(),
            material != ElementType::ScreenEdge,
        ensures
            final(self).wf(),
            rows_filled(old(self)@, final(self)@, from_row as int, to_row as int, material),
    {
        let ghost start = self@;
        let count: usize = self.granules.len();
        let mut index: usize = 0;
        while index < count
            invariant
                self.wf(),
                start.wf(),
                same_frame(start, self@),
                count == start.cells.len(),
                index <= count,
                material != ElementType::ScreenEdge,
                forall|j: int|
                    0 <= j < index ==> #[trigger] self@.cells[j] == if from_row <= start.row(j)
                        < to_row {
                        fresh_cell(material, self@.cells[j].direction)
                    } else {
                        start.cells[j]
                    },
                forall|j: int| index <= j < count ==> #[trigger] self@.cells[j] == start.cells[j],
            decreases count - index,
        {
            let (_, row) = self.get_coordinates_from_index(index);
            if from_row <= row && row < to_row {
                self.put(index, Element::new(material));
            }
            index += 1;
        }
    }

    /// Scatters over the cell at `index` what the throw `drawn`, out of a
    /// hundred, calls for: sand where it is below `sand_percent`, water
    /// facing as `facing` says where it is below
    /// `sand_percent + water_percent`, and nothing otherwise.
    pub fn sprinkle(
        &mut self,
        index: usize,
        drawn: u32,
        facing: bool,
        sand_percent: u32,
        water_percent: u32,
    )
        requires
            old(self).wf(),
            index < old(self)@.cells.len(),
        ensures
            final(self).wf(),
            final(self)@ == old(self)@.set(
                index as int,
                sprinkled(
                    old(self)@.cells[index as int],
                    drawn,
                    facing,
                    sand_percent,
                    water_percent,
                ),
            ),
    {
        if drawn < sand_percent {
            self.put(index, Element::fresh(ElementType::Sand, false));
        } else if (drawn as u64) < sand_percent as u64 + water_percent as u64 {
            self.put(index, Element::fresh(ElementType::Water, facing));
        } else {
            assert(self@.cells =~= self@.cells.update(index as int, self@.cells[index as int]));
        }
    }

    /// Scatters sand and water over the rows from `from_row` up to `to_row`
    /// exclusive: for each cell of those rows a number below a hundred is
    /// thrown, and the cell becomes what `sprinkle` makes of it for that
    /// throw, so sand with a chance of `sand_percent` in a hundred and water
    /// with a chance of `water_percent` in a hundred; water faces either way.
    /// Whatever is thrown, the board is left as `scattered` describes for the
    /// throws.
    fn scatter(&mut self, from_row: usize, to_row: usize, sand_percent: u32, water_percent: u32)
        requires
            old(self).wf(),
            sand_percent + water_percent <= 100,
        ensures
            final(self).wf(),
            exists|draws: Seq<u32>, facings: Seq<bool>|
                percent_draws(draws, facings, old(self)@.cells.len()) && final(self)@
                    == #[trigger] scattered(
                    old(self)@,
                    from_row as int,
                    to_row as int,
                    sand_percent,
                    water_percent,
                    draws,
                    facings,
                ),
            rows_scattered(
                old(self)@,
                final(self)@,
                from_row as int,
                to_row as int,
                sand_percent > 0,
                water_percent > 0,
            ),
    {
        let ghost start = self@;
        let ghost mut draws: Seq<u32> = Seq::empty();
        let ghost mut facings: Seq<bool> = Seq::empty();
        let mut rng = rand::thread_rng();
        let count: usize = self.granules.len();
        let mut index: usize = 0;
        while index < count
            invariant
                self.wf(),
                start.wf(),
                same_frame(start, self@),
                count == start.cells.len(),
                index <= count,
                sand_percent + water_percent <= 100,
                percent_draws(draws, facings, index as nat),
                forall|j: int|
                    0 <= j < index ==> #[trigger] self@.cells[j] == if from_row <= start.row(j)
                        < to_row {
                        sprinkled(
                            start.cells[j],
                            draws[j],
                            facings[j],
                            sand_percent,
                            water_percent,
                        )
                    } else {
                        start.cells[j]
                    },
                forall|j: int| index <= j < count ==> #[trigger] self@.cells[j] == start.cells[j],
            decreases count - index,
        {
            let (_, row) = self.get_coordinates_from_index(index);
            let ghost before = self@;
            let ghost thrown = draws;
            let ghost faced = facings;
            if from_row <= row && row < to_row {
                let drawn: u32 = random_below(&mut rng, 0, 100);
                let wet = sand_percent <= drawn && drawn < sand_percent + water_percent;
                let facing = if wet {
                    heads_for(random_coin(&mut rng))
                } else {
                    false
                };
                self.sprinkle(index, drawn, facing, sand_percent, water_percent);
                proof {
                    draws = draws.push(drawn);
                    facings = facings.push(facing);
                }
            } else {
                proof {
                    draws = draws.push(0);
                    facings = facings.push(false);
                }
            }
            proof {
                assert forall|j: int| 0 <= j < index + 1 implies #[trigger] self@.cells[j]
                    == if from_row <= start.row(j) < to_row {
                    sprinkled(start.cells[j], draws[j], facings[j], sand_percent, water_percent)
                } else {
                    start.cells[j]
                } by {
                    if j < index {
                        assert(draws[j] == thrown[j] && facings[j] == faced[j]);
                        assert(before.cells[j] == before.cells[j]);
                    }
                }
            }
            index += 1;
        }
        proof {
            assert(self@.cells =~= scattered(
                start,
                from_row as int,
                to_row as int,
                sand_percent,
                water_percent,
                draws,
                facings,
            ).cells);
            assert(self@ == scattered(
                start,
                from_row as int,
                to_row as int,
                sand_percent,
                water_percent,
                draws,
                facings,
            ));
        }
    }

    /// Turns the first ten cells of the board into sand.
    pub fn first_ten(&mut self)
        requires
            old(self).wf(),
        ensures
            final(self).wf(),
            same_frame(old(self)@, final(self)@),
            forall|j: int|
                0 <= j < old(self)@.cells.len() ==> #[trigger] final(self)@.cells[j] == if j < 10 {
                    fresh_cell(ElementType::Sand, false)
                } else {
                    old(self)@.cells[j]
                },
    {
        let ghost start = self@;
        let count: usize = self.granules.len();
        let mut index: usize = 0;
        while index < count && index < 10
            invariant
                self.wf(),
                same_frame(start, self@),
                count == start.cells.len(),
                index <= count,
                index <= 10,
                forall|j: int|
                    0 <= j < index ==> #[trigger] self@.cells[j] == fresh_cell(
                        ElementType::Sand,
                        false,
                    ),
                forall|j: int| index <= j < count ==> #[trigger] self@.cells[j] == start.cells[j],
            decreases count - index,
        {
            self.put(index, Element::fresh(ElementType::Sand, false));
            index += 1;
        }
    }

    /// Turns the middle row of the board, row `height / 2`, into sand.
    pub fn middle(&mut self)
        requires
            old(self).wf(),
        ensures
            final(self).wf(),
            rows_filled(
                old(self)@,
                final(self)@,
                old(self)@.height / 2,
                old(self)@.height / 2 + 1,
                ElementType::Sand,
            ),
    {
        let row: usize = self.height / 2;
        self.fill_rows(row, row + 1, ElementType::Sand);
    }

    /// Turns every cell into sand with chance one half: for each cell a
    /// number below a hundred is thrown, and the cell becomes sand where the
    /// throw is below fifty. Whatever is thrown, the board is left as
    /// `scattered` describes for the throws.
    pub fn randomize(&mut self)
        requires
            old(self).wf(),
        ensures
            final(self).wf(),
            exists|draws: Seq<u32>, facings: Seq<bool>|
                percent_draws(draws, facings, old(self)@.cells.len()) && final(self)@
                    == #[trigger] scattered(
                    old(self)@,
                    0,
                    old(self)@.height,
                    50,
                    0,
                    draws,
                    facings,
                ),
            rows_scattered(old(self)@, final(self)@, 0, old(self)@.height, true, false),
    {
        self.scatter(0, self.height, 50, 0);
    }

    /// Turns every cell of the upper half of the board, the rows above row
    /// `height / 2`, into sand with chance one half: for each of those cells
    /// a number below a hundred is thrown, and the cell becomes sand where
    /// the throw is below fifty. The lower half stays as it is. Whatever is
    /// thrown, the board is left as `scattered` describes for the throws.
    pub fn randomize_top(&mut self)
        requires
            old(self).wf(),
        ensures
            final(self).wf(),
            exists|draws: Seq<u32>, facings: Seq<bool>|
                percent_draws(draws, facings, old(self)@.cells.len()) && final(self)@
                    == #[trigger] scattered(
                    old(self)@,
                    0,
                    old(self)@.height / 2,
                    50,
                    0,
                    draws,
                    facings,
                ),
            rows_scattered(old(self)@, final(self)@, 0, old(self)@.height / 2, true, false),
    {
        self.scatter(0, self.height / 2, 50, 0);
    }

    /// Scatters an ocean over the rows above row `height / 10 * 9`: for each
    /// of those cells a number below a hundred is thrown, and the cell
    /// becomes sand where the throw is below 5, water facing either way where
    /// it is below 85, and stays as it is otherwise. The rows below stay as
    /// they are. Whatever is thrown, the board is left as `scattered`
    /// describes for the throws.
    pub fn randomize_ocean(&mut self)
        requires
            old(self).wf(),
        ensures
            final(self).wf(),
            exists|draws: Seq<u32>, facings: Seq<bool>|
                percent_draws(draws, facings, old(self)@.cells.len()) && final(self)@
                    == #[trigger] scattered(
                    old(self)@,
                    0,
                    old(self)@.height / 10 * 9,
                    5,
                    80,
                    draws,
                    facings,
                ),
            rows_scattered(
                old(self)@,
                final(self)@,
                0,
                old(self)@.height / 10 * 9,
                true,
                true,
            ),
    {
        self.scatter(0, (self.height / 10) * 9, 5, 80);
    }

    /// Fills the rows above row `height / 20 * 19` with water and the rows
    /// from there down with sand.
    pub fn boring_ocean(&mut self)
        requires
            old(self).wf(),
        ensures
            final(self).wf(),
            same_frame(old(self)@, final(self)@),
            forall|j: int|
                0 <= j < old(self)@.cells.len() ==> #[trigger] final(self)@.cells[j] == if old(
                    self,
                )@.row(j) < old(self)@.height / 20 * 19 {
                    fresh_cell(ElementType::Water, final(self)@.cells[j].direction)
                } else {
                    fresh_cell(ElementType::Sand, false)
                },
    {
        let shore: usize = (self.height / 20) * 19;
        let ghost start = self@;
        self.fill_rows(0, shore, ElementType::Water);
        let ghost wet = self@;
        self.fill_rows(shore, self.height, ElementType::Sand);
        proof {
            assert forall|j: int| 0 <= j < start.cells.len() implies #[trigger] self@.cells[j]
                == if start.row(j) < start.height / 20 * 19 {
                fresh_cell(ElementType::Water, self@.cells[j].direction)
            } else {
                fresh_cell(ElementType::Sand, false)
            } by {
                lemma_position_of_index(start.width, start.height, j);
                assert(wet.cells[j] == wet.cells[j]);
            }
        }
    }

    /// Fills the rows below row `height / 20 * 19` with sand.
    pub fn boring_sand(&mut self)
        requires
            old(self).wf(),
        ensures
            final(self).wf(),
            rows_filled(
                old(self)@,
                final(self)@,
                old(self)@.height / 20 * 19 + 1,
                old(self)@.height,
                ElementType::Sand,
            ),
    {
        let shore: usize = (self.height / 20) * 19;
        self.fill_rows(shore + 1, self.height, ElementType::Sand);
    }

    /// The colour in which a material is shown.
    fn color_of(material: ElementType) -> (color: [u8; 4])
        ensures
            color == material_color(material),
    {
        match material {
            ElementType::Sand => COLORS_YELLOW,
            ElementType::Water => COLORS_BLUE,
            ElementType::Wall => COLORS_GREY,
            ElementType::Dirt => COLORS_BROWN,
            ElementType::Seed => COLORS_LIGHT_GREEN,
            ElementType::Grass => COLORS_PALE_YELLOW,
            ElementType::Kelp => COLORS_DARK_GREEN,
            ElementType::Minnow => COLORS_DARK_RED,
            ElementType::Egg => COLORS_DARK_ORANGE,
            _ => COLORS_MARIO_BACKGROUND,
        }
    }

    /// A picture of the board: one pixel a cell, in the colour of the cell's
    /// material.
    pub fn output_texture(&self) -> (texture: ScreenTexture)
        requires
            self.wf(),
        ensures
            texture.wf(),
            texture.dimensions.0 == self@.width,
            texture.dimensions.1 == self@.height,
            texture.pixel_data@.len() == self@.cells.len() * 4,
            forall|k: int|
                0 <= k < texture.pixel_data@.len() ==> #[trigger] texture.pixel_data@[k]
                    == material_color(self@.material(k / 4))[k % 4],
    {
        let max_index: usize = self.granules.len();
        let mut pixel_data: Vec<u8> = Vec::new();
        let mut i: usize = 0;
        while i < max_index
            invariant
                max_index == self.granules@.len(),
                i <= max_index,
                pixel_data@.len() == i * 4,
                forall|k: int|
                    0 <= k < pixel_data@.len() ==> #[trigger] pixel_data@[k] == material_color(
                        self@.material(k / 4),
                    )[k % 4],
            decreases max_index - i,
        {
            let color = Self::color_of(self.granules[i].element_type);
            pixel_data.push(color[0]);
            pixel_data.push(color[1]);
            pixel_data.push(color[2]);
            pixel_data.push(color[3]);
            i += 1;
        }
        assert(self@.width * self@.height * 4 == self@.cells.len() * 4);
        ScreenTexture { pixel_data, dimensions: (self.width, self.height) }
    }
}

} // verus!
