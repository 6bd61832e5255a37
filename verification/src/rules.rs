//! What one sweep does, as mathematics: for every material the grid that its
//! rule leaves behind, as a function of the grid before, the index of the
//! cell and the dice thrown for it.

use vstd::prelude::*;

use crate::chance::{heads_for, heads_of, order_for, order_of, COIN_SIDES, LEAD_SIDES};
use crate::falling_sand::elements::{fresh_cell, Element, ElementType};
use crate::grid::{marked, Grid};

verus! {

/// How far a liquid looks sideways for an opening.
pub const DISPERSION: usize = 5;

/// The water column an egg needs above it before it may hatch.
pub const HATCH_DEPTH: u8 = 20;

/// Everything that chance decides while one cell is handled. A rule reads
/// only the fields that concern its material.
#[derive(Copy, Clone, Debug)]
pub struct Dice {
    /// Whether the lower-left neighbour is tried before the lower-right one
    /// when a particle slides diagonally.
    pub left_first: bool,
    /// The growth a seed gets when it becomes kelp.
    pub kelp_growth: u8,
    /// The hunger a seed gets when it becomes kelp.
    pub kelp_hunger: u8,
    /// The growth a seed gets when it becomes grass.
    pub grass_growth: u8,
    /// The order in which a plant tries its upward directions: 0 is straight
    /// up, 1 is up and to the left, anything else is up and to the right.
    pub order: [u8; 3],
    /// Whether kelp tries to spread at all in this sweep.
    pub spreads: bool,
    /// The growth that kelp loses when it spreads in the direction tried
    /// first, second and third.
    pub penalties: [u8; 3],
    /// Whether a spread in the direction tried first, second and third is
    /// the last one of this sweep.
    pub terminal: [bool; 3],
    /// Whether an egg checks for hatching in this sweep.
    pub hatches: bool,
    /// The swimming budget of a minnow that hatches.
    pub moisture: u8,
    /// The facing of a minnow that hatches.
    pub facing: bool,
    /// Whether a minnow tries to swim upwards as well as sideways.
    pub rises: bool,
}

impl Dice {
    /// The dice that let nothing happen by chance: the left side first,
    /// straight up first, the smallest growth, hunger and penalty, no
    /// spreading, no hatching, no climbing.
    pub fn calm() -> (dice: Dice)
        ensures
            dice == calm_dice(),
    {
        Dice {
            left_first: true,
            kelp_growth: 30,
            kelp_hunger: 1,
            grass_growth: 2,
            order: [0, 1, 2],
            spreads: false,
            penalties: [1, 1, 1],
            terminal: [false, false, false],
            hatches: false,
            moisture: 3,
            facing: false,
            rises: false,
        }
    }
}

/// The value of `Dice::calm`.
pub open spec fn calm_dice() -> Dice {
    Dice {
        left_first: true,
        kelp_growth: 30,
        kelp_hunger: 1,
        grass_growth: 2,
        order: [0u8, 1u8, 2u8],
        spreads: false,
        penalties: [1u8, 1u8, 1u8],
        terminal: [false, false, false],
        hatches: false,
        moisture: 3,
        facing: false,
        rises: false,
    }
}

/// One more than the largest growth a seed can get when it becomes kelp on
/// a board `height` cells high: the height, kept between 31 and 256.
pub open spec fn kelp_growth_cap(height: int) -> int {
    if height < 31 {
        31
    } else if height > 256 {
        256
    } else {
        height
    }
}

/// How many numbers the throw for kelp's spreading can show.
pub const SPREAD_SIDES: u32 = 255;

/// How many numbers the throw for a spread being the last can show.
pub const END_SIDES: u32 = 4;

/// How many numbers the throw for an egg's hatching can show.
pub const HATCH_SIDES: u32 = 35;

/// How many numbers the throw for a minnow's climbing can show.
pub const RISE_SIDES: u32 = 10;

/// The numbers that chance throws while one cell is handled, before the
/// rules have made anything of them.
#[derive(Copy, Clone, Debug)]
pub struct Throws {
    /// A coin, below `COIN_SIDES`: heads tries the lower-left neighbour
    /// first.
    pub coin: u32,
    /// The growth a seed gets when it becomes kelp.
    pub kelp_growth: u8,
    /// The hunger a seed gets when it becomes kelp.
    pub kelp_hunger: u8,
    /// The growth a seed gets when it becomes grass.
    pub grass_growth: u8,
    /// Below `LEAD_SIDES`: decides which upward direction a plant tries
    /// first.
    pub weight: u32,
    /// Whether the other two upward directions are tried the larger first.
    pub swapped: bool,
    /// Below `SPREAD_SIDES`: kelp spreads where this is below its hunger.
    pub spread: u32,
    /// The growth that kelp loses with a spread in the direction tried
    /// first, second and third.
    pub penalties: [u8; 3],
    /// Below `END_SIDES`, one for each direction: a spread is the last one
    /// where this is zero.
    pub ends: [u32; 3],
    /// Below `HATCH_SIDES`: an egg checks for hatching where this is zero.
    pub hatch: u32,
    /// The swimming budget of a minnow that hatches.
    pub moisture: u8,
    /// A coin, below `COIN_SIDES`: heads lets a hatched minnow face right.
    pub facing: u32,
    /// Below `RISE_SIDES`: a minnow tries to climb where this is below three.
    pub rise: u32,
}

/// Whether kelp of hunger `hunger` spreads for the throw `drawn` out of
/// 255: for as many of the numbers as its hunger counts.
pub open spec fn spreads_of(drawn: u32, hunger: u8) -> bool {
    drawn < hunger
}

/// Whether a spread is the last one for the throw `drawn` out of four: for
/// one of the four numbers.
pub open spec fn ends_of(drawn: u32) -> bool {
    drawn == 0
}

/// Whether an egg checks for hatching for the throw `drawn` out of 35: for
/// one of the numbers.
pub open spec fn hatches_of(drawn: u32) -> bool {
    drawn == 0
}

/// Whether a minnow tries to climb for the throw `drawn` out of ten: for
/// three of the ten numbers.
pub open spec fn rises_of(drawn: u32) -> bool {
    drawn < 3
}

/// What the rules make of the throws `throws` for a cell of hunger
/// `hunger`.
pub open spec fn dice_of(throws: Throws, hunger: u8) -> Dice {
    Dice {
        left_first: heads_of(throws.coin),
        kelp_growth: throws.kelp_growth,
        kelp_hunger: throws.kelp_hunger,
        grass_growth: throws.grass_growth,
        order: order_of(throws.weight, throws.swapped),
        spreads: spreads_of(throws.spread, hunger),
        penalties: throws.penalties,
        terminal: [ends_of(throws.ends[0]), ends_of(throws.ends[1]), ends_of(throws.ends[2])],
        hatches: hatches_of(throws.hatch),
        moisture: throws.moisture,
        facing: heads_of(throws.facing),
        rises: rises_of(throws.rise),
    }
}

/// The throws that let nothing happen by chance, as far as throws can: the
/// last number of each throw, the smallest growth, hunger and penalty.
pub open spec fn calm_throws() -> Throws {
    Throws {
        coin: 1,
        kelp_growth: 30,
        kelp_hunger: 1,
        grass_growth: 2,
        weight: 9,
        swapped: false,
        spread: 254,
        penalties: [1u8, 1u8, 1u8],
        ends: [3u32, 3u32, 3u32],
        hatch: 34,
        moisture: 3,
        facing: 1,
        rise: 9,
    }
}

/// Whether `throws` are throws that chance can make for the cell at
/// `index`: every number lies in the range of its throw.
pub open spec fn within_range(g: Grid, index: int, throws: Throws) -> bool {
    &&& throws.coin < COIN_SIDES
    &&& 30 <= throws.kelp_growth < kelp_growth_cap(g.height)
    &&& 1 <= throws.kelp_hunger < 20
    &&& 2 <= throws.grass_growth < 20
    &&& throws.weight < LEAD_SIDES
    &&& throws.spread < SPREAD_SIDES
    &&& forall|k: int| 0 <= k < 3 ==> 1 <= #[trigger] throws.penalties[k] <= 3
    &&& forall|k: int| 0 <= k < 3 ==> #[trigger] throws.ends[k] < END_SIDES
    &&& throws.hatch < HATCH_SIDES
    &&& hatches_of(throws.hatch) && hatch_depth(g, index) >= HATCH_DEPTH ==> 3 <= throws.moisture
        < hatch_depth(g, index) - 3
    &&& throws.facing < COIN_SIDES
    &&& throws.rise < RISE_SIDES
}

/// Whether `dice` is what the rules make of throws that chance can make for
/// the cell at `index`.
pub open spec fn fair(g: Grid, index: int, dice: Dice) -> bool {
    exists|throws: Throws|
        within_range(g, index, throws) && dice == #[trigger] dice_of(
            throws,
            g.cells[index].hunger,
        )
}

impl Throws {
    /// The throws that let nothing happen by chance, as far as throws can.
    pub fn calm() -> (throws: Throws)
        ensures
            throws == calm_throws(),
    {
        Throws {
            coin: 1,
            kelp_growth: 30,
            kelp_hunger: 1,
            grass_growth: 2,
            weight: 9,
            swapped: false,
            spread: 254,
            penalties: [1, 1, 1],
            ends: [3, 3, 3],
            hatch: 34,
            moisture: 3,
            facing: 1,
            rise: 9,
        }
    }
}

impl Dice {
    /// What the rules make of the throws `throws` for a cell of hunger
    /// `hunger`: a coin that shows its first side is heads; straight up
    /// leads for eight numbers of ten, up-left for one, up-right for one;
    /// kelp spreads for as many numbers of 255 as its hunger counts; a
    /// spread is the last one for one number of four; an egg checks for
    /// hatching for one number of 35; a minnow climbs for three of ten.
    pub fn from_throws(throws: &Throws, hunger: u8) -> (dice: Dice)
        ensures
            dice == dice_of(*throws, hunger),
    {
        Dice {
            left_first: heads_for(throws.coin),
            kelp_growth: throws.kelp_growth,
            kelp_hunger: throws.kelp_hunger,
            grass_growth: throws.grass_growth,
            order: order_for(throws.weight, throws.swapped),
            spreads: throws.spread < hunger as u32,
            penalties: throws.penalties,
            terminal: [throws.ends[0] == 0, throws.ends[1] == 0, throws.ends[2] == 0],
            hatches: throws.hatch == 0,
            moisture: throws.moisture,
            facing: heads_for(throws.facing),
            rises: throws.rise < 3,
        }
    }
}

/// What a liquid sees when it looks sideways.
#[derive(PartialEq, Eq, Structural, Copy, Clone, Debug)]
pub enum LiquidCollision {
    /// Nothing but more liquid, as far as it looked.
    Nothing,
    /// Something in the way, or the edge of the board.
    Wall,
    /// The nearest empty cell, by index.
    OpenSpace(usize),
}

/// What a liquid sees when it looks sideways, as the model counts it.
pub enum Sight {
    /// Nothing but more liquid, as far as it looked.
    Nothing,
    /// Something in the way, or the edge of the grid.
    Wall,
    /// The nearest empty cell, by index.
    OpenSpace(int),
}

impl View for LiquidCollision {
    type V = Sight;

    open spec fn view(&self) -> Sight {
        match *self {
            LiquidCollision::Nothing => Sight::Nothing,
            LiquidCollision::Wall => Sight::Wall,
            LiquidCollision::OpenSpace(j) => Sight::OpenSpace(j as int),
        }
    }
}

/// Whether a falling particle may take the place of what is at `to`.
pub open spec fn passable(g: Grid, to: int, through_water: bool) -> bool {
    g.material(to) == ElementType::Empty || (through_water && g.material(to)
        == ElementType::Water)
}

/// Whether the particle at `from` may slide into the diagonal neighbour `to`.
pub open spec fn diagonal_open(g: Grid, from: int, to: Option<int>, through_water: bool) -> bool {
    to matches Some(j) && passable(g, j, through_water) && g.material(j) != g.material(from)
}

/// The lower diagonal neighbour that the particle at `index` slides into, if
/// any: the first open one of the two, in the order that `left_first` gives.
pub open spec fn diagonal_target(g: Grid, index: int, left_first: bool, through_water: bool)
    -> Option<int> {
    let first = g.relative(index, if left_first { -1 } else { 1 }, 1);
    let second = g.relative(index, if left_first { 1 } else { -1 }, 1);
    if diagonal_open(g, index, first, through_water) {
        first
    } else if diagonal_open(g, index, second, through_water) {
        second
    } else {
        None
    }
}

/// The grid after the particle at `index` tried to slide diagonally.
pub open spec fn fall_diagonal(g: Grid, index: int, left_first: bool, through_water: bool)
    -> Grid {
    match diagonal_target(g, index, left_first, through_water) {
        Some(j) => g.move_to(index, j),
        None => g,
    }
}

/// The rule of sand and dirt: straight down through air and water, else
/// diagonally; off the board where the bottom edge is open.
pub open spec fn settle_granule(g: Grid, index: int, left_first: bool) -> Grid {
    match g.relative(index, 0, 1) {
        None => if g.is_floor {
            g
        } else {
            g.erase(index)
        },
        Some(b) => if passable(g, b, true) {
            g.move_to(index, b)
        } else {
            fall_diagonal(g, index, left_first, true)
        },
    }
}

/// What the cell at `index` sees from the `step`-th cell on, looking up to
/// `distance` cells in the direction of `facing`.
pub open spec fn look_from(g: Grid, index: int, facing: bool, step: int, distance: int) -> Sight
    decreases distance - step + 1,
{
    if step > distance {
        Sight::Nothing
    } else {
        match g.relative(index, if facing { step } else { -step }, 0) {
            None => Sight::Wall,
            Some(j) => if g.material(j) == ElementType::Empty {
                Sight::OpenSpace(j)
            } else if g.material(j) != ElementType::Water {
                Sight::Wall
            } else {
                look_from(g, index, facing, step + 1, distance)
            },
        }
    }
}

/// What the cell at `index` sees within `distance` cells in the direction of
/// `facing`: the nearest empty cell, unless something other than water, or
/// the edge, comes first.
pub open spec fn look_forward(g: Grid, index: int, facing: bool, distance: int) -> Sight {
    look_from(g, index, facing, 1, distance)
}

/// Where the liquid at `index` moves sideways, if it does: the opening ahead,
/// or, where it sees only liquid ahead, the opening behind.
pub open spec fn disperse_target(g: Grid, index: int) -> Option<int> {
    let facing = g.cells[index].direction;
    match look_forward(g, index, facing, DISPERSION as int) {
        Sight::OpenSpace(j) => Some(j),
        Sight::Wall => None,
        Sight::Nothing => match look_forward(g, index, !facing, DISPERSION as int) {
            Sight::OpenSpace(j) => Some(j),
            _ => None,
        },
    }
}

/// The grid after the liquid at `index` tried to move sideways: it moves
/// into the opening it found, and turns around where it found none.
pub open spec fn disperse(g: Grid, index: int) -> Grid {
    match disperse_target(g, index) {
        Some(j) => g.move_to(index, j),
        None => g.turn(index),
    }
}

/// Whether the particle at `index` drops off the board: it is in the bottom
/// row and the bottom edge is open.
pub open spec fn falls_off(g: Grid, index: int) -> bool {
    g.relative(index, 0, 1) is None && !g.is_floor
}

/// The rule of water: off the board where it is at an open bottom edge;
/// else straight down through air, else diagonally, else sideways.
pub open spec fn flow_water(g: Grid, index: int, left_first: bool) -> Grid {
    if falls_off(g, index) {
        g.erase(index)
    } else if holds(g, g.relative(index, 0, 1), ElementType::Empty) {
        g.move_to(index, g.relative(index, 0, 1).unwrap())
    } else if diagonal_target(g, index, left_first, true) is Some {
        fall_diagonal(g, index, left_first, true)
    } else {
        disperse(g, index)
    }
}

/// Whether the cell right above `index` holds water.
pub open spec fn under_water(g: Grid, index: int) -> bool {
    g.relative(index, 0, -1) matches Some(a) && g.material(a) == ElementType::Water
}

/// The plant that the seed `seed` becomes: kelp under water, grass elsewhere.
pub open spec fn sprouted(seed: Element, submerged: bool, dice: Dice) -> Element {
    if submerged {
        Element {
            growth: dice.kelp_growth,
            hunger: dice.kelp_hunger,
            update_toggle: seed.update_toggle,
            ..fresh_cell(ElementType::Kelp, false)
        }
    } else {
        Element {
            growth: dice.grass_growth,
            update_toggle: seed.update_toggle,
            ..fresh_cell(ElementType::Grass, false)
        }
    }
}

/// The rule of a seed: straight down through air; on dirt or sand it
/// sprouts, and the ground under it is marked as handled; on anything else
/// it slides diagonally.
pub open spec fn settle_seed(g: Grid, index: int, dice: Dice) -> Grid {
    match g.relative(index, 0, 1) {
        None => if g.is_floor {
            g
        } else {
            g.erase(index)
        },
        Some(b) => if g.material(b) == ElementType::Empty {
            g.move_to(index, b)
        } else if g.material(b) == ElementType::Dirt || g.material(b) == ElementType::Sand {
            g.set(index, sprouted(g.cells[index], under_water(g, index), dice)).mark(b)
        } else {
            fall_diagonal(g, index, dice.left_first, true)
        },
    }
}

/// The upward neighbour of `index` that the direction code `code` names.
pub open spec fn candidate(g: Grid, index: int, code: u8) -> Option<int> {
    g.relative(
        index,
        if code == 0 {
            0
        } else if code == 1 {
            -1
        } else {
            1
        },
        -1,
    )
}

/// Whether the neighbour `to` is there and holds `material`.
pub open spec fn holds(g: Grid, to: Option<int>, material: ElementType) -> bool {
    to matches Some(j) && g.material(j) == material
}

/// Whether one of the three upward neighbours of `index` holds `material`.
pub open spec fn crowded(g: Grid, index: int, material: ElementType) -> bool {
    holds(g, candidate(g, index, 0), material) || holds(g, candidate(g, index, 1), material)
        || holds(g, candidate(g, index, 2), material)
}

/// The first upward neighbour of `index`, in the order `order`, that holds
/// `material`.
pub open spec fn first_holding(g: Grid, index: int, order: [u8; 3], material: ElementType)
    -> Option<int> {
    if holds(g, candidate(g, index, order[0]), material) {
        candidate(g, index, order[0])
    } else if holds(g, candidate(g, index, order[1]), material) {
        candidate(g, index, order[1])
    } else if holds(g, candidate(g, index, order[2]), material) {
        candidate(g, index, order[2])
    } else {
        None
    }
}

/// Where the grass at `index` spreads, if it does: it needs growth left, no
/// grass among its upward neighbours, and an empty one among them.
pub open spec fn grass_target(g: Grid, index: int, order: [u8; 3]) -> Option<int> {
    if g.cells[index].growth == 0 || crowded(g, index, ElementType::Grass) {
        None
    } else {
        first_holding(g, index, order, ElementType::Empty)
    }
}

/// The blade that grass of growth `growth` puts out.
pub open spec fn grass_child(growth: u8, parity: bool) -> Element {
    Element {
        growth: (growth - 1) as u8,
        update_toggle: parity,
        ..fresh_cell(ElementType::Grass, false)
    }
}

/// The rule of grass.
pub open spec fn grow_grass(g: Grid, index: int, order: [u8; 3]) -> Grid {
    if g.cells[index].growth == 0 {
        g
    } else if crowded(g, index, ElementType::Grass) {
        g.mark(index)
    } else {
        match first_holding(g, index, order, ElementType::Empty) {
            Some(j) => g.set(j, grass_child(g.cells[index].growth, g.parity)).mark(index),
            None => g,
        }
    }
}

/// The growth that a spread really costs: the penalty thrown, but no more
/// than the plant has.
pub open spec fn clamped_penalty(growth: u8, penalty: u8) -> u8 {
    if penalty > growth {
        growth
    } else {
        penalty
    }
}

/// The frond that the kelp `parent` puts out at the cost of `penalty`.
pub open spec fn kelp_child(parent: Element, penalty: u8, parity: bool) -> Element {
    Element {
        growth: (parent.growth - clamped_penalty(parent.growth, penalty)) as u8,
        hunger: parent.hunger,
        update_toggle: parity,
        ..fresh_cell(ElementType::Kelp, false)
    }
}

/// The grid after the kelp at `index` tried its upward directions from the
/// `k`-th on: it spreads into each one that holds water, until a spread is
/// thrown as the last one.
pub open spec fn spread_kelp(g: Grid, index: int, dice: Dice, k: int) -> Grid
    decreases 3 - k,
{
    if k < 0 || k >= 3 {
        g
    } else {
        let to = candidate(g, index, dice.order[k]);
        if holds(g, to, ElementType::Water) {
            let grown = g.set(
                to.unwrap(),
                kelp_child(g.cells[index], dice.penalties[k], g.parity),
            ).mark(index);
            if dice.terminal[k] {
                grown
            } else {
                spread_kelp(grown, index, dice, k + 1)
            }
        } else {
            spread_kelp(g, index, dice, k + 1)
        }
    }
}

/// The grid after the kelp at `index` tried to spread.
pub open spec fn grow_kelp(g: Grid, index: int, dice: Dice) -> Grid {
    if g.cells[index].growth == 0 {
        g
    } else if crowded(g, index, ElementType::Kelp) {
        g.mark(index)
    } else {
        spread_kelp(g, index, dice, 0)
    }
}

/// The rule of kelp.
pub open spec fn update_kelp(g: Grid, index: int, dice: Dice) -> Grid {
    if dice.spreads {
        grow_kelp(g, index, dice)
    } else {
        g
    }
}

/// Whether the animal at `index` drops: into the cell below where that is
/// passable, off the board where the bottom edge is open.
pub open spec fn drop_moves(g: Grid, index: int, through_water: bool) -> bool {
    match g.relative(index, 0, 1) {
        None => !g.is_floor,
        Some(b) => passable(g, b, through_water),
    }
}

/// The grid after the animal at `index` tried to drop. Where it changes
/// places with the cell below, both are marked as handled; where it is
/// blocked, it alone is.
pub open spec fn drop_through(g: Grid, index: int, through_water: bool) -> Grid {
    match g.relative(index, 0, 1) {
        None => if g.is_floor {
            g
        } else {
            g.erase(index)
        },
        Some(b) => if passable(g, b, through_water) {
            g.exchange(index, b)
        } else {
            g.mark(index)
        },
    }
}

/// How many cells right above `(x, y)` hold water or a minnow, without a
/// gap.
pub open spec fn column_depth(g: Grid, x: int, y: int) -> nat
    decreases y,
{
    if y > 0 && (g.material(g.index_of(x, y - 1)) == ElementType::Water || g.material(
        g.index_of(x, y - 1),
    ) == ElementType::Minnow) {
        1 + column_depth(g, x, y - 1)
    } else {
        0
    }
}

/// The depth an egg at `index` measures: the distance to the first cell
/// above it that is neither water nor minnow, or to the top edge, counted up
/// to 255.
pub open spec fn hatch_depth(g: Grid, index: int) -> int {
    let depth = column_depth(g, g.column(index), g.row(index)) as int + 1;
    if depth > 255 {
        255
    } else {
        depth
    }
}

/// The minnow that hatches from the egg `egg`.
pub open spec fn hatched(egg: Element, dice: Dice) -> Element {
    Element {
        moisture: dice.moisture,
        direction: dice.facing,
        update_toggle: egg.update_toggle,
        ..fresh_cell(ElementType::Minnow, false)
    }
}

/// The rule of an egg: down through air and water, else diagonally; where it
/// rests and the dice say so, it hatches if the water above is deep enough.
pub open spec fn update_egg(g: Grid, index: int, dice: Dice) -> Grid {
    let dropped = drop_through(g, index, true);
    if drop_moves(g, index, true) {
        dropped
    } else if diagonal_target(dropped, index, dice.left_first, true) is Some {
        fall_diagonal(dropped, index, dice.left_first, true)
    } else if dice.hatches && hatch_depth(dropped, index) >= HATCH_DEPTH {
        dropped.set(index, hatched(dropped.cells[index], dice))
    } else {
        dropped
    }
}

/// Whether the minnow `minnow` swims upwards as well as sideways.
pub open spec fn climbs(minnow: Element, rises: bool) -> bool {
    rises && minnow.moisture > 0
}

/// The minnow `minnow` after it spent what the climb costs.
pub open spec fn spent(minnow: Element, rises: bool) -> Element {
    if climbs(minnow, rises) {
        Element { moisture: (minnow.moisture - 1) as u8, ..minnow }
    } else {
        minnow
    }
}

/// The cell that the minnow at `index` swims towards.
pub open spec fn swim_target(g: Grid, index: int, rises: bool) -> Option<int> {
    g.relative(
        index,
        if g.cells[index].direction {
            1
        } else {
            -1
        },
        if climbs(g.cells[index], rises) {
            -1
        } else {
            0
        },
    )
}

/// The grid after the minnow at `index` tried to swim: one cell in the
/// direction it faces, and one up where it climbs. It moves only into water,
/// and turns around where it cannot move.
pub open spec fn swim(g: Grid, index: int, rises: bool) -> Grid {
    let paid = g.set(index, spent(g.cells[index], rises));
    if holds(g, swim_target(g, index, rises), ElementType::Water) {
        paid.move_to(index, swim_target(g, index, rises).unwrap())
    } else {
        paid.turn(index)
    }
}

/// The rule of a minnow: out of the water it drops through air, straight or
/// diagonally; else it swims.
pub open spec fn update_minnow(g: Grid, index: int, dice: Dice) -> Grid {
    let dropped = drop_through(g, index, false);
    if drop_moves(g, index, false) {
        dropped
    } else if diagonal_target(dropped, index, dice.left_first, false) is Some {
        fall_diagonal(dropped, index, dice.left_first, false)
    } else {
        swim(dropped, index, dice.rises)
    }
}

/// What handling the cell at `index` does: nothing where the cell was
/// already handled in this sweep, else what the rule of its material says.
pub open spec fn step(g: Grid, index: int, dice: Dice) -> Grid {
    if g.cells[index].update_toggle == g.parity {
        g
    } else {
        match g.material(index) {
            ElementType::Sand | ElementType::Dirt => settle_granule(g, index, dice.left_first),
            ElementType::Water => flow_water(g, index, dice.left_first),
            ElementType::Seed => settle_seed(g, index, dice),
            ElementType::Grass => grow_grass(g, index, dice.order),
            ElementType::Kelp => update_kelp(g, index, dice),
            ElementType::Egg => update_egg(g, index, dice),
            ElementType::Minnow => update_minnow(g, index, dice),
            _ => g,
        }
    }
}

/// The index that a sweep visits at its `k`-th turn: rows from the top, the
/// even ones from right to left, the odd ones from left to right.
pub open spec fn serpentine(width: int, k: int) -> int {
    if (k / width) % 2 == 0 {
        k - (k % width) + (width - (k % width) - 1)
    } else {
        k
    }
}

/// The grid after the first `turns` turns of a sweep in which `dice[k]` is
/// thrown at the `k`-th turn.
pub open spec fn sweep(g: Grid, dice: Seq<Dice>, turns: nat) -> Grid
    decreases turns,
{
    if turns == 0 {
        g
    } else {
        let before = sweep(g, dice, (turns - 1) as nat);
        step(before, serpentine(g.width, turns - 1), dice[turns - 1])
    }
}

/// The grid after one whole sweep: every index visited once, then the
/// parity flipped.
pub open spec fn tick(g: Grid, dice: Seq<Dice>) -> Grid {
    Grid { parity: !g.parity, ..sweep(g, dice, g.cells.len()) }
}

/// Whether every throw of `dice` is one that chance can make at its turn of
/// a sweep over `g`.
pub open spec fn fair_sweep(g: Grid, dice: Seq<Dice>) -> bool {
    forall|k: nat|
        k < g.cells.len() ==> fair(#[trigger] sweep(g, dice, k), serpentine(g.width, k as int), dice[k as int])
}

/// The first `turns` turns of a sweep read only the first `turns` throws.
pub proof fn lemma_sweep_reads_prefix(g: Grid, a: Seq<Dice>, b: Seq<Dice>, turns: nat)
    requires
        forall|k: int| 0 <= k < turns ==> a[k] == b[k],
    ensures
        sweep(g, a, turns) == sweep(g, b, turns),
    decreases turns,
{
    if turns > 0 {
        lemma_sweep_reads_prefix(g, a, b, (turns - 1) as nat);
    }
}

/// A sweep visits every index of the grid, each one at one turn only, and
/// stays in the row of its turn.
pub proof fn lemma_serpentine_visits_each_once(width: int, height: int, k: int)
    requires
        0 <= width,
        0 <= height,
        0 <= k < width * height,
    ensures
        0 <= serpentine(width, k) < width * height,
        serpentine(width, serpentine(width, k)) == k,
        serpentine(width, k) / width == k / width,
{
    crate::grid::lemma_position_of_index(width, height, k);
    let x = k % width;
    let y = k / width;
    if y % 2 == 0 {
        crate::grid::lemma_index_of_position(width, height, width - x - 1, y);
        assert(serpentine(width, k) == crate::grid::index_at(width, width - x - 1, y));
    }
}

} // verus!
