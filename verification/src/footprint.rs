//! How far a rule reaches: which cells handling one cell may change, and
//! how. The laws of the sweep rest on these facts.

use vstd::prelude::*;

use crate::falling_sand::elements::{Element, ElementType};
use crate::grid::{lemma_neighbours_on_grid, marked, Grid};
use crate::rules::{
    candidate, disperse, disperse_target, drop_through, fall_diagonal, flow_water, grow_grass,
    holds, kelp_child, look_from, settle_granule, settle_seed, spread_kelp, step, swim,
    update_egg, update_kelp, update_minnow, Dice, Sight, DISPERSION,
};

verus! {

/// Whether `after` has the dimensions, the floor, the parity and the number
/// of cells of `before`.
pub open spec fn same_frame(before: Grid, after: Grid) -> bool {
    &&& after.width == before.width
    &&& after.height == before.height
    &&& after.is_floor == before.is_floor
    &&& after.parity == before.parity
    &&& after.cells.len() == before.cells.len()
}

/// Whether `material` gives way to what moves or grows into it.
pub open spec fn yielding(material: ElementType) -> bool {
    material == ElementType::Empty || material == ElementType::Water
}

/// Whether the cell `cell` counts as handled in a sweep of parity `parity`.
pub open spec fn handled(cell: Element, parity: bool) -> bool {
    cell.update_toggle == parity
}

/// Whether the cell at `index` is a seed that its sweep has yet to handle.
pub open spec fn waiting_seed(g: Grid, index: int) -> bool {
    g.material(index) == ElementType::Seed && !handled(g.cells[index], g.parity)
}

/// Whether `after` can come of handling the cell at `index` of `before`.
///
/// The frame stays and no cell holds the sentinel. Any other cell that
/// changed is marked as handled; it was empty or water, or else it is the
/// dirt or sand under a seed that waited at `index`, and the mark is all
/// that changed. Any other cell that changed its material was empty or water.
/// The cell itself keeps its material, or gives way to what it changed
/// places with, or is deleted, or becomes a plant or a minnow.
pub open spec fn footprint(before: Grid, index: int, after: Grid) -> bool {
    &&& same_frame(before, after)
    &&& after.wf()
    &&& forall|j: int|
        0 <= j < before.cells.len() && j != index && #[trigger] after.cells[j] != before.cells[j]
            ==> handled(after.cells[j], before.parity) && (yielding(before.material(j)) || (
            waiting_seed(before, index) && before.relative(index, 0, 1) == Some(j) && (
            before.material(j) == ElementType::Dirt || before.material(j) == ElementType::Sand)
                && after.cells[j] == marked(before.cells[j], before.parity)))
    &&& forall|j: int|
        0 <= j < before.cells.len() && j != index && #[trigger] after.material(j)
            != before.material(j) ==> yielding(before.material(j))
    &&& after.material(index) == before.material(index) || yielding(after.material(index))
        || after.material(index) == ElementType::Grass || after.material(index)
        == ElementType::Kelp || after.material(index) == ElementType::Minnow
}

/// What a liquid finds open is an empty cell of the grid.
pub proof fn lemma_look_from_finds_empty(
    g: Grid,
    index: int,
    facing: bool,
    from: int,
    distance: int,
)
    requires
        g.wf(),
        0 <= index < g.cells.len(),
    ensures
        0 < from ==> (look_from(g, index, facing, from, distance) matches Sight::OpenSpace(j)
            ==> 0 <= j
            < g.cells.len() && g.material(j) == ElementType::Empty && j != index),
    decreases distance - from + 1,
{
    lemma_neighbours_on_grid(g, index);
    if from <= 0 {
    } else if from <= distance {
        match g.relative(index, if facing { from } else { -from }, 0) {
            None => {},
            Some(j) => {
                if g.material(j) == ElementType::Water {
                    lemma_look_from_finds_empty(g, index, facing, from + 1, distance);
                }
            },
        }
    }
}

/// A diagonal slide reaches no further than `footprint` says.
pub proof fn lemma_fall_diagonal_footprint(
    g: Grid,
    index: int,
    left_first: bool,
    through_water: bool,
)
    requires
        g.wf(),
        0 <= index < g.cells.len(),
    ensures
        footprint(g, index, fall_diagonal(g, index, left_first, through_water)),
{
    lemma_neighbours_on_grid(g, index);
}

/// The rule of sand and dirt reaches no further than `footprint` says.
pub proof fn lemma_settle_granule_footprint(g: Grid, index: int, left_first: bool)
    requires
        g.wf(),
        0 <= index < g.cells.len(),
    ensures
        footprint(g, index, settle_granule(g, index, left_first)),
{
    lemma_neighbours_on_grid(g, index);
}

/// A sideways move reaches no further than `footprint` says, and it goes
/// into an empty cell other than the one it starts from.
pub proof fn lemma_disperse_footprint(g: Grid, index: int)
    requires
        g.wf(),
        0 <= index < g.cells.len(),
    ensures
        footprint(g, index, disperse(g, index)),
        disperse_target(g, index) matches Some(j) ==> 0 <= j < g.cells.len() && g.material(j)
            == ElementType::Empty && j != index,
{
    lemma_look_from_finds_empty(g, index, g.cells[index].direction, 1, DISPERSION as int);
    lemma_look_from_finds_empty(g, index, !g.cells[index].direction, 1, DISPERSION as int);
}

/// The rule of water reaches no further than `footprint` says.
pub proof fn lemma_flow_water_footprint(g: Grid, index: int, left_first: bool)
    requires
        g.wf(),
        0 <= index < g.cells.len(),
    ensures
        footprint(g, index, flow_water(g, index, left_first)),
{
    lemma_neighbours_on_grid(g, index);
    lemma_fall_diagonal_footprint(g, index, left_first, true);
    lemma_disperse_footprint(g, index);
}

/// The rule of a seed reaches no further than `footprint` says.
pub proof fn lemma_settle_seed_footprint(g: Grid, index: int, dice: Dice)
    requires
        g.wf(),
        0 <= index < g.cells.len(),
        waiting_seed(g, index),
    ensures
        footprint(g, index, settle_seed(g, index, dice)),
{
    lemma_neighbours_on_grid(g, index);
    lemma_fall_diagonal_footprint(g, index, dice.left_first, true);
}

/// The rule of grass reaches no further than `footprint` says.
pub proof fn lemma_grow_grass_footprint(g: Grid, index: int, order: [u8; 3])
    requires
        g.wf(),
        0 <= index < g.cells.len(),
    ensures
        footprint(g, index, grow_grass(g, index, order)),
{
    lemma_neighbours_on_grid(g, index);
}

/// Kelp that spreads reaches no further than `footprint` says, and stays
/// what it is.
pub proof fn lemma_spread_kelp_footprint(g: Grid, index: int, dice: Dice, k: int)
    requires
        g.wf(),
        0 <= index < g.cells.len(),
    ensures
        footprint(g, index, spread_kelp(g, index, dice, k)),
        spread_kelp(g, index, dice, k).material(index) == g.material(index),
    decreases 3 - k,
{
    lemma_neighbours_on_grid(g, index);
    if 0 <= k < 3 {
        let to = candidate(g, index, dice.order[k]);
        if holds(g, to, ElementType::Water) {
            let grown = g.set(
                to.unwrap(),
                kelp_child(g.cells[index], dice.penalties[k], g.parity),
            ).mark(index);
            if !dice.terminal[k] {
                lemma_spread_kelp_footprint(grown, index, dice, k + 1);
            }
        } else {
            lemma_spread_kelp_footprint(g, index, dice, k + 1);
        }
    }
}

/// The rule of kelp reaches no further than `footprint` says.
pub proof fn lemma_update_kelp_footprint(g: Grid, index: int, dice: Dice)
    requires
        g.wf(),
        0 <= index < g.cells.len(),
    ensures
        footprint(g, index, update_kelp(g, index, dice)),
{
    lemma_neighbours_on_grid(g, index);
    lemma_spread_kelp_footprint(g, index, dice, 0);
}

/// A dropping animal reaches no further than `footprint` says.
pub proof fn lemma_drop_through_footprint(g: Grid, index: int, through_water: bool)
    requires
        g.wf(),
        0 <= index < g.cells.len(),
    ensures
        footprint(g, index, drop_through(g, index, through_water)),
{
    lemma_neighbours_on_grid(g, index);
}

/// The rule of an egg reaches no further than `footprint` says.
pub proof fn lemma_update_egg_footprint(g: Grid, index: int, dice: Dice)
    requires
        g.wf(),
        0 <= index < g.cells.len(),
    ensures
        footprint(g, index, update_egg(g, index, dice)),
{
    lemma_neighbours_on_grid(g, index);
    lemma_drop_through_footprint(g, index, true);
    let dropped = drop_through(g, index, true);
    lemma_neighbours_on_grid(dropped, index);
    lemma_fall_diagonal_footprint(dropped, index, dice.left_first, true);
}

/// A swimming minnow reaches no further than `footprint` says.
pub proof fn lemma_swim_footprint(g: Grid, index: int, rises: bool)
    requires
        g.wf(),
        0 <= index < g.cells.len(),
    ensures
        footprint(g, index, swim(g, index, rises)),
{
    lemma_neighbours_on_grid(g, index);
}

/// The rule of a minnow reaches no further than `footprint` says.
pub proof fn lemma_update_minnow_footprint(g: Grid, index: int, dice: Dice)
    requires
        g.wf(),
        0 <= index < g.cells.len(),
    ensures
        footprint(g, index, update_minnow(g, index, dice)),
{
    lemma_neighbours_on_grid(g, index);
    lemma_drop_through_footprint(g, index, false);
    let dropped = drop_through(g, index, false);
    lemma_neighbours_on_grid(dropped, index);
    lemma_fall_diagonal_footprint(dropped, index, dice.left_first, false);
    lemma_swim_footprint(dropped, index, dice.rises);
}

/// Handling a cell reaches no further than `footprint` says.
pub proof fn lemma_step_footprint(g: Grid, index: int, dice: Dice)
    requires
        g.wf(),
        0 <= index < g.cells.len(),
    ensures
        footprint(g, index, step(g, index, dice)),
{
    if g.cells[index].update_toggle != g.parity {
        match g.material(index) {
            ElementType::Sand | ElementType::Dirt => {
                lemma_settle_granule_footprint(g, index, dice.left_first);
            },
            ElementType::Water => {
                lemma_flow_water_footprint(g, index, dice.left_first);
            },
            ElementType::Seed => {
                lemma_settle_seed_footprint(g, index, dice);
            },
            ElementType::Grass => {
                lemma_grow_grass_footprint(g, index, dice.order);
            },
            ElementType::Kelp => {
                lemma_update_kelp_footprint(g, index, dice);
            },
            ElementType::Egg => {
                lemma_update_egg_footprint(g, index, dice);
            },
            ElementType::Minnow => {
                lemma_update_minnow_footprint(g, index, dice);
            },
            _ => {},
        }
    }
}

/// Kelp that spreads from `index` changes itself and cells of the row above
/// it, and no others.
pub proof fn lemma_spread_kelp_reaches_up(g: Grid, index: int, dice: Dice, k: int, j: int)
    requires
        g.wf(),
        0 <= index < g.cells.len(),
        0 <= j < g.cells.len(),
        j != index,
        g.row(j) != g.row(index) - 1,
    ensures
        spread_kelp(g, index, dice, k).cells[j] == g.cells[j],
    decreases 3 - k,
{
    lemma_neighbours_on_grid(g, index);
    if 0 <= k < 3 {
        let to = candidate(g, index, dice.order[k]);
        if holds(g, to, ElementType::Water) {
            let grown = g.set(
                to.unwrap(),
                kelp_child(g.cells[index], dice.penalties[k], g.parity),
            ).mark(index);
            assert(g.row(to.unwrap()) == g.row(index) - 1);
            assert(grown.cells[j] == g.cells[j]);
            if !dice.terminal[k] {
                lemma_spread_kelp_reaches_up(grown, index, dice, k + 1, j);
            }
        } else {
            lemma_spread_kelp_reaches_up(g, index, dice, k + 1, j);
        }
    }
}

/// Where the bottom edge is open, handling a cell of the bottom row leaves
/// the rest of the bottom row alone.
pub proof fn lemma_open_edge_step_spares_the_row(g: Grid, index: int, dice: Dice)
    requires
        g.wf(),
        !g.is_floor,
        0 <= index < g.cells.len(),
        g.row(index) == g.height - 1,
    ensures
        forall|j: int|
            0 <= j < g.cells.len() && j != index && g.row(j) == g.height - 1 ==> #[trigger] step(
                g,
                index,
                dice,
            ).cells[j] == g.cells[j],
{
    lemma_neighbours_on_grid(g, index);
    assert forall|j: int|
        0 <= j < g.cells.len() && j != index && g.row(j) == g.height - 1 implies #[trigger] step(
        g,
        index,
        dice,
    ).cells[j] == g.cells[j] by {
        lemma_spread_kelp_reaches_up(g, index, dice, 0, j);
    }
}

} // verus!
