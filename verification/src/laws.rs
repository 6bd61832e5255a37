//! What holds of the board whatever it holds and whatever the dice show.

use vstd::prelude::*;

use crate::falling_sand::elements::{Element, ElementType};
use crate::falling_sand::{count_filled, count_granules, covered, empty_cells, painted};
use crate::footprint::{
    handled, lemma_open_edge_step_spares_the_row, lemma_step_footprint, same_frame, waiting_seed,
};
use crate::grid::{
    coords_at, lemma_above_and_below, lemma_index_of_position, lemma_neighbours_on_grid,
    lemma_position_of_index, marked, turned, Grid,
};
use crate::rules::{
    diagonal_target, drop_through, falls_off, holds, lemma_serpentine_visits_each_once,
    look_from, serpentine, spent, step, sweep, swim, swim_target, tick, under_water, Dice,
    DISPERSION,
};

verus! {

/// Index and position are two names for the same cell: going from a
/// position on the grid to its index and back gives the position, and going
/// from an index of the grid to its position and back gives the index.
pub proof fn law_index_and_position_are_inverse(g: Grid, x: int, y: int, index: int)
    requires
        g.wf(),
    ensures
        g.in_bounds(x, y) ==> 0 <= g.index_of(x, y) < g.cells.len() && coords_at(
            g.width,
            g.index_of(x, y),
        ) == (x, y),
        0 <= index < g.cells.len() ==> g.in_bounds(g.column(index), g.row(index)) && g.index_of(
            g.column(index),
            g.row(index),
        ) == index,
{
    if g.in_bounds(x, y) {
        lemma_index_of_position(g.width, g.height, x, y);
    }
    if 0 <= index < g.cells.len() {
        lemma_position_of_index(g.width, g.height, index);
    }
}

/// A board of nothing but empty cells, as `new` and `reset` leave it, holds
/// no granule, and each of its cells is empty.
pub proof fn law_cleared_board_is_empty(count: nat)
    ensures
        count_granules(empty_cells(count)) == 0,
        forall|i: int|
            0 <= i < count ==> (#[trigger] empty_cells(count)[i]).element_type
                == ElementType::Empty,
{
    crate::falling_sand::lemma_empty_cells_hold_no_granule(count);
}

/// Painting with radius zero covers no cell, so it fills none and leaves
/// every cell as it is.
pub proof fn law_radius_zero_paints_nothing(
    before: Grid,
    after: Grid,
    cx: int,
    cy: int,
    material: ElementType,
)
    requires
        painted(before, after, cx, cy, 0, material),
    ensures
        after == before,
        count_filled(before, cx, cy, 0, before.cells.len()) == 0,
{
    crate::falling_sand::lemma_radius_zero_covers_nothing(before, cx, cy, before.cells.len());
    assert(after.cells =~= before.cells);
}

/// Painting with radius one covers the centre and no other cell.
pub proof fn law_radius_one_paints_the_centre(g: Grid, cx: int, cy: int, j: int)
    ensures
        covered(g, cx, cy, 1, j) <==> g.column(j) == cx && g.row(j) == cy,
{
    let dx = g.column(j) - cx;
    let dy = g.row(j) - cy;
    assert(dx * dx + dy * dy < 1 <==> dx == 0 && dy == 0) by (nonlinear_arith);
}

/// The turn of a sweep at which the cell at `index` is visited.
pub open spec fn turn_of(g: Grid, index: int) -> int {
    serpentine(g.width, index)
}

/// Whether the cell at `index` lies in the bottom row.
pub open spec fn on_bottom_row(g: Grid, index: int) -> bool {
    0 <= index < g.cells.len() && g.row(index) == g.height - 1
}

/// However far a sweep has come, the frame is what it was and no cell holds
/// the sentinel.
pub proof fn lemma_sweep_keeps_shape(g: Grid, dice: Seq<Dice>, turns: nat)
    requires
        g.wf(),
        turns <= g.cells.len(),
    ensures
        same_frame(g, sweep(g, dice, turns)),
        sweep(g, dice, turns).wf(),
    decreases turns,
{
    if turns > 0 {
        lemma_sweep_keeps_shape(g, dice, (turns - 1) as nat);
        lemma_serpentine_visits_each_once(g.width, g.height, turns - 1);
        lemma_step_footprint(
            sweep(g, dice, (turns - 1) as nat),
            serpentine(g.width, turns - 1),
            dice[turns - 1],
        );
    }
}

/// The cell at `index` is visited at its turn and at no other.
pub proof fn lemma_visited_at_its_turn(g: Grid, index: int, turn: int)
    requires
        g.wf(),
        0 <= index < g.cells.len(),
    ensures
        0 <= turn_of(g, index) < g.cells.len(),
        serpentine(g.width, turn_of(g, index)) == index,
        g.row(turn_of(g, index)) == g.row(index),
        0 <= turn < g.cells.len() ==> 0 <= serpentine(g.width, turn) < g.cells.len() && (
        serpentine(g.width, turn) == index <==> turn == turn_of(g, index)),
{
    lemma_serpentine_visits_each_once(g.width, g.height, index);
    if 0 <= turn < g.cells.len() {
        lemma_serpentine_visits_each_once(g.width, g.height, turn);
    }
}

/// On a board with a solid floor, sand in the bottom row is still there
/// however far a sweep has come.
proof fn lemma_floor_holds_sand(g: Grid, dice: Seq<Dice>, index: int, turns: nat)
    requires
        g.wf(),
        g.is_floor,
        on_bottom_row(g, index),
        g.material(index) == ElementType::Sand,
        turns <= g.cells.len(),
    ensures
        sweep(g, dice, turns).material(index) == ElementType::Sand,
    decreases turns,
{
    if turns > 0 {
        let before = sweep(g, dice, (turns - 1) as nat);
        let visited = serpentine(g.width, turns - 1);
        lemma_floor_holds_sand(g, dice, index, (turns - 1) as nat);
        lemma_sweep_keeps_shape(g, dice, (turns - 1) as nat);
        lemma_serpentine_visits_each_once(g.width, g.height, turns - 1);
        lemma_step_footprint(before, visited, dice[turns - 1]);
        let after = step(before, visited, dice[turns - 1]);
        if visited != index {
            assert(after.material(index) == before.material(index));
        }
    }
}

/// With a solid floor, sand in the bottom row never leaks: after a sweep,
/// whatever the dice, it is where it was.
pub proof fn law_floor_holds_sand(g: Grid, dice: Seq<Dice>, index: int)
    requires
        g.wf(),
        g.is_floor,
        on_bottom_row(g, index),
        g.material(index) == ElementType::Sand,
    ensures
        tick(g, dice).wf(),
        tick(g, dice).is_floor,
        on_bottom_row(tick(g, dice), index),
        tick(g, dice).material(index) == ElementType::Sand,
{
    lemma_floor_holds_sand(g, dice, index, g.cells.len());
    lemma_sweep_keeps_shape(g, dice, g.cells.len());
}

/// The grid after `count` sweeps, the `n`-th of them with the dice
/// `throws[n]`.
pub open spec fn ticks(g: Grid, throws: Seq<Seq<Dice>>, count: nat) -> Grid
    decreases count,
{
    if count == 0 {
        g
    } else {
        tick(ticks(g, throws, (count - 1) as nat), throws[count - 1])
    }
}

/// With a solid floor, sand in the bottom row is still there after any
/// number of sweeps, whatever the dice.
pub proof fn law_floor_holds_sand_for_good(
    g: Grid,
    throws: Seq<Seq<Dice>>,
    index: int,
    count: nat,
)
    requires
        g.wf(),
        g.is_floor,
        on_bottom_row(g, index),
        g.material(index) == ElementType::Sand,
    ensures
        ticks(g, throws, count).wf(),
        ticks(g, throws, count).is_floor,
        on_bottom_row(ticks(g, throws, count), index),
        ticks(g, throws, count).material(index) == ElementType::Sand,
    decreases count,
{
    if count > 0 {
        law_floor_holds_sand_for_good(g, throws, index, (count - 1) as nat);
        law_floor_holds_sand(ticks(g, throws, (count - 1) as nat), throws[count - 1], index);
    }
}

/// A wall is where it was, and as it was, however far a sweep has come.
proof fn lemma_wall_stands(g: Grid, dice: Seq<Dice>, index: int, turns: nat)
    requires
        g.wf(),
        0 <= index < g.cells.len(),
        g.material(index) == ElementType::Wall,
        turns <= g.cells.len(),
    ensures
        sweep(g, dice, turns).cells[index] == g.cells[index],
    decreases turns,
{
    if turns > 0 {
        let before = sweep(g, dice, (turns - 1) as nat);
        let visited = serpentine(g.width, turns - 1);
        lemma_wall_stands(g, dice, index, (turns - 1) as nat);
        lemma_sweep_keeps_shape(g, dice, (turns - 1) as nat);
        lemma_serpentine_visits_each_once(g.width, g.height, turns - 1);
        lemma_step_footprint(before, visited, dice[turns - 1]);
        let after = step(before, visited, dice[turns - 1]);
        if visited != index {
            assert(after.cells[index] == before.cells[index]);
        }
    }
}

/// Walls never move: after a sweep, whatever the dice, a wall is where it
/// was and as it was.
pub proof fn law_walls_stand(g: Grid, dice: Seq<Dice>, index: int)
    requires
        g.wf(),
        0 <= index < g.cells.len(),
        g.material(index) == ElementType::Wall,
    ensures
        tick(g, dice).cells[index] == g.cells[index],
{
    lemma_wall_stands(g, dice, index, g.cells.len());
}

/// Whether a seed that its sweep has yet to handle sits right on the cell at
/// `index`.
pub open spec fn under_waiting_seed(g: Grid, index: int) -> bool {
    g.relative(index, 0, -1) matches Some(a) && waiting_seed(g, a)
}

/// A turn in or after the last row's first turn visits the last row.
proof fn lemma_late_turns_visit_the_bottom_row(g: Grid, early: int, late: int)
    requires
        g.wf(),
        0 <= early <= late < g.cells.len(),
        g.row(early) == g.height - 1,
    ensures
        g.row(serpentine(g.width, late)) == g.height - 1,
        0 <= serpentine(g.width, late) < g.cells.len(),
{
    lemma_position_of_index(g.width, g.height, early);
    lemma_position_of_index(g.width, g.height, late);
    vstd::arithmetic::div_mod::lemma_div_is_ordered(early, late, g.width);
    lemma_serpentine_visits_each_once(g.width, g.height, late);
}

/// A turn before the turn of a cell visits the row of that cell or a row
/// above it.
proof fn lemma_early_turns_visit_no_lower_row(g: Grid, index: int, turn: int)
    requires
        g.wf(),
        0 <= index < g.cells.len(),
        0 <= turn <= turn_of(g, index),
    ensures
        0 <= serpentine(g.width, turn) < g.cells.len(),
        g.row(serpentine(g.width, turn)) <= g.row(index),
{
    lemma_serpentine_visits_each_once(g.width, g.height, index);
    lemma_serpentine_visits_each_once(g.width, g.height, turn);
    lemma_position_of_index(g.width, g.height, index);
    vstd::arithmetic::div_mod::lemma_div_is_ordered(turn, turn_of(g, index), g.width);
}

/// Unhandled sand in the bottom row, with no waiting seed on it, is as it
/// was, and still has no waiting seed on it, until its turn comes.
proof fn lemma_sand_waits_for_its_turn(g: Grid, dice: Seq<Dice>, index: int, turns: nat)
    requires
        g.wf(),
        on_bottom_row(g, index),
        g.material(index) == ElementType::Sand,
        !handled(g.cells[index], g.parity),
        !under_waiting_seed(g, index),
        turns <= turn_of(g, index),
    ensures
        sweep(g, dice, turns).cells[index] == g.cells[index],
        !under_waiting_seed(sweep(g, dice, turns), index),
    decreases turns,
{
    if turns > 0 {
        let before = sweep(g, dice, (turns - 1) as nat);
        let visited = serpentine(g.width, turns - 1);
        lemma_visited_at_its_turn(g, index, turns - 1);
        lemma_sand_waits_for_its_turn(g, dice, index, (turns - 1) as nat);
        lemma_sweep_keeps_shape(g, dice, (turns - 1) as nat);
        lemma_step_footprint(before, visited, dice[turns - 1]);
        lemma_neighbours_on_grid(before, index);
        let after = step(before, visited, dice[turns - 1]);
        assert(after.relative(index, 0, -1) == before.relative(index, 0, -1));
        if after.cells[index] != before.cells[index] {
            lemma_above_and_below(before, visited, index);
        }
        match before.relative(index, 0, -1) {
            Some(a) => {
                if a != visited {
                    assert(after.cells[a] == before.cells[a] || handled(
                        after.cells[a],
                        before.parity,
                    ));
                }
            },
            None => {},
        }
    }
}

/// Once the sand in the bottom row has had its turn, its cell is empty for
/// the rest of the sweep.
proof fn lemma_drained_cell_stays_empty(g: Grid, dice: Seq<Dice>, index: int, turns: nat)
    requires
        g.wf(),
        !g.is_floor,
        on_bottom_row(g, index),
        g.material(index) == ElementType::Sand,
        !handled(g.cells[index], g.parity),
        !under_waiting_seed(g, index),
        turn_of(g, index) < turns <= g.cells.len(),
    ensures
        sweep(g, dice, turns).material(index) == ElementType::Empty,
    decreases turns,
{
    let before = sweep(g, dice, (turns - 1) as nat);
    let visited = serpentine(g.width, turns - 1);
    lemma_visited_at_its_turn(g, index, turns - 1);
    lemma_sweep_keeps_shape(g, dice, (turns - 1) as nat);
    if turns - 1 == turn_of(g, index) {
        lemma_sand_waits_for_its_turn(g, dice, index, (turns - 1) as nat);
        lemma_neighbours_on_grid(before, index);
    } else {
        lemma_drained_cell_stays_empty(g, dice, index, (turns - 1) as nat);
        lemma_late_turns_visit_the_bottom_row(g, turn_of(g, index), turns - 1);
        lemma_open_edge_step_spares_the_row(before, visited, dice[turns - 1]);
    }
}

/// Where the bottom edge is open, sand in the bottom row falls off the board
/// within one sweep, whatever the dice: its cell is empty afterwards. This
/// holds of sand that the sweep has yet to handle and that no waiting seed
/// sits on. Sand already handled is passed over, and a seed that sprouts on
/// the sand marks it as handled before its turn comes.
pub proof fn law_open_edge_drains_sand(g: Grid, dice: Seq<Dice>, index: int)
    requires
        g.wf(),
        !g.is_floor,
        on_bottom_row(g, index),
        g.material(index) == ElementType::Sand,
        !handled(g.cells[index], g.parity),
        !under_waiting_seed(g, index),
    ensures
        tick(g, dice).material(index) == ElementType::Empty,
{
    lemma_visited_at_its_turn(g, index, 0);
    lemma_drained_cell_stays_empty(g, dice, index, g.cells.len());
}

/// A waiting seed on dirt becomes grass when it is handled, unless water is
/// right above it: then it becomes kelp.
pub proof fn law_seed_on_dirt_sprouts(g: Grid, index: int, dice: Dice)
    requires
        g.wf(),
        0 <= index < g.cells.len(),
        waiting_seed(g, index),
        g.relative(index, 0, 1) matches Some(b) && g.material(b) == ElementType::Dirt,
    ensures
        step(g, index, dice).material(index) == if under_water(g, index) {
            ElementType::Kelp
        } else {
            ElementType::Grass
        },
        !under_water(g, index) ==> step(g, index, dice).cells[index].growth
            == dice.grass_growth,
{
    lemma_neighbours_on_grid(g, index);
}

/// A waiting seed on dirt is as it was, and the dirt is still dirt, until
/// the seed's turn comes.
proof fn lemma_seed_waits_for_its_turn(g: Grid, dice: Seq<Dice>, index: int, turns: nat)
    requires
        g.wf(),
        0 <= index < g.cells.len(),
        waiting_seed(g, index),
        g.relative(index, 0, 1) matches Some(b) && g.material(b) == ElementType::Dirt,
        turns <= turn_of(g, index),
    ensures
        sweep(g, dice, turns).cells[index] == g.cells[index],
        sweep(g, dice, turns).material(g.relative(index, 0, 1).unwrap()) == ElementType::Dirt,
    decreases turns,
{
    if turns > 0 {
        let before = sweep(g, dice, (turns - 1) as nat);
        let visited = serpentine(g.width, turns - 1);
        let below = g.relative(index, 0, 1).unwrap();
        lemma_visited_at_its_turn(g, index, turns - 1);
        lemma_early_turns_visit_no_lower_row(g, index, turns - 1);
        lemma_neighbours_on_grid(g, index);
        lemma_seed_waits_for_its_turn(g, dice, index, (turns - 1) as nat);
        lemma_sweep_keeps_shape(g, dice, (turns - 1) as nat);
        lemma_step_footprint(before, visited, dice[turns - 1]);
        let after = step(before, visited, dice[turns - 1]);
        assert(visited != below);
        assert(after.material(below) == before.material(below));
    }
}

/// Once the seed has become grass, it is grass for the rest of the sweep.
proof fn lemma_sprouted_grass_stays(g: Grid, dice: Seq<Dice>, index: int, turns: nat)
    requires
        g.wf(),
        0 <= index < g.cells.len(),
        waiting_seed(g, index),
        g.relative(index, 0, 1) matches Some(b) && g.material(b) == ElementType::Dirt,
        !under_water(sweep(g, dice, turn_of(g, index) as nat), index),
        turn_of(g, index) < turns <= g.cells.len(),
    ensures
        sweep(g, dice, turns).material(index) == ElementType::Grass,
    decreases turns,
{
    let before = sweep(g, dice, (turns - 1) as nat);
    let visited = serpentine(g.width, turns - 1);
    lemma_visited_at_its_turn(g, index, turns - 1);
    lemma_sweep_keeps_shape(g, dice, (turns - 1) as nat);
    lemma_step_footprint(before, visited, dice[turns - 1]);
    if turns - 1 == turn_of(g, index) {
        lemma_seed_waits_for_its_turn(g, dice, index, (turns - 1) as nat);
        lemma_neighbours_on_grid(g, index);
        assert(before.relative(index, 0, 1) == g.relative(index, 0, 1));
        law_seed_on_dirt_sprouts(before, index, dice[turns - 1]);
    } else {
        lemma_sprouted_grass_stays(g, dice, index, (turns - 1) as nat);
        let after = step(before, visited, dice[turns - 1]);
        assert(after.material(index) == before.material(index));
    }
}

/// A seed on dirt that the sweep has yet to handle is grass after the
/// sweep, provided no water is right above it when its turn comes. Water
/// that is right above it then, as when it fell there earlier in the same
/// sweep, makes kelp of the seed instead.
pub proof fn law_seed_on_dirt_becomes_grass(g: Grid, dice: Seq<Dice>, index: int)
    requires
        g.wf(),
        0 <= index < g.cells.len(),
        waiting_seed(g, index),
        g.relative(index, 0, 1) matches Some(b) && g.material(b) == ElementType::Dirt,
        !under_water(sweep(g, dice, turn_of(g, index) as nat), index),
    ensures
        tick(g, dice).material(index) == ElementType::Grass,
{
    lemma_visited_at_its_turn(g, index, 0);
    lemma_sprouted_grass_stays(g, dice, index, g.cells.len());
}

/// Water that can fall neither straight down nor diagonally does not stay
/// where it is while the cell next to it, on the side it faces, is empty:
/// when it is handled it moves there.
pub proof fn law_blocked_water_moves_sideways(g: Grid, index: int, dice: Dice)
    requires
        g.wf(),
        0 <= index < g.cells.len(),
        g.material(index) == ElementType::Water,
        !handled(g.cells[index], g.parity),
        !falls_off(g, index),
        !holds(g, g.relative(index, 0, 1), ElementType::Empty),
        diagonal_target(g, index, dice.left_first, true) is None,
        holds(
            g,
            g.relative(
                index,
                if g.cells[index].direction {
                    1
                } else {
                    -1
                },
                0,
            ),
            ElementType::Empty,
        ),
    ensures
        step(g, index, dice) == g.move_to(
            index,
            g.relative(
                index,
                if g.cells[index].direction {
                    1
                } else {
                    -1
                },
                0,
            ).unwrap(),
        ),
{
    let facing = g.cells[index].direction;
    assert(look_from(g, index, facing, 1, DISPERSION as int) == crate::rules::Sight::OpenSpace(
        g.relative(index, if facing { 1 } else { -1 }, 0).unwrap(),
    ));
}

/// A cell that was handled when a step began is left alone by it.
pub proof fn law_handled_cell_is_passed_over(g: Grid, index: int, dice: Dice)
    requires
        handled(g.cells[index], g.parity),
    ensures
        step(g, index, dice) == g,
{
}

/// A step that changes a cell other than the one it handles leaves that
/// cell marked: whatever moved or grew into it is passed over when its own
/// turn comes.
pub proof fn law_moved_cell_is_settled(
    g: Grid,
    index: int,
    dice: Dice,
    other: int,
    later: Dice,
)
    requires
        g.wf(),
        0 <= index < g.cells.len(),
        0 <= other < g.cells.len(),
        other != index,
        step(g, index, dice).cells[other] != g.cells[other],
    ensures
        step(step(g, index, dice), other, later) == step(g, index, dice),
{
    lemma_step_footprint(g, index, dice);
}

/// A cell that is handled stays handled until its turn comes.
proof fn lemma_handled_until_its_turn(
    g: Grid,
    dice: Seq<Dice>,
    index: int,
    since: nat,
    turns: nat,
)
    requires
        g.wf(),
        0 <= index < g.cells.len(),
        since <= turns <= turn_of(g, index),
        handled(sweep(g, dice, since).cells[index], g.parity),
    ensures
        handled(sweep(g, dice, turns).cells[index], g.parity),
    decreases turns,
{
    if turns > since {
        let before = sweep(g, dice, (turns - 1) as nat);
        let visited = serpentine(g.width, turns - 1);
        lemma_visited_at_its_turn(g, index, turns - 1);
        lemma_handled_until_its_turn(g, dice, index, since, (turns - 1) as nat);
        lemma_sweep_keeps_shape(g, dice, (turns - 1) as nat);
        lemma_step_footprint(before, visited, dice[turns - 1]);
        let after = step(before, visited, dice[turns - 1]);
        assert(after.cells[index] == before.cells[index] || handled(
            after.cells[index],
            before.parity,
        ));
    }
}

/// Within one sweep nothing is moved twice: if a turn changes a cell whose
/// own turn is still to come, something moved or grew into that cell, and
/// when its turn comes the sweep passes it over.
pub proof fn law_nothing_moves_twice(g: Grid, dice: Seq<Dice>, index: int, turn: nat)
    requires
        g.wf(),
        0 <= index < g.cells.len(),
        turn < turn_of(g, index),
        sweep(g, dice, turn + 1).cells[index] != sweep(g, dice, turn).cells[index],
    ensures
        sweep(g, dice, (turn_of(g, index) + 1) as nat) == sweep(
            g,
            dice,
            turn_of(g, index) as nat,
        ),
{
    let before = sweep(g, dice, turn);
    let visited = serpentine(g.width, turn as int);
    lemma_visited_at_its_turn(g, index, turn as int);
    lemma_sweep_keeps_shape(g, dice, turn);
    lemma_step_footprint(before, visited, dice[turn as int]);
    lemma_handled_until_its_turn(g, dice, index, turn + 1, turn_of(g, index) as nat);
    lemma_sweep_keeps_shape(g, dice, turn_of(g, index) as nat);
}

/// Whether nothing but its own rule changes a cell of `material`: it gives
/// way to nothing, and no seed sprouts on it.
pub open spec fn firm(material: ElementType) -> bool {
    material != ElementType::Empty && material != ElementType::Water && material
        != ElementType::Dirt && material != ElementType::Sand
}

/// A firm cell is as it was until its turn comes.
proof fn lemma_firm_cell_waits(g: Grid, dice: Seq<Dice>, index: int, turns: nat)
    requires
        g.wf(),
        0 <= index < g.cells.len(),
        firm(g.material(index)),
        turns <= turn_of(g, index),
    ensures
        sweep(g, dice, turns).cells[index] == g.cells[index],
    decreases turns,
{
    if turns > 0 {
        let before = sweep(g, dice, (turns - 1) as nat);
        let visited = serpentine(g.width, turns - 1);
        lemma_visited_at_its_turn(g, index, turns - 1);
        lemma_firm_cell_waits(g, dice, index, (turns - 1) as nat);
        lemma_sweep_keeps_shape(g, dice, (turns - 1) as nat);
        lemma_step_footprint(before, visited, dice[turns - 1]);
        let after = step(before, visited, dice[turns - 1]);
        assert(after.cells[index] == before.cells[index]);
    }
}

/// Whether the minnow `swimmer` that set out from `index` towards `target`
/// is to be found on `g`: turned around where it set out, or marked as
/// handled where it was heading.
pub open spec fn swam_once(g: Grid, index: int, target: Option<int>, swimmer: Element) -> bool {
    ||| g.cells[index] == turned(swimmer)
    ||| target matches Some(j) && j != index && g.cells[j] == marked(swimmer, g.parity)
}

/// Once a minnow on the floor has had its turn, it is where that turn left
/// it for the rest of the sweep.
proof fn lemma_minnow_rests_after_its_turn(g: Grid, dice: Seq<Dice>, index: int, turns: nat)
    requires
        g.wf(),
        g.is_floor,
        on_bottom_row(g, index),
        g.material(index) == ElementType::Minnow,
        !handled(g.cells[index], g.parity),
        turn_of(g, index) < turns <= g.cells.len(),
    ensures
        swam_once(
            sweep(g, dice, turns),
            index,
            swim_target(g, index, dice[turn_of(g, index)].rises),
            spent(g.cells[index], dice[turn_of(g, index)].rises),
        ),
    decreases turns,
{
    let rises = dice[turn_of(g, index)].rises;
    let target = swim_target(g, index, rises);
    let swimmer = spent(g.cells[index], rises);
    let before = sweep(g, dice, (turns - 1) as nat);
    let visited = serpentine(g.width, turns - 1);
    lemma_visited_at_its_turn(g, index, turns - 1);
    lemma_sweep_keeps_shape(g, dice, (turns - 1) as nat);
    lemma_neighbours_on_grid(g, index);
    lemma_step_footprint(before, visited, dice[turns - 1]);
    let after = step(before, visited, dice[turns - 1]);
    if turns - 1 == turn_of(g, index) {
        lemma_firm_cell_waits(g, dice, index, (turns - 1) as nat);
        lemma_neighbours_on_grid(before, index);
        assert(swim_target(before, index, rises) == target);
        assert(drop_through(before, index, false) == before);
        assert(after == swim(before, index, rises));
    } else {
        lemma_minnow_rests_after_its_turn(g, dice, index, (turns - 1) as nat);
        if before.cells[index] == turned(swimmer) {
            assert(after.cells[index] == before.cells[index]);
        } else {
            let j = target.unwrap();
            assert(after.cells[j] == before.cells[j]);
        }
    }
}

/// A minnow on the floor is moved at most once in a sweep. After the sweep,
/// whatever the dice, it is either where it was, turned around, or one cell
/// on in the direction it faced (and one cell up, where it climbed), marked
/// as handled; either way it has paid for a climb at most once. Without
/// moisture it does not climb, so it is in its column or the next one, in
/// its row.
pub proof fn law_minnow_on_the_floor_swims_once(g: Grid, dice: Seq<Dice>, index: int)
    requires
        g.wf(),
        g.is_floor,
        on_bottom_row(g, index),
        g.material(index) == ElementType::Minnow,
        !handled(g.cells[index], g.parity),
    ensures
        swam_once(
            sweep(g, dice, g.cells.len()),
            index,
            swim_target(g, index, dice[turn_of(g, index)].rises),
            spent(g.cells[index], dice[turn_of(g, index)].rises),
        ),
        tick(g, dice).cells == sweep(g, dice, g.cells.len()).cells,
        g.cells[index].moisture == 0 ==> spent(g.cells[index], dice[turn_of(g, index)].rises)
            == g.cells[index] && (swim_target(
            g,
            index,
            dice[turn_of(g, index)].rises,
        ) matches Some(j) ==> g.row(j) == g.row(index) && g.column(j) == g.column(index) + if g.cells[index].direction {
            1int
        } else {
            -1int
        }),
{
    lemma_visited_at_its_turn(g, index, 0);
    lemma_minnow_rests_after_its_turn(g, dice, index, g.cells.len());
    lemma_neighbours_on_grid(g, index);
}

} // verus!
