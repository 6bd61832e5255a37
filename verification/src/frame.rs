//! What one frame does to the board: the player's commands first, then the
//! sweep, unless the game is being stepped by hand.

use vstd::prelude::*;

use crate::falling_sand::{empty_cells, painted, SandBoard};
use crate::grid::Grid;
use crate::input::InputBuffer;
use crate::pen::{commanded, SandPen, ELEMENT_LIST};
use crate::rules::{fair_sweep, tick, Dice};

verus! {

/// The radius with which the pen `pen` paints: its size, but seeds are sown
/// one at a time.
pub open spec fn brush_radius(pen: SandPen) -> int {
    if ELEMENT_LIST[pen.element_index as int] == crate::falling_sand::elements::ElementType::Seed {
        1
    } else {
        pen.size as int
    }
}

/// Whether `after` is what the commands pending in `input` make of
/// `before`, with the pen `pen` and the cursor over the cell `cursor`, if it
/// is over the board at all: `R` clears the board; then the pressed mouse
/// button paints around the cursor; then the space bar turns the floor into
/// a drain, or back.
pub open spec fn commands_applied(
    before: Grid,
    after: Grid,
    pen: SandPen,
    input: InputBuffer,
    cursor: Option<(usize, usize)>,
) -> bool {
    let base = if input.is_r_pressed {
        Grid { cells: empty_cells(before.cells.len()), ..before }
    } else {
        before
    };
    let inside = Grid { is_floor: before.is_floor, ..after };
    &&& after.is_floor == (before.is_floor != input.is_space_pressed)
    &&& if input.is_left_clicked && cursor is Some {
        painted(
            base,
            inside,
            cursor.unwrap().0 as int,
            cursor.unwrap().1 as int,
            brush_radius(pen),
            ELEMENT_LIST[pen.element_index as int],
        )
    } else {
        inside == base
    }
}

/// Carries out the commands pending in `input`: those for the pen first,
/// then those for the board, which is painted with the pen as the commands
/// left it. Returns how many empty cells were painted.
pub fn handle_commands(
    sand_board: &mut SandBoard,
    sand_pen: &mut SandPen,
    input: &InputBuffer,
    cursor: Option<(usize, usize)>,
) -> (added_granules: usize)
    requires
        old(sand_board).wf(),
        old(sand_pen).wf(),
    ensures
        final(sand_board).wf(),
        final(sand_pen).wf(),
        *final(sand_pen) == commanded(*old(sand_pen), *input),
        commands_applied(old(sand_board)@, final(sand_board)@, *final(sand_pen), *input, cursor),
{
    let mut added_granules: usize = 0;
    sand_pen.apply_input(input);
    if input.is_r_pressed {
        sand_board.reset();
    }
    let ghost base = sand_board@;
    if input.is_left_clicked {
        match cursor {
            Some((x, y)) => {
                let radius = sand_pen.brush_radius();
                let element = sand_pen.element();
                added_granules = sand_board.add_granules(x, y, radius, element);
            },
            None => {},
        }
    }
    let ghost inside = sand_board@;
    if input.is_space_pressed {
        let is_floor = sand_board.has_floor();
        sand_board.set_floor(!is_floor);
    }
    proof {
        assert((Grid { is_floor: base.is_floor, ..sand_board@ }) == inside);
    }
    added_granules
}

/// Advances the board by one sweep, unless the game is being stepped by
/// hand and no step was asked for, and says whether it did. `X` switches
/// stepping by hand on and off; while it is on, `Z` asks for one step.
pub fn advance(
    sand_board: &mut SandBoard,
    input: &InputBuffer,
    frame_mode: &mut bool,
    advance_frame: &mut bool,
) -> (ticked: bool)
    requires
        old(sand_board).wf(),
    ensures
        final(sand_board).wf(),
        *final(frame_mode) == (*old(frame_mode) != input.is_x_pressed),
        ticked == (!*final(frame_mode) || *old(advance_frame) || input.is_z_pressed),
        *final(advance_frame) == (!*final(frame_mode) && *old(advance_frame)),
        !ticked ==> final(sand_board)@ == old(sand_board)@,
        ticked ==> exists|dice: Seq<Dice>|
            dice.len() == old(sand_board)@.cells.len() && fair_sweep(old(sand_board)@, dice)
                && final(sand_board)@ == #[trigger] tick(old(sand_board)@, dice),
{
    if input.is_x_pressed {
        *frame_mode = !*frame_mode;
    }
    if *frame_mode {
        if input.is_z_pressed {
            *advance_frame = true;
        }
    }
    if *frame_mode {
        if *advance_frame {
            sand_board.tick();
            *advance_frame = false;
            true
        } else {
            false
        }
    } else {
        sand_board.tick();
        true
    }
}

} // verus!
