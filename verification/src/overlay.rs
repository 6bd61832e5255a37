//! The selection bar that is drawn over the picture of the board: one box
//! for each material the pen can hold.

use vstd::prelude::*;

use crate::falling_sand::screen_texture::{inked, pixel_of, ScreenTexture};
use crate::falling_sand::COLORS_WHITE;
use crate::pen::ELEMENT_COLORS;

verus! {

/// The side of a box of the selection bar, in pixels.
pub const BOX_SIZE: usize = 10;

/// The gap between the left end of the bar and its first box.
pub const BAR_MARGIN: usize = 5;

/// The gap between the outline of a box and the colour inside it.
pub const BOX_MARGIN: usize = 2;

/// The bytes `before` inked over: every byte of a pixel for which `ink`
/// names a colour holds that colour's byte, every other byte is as it was.
pub open spec fn ink_over(
    before: Seq<u8>,
    width: int,
    ink: spec_fn(int, int) -> Option<[u8; 4]>,
) -> Seq<u8> {
    Seq::new(
        before.len(),
        |k: int|
            match ink(pixel_of(width, k).0, pixel_of(width, k).1) {
                Some(color) => color[k % 4],
                None => before[k],
            },
    )
}

/// Whether `(px, py)` lies in the rectangle from `(left, top)` to
/// `(right, bottom)`, both ends included.
pub open spec fn in_rect(px: int, py: int, left: int, top: int, right: int, bottom: int) -> bool {
    left <= px <= right && top <= py <= bottom
}

/// The bytes `before` with a box drawn at `top_left`: its inside, a margin
/// of `BOX_MARGIN` in from each side, in `color`, and then, if `outlined`,
/// its outline in white.
pub open spec fn box_drawn(
    before: Seq<u8>,
    width: int,
    top_left: (usize, usize),
    size: (usize, usize),
    color: [u8; 4],
    outlined: bool,
) -> Seq<u8> {
    let filled = ink_over(
        before,
        width,
        |px: int, py: int|
            if in_rect(
                px,
                py,
                top_left.0 + BOX_MARGIN,
                top_left.1 + BOX_MARGIN,
                top_left.0 + size.0 - BOX_MARGIN,
                top_left.1 + size.1 - BOX_MARGIN,
            ) {
                Some(color)
            } else {
                None
            },
    );
    if outlined {
        ink_over(
            filled,
            width,
            |px: int, py: int|
                if in_rect(
                    px,
                    py,
                    top_left.0 as int,
                    top_left.1 as int,
                    top_left.0 + size.0,
                    top_left.1 + size.1,
                ) && (px == top_left.0 || px == top_left.0 + size.0 || py == top_left.1 || py
                    == top_left.1 + size.1) {
                    Some(COLORS_WHITE)
                } else {
                    None
                },
        )
    } else {
        filled
    }
}

/// Where the `slot`-th box of a bar at `position` has its top left pixel.
pub open spec fn box_corner(position: (usize, usize), slot: int) -> (usize, usize) {
    ((position.0 + slot * BOX_SIZE + BAR_MARGIN) as usize, position.1)
}

/// The bytes `before` with the first `count` boxes of the selection bar
/// drawn at `position`, from left to right. A box is outlined if it is the
/// selected one, or if the mouse is pressed on it.
pub open spec fn bar_drawn(
    before: Seq<u8>,
    width: int,
    position: (usize, usize),
    selected: usize,
    hovered: [bool; 7],
    clicked: bool,
    count: int,
) -> Seq<u8>
    decreases count,
{
    if count <= 0 {
        before
    } else {
        box_drawn(
            bar_drawn(before, width, position, selected, hovered, clicked, count - 1),
            width,
            box_corner(position, count - 1),
            (BOX_SIZE, BOX_SIZE),
            ELEMENT_COLORS[count - 1],
            selected == count - 1 || (hovered[count - 1] && clicked),
        )
    }
}

/// Draws a box with its top left pixel at `top_left` and `size.0` by
/// `size.1` pixels further to its far corner: the inside in `color`, and the
/// outline in white if the box is `selected` or `pressed`. Says whether it
/// was pressed.
pub fn input_box(
    sand_texture: &mut ScreenTexture,
    top_left: (usize, usize),
    selected: bool,
    pressed: bool,
    size: (usize, usize),
    color: [u8; 4],
) -> (activated: bool)
    requires
        old(sand_texture).wf(),
        size.0 >= 2 * BOX_MARGIN,
        size.1 >= 2 * BOX_MARGIN,
        old(sand_texture).covers(top_left.0 + size.0, top_left.1 + size.1),
    ensures
        final(sand_texture).wf(),
        final(sand_texture).dimensions == old(sand_texture).dimensions,
        final(sand_texture).pixel_data@ == box_drawn(
            old(sand_texture).pixel_data@,
            old(sand_texture).dimensions.0 as int,
            top_left,
            size,
            color,
            selected || pressed,
        ),
        activated == pressed,
{
    let ghost before = sand_texture.pixel_data@;
    let ghost width = sand_texture.dimensions.0 as int;
    let filled_rect_position = (top_left.0 + BOX_MARGIN, top_left.1 + BOX_MARGIN);
    let filled_rect_size = (size.0 - 2 * BOX_MARGIN, size.1 - 2 * BOX_MARGIN);
    sand_texture.print_filled_rect(filled_rect_position, filled_rect_size, color);
    let ghost filled = sand_texture.pixel_data@;
    assert(filled =~= ink_over(
        before,
        width,
        |px: int, py: int|
            if in_rect(
                px,
                py,
                top_left.0 + BOX_MARGIN,
                top_left.1 + BOX_MARGIN,
                top_left.0 + size.0 - BOX_MARGIN,
                top_left.1 + size.1 - BOX_MARGIN,
            ) {
                Some(color)
            } else {
                None
            },
    ));
    if selected || pressed {
        sand_texture.print_empty_rect(top_left, size, COLORS_WHITE);
        assert(sand_texture.pixel_data@ =~= box_drawn(
            before,
            width,
            top_left,
            size,
            color,
            true,
        ));
    }
    pressed
}

/// Draws the selection bar at `position`: one box for each material of the
/// pen, `BOX_SIZE` apart, in the material's colour. The box of the material
/// that the pen holds, the `selected`-th, is outlined, and so is a box on
/// which the mouse is pressed.
pub fn draw_selection_bar(
    hovered: &[bool; 7],
    clicked: bool,
    selected: usize,
    position: (usize, usize),
    sand_texture: &mut ScreenTexture,
)
    requires
        old(sand_texture).wf(),
        old(sand_texture).covers(
            position.0 + 6 * BOX_SIZE + BAR_MARGIN + BOX_SIZE,
            position.1 + BOX_SIZE,
        ),
    ensures
        final(sand_texture).wf(),
        final(sand_texture).dimensions == old(sand_texture).dimensions,
        final(sand_texture).pixel_data@ == bar_drawn(
            old(sand_texture).pixel_data@,
            old(sand_texture).dimensions.0 as int,
            position,
            selected,
            *hovered,
            clicked,
            7,
        ),
{
    let ghost before = sand_texture.pixel_data@;
    let ghost width = sand_texture.dimensions.0 as int;
    let mut i: usize = 0;
    while i < 7
        invariant
            i <= 7,
            sand_texture.wf(),
            sand_texture.dimensions == old(sand_texture).dimensions,
            width == sand_texture.dimensions.0,
            sand_texture.covers(
                position.0 + 6 * BOX_SIZE + BAR_MARGIN + BOX_SIZE,
                position.1 + BOX_SIZE,
            ),
            sand_texture.pixel_data@ == bar_drawn(
                before,
                width,
                position,
                selected,
                *hovered,
                clicked,
                i as int,
            ),
        decreases 7 - i,
    {
        let x: usize = position.0 + (i * BOX_SIZE + BAR_MARGIN);
        let is_selected = selected == i;
        input_box(
            sand_texture,
            (x, position.1),
            is_selected,
            hovered[i] && clicked,
            (BOX_SIZE, BOX_SIZE),
            ELEMENT_COLORS[i],
        );
        i += 1;
    }
}

} // verus!
