//! The pen with which the player paints: its size and the material it
//! holds.

use vstd::prelude::*;

use crate::falling_sand::elements::ElementType;
use crate::falling_sand::{
    COLORS_BACKGROUND, COLORS_BLUE, COLORS_BROWN, COLORS_DARK_ORANGE, COLORS_GREY,
    COLORS_LIGHT_GREEN, COLORS_YELLOW,
};
use crate::input::InputBuffer;

verus! {

/// The materials the pen can hold, in the order of the selection bar.
pub const ELEMENT_LIST: [ElementType; 7] = [
    ElementType::Empty,
    ElementType::Sand,
    ElementType::Dirt,
    ElementType::Water,
    ElementType::Seed,
    ElementType::Egg,
    ElementType::Wall,
];

/// The colours of the selection bar, one for each material of
/// `ELEMENT_LIST`.
pub const ELEMENT_COLORS: [[u8; 4]; 7] = [
    COLORS_BACKGROUND,
    COLORS_YELLOW,
    COLORS_BROWN,
    COLORS_BLUE,
    COLORS_LIGHT_GREEN,
    COLORS_DARK_ORANGE,
    COLORS_GREY,
];

/// The pen.
#[derive(PartialEq, Eq, Structural, Copy, Clone, Debug)]
pub struct SandPen {
    pub size: usize,
    pub min_size: usize,
    pub max_size: usize,
    pub granule_rate: usize,
    /// Which material of `ELEMENT_LIST` the pen holds.
    pub element_index: usize,
}

/// The place of `element` in `ELEMENT_LIST`, or `otherwise` where the pen
/// cannot hold it.
pub open spec fn slot_of(element: ElementType, otherwise: int) -> int {
    match element {
        ElementType::Empty => 0,
        ElementType::Sand => 1,
        ElementType::Dirt => 2,
        ElementType::Water => 3,
        ElementType::Seed => 4,
        ElementType::Egg => 5,
        ElementType::Wall => 6,
        _ => otherwise,
    }
}

/// The pen `pen` holding `element`, if it can hold it.
pub open spec fn holding(pen: SandPen, element: ElementType) -> SandPen {
    SandPen { element_index: slot_of(element, pen.element_index as int) as usize, ..pen }
}

/// The size of the pen `pen` one step up, but no more than its largest.
pub open spec fn grown(pen: SandPen) -> SandPen {
    SandPen {
        size: if pen.size >= pen.max_size {
            pen.max_size
        } else {
            (pen.size + 1) as usize
        },
        ..pen
    }
}

/// The size of the pen `pen` one step down, but no less than its smallest.
pub open spec fn shrunk(pen: SandPen) -> SandPen {
    SandPen {
        size: if pen.size <= pen.min_size || pen.size - 1 < pen.min_size {
            pen.min_size
        } else {
            (pen.size - 1) as usize
        },
        ..pen
    }
}

/// The pen `pen` holding the next material of the bar, the first after the
/// last.
pub open spec fn advanced(pen: SandPen) -> SandPen {
    SandPen {
        element_index: if pen.element_index + 1 >= 7 {
            0
        } else {
            (pen.element_index + 1) as usize
        },
        ..pen
    }
}

/// The pen `pen` holding the material before its own on the bar, the last
/// before the first.
pub open spec fn retreated(pen: SandPen) -> SandPen {
    SandPen {
        element_index: if pen.element_index == 0 {
            6
        } else {
            (pen.element_index - 1) as usize
        },
        ..pen
    }
}

/// `changed` where `asked`, else `pen`.
pub open spec fn when(asked: bool, changed: SandPen, pen: SandPen) -> SandPen {
    if asked {
        changed
    } else {
        pen
    }
}

/// The pen `pen` after the commands pending in `input`, taken in this
/// order: up, down, the keys 1 to 5 (sand, water, egg, empty, seed), `Q`
/// (next material), `A` (previous material).
pub open spec fn commanded(pen: SandPen, input: InputBuffer) -> SandPen {
    let up = when(input.is_up_pressed, grown(pen), pen);
    let down = when(input.is_down_pressed, shrunk(up), up);
    let sand = when(input.is_1_pressed, holding(down, ElementType::Sand), down);
    let water = when(input.is_2_pressed, holding(sand, ElementType::Water), sand);
    let egg = when(input.is_3_pressed, holding(water, ElementType::Egg), water);
    let empty = when(input.is_4_pressed, holding(egg, ElementType::Empty), egg);
    let seed = when(input.is_5_pressed, holding(empty, ElementType::Seed), empty);
    let next = when(input.is_q_pressed, advanced(seed), seed);
    when(input.is_a_pressed, retreated(next), next)
}

impl SandPen {
    /// The pen holds one of the materials of `ELEMENT_LIST`.
    pub open spec fn wf(&self) -> bool {
        self.element_index < 7
    }

    /// A pen of size `size`, kept between `min_size` and `max_size` from
    /// then on, that holds `start_type`, or the first material of
    /// `ELEMENT_LIST` where it cannot hold that.
    pub fn new(size: usize, min_size: usize, max_size: usize, start_type: ElementType) -> (pen:
        Self)
        ensures
            pen.wf(),
            pen == (SandPen {
                size,
                min_size,
                max_size,
                granule_rate: 1,
                element_index: slot_of(start_type, 0) as usize,
            }),
    {
        let mut pen = Self { size, min_size, max_size, granule_rate: 1, element_index: 0 };
        pen.set_element(start_type);
        pen
    }

    /// Lets the pen hold `element`, if that is one of the materials of
    /// `ELEMENT_LIST`; else it holds what it held.
    pub fn set_element(&mut self, element: ElementType)
        ensures
            *final(self) == holding(*old(self), element),
            old(self).wf() ==> final(self).wf(),
    {
        let mut i: usize = 0;
        while i < 7
            invariant
                i <= 7,
                *self == (SandPen {
                    element_index: if slot_of(element, 7) < i {
                        slot_of(element, 7) as usize
                    } else {
                        old(self).element_index
                    },
                    ..*old(self)
                }),
            decreases 7 - i,
        {
            if element == ELEMENT_LIST[i] {
                self.element_index = i;
            }
            i += 1;
        }
    }

    /// The material the pen holds.
    pub fn element(&self) -> (element: ElementType)
        requires
            self.wf(),
        ensures
            element == ELEMENT_LIST[self.element_index as int],
    {
        ELEMENT_LIST[self.element_index]
    }

    /// The radius with which the pen paints: its size, but seeds are sown
    /// one at a time.
    pub fn brush_radius(&self) -> (radius: usize)
        requires
            self.wf(),
        ensures
            radius == if ELEMENT_LIST[self.element_index as int] == ElementType::Seed {
                1
            } else {
                self.size
            },
    {
        if ELEMENT_LIST[self.element_index] == ElementType::Seed {
            1
        } else {
            self.size
        }
    }

    /// Carries out the commands for the pen that are pending in `input`.
    pub fn apply_input(&mut self, input: &InputBuffer)
        requires
            old(self).wf(),
        ensures
            final(self).wf(),
            *final(self) == commanded(*old(self), *input),
    {
        if input.is_up_pressed {
            if self.size >= self.max_size {
                self.size = self.max_size;
            } else {
                self.size = self.size + 1;
            }
        }
        if input.is_down_pressed {
            if self.size <= self.min_size || self.size - 1 < self.min_size {
                self.size = self.min_size;
            } else {
                self.size = self.size - 1;
            }
        }
        if input.is_1_pressed {
            self.set_element(ElementType::Sand);
        }
        if input.is_2_pressed {
            self.set_element(ElementType::Water);
        }
        if input.is_3_pressed {
            self.set_element(ElementType::Egg);
        }
        if input.is_4_pressed {
            self.set_element(ElementType::Empty);
        }
        if input.is_5_pressed {
            self.element_index = 4;
        }
        if input.is_q_pressed {
            self.element_index = self.element_index + 1;
            if self.element_index >= 7 {
                self.element_index = 0;
            }
        }
        if input.is_a_pressed {
            if self.element_index == 0 {
                self.element_index = 6;
            } else {
                self.element_index = self.element_index - 1;
            }
        }
    }
}

} // verus!
