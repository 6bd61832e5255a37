//! The cell of the grid: a material together with its per-cell state.

use vstd::prelude::*;

use crate::chance::{heads_for, random_coin};

verus! {

/// The material held by one cell.
///
/// `ScreenEdge` is a sentinel: it stands for positions outside the grid and is
/// never stored in a board. `Moss`, `Cloud`, `Frog`, `Tadpole`, `Isopod`,
/// `Snail` and `SpringTail` are reserved and behave as `Empty`.
#[derive(PartialEq, Eq, Structural, Copy, Clone, Debug)]
pub enum ElementType {
    Empty,
    Sand,
    Water,
    Dirt,
    Seed,
    Grass,
    Kelp,
    Wall,
    Moss,
    Cloud,
    Egg,
    Frog,
    Tadpole,
    Isopod,
    Minnow,
    Snail,
    SpringTail,
    ScreenEdge,
}

/// The phase of a material. It is informational: the rules go by material.
#[derive(PartialEq, Eq, Structural, Copy, Clone, Debug)]
pub enum State {
    Solid,
    Granules,
    Liquid,
    Gas,
}

/// One cell of the grid.
#[derive(PartialEq, Eq, Structural, Copy, Clone, Debug)]
pub struct Element {
    pub element_type: ElementType,
    pub state: State,
    /// Compared with the board's parity bit: equal means "already handled in
    /// this sweep".
    pub update_toggle: bool,
    pub moisture: u8,
    pub hunger: u8,
    pub growth: u8,
    /// The lateral facing: `true` looks towards larger x.
    pub direction: bool,
}

/// The material a freshly made cell of the requested material really holds:
/// reserved materials fall back to `Empty`.
pub open spec fn settled_material(element_type: ElementType) -> ElementType {
    match element_type {
        ElementType::Sand => ElementType::Sand,
        ElementType::Water => ElementType::Water,
        ElementType::Dirt => ElementType::Dirt,
        ElementType::Seed => ElementType::Seed,
        ElementType::Grass => ElementType::Grass,
        ElementType::Kelp => ElementType::Kelp,
        ElementType::Wall => ElementType::Wall,
        ElementType::Egg => ElementType::Egg,
        ElementType::Minnow => ElementType::Minnow,
        ElementType::ScreenEdge => ElementType::ScreenEdge,
        _ => ElementType::Empty,
    }
}

/// The canonical phase of a material.
pub open spec fn default_state(element_type: ElementType) -> State {
    match element_type {
        ElementType::Sand | ElementType::Dirt | ElementType::Seed | ElementType::Egg
        | ElementType::Minnow => State::Granules,
        ElementType::Water => State::Liquid,
        ElementType::Wall | ElementType::Grass | ElementType::Kelp | ElementType::ScreenEdge =>
            State::Solid,
        _ => State::Gas,
    }
}

/// The default cell of a material. Every auxiliary field is zero, except that
/// water starts saturated and looks the way `facing` says.
pub open spec fn fresh_cell(element_type: ElementType, facing: bool) -> Element {
    Element {
        element_type: settled_material(element_type),
        state: default_state(element_type),
        update_toggle: false,
        moisture: if element_type == ElementType::Water { 255u8 } else { 0u8 },
        hunger: 0,
        growth: 0,
        direction: element_type == ElementType::Water && facing,
    }
}

impl Element {
    /// The default cell of `element_type`, with the facing that water is to
    /// start with given by the caller.
    pub fn fresh(element_type: ElementType, facing: bool) -> (cell: Self)
        ensures
            cell == fresh_cell(element_type, facing),
    {
        match element_type {
            ElementType::Sand => Element {
                element_type: ElementType::Sand,
                state: State::Granules,
                update_toggle: false,
                moisture: 0,
                hunger: 0,
                growth: 0,
                direction: false,
            },
            ElementType::Water => Element {
                element_type: ElementType::Water,
                state: State::Liquid,
                update_toggle: false,
                moisture: 255,
                hunger: 0,
                growth: 0,
                direction: facing,
            },
            ElementType::Dirt => Element {
                element_type: ElementType::Dirt,
                state: State::Granules,
                update_toggle: false,
                moisture: 0,
                hunger: 0,
                growth: 0,
                direction: false,
            },
            ElementType::Wall => Element {
                element_type: ElementType::Wall,
                state: State::Solid,
                update_toggle: false,
                moisture: 0,
                hunger: 0,
                growth: 0,
                direction: false,
            },
            ElementType::Seed => Element {
                element_type: ElementType::Seed,
                state: State::Granules,
                update_toggle: false,
                moisture: 0,
                hunger: 0,
                growth: 0,
                direction: false,
            },
            ElementType::Grass => Element {
                element_type: ElementType::Grass,
                state: State::Solid,
                update_toggle: false,
                moisture: 0,
                hunger: 0,
                growth: 0,
                direction: false,
            },
            ElementType::Kelp => Element {
                element_type: ElementType::Kelp,
                state: State::Solid,
                update_toggle: false,
                moisture: 0,
                hunger: 0,
                growth: 0,
                direction: false,
            },
            ElementType::Egg => Element {
                element_type: ElementType::Egg,
                state: State::Granules,
                update_toggle: false,
                moisture: 0,
                hunger: 0,
                growth: 0,
                direction: false,
            },
            ElementType::Minnow => Element {
                element_type: ElementType::Minnow,
                state: State::Granules,
                update_toggle: false,
                moisture: 0,
                hunger: 0,
                growth: 0,
                direction: false,
            },
            ElementType::ScreenEdge => Element {
                element_type: ElementType::ScreenEdge,
                state: State::Solid,
                update_toggle: false,
                moisture: 0,
                hunger: 0,
                growth: 0,
                direction: false,
            },
            _ => Element {
                element_type: ElementType::Empty,
                state: State::Gas,
                update_toggle: false,
                moisture: 0,
                hunger: 0,
                growth: 0,
                direction: false,
            },
        }
    }

    /// The default cell of `element_type`. Water looks left or right with
    /// equal chance; nothing else about the cell is left to chance.
    pub fn new(element_type: ElementType) -> (cell: Self)
        ensures
            cell == fresh_cell(element_type, cell.direction),
    {
        let facing = match element_type {
            ElementType::Water => {
                let mut rng = rand::thread_rng();
                heads_for(random_coin(&mut rng))
            },
            _ => false,
        };
        Element::fresh(element_type, facing)
    }

    /// Turns the cell to look the other way.
    pub fn switch_direction(&mut self)
        ensures
            *final(self) == (Element { direction: !old(self).direction, ..*old(self) }),
    {
        if self.direction {
            self.direction = false;
        } else {
            self.direction = true;
        }
    }
}

} // verus!
