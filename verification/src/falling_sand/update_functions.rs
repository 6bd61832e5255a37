//! The rules of the materials, one function per rule, each proved to leave
//! behind exactly the grid that `crate::rules` describes.

use vstd::prelude::*;

use crate::chance::{heads_for, random_below, random_coin, random_lead};
use crate::falling_sand::elements::{Element, ElementType};
use crate::falling_sand::SandBoard;
use crate::footprint::lemma_step_footprint;
use crate::grid::lifted;
use crate::rules::{
    calm_throws, candidate, column_depth, crowded, diagonal_open, diagonal_target, disperse,
    dice_of, disperse_target, drop_moves, drop_through, fair, fair_sweep, fall_diagonal,
    first_holding,
    flow_water, grass_target, grow_grass, grow_kelp, hatch_depth, holds,
    lemma_sweep_reads_prefix, look_forward, look_from, serpentine, settle_granule, settle_seed,
    spread_kelp, step, sweep, swim, tick, update_egg, update_kelp, update_minnow, Dice,
    LiquidCollision, Sight, Throws, within_range, DISPERSION, END_SIDES, HATCH_DEPTH,
    HATCH_SIDES, RISE_SIDES, SPREAD_SIDES,
};

verus! {

impl SandBoard {
    /// Writes `cell` at `index`.
    pub(crate) fn put(&mut self, index: usize, cell: Element)
        requires
            old(self).wf(),
            index < old(self)@.cells.len(),
            cell.element_type != ElementType::ScreenEdge,
        ensures
            final(self).wf(),
            final(self)@ == old(self)@.set(index as int, cell),
    {
        self.granules[index] = cell;
    }

    /// Marks the cell at `index` as handled in this sweep.
    pub(crate) fn mark_updated(&mut self, index: usize)
        requires
            old(self).wf(),
            index < old(self)@.cells.len(),
        ensures
            final(self).wf(),
            final(self)@ == old(self)@.mark(index as int),
    {
        let mut cell = self.granules[index];
        cell.update_toggle = self.update_cycle;
        self.put(index, cell);
    }

    /// Deletes the cell at `index`.
    pub(crate) fn erase_granule(&mut self, index: usize)
        requires
            old(self).wf(),
            index < old(self)@.cells.len(),
        ensures
            final(self).wf(),
            final(self)@ == old(self)@.erase(index as int),
    {
        let mut cell = Element::fresh(ElementType::Empty, false);
        cell.update_toggle = self.update_cycle;
        self.put(index, cell);
    }

    /// Moves the particle at `from` into `to`, marks it as handled, and puts
    /// what was at `to` in its place.
    pub(crate) fn move_granule(&mut self, from: usize, to: usize)
        requires
            old(self).wf(),
            from < old(self)@.cells.len(),
            to < old(self)@.cells.len(),
        ensures
            final(self).wf(),
            final(self)@ == old(self)@.move_to(from as int, to as int),
    {
        let mut moving = self.granules[from];
        let displaced = self.granules[to];
        moving.update_toggle = self.update_cycle;
        self.put(from, displaced);
        self.put(to, moving);
    }

    /// Whether the particle at `from` may slide into the neighbour `to`.
    fn is_diagonal_open(&self, from: usize, to: Option<usize>, through_water: bool) -> (open: bool)
        requires
            self.wf(),
            from < self@.cells.len(),
            to matches Some(j) ==> j < self@.cells.len(),
        ensures
            open == diagonal_open(self@, from as int, lifted(to), through_water),
    {
        match to {
            Some(j) => {
                let there = self.granules[j].element_type;
                (there == ElementType::Empty || (through_water && there == ElementType::Water))
                    && there != self.granules[from].element_type
            },
            None => false,
        }
    }

    /// Slides the particle at `index` into one of its lower diagonal
    /// neighbours, the left one first if `left_first`, and says whether it
    /// moved. It moves into an empty cell, and into water if `through_water`,
    /// but never into its own material.
    pub fn fall_diagonal(&mut self, index: usize, left_first: bool, through_water: bool) -> (moved:
        bool)
        requires
            old(self).wf(),
            index < old(self)@.cells.len(),
        ensures
            final(self).wf(),
            final(self)@ == fall_diagonal(old(self)@, index as int, left_first, through_water),
            moved == (diagonal_target(old(self)@, index as int, left_first, through_water)
                is Some),
    {
        let first = self.get_relative_index(index, if left_first { -1 } else { 1 }, 1);
        let second = self.get_relative_index(index, if left_first { 1 } else { -1 }, 1);
        if self.is_diagonal_open(index, first, through_water) {
            self.move_granule(index, first.unwrap());
            true
        } else if self.is_diagonal_open(index, second, through_water) {
            self.move_granule(index, second.unwrap());
            true
        } else {
            false
        }
    }

    /// Slides the particle at `index` diagonally into air or water, trying
    /// the two sides in an order left to chance, and says whether it moved.
    pub fn is_falling_diagonal(&mut self, index: usize) -> (moved: bool)
        requires
            old(self).wf(),
            index < old(self)@.cells.len(),
        ensures
            final(self).wf(),
            exists|left_first: bool|
                final(self)@ == fall_diagonal(old(self)@, index as int, left_first, true) && moved
                    == (#[trigger] diagonal_target(old(self)@, index as int, left_first, true)
                    is Some),
    {
        let mut rng = rand::thread_rng();
        let left_first = heads_for(random_coin(&mut rng));
        self.fall_diagonal(index, left_first, true)
    }

    /// Slides the particle at `index` diagonally into air only, trying the
    /// two sides in an order left to chance, and says whether it moved.
    pub fn is_falling_diagonal_air(&mut self, index: usize) -> (moved: bool)
        requires
            old(self).wf(),
            index < old(self)@.cells.len(),
        ensures
            final(self).wf(),
            exists|left_first: bool|
                final(self)@ == fall_diagonal(old(self)@, index as int, left_first, false)
                    && moved == (#[trigger] diagonal_target(
                    old(self)@,
                    index as int,
                    left_first,
                    false,
                ) is Some),
    {
        let mut rng = rand::thread_rng();
        let left_first = heads_for(random_coin(&mut rng));
        self.fall_diagonal(index, left_first, false)
    }

    /// The rule of sand and of dirt.
    fn update_granular(&mut self, index: usize, left_first: bool)
        requires
            old(self).wf(),
            index < old(self)@.cells.len(),
        ensures
            final(self).wf(),
            final(self)@ == settle_granule(old(self)@, index as int, left_first),
    {
        match self.get_relative_index(index, 0, 1) {
            Some(below_index) => {
                let below = self.granules[below_index].element_type;
                if below == ElementType::Empty || below == ElementType::Water {
                    self.move_granule(index, below_index);
                } else {
                    self.fall_diagonal(index, left_first, true);
                }
            },
            None => {
                if !self.is_floor {
                    self.erase_granule(index);
                }
            },
        }
    }

    /// The rule of sand: straight down through air and water, else
    /// diagonally, the left side first if `left_first`; off the board where
    /// the bottom edge is open.
    pub fn update_sand(&mut self, index: usize, left_first: bool)
        requires
            old(self).wf(),
            index < old(self)@.cells.len(),
        ensures
            final(self).wf(),
            final(self)@ == settle_granule(old(self)@, index as int, left_first),
    {
        self.update_granular(index, left_first);
    }

    /// The rule of dirt, which falls as sand does.
    pub fn update_dirt(&mut self, index: usize, left_first: bool)
        requires
            old(self).wf(),
            index < old(self)@.cells.len(),
        ensures
            final(self).wf(),
            final(self)@ == settle_granule(old(self)@, index as int, left_first),
    {
        self.update_granular(index, left_first);
    }

    /// The rule of a seed: straight down through air; on dirt or sand it
    /// becomes kelp if water is right above it and grass if not, with the
    /// growth and hunger that `dice` holds; on anything else it slides
    /// diagonally.
    pub fn update_seed(&mut self, index: usize, dice: &Dice)
        requires
            old(self).wf(),
            index < old(self)@.cells.len(),
        ensures
            final(self).wf(),
            final(self)@ == settle_seed(old(self)@, index as int, *dice),
    {
        match self.get_relative_index(index, 0, 1) {
            Some(below_index) => {
                let below = self.granules[below_index].element_type;
                if below == ElementType::Empty {
                    self.move_granule(index, below_index);
                } else if below == ElementType::Dirt || below == ElementType::Sand {
                    let submerged = match self.get_relative_index(index, 0, -1) {
                        Some(above_index) => self.granules[above_index].element_type
                            == ElementType::Water,
                        None => false,
                    };
                    let seed = self.granules[index];
                    let mut plant = if submerged {
                        let mut kelp = Element::fresh(ElementType::Kelp, false);
                        kelp.growth = dice.kelp_growth;
                        kelp.hunger = dice.kelp_hunger;
                        kelp
                    } else {
                        let mut grass = Element::fresh(ElementType::Grass, false);
                        grass.growth = dice.grass_growth;
                        grass
                    };
                    plant.update_toggle = seed.update_toggle;
                    self.put(index, plant);
                    self.mark_updated(below_index);
                } else {
                    self.fall_diagonal(index, dice.left_first, true);
                }
            },
            None => {
                if !self.is_floor {
                    self.erase_granule(index);
                }
            },
        }
    }

    /// Looks from the cell at `index` along its row, up to `distance` cells
    /// in the direction of `direction` (`true` is towards larger x), and says
    /// what comes first: an empty cell, or something other than water (the
    /// edge of the board counts as such), or neither.
    pub fn look_forward(&self, index: usize, direction: bool, distance: usize) -> (seen:
        LiquidCollision)
        requires
            self.wf(),
            index < self@.cells.len(),
        ensures
            seen@ == look_forward(self@, index as int, direction, distance as int),
            seen matches LiquidCollision::OpenSpace(j) ==> j < self@.cells.len(),
    {
        let (x, y) = self.get_coordinates_from_index(index);
        let mut i: usize = 1;
        while i <= distance
            invariant
                self.wf(),
                index < self@.cells.len(),
                (x as int, y as int) == crate::grid::coords_at(self@.width, index as int),
                self@.in_bounds(x as int, y as int),
                1 <= i,
                look_forward(self@, index as int, direction, distance as int) == look_from(
                    self@,
                    index as int,
                    direction,
                    i as int,
                    distance as int,
                ),
            decreases distance + 1 - i,
        {
            let reachable = if direction {
                i < self.width - x
            } else {
                i <= x
            };
            if !reachable {
                return LiquidCollision::Wall;
            }
            let new_x: usize = if direction {
                x + i
            } else {
                x - i
            };
            let new_index = self.get_index_from_coordinates(new_x, y);
            let there = self.granules[new_index].element_type;
            if there == ElementType::Empty {
                return LiquidCollision::OpenSpace(new_index);
            } else if there != ElementType::Water {
                return LiquidCollision::Wall;
            }
            if i == distance {
                assert(look_from(self@, index as int, direction, i + 1, distance as int)
                    == Sight::Nothing);
                return LiquidCollision::Nothing;
            }
            i += 1;
        }
        LiquidCollision::Nothing
    }

    /// Moves the liquid at `index` sideways and says whether it moved. It
    /// takes the nearest opening within reach in the direction it faces; if
    /// it sees only liquid there, the nearest opening behind it. Where it
    /// finds no opening it turns around.
    pub fn move_forward(&mut self, index: usize) -> (moved: bool)
        requires
            old(self).wf(),
            index < old(self)@.cells.len(),
        ensures
            final(self).wf(),
            final(self)@ == disperse(old(self)@, index as int),
            moved == (disperse_target(old(self)@, index as int) is Some),
    {
        let facing = self.granules[index].direction;
        match self.look_forward(index, facing, DISPERSION) {
            LiquidCollision::Wall => {
                self.switch_direction_at(index);
                false
            },
            LiquidCollision::OpenSpace(new_index) => {
                self.move_granule(index, new_index);
                true
            },
            LiquidCollision::Nothing => {
                match self.look_forward(index, !facing, DISPERSION) {
                    LiquidCollision::OpenSpace(new_index) => {
                        self.move_granule(index, new_index);
                        true
                    },
                    _ => {
                        self.switch_direction_at(index);
                        false
                    },
                }
            },
        }
    }

    /// Turns the cell at `index` to look the other way.
    pub(crate) fn switch_direction_at(&mut self, index: usize)
        requires
            old(self).wf(),
            index < old(self)@.cells.len(),
        ensures
            final(self).wf(),
            final(self)@ == old(self)@.turn(index as int),
    {
        let mut cell = self.granules[index];
        cell.switch_direction();
        self.put(index, cell);
    }

    /// The rule of water: off the board where it is at an open bottom edge;
    /// else straight down through air, else diagonally, the left side first
    /// if `left_first`, else sideways.
    pub fn update_water(&mut self, index: usize, left_first: bool)
        requires
            old(self).wf(),
            index < old(self)@.cells.len(),
        ensures
            final(self).wf(),
            final(self)@ == flow_water(old(self)@, index as int, left_first),
    {
        match self.get_relative_index(index, 0, 1) {
            Some(below_index) => {
                if self.granules[below_index].element_type == ElementType::Empty {
                    self.move_granule(index, below_index);
                    return ;
                }
            },
            None => {
                if !self.is_floor {
                    self.erase_granule(index);
                    return ;
                }
            },
        }
        if !self.fall_diagonal(index, left_first, true) {
            self.move_forward(index);
        }
    }

    /// The upward neighbour of `index` that the direction code `code` names:
    /// 0 is straight up, 1 is up and to the left, anything else is up and to
    /// the right.
    fn candidate(&self, index: usize, code: u8) -> (neighbour: Option<usize>)
        requires
            self.wf(),
            index < self@.cells.len(),
        ensures
            lifted(neighbour) == candidate(self@, index as int, code),
            neighbour matches Some(j) ==> j < self@.cells.len(),
    {
        let x_relative: i64 = if code == 0 {
            0
        } else if code == 1 {
            -1
        } else {
            1
        };
        self.get_relative_index(index, x_relative, -1)
    }

    /// Whether the neighbour `to` is there and holds `material`.
    fn holds(&self, to: Option<usize>, material: ElementType) -> (found: bool)
        requires
            to matches Some(j) ==> j < self@.cells.len(),
        ensures
            found == holds(self@, lifted(to), material),
    {
        match to {
            Some(j) => self.granules[j].element_type == material,
            None => false,
        }
    }

    /// Whether one of the three upward neighbours of `index` holds
    /// `material`.
    fn is_crowded(&self, index: usize, material: ElementType) -> (found: bool)
        requires
            self.wf(),
            index < self@.cells.len(),
        ensures
            found == crowded(self@, index as int, material),
    {
        self.holds(self.candidate(index, 0), material) || self.holds(
            self.candidate(index, 1),
            material,
        ) || self.holds(self.candidate(index, 2), material)
    }

    /// The first upward neighbour of `index`, in the order `order`, that
    /// holds `material`.
    fn first_holding(&self, index: usize, order: &[u8; 3], material: ElementType) -> (found:
        Option<usize>)
        requires
            self.wf(),
            index < self@.cells.len(),
        ensures
            lifted(found) == first_holding(self@, index as int, *order, material),
            found matches Some(j) ==> j < self@.cells.len(),
    {
        let first = self.candidate(index, order[0]);
        if self.holds(first, material) {
            return first;
        }
        let second = self.candidate(index, order[1]);
        if self.holds(second, material) {
            return second;
        }
        let third = self.candidate(index, order[2]);
        if self.holds(third, material) {
            return third;
        }
        None
    }

    /// Lets the grass at `index` spread and says whether it did. Grass with
    /// no growth left does nothing. Grass with grass among its three upward
    /// neighbours is marked as handled and does not spread. Otherwise the
    /// first empty upward neighbour, in the order `order`, becomes grass with
    /// one growth less, and both are marked as handled.
    pub fn grow_grass(&mut self, index: usize, order: &[u8; 3]) -> (spread: bool)
        requires
            old(self).wf(),
            index < old(self)@.cells.len(),
        ensures
            final(self).wf(),
            final(self)@ == grow_grass(old(self)@, index as int, *order),
            spread == (grass_target(old(self)@, index as int, *order) is Some),
    {
        let growth: u8 = self.granules[index].growth;
        if growth == 0 {
            return false;
        }
        if self.is_crowded(index, ElementType::Grass) {
            self.mark_updated(index);
            return false;
        }
        match self.first_holding(index, order, ElementType::Empty) {
            Some(new_index) => {
                let mut blade = Element::fresh(ElementType::Grass, false);
                blade.growth = growth - 1;
                blade.update_toggle = self.update_cycle;
                self.put(new_index, blade);
                self.mark_updated(index);
                true
            },
            None => false,
        }
    }

    /// The rule of grass.
    pub fn update_grass(&mut self, index: usize, order: &[u8; 3])
        requires
            old(self).wf(),
            index < old(self)@.cells.len(),
        ensures
            final(self).wf(),
            final(self)@ == grow_grass(old(self)@, index as int, *order),
    {
        self.grow_grass(index, order);
    }

    /// Lets the kelp at `index` spread. Kelp with no growth left does
    /// nothing. Kelp with kelp among its three upward neighbours is marked as
    /// handled and does not spread. Otherwise it tries its upward neighbours
    /// in the order `dice.order`: each one that holds water becomes kelp with
    /// the parent's hunger and the parent's growth less the penalty thrown
    /// for it, and both are marked as handled; it stops after a spread that
    /// `dice.terminal` makes the last.
    pub fn grow_kelp(&mut self, index: usize, dice: &Dice)
        requires
            old(self).wf(),
            index < old(self)@.cells.len(),
        ensures
            final(self).wf(),
            final(self)@ == grow_kelp(old(self)@, index as int, *dice),
    {
        if self.granules[index].growth == 0 {
            return ;
        }
        if self.is_crowded(index, ElementType::Kelp) {
            self.mark_updated(index);
            return ;
        }
        let ghost goal = spread_kelp(self@, index as int, *dice, 0);
        let mut k: usize = 0;
        while k < 3
            invariant_except_break
                k <= 3,
                goal == spread_kelp(self@, index as int, *dice, k as int),
            invariant
                self.wf(),
                index < self@.cells.len(),
            ensures
                self@ == goal,
            decreases 3 - k,
        {
            let to = self.candidate(index, dice.order[k]);
            if self.holds(to, ElementType::Water) {
                let parent = self.granules[index];
                let penalty: u8 = if dice.penalties[k] > parent.growth {
                    parent.growth
                } else {
                    dice.penalties[k]
                };
                let mut frond = Element::fresh(ElementType::Kelp, false);
                frond.growth = parent.growth - penalty;
                frond.hunger = parent.hunger;
                frond.update_toggle = self.update_cycle;
                self.put(to.unwrap(), frond);
                self.mark_updated(index);
                if dice.terminal[k] {
                    break ;
                }
            }
            k += 1;
        }
    }

    /// The rule of kelp: it tries to spread in the sweeps in which
    /// `dice.spreads` says so.
    pub fn update_kelp(&mut self, index: usize, dice: &Dice)
        requires
            old(self).wf(),
            index < old(self)@.cells.len(),
        ensures
            final(self).wf(),
            final(self)@ == update_kelp(old(self)@, index as int, *dice),
    {
        if dice.spreads {
            self.grow_kelp(index, dice);
        }
    }

    /// Lets the cells at `from` and `to` change places and marks both as
    /// handled.
    fn exchange_granules(&mut self, from: usize, to: usize)
        requires
            old(self).wf(),
            from < old(self)@.cells.len(),
            to < old(self)@.cells.len(),
        ensures
            final(self).wf(),
            final(self)@ == old(self)@.exchange(from as int, to as int),
    {
        let mut moving = self.granules[from];
        let mut displaced = self.granules[to];
        moving.update_toggle = self.update_cycle;
        displaced.update_toggle = self.update_cycle;
        self.put(from, displaced);
        self.put(to, moving);
    }

    /// Lets the animal at `index` drop and says whether it did.
    fn drop_animal(&mut self, index: usize, through_water: bool) -> (moved: bool)
        requires
            old(self).wf(),
            index < old(self)@.cells.len(),
        ensures
            final(self).wf(),
            final(self)@ == drop_through(old(self)@, index as int, through_water),
            moved == drop_moves(old(self)@, index as int, through_water),
    {
        match self.get_relative_index(index, 0, 1) {
            Some(below_index) => {
                let below = self.granules[below_index].element_type;
                if below == ElementType::Empty || (through_water && below == ElementType::Water) {
                    self.exchange_granules(index, below_index);
                    true
                } else {
                    self.mark_updated(index);
                    false
                }
            },
            None => {
                if !self.is_floor {
                    self.erase_granule(index);
                    true
                } else {
                    false
                }
            },
        }
    }

    /// Lets the animal at `index` drop through air and says whether it did.
    /// It changes places with an empty cell below it, and both are marked as
    /// handled; blocked, it alone is marked; past the bottom row it is
    /// deleted where the bottom edge is open.
    pub fn is_falling_down_air(&mut self, index: usize) -> (moved: bool)
        requires
            old(self).wf(),
            index < old(self)@.cells.len(),
        ensures
            final(self).wf(),
            final(self)@ == drop_through(old(self)@, index as int, false),
            moved == drop_moves(old(self)@, index as int, false),
    {
        self.drop_animal(index, false)
    }

    /// Lets the animal at `index` drop through air and water and says
    /// whether it did. It changes places with an empty cell or with water
    /// below it, and both are marked as handled; blocked, it alone is marked;
    /// past the bottom row it is deleted where the bottom edge is open.
    pub fn is_falling_down(&mut self, index: usize) -> (moved: bool)
        requires
            old(self).wf(),
            index < old(self)@.cells.len(),
        ensures
            final(self).wf(),
            final(self)@ == drop_through(old(self)@, index as int, true),
            moved == drop_moves(old(self)@, index as int, true),
    {
        self.drop_animal(index, true)
    }

    /// The depth of the water over the cell at `index`: the distance to the
    /// first cell right above it that is neither water nor minnow, or to the
    /// top edge, counted up to 255.
    pub fn water_depth(&self, index: usize) -> (depth: u8)
        requires
            self.wf(),
            index < self@.cells.len(),
        ensures
            depth == hatch_depth(self@, index as int),
            depth >= 1,
    {
        let (x, y) = self.get_coordinates_from_index(index);
        let mut depth: u8 = 1;
        let mut row: usize = y;
        while row > 0 && depth < 255
            invariant
                self.wf(),
                self@.in_bounds(x as int, y as int),
                row <= y,
                1 <= depth <= 255,
                column_depth(self@, x as int, y as int) == (depth - 1) + column_depth(
                    self@,
                    x as int,
                    row as int,
                ),
            ensures
                depth == 255 || column_depth(self@, x as int, row as int) == 0,
            decreases row,
        {
            let above = self.get_index_from_coordinates(x, row - 1);
            let there = self.granules[above].element_type;
            if there == ElementType::Water || there == ElementType::Minnow {
                depth += 1;
                row -= 1;
            } else {
                break ;
            }
        }
        depth
    }

    /// The rule of an egg: down through air and water, else diagonally, the
    /// left side first if `dice.left_first`. Where it rests and
    /// `dice.hatches`, it becomes a minnow with the moisture and the facing
    /// that `dice` holds, if the water over it is at least `HATCH_DEPTH`
    /// deep.
    pub fn update_egg(&mut self, index: usize, dice: &Dice)
        requires
            old(self).wf(),
            index < old(self)@.cells.len(),
        ensures
            final(self).wf(),
            final(self)@ == update_egg(old(self)@, index as int, *dice),
    {
        if self.is_falling_down(index) {
            return ;
        }
        if self.fall_diagonal(index, dice.left_first, true) {
            return ;
        }
        if dice.hatches {
            let depth = self.water_depth(index);
            if depth >= HATCH_DEPTH {
                let egg = self.granules[index];
                let mut minnow = Element::fresh(ElementType::Minnow, false);
                minnow.moisture = dice.moisture;
                minnow.direction = dice.facing;
                minnow.update_toggle = egg.update_toggle;
                self.put(index, minnow);
            }
        }
    }

    /// Lets the minnow at `index` swim: one cell in the direction it faces,
    /// and one cell up as well if `rises` and it has moisture left, which
    /// costs it one moisture whether it gets there or not. It changes places
    /// with water and is marked as handled; where the cell it swims towards
    /// holds anything else, or is off the board, it turns around instead.
    pub fn swim(&mut self, index: usize, rises: bool)
        requires
            old(self).wf(),
            index < old(self)@.cells.len(),
        ensures
            final(self).wf(),
            final(self)@ == swim(old(self)@, index as int, rises),
    {
        let mut minnow = self.granules[index];
        let climbs = rises && minnow.moisture > 0;
        let target = self.get_relative_index(
            index,
            if minnow.direction {
                1
            } else {
                -1
            },
            if climbs {
                -1
            } else {
                0
            },
        );
        let wet = self.holds(target, ElementType::Water);
        if climbs {
            minnow.moisture = minnow.moisture - 1;
        }
        self.put(index, minnow);
        if wet {
            self.move_granule(index, target.unwrap());
        } else {
            self.switch_direction_at(index);
        }
    }

    /// The rule of a minnow: out of the water it drops through air, straight
    /// down or else diagonally, the left side first if `dice.left_first`;
    /// otherwise it swims, upwards too if `dice.rises`.
    pub fn update_minnow(&mut self, index: usize, dice: &Dice)
        requires
            old(self).wf(),
            index < old(self)@.cells.len(),
        ensures
            final(self).wf(),
            final(self)@ == update_minnow(old(self)@, index as int, *dice),
    {
        if self.is_falling_down_air(index) {
            return ;
        }
        if self.fall_diagonal(index, dice.left_first, false) {
            return ;
        }
        self.swim(index, dice.rises);
    }

    /// Handles the cell at `index` with the dice `dice`: nothing happens to
    /// a cell that was already handled in this sweep; any other cell goes by
    /// the rule of its material. Walls, empty cells and reserved materials
    /// have no rule.
    pub fn granule_tick_with(&mut self, index: usize, dice: &Dice)
        requires
            old(self).wf(),
            index < old(self)@.cells.len(),
        ensures
            final(self).wf(),
            final(self)@ == step(old(self)@, index as int, *dice),
    {
        if self.granules[index].update_toggle == self.update_cycle {
            return ;
        }
        match self.granules[index].element_type {
            ElementType::Sand => self.update_sand(index, dice.left_first),
            ElementType::Dirt => self.update_dirt(index, dice.left_first),
            ElementType::Water => self.update_water(index, dice.left_first),
            ElementType::Seed => self.update_seed(index, dice),
            ElementType::Grass => self.update_grass(index, &dice.order),
            ElementType::Kelp => self.update_kelp(index, dice),
            ElementType::Egg => self.update_egg(index, dice),
            ElementType::Minnow => self.update_minnow(index, dice),
            _ => {},
        }
    }

    /// Throws for the cell at `index`: only what the rule of its material
    /// reads is left to chance, the rest is as `Throws::calm` has it.
    ///
    /// Each throw is a number below the count of its sides. A seed gets kelp
    /// growth from 30 up to the board's height (kept between 31 and 256)
    /// exclusive, kelp hunger in `1..20` and grass growth in `2..20`. Kelp
    /// loses 1 to 3 growth with each spread. A minnow that hatches gets
    /// moisture from 3 up to the water's depth less 3 exclusive.
    pub fn throw(&self, index: usize) -> (throws: Throws)
        requires
            self.wf(),
            index < self@.cells.len(),
        ensures
            within_range(self@, index as int, throws),
    {
        let cell = self.granules[index];
        let mut rng = rand::thread_rng();
        let mut throws = Throws::calm();
        match cell.element_type {
            ElementType::Sand | ElementType::Dirt | ElementType::Water => {
                throws.coin = random_coin(&mut rng);
            },
            ElementType::Seed => {
                let cap: u32 = if self.height < 31 {
                    31
                } else if self.height > 256 {
                    256
                } else {
                    self.height as u32
                };
                throws.coin = random_coin(&mut rng);
                throws.kelp_growth = random_below(&mut rng, 30, cap) as u8;
                throws.kelp_hunger = random_below(&mut rng, 1, 20) as u8;
                throws.grass_growth = random_below(&mut rng, 2, 20) as u8;
            },
            ElementType::Grass => {
                let (weight, swapped) = random_lead(&mut rng);
                throws.weight = weight;
                throws.swapped = swapped;
            },
            ElementType::Kelp => {
                throws.spread = random_below(&mut rng, 0, SPREAD_SIDES);
                if throws.spread < cell.hunger as u32 {
                    let (weight, swapped) = random_lead(&mut rng);
                    throws.weight = weight;
                    throws.swapped = swapped;
                    throws.penalties = [
                        random_below(&mut rng, 1, 4) as u8,
                        random_below(&mut rng, 1, 4) as u8,
                        random_below(&mut rng, 1, 4) as u8,
                    ];
                    throws.ends = [
                        random_below(&mut rng, 0, END_SIDES),
                        random_below(&mut rng, 0, END_SIDES),
                        random_below(&mut rng, 0, END_SIDES),
                    ];
                }
            },
            ElementType::Egg => {
                throws.coin = random_coin(&mut rng);
                throws.hatch = random_below(&mut rng, 0, HATCH_SIDES);
                if throws.hatch == 0 {
                    let depth: u8 = self.water_depth(index);
                    if depth >= HATCH_DEPTH {
                        throws.moisture = random_below(&mut rng, 3, depth as u32 - 3) as u8;
                    }
                    throws.facing = random_coin(&mut rng);
                }
            },
            ElementType::Minnow => {
                throws.coin = random_coin(&mut rng);
                throws.rise = random_below(&mut rng, 0, RISE_SIDES);
            },
            _ => {},
        }
        throws
    }

    /// Throws the dice for the cell at `index`: what `Dice::from_throws`
    /// makes of the throws that `throw` makes for the cell.
    ///
    /// So a diagonal slide tries the left side first with chance one half;
    /// a plant tries straight up first in eight throws of ten and each
    /// diagonal in one; kelp spreads with chance hunger in 255, and a spread
    /// is the last one with chance one quarter; an egg checks for hatching
    /// with chance 1 in 35, and the minnow faces either way with equal
    /// chance; a minnow climbs with chance 3 in 10.
    pub fn roll(&self, index: usize) -> (dice: Dice)
        requires
            self.wf(),
            index < self@.cells.len(),
        ensures
            fair(self@, index as int, dice),
    {
        let throws = self.throw(index);
        Dice::from_throws(&throws, self.granules[index].hunger)
    }

    /// Handles the cell at `index` with dice thrown for it: whatever the
    /// throw, the board is left as `granule_tick_with` leaves it for that
    /// throw.
    pub fn granule_tick_new(&mut self, index: usize)
        requires
            old(self).wf(),
            index < old(self)@.cells.len(),
        ensures
            final(self).wf(),
            exists|dice: Dice|
                fair(old(self)@, index as int, dice) && final(self)@ == #[trigger] step(
                    old(self)@,
                    index as int,
                    dice,
                ),
    {
        let dice = self.roll(index);
        self.granule_tick_with(index, &dice);
    }

    /// The index that a sweep visits at its `turn`-th turn: rows from the
    /// top, the even ones from right to left, the odd ones from left to
    /// right.
    pub fn serpentine_index(&self, turn: usize) -> (index: usize)
        requires
            self.wf(),
            turn < self@.cells.len(),
        ensures
            index == serpentine(self@.width, turn as int),
            index < self@.cells.len(),
    {
        let (x, y) = self.get_coordinates_from_index(turn);
        if y % 2 == 0 {
            self.get_index_from_coordinates(self.width - x - 1, y)
        } else {
            turn
        }
    }

    /// Advances the simulation by one sweep: every index is visited once, in
    /// serpentine order; empty cells and cells already handled in this sweep
    /// are passed over, every other cell goes by the rule of its material
    /// with dice thrown for it; then the parity flips. Whatever the throws,
    /// the board is left as `crate::rules::tick` describes for them.
    pub fn tick(&mut self)
        requires
            old(self).wf(),
        ensures
            final(self).wf(),
            final(self)@.width == old(self)@.width,
            final(self)@.height == old(self)@.height,
            final(self)@.is_floor == old(self)@.is_floor,
            final(self)@.parity == !old(self)@.parity,
            exists|dice: Seq<Dice>|
                dice.len() == old(self)@.cells.len() && fair_sweep(old(self)@, dice)
                    && final(self)@ == #[trigger] tick(old(self)@, dice),
    {
        let max_index: usize = self.granules.len();
        let ghost start = self@;
        let ghost mut thrown: Seq<Dice> = Seq::empty();
        let mut i: usize = 0;
        while i < max_index
            invariant
                self.wf(),
                start.wf(),
                max_index == start.cells.len(),
                self@.cells.len() == start.cells.len(),
                self@.width == start.width,
                self@.height == start.height,
                self@.is_floor == start.is_floor,
                self@.parity == start.parity,
                i <= max_index,
                thrown.len() == i,
                self@ == sweep(start, thrown, i as nat),
                forall|k: nat|
                    k < i ==> fair(
                        #[trigger] sweep(start, thrown, k),
                        serpentine(start.width, k as int),
                        thrown[k as int],
                    ),
            decreases max_index - i,
        {
            let index: usize = self.serpentine_index(i);
            let ghost before = thrown;
            let ghost here = self@;
            if self.granules[index].element_type == ElementType::Empty {
                proof {
                    assert(within_range(here, index as int, calm_throws()));
                    thrown = thrown.push(dice_of(calm_throws(), here.cells[index as int].hunger));
                }
            } else {
                let dice = self.roll(index);
                self.granule_tick_with(index, &dice);
                proof {
                    thrown = thrown.push(dice);
                }
            }
            proof {
                lemma_step_footprint(here, index as int, thrown[i as int]);
                assert forall|k: nat| k <= i implies sweep(start, thrown, k) == sweep(
                    start,
                    before,
                    k,
                ) by {
                    lemma_sweep_reads_prefix(start, thrown, before, k);
                }
                assert(sweep(start, thrown, i as nat) == here);
                assert(sweep(start, thrown, (i + 1) as nat) == step(
                    sweep(start, thrown, i as nat),
                    serpentine(start.width, i as int),
                    thrown[i as int],
                ));
            }
            i += 1;
        }
        self.update_cycle = !self.update_cycle;
        proof {
            assert(fair_sweep(start, thrown));
            assert(self@ == tick(start, thrown));
        }
    }
}

} // verus!
