use sand_game::falling_sand::elements::{Element, ElementType, State};
use sand_game::falling_sand::SandBoard;
use sand_game::rules::{Dice, LiquidCollision, DISPERSION, HATCH_DEPTH};

fn cell(material: ElementType) -> Element {
    Element::fresh(material, false)
}

fn handled(material: ElementType) -> Element {
    Element { update_toggle: true, ..cell(material) }
}

fn kind(board: &SandBoard, x: usize, y: usize) -> ElementType {
    board.granule_at(x, y).unwrap().element_type
}

fn index(board: &SandBoard, x: usize, y: usize) -> usize {
    board.get_index_from_coordinates(x, y)
}

fn fill_row(board: &mut SandBoard, y: usize, material: ElementType) {
    for x in 0..board.width {
        board.place(x, y, cell(material));
    }
}

#[test]
fn calm_dice_are_the_smallest_throw() {
    let dice = Dice::calm();
    assert!(dice.left_first);
    assert_eq!(dice.kelp_growth, 30);
    assert_eq!(dice.kelp_hunger, 1);
    assert_eq!(dice.grass_growth, 2);
    assert_eq!(dice.order, [0, 1, 2]);
    assert!(!dice.spreads);
    assert_eq!(dice.penalties, [1, 1, 1]);
    assert_eq!(dice.terminal, [false, false, false]);
    assert!(!dice.hatches);
    assert_eq!(dice.moisture, 3);
    assert!(!dice.facing);
    assert!(!dice.rises);
    assert_eq!(DISPERSION, 5);
    assert_eq!(HATCH_DEPTH, 20);
}

#[test]
fn sand_falls_straight_down_and_is_marked() {
    let mut board = SandBoard::new(3, 3);
    board.place(1, 0, cell(ElementType::Sand));
    let from = index(&board, 1, 0);
    board.update_sand(from, true);
    assert_eq!(board.granule_at(1, 0), Some(cell(ElementType::Empty)));
    assert_eq!(board.granule_at(1, 1), Some(handled(ElementType::Sand)));
    assert_eq!(board.get_granule_count(), 1);
}

#[test]
fn sand_sinks_through_water() {
    let mut board = SandBoard::new(3, 3);
    let water = Element::fresh(ElementType::Water, true);
    board.place(1, 1, cell(ElementType::Sand));
    board.place(1, 2, water);
    let from = index(&board, 1, 1);
    board.update_sand(from, false);
    assert_eq!(board.granule_at(1, 1), Some(water));
    assert_eq!(board.granule_at(1, 2), Some(handled(ElementType::Sand)));
}

#[test]
fn dirt_falls_as_sand_does() {
    let mut board = SandBoard::new(3, 3);
    board.place(1, 0, cell(ElementType::Dirt));
    board.place(1, 1, cell(ElementType::Wall));
    board.place(0, 1, cell(ElementType::Wall));
    let from = index(&board, 1, 0);
    board.update_dirt(from, true);
    assert_eq!(kind(&board, 1, 0), ElementType::Empty);
    assert_eq!(board.granule_at(2, 1), Some(handled(ElementType::Dirt)));
}

#[test]
fn blocked_sand_slides_to_the_side_thrown_first() {
    let mut left = SandBoard::new(3, 3);
    left.place(1, 0, cell(ElementType::Sand));
    left.place(1, 1, cell(ElementType::Wall));
    let from = index(&left, 1, 0);
    left.update_sand(from, true);
    assert_eq!(left.granule_at(0, 1), Some(handled(ElementType::Sand)));
    assert_eq!(kind(&left, 1, 0), ElementType::Empty);
    assert_eq!(kind(&left, 2, 1), ElementType::Empty);

    let mut right = SandBoard::new(3, 3);
    right.place(1, 0, cell(ElementType::Sand));
    right.place(1, 1, cell(ElementType::Wall));
    right.update_sand(from, false);
    assert_eq!(right.granule_at(2, 1), Some(handled(ElementType::Sand)));
    assert_eq!(kind(&right, 0, 1), ElementType::Empty);
}

#[test]
fn sand_on_sand_does_not_slide_into_sand() {
    let mut board = SandBoard::new(3, 2);
    fill_row(&mut board, 1, ElementType::Sand);
    board.place(1, 0, cell(ElementType::Sand));
    let from = index(&board, 1, 0);
    board.update_sand(from, true);
    assert_eq!(board.granule_at(1, 0), Some(cell(ElementType::Sand)));
    assert_eq!(board.get_granule_count(), 4);
}

#[test]
fn sand_on_the_floor_rests() {
    let mut board = SandBoard::new(3, 2);
    board.place(1, 1, cell(ElementType::Sand));
    let from = index(&board, 1, 1);
    board.update_sand(from, true);
    assert_eq!(board.granule_at(1, 1), Some(cell(ElementType::Sand)));
}

#[test]
fn sand_falls_off_an_open_edge() {
    let mut board = SandBoard::new(3, 2);
    board.set_floor(false);
    board.place(1, 1, cell(ElementType::Sand));
    let from = index(&board, 1, 1);
    board.update_sand(from, true);
    assert_eq!(board.granule_at(1, 1), Some(handled(ElementType::Empty)));
    assert_eq!(board.get_granule_count(), 0);
}

#[test]
fn fall_diagonal_says_whether_it_moved() {
    let mut board = SandBoard::new(3, 2);
    board.place(1, 0, cell(ElementType::Sand));
    board.place(0, 1, cell(ElementType::Wall));
    let from = index(&board, 1, 0);
    assert!(board.fall_diagonal(from, true, true));
    assert_eq!(board.granule_at(2, 1), Some(handled(ElementType::Sand)));
    let corner = index(&board, 2, 1);
    assert!(!board.fall_diagonal(corner, true, true));
    let wall = index(&board, 0, 1);
    assert!(!board.fall_diagonal(wall, false, true));
}

#[test]
fn fall_diagonal_through_air_only_stays_out_of_water() {
    let mut board = SandBoard::new(3, 2);
    board.place(1, 0, cell(ElementType::Minnow));
    board.place(0, 1, cell(ElementType::Water));
    board.place(2, 1, cell(ElementType::Water));
    let from = index(&board, 1, 0);
    assert!(!board.fall_diagonal(from, true, false));
    assert_eq!(board.granule_at(1, 0), Some(cell(ElementType::Minnow)));
    assert!(board.fall_diagonal(from, false, true));
    assert_eq!(board.granule_at(2, 1), Some(handled(ElementType::Minnow)));
    assert_eq!(board.granule_at(1, 0), Some(cell(ElementType::Water)));
}

#[test]
fn water_does_not_slide_into_water() {
    let mut board = SandBoard::new(3, 2);
    fill_row(&mut board, 1, ElementType::Water);
    board.place(1, 0, cell(ElementType::Water));
    let from = index(&board, 1, 0);
    assert!(!board.fall_diagonal(from, true, true));
    assert_eq!(board.granule_at(1, 0), Some(cell(ElementType::Water)));
}

#[test]
fn falling_diagonally_by_chance_takes_one_of_the_two_sides() {
    let mut lefts = 0;
    let mut rights = 0;
    for _ in 0..200 {
        let mut board = SandBoard::new(3, 2);
        board.place(1, 0, cell(ElementType::Sand));
        board.place(1, 1, cell(ElementType::Wall));
        let from = index(&board, 1, 0);
        assert!(board.is_falling_diagonal(from));
        assert_eq!(kind(&board, 1, 0), ElementType::Empty);
        if kind(&board, 0, 1) == ElementType::Sand {
            lefts += 1;
            assert_eq!(kind(&board, 2, 1), ElementType::Empty);
        } else {
            rights += 1;
            assert_eq!(board.granule_at(2, 1), Some(handled(ElementType::Sand)));
        }
    }
    assert!(lefts > 40 && rights > 40, "{} left, {} right", lefts, rights);
}

#[test]
fn falling_diagonally_through_air_by_chance() {
    let mut board = SandBoard::new(3, 2);
    board.place(1, 0, cell(ElementType::Minnow));
    board.place(0, 1, cell(ElementType::Water));
    board.place(2, 1, cell(ElementType::Water));
    let from = index(&board, 1, 0);
    assert!(!board.is_falling_diagonal_air(from));
    board.place(0, 1, cell(ElementType::Empty));
    assert!(board.is_falling_diagonal_air(from));
    assert_eq!(board.granule_at(0, 1), Some(handled(ElementType::Minnow)));
}

#[test]
fn water_falls_into_air_but_not_into_water() {
    let mut board = SandBoard::new(3, 3);
    board.place(1, 0, cell(ElementType::Water));
    let from = index(&board, 1, 0);
    board.update_water(from, true);
    assert_eq!(board.granule_at(1, 1), Some(handled(ElementType::Water)));
    assert_eq!(kind(&board, 1, 0), ElementType::Empty);
}

#[test]
fn water_on_the_floor_moves_sideways() {
    let mut board = SandBoard::new(5, 2);
    let water = Element::fresh(ElementType::Water, true);
    board.place(2, 1, water);
    let from = index(&board, 2, 1);
    board.update_water(from, true);
    assert_eq!(board.granule_at(3, 1), Some(Element { update_toggle: true, ..water }));
    assert_eq!(board.granule_at(2, 1), Some(cell(ElementType::Empty)));
    let corner = index(&board, 3, 1);
    board.update_water(corner, true);
    board.update_water(corner + 1, true);
    assert_eq!(
        board.granule_at(4, 1),
        Some(Element { update_toggle: true, ..Element::fresh(ElementType::Water, false) })
    );
}

#[test]
fn water_leaves_through_an_open_edge() {
    let mut board = SandBoard::new(3, 2);
    board.set_floor(false);
    board.place(1, 1, cell(ElementType::Water));
    let from = index(&board, 1, 1);
    board.update_water(from, false);
    assert_eq!(board.get_granule_count(), 0);
}

#[test]
fn look_forward_finds_the_nearest_opening() {
    let mut board = SandBoard::new(9, 1);
    board.place(4, 0, cell(ElementType::Water));
    let from = index(&board, 4, 0);
    assert_eq!(board.look_forward(from, true, 5), LiquidCollision::OpenSpace(5));
    assert_eq!(board.look_forward(from, false, 5), LiquidCollision::OpenSpace(3));
    board.place(5, 0, cell(ElementType::Water));
    board.place(6, 0, cell(ElementType::Water));
    assert_eq!(board.look_forward(from, true, 5), LiquidCollision::OpenSpace(7));
    assert_eq!(board.look_forward(from, true, 2), LiquidCollision::Nothing);
    assert_eq!(board.look_forward(from, true, 0), LiquidCollision::Nothing);
    board.place(7, 0, cell(ElementType::Sand));
    assert_eq!(board.look_forward(from, true, 5), LiquidCollision::Wall);
    assert_eq!(board.look_forward(from, true, 2), LiquidCollision::Nothing);
}

#[test]
fn look_forward_takes_the_edge_for_a_wall() {
    let mut board = SandBoard::new(4, 2);
    fill_row(&mut board, 1, ElementType::Water);
    let left = index(&board, 0, 1);
    let right = index(&board, 3, 1);
    assert_eq!(board.look_forward(left, false, 5), LiquidCollision::Wall);
    assert_eq!(board.look_forward(right, true, 5), LiquidCollision::Wall);
    assert_eq!(board.look_forward(left, true, 5), LiquidCollision::Wall);
    assert_eq!(board.look_forward(left, true, 3), LiquidCollision::Nothing);
    assert_eq!(board.look_forward(right, true, usize::MAX), LiquidCollision::Wall);
}

#[test]
fn move_forward_takes_the_opening_ahead() {
    let mut board = SandBoard::new(9, 1);
    board.place(4, 0, Element::fresh(ElementType::Water, true));
    board.place(5, 0, cell(ElementType::Water));
    let from = index(&board, 4, 0);
    assert!(board.move_forward(from));
    assert_eq!(
        board.granule_at(6, 0),
        Some(Element { update_toggle: true, ..Element::fresh(ElementType::Water, true) })
    );
    assert_eq!(board.granule_at(4, 0), Some(cell(ElementType::Empty)));
    assert_eq!(board.granule_at(5, 0), Some(cell(ElementType::Water)));
}

#[test]
fn move_forward_turns_at_a_wall() {
    let mut board = SandBoard::new(9, 1);
    board.place(4, 0, Element::fresh(ElementType::Water, true));
    board.place(5, 0, cell(ElementType::Wall));
    let from = index(&board, 4, 0);
    assert!(!board.move_forward(from));
    assert_eq!(board.granule_at(4, 0), Some(Element::fresh(ElementType::Water, false)));
    assert!(board.move_forward(from));
    assert_eq!(kind(&board, 3, 0), ElementType::Water);
    assert_eq!(kind(&board, 4, 0), ElementType::Empty);
}

#[test]
fn move_forward_looks_behind_when_it_sees_only_water() {
    let mut board = SandBoard::new(12, 1);
    for x in 5..11 {
        board.place(x, 0, Element::fresh(ElementType::Water, true));
    }
    let from = index(&board, 5, 0);
    assert!(board.move_forward(from));
    assert_eq!(
        board.granule_at(4, 0),
        Some(Element { update_toggle: true, ..Element::fresh(ElementType::Water, true) })
    );
    assert_eq!(kind(&board, 5, 0), ElementType::Empty);
}

#[test]
fn move_forward_turns_when_there_is_no_opening_either_way() {
    let mut board = SandBoard::new(13, 1);
    fill_row(&mut board, 0, ElementType::Water);
    board.place(6, 0, Element::fresh(ElementType::Water, true));
    let from = index(&board, 6, 0);
    assert!(!board.move_forward(from));
    assert_eq!(board.granule_at(6, 0), Some(Element::fresh(ElementType::Water, false)));
    assert_eq!(board.get_granule_count(), 13);

    let mut walled = SandBoard::new(13, 1);
    fill_row(&mut walled, 0, ElementType::Water);
    walled.place(6, 0, Element::fresh(ElementType::Water, true));
    walled.place(4, 0, cell(ElementType::Wall));
    assert!(!walled.move_forward(from));
    assert_eq!(walled.granule_at(6, 0), Some(Element::fresh(ElementType::Water, false)));
}

#[test]
fn blocked_water_disperses_sideways() {
    let mut board = SandBoard::new(7, 2);
    fill_row(&mut board, 1, ElementType::Wall);
    board.place(3, 0, Element::fresh(ElementType::Water, false));
    let from = index(&board, 3, 0);
    board.update_water(from, true);
    assert_eq!(kind(&board, 2, 0), ElementType::Water);
    assert_eq!(kind(&board, 3, 0), ElementType::Empty);
}

#[test]
fn seed_falls_through_air_only() {
    let mut board = SandBoard::new(3, 3);
    board.place(1, 0, cell(ElementType::Seed));
    let from = index(&board, 1, 0);
    board.update_seed(from, &Dice::calm());
    assert_eq!(board.granule_at(1, 1), Some(handled(ElementType::Seed)));

    let mut wet = SandBoard::new(3, 3);
    fill_row(&mut wet, 1, ElementType::Water);
    wet.place(1, 0, cell(ElementType::Seed));
    wet.update_seed(from, &Dice::calm());
    assert_eq!(wet.granule_at(0, 1), Some(handled(ElementType::Seed)));
    assert_eq!(wet.granule_at(1, 0), Some(cell(ElementType::Water)));
    assert_eq!(wet.granule_at(1, 1), Some(cell(ElementType::Water)));
}

#[test]
fn seed_on_dirt_becomes_grass() {
    let mut board = SandBoard::new(3, 3);
    board.place(1, 1, cell(ElementType::Seed));
    board.place(1, 2, cell(ElementType::Dirt));
    let from = index(&board, 1, 1);
    let dice = Dice { grass_growth: 13, kelp_growth: 40, kelp_hunger: 9, ..Dice::calm() };
    board.update_seed(from, &dice);
    let grass = board.granule_at(1, 1).unwrap();
    assert_eq!(grass, Element { growth: 13, ..cell(ElementType::Grass) });
    assert_eq!(grass.state, State::Solid);
    assert_eq!(board.granule_at(1, 2), Some(handled(ElementType::Dirt)));
}

#[test]
fn seed_on_sand_becomes_grass() {
    let mut board = SandBoard::new(3, 3);
    board.place(1, 1, cell(ElementType::Seed));
    board.place(1, 2, cell(ElementType::Sand));
    board.place(1, 0, cell(ElementType::Sand));
    let from = index(&board, 1, 1);
    let dice = Dice { grass_growth: 19, ..Dice::calm() };
    board.update_seed(from, &dice);
    assert_eq!(board.granule_at(1, 1), Some(Element { growth: 19, ..cell(ElementType::Grass) }));
    assert_eq!(board.granule_at(1, 2), Some(handled(ElementType::Sand)));
    assert_eq!(board.granule_at(1, 0), Some(cell(ElementType::Sand)));
}

#[test]
fn seed_under_water_becomes_kelp() {
    let mut board = SandBoard::new(3, 3);
    board.place(1, 0, cell(ElementType::Water));
    board.place(1, 1, cell(ElementType::Seed));
    board.place(1, 2, cell(ElementType::Dirt));
    let from = index(&board, 1, 1);
    let dice = Dice { grass_growth: 13, kelp_growth: 41, kelp_hunger: 9, ..Dice::calm() };
    board.update_seed(from, &dice);
    assert_eq!(
        board.granule_at(1, 1),
        Some(Element { growth: 41, hunger: 9, ..cell(ElementType::Kelp) })
    );
    assert_eq!(board.granule_at(1, 2), Some(handled(ElementType::Dirt)));
    assert_eq!(board.granule_at(1, 0), Some(cell(ElementType::Water)));
}

#[test]
fn seed_in_the_top_row_on_sand_becomes_grass() {
    let mut board = SandBoard::new(3, 2);
    board.place(1, 0, cell(ElementType::Seed));
    board.place(1, 1, cell(ElementType::Sand));
    let from = index(&board, 1, 0);
    board.update_seed(from, &Dice::calm());
    assert_eq!(board.granule_at(1, 0), Some(Element { growth: 2, ..cell(ElementType::Grass) }));
}

#[test]
fn seed_on_a_wall_slides() {
    let mut board = SandBoard::new(3, 2);
    board.place(1, 0, cell(ElementType::Seed));
    board.place(1, 1, cell(ElementType::Wall));
    let from = index(&board, 1, 0);
    board.update_seed(from, &Dice { left_first: false, ..Dice::calm() });
    assert_eq!(board.granule_at(2, 1), Some(handled(ElementType::Seed)));
}

#[test]
fn seed_at_the_bottom_rests_or_leaves() {
    let mut board = SandBoard::new(3, 2);
    board.place(1, 1, cell(ElementType::Seed));
    let from = index(&board, 1, 1);
    board.update_seed(from, &Dice::calm());
    assert_eq!(board.granule_at(1, 1), Some(cell(ElementType::Seed)));
    board.set_floor(false);
    board.update_seed(from, &Dice::calm());
    assert_eq!(board.get_granule_count(), 0);
}

#[test]
fn grass_without_growth_does_nothing() {
    let mut board = SandBoard::new(3, 3);
    board.place(1, 2, cell(ElementType::Grass));
    let from = index(&board, 1, 2);
    assert!(!board.grow_grass(from, &[0, 1, 2]));
    assert_eq!(board.granule_at(1, 2), Some(cell(ElementType::Grass)));
    assert_eq!(board.get_granule_count(), 1);
}

#[test]
fn grass_spreads_in_the_order_thrown() {
    let orders: [([u8; 3], (usize, usize)); 3] =
        [([0, 1, 2], (1, 1)), ([1, 0, 2], (0, 1)), ([2, 1, 0], (2, 1))];
    for (order, target) in orders {
        let mut board = SandBoard::new(3, 3);
        board.place(1, 2, Element { growth: 5, ..cell(ElementType::Grass) });
        let from = index(&board, 1, 2);
        assert!(board.grow_grass(from, &order));
        assert_eq!(
            board.granule_at(target.0, target.1),
            Some(Element { growth: 4, ..handled(ElementType::Grass) })
        );
        assert_eq!(
            board.granule_at(1, 2),
            Some(Element { growth: 5, ..handled(ElementType::Grass) })
        );
        assert_eq!(board.get_granule_count(), 2);
    }
}

#[test]
fn grass_takes_the_next_direction_when_the_first_is_taken() {
    let mut board = SandBoard::new(3, 3);
    board.place(1, 2, Element { growth: 1, ..cell(ElementType::Grass) });
    board.place(1, 1, cell(ElementType::Wall));
    board.place(0, 1, cell(ElementType::Water));
    let from = index(&board, 1, 2);
    board.update_grass(from, &[0, 1, 2]);
    assert_eq!(
        board.granule_at(2, 1),
        Some(Element { growth: 0, ..handled(ElementType::Grass) })
    );
    assert_eq!(kind(&board, 0, 1), ElementType::Water);
}

#[test]
fn grass_next_to_grass_stops_spreading() {
    let mut board = SandBoard::new(3, 3);
    board.place(1, 2, Element { growth: 5, ..cell(ElementType::Grass) });
    board.place(2, 1, cell(ElementType::Grass));
    let from = index(&board, 1, 2);
    assert!(!board.grow_grass(from, &[0, 1, 2]));
    assert_eq!(board.granule_at(1, 2), Some(Element { growth: 5, ..handled(ElementType::Grass) }));
    assert_eq!(kind(&board, 1, 1), ElementType::Empty);
    assert_eq!(board.get_granule_count(), 2);
}

#[test]
fn grass_with_nowhere_to_go_is_left_alone() {
    let mut board = SandBoard::new(3, 1);
    board.place(1, 0, Element { growth: 5, ..cell(ElementType::Grass) });
    let from = index(&board, 1, 0);
    assert!(!board.grow_grass(from, &[0, 1, 2]));
    assert_eq!(board.granule_at(1, 0), Some(Element { growth: 5, ..cell(ElementType::Grass) }));
}

#[test]
fn kelp_waits_for_its_throw() {
    let mut board = SandBoard::new(3, 3);
    fill_row(&mut board, 1, ElementType::Water);
    board.place(1, 2, Element { growth: 9, hunger: 4, ..cell(ElementType::Kelp) });
    let from = index(&board, 1, 2);
    board.update_kelp(from, &Dice { spreads: false, ..Dice::calm() });
    assert_eq!(kind(&board, 1, 1), ElementType::Water);
    assert_eq!(board.granule_at(1, 2), Some(Element { growth: 9, hunger: 4, ..cell(ElementType::Kelp) }));
}

#[test]
fn kelp_spreads_into_water_until_the_last_spread() {
    let mut board = SandBoard::new(3, 3);
    fill_row(&mut board, 1, ElementType::Water);
    board.place(1, 2, Element { growth: 9, hunger: 4, ..cell(ElementType::Kelp) });
    let from = index(&board, 1, 2);
    let dice = Dice {
        spreads: true,
        order: [1, 0, 2],
        penalties: [2, 3, 1],
        terminal: [false, true, false],
        ..Dice::calm()
    };
    board.update_kelp(from, &dice);
    assert_eq!(
        board.granule_at(0, 1),
        Some(Element { growth: 7, hunger: 4, ..handled(ElementType::Kelp) })
    );
    assert_eq!(
        board.granule_at(1, 1),
        Some(Element { growth: 6, hunger: 4, ..handled(ElementType::Kelp) })
    );
    assert_eq!(board.granule_at(2, 1), Some(cell(ElementType::Water)));
    assert_eq!(
        board.granule_at(1, 2),
        Some(Element { growth: 9, hunger: 4, ..handled(ElementType::Kelp) })
    );
}

#[test]
fn kelp_can_spread_three_ways_at_once() {
    let mut board = SandBoard::new(3, 3);
    fill_row(&mut board, 1, ElementType::Water);
    board.place(1, 2, Element { growth: 2, hunger: 200, ..cell(ElementType::Kelp) });
    let from = index(&board, 1, 2);
    let dice = Dice { spreads: true, order: [0, 1, 2], penalties: [1, 2, 3], ..Dice::calm() };
    board.grow_kelp(from, &dice);
    assert_eq!(board.granule_at(1, 1).unwrap().growth, 1);
    assert_eq!(board.granule_at(0, 1).unwrap().growth, 0);
    assert_eq!(board.granule_at(2, 1).unwrap().growth, 0);
    for x in 0..3 {
        let frond = board.granule_at(x, 1).unwrap();
        assert_eq!(frond.element_type, ElementType::Kelp);
        assert_eq!(frond.hunger, 200);
        assert_eq!(frond.state, State::Solid);
        assert_eq!(frond.moisture, 0);
    }
}

#[test]
fn kelp_does_not_grow_into_air_or_past_kelp() {
    let mut board = SandBoard::new(3, 3);
    board.place(1, 2, Element { growth: 9, hunger: 4, ..cell(ElementType::Kelp) });
    let from = index(&board, 1, 2);
    let dice = Dice { spreads: true, ..Dice::calm() };
    board.grow_kelp(from, &dice);
    assert_eq!(board.get_granule_count(), 1);
    assert_eq!(board.granule_at(1, 2), Some(Element { growth: 9, hunger: 4, ..cell(ElementType::Kelp) }));

    fill_row(&mut board, 1, ElementType::Water);
    board.place(0, 1, cell(ElementType::Kelp));
    board.grow_kelp(from, &dice);
    assert_eq!(kind(&board, 1, 1), ElementType::Water);
    assert_eq!(board.granule_at(1, 2), Some(Element { growth: 9, hunger: 4, ..handled(ElementType::Kelp) }));

    let mut spent = SandBoard::new(3, 3);
    fill_row(&mut spent, 1, ElementType::Water);
    spent.place(1, 2, Element { growth: 0, hunger: 4, ..cell(ElementType::Kelp) });
    spent.grow_kelp(from, &dice);
    assert_eq!(kind(&spent, 1, 1), ElementType::Water);
}

#[test]
fn egg_sinks_through_water_and_both_are_marked() {
    let mut board = SandBoard::new(3, 3);
    board.place(1, 0, cell(ElementType::Egg));
    board.place(1, 1, cell(ElementType::Water));
    let from = index(&board, 1, 0);
    assert!(board.is_falling_down(from));
    assert_eq!(board.granule_at(1, 1), Some(handled(ElementType::Egg)));
    assert_eq!(board.granule_at(1, 0), Some(handled(ElementType::Water)));
}

#[test]
fn blocked_egg_is_marked_and_stays() {
    let mut board = SandBoard::new(3, 3);
    board.place(1, 0, cell(ElementType::Egg));
    board.place(1, 1, cell(ElementType::Sand));
    let from = index(&board, 1, 0);
    assert!(!board.is_falling_down(from));
    assert_eq!(board.granule_at(1, 0), Some(handled(ElementType::Egg)));
    assert_eq!(board.granule_at(1, 1), Some(cell(ElementType::Sand)));
}

#[test]
fn animals_at_the_bottom_rest_or_leave() {
    let mut board = SandBoard::new(3, 2);
    board.place(1, 1, cell(ElementType::Egg));
    let from = index(&board, 1, 1);
    assert!(!board.is_falling_down(from));
    assert!(!board.is_falling_down_air(from));
    assert_eq!(board.granule_at(1, 1), Some(cell(ElementType::Egg)));
    board.set_floor(false);
    assert!(board.is_falling_down(from));
    assert_eq!(board.granule_at(1, 1), Some(handled(ElementType::Empty)));
}

#[test]
fn falling_through_air_stays_out_of_water() {
    let mut board = SandBoard::new(3, 3);
    board.place(1, 0, cell(ElementType::Minnow));
    board.place(1, 1, cell(ElementType::Water));
    let from = index(&board, 1, 0);
    assert!(!board.is_falling_down_air(from));
    assert_eq!(board.granule_at(1, 0), Some(handled(ElementType::Minnow)));
    board.place(1, 1, cell(ElementType::Empty));
    assert!(board.is_falling_down_air(from));
    assert_eq!(board.granule_at(1, 1), Some(handled(ElementType::Minnow)));
    assert_eq!(board.granule_at(1, 0), Some(handled(ElementType::Empty)));
}

#[test]
fn water_depth_counts_up_to_the_first_gap() {
    let mut board = SandBoard::new(2, 30);
    board.place(0, 29, cell(ElementType::Egg));
    let egg = index(&board, 0, 29);
    assert_eq!(board.water_depth(egg), 1);
    for y in 20..29 {
        board.place(0, y, cell(ElementType::Water));
    }
    assert_eq!(board.water_depth(egg), 10);
    board.place(0, 24, cell(ElementType::Minnow));
    assert_eq!(board.water_depth(egg), 10);
    board.place(0, 24, cell(ElementType::Sand));
    assert_eq!(board.water_depth(egg), 5);
    for y in 0..29 {
        board.place(0, y, cell(ElementType::Water));
    }
    assert_eq!(board.water_depth(egg), 30);
    let top = index(&board, 1, 0);
    assert_eq!(board.water_depth(top), 1);
}

#[test]
fn water_depth_stops_counting_at_255() {
    let mut board = SandBoard::new(1, 300);
    for y in 0..299 {
        board.place(0, y, cell(ElementType::Water));
    }
    board.place(0, 299, cell(ElementType::Egg));
    assert_eq!(board.water_depth(299), 255);
    assert_eq!(board.water_depth(253), 254);
    assert_eq!(board.water_depth(254), 255);
}

#[test]
fn egg_hatches_under_deep_water() {
    let mut board = SandBoard::new(1, 20);
    for y in 0..19 {
        board.place(0, y, cell(ElementType::Water));
    }
    board.place(0, 19, cell(ElementType::Egg));
    let dice = Dice { hatches: true, moisture: 11, facing: true, ..Dice::calm() };
    board.update_egg(19, &dice);
    assert_eq!(
        board.granule_at(0, 19),
        Some(Element { moisture: 11, direction: true, ..cell(ElementType::Minnow) })
    );
    assert_eq!(board.get_granule_count(), 20);
}

#[test]
fn egg_does_not_hatch_under_shallow_water() {
    let mut board = SandBoard::new(1, 20);
    for y in 1..19 {
        board.place(0, y, cell(ElementType::Water));
    }
    board.place(0, 19, cell(ElementType::Egg));
    assert_eq!(board.water_depth(19), 19);
    let dice = Dice { hatches: true, moisture: 11, facing: true, ..Dice::calm() };
    board.update_egg(19, &dice);
    assert_eq!(board.granule_at(0, 19), Some(cell(ElementType::Egg)));
}

#[test]
fn egg_does_not_hatch_without_its_throw() {
    let mut board = SandBoard::new(1, 21);
    for y in 0..19 {
        board.place(0, y, cell(ElementType::Water));
    }
    board.place(0, 19, cell(ElementType::Egg));
    board.place(0, 20, cell(ElementType::Sand));
    board.update_egg(19, &Dice { hatches: false, ..Dice::calm() });
    assert_eq!(board.granule_at(0, 19), Some(handled(ElementType::Egg)));
    board.update_egg(19, &Dice { hatches: true, moisture: 3, ..Dice::calm() });
    assert_eq!(
        board.granule_at(0, 19),
        Some(Element { moisture: 3, ..handled(ElementType::Minnow) })
    );
}

#[test]
fn egg_falls_before_it_hatches() {
    let mut board = SandBoard::new(3, 3);
    board.place(1, 0, cell(ElementType::Egg));
    let from = index(&board, 1, 0);
    board.update_egg(from, &Dice { hatches: true, ..Dice::calm() });
    assert_eq!(board.granule_at(1, 1), Some(handled(ElementType::Egg)));
    board.place(1, 2, cell(ElementType::Wall));
    board.place(0, 2, cell(ElementType::Wall));
    let resting = index(&board, 1, 1);
    board.update_egg(resting, &Dice { left_first: true, ..Dice::calm() });
    assert_eq!(board.granule_at(2, 2), Some(handled(ElementType::Egg)));
}

#[test]
fn minnow_swims_the_way_it_faces() {
    let mut board = SandBoard::new(3, 2);
    fill_row(&mut board, 0, ElementType::Water);
    fill_row(&mut board, 1, ElementType::Wall);
    board.place(1, 0, Element { moisture: 5, direction: true, ..cell(ElementType::Minnow) });
    let from = index(&board, 1, 0);
    board.swim(from, false);
    assert_eq!(
        board.granule_at(2, 0),
        Some(Element { moisture: 5, direction: true, ..handled(ElementType::Minnow) })
    );
    assert_eq!(board.granule_at(1, 0), Some(cell(ElementType::Water)));
}

#[test]
fn minnow_climbs_and_pays_for_it() {
    let mut board = SandBoard::new(3, 3);
    fill_row(&mut board, 0, ElementType::Water);
    fill_row(&mut board, 1, ElementType::Water);
    fill_row(&mut board, 2, ElementType::Wall);
    board.place(1, 1, Element { moisture: 5, direction: false, ..cell(ElementType::Minnow) });
    let from = index(&board, 1, 1);
    board.update_minnow(from, &Dice { rises: true, ..Dice::calm() });
    assert_eq!(
        board.granule_at(0, 0),
        Some(Element { moisture: 4, direction: false, ..handled(ElementType::Minnow) })
    );
    assert_eq!(board.granule_at(1, 1), Some(cell(ElementType::Water)));
}

#[test]
fn minnow_without_moisture_does_not_climb() {
    let mut board = SandBoard::new(3, 3);
    fill_row(&mut board, 0, ElementType::Water);
    fill_row(&mut board, 1, ElementType::Water);
    fill_row(&mut board, 2, ElementType::Wall);
    board.place(1, 1, Element { moisture: 0, direction: true, ..cell(ElementType::Minnow) });
    let from = index(&board, 1, 1);
    board.swim(from, true);
    assert_eq!(
        board.granule_at(2, 1),
        Some(Element { moisture: 0, direction: true, ..handled(ElementType::Minnow) })
    );
    assert_eq!(kind(&board, 2, 0), ElementType::Water);
}

#[test]
fn minnow_turns_when_it_cannot_swim_on() {
    let mut board = SandBoard::new(3, 2);
    fill_row(&mut board, 0, ElementType::Water);
    fill_row(&mut board, 1, ElementType::Wall);
    board.place(2, 0, Element { moisture: 5, direction: true, ..cell(ElementType::Minnow) });
    let from = index(&board, 2, 0);
    board.swim(from, false);
    assert_eq!(
        board.granule_at(2, 0),
        Some(Element { moisture: 5, direction: false, ..cell(ElementType::Minnow) })
    );
    board.swim(from, true);
    assert_eq!(
        board.granule_at(2, 0),
        Some(Element { moisture: 4, direction: true, ..cell(ElementType::Minnow) })
    );
    board.place(1, 0, cell(ElementType::Sand));
    board.swim(from, false);
    board.swim(from, false);
    assert_eq!(
        board.granule_at(2, 0),
        Some(Element { moisture: 4, direction: true, ..cell(ElementType::Minnow) })
    );
}

#[test]
fn minnow_out_of_water_drops() {
    let mut board = SandBoard::new(3, 3);
    board.place(1, 0, Element { moisture: 5, direction: true, ..cell(ElementType::Minnow) });
    let from = index(&board, 1, 0);
    board.update_minnow(from, &Dice { rises: true, ..Dice::calm() });
    assert_eq!(
        board.granule_at(1, 1),
        Some(Element { moisture: 5, direction: true, ..handled(ElementType::Minnow) })
    );
    board.place(1, 2, cell(ElementType::Wall));
    board.place(2, 2, cell(ElementType::Wall));
    let resting = index(&board, 1, 1);
    board.update_minnow(resting, &Dice { left_first: false, ..Dice::calm() });
    assert_eq!(kind(&board, 0, 2), ElementType::Minnow);
}

#[test]
fn handled_cells_are_passed_over() {
    let mut board = SandBoard::new(3, 3);
    board.place(1, 0, handled(ElementType::Sand));
    let from = index(&board, 1, 0);
    board.granule_tick_with(from, &Dice::calm());
    assert_eq!(board.granule_at(1, 0), Some(handled(ElementType::Sand)));
    board.granule_tick_new(from);
    assert_eq!(board.granule_at(1, 0), Some(handled(ElementType::Sand)));
    board.place(1, 0, cell(ElementType::Sand));
    board.granule_tick_with(from, &Dice::calm());
    assert_eq!(board.granule_at(1, 1), Some(handled(ElementType::Sand)));
    let moved = index(&board, 1, 1);
    board.granule_tick_with(moved, &Dice::calm());
    assert_eq!(board.granule_at(1, 1), Some(handled(ElementType::Sand)));
    assert_eq!(kind(&board, 1, 2), ElementType::Empty);
}

#[test]
fn dispatch_goes_by_material() {
    let mut board = SandBoard::new(3, 3);
    board.place(0, 0, cell(ElementType::Wall));
    board.place(1, 0, cell(ElementType::Water));
    board.place(2, 0, cell(ElementType::Dirt));
    board.place(0, 2, Element { growth: 3, ..cell(ElementType::Grass) });
    for x in 0..3 {
        let from = index(&board, x, 0);
        board.granule_tick_with(from, &Dice::calm());
    }
    let grass = index(&board, 0, 2);
    board.granule_tick_with(grass, &Dice::calm());
    assert_eq!(board.granule_at(0, 0), Some(cell(ElementType::Wall)));
    assert_eq!(board.granule_at(1, 1), Some(handled(ElementType::Water)));
    assert_eq!(board.granule_at(2, 1), Some(handled(ElementType::Dirt)));
    assert_eq!(board.granule_at(0, 1), Some(Element { growth: 2, ..handled(ElementType::Grass) }));
    let empty = index(&board, 1, 2);
    board.granule_tick_with(empty, &Dice::calm());
    assert_eq!(board.granule_at(1, 2), Some(cell(ElementType::Empty)));
}

#[test]
fn granule_tick_new_moves_what_can_only_move_one_way() {
    let mut board = SandBoard::new(3, 3);
    board.place(1, 0, cell(ElementType::Sand));
    let from = index(&board, 1, 0);
    board.granule_tick_new(from);
    assert_eq!(board.granule_at(1, 1), Some(handled(ElementType::Sand)));
    assert_eq!(board.granule_at(1, 0), Some(cell(ElementType::Empty)));
}
