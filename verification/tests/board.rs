use sand_game::falling_sand::elements::{Element, ElementType, State};
use sand_game::falling_sand::SandBoard;

fn fresh(material: ElementType) -> Element {
    Element::fresh(material, false)
}

fn material_at(board: &SandBoard, x: usize, y: usize) -> ElementType {
    board.granule_at(x, y).unwrap().element_type
}

#[test]
fn coordinate_test() {
    let width = 15;
    let height = 50;
    let sand = SandBoard::new(width, height);
    let max = width * height;

    for i in 0..max {
        let (x, y) = sand.get_coordinates_from_index(i);
        let index = sand.get_index_from_coordinates(x, y);
        println!("original: {} r: {}, ({}, {})", i, index, x, y);
        assert_eq!(index, i);
        assert!(x < width && y < height);
    }
}

#[test]
fn index_is_row_major() {
    let board = SandBoard::new(15, 50);
    assert_eq!(board.get_index_from_coordinates(0, 0), 0);
    assert_eq!(board.get_index_from_coordinates(14, 0), 14);
    assert_eq!(board.get_index_from_coordinates(0, 1), 15);
    assert_eq!(board.get_index_from_coordinates(3, 7), 7 * 15 + 3);
    assert_eq!(board.get_coordinates_from_index(7 * 15 + 3), (3, 7));
    assert_eq!(board.get_coordinates_from_index(749), (14, 49));
    for y in 0..50 {
        for x in 0..15 {
            let index = board.get_index_from_coordinates(x, y);
            assert_eq!(board.get_coordinates_from_index(index), (x, y));
        }
    }
}

#[test]
fn new_board_is_empty() {
    let board = SandBoard::new(7, 5);
    assert_eq!(board.width, 7);
    assert_eq!(board.height, 5);
    assert_eq!(board.get_granule_count(), 0);
    assert!(board.is_floor);
    assert!(board.has_floor());
    assert!(board.cycle_parity());
    for y in 0..5 {
        for x in 0..7 {
            let cell = board.granule_at(x, y).unwrap();
            assert_eq!(cell.element_type, ElementType::Empty);
            assert_eq!(cell.state, State::Gas);
            assert_eq!(cell, fresh(ElementType::Empty));
        }
    }
    assert_eq!(board.granule_at(7, 0), None);
    assert_eq!(board.granule_at(0, 5), None);
}

#[test]
fn empty_dimensions_make_an_empty_board() {
    let mut board = SandBoard::new(0, 4);
    assert_eq!(board.get_granule_count(), 0);
    assert_eq!(board.granule_at(0, 0), None);
    board.tick();
    assert_eq!(board.add_granules(0, 0, 3, ElementType::Sand), 0);
    let mut flat = SandBoard::new(4, 0);
    flat.tick();
    assert_eq!(flat.get_granule_count(), 0);
}

#[test]
fn reset_empties_the_board_whatever_it_held() {
    let mut board = SandBoard::new(8, 8);
    board.add_granules(4, 4, 3, ElementType::Sand);
    board.add_granules(1, 1, 2, ElementType::Water);
    board.place(7, 7, fresh(ElementType::Wall));
    board.is_floor = false;
    board.tick();
    assert!(board.get_granule_count() > 0);
    let parity = board.cycle_parity();
    board.reset();
    assert_eq!(board.get_granule_count(), 0);
    assert_eq!(board.width, 8);
    assert_eq!(board.height, 8);
    assert!(!board.is_floor);
    assert_eq!(board.cycle_parity(), parity);
    for y in 0..8 {
        for x in 0..8 {
            assert_eq!(board.granule_at(x, y), Some(fresh(ElementType::Empty)));
        }
    }
}

#[test]
fn bounds_checks() {
    let board = SandBoard::new(4, 3);
    assert!(board.is_in_coordinate_bounds(0, 0));
    assert!(board.is_in_coordinate_bounds(3, 2));
    assert!(!board.is_in_coordinate_bounds(4, 2));
    assert!(!board.is_in_coordinate_bounds(3, 3));
    assert!(board.is_in_coordinate_bounds_signed(0, 0));
    assert!(board.is_in_coordinate_bounds_signed(3, 2));
    assert!(!board.is_in_coordinate_bounds_signed(-1, 0));
    assert!(!board.is_in_coordinate_bounds_signed(0, -1));
    assert!(!board.is_in_coordinate_bounds_signed(4, 0));
    assert!(!board.is_in_coordinate_bounds_signed(0, 3));
    assert!(!board.is_in_coordinate_bounds_signed(i64::MIN, i64::MAX));
}

#[test]
fn relative_index_stays_on_the_board() {
    let board = SandBoard::new(5, 4);
    let centre = board.get_index_from_coordinates(2, 1);
    assert_eq!(board.get_relative_index(centre, 0, 0), Some(centre));
    assert_eq!(board.get_relative_index(centre, 0, 1), Some(centre + 5));
    assert_eq!(board.get_relative_index(centre, 0, -1), Some(centre - 5));
    assert_eq!(board.get_relative_index(centre, -1, 1), Some(centre + 4));
    assert_eq!(board.get_relative_index(centre, 1, 1), Some(centre + 6));
    assert_eq!(board.get_relative_index(centre, 2, 0), Some(centre + 2));
    assert_eq!(board.get_relative_index(centre, 3, 0), None);
    assert_eq!(board.get_relative_index(centre, -3, 0), None);
    assert_eq!(board.get_relative_index(centre, 0, -2), None);
    assert_eq!(board.get_relative_index(centre, 0, 3), None);
    let corner = board.get_index_from_coordinates(4, 3);
    assert_eq!(board.get_relative_index(corner, 1, 0), None);
    assert_eq!(board.get_relative_index(corner, 0, 1), None);
    assert_eq!(board.get_relative_index(corner, -4, -3), Some(0));
    assert_eq!(board.get_relative_index(0, -1, 0), None);
    assert_eq!(board.get_relative_index(0, i64::MAX, i64::MIN), None);
}

#[test]
fn radius_zero_paints_nothing() {
    let mut board = SandBoard::new(10, 10);
    assert_eq!(board.add_granules(5, 5, 0, ElementType::Sand), 0);
    assert_eq!(board.get_granule_count(), 0);
    board.place(5, 5, fresh(ElementType::Wall));
    assert_eq!(board.add_granules(5, 5, 0, ElementType::Sand), 0);
    assert_eq!(material_at(&board, 5, 5), ElementType::Wall);
    assert_eq!(board.get_granule_count(), 1);
}

#[test]
fn radius_one_paints_the_centre_only() {
    let mut board = SandBoard::new(10, 10);
    assert_eq!(board.add_granules(5, 5, 1, ElementType::Sand), 1);
    assert_eq!(board.get_granule_count(), 1);
    for y in 0..10 {
        for x in 0..10 {
            let expected = if (x, y) == (5, 5) { ElementType::Sand } else { ElementType::Empty };
            assert_eq!(material_at(&board, x, y), expected);
        }
    }
    assert_eq!(board.granule_at(5, 5), Some(fresh(ElementType::Sand)));
}

#[test]
fn painting_covers_the_open_disc() {
    let mut board = SandBoard::new(12, 12);
    assert_eq!(board.add_granules(6, 6, 2, ElementType::Dirt), 9);
    for y in 0..12usize {
        for x in 0..12usize {
            let dx = x as i64 - 6;
            let dy = y as i64 - 6;
            let inside = dx * dx + dy * dy < 4;
            let expected = if inside { ElementType::Dirt } else { ElementType::Empty };
            assert_eq!(material_at(&board, x, y), expected);
        }
    }
    assert_eq!(material_at(&board, 8, 6), ElementType::Empty);
    assert_eq!(material_at(&board, 7, 7), ElementType::Dirt);

    let mut wide = SandBoard::new(12, 12);
    assert_eq!(wide.add_granules(6, 6, 3, ElementType::Sand), 25);
    assert_eq!(material_at(&wide, 8, 8), ElementType::Sand);
    assert_eq!(material_at(&wide, 9, 6), ElementType::Empty);
    assert_eq!(material_at(&wide, 6, 3), ElementType::Empty);
    assert_eq!(wide.get_granule_count(), 25);
}

#[test]
fn painting_counts_only_cells_that_were_empty() {
    let mut board = SandBoard::new(12, 12);
    assert_eq!(board.add_granules(6, 6, 2, ElementType::Sand), 9);
    assert_eq!(board.add_granules(6, 6, 2, ElementType::Wall), 0);
    assert_eq!(board.get_granule_count(), 9);
    assert_eq!(material_at(&board, 6, 6), ElementType::Wall);
    assert_eq!(board.add_granules(6, 6, 3, ElementType::Dirt), 16);
    assert_eq!(board.get_granule_count(), 25);
    assert_eq!(board.add_granules(6, 6, 3, ElementType::Empty), 0);
    assert_eq!(board.get_granule_count(), 0);
    assert_eq!(board.add_granules(6, 6, 2, ElementType::Empty), 9);
    assert_eq!(board.get_granule_count(), 0);
}

#[test]
fn painting_off_the_board_is_skipped() {
    let mut board = SandBoard::new(6, 6);
    assert_eq!(board.add_granules(0, 0, 2, ElementType::Sand), 4);
    assert_eq!(material_at(&board, 0, 0), ElementType::Sand);
    assert_eq!(material_at(&board, 1, 1), ElementType::Sand);
    assert_eq!(material_at(&board, 2, 0), ElementType::Empty);
    assert_eq!(board.add_granules(100, 100, 5, ElementType::Sand), 0);
    assert_eq!(board.add_granules(6, 3, 2, ElementType::Water), 3);
    assert_eq!(material_at(&board, 5, 2), ElementType::Water);
    assert_eq!(material_at(&board, 5, 3), ElementType::Water);
    assert_eq!(material_at(&board, 5, 4), ElementType::Water);
    assert_eq!(material_at(&board, 4, 3), ElementType::Empty);
    assert_eq!(board.add_granules(usize::MAX, usize::MAX, 3, ElementType::Sand), 0);
    assert_eq!(board.add_granules(3, 3, usize::MAX, ElementType::Empty), 29);
    assert_eq!(board.get_granule_count(), 0);
}

#[test]
fn painted_water_is_default_water() {
    let mut board = SandBoard::new(9, 9);
    board.add_granules(4, 4, 3, ElementType::Water);
    let mut painted = 0;
    for y in 0..9 {
        for x in 0..9 {
            let cell = board.granule_at(x, y).unwrap();
            if cell.element_type == ElementType::Water {
                painted += 1;
                assert_eq!(cell, Element::fresh(ElementType::Water, cell.direction));
                assert_eq!(cell.moisture, 255);
                assert_eq!(cell.state, State::Liquid);
            }
        }
    }
    assert_eq!(painted, 25);
}

#[test]
fn painting_a_reserved_material_paints_empty() {
    let mut board = SandBoard::new(5, 5);
    board.place(2, 2, fresh(ElementType::Wall));
    assert_eq!(board.add_granules(2, 2, 1, ElementType::Cloud), 0);
    assert_eq!(board.granule_at(2, 2), Some(fresh(ElementType::Empty)));
}

#[test]
fn add_granule_paints_one_cell() {
    let mut board = SandBoard::new(5, 5);
    board.add_granule(1, 3, ElementType::Seed);
    board.add_granule(5, 3, ElementType::Seed);
    board.add_granule(1, 5, ElementType::Seed);
    assert_eq!(board.get_granule_count(), 1);
    assert_eq!(board.granule_at(1, 3), Some(fresh(ElementType::Seed)));
}

#[test]
fn place_writes_the_cell_given() {
    let mut board = SandBoard::new(5, 5);
    let mut kelp = fresh(ElementType::Kelp);
    kelp.growth = 12;
    kelp.hunger = 7;
    board.place(2, 2, kelp);
    board.place(9, 9, kelp);
    assert_eq!(board.granule_at(2, 2), Some(kelp));
    assert_eq!(board.get_granule_count(), 1);
}

#[test]
fn granule_count_counts_what_is_not_empty() {
    let mut board = SandBoard::new(4, 4);
    assert_eq!(board.get_granule_count(), 0);
    board.place(0, 0, fresh(ElementType::Sand));
    board.place(3, 3, fresh(ElementType::Wall));
    board.place(1, 2, fresh(ElementType::Water));
    assert_eq!(board.get_granule_count(), 3);
    board.place(1, 2, fresh(ElementType::Empty));
    assert_eq!(board.get_granule_count(), 2);
}

#[test]
fn surrounding_in_the_middle_copies_the_cells() {
    let mut board = SandBoard::new(5, 5);
    board.place(1, 1, fresh(ElementType::Sand));
    board.place(2, 1, fresh(ElementType::Water));
    board.place(3, 3, fresh(ElementType::Wall));
    board.place(2, 2, fresh(ElementType::Seed));
    let window = board.get_surrounding(2, 2);
    assert_eq!(window[0][0], fresh(ElementType::Sand));
    assert_eq!(window[0][1], fresh(ElementType::Water));
    assert_eq!(window[0][2], fresh(ElementType::Empty));
    assert_eq!(window[1][1], fresh(ElementType::Seed));
    assert_eq!(window[2][2], fresh(ElementType::Wall));
    assert_eq!(window[2][0], fresh(ElementType::Empty));
    let index = board.get_index_from_coordinates(2, 2);
    assert_eq!(board.get_surrounding_from_index(index), window);
}

#[test]
fn surrounding_at_the_edges_holds_the_sentinel() {
    let mut board = SandBoard::new(4, 3);
    board.place(0, 0, fresh(ElementType::Sand));
    board.place(1, 1, fresh(ElementType::Dirt));
    let edge = fresh(ElementType::ScreenEdge);
    assert_eq!(edge.element_type, ElementType::ScreenEdge);
    let corner = board.get_surrounding(0, 0);
    assert_eq!(corner[0], [edge, edge, edge]);
    assert_eq!(corner[1][0], edge);
    assert_eq!(corner[2][0], edge);
    assert_eq!(corner[1][1], fresh(ElementType::Sand));
    assert_eq!(corner[1][2], fresh(ElementType::Empty));
    assert_eq!(corner[2][2], fresh(ElementType::Dirt));
    let far = board.get_surrounding(3, 2);
    assert_eq!(far[2], [edge, edge, edge]);
    assert_eq!(far[0][2], edge);
    assert_eq!(far[1][2], edge);
    assert_eq!(far[0][0], fresh(ElementType::Empty));
    assert_eq!(far[1][1], fresh(ElementType::Empty));
    let narrow = SandBoard::new(1, 1);
    let all = narrow.get_surrounding(0, 0);
    for k in 0..3 {
        for i in 0..3 {
            let expected = if (k, i) == (1, 1) { fresh(ElementType::Empty) } else { edge };
            assert_eq!(all[k][i], expected);
        }
    }
}

#[test]
fn surrounding_off_the_board_is_empty() {
    let mut board = SandBoard::new(4, 3);
    board.add_granules(2, 1, 5, ElementType::Sand);
    let window = board.get_surrounding(4, 1);
    for row in window.iter() {
        for cell in row.iter() {
            assert_eq!(*cell, fresh(ElementType::Empty));
        }
    }
    assert_eq!(board.get_surrounding(0, 3), [[fresh(ElementType::Empty); 3]; 3]);
}

#[test]
fn floor_can_be_switched() {
    let mut board = SandBoard::new(3, 3);
    assert!(board.has_floor());
    board.set_floor(false);
    assert!(!board.is_floor);
    assert!(!board.has_floor());
    board.is_floor = true;
    assert!(board.has_floor());
}

#[test]
fn first_ten_turns_ten_cells_to_sand() {
    let mut board = SandBoard::new(4, 4);
    board.place(3, 3, fresh(ElementType::Wall));
    board.first_ten();
    for index in 0..16 {
        let (x, y) = board.get_coordinates_from_index(index);
        let expected = if index < 10 {
            fresh(ElementType::Sand)
        } else if index == 15 {
            fresh(ElementType::Wall)
        } else {
            fresh(ElementType::Empty)
        };
        assert_eq!(board.granule_at(x, y), Some(expected));
    }
    let mut small = SandBoard::new(3, 2);
    small.first_ten();
    assert_eq!(small.get_granule_count(), 6);
}

#[test]
fn middle_fills_the_middle_row() {
    let mut board = SandBoard::new(5, 7);
    board.middle();
    for y in 0..7 {
        for x in 0..5 {
            let expected = if y == 3 { ElementType::Sand } else { ElementType::Empty };
            assert_eq!(material_at(&board, x, y), expected);
        }
    }
}

#[test]
fn boring_ocean_is_water_over_sand() {
    let mut board = SandBoard::new(6, 40);
    board.boring_ocean();
    for y in 0..40 {
        for x in 0..6 {
            let cell = board.granule_at(x, y).unwrap();
            if y < 38 {
                assert_eq!(cell, Element::fresh(ElementType::Water, cell.direction));
            } else {
                assert_eq!(cell, fresh(ElementType::Sand));
            }
        }
    }
    let mut low = SandBoard::new(3, 10);
    low.boring_ocean();
    assert_eq!(low.get_granule_count(), 30);
    assert_eq!(material_at(&low, 0, 0), ElementType::Sand);
}

#[test]
fn boring_sand_fills_below_the_shore() {
    let mut board = SandBoard::new(6, 40);
    board.boring_sand();
    for y in 0..40 {
        for x in 0..6 {
            let expected = if y > 38 { ElementType::Sand } else { ElementType::Empty };
            assert_eq!(material_at(&board, x, y), expected);
        }
    }
    assert_eq!(board.get_granule_count(), 6);
}

#[test]
fn randomize_scatters_sand_and_nothing_else() {
    let mut board = SandBoard::new(20, 20);
    board.place(0, 0, fresh(ElementType::Wall));
    board.randomize();
    let mut sand = 0;
    for y in 0..20 {
        for x in 0..20 {
            let cell = board.granule_at(x, y).unwrap();
            if (x, y) == (0, 0) {
                assert!(cell == fresh(ElementType::Wall) || cell == fresh(ElementType::Sand));
            } else {
                assert!(cell == fresh(ElementType::Empty) || cell == fresh(ElementType::Sand));
            }
            if cell.element_type == ElementType::Sand {
                sand += 1;
            }
        }
    }
    assert!(sand > 100 && sand < 300);
}

#[test]
fn randomize_top_leaves_the_lower_half_alone() {
    let mut board = SandBoard::new(20, 20);
    board.randomize_top();
    let mut sand = 0;
    for y in 0..20 {
        for x in 0..20 {
            let cell = board.granule_at(x, y).unwrap();
            if y >= 10 {
                assert_eq!(cell, fresh(ElementType::Empty));
            } else if cell.element_type == ElementType::Sand {
                sand += 1;
            }
        }
    }
    assert!(sand > 40 && sand < 160);
}

#[test]
fn randomize_ocean_is_mostly_water() {
    let mut board = SandBoard::new(20, 20);
    board.randomize_ocean();
    let mut water = 0;
    let mut sand = 0;
    for y in 0..20 {
        for x in 0..20 {
            let cell = board.granule_at(x, y).unwrap();
            if y >= 18 {
                assert_eq!(cell, fresh(ElementType::Empty));
            }
            match cell.element_type {
                ElementType::Water => water += 1,
                ElementType::Sand => sand += 1,
                ElementType::Empty => {}
                _ => panic!("only sand and water are scattered"),
            }
        }
    }
    assert!(water > 200 && water < 340);
    assert!(sand < 60);
}

#[test]
fn sprinkle_goes_by_the_throw() {
    let mut board = SandBoard::new(4, 2);
    board.place(3, 1, fresh(ElementType::Wall));
    board.sprinkle(0, 0, true, 5, 80);
    board.sprinkle(1, 4, true, 5, 80);
    board.sprinkle(2, 5, true, 5, 80);
    board.sprinkle(3, 84, false, 5, 80);
    board.sprinkle(4, 85, true, 5, 80);
    board.sprinkle(7, 99, true, 5, 80);
    assert_eq!(board.granule_at(0, 0), Some(fresh(ElementType::Sand)));
    assert_eq!(board.granule_at(1, 0), Some(fresh(ElementType::Sand)));
    assert_eq!(board.granule_at(2, 0), Some(Element::fresh(ElementType::Water, true)));
    assert_eq!(board.granule_at(3, 0), Some(Element::fresh(ElementType::Water, false)));
    assert_eq!(board.granule_at(0, 1), Some(fresh(ElementType::Empty)));
    assert_eq!(board.granule_at(3, 1), Some(fresh(ElementType::Wall)));
    assert_eq!(board.get_granule_count(), 5);
    board.sprinkle(7, 49, true, 50, 0);
    assert_eq!(board.granule_at(3, 1), Some(fresh(ElementType::Sand)));
    board.sprinkle(7, 50, true, 50, 0);
    board.sprinkle(7, 0, true, 0, 0);
    board.sprinkle(7, 3, true, 0, 3);
    assert_eq!(board.granule_at(3, 1), Some(fresh(ElementType::Sand)));
    board.sprinkle(7, 2, false, 0, 3);
    assert_eq!(board.granule_at(3, 1), Some(Element::fresh(ElementType::Water, false)));
    board.sprinkle(7, u32::MAX - 1, true, u32::MAX, u32::MAX);
    assert_eq!(board.granule_at(3, 1), Some(fresh(ElementType::Sand)));
    board.sprinkle(7, u32::MAX, true, u32::MAX, u32::MAX);
    assert_eq!(board.granule_at(3, 1), Some(Element::fresh(ElementType::Water, true)));
}

#[test]
fn scattered_water_faces_both_ways() {
    let mut board = SandBoard::new(30, 30);
    board.randomize_ocean();
    let mut right = 0;
    let mut left = 0;
    for y in 0..27 {
        for x in 0..30 {
            let cell = board.granule_at(x, y).unwrap();
            if cell.element_type == ElementType::Water {
                assert_eq!(cell, Element::fresh(ElementType::Water, cell.direction));
                if cell.direction {
                    right += 1;
                } else {
                    left += 1;
                }
            }
        }
    }
    assert!(right > 200 && left > 200, "{} right, {} left", right, left);
}

#[test]
fn the_sentinel_is_never_painted() {
    let mut board = SandBoard::new(6, 6);
    board.add_granules(3, 3, 2, ElementType::Sand);
    let before: Vec<Option<Element>> =
        (0..36).map(|i| board.granule_at(i % 6, i / 6)).collect();
    assert_eq!(board.add_granules(3, 3, 4, ElementType::ScreenEdge), 0);
    assert_eq!(board.add_granules(0, 0, 0, ElementType::ScreenEdge), 0);
    board.add_granule(1, 1, ElementType::ScreenEdge);
    board.place(2, 2, fresh(ElementType::ScreenEdge));
    board.place(0, 0, Element { growth: 3, ..fresh(ElementType::ScreenEdge) });
    let after: Vec<Option<Element>> = (0..36).map(|i| board.granule_at(i % 6, i / 6)).collect();
    assert_eq!(before, after);
    for cell in after {
        assert_ne!(cell.unwrap().element_type, ElementType::ScreenEdge);
    }
}

#[test]
fn radius_zero_paints_nothing_whatever_the_material() {
    let materials = [
        ElementType::Empty,
        ElementType::Sand,
        ElementType::Water,
        ElementType::Wall,
        ElementType::Cloud,
        ElementType::ScreenEdge,
    ];
    for material in materials {
        let mut board = SandBoard::new(5, 5);
        board.place(2, 2, fresh(ElementType::Dirt));
        assert_eq!(board.add_granules(2, 2, 0, material), 0);
        assert_eq!(board.add_granules(0, 0, 0, material), 0);
        assert_eq!(board.get_granule_count(), 1);
        assert_eq!(board.granule_at(2, 2), Some(fresh(ElementType::Dirt)));
    }
}

#[test]
fn the_board_tells_its_dimensions() {
    let board = SandBoard::new(7, 5);
    assert_eq!(board.width(), 7);
    assert_eq!(board.height(), 5);
    assert_eq!((board.width(), board.height()), (board.width, board.height));
    let flat = SandBoard::new(0, 9);
    assert_eq!((flat.width(), flat.height()), (0, 9));
}
