use life_engine::{map_to_cell, Placement, Point, FIXED_ONE};

fn area() -> Placement {
    Placement { left: -400, top: 300, right: 400, bottom: -300 }
}

#[test]
fn center_maps_to_middle_cell() {
    let c = Point { x: 0, y: 0 };
    assert_eq!(map_to_cell(c, area(), 5, 3), Some((2, 1)));
    assert_eq!(map_to_cell(c, area(), 4, 6), Some((2, 3)));
    assert_eq!(map_to_cell(c, area(), 1, 1), Some((0, 0)));
}

#[test]
fn left_and_top_edges_are_inside() {
    assert_eq!(map_to_cell(Point { x: -400, y: 300 }, area(), 8, 6), Some((0, 0)));
    assert_eq!(map_to_cell(Point { x: -400, y: -299 }, area(), 8, 6), Some((0, 5)));
    assert_eq!(map_to_cell(Point { x: 399, y: 300 }, area(), 8, 6), Some((7, 0)));
}

#[test]
fn right_and_bottom_edges_are_outside() {
    assert_eq!(map_to_cell(Point { x: 400, y: 0 }, area(), 8, 6), None);
    assert_eq!(map_to_cell(Point { x: 0, y: -300 }, area(), 8, 6), None);
}

#[test]
fn points_off_the_area_map_to_nothing() {
    assert_eq!(map_to_cell(Point { x: -401, y: 0 }, area(), 8, 6), None);
    assert_eq!(map_to_cell(Point { x: 0, y: 301 }, area(), 8, 6), None);
    assert_eq!(map_to_cell(Point { x: FIXED_ONE, y: FIXED_ONE }, area(), 8, 6), None);
}

#[test]
fn cells_are_floor_of_fraction() {
    // x = -300 is 100 of 800 units from the left: 100 * 8 / 800 = 1.
    assert_eq!(map_to_cell(Point { x: -300, y: 300 }, area(), 8, 6), Some((1, 0)));
    // x = -301 is 99 units in: floor(0.99) = 0.
    assert_eq!(map_to_cell(Point { x: -301, y: 300 }, area(), 8, 6), Some((0, 0)));
    // y = 199 is 101 of 600 units below the top: floor(101 * 6 / 600) = 1.
    assert_eq!(map_to_cell(Point { x: -400, y: 199 }, area(), 8, 6), Some((0, 1)));
}

#[test]
fn empty_area_maps_to_nothing() {
    let zero = Placement { left: 0, top: 0, right: 0, bottom: 0 };
    assert_eq!(map_to_cell(Point { x: 0, y: 0 }, zero, 8, 6), None);
}
