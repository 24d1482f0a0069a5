use pursuit::{MapState, Position, Region, Rotation, Vector};

fn point(x: i32, y: i32) -> Region {
    Region { x_min: x, y_min: y, x_max: x, y_max: y }
}

#[test]
fn center_is_the_middle_of_the_box() {
    let region = Region { x_min: 586, y_min: 730, x_max: 618, y_max: 774 };
    assert_eq!(region.center(), Position { x: 602, y: 752 });
}

#[test]
fn center_rounds_halves_downward() {
    let region = Region { x_min: 0, y_min: 10, x_max: 1, y_max: 13 };
    assert_eq!(region.center(), Position { x: 0, y: 11 });
    let negative = Region { x_min: -4, y_min: -1, x_max: -1, y_max: 0 };
    assert_eq!(negative.center(), Position { x: -3, y: -1 });
}

#[test]
fn center_of_the_widest_boxes_does_not_overflow() {
    let whole = Region { x_min: i32::MIN, y_min: i32::MIN, x_max: i32::MAX, y_max: i32::MAX };
    assert_eq!(whole.center(), Position { x: -1, y: -1 });
    let corner = Region { x_min: i32::MAX, y_min: i32::MIN, x_max: i32::MAX, y_max: i32::MIN };
    assert_eq!(corner.center(), Position { x: i32::MAX, y: i32::MIN });
}

#[test]
fn infer_places_both_objects_at_their_centers() {
    let car = Region { x_min: 100, y_min: 200, x_max: 120, y_max: 230 };
    let target = Region { x_min: 633, y_min: 856, x_max: 658, y_max: 887 };
    let seen = MapState::infer(car, target);
    assert_eq!(seen.car, Position { x: 110, y: 215 });
    assert_eq!(seen.target, Position { x: 645, y: 871 });
}

#[test]
fn car_orientation_is_the_displacement_of_the_car() {
    let previous = MapState::infer(point(40, 50), point(500, 500));
    let current = MapState::infer(point(43, 46), point(510, 490));
    assert_eq!(MapState::car_orientation(&previous, &current), Vector::new(3, -4));
}

#[test]
fn car_orientation_of_a_car_that_stood_still_is_zero() {
    let previous = MapState::infer(point(40, 50), point(500, 500));
    let current = MapState::infer(point(40, 50), point(7, 7));
    assert!(MapState::car_orientation(&previous, &current).is_zero());
}

#[test]
fn car_to_target_leads_from_the_car_to_the_target() {
    let seen = MapState { car: Position { x: 43, y: 46 }, target: Position { x: 40, y: 50 } };
    assert_eq!(seen.car_to_target(), Vector::new(-3, 4));
}

#[test]
fn correction_compares_the_motion_with_the_way_to_the_target() {
    let previous = MapState { car: Position { x: 0, y: -1 }, target: Position { x: 10, y: 0 } };
    let current = MapState { car: Position { x: 0, y: 0 }, target: Position { x: 10, y: 0 } };
    assert_eq!(MapState::correction(&previous, &current), Rotation { sine: 10, cosine: 0 });
}

#[test]
fn correction_reads_the_target_from_the_second_look_only() {
    let previous = MapState { car: Position { x: 2, y: 2 }, target: Position { x: -900, y: 77 } };
    let current = MapState { car: Position { x: 5, y: 6 }, target: Position { x: 8, y: 10 } };
    assert_eq!(MapState::correction(&previous, &current), Rotation { sine: 0, cosine: 25 });
}

#[test]
fn correction_of_a_car_that_stood_still_is_undefined() {
    let previous = MapState { car: Position { x: 5, y: 6 }, target: Position { x: 8, y: 10 } };
    let current = MapState { car: Position { x: 5, y: 6 }, target: Position { x: 8, y: 10 } };
    assert_eq!(MapState::correction(&previous, &current), Rotation { sine: 0, cosine: 0 });
}
