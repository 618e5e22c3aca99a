use starship::ship::wrap_coord;
use starship::ship::Ship;
use starship::ship::FUEL_MAX;
use starship::ship::INITIAL_FUEL;
use starship::ship::INITIAL_THRUST_POWER;

#[test]
fn new_ship_initial_values() {
    let ship = Ship::new(1);
    assert_eq!(ship.heading, 0);
    assert_eq!(ship.pos_x, 0);
    assert_eq!(ship.pos_y, 0);
    assert_eq!(ship.vel_x, 0);
    assert_eq!(ship.vel_y, 0);
    assert_eq!(ship.fuel, INITIAL_FUEL);
    assert_eq!(ship.fuel, 100);
    assert_eq!(ship.rotation_speed, 1);
    assert_eq!(ship.thrust_power, INITIAL_THRUST_POWER);
    assert_eq!(ship.thrust_power, 100);
}

#[test]
fn turn_left_increases_heading_by_rotation_speed_times_dt() {
    let mut ship = Ship::new(3);
    ship.orientation_update(2, true, false);
    assert_eq!(ship.heading, 6);
    ship.orientation_update(5, true, false);
    assert_eq!(ship.heading, 21);
}

#[test]
fn turn_right_decreases_heading_by_rotation_speed_times_dt() {
    let mut ship = Ship::new(3);
    ship.orientation_update(4, false, true);
    assert_eq!(ship.heading, -12);
}

#[test]
fn both_turn_signals_leave_heading_unchanged() {
    let mut ship = Ship::new(3);
    ship.orientation_update(7, true, true);
    assert_eq!(ship.heading, 0);
}

#[test]
fn no_turn_signal_leaves_heading_unchanged() {
    let mut ship = Ship::new(3);
    ship.orientation_update(7, false, false);
    assert_eq!(ship.heading, 0);
}

#[test]
fn turning_for_zero_elapsed_time_changes_nothing() {
    let mut ship = Ship::new(3);
    ship.orientation_update(0, true, false);
    assert_eq!(ship.heading, 0);
}

#[test]
fn orientation_touches_only_the_heading() {
    let mut ship = Ship::new(3);
    ship.pos_x = 10;
    ship.vel_y = -4;
    ship.orientation_update(2, true, false);
    assert_eq!(ship.pos_x, 10);
    assert_eq!(ship.pos_y, 0);
    assert_eq!(ship.vel_x, 0);
    assert_eq!(ship.vel_y, -4);
    assert_eq!(ship.fuel, 100);
}

#[test]
fn position_advances_by_velocity_times_dt() {
    let mut ship = Ship::new(1);
    ship.vel_x = 5;
    ship.vel_y = -3;
    ship.position_update(2, 400, 300);
    assert_eq!(ship.pos_x, 10);
    assert_eq!(ship.pos_y, -6);
}

#[test]
fn position_update_with_zero_velocity_is_identity() {
    let mut ship = Ship::new(1);
    ship.pos_x = 123;
    ship.pos_y = -200;
    ship.position_update(7, 400, 300);
    assert_eq!(ship.pos_x, 123);
    assert_eq!(ship.pos_y, -200);
}

#[test]
fn position_past_right_edge_wraps_back_by_the_full_width() {
    // A step pushes x to half_w + 1 = 401; it wraps to 401 - 800.
    let mut ship = Ship::new(1);
    ship.pos_x = 300;
    ship.vel_x = 101;
    ship.position_update(1, 400, 300);
    assert_eq!(ship.pos_x, 401 - 800);
    assert_eq!(ship.pos_x, -399);
}

#[test]
fn position_past_left_edge_wraps_forward_by_the_full_width() {
    let mut ship = Ship::new(1);
    ship.pos_x = -300;
    ship.vel_x = -150;
    ship.position_update(1, 400, 300);
    assert_eq!(ship.pos_x, -450 + 800);
}

#[test]
fn position_past_top_edge_wraps_back_by_the_full_height() {
    let mut ship = Ship::new(1);
    ship.pos_y = 299;
    ship.vel_y = 2;
    ship.position_update(1, 400, 300);
    assert_eq!(ship.pos_y, 301 - 600);
}

#[test]
fn position_stays_on_screen_under_a_full_dimension_displacement() {
    // Displacement of one full width from the right edge: the largest
    // the wraparound is single-step correct for.
    let mut ship = Ship::new(1);
    ship.pos_x = 400;
    ship.vel_x = 800;
    ship.position_update(1, 400, 300);
    assert!(-400 <= ship.pos_x && ship.pos_x <= 400);
    assert_eq!(ship.pos_x, 400);
}

#[test]
fn position_is_unmodified_on_a_malformed_screen() {
    let mut ship = Ship::new(1);
    ship.pos_x = 50;
    ship.vel_x = 10;
    ship.position_update(1, 0, 300);
    assert_eq!(ship.pos_x, 50);
    ship.position_update(1, 400, -5);
    assert_eq!(ship.pos_x, 50);
    assert_eq!(ship.pos_y, 0);
}

#[test]
fn wrap_coord_leaves_an_on_screen_coordinate_alone() {
    assert_eq!(wrap_coord(0, 400), 0);
    assert_eq!(wrap_coord(400, 400), 400);
    assert_eq!(wrap_coord(-400, 400), -400);
}

#[test]
fn wrap_coord_shifts_by_the_full_dimension() {
    assert_eq!(wrap_coord(401, 400), -399);
    assert_eq!(wrap_coord(-401, 400), 399);
}

#[test]
fn wrap_coord_at_the_largest_representable_extent() {
    let half = (i64::MAX - 1) / 2;
    assert_eq!(wrap_coord(i64::MAX, half), 1);
    assert_eq!(wrap_coord(half, half), half);
}

#[test]
fn thrust_at_heading_zero_accelerates_straight_up_and_empties_the_tank() {
    // Facing angle zero, forward is (0, 1): one tick of dt = 1 at thrust
    // power 100 gives velocity (0, 100) and burns all 100 fuel.
    let mut ship = Ship::new(1);
    assert_eq!(ship.heading, 0);
    ship.propulsion_update(1, true, 0, 1);
    assert_eq!(ship.vel_x, 0);
    assert_eq!(ship.vel_y, 100);
    assert_eq!(ship.fuel, 0);
}

#[test]
fn thrust_with_an_empty_tank_changes_nothing() {
    let mut ship = Ship::new(1);
    ship.propulsion_update(1, true, 0, 1);
    assert_eq!(ship.fuel, 0);
    let vel_before = (ship.vel_x, ship.vel_y);
    ship.propulsion_update(1, true, 0, 1);
    assert_eq!((ship.vel_x, ship.vel_y), vel_before);
    assert_eq!(ship.fuel, 0);
}

#[test]
fn inactive_thrust_changes_nothing() {
    let mut ship = Ship::new(1);
    ship.propulsion_update(1, false, 0, 1);
    assert_eq!(ship.vel_x, 0);
    assert_eq!(ship.vel_y, 0);
    assert_eq!(ship.fuel, 100);
}

#[test]
fn fuel_clamps_at_zero_instead_of_going_negative() {
    // Burning 100 * 2 = 200 from a tank of 100 leaves 0, not -100.
    let mut ship = Ship::new(1);
    ship.propulsion_update(2, true, 0, 1);
    assert_eq!(ship.fuel, 0);
}

#[test]
fn fuel_is_non_increasing_and_in_range_across_ticks() {
    let mut ship = Ship::new(2);
    let mut previous_fuel = ship.fuel;
    let signals = [true, false, true, true, false, true, true, true];
    let mut i: usize = 0;
    while i < signals.len() {
        ship.orientation_update(1, i % 2 == 0, false);
        ship.propulsion_update(1, signals[i], 0, 1);
        ship.position_update(1, 400, 300);
        assert!(ship.fuel <= previous_fuel);
        assert!(0 <= ship.fuel && ship.fuel <= FUEL_MAX);
        previous_fuel = ship.fuel;
        i += 1;
    }
    assert_eq!(ship.fuel, 0);
}

#[test]
fn thrust_adds_to_an_existing_velocity_along_the_forward_direction() {
    let mut ship = Ship::new(1);
    ship.vel_x = 7;
    ship.vel_y = -20;
    // A forward direction of (-1, 0): facing a quarter turn to the left.
    ship.propulsion_update(1, true, -1, 0);
    assert_eq!(ship.vel_x, 7 - 100);
    assert_eq!(ship.vel_y, -20);
}
