use platformer::config::{Config, GRAVITY, SCREEN_HEIGHT, SCREEN_WIDTH, TIME_STEP};
use platformer::geometry::{units, Transform, Vector, SUBUNITS};
use platformer::physics::{apply_gravity, apply_velocity, gravity_fits, velocity_fits};
use platformer::zone::{wrap, zone_transition};

fn boxed(x: i64, y: i64) -> Transform {
    Transform::new(Vector::new(x, y), Vector::from_units(30, 40))
}

#[test]
fn sixty_sub_units_make_a_unit() {
    assert_eq!(SUBUNITS, 60);
    assert_eq!(units(1), 60);
    assert_eq!(units(-401), -24060);
    assert_eq!(units(0), 0);
    assert_eq!(units(i32::MAX), 2147483647 * 60);
    assert_eq!(units(i32::MIN), -2147483648 * 60);
    assert_eq!(Vector::from_units(30, 40), Vector::new(1800, 2400));
}

#[test]
fn edges_are_held_at_double_size() {
    let t = Transform::new(Vector::new(10, -4), Vector::new(5, 3));
    assert_eq!(t.left2(), 15);
    assert_eq!(t.right2(), 25);
    assert_eq!(t.bottom2(), -11);
    assert_eq!(t.top2(), -5);
    let far = Transform::new(Vector::new(i64::MAX, i64::MIN), Vector::new(i64::MIN, i64::MAX));
    assert_eq!(far.left2(), 2 * (i64::MAX as i128) - (i64::MIN as i128));
    assert_eq!(far.top2(), 2 * (i64::MIN as i128) + (i64::MAX as i128));
}

#[test]
fn standard_configuration_is_the_tuned_one() {
    let config = Config::standard();
    assert_eq!(config.gravity, -12);
    assert_eq!(config.half_width, 400 * 60);
    assert_eq!(config.half_height, 300 * 60);
    assert_eq!(config.time_step, 1);
    assert_eq!(GRAVITY, -12);
    assert_eq!(SCREEN_WIDTH, 800 * 60);
    assert_eq!(SCREEN_HEIGHT, 600 * 60);
    assert_eq!(TIME_STEP, 1);
    assert_eq!(Config::new(-12, 24000, 18000, 1), Some(config));
}

#[test]
fn configuration_must_be_well_formed() {
    assert!(Config::new(-1, 0, 0, 1).is_some());
    assert_eq!(Config::new(0, 10, 10, 1), None);
    assert_eq!(Config::new(3, 10, 10, 1), None);
    assert_eq!(Config::new(-12, -1, 10, 1), None);
    assert_eq!(Config::new(-12, 10, -1, 1), None);
    assert_eq!(Config::new(-12, 10, 10, 0), None);
    assert_eq!(Config::new(-12, 10, 10, -1), None);
}

#[test]
fn gravity_changes_the_vertical_speed_only() {
    assert_eq!(apply_gravity(Vector::new(7, 0), -12), Vector::new(7, -12));
    assert_eq!(apply_gravity(Vector::new(-7, 300), -12), Vector::new(-7, 288));
    assert_eq!(apply_gravity(Vector::new(0, -24), -12), Vector::new(0, -36));
    assert!(gravity_fits(Vector::new(0, i64::MIN + 12), -12));
    assert!(!gravity_fits(Vector::new(0, i64::MIN + 11), -12));
    assert!(!gravity_fits(Vector::new(0, i64::MAX), 1));
}

#[test]
fn a_tick_moves_by_a_sixtieth_of_the_speed() {
    // 120 units per second for a sixtieth of a second: two units.
    let moved = apply_velocity(boxed(0, units(60)), Vector::new(120, -240), 1);
    assert_eq!(moved.translation, Vector::new(units(2), units(56)));
    assert_eq!(moved.scale, Vector::from_units(30, 40));
    // The smallest speed still moves: one sub-unit.
    let moved = apply_velocity(boxed(5, 5), Vector::new(1, -1), 1);
    assert_eq!(moved.translation, Vector::new(6, 4));
}

#[test]
fn a_longer_tick_moves_in_proportion() {
    let moved = apply_velocity(boxed(100, 100), Vector::new(12, -7), 3);
    assert_eq!(moved.translation, Vector::new(136, 79));
    let still = apply_velocity(boxed(100, 100), Vector::new(0, 0), 3);
    assert_eq!(still, boxed(100, 100));
}

#[test]
fn movement_fits_unless_the_position_overflows() {
    assert!(velocity_fits(boxed(0, 0), Vector::new(350, -350), 1));
    assert!(velocity_fits(boxed(i64::MAX - 350, 0), Vector::new(350, 0), 1));
    assert!(!velocity_fits(boxed(i64::MAX - 349, 0), Vector::new(350, 0), 1));
    assert!(!velocity_fits(boxed(0, i64::MIN), Vector::new(0, -1), 1));
    assert!(!velocity_fits(boxed(0, 0), Vector::new(i64::MAX, 0), 2));
    assert!(!velocity_fits(boxed(0, 0), Vector::new(i64::MIN, i64::MIN), i64::MAX));
    assert_eq!(
        apply_velocity(boxed(i64::MAX - 350, 0), Vector::new(350, 0), 1).translation,
        Vector::new(i64::MAX, 0)
    );
}

#[test]
fn wraps_from_the_left_edge_of_an_800_wide_screen() {
    let config = Config::standard();
    let next = zone_transition(boxed(units(-401), 0), &config);
    assert_eq!(next.translation, Vector::new(units(400), 0));
    assert_eq!(next.scale, Vector::from_units(30, 40));
}

#[test]
fn wraps_at_all_four_edges() {
    let config = Config::standard();
    let half_width = SCREEN_WIDTH / 2;
    let half_height = SCREEN_HEIGHT / 2;
    let right = zone_transition(boxed(half_width + units(1), 0), &config);
    assert_eq!(right.translation, Vector::new(-half_width, 0));
    let left = zone_transition(boxed(-half_width - units(1), 0), &config);
    assert_eq!(left.translation, Vector::new(half_width, 0));
    let top = zone_transition(boxed(0, half_height + units(1)), &config);
    assert_eq!(top.translation, Vector::new(0, -half_height));
    let bottom = zone_transition(boxed(0, -half_height - units(1)), &config);
    assert_eq!(bottom.translation, Vector::new(0, half_height));
    let corner = zone_transition(boxed(half_width + 1, -half_height - 1), &config);
    assert_eq!(corner.translation, Vector::new(-half_width, half_height));
}

#[test]
fn the_edge_itself_is_on_the_screen() {
    let config = Config::standard();
    for (x, y) in [(24000, 18000), (-24000, -18000), (0, 0), (23999, -17999)] {
        assert_eq!(zone_transition(boxed(x, y), &config), boxed(x, y));
    }
    assert_eq!(wrap(24001, 24000), -24000);
    assert_eq!(wrap(-24001, 24000), 24000);
    assert_eq!(wrap(i64::MAX, 24000), -24000);
    assert_eq!(wrap(i64::MIN, 24000), 24000);
    assert_eq!(wrap(1, 0), 0);
    assert_eq!(wrap(0, 0), 0);
}
