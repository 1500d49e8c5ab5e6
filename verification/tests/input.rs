use platformer::config::Config;
use platformer::geometry::{Transform, Vector};
use platformer::input::{
    input_fits, move_player, next_air_speed, next_ground_speed, Keys, DASH_SPEED, JUMP_SPEED,
    MAX_SPEED,
};
use platformer::player::Player;

fn resting_player() -> Player {
    Player::new(Transform::new(
        Vector::from_units(0, 25),
        Vector::from_units(30, 40),
    ))
}

fn held(left: bool, right: bool, down: bool, up: bool) -> Keys {
    Keys { left, right, down, up, jump: false, dash: false }
}

#[test]
fn jump_from_rest_on_a_platform() {
    let mut player = resting_player();
    player.grounded = true;
    let keys = Keys { jump: true, ..Keys::none() };
    let next = move_player(player, keys, &Config::standard());
    assert_eq!(next.velocity, Vector::new(0, 300));
    assert!(!next.grounded);
    assert_eq!(next.transform, player.transform);
    assert_eq!(JUMP_SPEED, 300);
}

#[test]
fn no_jump_while_airborne() {
    let player = resting_player();
    let keys = Keys { jump: true, ..Keys::none() };
    let next = move_player(player, keys, &Config::standard());
    assert_eq!(next.velocity, Vector::new(0, -12));
    assert!(!next.grounded);
}

#[test]
fn grounded_player_gets_no_gravity() {
    let mut player = resting_player();
    player.grounded = true;
    player.velocity = Vector::new(0, -7);
    let next = move_player(player, Keys::none(), &Config::standard());
    assert_eq!(next.velocity, Vector::new(0, -7));
    assert!(next.grounded);
}

#[test]
fn directions_cancel_and_combine() {
    assert_eq!(held(true, false, false, false).horizontal(), -1);
    assert_eq!(held(false, true, false, false).horizontal(), 1);
    assert_eq!(held(true, true, false, false).horizontal(), 0);
    assert_eq!(held(false, false, false, false).horizontal(), 0);
    assert_eq!(held(false, false, true, false).vertical(), -1);
    assert_eq!(held(false, false, false, true).vertical(), 1);
    assert_eq!(held(false, false, true, true).vertical(), 0);
    assert!(held(true, true, false, false).direction_held());
    assert!(!Keys::none().direction_held());
    assert!(!Keys { jump: true, dash: true, ..Keys::none() }.direction_held());
}

#[test]
fn ground_speed_accelerates_toward_the_held_direction() {
    assert_eq!(next_ground_speed(0, 1), 12);
    assert_eq!(next_ground_speed(0, -1), -12);
    assert_eq!(next_ground_speed(100, 1), 112);
    assert_eq!(next_ground_speed(-100, -1), -112);
}

#[test]
fn ground_speed_snaps_when_reversing() {
    // Still moving right after the pull to the left: the snap applies.
    assert_eq!(next_ground_speed(100, -1), 53);
    assert_eq!(next_ground_speed(13, -1), -34);
    // The pull alone has turned the player round: no snap.
    assert_eq!(next_ground_speed(12, -1), 0);
    assert_eq!(next_ground_speed(5, -1), -7);
    assert_eq!(next_ground_speed(-100, 1), -53);
    assert_eq!(next_ground_speed(-13, 1), 34);
    assert_eq!(next_ground_speed(-12, 1), 0);
    assert_eq!(next_ground_speed(-5, 1), 7);
}

#[test]
fn ground_speed_decays_with_no_direction() {
    assert_eq!(next_ground_speed(100, 0), 85);
    assert_eq!(next_ground_speed(-100, 0), -85);
    assert_eq!(next_ground_speed(21, 0), 6);
    assert_eq!(next_ground_speed(-21, 0), -6);
    assert_eq!(next_ground_speed(20, 0), 0);
    assert_eq!(next_ground_speed(-20, 0), 0);
    assert_eq!(next_ground_speed(3, 0), 0);
    assert_eq!(next_ground_speed(0, 0), 0);
}

#[test]
fn ground_speed_is_clamped() {
    assert_eq!(next_ground_speed(192, 1), 200);
    assert_eq!(next_ground_speed(200, 1), 200);
    assert_eq!(next_ground_speed(-192, -1), -200);
    assert_eq!(next_ground_speed(-200, -1), -200);
    assert_eq!(next_ground_speed(350, 1), 200);
    assert_eq!(next_ground_speed(350, 0), 200);
    assert_eq!(next_ground_speed(350, -1), 200);
    assert_eq!(next_ground_speed(-350, 0), -200);
    assert_eq!(next_ground_speed(i64::MAX, 1), 200);
    assert_eq!(next_ground_speed(i64::MIN, -1), -200);
    assert_eq!(next_ground_speed(i64::MIN, 1), -200);
}

#[test]
fn air_speed_steers_and_decays() {
    assert_eq!(next_air_speed(0, 1), 12);
    assert_eq!(next_air_speed(0, -1), -12);
    assert_eq!(next_air_speed(100, -1), 88);
    assert_eq!(next_air_speed(-100, 1), -88);
    assert_eq!(next_air_speed(100, 0), 99);
    assert_eq!(next_air_speed(-100, 0), -99);
    assert_eq!(next_air_speed(3, 0), 2);
    assert_eq!(next_air_speed(-3, 0), -2);
    assert_eq!(next_air_speed(2, 0), 0);
    assert_eq!(next_air_speed(-2, 0), 0);
    assert_eq!(next_air_speed(0, 0), 0);
}

#[test]
fn air_speed_is_clamped() {
    assert_eq!(next_air_speed(192, 1), 200);
    assert_eq!(next_air_speed(-192, -1), -200);
    assert_eq!(next_air_speed(350, 1), 200);
    assert_eq!(next_air_speed(350, 0), 200);
    assert_eq!(next_air_speed(-350, 0), -200);
    assert_eq!(next_air_speed(i64::MAX, 1), 200);
    assert_eq!(next_air_speed(i64::MIN, -1), -200);
}

#[test]
fn horizontal_speed_never_passes_the_maximum() {
    let config = Config::standard();
    for grounded in [false, true] {
        for speed in [-1000, -350, -201, -200, -199, -12, 0, 12, 199, 200, 201, 350, 1000] {
            for keys in [
                Keys::none(),
                held(true, false, false, false),
                held(false, true, false, false),
                held(true, true, false, false),
                Keys { jump: true, ..held(false, true, false, false) },
            ] {
                let mut player = resting_player();
                player.grounded = grounded;
                player.velocity = Vector::new(speed, 0);
                let next = move_player(player, keys, &config);
                assert!(next.velocity.x <= MAX_SPEED);
                assert!(next.velocity.x >= -MAX_SPEED);
            }
        }
    }
}

#[test]
fn running_up_to_full_speed_stops_at_the_maximum() {
    let config = Config::standard();
    let mut player = resting_player();
    player.grounded = true;
    let keys = held(false, true, false, false);
    let mut speeds = Vec::new();
    for _ in 0..18 {
        player = move_player(player, keys, &config);
        speeds.push(player.velocity.x);
    }
    assert_eq!(
        speeds,
        vec![12, 24, 36, 48, 60, 72, 84, 96, 108, 120, 132, 144, 156, 168, 180, 192, 200, 200]
    );
}

#[test]
fn gravity_takes_twelve_per_airborne_tick() {
    let config = Config::standard();
    let mut player = resting_player();
    for tick in 1..=50 {
        player = move_player(player, Keys::none(), &config);
        assert_eq!(player.velocity.y, -12 * tick);
        assert!(!player.grounded);
    }
}

#[test]
fn gravity_follows_the_configuration() {
    let config = Config::new(-5, 100, 100, 1).unwrap();
    let mut player = resting_player();
    player.velocity = Vector::new(0, 7);
    let next = move_player(player, Keys::none(), &config);
    assert_eq!(next.velocity.y, 2);
}

#[test]
fn dash_sets_the_velocity_on_both_axes() {
    let config = Config::standard();
    let cases = [
        (held(true, false, false, false), Vector::new(-350, 0)),
        (held(false, true, false, false), Vector::new(350, 0)),
        (held(false, false, true, false), Vector::new(0, -350)),
        (held(false, false, false, true), Vector::new(0, 350)),
        (held(false, true, false, true), Vector::new(350, 350)),
        (held(true, false, true, false), Vector::new(-350, -350)),
        (held(true, false, false, true), Vector::new(-350, 350)),
        (held(false, true, true, false), Vector::new(350, -350)),
    ];
    for (direction, expected) in cases {
        let mut player = resting_player();
        player.dash = true;
        player.velocity = Vector::new(40, -90);
        let next = move_player(player, Keys { dash: true, ..direction }, &config);
        assert_eq!(next.velocity, expected);
        assert!(!next.dash);
        assert!(!next.grounded);
    }
    assert_eq!(DASH_SPEED, 350);
}

#[test]
fn second_dash_before_landing_does_nothing() {
    let config = Config::standard();
    let mut player = resting_player();
    player.dash = true;
    let keys = Keys { dash: true, ..held(false, true, false, true) };
    let dashed = move_player(player, keys, &config);
    assert_eq!(dashed.velocity, Vector::new(350, 350));
    assert!(!dashed.dash);
    let again = move_player(dashed, keys, &config);
    let coasting = move_player(dashed, Keys { dash: false, ..keys }, &config);
    assert_eq!(again, coasting);
    assert_eq!(again.velocity, Vector::new(200, 338));
    assert!(!again.dash);
}

#[test]
fn dash_needs_the_key_a_direction_and_a_dash_to_spend() {
    let config = Config::standard();
    let mut player = resting_player();
    player.dash = true;
    // The key without a direction.
    let next = move_player(player, Keys { dash: true, ..Keys::none() }, &config);
    assert_eq!(next.velocity, Vector::new(0, -12));
    assert!(next.dash);
    // A direction without the key.
    let next = move_player(player, held(false, true, false, false), &config);
    assert_eq!(next.velocity, Vector::new(12, -12));
    assert!(next.dash);
    // On the ground the dash key is not read.
    player.grounded = true;
    let next = move_player(player, Keys { dash: true, ..held(false, true, false, false) }, &config);
    assert_eq!(next.velocity, Vector::new(12, 0));
    assert!(next.dash);
}

#[test]
fn dash_with_opposite_keys_held_stops_the_player() {
    let config = Config::standard();
    let mut player = resting_player();
    player.dash = true;
    player.velocity = Vector::new(40, -90);
    let keys = Keys { dash: true, ..held(true, true, false, false) };
    let next = move_player(player, keys, &config);
    assert_eq!(next.velocity, Vector::new(0, 0));
    assert!(!next.dash);
}

#[test]
fn input_keeps_position_and_the_other_flags() {
    let config = Config::standard();
    let mut player = resting_player();
    player.jump = true;
    player.dead = true;
    let next = move_player(player, held(false, true, false, false), &config);
    assert_eq!(next.transform, player.transform);
    assert!(next.jump);
    assert!(next.dead);
}

#[test]
fn input_fits_unless_gravity_overflows() {
    let config = Config::standard();
    let mut player = resting_player();
    assert!(input_fits(player, Keys::none(), &config));
    player.velocity = Vector::new(0, i64::MIN + 12);
    assert!(input_fits(player, Keys::none(), &config));
    assert_eq!(move_player(player, Keys::none(), &config).velocity.y, i64::MIN);
    player.velocity = Vector::new(0, i64::MIN + 11);
    assert!(!input_fits(player, Keys::none(), &config));
    // A dash overwrites the vertical speed, and the ground adds no gravity.
    player.dash = true;
    assert!(input_fits(player, Keys { dash: true, ..held(false, false, false, true) }, &config));
    player.grounded = true;
    assert!(input_fits(player, Keys::none(), &config));
}
