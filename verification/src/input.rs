//! The input resolver: from the keys held this tick and the player's state to
//! the player's next velocity and flags.

use vstd::prelude::*;
use crate::config::{Config, ConfigView};
use crate::geometry::{Vector, VectorView};
use crate::physics::{apply_gravity, gravity_fits, with_gravity};
use crate::player::{Player, PlayerView};

verus! {

/// Gain of horizontal speed per tick toward a held direction.
pub const ACCELERATION: i64 = 12;

/// Extra loss of speed per tick on the ground while still moving against the
/// held direction.
pub const TURN_SNAP: i64 = 35;

/// Loss of speed per tick on the ground with no direction held.
pub const GROUND_FRICTION: i64 = 15;

/// On the ground with no direction held, a speed within this of zero stops.
pub const GROUND_DEAD_ZONE: i64 = 20;

/// Loss of speed per tick in the air with no direction held.
pub const AIR_FRICTION: i64 = 1;

/// In the air with no direction held, a speed within this of zero stops.
pub const AIR_DEAD_ZONE: i64 = 2;

/// The greatest horizontal speed that running or steering can give.
pub const MAX_SPEED: i64 = 200;

/// Vertical speed right after a jump.
pub const JUMP_SPEED: i64 = 300;

/// Speed of a dash, on each axis on which a direction is held.
pub const DASH_SPEED: i64 = 350;

/// Which keys are held this tick. Polled once per tick; a key is held or it
/// is not, there is no repeat and no edge.
#[derive(Clone, Copy, Debug, PartialEq, Eq, Structural)]
pub struct Keys {
    pub left: bool,
    pub right: bool,
    pub down: bool,
    pub up: bool,
    pub jump: bool,
    pub dash: bool,
}

impl Keys {
    /// The horizontal direction held: -1 for left, 1 for right, 0 for
    /// neither or both.
    pub open spec fn dx(self) -> int {
        (if self.right { 1int } else { 0 }) - (if self.left { 1int } else { 0 })
    }

    /// The vertical direction held: -1 for down, 1 for up, 0 for neither or
    /// both. It aims a dash and does nothing else.
    pub open spec fn dy(self) -> int {
        (if self.up { 1int } else { 0 }) - (if self.down { 1int } else { 0 })
    }

    /// At least one of the four direction keys is held.
    pub open spec fn aims(self) -> bool {
        self.left || self.right || self.down || self.up
    }

    /// No key held.
    pub fn none() -> (k: Keys)
        ensures
            k == (Keys {
                left: false,
                right: false,
                down: false,
                up: false,
                jump: false,
                dash: false,
            }),
    {
        Keys { left: false, right: false, down: false, up: false, jump: false, dash: false }
    }

    pub fn horizontal(&self) -> (d: i64)
        ensures
            d == self.dx(),
    {
        let mut d: i64 = 0;
        if self.left {
            d = d - 1;
        }
        if self.right {
            d = d + 1;
        }
        d
    }

    pub fn vertical(&self) -> (d: i64)
        ensures
            d == self.dy(),
    {
        let mut d: i64 = 0;
        if self.down {
            d = d - 1;
        }
        if self.up {
            d = d + 1;
        }
        d
    }

    pub fn direction_held(&self) -> (b: bool)
        ensures
            b == self.aims(),
    {
        self.left || self.right || self.down || self.up
    }
}

/// A speed held to the range from `-MAX_SPEED` to `MAX_SPEED`.
pub open spec fn clamped(speed: int) -> int {
    if speed > MAX_SPEED {
        MAX_SPEED as int
    } else if speed < -MAX_SPEED {
        -MAX_SPEED
    } else {
        speed
    }
}

/// The next horizontal speed of a grounded player.
///
/// With a direction held the speed gains `ACCELERATION` toward it, and
/// `TURN_SNAP` more if even then it still points the other way. With none
/// held it loses `GROUND_FRICTION`, or stops inside the dead zone. The
/// outcome is clamped.
pub open spec fn ground_speed(speed: int, direction: int) -> int {
    clamped(
        if direction < 0 {
            if speed - ACCELERATION > 0 {
                speed - ACCELERATION - TURN_SNAP
            } else {
                speed - ACCELERATION
            }
        } else if direction > 0 {
            if speed + ACCELERATION < 0 {
                speed + ACCELERATION + TURN_SNAP
            } else {
                speed + ACCELERATION
            }
        } else if speed > GROUND_DEAD_ZONE {
            speed - GROUND_FRICTION
        } else if speed < -GROUND_DEAD_ZONE {
            speed + GROUND_FRICTION
        } else {
            0
        },
    )
}

/// The next horizontal speed of an airborne player that does not dash.
///
/// With a direction held the speed gains `ACCELERATION` toward it. With none
/// held it loses `AIR_FRICTION`, or stops inside the dead zone. The outcome
/// is clamped.
pub open spec fn air_speed(speed: int, direction: int) -> int {
    clamped(
        if direction < 0 {
            speed - ACCELERATION
        } else if direction > 0 {
            speed + ACCELERATION
        } else if speed > AIR_DEAD_ZONE {
            speed - AIR_FRICTION
        } else if speed < -AIR_DEAD_ZONE {
            speed + AIR_FRICTION
        } else {
            0
        },
    )
}

/// A dash happens: the player is airborne, has a dash left, and holds the
/// dash key together with at least one direction key.
pub open spec fn dash_fires(player: PlayerView, keys: Keys) -> bool {
    !player.grounded && keys.dash && player.dash && keys.aims()
}

/// The same keys with the dash key let go.
pub open spec fn without_dash(keys: Keys) -> Keys {
    Keys { dash: false, ..keys }
}

/// The player after the input resolver has run.
///
/// - Grounded: the horizontal speed follows [`ground_speed`]; the jump key
///   sets the vertical speed to `JUMP_SPEED` and lifts the player off.
/// - Airborne and dashing: the velocity becomes `DASH_SPEED` times the held
///   direction on each axis (a diagonal dash is as fast on both), and the
///   dash is spent.
/// - Airborne otherwise: gravity is added to the vertical speed, and the
///   horizontal speed follows [`air_speed`].
///
/// Whether gravity acts is decided by `grounded` as it was when the tick
/// began, so the tick of a jump adds none. The position, `jump` and `dead`
/// are kept.
pub open spec fn after_input(player: PlayerView, keys: Keys, config: ConfigView) -> PlayerView {
    if player.grounded {
        PlayerView {
            velocity: VectorView {
                x: ground_speed(player.velocity.x, keys.dx()),
                y: if keys.jump {
                    JUMP_SPEED as int
                } else {
                    player.velocity.y
                },
            },
            grounded: !keys.jump,
            ..player
        }
    } else if dash_fires(player, keys) {
        PlayerView {
            velocity: VectorView { x: DASH_SPEED * keys.dx(), y: DASH_SPEED * keys.dy() },
            dash: false,
            ..player
        }
    } else {
        PlayerView {
            velocity: VectorView {
                x: air_speed(player.velocity.x, keys.dx()),
                y: with_gravity(player.velocity, config.gravity).y,
            },
            ..player
        }
    }
}

/// Holds a wide speed to the range from `-MAX_SPEED` to `MAX_SPEED`.
fn clamp(speed: i128) -> (r: i64)
    ensures
        r == clamped(speed as int),
{
    if speed > MAX_SPEED as i128 {
        MAX_SPEED
    } else if speed < -(MAX_SPEED as i128) {
        -MAX_SPEED
    } else {
        speed as i64
    }
}

/// The next horizontal speed on the ground, for any speed whatever.
pub fn next_ground_speed(speed: i64, direction: i64) -> (r: i64)
    ensures
        r == ground_speed(speed as int, direction as int),
        -MAX_SPEED <= r <= MAX_SPEED,
{
    let v: i128 = speed as i128;
    let a: i128 = ACCELERATION as i128;
    let next: i128 = if direction < 0 {
        if v - a > 0 {
            v - a - TURN_SNAP as i128
        } else {
            v - a
        }
    } else if direction > 0 {
        if v + a < 0 {
            v + a + TURN_SNAP as i128
        } else {
            v + a
        }
    } else if speed > GROUND_DEAD_ZONE {
        v - GROUND_FRICTION as i128
    } else if speed < -GROUND_DEAD_ZONE {
        v + GROUND_FRICTION as i128
    } else {
        0
    };
    clamp(next)
}

/// The next horizontal speed in the air, for any speed whatever.
pub fn next_air_speed(speed: i64, direction: i64) -> (r: i64)
    ensures
        r == air_speed(speed as int, direction as int),
        -MAX_SPEED <= r <= MAX_SPEED,
{
    let v: i128 = speed as i128;
    let next: i128 = if direction < 0 {
        v - ACCELERATION as i128
    } else if direction > 0 {
        v + ACCELERATION as i128
    } else if speed > AIR_DEAD_ZONE {
        v - AIR_FRICTION as i128
    } else if speed < -AIR_DEAD_ZONE {
        v + AIR_FRICTION as i128
    } else {
        0
    };
    clamp(next)
}

/// Whether [`move_player`] may be called on these values.
pub fn input_fits(player: Player, keys: Keys, config: &Config) -> (b: bool)
    ensures
        b == after_input(player@, keys, config@).velocity.fits(),
{
    player.grounded || (keys.dash && player.dash && keys.direction_held()) || gravity_fits(
        player.velocity,
        config.gravity,
    )
}

/// Runs the input resolver for one tick.
///
/// The one demand is that of the machine: where gravity is added, the sum
/// has to be a speed that the player can hold.
pub fn move_player(player: Player, keys: Keys, config: &Config) -> (next: Player)
    requires
        after_input(player@, keys, config@).velocity.fits(),
    ensures
        next@ == after_input(player@, keys, config@),
{
    let direction = keys.horizontal();
    let mut next = player;
    if player.grounded {
        next.velocity.x = next_ground_speed(player.velocity.x, direction);
        if keys.jump {
            next.velocity.y = JUMP_SPEED;
            next.grounded = false;
        }
    } else if keys.dash && player.dash && keys.direction_held() {
        next.velocity = Vector { x: DASH_SPEED * direction, y: DASH_SPEED * keys.vertical() };
        next.dash = false;
    } else {
        next.velocity = apply_gravity(player.velocity, config.gravity);
        next.velocity.x = next_air_speed(player.velocity.x, direction);
    }
    next
}

/// While the player is airborne and does not dash, every tick of input takes
/// exactly the gravity constant off the vertical speed, which so strictly
/// decreases, and leaves the player airborne.
pub proof fn gravity_accumulates(player: PlayerView, keys: Keys, config: ConfigView)
    requires
        config.wf(),
        !player.grounded,
        !dash_fires(player, keys),
    ensures
        after_input(player, keys, config).velocity.y == player.velocity.y + config.gravity,
        after_input(player, keys, config).velocity.y < player.velocity.y,
        !after_input(player, keys, config).grounded,
{
}

/// Whatever the speed was before, the horizontal speed that the input
/// resolver leaves is at most `MAX_SPEED` in either direction. The one
/// exception is the tick of a dash with left or right held, which sets it to
/// `DASH_SPEED`.
pub proof fn speed_stays_in_range(player: PlayerView, keys: Keys, config: ConfigView)
    requires
        !(dash_fires(player, keys) && keys.dx() != 0),
    ensures
        -MAX_SPEED <= after_input(player, keys, config).velocity.x <= MAX_SPEED,
{
}

/// A dash sets the velocity to exactly `DASH_SPEED` times the held direction
/// on each axis and spends the dash. Until the dash is refilled, holding the
/// dash key again changes nothing: the outcome `again` is that of the same
/// keys without it.
pub proof fn dash_is_single_use(player: PlayerView, keys: Keys, again: Keys, config: ConfigView)
    requires
        dash_fires(player, keys),
    ensures
        after_input(player, keys, config).velocity == (VectorView {
            x: DASH_SPEED * keys.dx(),
            y: DASH_SPEED * keys.dy(),
        }),
        !after_input(player, keys, config).dash,
        !after_input(player, keys, config).grounded,
        after_input(after_input(player, keys, config), again, config) == after_input(
            after_input(player, keys, config),
            without_dash(again),
            config,
        ),
{
}

/// The input resolver never refills a dash.
pub proof fn input_refills_no_dash(player: PlayerView, keys: Keys, config: ConfigView)
    ensures
        after_input(player, keys, config).dash ==> player.dash,
{
}

} // verus!
