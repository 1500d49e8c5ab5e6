//! Gravity and movement: the two steps that integrate over one tick.

use vstd::prelude::*;
use crate::geometry::{Transform, TransformView, Vector, VectorView};

verus! {

/// A velocity after one tick of free fall.
pub open spec fn with_gravity(velocity: VectorView, gravity: int) -> VectorView {
    VectorView { x: velocity.x, y: velocity.y + gravity }
}

/// A box after moving at `velocity` for `time_step` sixtieths of a second.
pub open spec fn displaced(
    transform: TransformView,
    velocity: VectorView,
    time_step: int,
) -> TransformView {
    TransformView {
        translation: VectorView {
            x: transform.translation.x + velocity.x * time_step,
            y: transform.translation.y + velocity.y * time_step,
        },
        scale: transform.scale,
    }
}

/// Adds `gravity` to the vertical speed. Call it for an airborne body only:
/// a body that stands on something does not fall.
pub fn apply_gravity(velocity: Vector, gravity: i64) -> (next: Vector)
    requires
        with_gravity(velocity@, gravity as int).fits(),
    ensures
        next@ == with_gravity(velocity@, gravity as int),
{
    Vector { x: velocity.x, y: velocity.y + gravity }
}

/// Whether [`apply_gravity`] may be called on these values.
pub fn gravity_fits(velocity: Vector, gravity: i64) -> (b: bool)
    ensures
        b == with_gravity(velocity@, gravity as int).fits(),
{
    velocity.y.checked_add(gravity).is_some()
}

/// The distance covered on one axis: `speed * time_step`, computed wide.
fn travel(speed: i64, time_step: i64) -> (r: i128)
    ensures
        r == speed * time_step,
        -0x4000_0000_0000_0000_0000_0000_0000_0000 <= r <= 0x4000_0000_0000_0000_0000_0000_0000_0000,
{
    let s: i128 = speed as i128;
    let t: i128 = time_step as i128;
    assert(-0x8000_0000_0000_0000 * 0x8000_0000_0000_0000 <= s * t <= 0x8000_0000_0000_0000
        * 0x8000_0000_0000_0000) by (nonlinear_arith)
        requires
            -0x8000_0000_0000_0000 <= s < 0x8000_0000_0000_0000,
            -0x8000_0000_0000_0000 <= t < 0x8000_0000_0000_0000,
    ;
    s * t
}

/// Whether [`apply_velocity`] may be called on these values.
pub fn velocity_fits(transform: Transform, velocity: Vector, time_step: i64) -> (b: bool)
    ensures
        b == displaced(transform@, velocity@, time_step as int).fits(),
{
    let x: i128 = transform.translation.x as i128 + travel(velocity.x, time_step);
    let y: i128 = transform.translation.y as i128 + travel(velocity.y, time_step);
    i64::MIN as i128 <= x && x <= i64::MAX as i128 && i64::MIN as i128 <= y && y <= i64::MAX as i128
}

/// Moves a box by its velocity over one tick. The scale is kept.
pub fn apply_velocity(transform: Transform, velocity: Vector, time_step: i64) -> (next: Transform)
    requires
        displaced(transform@, velocity@, time_step as int).fits(),
    ensures
        next@ == displaced(transform@, velocity@, time_step as int),
{
    let x: i128 = transform.translation.x as i128 + travel(velocity.x, time_step);
    let y: i128 = transform.translation.y as i128 + travel(velocity.y, time_step);
    Transform { translation: Vector { x: x as i64, y: y as i64 }, scale: transform.scale }
}

} // verus!
