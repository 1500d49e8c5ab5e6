//! The zone wrap: a body that leaves the screen comes back in at the
//! opposite edge.

use vstd::prelude::*;
use crate::config::{Config, ConfigView};
use crate::geometry::{Transform, TransformView, Vector, VectorView};

verus! {

/// A coordinate after the wrap on its axis, where the screen spans
/// `-half ..= half`: beyond the high edge it becomes the low edge, beyond the
/// low edge the high edge, and on the screen it stays.
pub open spec fn wrapped(position: int, half: int) -> int {
    if position > half {
        -half
    } else if position < -half {
        half
    } else {
        position
    }
}

/// A box after the wrap, each axis on its own. The scale is kept.
pub open spec fn after_wrap(transform: TransformView, config: ConfigView) -> TransformView {
    TransformView {
        translation: VectorView {
            x: wrapped(transform.translation.x, config.half_width),
            y: wrapped(transform.translation.y, config.half_height),
        },
        scale: transform.scale,
    }
}

/// Wraps one coordinate.
pub fn wrap(position: i64, half: i64) -> (r: i64)
    requires
        half >= 0,
    ensures
        r == wrapped(position as int, half as int),
{
    if position > half {
        -half
    } else if position < -half {
        half
    } else {
        position
    }
}

/// Wraps a box that has left the screen to the opposite edge.
pub fn zone_transition(transform: Transform, config: &Config) -> (next: Transform)
    requires
        config@.wf(),
    ensures
        next@ == after_wrap(transform@, config@),
{
    Transform {
        translation: Vector {
            x: wrap(transform.translation.x, config.half_width),
            y: wrap(transform.translation.y, config.half_height),
        },
        scale: transform.scale,
    }
}

/// At each of the four edges, a box beyond the edge is put onto the
/// opposite edge, and a box on the screen stays where it is.
pub proof fn wrap_at_each_edge(transform: TransformView, config: ConfigView)
    requires
        config.wf(),
    ensures
        ({
            let at = transform.translation;
            let next = after_wrap(transform, config).translation;
            &&& at.x > config.half_width ==> next.x == -config.half_width
            &&& at.x < -config.half_width ==> next.x == config.half_width
            &&& -config.half_width <= at.x <= config.half_width ==> next.x == at.x
            &&& at.y > config.half_height ==> next.y == -config.half_height
            &&& at.y < -config.half_height ==> next.y == config.half_height
            &&& -config.half_height <= at.y <= config.half_height ==> next.y == at.y
        }),
{
}

/// Wherever a box was, after the wrap its centre is on the screen.
pub proof fn wrap_lands_on_screen(transform: TransformView, config: ConfigView)
    requires
        config.wf(),
    ensures
        -config.half_width <= after_wrap(transform, config).translation.x <= config.half_width,
        -config.half_height <= after_wrap(transform, config).translation.y <= config.half_height,
{
}

} // verus!
