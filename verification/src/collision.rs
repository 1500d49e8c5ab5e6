//! The collision resolver: which side of a box the player has run into, and
//! what one pass over all colliders does to the player.

use vstd::prelude::*;
use crate::geometry::{Transform, TransformView, VectorView};
use crate::player::{Player, PlayerView};

verus! {

/// The side of the other box that the player's box has run into.
#[derive(Clone, Copy, Debug, PartialEq, Eq, Structural)]
pub enum Collision {
    /// The player reaches over the other box's left edge, coming from the left.
    Left,
    /// The player reaches over the other box's right edge.
    Right,
    /// The player reaches over the other box's top edge: it stands on it.
    Top,
    /// The player reaches over the other box's bottom edge, from below.
    Bottom,
    /// The boxes overlap, but on neither axis does the player reach over just
    /// one edge of the other box.
    Inside,
}

/// A static box that the player collides with. A hazard kills on contact.
#[derive(Clone, Copy, Debug, PartialEq, Eq, Structural)]
pub struct Collider {
    pub transform: Transform,
    pub hazard: bool,
}

/// The mathematical value of a [`Collider`].
pub struct ColliderView {
    pub transform: TransformView,
    pub hazard: bool,
}

impl View for Collider {
    type V = ColliderView;

    open spec fn view(&self) -> ColliderView {
        ColliderView { transform: self.transform@, hazard: self.hazard }
    }
}

/// The values of a list of colliders, in the same order.
pub open spec fn views(colliders: Seq<Collider>) -> Seq<ColliderView> {
    Seq::new(colliders.len(), |i: int| colliders[i]@)
}

/// The two boxes overlap: on both axes each begins before the other ends.
/// Boxes that only touch do not overlap.
pub open spec fn overlapping(a: TransformView, b: TransformView) -> bool {
    &&& a.left2() < b.right2()
    &&& a.right2() > b.left2()
    &&& a.bottom2() < b.top2()
    &&& a.top2() > b.bottom2()
}

/// On one axis, the span `a` begins before the span `b`, reaches into it and
/// ends inside it: it lies over the low end of `b` and over that end alone.
pub open spec fn over_low_end(a_low: int, a_high: int, b_low: int, b_high: int) -> bool {
    a_low < b_low && b_low < a_high && a_high < b_high
}

/// On one axis, the span `a` begins inside the span `b` and ends beyond it:
/// it lies over the high end of `b` and over that end alone.
pub open spec fn over_high_end(a_low: int, a_high: int, b_low: int, b_high: int) -> bool {
    b_low < a_low && a_low < b_high && b_high < a_high
}

/// How far the span `a` reaches into the span `b` past the one end that it
/// lies over; `None` where it lies over neither end alone.
pub open spec fn depth(a_low: int, a_high: int, b_low: int, b_high: int) -> Option<int> {
    if over_low_end(a_low, a_high, b_low, b_high) {
        Some(a_high - b_low)
    } else if over_high_end(a_low, a_high, b_low, b_high) {
        Some(b_high - a_low)
    } else {
        None
    }
}

/// The side of `b` that `a` has collided with, if the two overlap.
///
/// Each axis is judged alone: `a` lies over one end of `b`, to some depth, or
/// over neither. Where only one axis has an end, that end is the side. Where
/// both have one, the shallower wins, and the horizontal one on a tie.
/// Where neither has one the result is `Inside`.
pub open spec fn collision(a: TransformView, b: TransformView) -> Option<Collision> {
    if !overlapping(a, b) {
        None
    } else {
        let across = depth(a.left2(), a.right2(), b.left2(), b.right2());
        let upright = depth(a.bottom2(), a.top2(), b.bottom2(), b.top2());
        if upright is Some && (across is None || upright->0 < across->0) {
            if over_low_end(a.bottom2(), a.top2(), b.bottom2(), b.top2()) {
                Some(Collision::Bottom)
            } else {
                Some(Collision::Top)
            }
        } else if over_low_end(a.left2(), a.right2(), b.left2(), b.right2()) {
            Some(Collision::Left)
        } else if over_high_end(a.left2(), a.right2(), b.left2(), b.right2()) {
            Some(Collision::Right)
        } else {
            Some(Collision::Inside)
        }
    }
}

/// One of the first `n` colliders is hit on `side`.
pub open spec fn hits_among(
    player: TransformView,
    colliders: Seq<ColliderView>,
    n: int,
    side: Collision,
) -> bool {
    exists|i: int|
        0 <= i < n && collision(player, (#[trigger] colliders[i]).transform) == Some(side)
}

/// One of the first `n` colliders is hit on a side other than its top, or
/// from inside.
pub open spec fn bumps_among(player: TransformView, colliders: Seq<ColliderView>, n: int) -> bool {
    exists|i: int|
        0 <= i < n && collision(player, (#[trigger] colliders[i]).transform) is Some && collision(
            player,
            colliders[i].transform,
        ) != Some(Collision::Top)
}

/// One of the first `n` colliders is a hazard that the player overlaps, on
/// whatever side.
pub open spec fn burns_among(player: TransformView, colliders: Seq<ColliderView>, n: int) -> bool {
    exists|i: int|
        0 <= i < n && (#[trigger] colliders[i]).hazard && collision(
            player,
            colliders[i].transform,
        ) is Some
}

/// The player after a pass over the first `n` colliders.
pub open spec fn after_collisions_among(
    player: PlayerView,
    colliders: Seq<ColliderView>,
    n: int,
) -> PlayerView {
    let at = player.transform;
    let landed = hits_among(at, colliders, n, Collision::Top);
    let stopped_across = (player.velocity.x > 0 && hits_among(at, colliders, n, Collision::Left))
        || (player.velocity.x < 0 && hits_among(at, colliders, n, Collision::Right));
    let stopped_upright = (player.velocity.y < 0 && landed) || (player.velocity.y > 0
        && hits_among(at, colliders, n, Collision::Bottom));
    PlayerView {
        transform: player.transform,
        velocity: VectorView {
            x: if stopped_across {
                0
            } else {
                player.velocity.x
            },
            y: if stopped_upright {
                0
            } else {
                player.velocity.y
            },
        },
        jump: player.jump && !bumps_among(at, colliders, n),
        dash: player.dash || landed,
        grounded: landed,
        dead: player.dead || burns_among(at, colliders, n),
    }
}

/// The player after one collision pass over all `colliders`.
///
/// - A speed into a side that is hit becomes zero: rightward for a `Left`
///   hit, leftward for `Right`, upward for `Bottom`, downward for `Top`.
///   Any other speed is kept, and an `Inside` hit corrects nothing.
/// - `grounded` says whether some collider was hit on its top; such a hit
///   also refills the dash.
/// - Overlapping a hazard kills, from whichever side.
/// - A hit that is not on a top clears `jump`.
///
/// The position is kept: the pass corrects the velocity only.
pub open spec fn after_collisions(player: PlayerView, colliders: Seq<ColliderView>) -> PlayerView {
    after_collisions_among(player, colliders, colliders.len() as int)
}

/// The depth to which the span `a` lies over one end of the span `b`.
fn span_depth(a_low: i128, a_high: i128, b_low: i128, b_high: i128) -> (r: Option<i128>)
    requires
        -0x2_0000_0000_0000_0000 <= a_low <= 0x2_0000_0000_0000_0000,
        -0x2_0000_0000_0000_0000 <= a_high <= 0x2_0000_0000_0000_0000,
        -0x2_0000_0000_0000_0000 <= b_low <= 0x2_0000_0000_0000_0000,
        -0x2_0000_0000_0000_0000 <= b_high <= 0x2_0000_0000_0000_0000,
    ensures
        r is Some <==> depth(a_low as int, a_high as int, b_low as int, b_high as int) is Some,
        r is Some ==> r->0 == depth(a_low as int, a_high as int, b_low as int, b_high as int)->0,
{
    if a_low < b_low && b_low < a_high && a_high < b_high {
        Some(a_high - b_low)
    } else if b_low < a_low && a_low < b_high && b_high < a_high {
        Some(b_high - a_low)
    } else {
        None
    }
}

/// Tests two boxes for overlap and names the side of `b` that `a` has hit.
pub fn collide(a: &Transform, b: &Transform) -> (r: Option<Collision>)
    ensures
        r == collision(a@, b@),
{
    let a_left = a.left2();
    let a_right = a.right2();
    let a_bottom = a.bottom2();
    let a_top = a.top2();
    let b_left = b.left2();
    let b_right = b.right2();
    let b_bottom = b.bottom2();
    let b_top = b.top2();
    if !(a_left < b_right && a_right > b_left && a_bottom < b_top && a_top > b_bottom) {
        return None;
    }
    let across = span_depth(a_left, a_right, b_left, b_right);
    let upright = span_depth(a_bottom, a_top, b_bottom, b_top);
    let upright_wins = match (upright, across) {
        (Some(dy), Some(dx)) => dy < dx,
        (Some(_), None) => true,
        (None, _) => false,
    };
    if upright_wins {
        if a_bottom < b_bottom {
            Some(Collision::Bottom)
        } else {
            Some(Collision::Top)
        }
    } else if across.is_some() {
        if a_left < b_left {
            Some(Collision::Left)
        } else {
            Some(Collision::Right)
        }
    } else {
        Some(Collision::Inside)
    }
}

/// Runs one collision pass: tests the player against every collider, in
/// order, and corrects its velocity and flags.
pub fn check_for_collisions(player: Player, colliders: &Vec<Collider>) -> (next: Player)
    ensures
        next@ == after_collisions(player@, views(colliders@)),
{
    let mut next = player;
    let mut landed = false;
    let mut i: usize = 0;
    while i < colliders.len()
        invariant
            i <= colliders.len(),
            landed == hits_among(player@.transform, views(colliders@), i as int, Collision::Top),
            next@ == (PlayerView {
                grounded: player.grounded,
                ..after_collisions_among(player@, views(colliders@), i as int)
            }),
        decreases colliders.len() - i,
    {
        let collider = &colliders[i];
        let hit = collide(&player.transform, &collider.transform);
        assert(views(colliders@)[i as int] == collider@);
        match hit {
            Some(side) => {
                if collider.hazard {
                    next.dead = true;
                }
                match side {
                    Collision::Left => {
                        if next.velocity.x > 0 {
                            next.velocity.x = 0;
                        }
                    },
                    Collision::Right => {
                        if next.velocity.x < 0 {
                            next.velocity.x = 0;
                        }
                    },
                    Collision::Bottom => {
                        if next.velocity.y > 0 {
                            next.velocity.y = 0;
                        }
                    },
                    Collision::Top => {
                        if next.velocity.y < 0 {
                            next.velocity.y = 0;
                        }
                        landed = true;
                        next.dash = true;
                    },
                    Collision::Inside => {},
                }
                if side != Collision::Top {
                    next.jump = false;
                }
            },
            None => {},
        }
        i = i + 1;
    }
    next.grounded = landed;
    next
}

/// A side is reported only where the player lies over that edge of the other
/// box and over no other edge on that axis, and something is reported
/// exactly where the boxes overlap.
pub proof fn side_names_the_edge_crossed(a: TransformView, b: TransformView)
    ensures
        collision(a, b) is Some <==> overlapping(a, b),
        collision(a, b) == Some(Collision::Left) ==> a.left2() < b.left2() < a.right2()
            < b.right2(),
        collision(a, b) == Some(Collision::Right) ==> b.left2() < a.left2() < b.right2()
            < a.right2(),
        collision(a, b) == Some(Collision::Bottom) ==> a.bottom2() < b.bottom2() < a.top2()
            < b.top2(),
        collision(a, b) == Some(Collision::Top) ==> b.bottom2() < a.bottom2() < b.top2()
            < a.top2(),
{
}

/// Landing always grounds: where any collider is hit on its top, the pass
/// leaves the player grounded with a dash to spend and no downward speed,
/// whatever its velocity was and whatever else it hit.
pub proof fn landing_grounds_and_refills(
    player: PlayerView,
    colliders: Seq<ColliderView>,
    i: int,
)
    requires
        0 <= i < colliders.len(),
        collision(player.transform, colliders[i].transform) == Some(Collision::Top),
    ensures
        after_collisions(player, colliders).grounded,
        after_collisions(player, colliders).dash,
        after_collisions(player, colliders).velocity.y >= 0,
        after_collisions(player, colliders).velocity.y == 0 || after_collisions(
            player,
            colliders,
        ).velocity.y == player.velocity.y,
{
}

/// Overlapping a hazard kills, on whichever side it is touched and whatever
/// the pass does to the velocity.
pub proof fn hazard_kills(player: PlayerView, colliders: Seq<ColliderView>, i: int)
    requires
        0 <= i < colliders.len(),
        colliders[i].hazard,
        overlapping(player.transform, colliders[i].transform),
    ensures
        after_collisions(player, colliders).dead,
{
}

/// A pass never speeds the player up or turns it round: on each axis the
/// speed is kept or becomes zero.
pub proof fn pass_only_stops(player: PlayerView, colliders: Seq<ColliderView>)
    ensures
        ({
            let next = after_collisions(player, colliders);
            &&& next.velocity.x == player.velocity.x || next.velocity.x == 0
            &&& next.velocity.y == player.velocity.y || next.velocity.y == 0
            &&& next.transform == player.transform
        }),
{
}

/// The order of the colliders does not matter, nor how often one is listed:
/// two lists that hold the same colliders give the same outcome.
pub proof fn pass_ignores_order(
    player: PlayerView,
    first: Seq<ColliderView>,
    second: Seq<ColliderView>,
)
    requires
        forall|c: ColliderView| first.contains(c) <==> second.contains(c),
    ensures
        after_collisions(player, first) == after_collisions(player, second),
{
    same_contacts(player.transform, first, second);
    same_contacts(player.transform, second, first);
}

/// Whatever is hit among `first` is hit among `second`, where `second` holds
/// every collider of `first`.
proof fn same_contacts(at: TransformView, first: Seq<ColliderView>, second: Seq<ColliderView>)
    requires
        forall|c: ColliderView| first.contains(c) ==> second.contains(c),
    ensures
        forall|side: Collision|
            hits_among(at, first, first.len() as int, side) ==> hits_among(
                at,
                second,
                second.len() as int,
                side,
            ),
        bumps_among(at, first, first.len() as int) ==> bumps_among(
            at,
            second,
            second.len() as int,
        ),
        burns_among(at, first, first.len() as int) ==> burns_among(
            at,
            second,
            second.len() as int,
        ),
{
    assert forall|i: int| 0 <= i < first.len() implies exists|j: int|
        0 <= j < second.len() && second[j] == #[trigger] first[i] by {
        assert(first.contains(first[i]));
    }
}

} // verus!
