//! The world: the player, the static colliders, and the fixed sequence of
//! steps that makes one tick.

use vstd::prelude::*;
use crate::collision::{
    after_collisions, check_for_collisions, hits_among, views, Collider, ColliderView, Collision,
};
use crate::config::{Config, ConfigView};
use crate::geometry::{Transform, TransformView, Vector, VectorView, SUBUNITS};
use crate::input::{after_input, dash_fires, input_fits, move_player, without_dash, Keys};
use crate::physics::{apply_velocity, displaced, velocity_fits};
use crate::player::{Player, PlayerView};
use crate::zone::{after_wrap, zone_transition};

verus! {

/// Everything that a tick reads or changes. The colliders are placed once
/// and then neither move nor go away.
#[derive(Clone, Debug)]
pub struct World {
    pub player: Player,
    pub colliders: Vec<Collider>,
}

/// The mathematical value of a [`World`].
pub struct WorldView {
    pub player: PlayerView,
    pub colliders: Seq<ColliderView>,
}

impl View for World {
    type V = WorldView;

    open spec fn view(&self) -> WorldView {
        WorldView { player: self.player@, colliders: views(self.colliders@) }
    }
}

/// The value of a box given by its centre and size.
pub open spec fn placed(position: VectorView, scale: VectorView, hazard: bool) -> ColliderView {
    ColliderView { transform: TransformView { translation: position, scale }, hazard }
}

/// The scene that every session starts from: the player at rest in the air
/// above a platform, a second platform at the right edge of the screen, and
/// a hazard lying across the whole width.
pub open spec fn initial_world() -> WorldView {
    WorldView {
        player: PlayerView {
            transform: TransformView {
                translation: VectorView { x: 0, y: 60 * SUBUNITS },
                scale: VectorView { x: 30 * SUBUNITS, y: 40 * SUBUNITS },
            },
            velocity: VectorView { x: 0, y: 0 },
            jump: false,
            dash: false,
            grounded: false,
            dead: false,
        },
        colliders: seq![
            placed(
                VectorView { x: 0, y: 0 },
                VectorView { x: 200 * SUBUNITS, y: 10 * SUBUNITS },
                false,
            ),
            placed(
                VectorView { x: 400 * SUBUNITS, y: 50 * SUBUNITS },
                VectorView { x: 100 * SUBUNITS, y: 10 * SUBUNITS },
                false,
            ),
            placed(
                VectorView { x: 0, y: 0 },
                VectorView { x: 1000 * SUBUNITS, y: 10 * SUBUNITS },
                true,
            ),
        ],
    }
}

/// The player's box once the velocity of this tick is known: moved by it,
/// then wrapped.
pub open spec fn carried(player: PlayerView, config: ConfigView) -> TransformView {
    after_wrap(displaced(player.transform, player.velocity, config.time_step), config)
}

/// The world after one tick. The steps always run in this order: the input
/// resolver (with gravity), the collision pass, the movement, the wrap. The
/// collision pass sees the player where the last tick left it.
pub open spec fn after_tick(world: WorldView, keys: Keys, config: ConfigView) -> WorldView {
    let checked = after_collisions(after_input(world.player, keys, config), world.colliders);
    WorldView {
        player: PlayerView { transform: carried(checked, config), ..checked },
        colliders: world.colliders,
    }
}

/// A tick can be computed: the configuration is well-formed, and both the
/// speed after gravity and the position after the movement are numbers that
/// the player can hold.
pub open spec fn can_tick(world: WorldView, keys: Keys, config: ConfigView) -> bool {
    let moved = after_input(world.player, keys, config);
    let checked = after_collisions(moved, world.colliders);
    &&& config.wf()
    &&& moved.velocity.fits()
    &&& displaced(checked.transform, checked.velocity, config.time_step).fits()
}

impl World {
    /// A world that holds the player and no collider.
    pub fn new(player: Player) -> (world: World)
        ensures
            world@ == (WorldView { player: player@, colliders: Seq::empty() }),
    {
        let world = World { player, colliders: Vec::new() };
        assert(world@.colliders =~= Seq::empty());
        world
    }

    /// Builds the scene that a session starts from.
    pub fn setup() -> (world: World)
        ensures
            world@ == initial_world(),
    {
        let spawn_point = Vector::from_units(0, 60);
        let mut world = World::new(
            Player::new(Transform::new(spawn_point, Vector::from_units(30, 40))),
        );
        world.spawn_platform(Vector::from_units(0, 0), Vector::from_units(200, 10));
        world.spawn_platform(Vector::from_units(400, 50), Vector::from_units(100, 10));
        world.spawn_hazard(Vector::from_units(0, 0), Vector::from_units(1000, 10));
        assert(world@.colliders =~= initial_world().colliders);
        world
    }

    /// Places a platform: a collider that is safe to touch.
    pub fn spawn_platform(&mut self, position: Vector, scale: Vector)
        ensures
            final(self)@ == (WorldView {
                player: old(self)@.player,
                colliders: old(self)@.colliders.push(placed(position@, scale@, false)),
            }),
    {
        self.colliders.push(Collider { transform: Transform::new(position, scale), hazard: false });
        assert(self@.colliders =~= old(self)@.colliders.push(placed(position@, scale@, false)));
    }

    /// Places a hazard: a collider that kills on contact.
    pub fn spawn_hazard(&mut self, position: Vector, scale: Vector)
        ensures
            final(self)@ == (WorldView {
                player: old(self)@.player,
                colliders: old(self)@.colliders.push(placed(position@, scale@, true)),
            }),
    {
        self.colliders.push(Collider { transform: Transform::new(position, scale), hazard: true });
        assert(self@.colliders =~= old(self)@.colliders.push(placed(position@, scale@, true)));
    }

    /// Advances the world by one tick.
    ///
    /// The collision pass tests every collider before anything moves, so
    /// `grounded` is settled for the input resolver of the next tick.
    pub fn step(&mut self, keys: Keys, config: &Config)
        requires
            can_tick(old(self)@, keys, config@),
        ensures
            final(self)@ == after_tick(old(self)@, keys, config@),
    {
        let moved = move_player(self.player, keys, config);
        let mut next = check_for_collisions(moved, &self.colliders);
        let arrived = apply_velocity(next.transform, next.velocity, config.time_step);
        next.transform = zone_transition(arrived, config);
        self.player = next;
    }

    /// Advances the world by one tick where that can be computed, and says
    /// whether it did. Where it cannot, the world is left as it was.
    pub fn try_step(&mut self, keys: Keys, config: &Config) -> (advanced: bool)
        ensures
            advanced == can_tick(old(self)@, keys, config@),
            final(self)@ == if advanced {
                after_tick(old(self)@, keys, config@)
            } else {
                old(self)@
            },
    {
        let well_formed = config.gravity < 0 && config.half_width >= 0 && config.half_height >= 0
            && config.time_step > 0;
        if !well_formed || !input_fits(self.player, keys, config) {
            return false;
        }
        let moved = move_player(self.player, keys, config);
        let mut next = check_for_collisions(moved, &self.colliders);
        if !velocity_fits(next.transform, next.velocity, config.time_step) {
            return false;
        }
        let arrived = apply_velocity(next.transform, next.velocity, config.time_step);
        next.transform = zone_transition(arrived, config);
        self.player = next;
        true
    }
}

/// The world after a run of ticks, one for each entry of `inputs`, in order.
pub open spec fn after_ticks(world: WorldView, inputs: Seq<Keys>, config: ConfigView) -> WorldView
    decreases inputs.len(),
{
    if inputs.len() == 0 {
        world
    } else {
        after_tick(after_ticks(world, inputs.drop_last(), config), inputs.last(), config)
    }
}

/// Nothing but gravity acts on the vertical speed in a tick from `world` with
/// `keys`: the player does not dash, lands on nothing, and is not stopped
/// from below while still rising.
pub open spec fn falls_freely(world: WorldView, keys: Keys, config: ConfigView) -> bool {
    let at = world.player.transform;
    let all = world.colliders.len() as int;
    &&& !dash_fires(world.player, keys)
    &&& !hits_among(at, world.colliders, all, Collision::Top)
    &&& world.player.velocity.y + config.gravity > 0 ==> !hits_among(
        at,
        world.colliders,
        all,
        Collision::Bottom,
    )
}

/// Free fall: through a whole tick in which the player is airborne and
/// nothing but gravity acts, the vertical speed drops by exactly the gravity
/// constant, and the player is airborne still.
pub proof fn free_fall(world: WorldView, keys: Keys, config: ConfigView)
    requires
        config.wf(),
        !world.player.grounded,
        falls_freely(world, keys, config),
    ensures
        after_tick(world, keys, config).player.velocity.y == world.player.velocity.y
            + config.gravity,
        after_tick(world, keys, config).player.velocity.y < world.player.velocity.y,
        !after_tick(world, keys, config).player.grounded,
{
}

/// Free fall lasts until the player lands: over any run of ticks that begins
/// airborne and in each of which nothing but gravity acts, the vertical
/// speed drops by the gravity constant once per tick.
pub proof fn free_fall_lasts(world: WorldView, inputs: Seq<Keys>, config: ConfigView)
    requires
        config.wf(),
        !world.player.grounded,
        forall|k: int|
            0 <= k < inputs.len() ==> falls_freely(
                after_ticks(world, #[trigger] inputs.take(k), config),
                inputs[k],
                config,
            ),
    ensures
        after_ticks(world, inputs, config).player.velocity.y == world.player.velocity.y
            + inputs.len() * config.gravity,
        !after_ticks(world, inputs, config).player.grounded,
    decreases inputs.len(),
{
    if inputs.len() > 0 {
        let earlier = inputs.drop_last();
        let last = inputs.len() - 1;
        assert forall|k: int| 0 <= k < earlier.len() implies falls_freely(
            after_ticks(world, #[trigger] earlier.take(k), config),
            earlier[k],
            config,
        ) by {
            assert(earlier.take(k) =~= inputs.take(k));
        }
        free_fall_lasts(world, earlier, config);
        assert(inputs.take(last) =~= earlier);
        free_fall(after_ticks(world, earlier, config), inputs.last(), config);
        assert(world.player.velocity.y + earlier.len() * config.gravity + config.gravity
            == world.player.velocity.y + inputs.len() * config.gravity) by (nonlinear_arith)
            requires
                earlier.len() + 1 == inputs.len(),
        ;
    }
}

/// No collider is hit on its top where the player of `world` is.
pub open spec fn lands_on_nothing(world: WorldView) -> bool {
    !hits_among(
        world.player.transform,
        world.colliders,
        world.colliders.len() as int,
        Collision::Top,
    )
}

/// The tick of a dash spends the dash, unless the player lands in that very
/// tick.
pub proof fn dash_tick_spends_the_dash(world: WorldView, keys: Keys, config: ConfigView)
    requires
        dash_fires(world.player, keys),
        lands_on_nothing(world),
    ensures
        !after_tick(world, keys, config).player.dash,
        !after_tick(world, keys, config).player.grounded,
{
}

/// A spent dash stays spent through every tick in which the player lands on
/// nothing, and in such a tick the dash key does nothing.
pub proof fn dash_stays_spent(world: WorldView, keys: Keys, config: ConfigView)
    requires
        !world.player.dash,
        lands_on_nothing(world),
    ensures
        !after_tick(world, keys, config).player.dash,
        after_tick(world, keys, config) == after_tick(world, without_dash(keys), config),
{
}

/// A dash is spent until the player lands: over any run of ticks that begins
/// without a dash and in none of which the player lands, the dash key does
/// nothing, however often it is held.
pub proof fn dash_is_spent_until_landing(world: WorldView, inputs: Seq<Keys>, config: ConfigView)
    requires
        !world.player.dash,
        forall|k: int|
            0 <= k < inputs.len() ==> lands_on_nothing(
                after_ticks(world, #[trigger] inputs.take(k), config),
            ),
    ensures
        !after_ticks(world, inputs, config).player.dash,
        after_ticks(world, inputs, config) == after_ticks(
            world,
            inputs.map_values(|keys: Keys| without_dash(keys)),
            config,
        ),
    decreases inputs.len(),
{
    let let_go = inputs.map_values(|keys: Keys| without_dash(keys));
    if inputs.len() > 0 {
        let earlier = inputs.drop_last();
        let last = inputs.len() - 1;
        assert forall|k: int| 0 <= k < earlier.len() implies lands_on_nothing(
            after_ticks(world, #[trigger] earlier.take(k), config),
        ) by {
            assert(earlier.take(k) =~= inputs.take(k));
        }
        dash_is_spent_until_landing(world, earlier, config);
        assert(inputs.take(last) =~= earlier);
        assert(let_go.drop_last() =~= earlier.map_values(|keys: Keys| without_dash(keys)));
        assert(let_go.last() == without_dash(inputs.last()));
        dash_stays_spent(after_ticks(world, earlier, config), inputs.last(), config);
    }
}

/// After a tick the player is on the screen, the colliders are those that
/// were there, and the player's size is what it was.
pub proof fn tick_keeps_the_scene(world: WorldView, keys: Keys, config: ConfigView)
    requires
        config.wf(),
    ensures
        ({
            let next = after_tick(world, keys, config);
            &&& -config.half_width <= next.player.transform.translation.x <= config.half_width
            &&& -config.half_height <= next.player.transform.translation.y <= config.half_height
            &&& next.player.transform.scale == world.player.transform.scale
            &&& next.colliders == world.colliders
        }),
{
}

} // verus!
