//! The per-frame core of a small 2D platformer: input, gravity, collision
//! response, movement and screen wrap, on exact integer quantities.
//!
//! A tick runs four steps, always in this order:
//!
//! 1. [`input::move_player`] turns the keys held into the player's next
//!    velocity, gravity included, and into its `grounded` and `dash` flags;
//! 2. [`collision::check_for_collisions`] tests the player against every
//!    static collider, stops it where it is blocked, and finds out whether
//!    it stands on something or has touched a hazard;
//! 3. [`physics::apply_velocity`] moves the player by its velocity;
//! 4. [`zone::zone_transition`] brings a player that has left the screen
//!    back in at the opposite edge.
//!
//! [`world::World::step`] runs all four on a [`world::World`], which holds
//! the one player and the colliders. What a step computes is given by a
//! function on mathematical values (`after_input`, `after_collisions`,
//! `displaced`, `after_wrap`, `after_tick`); what holds of those functions
//! on every input is proved beside them.
//!
//! There is no rounding anywhere: see [`geometry`] for the units.

pub mod collision;
pub mod config;
pub mod geometry;
pub mod input;
pub mod physics;
pub mod player;
pub mod world;
pub mod zone;
