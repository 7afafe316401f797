//! Simulation core of a top-down action game.
//!
//! The library resolves spatial interaction between mobile entities
//! (player, wandering hostiles, projectiles), drives combat consequences
//! (damage, death, despawn) and keeps the continuous-time state of an
//! aiming/animation machine and a randomized wander behaviour.
//!
//! All quantities are fixed-point integers: positions count `UNIT`
//! sub-steps per world unit, angles count `PI_FIXED` steps per half
//! turn, and time counts milliseconds.  The host (rendering, input,
//! scheduling) converts at the edge and drives one `tick` per frame.

pub mod geometry;
pub mod timer;
pub mod angle;
pub mod animation;
pub mod player;
pub mod events;
pub mod bullet;
pub mod zombie;
pub mod common;
pub mod user_controls;
