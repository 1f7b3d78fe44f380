//! Core simulation logic for a small 2D space-combat arcade game.
//!
//! The crate models the combat loop of the game as a standalone,
//! fully verified simulation core: targeting, projectile flight and
//! guidance, weapon fire control, collision resolution and damage
//! application, all over fixed-point integer state.  Engine concerns
//! (rendering, assets, input devices) stay outside; they hand the core
//! plain values and consume the spawn/damage/destroy requests it emits.
//!
//! The host advances the simulation in discrete ticks, running the
//! system passes once each in a fixed order: targeting
//! ([`scanner`]), weapon fire ([`weapons`], [`launchers`]), flight
//! and guidance ([`flight`], [`guidance`]), collision resolution
//! ([`collisions`]), damage application and the destruction sweep
//! ([`damage`]).  That ordering is the sole concurrency mechanism:
//! within a tick, later passes observe the writes of earlier ones and
//! nothing runs in parallel.  Only the spatial index ([`spatial`])
//! rebuilds on its own cadence, which is why its queries are
//! snapshot reads that tolerate bounded staleness.

pub mod angle;
pub mod camera;
pub mod collisions;
pub mod components;
pub mod control;
pub mod damage;
pub mod events;
pub mod feedback;
pub mod flight;
pub mod geometry;
pub mod guidance;
pub mod launchers;
pub mod level;
pub mod lifecycle;
pub mod math;
pub mod scanner;
pub mod spatial;
pub mod ui;
pub mod weapons;

pub(crate) mod rng;

use vstd::prelude::*;

verus! {

/// Scheduler hook kept for wiring the core's systems into a host
/// engine's schedule; it does nothing by itself.
pub fn res_test() {
}

/// Carrier for method-style scheduler hooks.
pub struct Foo;

impl Foo {
    /// Scheduler hook kept for wiring the core's systems into a host
    /// engine's schedule; it does nothing by itself.
    pub fn method_system() {
    }
}

} // verus!
