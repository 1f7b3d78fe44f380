//! Events and spawn requests the core emits or consumes.
//!
//! Cross-system communication is event-driven: per-tick append-only
//! queues, each drained exactly once by its consumer before the next
//! tick.  The core fills these queues; the surrounding engine performs
//! the spawns and visual effects they describe.

use vstd::prelude::*;

use crate::components::Side;
use crate::math::Vec2I;

verus! {

/// A visual-effect request for the rendering collaborator.
#[derive(Clone, Copy, PartialEq, Eq, Structural, Debug)]
pub enum SpawnVisualEvent {
    /// A puff of smoke at `origin`, rotated and scaled for variety.
    Smoke { origin: Vec2I, rotation_millideg: i64, scale_milli: i64 },
    /// An explosion centered on the position.
    Explosion(Vec2I),
    /// Drifting debris at the position of a destroyed ship.
    Debris(Vec2I),
}

impl SpawnVisualEvent {
    /// Smoke with no extra rotation at natural size.
    pub fn default_smoke(origin: Vec2I) -> (r: SpawnVisualEvent)
        ensures
            r == (SpawnVisualEvent::Smoke { origin, rotation_millideg: 0i64, scale_milli: 1000i64 }),
    {
        SpawnVisualEvent::Smoke { origin, rotation_millideg: 0, scale_milli: 1000 }
    }
}

/// The player pressed a fire control; the entity is the firing ship.
#[derive(Clone, Copy, PartialEq, Eq, Structural, Debug)]
pub struct FireMissileEvent(pub u64);

/// A ship is thrusting: strength in milli-units, and which thruster
/// (`-1` left, `1` right, `0` main drive).
#[derive(Clone, Copy, PartialEq, Eq, Structural, Debug)]
pub struct ThrustEvent {
    pub entity: u64,
    pub thrust_milli: i64,
    pub side: i8,
}

/// A command for an on-screen element: show, hide, or toggle.
#[derive(Clone, Copy, PartialEq, Eq, Structural, Debug)]
pub struct ToggleUI(pub Option<bool>);

impl ToggleUI {
    /// Command an element to become visible.
    pub fn show() -> (r: ToggleUI)
        ensures
            r.0 == Some(true),
    {
        ToggleUI(Some(true))
    }

    /// Command an element to become hidden.
    pub fn conceal() -> (r: ToggleUI)
        ensures
            r.0 == Some(false),
    {
        ToggleUI(Some(false))
    }
}

impl Default for ToggleUI {
    /// The bare command: toggle the element's current visibility.
    fn default() -> (r: ToggleUI)
        ensures
            r.0 is None,
    {
        ToggleUI(None)
    }
}

/// Which projectile class a spawn request creates.
#[derive(Clone, Copy, PartialEq, Eq, Structural, Debug)]
pub enum ProjectileKind {
    Missile,
    PDCSlug,
    Rail,
}

/// A request to spawn one projectile, complete with the flight state
/// the core later advances.  The velocity vector of slugs and rails is
/// given directly; missiles carry a heading and scalar speed, from
/// which the engine derives the initial velocity vector.
#[derive(Clone, Copy, PartialEq, Eq, Structural, Debug)]
pub struct ProjectileSpawn {
    pub kind: ProjectileKind,
    pub origin: Vec2I,
    pub vel: Vec2I,
    pub heading_millideg: i64,
    pub speed_milli: i64,
    pub activation_ms: Option<i64>,
    pub fadeout_decay: i64,
    pub side: Side,
    pub spatial_radius: i64,
    pub scale_milli: i64,
    pub target: Option<u64>,
}

} // verus!
