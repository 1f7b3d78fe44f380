//! Component state carried by simulation entities.
//!
//! All scalar state is fixed point: distances and scales in milli-units
//! (1000 to the world unit), time in milliseconds, opacity in
//! milli-units of full opacity.  Sign conventions and thresholds follow
//! the combat rules exactly; the contracts of the system passes speak
//! in these units.

use vstd::prelude::*;

verus! {

/// Which side an entity fights for.  All damage-dealing collision
/// checks filter on it: entities never damage same-side entities.
#[derive(Clone, Copy, PartialEq, Eq, Structural, Debug)]
pub enum Side {
    Player,
    Enemy,
}

/// The ship's sprite family and frame, carried through from the
/// blueprint to the renderer.
#[derive(Clone, Copy, PartialEq, Eq, Structural, Debug)]
pub enum Ship {
    SmallShip(u32),
    LargeShip(u32),
}

impl Ship {
    /// The sprite frame the blueprint selects.
    pub fn get_frame(&self) -> (r: u32)
        ensures
            r == match *self {
                Ship::SmallShip(n) => n,
                Ship::LargeShip(n) => n,
            },
    {
        match self {
            Ship::SmallShip(n) => *n,
            Ship::LargeShip(n) => *n,
        }
    }
}

/// Marker radius with which an entity registers in the spatial index,
/// in milli-units.
#[derive(Clone, Copy, PartialEq, Eq, Structural, Debug)]
pub struct SpatialElement(pub i64);

/// Whether the player's scan cone currently covers this hostile ship.
/// Recomputed every tick; never persisted across destroy/respawn.
#[derive(Clone, Copy, PartialEq, Eq, Structural, Debug)]
pub struct FireTarget(pub bool);

/// Remaining activation countdown of a projectile, in milliseconds.
/// While present, velocity is damped and wobble and guidance are
/// suppressed; it is removed once it reaches zero.
#[derive(Clone, Copy, PartialEq, Eq, Structural, Debug)]
pub struct ActivationTime(pub i64);

/// Per-tick opacity decay, in milli-opacity per tick.  When the
/// accumulated opacity reaches zero the entity is destroyed and
/// replaced by an explosion effect.
#[derive(Clone, Copy, PartialEq, Eq, Structural, Debug)]
pub struct Fadeout(pub i64);

/// A missile's weak reference to the entity it homes toward.  If the
/// referenced entity no longer exists, guidance silently skips the
/// missile.
#[derive(Clone, Copy, PartialEq, Eq, Structural, Debug)]
pub struct MissileTarget(pub u64);

/// Remaining cooldown before the player may fire missiles again,
/// in milliseconds.
#[derive(Clone, Copy, PartialEq, Eq, Structural, Debug)]
pub struct MissileCooldown(pub i64);

/// Heat threshold above which a weapon mount trips into cooldown,
/// in milli-heat.
pub const POD_HEAT_LIMIT: i64 = 5_000;

/// The (negative) heat value a tripped mount is reset to.
pub const POD_COOLDOWN_HEAT: i64 = -2_000;

/// Weapon-mount state: heat and engagement range.
///
/// `heat` is sign-encoded: non-negative means ready (fire
/// opportunities are taken and heat climbs), negative means cooling
/// (heat climbs back toward zero and no firing may happen).  Crossing
/// `POD_HEAT_LIMIT` resets it to `POD_COOLDOWN_HEAT` exactly.
/// `range` is in milli-units.
#[derive(Clone, Copy, PartialEq, Eq, Structural, Debug)]
pub struct BulletPod {
    pub heat: i64,
    pub range: i64,
}

impl BulletPod {
    /// Heat values the mount's state machine can reach stay in this
    /// comfortable band, which keeps every heat update overflow-free.
    pub open spec fn wf(self) -> bool {
        -1_000_000_000 <= self.heat <= 1_000_000_000 && 0 <= self.range <= 1_000_000_000
    }

    /// A mount with the given starting heat and range.
    pub fn new(heat: i64, range: i64) -> (p: BulletPod)
        requires
            -1_000_000_000 <= heat <= 1_000_000_000,
            0 <= range <= 1_000_000_000,
        ensures
            p.heat == heat,
            p.range == range,
            p.wf(),
    {
        BulletPod { heat, range }
    }
}

/// A ship description as loaded from a level: already-parsed plain
/// values handed to the core by the asset pipeline.
#[derive(Clone, PartialEq, Eq, Debug)]
pub struct ShipBlueprint {
    pub name: String,
    pub ship: Ship,
    pub health: u32,
    pub turn_speed: i64,
    pub move_speed: i64,
    pub player: bool,
}

/// A level: the set of ship blueprints to spawn or hold in reserve.
#[derive(Clone, PartialEq, Eq, Debug)]
pub struct LevelBlueprint {
    pub ships: Vec<ShipBlueprint>,
}

/// The pool of enemy blueprints kept after level spawn, from which
/// periodic reinforcements are drawn.
#[derive(Clone, PartialEq, Eq, Debug)]
pub struct Ships(pub Vec<ShipBlueprint>);

/// Tunable player-facing simulation parameters.  Distances are in
/// milli-units, times in milliseconds, rates in milli-units per tick.
#[derive(Clone, Copy, PartialEq, Eq, Structural, Debug)]
pub struct PlayerSettings {
    pub scan_radius: i64,
    pub railgun_cooldown_ms: i64,
    pub railgun_range: i64,
    pub missile_cooldown_ms: i64,
    pub missile_fadeout_decay: i64,
    pub missile_count: u32,
    pub missile_angle_milli: i64,
    pub camera_speed_milli: i64,
    pub camera_offset: i64,
    pub camera_deadzone: i64,
    pub show_gizmos: bool,
    pub show_debug: bool,
    pub use_rumble: bool,
    pub time_between_rumbles_ms: i64,
}

impl PlayerSettings {
    /// All tunables sit inside the bands the system contracts ask for.
    pub open spec fn wf(self) -> bool {
        &&& 0 <= self.scan_radius <= 1_000_000_000
        &&& 0 <= self.railgun_cooldown_ms <= 1_000_000
        &&& 0 <= self.railgun_range <= 1_000_000_000
        &&& 0 <= self.missile_cooldown_ms <= 1_000_000
        &&& 0 <= self.missile_fadeout_decay <= 1_000
        &&& 0 < self.missile_count <= 64
        &&& 0 <= self.missile_angle_milli <= 10_000
        &&& 0 <= self.camera_speed_milli <= 1_000
        &&& 0 <= self.camera_offset <= 1_000_000_000
        &&& 0 <= self.camera_deadzone <= 1_000_000_000
        &&& 0 <= self.time_between_rumbles_ms <= 1_000_000
    }
}

impl Default for PlayerSettings {
    /// The reference tuning of the combat loop.
    fn default() -> (s: PlayerSettings)
        ensures
            s.scan_radius == 300_000,
            s.railgun_cooldown_ms == 30,
            s.railgun_range == 10_000,
            s.missile_cooldown_ms == 100,
            s.missile_fadeout_decay == 10,
            s.missile_count == 10,
            s.missile_angle_milli == 1_000,
            s.camera_speed_milli == 50,
            s.camera_offset == 100_000,
            s.camera_deadzone == 150_000,
            !s.show_gizmos,
            !s.show_debug,
            s.use_rumble,
            s.time_between_rumbles_ms == 100,
            s.wf(),
    {
        PlayerSettings {
            scan_radius: 300_000,
            railgun_cooldown_ms: 30,
            railgun_range: 10_000,
            missile_cooldown_ms: 100,
            missile_fadeout_decay: 10,
            missile_count: 10,
            missile_angle_milli: 1_000,
            camera_speed_milli: 50,
            camera_offset: 100_000,
            camera_deadzone: 150_000,
            show_gizmos: false,
            show_debug: false,
            use_rumble: true,
            time_between_rumbles_ms: 100,
        }
    }
}

/// Frame range of a sprite-sheet animation.
#[derive(Clone, Copy, PartialEq, Eq, Structural, Debug)]
pub struct AnimationIndices {
    pub first: usize,
    pub last: usize,
}

/// What one animation-timer expiry does to a sprite.
#[derive(Clone, Copy, PartialEq, Eq, Structural, Debug)]
pub enum FrameStep {
    /// Show this frame next.
    Advance(usize),
    /// A one-shot animation ran past its last frame: despawn the
    /// entity.
    Finished,
}

impl AnimationIndices {
    /// Advance a sprite one frame: step forward until the last frame
    /// is reached, then restart if the animation repeats, else finish.
    pub fn advance(&self, index: usize, repeating: bool) -> (r: FrameStep)
        requires
            index < usize::MAX,
        ensures
            index + 1 < self.last ==> r == FrameStep::Advance((index + 1) as usize),
            index + 1 >= self.last && repeating ==> r == FrameStep::Advance(self.first),
            index + 1 >= self.last && !repeating ==> r == FrameStep::Finished,
    {
        let next = index + 1;
        if next >= self.last {
            if repeating {
                FrameStep::Advance(self.first)
            } else {
                FrameStep::Finished
            }
        } else {
            FrameStep::Advance(next)
        }
    }
}

} // verus!
