//! Level setup and reinforcements: turning already-parsed blueprints
//! into spawn plans.
//!
//! A level lists ship blueprints.  On entry, player ships spawn at
//! the origin and the rest are held back as the enemy pool, from
//! which a reinforcement is drawn every ten seconds at a random spot.
//! An empty or player-less level simply yields an emptier simulation,
//! never an error.

use vstd::prelude::*;

use crate::components::{BulletPod, FireTarget, LevelBlueprint, ShipBlueprint, Side};
use crate::damage::Health;
use crate::math::Vec2I;
use crate::rng::sample_range;

verus! {

/// Seconds between enemy reinforcements, in milliseconds.
pub const ENEMY_SPAWN_INTERVAL_MS: i64 = 10_000;

/// Half-width of the square in which reinforcements appear,
/// milli-units.
pub const ENEMY_SPAWN_SPREAD_MILLI: i64 = 400_000;

/// The starting heat of an enemy ship's point-defense mount: deep in
/// cooldown, so a fresh ship holds fire for ten seconds.
pub const ENEMY_POD_START_HEAT: i64 = -10_000;

/// The engagement range of an enemy ship's point-defense mount,
/// milli-units.
pub const ENEMY_POD_RANGE_MILLI: i64 = 250_000;

/// The component set a blueprint spawns with: everything the combat
/// systems later read, as plain values.
#[derive(Clone, Copy, PartialEq, Eq, Structural, Debug)]
pub struct ShipSpawn {
    pub position: Vec2I,
    pub health: Health,
    pub turn_speed: i64,
    pub move_speed: i64,
    pub side: Side,
    pub fire_target: Option<FireTarget>,
    pub pod: Option<BulletPod>,
    pub spatial_radius: i64,
}

/// Plan the components of one ship: full health from the blueprint,
/// and for a non-player ship the enemy side with an unmarked fire
/// target and a point-defense mount fresh out of the factory, still
/// deep in cooldown.
pub fn spawn_ship(blueprint: &ShipBlueprint, position: Vec2I) -> (r: ShipSpawn)
    ensures
        r.position == position,
        r.health.max == blueprint.health,
        r.health.current == blueprint.health,
        r.turn_speed == blueprint.turn_speed,
        r.move_speed == blueprint.move_speed,
        r.spatial_radius == 10_000,
        blueprint.player ==> {
            &&& r.side == Side::Player
            &&& r.fire_target is None
            &&& r.pod is None
        },
        !blueprint.player ==> {
            &&& r.side == Side::Enemy
            &&& r.fire_target == Some(FireTarget(false))
            &&& r.pod == Some(
                BulletPod { heat: ENEMY_POD_START_HEAT, range: ENEMY_POD_RANGE_MILLI },
            )
        },
{
    if blueprint.player {
        ShipSpawn {
            position,
            health: Health::new(blueprint.health),
            turn_speed: blueprint.turn_speed,
            move_speed: blueprint.move_speed,
            side: Side::Player,
            fire_target: None,
            pod: None,
            spatial_radius: 10_000,
        }
    } else {
        ShipSpawn {
            position,
            health: Health::new(blueprint.health),
            turn_speed: blueprint.turn_speed,
            move_speed: blueprint.move_speed,
            side: Side::Enemy,
            fire_target: Some(FireTarget(false)),
            pod: Some(BulletPod::new(ENEMY_POD_START_HEAT, ENEMY_POD_RANGE_MILLI)),
            spatial_radius: 10_000,
        }
    }
}

/// The indices of the player blueprints of a level, in order.
pub open spec fn spec_player_indices(ships: Seq<ShipBlueprint>) -> Seq<int>
    decreases ships.len(),
{
    if ships.len() == 0 {
        Seq::empty()
    } else {
        let prior = spec_player_indices(ships.drop_last());
        if ships.last().player {
            prior.push(ships.len() - 1)
        } else {
            prior
        }
    }
}

/// The indices of the non-player blueprints of a level, in order.
pub open spec fn spec_enemy_indices(ships: Seq<ShipBlueprint>) -> Seq<int>
    decreases ships.len(),
{
    if ships.len() == 0 {
        Seq::empty()
    } else {
        let prior = spec_enemy_indices(ships.drop_last());
        if !ships.last().player {
            prior.push(ships.len() - 1)
        } else {
            prior
        }
    }
}

/// Partition a level's blueprints: which spawn now as player ships
/// (at the origin), and which go to the enemy pool for later
/// reinforcement, each side in level order.
pub fn spawn_level(level: &LevelBlueprint) -> (out: (Vec<usize>, Vec<usize>))
    ensures
        out.0@.map_values(|v: usize| v as int) == spec_player_indices(level.ships@),
        out.1@.map_values(|v: usize| v as int) == spec_enemy_indices(level.ships@),
{
    let mut players: Vec<usize> = Vec::new();
    let mut enemies: Vec<usize> = Vec::new();
    let n = level.ships.len();
    let mut i: usize = 0;
    while i < n
        invariant
            n == level.ships@.len(),
            i <= n,
            players@.map_values(|v: usize| v as int) == spec_player_indices(
                level.ships@.take(i as int),
            ),
            enemies@.map_values(|v: usize| v as int) == spec_enemy_indices(
                level.ships@.take(i as int),
            ),
        decreases n - i,
    {
        if level.ships[i].player {
            players.push(i);
        } else {
            enemies.push(i);
        }
        proof {
            assert(level.ships@.take(i + 1int).drop_last() =~= level.ships@.take(i as int));
            assert(level.ships@.take(i + 1int).last() == level.ships@[i as int]);
            assert(players@.map_values(|v: usize| v as int) =~= spec_player_indices(
                level.ships@.take(i + 1int),
            ));
            assert(enemies@.map_values(|v: usize| v as int) =~= spec_enemy_indices(
                level.ships@.take(i + 1int),
            ));
        }
        i = i + 1;
    }
    proof {
        assert(level.ships@.take(n as int) =~= level.ships@);
    }
    (players, enemies)
}

/// Advance the reinforcement timer and, when it runs out over a
/// non-empty pool, draw which blueprint spawns and where: a uniform
/// pick from the pool, at a uniform spot in the spawn square.  The
/// timer restarts only when a reinforcement actually spawns.
pub fn spawn_enemies(wait_ms: &mut i64, dt_ms: i64, pool_len: usize) -> (r: Option<(usize, Vec2I)>)
    requires
        0 <= *old(wait_ms) <= 100_000_000,
        0 <= dt_ms <= 1_000_000,
        pool_len < 1_000_000,
    ensures
        *old(wait_ms) + dt_ms < ENEMY_SPAWN_INTERVAL_MS ==> {
            &&& r is None
            &&& *final(wait_ms) == *old(wait_ms) + dt_ms
        },
        *old(wait_ms) + dt_ms >= ENEMY_SPAWN_INTERVAL_MS && pool_len == 0 ==> {
            &&& r is None
            &&& *final(wait_ms) == *old(wait_ms) + dt_ms
        },
        *old(wait_ms) + dt_ms >= ENEMY_SPAWN_INTERVAL_MS && pool_len > 0 ==> {
            &&& *final(wait_ms) == 0
            &&& match r {
                Some((idx, pos)) => {
                    &&& idx < pool_len
                    &&& -ENEMY_SPAWN_SPREAD_MILLI <= pos.x < ENEMY_SPAWN_SPREAD_MILLI
                    &&& -ENEMY_SPAWN_SPREAD_MILLI <= pos.y < ENEMY_SPAWN_SPREAD_MILLI
                },
                None => false,
            }
        },
{
    *wait_ms = *wait_ms + dt_ms;
    if *wait_ms < ENEMY_SPAWN_INTERVAL_MS {
        return None;
    }
    if pool_len == 0 {
        return None;
    }
    let idx = sample_range(0, pool_len as i64) as usize;
    let x = sample_range(-ENEMY_SPAWN_SPREAD_MILLI, ENEMY_SPAWN_SPREAD_MILLI);
    let y = sample_range(-ENEMY_SPAWN_SPREAD_MILLI, ENEMY_SPAWN_SPREAD_MILLI);
    *wait_ms = 0;
    Some((idx, Vec2I { x, y }))
}

} // verus!
