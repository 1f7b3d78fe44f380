//! The player's triggered weapons: railguns and missile salvos.
//!
//! Both are cooldown-gated.  The railgun is deterministic: each
//! directional input event while the cooldown is spent spawns one
//! high-speed rail toward the aimed point.  A missile salvo fans its
//! missiles out around the player's heading and assigns each a fire
//! target drawn from the marked set; speeds, activation delays and
//! origin jitter are drawn too, and everything downstream of the
//! draws is verified for every value they can take.

use vstd::prelude::*;

use crate::angle::{is_heading, spec_wrap_step, wrap_step};
use crate::components::{MissileCooldown, PlayerSettings, Side};
use crate::events::{ProjectileKind, ProjectileSpawn};
use crate::math::{spec_dir_scaled, spec_mul_div, Vec2I};
use crate::rng::sample_range;

verus! {

/// Muzzle speed of a rail, milli-units per tick.
pub const RAIL_SPEED_MILLI: i64 = 4_000;

/// Muzzle speed band of a missile, milli-units per tick.
pub const MISSILE_SPEED_MIN_MILLI: i64 = 5_000;

/// Upper end (exclusive) of the missile speed band.
pub const MISSILE_SPEED_MAX_MILLI: i64 = 5_500;

/// Activation-window band of a missile, milliseconds.
pub const MISSILE_ACTIVATION_MIN_MS: i64 = 500;

/// Upper end (exclusive) of the missile activation band.
pub const MISSILE_ACTIVATION_MAX_MS: i64 = 950;

/// Fan angle between consecutive missiles of a salvo at full missile
/// angle, millidegrees.
pub const MISSILE_FAN_MILLIDEG: i64 = 3_988;

/// Origin jitter of a missile lies in `[0, MISSILE_ORIGIN_JITTER)`.
pub const MISSILE_ORIGIN_JITTER_MILLI: i64 = 500;

/// The rail one directional input spawns: from the player's position,
/// flying at rail speed toward the aimed point one hundred units
/// along the input direction.
pub open spec fn spec_rail_shot(player_pos: Vec2I, dir: Vec2I) -> ProjectileSpawn {
    let offset = Vec2I {
        x: spec_mul_div(dir.x as int, 100_000int, 1000int) as i64,
        y: spec_mul_div(dir.y as int, 100_000int, 1000int) as i64,
    };
    let v = spec_dir_scaled(offset, RAIL_SPEED_MILLI);
    ProjectileSpawn {
        kind: ProjectileKind::Rail,
        origin: player_pos,
        vel: Vec2I { x: v.0 as i64, y: v.1 as i64 },
        heading_millideg: 0,
        speed_milli: RAIL_SPEED_MILLI,
        activation_ms: None,
        fadeout_decay: 25,
        side: Side::Player,
        spatial_radius: 1_000,
        scale_milli: 250,
        target: None,
    }
}

/// Fire the railguns for one tick.  While the cooldown runs it only
/// counts down and nothing spawns; once spent, every directional
/// input event fires exactly the rail `spec_rail_shot` describes and
/// the cooldown restarts.
pub fn fire_railguns(
    wait_ms: &mut i64,
    settings: &PlayerSettings,
    player_pos: Vec2I,
    dirs: &Vec<Vec2I>,
    dt_ms: i64,
) -> (out: Vec<ProjectileSpawn>)
    requires
        settings.wf(),
        player_pos.in_combat_bounds(),
        0 <= dt_ms <= 1_000_000,
        -2_000_000 <= *old(wait_ms) <= 2_000_000,
        forall|i: int| 0 <= i < dirs@.len() ==> {
            let d = #[trigger] dirs@[i];
            -2_000 <= d.x <= 2_000 && -2_000 <= d.y <= 2_000
        },
    ensures
        *old(wait_ms) > 0 ==> {
            &&& *final(wait_ms) == *old(wait_ms) - dt_ms
            &&& out@.len() == 0
        },
        *old(wait_ms) <= 0 ==> {
            &&& *final(wait_ms) == settings.railgun_cooldown_ms
            &&& out@.len() == dirs@.len()
            &&& forall|k: int| 0 <= k < dirs@.len() ==> #[trigger] out@[k] == spec_rail_shot(
                player_pos,
                dirs@[k],
            )
        },
{
    if *wait_ms > 0 {
        *wait_ms = *wait_ms - dt_ms;
        return Vec::new();
    }
    let mut out: Vec<ProjectileSpawn> = Vec::new();
    let n = dirs.len();
    let mut i: usize = 0;
    while i < n
        invariant
            n == dirs@.len(),
            i <= n,
            player_pos.in_combat_bounds(),
            forall|j: int| 0 <= j < n ==> {
                let d = #[trigger] dirs@[j];
                -2_000 <= d.x <= 2_000 && -2_000 <= d.y <= 2_000
            },
            out@.len() == i,
            forall|k: int| 0 <= k < i ==> #[trigger] out@[k] == spec_rail_shot(
                player_pos,
                dirs@[k],
            ),
        decreases n - i,
    {
        let d = dirs[i];
        let offset = d.scaled_milli(100_000);
        proof {
            crate::math::lemma_mul_div_bound(d.x as int, 100_000int, 2_000int, 100_000int);
            crate::math::lemma_mul_div_bound(d.y as int, 100_000int, 2_000int, 100_000int);
        }
        let v = crate::math::dir_scaled(offset, RAIL_SPEED_MILLI);
        out.push(
            ProjectileSpawn {
                kind: ProjectileKind::Rail,
                origin: player_pos,
                vel: v,
                heading_millideg: 0,
                speed_milli: RAIL_SPEED_MILLI,
                activation_ms: None,
                fadeout_decay: 25,
                side: Side::Player,
                spatial_radius: 1_000,
                scale_milli: 250,
                target: None,
            },
        );
        i = i + 1;
    }
    *wait_ms = settings.railgun_cooldown_ms;
    out
}

/// The random inputs one missile consumes.
#[derive(Clone, Copy, PartialEq, Eq, Structural, Debug)]
pub struct MissileDraw {
    pub origin_jitter: i64,
    pub speed_milli: i64,
    pub activation_ms: i64,
    pub pick: usize,
}

impl MissileDraw {
    /// Each drawn value sits in the band its sampler promises, and
    /// the target pick indexes the marked set when one exists.
    pub open spec fn wf(self, targets_len: nat) -> bool {
        &&& 0 <= self.origin_jitter < MISSILE_ORIGIN_JITTER_MILLI
        &&& MISSILE_SPEED_MIN_MILLI <= self.speed_milli < MISSILE_SPEED_MAX_MILLI
        &&& MISSILE_ACTIVATION_MIN_MS <= self.activation_ms < MISSILE_ACTIVATION_MAX_MS
        &&& targets_len > 0 ==> self.pick < targets_len
    }
}

/// The fan step between consecutive missiles of a salvo.
pub open spec fn spec_fan_step(settings: PlayerSettings) -> int {
    spec_mul_div(MISSILE_FAN_MILLIDEG as int, settings.missile_angle_milli as int, 1000int)
}

/// The heading of the `i`-th missile: the player's heading rotated by
/// `i` fan steps.
pub open spec fn spec_fan_heading(base: i64, step: i64, i: nat) -> int
    decreases i,
{
    if i == 0 {
        base as int
    } else {
        spec_wrap_step(spec_fan_heading(base, step, (i - 1) as nat) as i64, step as int)
    }
}

/// The `i`-th missile of a salvo: launched beside the player (five
/// units to the right of the facing, plus the drawn jitter), fanned
/// `i` steps off the player's heading, at the drawn speed and
/// activation delay, homing toward the drawn pick among the fire
/// targets when any are marked.
pub open spec fn spec_missile_shot(
    player_pos: Vec2I,
    forward: Vec2I,
    heading: i64,
    settings: PlayerSettings,
    fire_targets: Seq<u64>,
    d: MissileDraw,
    i: nat,
) -> ProjectileSpawn {
    ProjectileSpawn {
        kind: ProjectileKind::Missile,
        origin: Vec2I {
            x: (player_pos.x + spec_mul_div(forward.y as int, 5_000int, 1000int)
                + d.origin_jitter) as i64,
            y: (player_pos.y + spec_mul_div(-(forward.x as int), 5_000int, 1000int)
                + d.origin_jitter) as i64,
        },
        vel: Vec2I { x: 0, y: 0 },
        heading_millideg: spec_fan_heading(
            heading,
            spec_fan_step(settings) as i64,
            i,
        ) as i64,
        speed_milli: d.speed_milli,
        activation_ms: Some(d.activation_ms),
        fadeout_decay: settings.missile_fadeout_decay,
        side: Side::Player,
        spatial_radius: 3_000,
        scale_milli: 1_000,
        target: if fire_targets.len() > 0 {
            Some(fire_targets[d.pick as int])
        } else {
            None
        },
    }
}

/// Build one salvo from explicit draws: exactly one missile per draw,
/// the `i`-th being `spec_missile_shot` for index `i`.
pub fn missile_salvo(
    player_pos: Vec2I,
    forward: Vec2I,
    heading: i64,
    settings: &PlayerSettings,
    fire_targets: &Vec<u64>,
    draws: &Vec<MissileDraw>,
) -> (out: Vec<ProjectileSpawn>)
    requires
        player_pos.in_combat_bounds(),
        -2_000 <= forward.x <= 2_000,
        -2_000 <= forward.y <= 2_000,
        is_heading(heading),
        settings.wf(),
        forall|i: int| 0 <= i < draws@.len() ==> (#[trigger] draws@[i]).wf(fire_targets@.len()),
    ensures
        out@.len() == draws@.len(),
        forall|i: int| 0 <= i < draws@.len() ==> #[trigger] out@[i] == spec_missile_shot(
            player_pos,
            forward,
            heading,
            *settings,
            fire_targets@,
            draws@[i],
            i as nat,
        ),
{
    let fan: i64 = crate::math::mul_div_milli(MISSILE_FAN_MILLIDEG, settings.missile_angle_milli);
    proof {
        crate::math::lemma_mul_div_bound(
            MISSILE_FAN_MILLIDEG as int,
            settings.missile_angle_milli as int,
            4000int,
            10_000int,
        );
    }
    let right = Vec2I { x: forward.y, y: -forward.x };
    let lateral = right.scaled_milli(5_000);
    proof {
        crate::math::lemma_mul_div_bound(forward.y as int, 5_000int, 2_000int, 5_000int);
        crate::math::lemma_mul_div_bound(-(forward.x as int), 5_000int, 2_000int, 5_000int);
    }
    let mut out: Vec<ProjectileSpawn> = Vec::new();
    let n = draws.len();
    let mut cur: i64 = heading;
    let mut i: usize = 0;
    while i < n
        invariant
            n == draws@.len(),
            i <= n,
            player_pos.in_combat_bounds(),
            -2_000 <= forward.x <= 2_000,
            -2_000 <= forward.y <= 2_000,
            is_heading(heading),
            settings.wf(),
            forall|j: int| 0 <= j < n ==> (#[trigger] draws@[j]).wf(fire_targets@.len()),
            fan == spec_fan_step(*settings),
            0 <= fan <= 40_000,
            lateral.x == spec_mul_div(forward.y as int, 5_000int, 1000int),
            lateral.y == spec_mul_div(-(forward.x as int), 5_000int, 1000int),
            -10_000 <= lateral.x <= 10_000,
            -10_000 <= lateral.y <= 10_000,
            cur == spec_fan_heading(heading, fan, i as nat),
            is_heading(cur),
            out@.len() == i,
            forall|j: int| 0 <= j < i ==> #[trigger] out@[j] == spec_missile_shot(
                player_pos,
                forward,
                heading,
                *settings,
                fire_targets@,
                draws@[j],
                j as nat,
            ),
        decreases n - i,
    {
        let d = draws[i];
        let target: Option<u64> = if fire_targets.len() > 0 {
            Some(fire_targets[d.pick])
        } else {
            None
        };
        out.push(
            ProjectileSpawn {
                kind: ProjectileKind::Missile,
                origin: Vec2I {
                    x: player_pos.x + lateral.x + d.origin_jitter,
                    y: player_pos.y + lateral.y + d.origin_jitter,
                },
                vel: Vec2I { x: 0, y: 0 },
                heading_millideg: cur,
                speed_milli: d.speed_milli,
                activation_ms: Some(d.activation_ms),
                fadeout_decay: settings.missile_fadeout_decay,
                side: Side::Player,
                spatial_radius: 3_000,
                scale_milli: 1_000,
                target,
            },
        );
        cur = wrap_step(cur, fan);
        i = i + 1;
    }
    out
}

/// The properties every missile of a player salvo has, whatever the
/// draws came to.
pub open spec fn spec_is_player_missile(
    p: ProjectileSpawn,
    settings: PlayerSettings,
    fire_targets: Seq<u64>,
) -> bool {
    &&& p.kind == ProjectileKind::Missile
    &&& p.side == Side::Player
    &&& p.fadeout_decay == settings.missile_fadeout_decay
    &&& p.spatial_radius == 3_000
    &&& p.scale_milli == 1_000
    &&& MISSILE_SPEED_MIN_MILLI <= p.speed_milli < MISSILE_SPEED_MAX_MILLI
    &&& match p.activation_ms {
        Some(a) => MISSILE_ACTIVATION_MIN_MS <= a < MISSILE_ACTIVATION_MAX_MS,
        None => false,
    }
    &&& match p.target {
        Some(t) => fire_targets.contains(t),
        None => fire_targets.len() == 0,
    }
}

/// Where the `i`-th missile of a salvo sits and points, whatever was
/// drawn: its heading is the player's fanned by `i` steps, and its
/// launch origin is the player's position offset five units to the
/// right of the facing plus one origin-jitter draw, the same on both
/// axes.
pub open spec fn spec_salvo_missile_placed(
    p: ProjectileSpawn,
    player_pos: Vec2I,
    forward: Vec2I,
    heading: i64,
    settings: PlayerSettings,
    i: int,
) -> bool {
    let dx = p.origin.x - (player_pos.x + spec_mul_div(forward.y as int, 5_000int, 1000int));
    let dy = p.origin.y - (player_pos.y + spec_mul_div(-(forward.x as int), 5_000int, 1000int));
    &&& p.heading_millideg == spec_fan_heading(
        heading,
        spec_fan_step(settings) as i64,
        i as nat,
    )
    &&& 0 <= dx < MISSILE_ORIGIN_JITTER_MILLI
    &&& dy == dx
}

/// Draw the random inputs of one salvo.
fn draw_salvo(count: u32, targets_len: usize) -> (out: Vec<MissileDraw>)
    requires
        targets_len < 1_000_000,
    ensures
        out@.len() == count,
        forall|i: int| 0 <= i < out@.len() ==> (#[trigger] out@[i]).wf(targets_len as nat),
{
    let mut out: Vec<MissileDraw> = Vec::new();
    let mut i: u32 = 0;
    while i < count
        invariant
            i <= count,
            targets_len < 1_000_000,
            out@.len() == i,
            forall|j: int| 0 <= j < out@.len() ==> (#[trigger] out@[j]).wf(targets_len as nat),
        decreases count - i,
    {
        let pick: usize = if targets_len > 0 {
            sample_range(0, targets_len as i64) as usize
        } else {
            0
        };
        out.push(
            MissileDraw {
                origin_jitter: sample_range(0, MISSILE_ORIGIN_JITTER_MILLI),
                speed_milli: sample_range(MISSILE_SPEED_MIN_MILLI, MISSILE_SPEED_MAX_MILLI),
                activation_ms: sample_range(MISSILE_ACTIVATION_MIN_MS, MISSILE_ACTIVATION_MAX_MS),
                pick,
            },
        );
        i = i + 1;
    }
    out
}

/// Fire the player's missiles for one tick.  While the cooldown runs
/// nothing happens; once spent, each queued fire event launches one
/// full salvo and the cooldown restarts.  Whatever the draws came to,
/// every spawned projectile is a player missile homing at a marked
/// fire target (or unguided when none is marked).
pub fn player_fire_missiles(
    cooldown: &mut MissileCooldown,
    settings: &PlayerSettings,
    player_pos: Vec2I,
    forward: Vec2I,
    heading: i64,
    fire_targets: &Vec<u64>,
    fire_events: usize,
) -> (out: Vec<ProjectileSpawn>)
    requires
        player_pos.in_combat_bounds(),
        -2_000 <= forward.x <= 2_000,
        -2_000 <= forward.y <= 2_000,
        is_heading(heading),
        settings.wf(),
        fire_targets@.len() < 1_000_000,
    ensures
        old(cooldown).0 > 0 ==> {
            &&& *final(cooldown) == *old(cooldown)
            &&& out@.len() == 0
        },
        old(cooldown).0 <= 0 ==> {
            &&& final(cooldown).0 == settings.missile_cooldown_ms
            &&& out@.len() == fire_events * settings.missile_count
            &&& forall|k: int| 0 <= k < out@.len() ==> spec_is_player_missile(
                #[trigger] out@[k],
                *settings,
                fire_targets@,
            )
            &&& forall|k: int| 0 <= k < out@.len() ==> spec_salvo_missile_placed(
                #[trigger] out@[k],
                player_pos,
                forward,
                heading,
                *settings,
                k % (settings.missile_count as int),
            )
        },
{
    if cooldown.0 > 0 {
        return Vec::new();
    }
    let mut out: Vec<ProjectileSpawn> = Vec::new();
    let mut e: usize = 0;
    while e < fire_events
        invariant
            e <= fire_events,
            player_pos.in_combat_bounds(),
            -2_000 <= forward.x <= 2_000,
            -2_000 <= forward.y <= 2_000,
            is_heading(heading),
            settings.wf(),
            fire_targets@.len() < 1_000_000,
            out@.len() == e * settings.missile_count,
            forall|k: int| 0 <= k < out@.len() ==> spec_is_player_missile(
                #[trigger] out@[k],
                *settings,
                fire_targets@,
            ),
            forall|k: int| 0 <= k < out@.len() ==> spec_salvo_missile_placed(
                #[trigger] out@[k],
                player_pos,
                forward,
                heading,
                *settings,
                k % (settings.missile_count as int),
            ),
        decreases fire_events - e,
    {
        let draws = draw_salvo(settings.missile_count, fire_targets.len());
        proof {
            assert((e + 1) * settings.missile_count == e * settings.missile_count
                + settings.missile_count) by (nonlinear_arith);
        }
        let mut salvo = missile_salvo(player_pos, forward, heading, settings, fire_targets, &draws);
        proof {
            assert forall|k: int| 0 <= k < salvo@.len() implies spec_is_player_missile(
                #[trigger] salvo@[k],
                *settings,
                fire_targets@,
            ) && spec_salvo_missile_placed(
                #[trigger] salvo@[k],
                player_pos,
                forward,
                heading,
                *settings,
                k,
            ) by {
                assert(salvo@[k] == spec_missile_shot(
                    player_pos,
                    forward,
                    heading,
                    *settings,
                    fire_targets@,
                    draws@[k],
                    k as nat,
                ));
                assert(draws@[k].wf(fire_targets@.len()));
            }
        }
        let ghost out_pre = out@;
        let ghost salvo_v = salvo@;
        out.append(&mut salvo);
        proof {
            let c = settings.missile_count as int;
            assert forall|k: int| 0 <= k < out@.len() implies spec_salvo_missile_placed(
                #[trigger] out@[k],
                player_pos,
                forward,
                heading,
                *settings,
                k % c,
            ) by {
                if k < out_pre.len() {
                    assert(out@[k] == out_pre[k]);
                } else {
                    let i = k - out_pre.len();
                    assert(out@[k] == salvo_v[i]);
                    assert(out_pre.len() == e * c);
                    assert(salvo_v.len() == c);
                    assert(0 <= i < c);
                    assert(k == c * (e as int) + i) by (nonlinear_arith)
                        requires
                            k == e * c + i,
                    ;
                    vstd::arithmetic::div_mod::lemma_mod_multiples_vanish(e as int, i, c);
                    assert((c * (e as int) + i) % c == i % c);
                    vstd::arithmetic::div_mod::lemma_small_mod(i as nat, c as nat);
                    assert(k % c == i);
                }
            }
        }
        e = e + 1;
    }
    cooldown.0 = settings.missile_cooldown_ms;
    out
}

/// Count the player's missile cooldown down by the elapsed time.
pub fn player_missile_cooldown(cooldown: &mut MissileCooldown, dt_ms: i64)
    requires
        -1_000_000_000 <= old(cooldown).0 <= 1_000_000_000,
        0 <= dt_ms <= 1_000_000,
    ensures
        final(cooldown).0 == old(cooldown).0 - dt_ms,
{
    cooldown.0 = cooldown.0 - dt_ms;
}

} // verus!
