//! Weapon fire control: the point-defense heat machine, its bursts,
//! the player's railgun and missile salvos.
//!
//! A point-defense mount is gated by its sign-encoded heat.  While the
//! heat is non-negative the mount is ready: every fire opportunity
//! adds the elapsed time to the heat and spawns a slug, and the
//! opportunity that would push the heat past its limit resets it to
//! the cooldown value exactly.  While the heat is negative the mount
//! only warms back toward zero and never fires.  Stochastic inputs
//! (fire-rate throttling, aim jitter, target picks) are drawn through
//! the core's random sampler; everything downstream of a draw is
//! verified for every value the draw can take.

use vstd::prelude::*;

use crate::components::{BulletPod, Side, POD_COOLDOWN_HEAT, POD_HEAT_LIMIT};
use crate::events::{ProjectileKind, ProjectileSpawn};
use crate::flight::spec_sum;
use crate::math::{spec_dir_scaled, spec_dist_sq, Vec2I};
use crate::rng::sample_range;

verus! {

/// Shots in one full point-defense burst.
pub const BURST_SIZE: usize = 10;

/// Activation stagger between consecutive burst shots, milliseconds.
pub const SHOT_STAGGER_MS: i64 = 50;

/// Muzzle speed of a point-defense slug, milli-units per tick.
pub const SLUG_SPEED_MILLI: i64 = 2_500;

/// Aim jitter drawn per shot lies in `[-AIM_JITTER, AIM_JITTER)`.
pub const AIM_JITTER_MILLI: i64 = 2_000;

/// Origin jitter drawn per shot lies in `[0, ORIGIN_JITTER)`.
pub const ORIGIN_JITTER_MILLI: i64 = 500;

/// Chance in percent that a ready mount skips a fire opportunity
/// against the player, keeping enemy fire sparse.
pub const PDC_SKIP_PERCENT: i64 = 80;

/// One tick of the mount's heat machine at a fire opportunity:
/// a cooling mount is untouched, a ready mount heats by the elapsed
/// time and trips to the cooldown value when it would pass the limit.
pub open spec fn spec_pod_fire_step(heat: int, dt: int) -> int {
    if heat < 0 {
        heat
    } else if heat + dt > POD_HEAT_LIMIT {
        POD_COOLDOWN_HEAT as int
    } else {
        heat + dt
    }
}

/// A ready mount fires at an opportunity; a cooling one never does.
pub open spec fn spec_pod_fires(heat: int) -> bool {
    heat >= 0
}

/// The slug one fire opportunity spawns: aimed at the target's
/// predicted position (its position plus its velocity) with the drawn
/// jitter, flying at slug speed from the mount, with the given
/// activation delay and a short fade.
pub open spec fn spec_shot(
    pdc_pos: Vec2I,
    target_pos: Vec2I,
    target_vel: Vec2I,
    jx: i64,
    jy: i64,
    oj: i64,
    activation_ms: i64,
) -> ProjectileSpawn {
    let aim = Vec2I {
        x: (target_pos.x + target_vel.x + jx) as i64,
        y: (target_pos.y + target_vel.y + jy) as i64,
    };
    let dir = Vec2I { x: (aim.x - pdc_pos.x) as i64, y: (aim.y - pdc_pos.y) as i64 };
    let v = spec_dir_scaled(dir, SLUG_SPEED_MILLI);
    ProjectileSpawn {
        kind: ProjectileKind::PDCSlug,
        origin: Vec2I { x: (pdc_pos.x + oj) as i64, y: (pdc_pos.y + oj) as i64 },
        vel: Vec2I { x: v.0 as i64, y: v.1 as i64 },
        heading_millideg: 0,
        speed_milli: SLUG_SPEED_MILLI,
        activation_ms: Some(activation_ms),
        fadeout_decay: 5,
        side: Side::Enemy,
        spatial_radius: 1_000,
        scale_milli: 330,
        target: None,
    }
}

/// One fire opportunity of a mount aimed at a (predicted) target
/// position: a ready mount heats, maybe trips, and fires exactly the
/// slug `spec_shot` describes; a cooling mount does nothing.
pub fn fire_artillery_at(
    pod: &mut BulletPod,
    dt_ms: i64,
    pdc_pos: Vec2I,
    target_pos: Vec2I,
    target_vel: Vec2I,
    jx: i64,
    jy: i64,
    oj: i64,
    activation_ms: i64,
) -> (shot: Option<ProjectileSpawn>)
    requires
        old(pod).wf(),
        0 <= dt_ms <= 1_000_000,
        pdc_pos.in_combat_bounds(),
        target_pos.in_combat_bounds(),
        -100_000_000 <= target_vel.x <= 100_000_000,
        -100_000_000 <= target_vel.y <= 100_000_000,
        -AIM_JITTER_MILLI <= jx <= AIM_JITTER_MILLI,
        -AIM_JITTER_MILLI <= jy <= AIM_JITTER_MILLI,
        0 <= oj < ORIGIN_JITTER_MILLI,
        0 <= activation_ms <= 2_000_000,
    ensures
        final(pod).range == old(pod).range,
        final(pod).wf(),
        final(pod).heat == spec_pod_fire_step(old(pod).heat as int, dt_ms as int),
        old(pod).heat >= 0 ==> shot == Some(
            spec_shot(pdc_pos, target_pos, target_vel, jx, jy, oj, activation_ms),
        ),
        old(pod).heat < 0 ==> shot is None,
{
    if pod.heat < 0 {
        return None;
    }
    pod.heat = pod.heat + dt_ms;
    if pod.heat > POD_HEAT_LIMIT {
        pod.heat = POD_COOLDOWN_HEAT;
    }
    let aim = Vec2I { x: target_pos.x + target_vel.x + jx, y: target_pos.y + target_vel.y + jy };
    let dir = aim.minus(pdc_pos);
    let v = crate::math::dir_scaled(dir, SLUG_SPEED_MILLI);
    Some(
        ProjectileSpawn {
            kind: ProjectileKind::PDCSlug,
            origin: Vec2I { x: pdc_pos.x + oj, y: pdc_pos.y + oj },
            vel: v,
            heading_millideg: 0,
            speed_milli: SLUG_SPEED_MILLI,
            activation_ms: Some(activation_ms),
            fadeout_decay: 5,
            side: Side::Enemy,
            spatial_radius: 1_000,
            scale_milli: 330,
            target: None,
        },
    )
}

/// The heat after `k` consecutive fire opportunities.
pub open spec fn spec_burst_heat(heat: int, dt: int, k: nat) -> int
    decreases k,
{
    if k == 0 {
        heat
    } else {
        spec_burst_heat(spec_pod_fire_step(heat, dt), dt, (k - 1) as nat)
    }
}

/// How many of `k` consecutive fire opportunities actually fire.
pub open spec fn spec_burst_count(heat: int, dt: int, k: nat) -> int
    decreases k,
{
    if k == 0 {
        0
    } else {
        (if spec_pod_fires(heat) {
            1int
        } else {
            0int
        }) + spec_burst_count(spec_pod_fire_step(heat, dt), dt, (k - 1) as nat)
    }
}

/// Fire one point-defense burst: up to `BURST_SIZE` consecutive fire
/// opportunities at the same target, the `j`-th shot staggered by
/// `j * SHOT_STAGGER_MS` of activation delay and jittered by the
/// `j`-th drawn jitter triple.  The mount's heat moves exactly as the
/// opportunity machine dictates, and the shots that come out are
/// exactly the first `spec_burst_count` of the described slugs.
pub fn pdc_burst(
    pod: &mut BulletPod,
    dt_ms: i64,
    pdc_pos: Vec2I,
    target_pos: Vec2I,
    target_vel: Vec2I,
    jitters: &Vec<(i64, i64, i64)>,
) -> (shots: Vec<ProjectileSpawn>)
    requires
        old(pod).wf(),
        0 <= dt_ms <= 1_000_000,
        pdc_pos.in_combat_bounds(),
        target_pos.in_combat_bounds(),
        -100_000_000 <= target_vel.x <= 100_000_000,
        -100_000_000 <= target_vel.y <= 100_000_000,
        jitters@.len() == BURST_SIZE,
        forall|j: int| 0 <= j < jitters@.len() ==> {
            let t = #[trigger] jitters@[j];
            &&& -AIM_JITTER_MILLI <= t.0 <= AIM_JITTER_MILLI
            &&& -AIM_JITTER_MILLI <= t.1 <= AIM_JITTER_MILLI
            &&& 0 <= t.2 < ORIGIN_JITTER_MILLI
        },
    ensures
        final(pod).range == old(pod).range,
        final(pod).wf(),
        final(pod).heat == spec_burst_heat(old(pod).heat as int, dt_ms as int, BURST_SIZE as nat),
        shots@.len() == spec_burst_count(old(pod).heat as int, dt_ms as int, BURST_SIZE as nat),
        forall|j: int| 0 <= j < shots@.len() ==> #[trigger] shots@[j] == spec_shot(
            pdc_pos,
            target_pos,
            target_vel,
            jitters@[j].0,
            jitters@[j].1,
            jitters@[j].2,
            (j * SHOT_STAGGER_MS) as i64,
        ),
        shots@ == spec_burst_shots(
            old(pod).heat as int,
            dt_ms as int,
            pdc_pos,
            target_pos,
            target_vel,
            jitters@,
        ),
{
    let mut shots: Vec<ProjectileSpawn> = Vec::new();
    let mut i: usize = 0;
    while i < BURST_SIZE
        invariant
            old(pod).wf(),
            pod.wf(),
            pod.range == old(pod).range,
            0 <= dt_ms <= 1_000_000,
            pdc_pos.in_combat_bounds(),
            target_pos.in_combat_bounds(),
            -100_000_000 <= target_vel.x <= 100_000_000,
            -100_000_000 <= target_vel.y <= 100_000_000,
            jitters@.len() == BURST_SIZE,
            forall|j: int| 0 <= j < jitters@.len() ==> {
                let t = #[trigger] jitters@[j];
                &&& -AIM_JITTER_MILLI <= t.0 <= AIM_JITTER_MILLI
                &&& -AIM_JITTER_MILLI <= t.1 <= AIM_JITTER_MILLI
                &&& 0 <= t.2 < ORIGIN_JITTER_MILLI
            },
            i <= BURST_SIZE,
            pod.heat == spec_burst_heat(old(pod).heat as int, dt_ms as int, i as nat),
            shots@.len() == spec_burst_count(old(pod).heat as int, dt_ms as int, i as nat),
            shots@.len() <= i,
            pod.heat >= 0 ==> shots@.len() == i,
            forall|j: int| 0 <= j < shots@.len() ==> #[trigger] shots@[j] == spec_shot(
                pdc_pos,
                target_pos,
                target_vel,
                jitters@[j].0,
                jitters@[j].1,
                jitters@[j].2,
                (j * SHOT_STAGGER_MS) as i64,
            ),
        decreases BURST_SIZE - i,
    {
        proof {
            lemma_burst_step(old(pod).heat as int, dt_ms as int, i as nat);
        }
        let jt = jitters[i];
        let activation = (i as i64) * SHOT_STAGGER_MS;
        let shot = fire_artillery_at(
            pod,
            dt_ms,
            pdc_pos,
            target_pos,
            target_vel,
            jt.0,
            jt.1,
            jt.2,
            activation,
        );
        match shot {
            Some(s) => {
                shots.push(s);
            },
            None => {},
        }
        i = i + 1;
    }
    proof {
        assert(shots@ =~= spec_burst_shots(
            old(pod).heat as int,
            dt_ms as int,
            pdc_pos,
            target_pos,
            target_vel,
            jitters@,
        ));
    }
    shots
}

/// Unrolling the burst recursions one step from the front: the heat
/// and count after `k + 1` opportunities are the step applied to the
/// values after `k`.
pub proof fn lemma_burst_step(heat: int, dt: int, k: nat)
    ensures
        spec_burst_heat(heat, dt, (k + 1) as nat) == spec_pod_fire_step(
            spec_burst_heat(heat, dt, k),
            dt,
        ),
        spec_burst_count(heat, dt, (k + 1) as nat) == spec_burst_count(heat, dt, k) + (
        if spec_pod_fires(spec_burst_heat(heat, dt, k)) {
            1int
        } else {
            0int
        }),
    decreases k,
{
    if k == 0 {
        assert(spec_burst_heat(heat, dt, 1nat) == spec_burst_heat(
            spec_pod_fire_step(heat, dt),
            dt,
            0nat,
        ));
        assert(spec_burst_count(heat, dt, 1nat) == (if spec_pod_fires(heat) {
            1int
        } else {
            0int
        }) + spec_burst_count(spec_pod_fire_step(heat, dt), dt, 0nat));
    } else {
        lemma_burst_step(spec_pod_fire_step(heat, dt), dt, (k - 1) as nat);
        assert(spec_burst_heat(heat, dt, (k + 1) as nat) == spec_burst_heat(
            spec_pod_fire_step(heat, dt),
            dt,
            k,
        ));
        assert(spec_burst_count(heat, dt, (k + 1) as nat) == (if spec_pod_fires(heat) {
            1int
        } else {
            0int
        }) + spec_burst_count(spec_pod_fire_step(heat, dt), dt, k));
    }
}

/// The shots one burst leaves: the first `spec_burst_count` of the
/// described slugs, the `j`-th jittered by the `j`-th triple and
/// staggered by `j` shot-staggers.
pub open spec fn spec_burst_shots(
    heat: int,
    dt: int,
    pdc_pos: Vec2I,
    target_pos: Vec2I,
    target_vel: Vec2I,
    jitters: Seq<(i64, i64, i64)>,
) -> Seq<ProjectileSpawn> {
    Seq::new(
        spec_burst_count(heat, dt, BURST_SIZE as nat) as nat,
        |j: int|
            spec_shot(
                pdc_pos,
                target_pos,
                target_vel,
                jitters[j].0,
                jitters[j].1,
                jitters[j].2,
                (j * SHOT_STAGGER_MS) as i64,
            ),
    )
}

/// An overheating opportunity resets the heat to the cooldown value
/// exactly: from any ready heat, the evaluation that would push it
/// past the limit yields `POD_COOLDOWN_HEAT`, and the mount is then
/// cooling.
pub proof fn lemma_pod_trips(heat: int, dt: int)
    requires
        0 <= heat,
        heat + dt > POD_HEAT_LIMIT,
    ensures
        spec_pod_fire_step(heat, dt) == POD_COOLDOWN_HEAT,
        spec_pod_fire_step(heat, dt) < 0,
{
}

/// One tick of the mount between fire opportunities and cooling: a
/// cooling mount warms by the elapsed time, a ready mount takes the
/// fire opportunity.
pub open spec fn spec_pod_tick(heat: int, dt: int) -> int {
    if heat < 0 {
        heat + dt
    } else {
        spec_pod_fire_step(heat, dt)
    }
}

/// The mount's heat after a run of ticks.
pub open spec fn spec_pod_ticks(heat: int, dts: Seq<i64>) -> int
    decreases dts.len(),
{
    if dts.len() == 0 {
        heat
    } else {
        spec_pod_ticks(spec_pod_tick(heat, dts[0] as int), dts.drop_first())
    }
}

/// Whether any tick of the run starts with a ready mount (and so is
/// granted a fire opportunity).
pub open spec fn spec_pod_any_fire(heat: int, dts: Seq<i64>) -> bool
    decreases dts.len(),
{
    if dts.len() == 0 {
        false
    } else {
        spec_pod_fires(heat) || spec_pod_any_fire(spec_pod_tick(heat, dts[0] as int), dts.drop_first())
    }
}

/// Whether every tick of the run starts with a ready mount.
pub open spec fn spec_pod_all_fire(heat: int, dts: Seq<i64>) -> bool
    decreases dts.len(),
{
    if dts.len() == 0 {
        true
    } else {
        spec_pod_fires(heat) && spec_pod_all_fire(spec_pod_tick(heat, dts[0] as int), dts.drop_first())
    }
}

/// While a mount is cooling, no fire opportunity is granted: from a
/// negative heat, as long as the accumulated elapsed time has not
/// brought the heat back to zero, no tick fires and the heat is
/// exactly the starting heat plus the accumulated time.
pub proof fn lemma_pod_cooldown_locks(heat: int, dts: Seq<i64>)
    requires
        heat < 0,
        forall|i: int| 0 <= i < dts.len() ==> 0 <= #[trigger] dts[i] <= 1_000_000,
        heat + spec_sum(dts) < 0,
    ensures
        !spec_pod_any_fire(heat, dts),
        spec_pod_ticks(heat, dts) == heat + spec_sum(dts),
    decreases dts.len(),
{
    if dts.len() > 0 {
        let rest = dts.drop_first();
        crate::flight::lemma_sum_nonneg(rest);
        lemma_pod_cooldown_locks(heat + dts[0], rest);
    }
}

/// While a ready mount's accumulated heat stays at or below the
/// limit, every tick fires and the heat is exactly the starting heat
/// plus the accumulated elapsed time; the very next opportunity that
/// would exceed the limit then trips to the cooldown value
/// (`lemma_pod_trips`).
pub proof fn lemma_pod_heat_climbs(heat: int, dts: Seq<i64>)
    requires
        0 <= heat,
        forall|i: int| 0 <= i < dts.len() ==> 0 <= #[trigger] dts[i] <= 1_000_000,
        heat + spec_sum(dts) <= POD_HEAT_LIMIT,
    ensures
        spec_pod_all_fire(heat, dts),
        spec_pod_ticks(heat, dts) == heat + spec_sum(dts),
    decreases dts.len(),
{
    if dts.len() > 0 {
        let rest = dts.drop_first();
        crate::flight::lemma_sum_nonneg(rest);
        lemma_pod_heat_climbs(heat + dts[0], rest);
    }
}

/// A point-defense mount on a ship: where it sits and its heat state.
#[derive(Clone, Copy, PartialEq, Eq, Structural, Debug)]
pub struct PodMount {
    pub ship_id: u64,
    pub pos: Vec2I,
    pub pod: BulletPod,
}

/// A missile as point defense sees it: where it is, how it moves, and
/// which ship it is homing toward.
#[derive(Clone, Copy, PartialEq, Eq, Structural, Debug)]
pub struct MissileThreat {
    pub pos: Vec2I,
    pub vel: Vec2I,
    pub target: u64,
}

/// The fields every point-defense slug leaves the mount with.
pub open spec fn spec_is_enemy_slug(p: ProjectileSpawn) -> bool {
    &&& p.kind == ProjectileKind::PDCSlug
    &&& p.side == Side::Enemy
    &&& p.speed_milli == SLUG_SPEED_MILLI
    &&& p.fadeout_decay == 5
    &&& p.spatial_radius == 1_000
    &&& p.scale_milli == 330
    &&& p.target is None
}

/// Draw the ten jitter triples of one burst.
fn draw_jitters() -> (out: Vec<(i64, i64, i64)>)
    ensures
        out@.len() == BURST_SIZE,
        forall|j: int| 0 <= j < out@.len() ==> {
            let t = #[trigger] out@[j];
            &&& -AIM_JITTER_MILLI <= t.0 <= AIM_JITTER_MILLI
            &&& -AIM_JITTER_MILLI <= t.1 <= AIM_JITTER_MILLI
            &&& 0 <= t.2 < ORIGIN_JITTER_MILLI
        },
{
    let mut out: Vec<(i64, i64, i64)> = Vec::new();
    let mut i: usize = 0;
    while i < BURST_SIZE
        invariant
            i <= BURST_SIZE,
            out@.len() == i,
            forall|j: int| 0 <= j < out@.len() ==> {
                let t = #[trigger] out@[j];
                &&& -AIM_JITTER_MILLI <= t.0 <= AIM_JITTER_MILLI
                &&& -AIM_JITTER_MILLI <= t.1 <= AIM_JITTER_MILLI
                &&& 0 <= t.2 < ORIGIN_JITTER_MILLI
            },
        decreases BURST_SIZE - i,
    {
        let jx = sample_range(-AIM_JITTER_MILLI, AIM_JITTER_MILLI);
        let jy = sample_range(-AIM_JITTER_MILLI, AIM_JITTER_MILLI);
        let oj = sample_range(0, ORIGIN_JITTER_MILLI);
        out.push((jx, jy, oj));
        i = i + 1;
    }
    out
}

/// Every jitter triple lies in the aim and origin bands.
pub open spec fn spec_jitters_in_range(jits: Seq<(i64, i64, i64)>) -> bool {
    forall|k: int| 0 <= k < jits.len() ==> {
        let t = #[trigger] jits[k];
        &&& -AIM_JITTER_MILLI <= t.0 <= AIM_JITTER_MILLI
        &&& -AIM_JITTER_MILLI <= t.1 <= AIM_JITTER_MILLI
        &&& 0 <= t.2 < ORIGIN_JITTER_MILLI
    }
}

/// What the anti-player sweep over the mounts comes to: the mounts'
/// new states, the slugs fired, and how many jitter triples the
/// bursts consumed.
pub struct PdcFireStep {
    pub pods: Seq<PodMount>,
    pub shots: Seq<ProjectileSpawn>,
    pub jitters_used: int,
}

/// The anti-player sweep, mounts in order.  A cooling mount warms by
/// the elapsed time.  A ready mount with the player inside its range
/// whose throttle gate opened fires one full burst at the player's
/// position (the player's velocity enters the prediction as zero) and
/// its heat moves exactly as the burst machine dictates, consuming
/// ten jitter triples; any other ready mount holds still.
pub open spec fn spec_pdc_player_phase(
    pods: Seq<PodMount>,
    player: Option<Vec2I>,
    dt: i64,
    gates: Seq<bool>,
    jits: Seq<(i64, i64, i64)>,
) -> PdcFireStep
    decreases pods.len(),
{
    if pods.len() == 0 {
        PdcFireStep { pods: Seq::empty(), shots: Seq::empty(), jitters_used: 0 }
    } else {
        let prior = spec_pdc_player_phase(pods.drop_last(), player, dt, gates.drop_last(), jits);
        let p = pods.last();
        if p.pod.heat < 0 {
            PdcFireStep {
                pods: prior.pods.push(
                    PodMount {
                        ship_id: p.ship_id,
                        pos: p.pos,
                        pod: BulletPod { heat: (p.pod.heat + dt) as i64, range: p.pod.range },
                    },
                ),
                shots: prior.shots,
                jitters_used: prior.jitters_used,
            }
        } else {
            match player {
                Some(pp) => if spec_dist_sq(p.pos, pp) <= p.pod.range * p.pod.range
                    && gates.last() {
                    PdcFireStep {
                        pods: prior.pods.push(
                            PodMount {
                                ship_id: p.ship_id,
                                pos: p.pos,
                                pod: BulletPod {
                                    heat: spec_burst_heat(
                                        p.pod.heat as int,
                                        dt as int,
                                        BURST_SIZE as nat,
                                    ) as i64,
                                    range: p.pod.range,
                                },
                            },
                        ),
                        shots: prior.shots + spec_burst_shots(
                            p.pod.heat as int,
                            dt as int,
                            p.pos,
                            pp,
                            Vec2I { x: 0, y: 0 },
                            jits.subrange(
                                prior.jitters_used,
                                prior.jitters_used + BURST_SIZE as int,
                            ),
                        ),
                        jitters_used: prior.jitters_used + BURST_SIZE as int,
                    }
                } else {
                    PdcFireStep {
                        pods: prior.pods.push(p),
                        shots: prior.shots,
                        jitters_used: prior.jitters_used,
                    }
                },
                None => PdcFireStep {
                    pods: prior.pods.push(p),
                    shots: prior.shots,
                    jitters_used: prior.jitters_used,
                },
            }
        }
    }
}

/// The anti-player sweep never hands back a jitter cursor below its
/// starting point.
proof fn lemma_player_phase_used_nonneg(
    pods: Seq<PodMount>,
    player: Option<Vec2I>,
    dt: i64,
    gates: Seq<bool>,
    jits: Seq<(i64, i64, i64)>,
)
    ensures
        spec_pdc_player_phase(pods, player, dt, gates, jits).jitters_used >= 0,
    decreases pods.len(),
{
    if pods.len() > 0 {
        lemma_player_phase_used_nonneg(pods.drop_last(), player, dt, gates.drop_last(), jits);
    }
}

/// A sweep that stayed within its jitter list gives the same outcome
/// when unneeded jitters are appended.
proof fn lemma_player_phase_extend(
    pods: Seq<PodMount>,
    player: Option<Vec2I>,
    dt: i64,
    gates: Seq<bool>,
    jits: Seq<(i64, i64, i64)>,
    extra: Seq<(i64, i64, i64)>,
)
    requires
        spec_pdc_player_phase(pods, player, dt, gates, jits).jitters_used <= jits.len(),
    ensures
        spec_pdc_player_phase(pods, player, dt, gates, jits + extra) == spec_pdc_player_phase(
            pods,
            player,
            dt,
            gates,
            jits,
        ),
    decreases pods.len(),
{
    if pods.len() > 0 {
        let prior = spec_pdc_player_phase(pods.drop_last(), player, dt, gates.drop_last(), jits);
        lemma_player_phase_used_nonneg(pods.drop_last(), player, dt, gates.drop_last(), jits);
        lemma_player_phase_extend(pods.drop_last(), player, dt, gates.drop_last(), jits, extra);
        let whole = spec_pdc_player_phase(pods, player, dt, gates, jits);
        if whole.jitters_used == prior.jitters_used + BURST_SIZE as int {
            assert((jits + extra).subrange(
                prior.jitters_used,
                prior.jitters_used + BURST_SIZE as int,
            ) =~= jits.subrange(prior.jitters_used, prior.jitters_used + BURST_SIZE as int));
        }
    }
}

/// The first listed mount of the ship with the given identifier.
pub open spec fn spec_find_pod(pods: Seq<PodMount>, id: u64) -> Option<int>
    decreases pods.len(),
{
    if pods.len() == 0 {
        None
    } else if pods[0].ship_id == id {
        Some(0int)
    } else {
        match spec_find_pod(pods.drop_first(), id) {
            Some(j) => Some(j + 1),
            None => None,
        }
    }
}

/// What a found mount index means: in range, the right ship, and the
/// first such.
proof fn lemma_find_pod_props(pods: Seq<PodMount>, id: u64)
    ensures
        match spec_find_pod(pods, id) {
            Some(ix) => 0 <= ix < pods.len() && pods[ix].ship_id == id,
            None => forall|j: int| 0 <= j < pods.len() ==> (#[trigger] pods[j]).ship_id != id,
        },
    decreases pods.len(),
{
    if pods.len() > 0 && pods[0].ship_id != id {
        lemma_find_pod_props(pods.drop_first(), id);
        match spec_find_pod(pods.drop_first(), id) {
            Some(j) => {
                assert(pods.drop_first()[j] == pods[j + 1]);
            },
            None => {
                assert forall|j: int| 0 <= j < pods.len() implies (#[trigger] pods[j]).ship_id
                    != id by {
                    if j > 0 {
                        assert(pods.drop_first()[j - 1] == pods[j]);
                    }
                }
            },
        }
    }
}

/// What the missile-defense sweep comes to: the mounts' new states,
/// the defensive slugs fired, the next stagger slot, and how many
/// jitter triples were consumed.
pub struct PdcDefense {
    pub pods: Seq<PodMount>,
    pub shots: Seq<ProjectileSpawn>,
    pub stagger: int,
    pub jitters_used: int,
}

/// The missile-defense sweep, missiles in order over the mount states
/// the anti-player sweep left.  Each missile whose target ship has a
/// listed mount takes one fire opportunity on that mount: its heat
/// steps by the opportunity machine, a ready mount fires exactly one
/// slug at the missile's predicted position with the next staggered
/// activation delay, and one jitter triple is consumed either way.
pub open spec fn spec_pdc_missile_phase(
    missiles: Seq<MissileThreat>,
    pods0: Seq<PodMount>,
    dt: i64,
    jits: Seq<(i64, i64, i64)>,
) -> PdcDefense
    decreases missiles.len(),
{
    if missiles.len() == 0 {
        PdcDefense { pods: pods0, shots: Seq::empty(), stagger: 0, jitters_used: 0 }
    } else {
        let prior = spec_pdc_missile_phase(missiles.drop_last(), pods0, dt, jits);
        let m = missiles.last();
        match spec_find_pod(prior.pods, m.target) {
            None => prior,
            Some(ix) => {
                let p = prior.pods[ix];
                let jit = jits[prior.jitters_used];
                let fired: Seq<ProjectileSpawn> = if p.pod.heat >= 0 {
                    seq![
                        spec_shot(
                            p.pos,
                            m.pos,
                            m.vel,
                            jit.0,
                            jit.1,
                            jit.2,
                            (prior.stagger * SHOT_STAGGER_MS) as i64,
                        ),
                    ]
                } else {
                    Seq::empty()
                };
                PdcDefense {
                    pods: prior.pods.update(
                        ix,
                        PodMount {
                            ship_id: p.ship_id,
                            pos: p.pos,
                            pod: BulletPod {
                                heat: spec_pod_fire_step(p.pod.heat as int, dt as int) as i64,
                                range: p.pod.range,
                            },
                        },
                    ),
                    shots: prior.shots + fired,
                    stagger: prior.stagger + 1,
                    jitters_used: prior.jitters_used + 1,
                }
            },
        }
    }
}

/// The missile-defense sweep never hands back a jitter cursor below
/// its starting point.
proof fn lemma_missile_phase_used_nonneg(
    missiles: Seq<MissileThreat>,
    pods0: Seq<PodMount>,
    dt: i64,
    jits: Seq<(i64, i64, i64)>,
)
    ensures
        spec_pdc_missile_phase(missiles, pods0, dt, jits).jitters_used >= 0,
    decreases missiles.len(),
{
    if missiles.len() > 0 {
        lemma_missile_phase_used_nonneg(missiles.drop_last(), pods0, dt, jits);
    }
}

/// A sweep that stayed within its jitter list gives the same outcome
/// when unneeded jitters are appended.
proof fn lemma_missile_phase_extend(
    missiles: Seq<MissileThreat>,
    pods0: Seq<PodMount>,
    dt: i64,
    jits: Seq<(i64, i64, i64)>,
    extra: Seq<(i64, i64, i64)>,
)
    requires
        spec_pdc_missile_phase(missiles, pods0, dt, jits).jitters_used <= jits.len(),
    ensures
        spec_pdc_missile_phase(missiles, pods0, dt, jits + extra) == spec_pdc_missile_phase(
            missiles,
            pods0,
            dt,
            jits,
        ),
    decreases missiles.len(),
{
    if missiles.len() > 0 {
        let prior = spec_pdc_missile_phase(missiles.drop_last(), pods0, dt, jits);
        lemma_missile_phase_used_nonneg(missiles.drop_last(), pods0, dt, jits);
        lemma_missile_phase_extend(missiles.drop_last(), pods0, dt, jits, extra);
        let whole = spec_pdc_missile_phase(missiles, pods0, dt, jits);
        if whole.jitters_used == prior.jitters_used + 1 {
            assert((jits + extra)[prior.jitters_used] == jits[prior.jitters_used]);
        }
    }
}

/// Point defense for one tick is the anti-player sweep followed by
/// the missile-defense sweep over the states it left, the two sharing
/// one jitter supply: the outputs are exactly the two folds over the
/// given gate and jitter draws, all of them in band and all consumed.
pub open spec fn spec_fire_pdc_outcome(
    pods0: Seq<PodMount>,
    missiles: Seq<MissileThreat>,
    player: Option<Vec2I>,
    dt: i64,
    pods1: Seq<PodMount>,
    shots: Seq<ProjectileSpawn>,
    gates: Seq<bool>,
    jits: Seq<(i64, i64, i64)>,
) -> bool {
    let phase1 = spec_pdc_player_phase(pods0, player, dt, gates, jits);
    let phase2 = spec_pdc_missile_phase(missiles, phase1.pods, dt, jits.skip(phase1.jitters_used));
    &&& gates.len() == pods0.len()
    &&& spec_jitters_in_range(jits)
    &&& jits.len() == phase1.jitters_used + phase2.jitters_used
    &&& pods1 == phase2.pods
    &&& shots == phase1.shots + phase2.shots
}

/// Find the mount belonging to the ship with the given identifier:
/// the first listed one, exactly per `spec_find_pod`.
pub fn find_pod_index(pods: &Vec<PodMount>, id: u64) -> (r: Option<usize>)
    ensures
        match r {
            Some(ix) => ix < pods@.len() && pods@[ix as int].ship_id == id && spec_find_pod(
                pods@,
                id,
            ) == Some(ix as int),
            None => spec_find_pod(pods@, id) is None && forall|j: int|
                0 <= j < pods@.len() ==> (#[trigger] pods@[j]).ship_id != id,
        },
{
    let n = pods.len();
    let mut i: usize = 0;
    proof {
        assert(pods@.skip(0) =~= pods@);
    }
    while i < n
        invariant
            n == pods@.len(),
            i <= n,
            forall|j: int| 0 <= j < i ==> (#[trigger] pods@[j]).ship_id != id,
            spec_find_pod(pods@, id) == (match spec_find_pod(pods@.skip(i as int), id) {
                Some(j) => Some(j + i),
                None => None::<int>,
            }),
        decreases n - i,
    {
        proof {
            assert(pods@.skip(i as int)[0] == pods@[i as int]);
            assert(pods@.skip(i as int).drop_first() =~= pods@.skip(i + 1int));
        }
        if pods[i].ship_id == id {
            return Some(i);
        }
        i = i + 1;
    }
    proof {
        assert(pods@.skip(n as int) =~= Seq::<PodMount>::empty());
    }
    None
}

/// The stochastic fire-rate throttle: a drawn percentage clears the
/// gate exactly when it lands outside the `PDC_SKIP_PERCENT` skip
/// band.
pub fn pdc_throttle_gate(roll: i64) -> (r: bool)
    requires
        0 <= roll < 100,
    ensures
        r == (roll >= PDC_SKIP_PERCENT),
{
    roll >= PDC_SKIP_PERCENT
}

/// Run point-defense fire control for one tick.
///
/// Cooling mounts warm by the elapsed time.  A ready mount with the
/// player inside its range takes a fire opportunity at the player's
/// position unless the stochastic throttle (a `PDC_SKIP_PERCENT`
/// percent skip) holds it back; an opportunity taken is a full burst.
/// Then every missile homing toward a ship with a mount triggers that
/// ship's own point defense against the missile, one staggered shot
/// per missile.  The outputs satisfy `spec_fire_pdc_outcome` for some
/// in-band throttle and jitter draw lists (the existential witness):
/// only which throttles opened and what the jitters held are left
/// open.  Whatever they come to:
/// mounts keep their identity, position and range; every spawned
/// projectile is an enemy point-defense slug; and for a mount whose
/// ship no inbound missile targets, a cooling mount warms by exactly
/// the elapsed time, and a ready mount with the player absent or out
/// of range holds its heat.
pub fn fire_pdc(
    pods: &mut Vec<PodMount>,
    missiles: &Vec<MissileThreat>,
    player_pos: Option<Vec2I>,
    dt_ms: i64,
) -> (shots: Vec<ProjectileSpawn>)
    requires
        0 <= dt_ms <= 1_000_000,
        forall|i: int| 0 <= i < old(pods)@.len() ==> {
            let p = #[trigger] old(pods)@[i];
            p.pod.wf() && p.pos.in_combat_bounds()
        },
        missiles@.len() <= 40_000,
        forall|i: int| 0 <= i < missiles@.len() ==> {
            let m = #[trigger] missiles@[i];
            &&& m.pos.in_combat_bounds()
            &&& -100_000_000 <= m.vel.x <= 100_000_000
            &&& -100_000_000 <= m.vel.y <= 100_000_000
        },
        match player_pos {
            Some(p) => p.in_combat_bounds(),
            None => true,
        },
    ensures
        final(pods)@.len() == old(pods)@.len(),
        forall|i: int| 0 <= i < old(pods)@.len() ==> {
            let p = #[trigger] final(pods)@[i];
            &&& p.ship_id == old(pods)@[i].ship_id
            &&& p.pos == old(pods)@[i].pos
            &&& p.pod.range == old(pods)@[i].pod.range
            &&& p.pod.wf()
        },
        forall|k: int| 0 <= k < shots@.len() ==> spec_is_enemy_slug(#[trigger] shots@[k]),
        exists|gates: Seq<bool>, jits: Seq<(i64, i64, i64)>| #[trigger] spec_fire_pdc_outcome(
            old(pods)@,
            missiles@,
            player_pos,
            dt_ms,
            final(pods)@,
            shots@,
            gates,
            jits,
        ),
        forall|i: int| 0 <= i < old(pods)@.len() && old(pods)@[i].pod.heat + dt_ms < 0 ==> (
        #[trigger] final(pods)@[i]).pod.heat == old(pods)@[i].pod.heat + dt_ms,
        forall|i: int| 0 <= i < old(pods)@.len() ==> {
            let o = #[trigger] old(pods)@[i];
            (forall|q: int| 0 <= q < missiles@.len() ==> (#[trigger] missiles@[q]).target
                != o.ship_id) ==> {
                &&& o.pod.heat < 0 ==> final(pods)@[i].pod.heat == o.pod.heat + dt_ms
                &&& (o.pod.heat >= 0 && match player_pos {
                    Some(pp) => spec_dist_sq(o.pos, pp) > o.pod.range * o.pod.range,
                    None => true,
                }) ==> final(pods)@[i].pod.heat == o.pod.heat
            }
        },
{
    let mut shots: Vec<ProjectileSpawn> = Vec::new();
    let ghost mut gates: Seq<bool> = Seq::empty();
    let ghost mut jits1: Seq<(i64, i64, i64)> = Seq::empty();
    let n = pods.len();
    let mut i: usize = 0;
    while i < n
        invariant
            n == old(pods)@.len(),
            pods@.len() == n,
            i <= n,
            0 <= dt_ms <= 1_000_000,
            forall|j: int| 0 <= j < n ==> {
                let p = #[trigger] old(pods)@[j];
                p.pod.wf() && p.pos.in_combat_bounds()
            },
            match player_pos {
                Some(p) => p.in_combat_bounds(),
                None => true,
            },
            forall|j: int| i <= j < n ==> #[trigger] pods@[j] == old(pods)@[j],
            forall|j: int| 0 <= j < n ==> {
                let p = #[trigger] pods@[j];
                &&& p.ship_id == old(pods)@[j].ship_id
                &&& p.pos == old(pods)@[j].pos
                &&& p.pod.range == old(pods)@[j].pod.range
                &&& p.pod.wf()
            },
            forall|k: int| 0 <= k < shots@.len() ==> spec_is_enemy_slug(#[trigger] shots@[k]),
            gates.len() == i,
            spec_jitters_in_range(jits1),
            ({
                let ph = spec_pdc_player_phase(
                    old(pods)@.take(i as int),
                    player_pos,
                    dt_ms,
                    gates,
                    jits1,
                );
                &&& ph.pods == pods@.take(i as int)
                &&& ph.shots == shots@
                &&& ph.jitters_used == jits1.len()
            }),
            forall|j: int| 0 <= j < i && old(pods)@[j].pod.heat < 0 ==> (#[trigger] pods@[j]).pod.heat
                == old(pods)@[j].pod.heat + dt_ms,
            forall|j: int| 0 <= j < i ==> {
                let o = #[trigger] old(pods)@[j];
                (o.pod.heat >= 0 && match player_pos {
                    Some(pp) => spec_dist_sq(o.pos, pp) > o.pod.range * o.pod.range,
                    None => true,
                }) ==> pods@[j] == o
            },
        decreases n - i,
    {
        let ghost pre = pods@;
        let ghost gates_pre = gates;
        let ghost jits_pre = jits1;
        let mut pm = pods[i];
        if pm.pod.heat < 0 {
            pm.pod.heat = pm.pod.heat + dt_ms;
            pods.set(i, pm);
            proof {
                gates = gates.push(false);
            }
        } else {
            match player_pos {
                Some(pp) => {
                    let r2 = crate::spatial::radius_sq(pm.pod.range);
                    let d2 = pm.pos.dist_sq(pp);
                    if d2 <= r2 {
                        let roll = sample_range(0, 100);
                        let gate = pdc_throttle_gate(roll);
                        if gate {
                            let jitters = draw_jitters();
                            let mut burst = pdc_burst(
                                &mut pm.pod,
                                dt_ms,
                                pm.pos,
                                pp,
                                Vec2I { x: 0, y: 0 },
                                &jitters,
                            );
                            shots.append(&mut burst);
                            pods.set(i, pm);
                            proof {
                                gates = gates.push(true);
                                lemma_player_phase_extend(
                                    old(pods)@.take(i as int),
                                    player_pos,
                                    dt_ms,
                                    gates_pre,
                                    jits_pre,
                                    jitters@,
                                );
                                jits1 = jits1 + jitters@;
                                assert(jits1.subrange(
                                    jits_pre.len() as int,
                                    jits_pre.len() + BURST_SIZE as int,
                                ) =~= jitters@);
                            }
                        } else {
                            proof {
                                gates = gates.push(false);
                            }
                        }
                    } else {
                        proof {
                            gates = gates.push(false);
                        }
                    }
                },
                None => {
                    proof {
                        gates = gates.push(false);
                    }
                },
            }
        }
        proof {
            assert(old(pods)@.take(i + 1int).drop_last() =~= old(pods)@.take(i as int));
            assert(old(pods)@.take(i + 1int).last() == old(pods)@[i as int]);
            assert(gates.drop_last() =~= gates_pre);
            assert(pods@.take(i as int) =~= pre.take(i as int));
            assert(pods@.take(i + 1int) =~= pre.take(i as int).push(pods@[i as int]));
        }
        i = i + 1;
    }
    let ghost mid = pods@;
    let ghost shots1 = shots@;
    proof {
        assert(old(pods)@.take(n as int) =~= old(pods)@);
    }
    let ghost mut jits2: Seq<(i64, i64, i64)> = Seq::empty();
    let m = missiles.len();
    let mut k: usize = 0;
    let mut staggered: usize = 0;
    while k < m
        invariant
            n == old(pods)@.len(),
            pods@.len() == n,
            mid.len() == n,
            m == missiles@.len(),
            m <= 40_000,
            k <= m,
            staggered <= k,
            0 <= dt_ms <= 1_000_000,
            forall|j: int| 0 <= j < m ==> {
                let t = #[trigger] missiles@[j];
                &&& t.pos.in_combat_bounds()
                &&& -100_000_000 <= t.vel.x <= 100_000_000
                &&& -100_000_000 <= t.vel.y <= 100_000_000
            },
            forall|j: int| 0 <= j < n ==> (#[trigger] old(pods)@[j]).pos.in_combat_bounds(),
            forall|j: int| 0 <= j < n ==> {
                let p = #[trigger] pods@[j];
                &&& p.ship_id == old(pods)@[j].ship_id
                &&& p.pos == old(pods)@[j].pos
                &&& p.pod.range == old(pods)@[j].pod.range
                &&& p.pod.wf()
            },
            forall|q: int| 0 <= q < shots@.len() ==> spec_is_enemy_slug(#[trigger] shots@[q]),
            gates.len() == n,
            spec_jitters_in_range(jits1),
            ({
                let ph = spec_pdc_player_phase(old(pods)@, player_pos, dt_ms, gates, jits1);
                &&& ph.pods == mid
                &&& ph.shots == shots1
                &&& ph.jitters_used == jits1.len()
            }),
            spec_jitters_in_range(jits2),
            ({
                let ph2 = spec_pdc_missile_phase(missiles@.take(k as int), mid, dt_ms, jits2);
                &&& ph2.pods == pods@
                &&& ph2.stagger == staggered as int
                &&& ph2.jitters_used == jits2.len()
                &&& shots@ == shots1 + ph2.shots
            }),
            forall|j: int| 0 <= j < n ==> {
                let o = #[trigger] old(pods)@[j];
                &&& mid[j].ship_id == o.ship_id
                &&& (o.pod.heat < 0 ==> mid[j].pod.heat == o.pod.heat + dt_ms)
                &&& ((o.pod.heat >= 0 && match player_pos {
                    Some(pp) => spec_dist_sq(o.pos, pp) > o.pod.range * o.pod.range,
                    None => true,
                }) ==> mid[j] == o)
            },
            forall|j: int| 0 <= j < n && (forall|q: int|
                0 <= q < m ==> (#[trigger] missiles@[q]).target != old(pods)@[j].ship_id) ==> #[trigger] pods@[j]
                == mid[j],
            forall|j: int| 0 <= j < n && mid[j].pod.heat < 0 ==> (#[trigger] pods@[j]).pod.heat
                == mid[j].pod.heat,
        decreases m - k,
    {
        let ghost pre = pods@;
        let ghost jits_pre = jits2;
        let threat = missiles[k];
        match find_pod_index(pods, threat.target) {
            Some(ix) => {
                let mut pm = pods[ix];
                let jx = sample_range(-AIM_JITTER_MILLI, AIM_JITTER_MILLI);
                let jy = sample_range(-AIM_JITTER_MILLI, AIM_JITTER_MILLI);
                let oj = sample_range(0, ORIGIN_JITTER_MILLI);
                let shot = fire_artillery_at(
                    &mut pm.pod,
                    dt_ms,
                    pm.pos,
                    threat.pos,
                    threat.vel,
                    jx,
                    jy,
                    oj,
                    (staggered as i64) * SHOT_STAGGER_MS,
                );
                match shot {
                    Some(s) => {
                        shots.push(s);
                    },
                    None => {},
                }
                pods.set(ix, pm);
                staggered = staggered + 1;
                proof {
                    lemma_missile_phase_extend(
                        missiles@.take(k as int),
                        mid,
                        dt_ms,
                        jits_pre,
                        seq![(jx, jy, oj)],
                    );
                    jits2 = jits2.push((jx, jy, oj));
                    assert(jits2 =~= jits_pre + seq![(jx, jy, oj)]);
                    assert(jits2[jits_pre.len() as int] == (jx, jy, oj));
                    assert(pods@ =~= pre.update(ix as int, pods@[ix as int]));
                }
            },
            None => {},
        }
        proof {
            assert(missiles@.take(k + 1int).drop_last() =~= missiles@.take(k as int));
            assert(missiles@.take(k + 1int).last() == missiles@[k as int]);
        }
        k = k + 1;
    }
    proof {
        assert(missiles@.take(m as int) =~= missiles@);
        let all = jits1 + jits2;
        lemma_player_phase_extend(old(pods)@, player_pos, dt_ms, gates, jits1, jits2);
        let phase1 = spec_pdc_player_phase(old(pods)@, player_pos, dt_ms, gates, all);
        assert(all.skip(phase1.jitters_used) =~= jits2);
        assert(spec_jitters_in_range(all));
        assert(spec_fire_pdc_outcome(
            old(pods)@,
            missiles@,
            player_pos,
            dt_ms,
            pods@,
            shots@,
            gates,
            all,
        ));
    }
    shots
}

} // verus!
