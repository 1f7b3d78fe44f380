//! Player feedback on damage: rumble strength and screen shake.
//!
//! When damage lands, the rumble hardware is driven by how close the
//! hit was to the player: the nearer the hit, the harder the shake.
//! The bucket boundaries and the trauma amount are exact; driving the
//! gamepad is the host's.

use vstd::prelude::*;

use crate::events::SpawnVisualEvent;
use crate::math::{spec_dist_sq, spec_isqrt, spec_mul_div, Vec2I};

verus! {

/// How hard the gamepad rumbles for a hit at some distance.
#[derive(Clone, Copy, PartialEq, Eq, Structural, Debug)]
pub enum RumbleClass {
    /// A hit on top of the player.
    Max,
    /// Within thirty units.
    Near,
    /// Within a hundred units.
    Mid,
    /// Within two hundred units.
    Far,
    /// Anything farther.
    Distant,
}

/// The rumble bucket for a hit `dist_milli` away from the player.
pub open spec fn spec_rumble_class(dist_milli: i64) -> RumbleClass {
    if dist_milli == 0 {
        RumbleClass::Max
    } else if dist_milli < 30_000 {
        RumbleClass::Near
    } else if dist_milli < 100_000 {
        RumbleClass::Mid
    } else if dist_milli < 200_000 {
        RumbleClass::Far
    } else {
        RumbleClass::Distant
    }
}

/// The screen-shake trauma for a hit at that distance: the rumble
/// strength is the distance over a hundred units, and the trauma is
/// a tenth of how far that strength falls short of two.
pub open spec fn spec_trauma_milli(dist_milli: i64) -> int {
    let strength = dist_milli / 100;
    let capped = if strength > 2_000 {
        2_000
    } else {
        strength as int
    };
    (2_000 - capped) / 10
}

/// Classify a hit by its distance from the player and compute the
/// trauma it adds, exactly per `spec_rumble_class` and
/// `spec_trauma_milli`.
pub fn shake_on_player_damage(dist_milli: i64) -> (r: (RumbleClass, i64))
    requires
        0 <= dist_milli <= 4_000_000_000,
    ensures
        r.0 == spec_rumble_class(dist_milli),
        r.1 == spec_trauma_milli(dist_milli),
        0 <= r.1 <= 200,
{
    let class = if dist_milli == 0 {
        RumbleClass::Max
    } else if dist_milli < 30_000 {
        RumbleClass::Near
    } else if dist_milli < 100_000 {
        RumbleClass::Mid
    } else if dist_milli < 200_000 {
        RumbleClass::Far
    } else {
        RumbleClass::Distant
    };
    let strength = dist_milli / 100;
    let capped = if strength > 2_000 {
        2_000
    } else {
        strength
    };
    (class, (2_000 - capped) / 10)
}

/// The smoke a strafe thruster leaves: offset a twentieth of a unit
/// laterally away from the strafe and twenty units forward per unit
/// of thrust, tilted 45 degrees with the strafe's sign, at a drawn
/// scale.
pub open spec fn spec_strafe_smoke(
    pos: Vec2I,
    forward: Vec2I,
    side: i8,
    thrust_milli: i64,
    scale_roll: i64,
) -> SpawnVisualEvent {
    let rx = spec_mul_div(forward.y as int, -(side as int) * 50, 1000int);
    let ry = spec_mul_div(-(forward.x as int), -(side as int) * 50, 1000int);
    let fx = spec_mul_div(forward.x as int, 20 * thrust_milli, 1000int);
    let fy = spec_mul_div(forward.y as int, 20 * thrust_milli, 1000int);
    SpawnVisualEvent::Smoke {
        origin: Vec2I { x: (pos.x + rx + fx) as i64, y: (pos.y + ry + fy) as i64 },
        rotation_millideg: (45_000 * (side as int)) as i64,
        scale_milli: spec_mul_div(1_250int, scale_roll as int, 1000int) as i64,
    }
}

/// The smoke the main drive leaves: jittered behind the ship, ten
/// units against the facing, upright, at a drawn scale.  The lateral
/// jitter shrinks as the throttle opens.
pub open spec fn spec_drive_smoke(
    pos: Vec2I,
    forward: Vec2I,
    thrust_milli: i64,
    jx: i64,
    jy: i64,
    scale_roll: i64,
) -> SpawnVisualEvent {
    let bx = spec_mul_div(forward.x as int, -10_000int, 1000int);
    let by = spec_mul_div(forward.y as int, -10_000int, 1000int);
    let wx = spec_mul_div(jx as int, (1_000 - thrust_milli) * 5, 1000int);
    SpawnVisualEvent::Smoke {
        origin: Vec2I { x: (pos.x + wx + bx) as i64, y: (pos.y + jy + by) as i64 },
        rotation_millideg: 0,
        scale_milli: scale_roll,
    }
}

/// Build a strafe thruster's smoke, exactly per `spec_strafe_smoke`.
pub fn strafe_smoke(pos: Vec2I, forward: Vec2I, side: i8, thrust_milli: i64, scale_roll: i64) -> (r:
    SpawnVisualEvent)
    requires
        pos.in_combat_bounds(),
        -2_000 <= forward.x <= 2_000,
        -2_000 <= forward.y <= 2_000,
        -1 <= side <= 1,
        side != 0,
        0 <= thrust_milli <= 1_000,
        500 <= scale_roll < 1_250,
    ensures
        r == spec_strafe_smoke(pos, forward, side, thrust_milli, scale_roll),
        r matches SpawnVisualEvent::Smoke { origin: _, rotation_millideg: rot, scale_milli: sc }
            && (rot == 45_000 || rot == -45_000) && 500 <= sc < 1_563,
{
    let rk: i64 = -(side as i64) * 50;
    let right = Vec2I { x: forward.y, y: -forward.x };
    let lat = right.scaled_milli(rk);
    let fwd = forward.scaled_milli(20 * thrust_milli);
    proof {
        crate::math::lemma_mul_div_bound(right.x as int, rk as int, 2_000int, 50int);
        crate::math::lemma_mul_div_bound(right.y as int, rk as int, 2_000int, 50int);
        crate::math::lemma_mul_div_bound(
            forward.x as int,
            20 * thrust_milli,
            2_000int,
            20_000int,
        );
        crate::math::lemma_mul_div_bound(
            forward.y as int,
            20 * thrust_milli,
            2_000int,
            20_000int,
        );
        vstd::arithmetic::div_mod::lemma_div_is_ordered(625_000int, 1_250 * scale_roll, 1000int);
        vstd::arithmetic::div_mod::lemma_div_is_ordered(1_250 * scale_roll, 1_561_250int, 1000int);
    }
    let scale = crate::math::mul_div_milli(1_250, scale_roll);
    SpawnVisualEvent::Smoke {
        origin: Vec2I { x: pos.x + lat.x + fwd.x, y: pos.y + lat.y + fwd.y },
        rotation_millideg: 45_000 * (side as i64),
        scale_milli: scale,
    }
}

/// Build the main drive's smoke, exactly per `spec_drive_smoke`.
pub fn drive_smoke(pos: Vec2I, forward: Vec2I, thrust_milli: i64, jx: i64, jy: i64, scale_roll: i64) -> (r:
    SpawnVisualEvent)
    requires
        pos.in_combat_bounds(),
        -2_000 <= forward.x <= 2_000,
        -2_000 <= forward.y <= 2_000,
        0 <= thrust_milli <= 1_000,
        -1_000 <= jx <= 1_000,
        -3_000 <= jy <= 3_000,
        500 <= scale_roll < 1_250,
    ensures
        r == spec_drive_smoke(pos, forward, thrust_milli, jx, jy, scale_roll),
        r matches SpawnVisualEvent::Smoke { origin: _, rotation_millideg: rot, scale_milli: sc }
            && rot == 0 && 500 <= sc < 1_563,
{
    let back = forward.scaled_milli(-10_000);
    let wx = crate::math::mul_div_milli(jx, (1_000 - thrust_milli) * 5);
    proof {
        crate::math::lemma_mul_div_bound(forward.x as int, -10_000int, 2_000int, 10_000int);
        crate::math::lemma_mul_div_bound(forward.y as int, -10_000int, 2_000int, 10_000int);
        crate::math::lemma_mul_div_bound(
            jx as int,
            (1_000 - thrust_milli) * 5,
            1_000int,
            5_000int,
        );
    }
    SpawnVisualEvent::Smoke {
        origin: Vec2I { x: pos.x + wx + back.x, y: pos.y + jy + back.y },
        rotation_millideg: 0,
        scale_milli: scale_roll,
    }
}

/// One thrust event as the smoke pass sees it, with the transform of
/// the thrusting ship already looked up.
#[derive(Clone, Copy, PartialEq, Eq, Structural, Debug)]
pub struct ThrustPuff {
    pub pos: Vec2I,
    pub forward: Vec2I,
    pub side: i8,
    pub thrust_milli: i64,
}

/// Turn one tick's thrust events into smoke requests.  A strafe
/// event always puffs; a main-drive event puffs only past half
/// throttle and then only with probability proportional to the
/// throttle.  Whatever the draws come to, everything emitted is
/// smoke, strafe puffs are tilted by exactly the strafe's sign, and
/// drive puffs are upright.
/// The draws one thrust event can consume: whether the main drive's
/// probabilistic gate opened, the drive jitter, and the scale draw.
pub struct SmokeDraw {
    pub fired: bool,
    pub jx: i64,
    pub jy: i64,
    pub scale: i64,
}

/// The draw record's values sit in their sampler bands.
pub open spec fn spec_smoke_draw_ok(d: SmokeDraw) -> bool {
    &&& -1_000 <= d.jx <= 1_000
    &&& -3_000 <= d.jy <= 3_000
    &&& 500 <= d.scale < 1_250
}

/// The smoke a batch of thrust events leaves, given one draw record
/// per event: a strafe event always puffs (`spec_strafe_smoke` at the
/// drawn scale), a main-drive event past half throttle puffs exactly
/// when its gate opened (`spec_drive_smoke`), and nothing else puffs.
pub open spec fn spec_thrust_smoke_fold(
    puffs: Seq<ThrustPuff>,
    draws: Seq<SmokeDraw>,
) -> Seq<SpawnVisualEvent>
    decreases puffs.len(),
{
    if puffs.len() == 0 {
        Seq::empty()
    } else {
        let prior = spec_thrust_smoke_fold(puffs.drop_last(), draws.drop_last());
        let p = puffs.last();
        let d = draws.last();
        if p.side != 0 {
            prior.push(spec_strafe_smoke(p.pos, p.forward, p.side, p.thrust_milli, d.scale))
        } else if p.thrust_milli > 500 && d.fired {
            prior.push(spec_drive_smoke(p.pos, p.forward, p.thrust_milli, d.jx, d.jy, d.scale))
        } else {
            prior
        }
    }
}

/// The smoke pass's output is exactly the fold of the events over the
/// given in-band draw records, one per event.
pub open spec fn spec_thrust_smoke_outcome(
    puffs: Seq<ThrustPuff>,
    out: Seq<SpawnVisualEvent>,
    draws: Seq<SmokeDraw>,
) -> bool {
    &&& draws.len() == puffs.len()
    &&& (forall|k: int| 0 <= k < draws.len() ==> spec_smoke_draw_ok(#[trigger] draws[k]))
    &&& out == spec_thrust_smoke_fold(puffs, draws)
}

/// Turn one tick's thrust events into smoke requests.  A strafe
/// event always puffs; a main-drive event puffs only past half
/// throttle and then only with probability proportional to the
/// throttle.  The output is exactly `spec_thrust_smoke_fold` over the
/// draws that were made (the existential witness); and whatever they
/// come to, everything emitted is smoke, strafe puffs are tilted by
/// exactly the strafe's sign, and drive puffs are upright.
pub fn thrust_emits_smoke(puffs: &Vec<ThrustPuff>) -> (out: Vec<SpawnVisualEvent>)
    requires
        forall|i: int| 0 <= i < puffs@.len() ==> {
            let p = #[trigger] puffs@[i];
            &&& p.pos.in_combat_bounds()
            &&& -2_000 <= p.forward.x <= 2_000
            &&& -2_000 <= p.forward.y <= 2_000
            &&& -1 <= p.side <= 1
            &&& 0 <= p.thrust_milli <= 1_000
        },
    ensures
        exists|draws: Seq<SmokeDraw>| #[trigger] spec_thrust_smoke_outcome(puffs@, out@, draws),
        forall|k: int| 0 <= k < out@.len() ==> {
            let e = #[trigger] out@[k];
            e matches SpawnVisualEvent::Smoke { origin: _, rotation_millideg: rot, scale_milli: sc }
                && (rot == 0 || rot == 45_000 || rot == -45_000) && 500 <= sc < 1_563
        },
{
    let mut out: Vec<SpawnVisualEvent> = Vec::new();
    let ghost mut draws: Seq<SmokeDraw> = Seq::empty();
    let n = puffs.len();
    let mut i: usize = 0;
    while i < n
        invariant
            n == puffs@.len(),
            i <= n,
            forall|j: int| 0 <= j < n ==> {
                let p = #[trigger] puffs@[j];
                &&& p.pos.in_combat_bounds()
                &&& -2_000 <= p.forward.x <= 2_000
                &&& -2_000 <= p.forward.y <= 2_000
                &&& -1 <= p.side <= 1
                &&& 0 <= p.thrust_milli <= 1_000
            },
            draws.len() == i,
            forall|k: int| 0 <= k < draws.len() ==> spec_smoke_draw_ok(#[trigger] draws[k]),
            out@ == spec_thrust_smoke_fold(puffs@.take(i as int), draws),
            forall|k: int| 0 <= k < out@.len() ==> {
                let e = #[trigger] out@[k];
                e matches SpawnVisualEvent::Smoke {
                    origin: _,
                    rotation_millideg: rot,
                    scale_milli: sc,
                } && (rot == 0 || rot == 45_000 || rot == -45_000) && 500 <= sc < 1_563
            },
        decreases n - i,
    {
        let ghost draws_pre = draws;
        let p = puffs[i];
        if p.side != 0 {
            let scale_roll = crate::rng::sample_range(500, 1_250);
            out.push(strafe_smoke(p.pos, p.forward, p.side, p.thrust_milli, scale_roll));
            proof {
                draws = draws.push(SmokeDraw { fired: false, jx: 0, jy: 0, scale: scale_roll });
            }
        } else if p.thrust_milli > 500 {
            let roll = crate::rng::sample_range(0, 1_000);
            if roll < p.thrust_milli / 2 {
                let jx = crate::rng::sample_range(-1_000, 1_000);
                let jy = crate::rng::sample_range(-3_000, 3_000);
                let scale_roll = crate::rng::sample_range(500, 1_250);
                out.push(drive_smoke(p.pos, p.forward, p.thrust_milli, jx, jy, scale_roll));
                proof {
                    draws = draws.push(SmokeDraw { fired: true, jx, jy, scale: scale_roll });
                }
            } else {
                proof {
                    draws = draws.push(SmokeDraw { fired: false, jx: 0, jy: 0, scale: 500 });
                }
            }
        } else {
            proof {
                draws = draws.push(SmokeDraw { fired: false, jx: 0, jy: 0, scale: 500 });
            }
        }
        proof {
            assert(puffs@.take(i + 1int).drop_last() =~= puffs@.take(i as int));
            assert(puffs@.take(i + 1int).last() == puffs@[i as int]);
            assert(draws.drop_last() =~= draws_pre);
        }
        i = i + 1;
    }
    proof {
        assert(puffs@.take(n as int) =~= puffs@);
        assert(spec_thrust_smoke_outcome(puffs@, out@, draws));
    }
    out
}

/// The distance between two points in milli-units: the integer
/// square root of the squared distance.
pub fn distance_milli(a: Vec2I, b: Vec2I) -> (r: i64)
    requires
        a.in_bounds(),
        b.in_bounds(),
    ensures
        r == spec_isqrt(spec_dist_sq(a, b)),
        r >= 0,
{
    let d2 = a.dist_sq(b);
    crate::math::isqrt64(d2)
}

} // verus!
