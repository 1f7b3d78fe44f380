//! Homing-missile guidance: bounded-rate rotation toward the target.
//!
//! Each tick a missile still holding a live target turns toward it by
//! at most the turn rate times the elapsed time; a missile already
//! aligned stays put, one whose target entity no longer exists is
//! silently skipped (no error, no despawn), and one still inside its
//! activation window does not steer at all.  The bearing toward the
//! target is an input (its computation from positions is the host's
//! trigonometry); the turn decision and clamp are exact here.

use vstd::prelude::*;

use crate::angle::{is_heading, spec_turn_toward, turn_toward, HALF_TURN_MILLIDEG};
use crate::components::MissileTarget;

verus! {

/// The missile turn rate: 270 degrees per second, which is exactly
/// 270 millidegrees per millisecond.
pub const TURN_RATE_MILLIDEG_PER_MS: i64 = 270;

/// One homing missile as guidance sees it.
#[derive(Clone, Copy, PartialEq, Eq, Structural, Debug)]
pub struct GuidedMissile {
    pub id: u64,
    pub heading_millideg: i64,
    pub has_activation: bool,
    pub target: MissileTarget,
}

/// The turn budget of one tick, capped at half a turn.
pub open spec fn spec_turn_budget(dt_ms: i64) -> int {
    if TURN_RATE_MILLIDEG_PER_MS * dt_ms <= HALF_TURN_MILLIDEG {
        TURN_RATE_MILLIDEG_PER_MS * dt_ms
    } else {
        HALF_TURN_MILLIDEG as int
    }
}

/// The heading one guidance tick leaves a missile with: unchanged for
/// a missile in its activation window or whose target is gone, else
/// rotated toward the bearing by at most the tick's turn budget.
pub open spec fn spec_guided_heading(
    m: GuidedMissile,
    live: Seq<u64>,
    bearing: i64,
    dt_ms: i64,
) -> int {
    if m.has_activation || !live.contains(m.target.0) {
        m.heading_millideg as int
    } else {
        spec_turn_toward(m.heading_millideg, bearing, spec_turn_budget(dt_ms) as i64)
    }
}

/// Whether an entity identifier appears in a list of live entities.
pub fn contains_id(live: &Vec<u64>, id: u64) -> (r: bool)
    ensures
        r == live@.contains(id),
{
    let n = live.len();
    let mut i: usize = 0;
    while i < n
        invariant
            n == live@.len(),
            i <= n,
            forall|j: int| 0 <= j < i ==> live@[j] != id,
        decreases n - i,
    {
        if live[i] == id {
            assert(live@.contains(id));
            return true;
        }
        i = i + 1;
    }
    assert(!live@.contains(id));
    false
}

/// Steer every missile one tick.  `bearings[i]` is the bearing from
/// missile `i` to its target; it is only consulted when the target is
/// in `live`.  Identifiers, activation flags and targets are left
/// untouched; each heading becomes exactly `spec_guided_heading`.
pub fn missile_guidance(
    missiles: &mut Vec<GuidedMissile>,
    live: &Vec<u64>,
    bearings: &Vec<i64>,
    dt_ms: i64,
)
    requires
        bearings@.len() == old(missiles)@.len(),
        0 <= dt_ms <= 1_000_000,
        forall|i: int| 0 <= i < old(missiles)@.len() ==> is_heading(
            (#[trigger] old(missiles)@[i]).heading_millideg,
        ),
        forall|i: int| 0 <= i < bearings@.len() ==> is_heading(#[trigger] bearings@[i]),
    ensures
        final(missiles)@.len() == old(missiles)@.len(),
        forall|i: int| 0 <= i < old(missiles)@.len() ==> {
            let m = #[trigger] final(missiles)@[i];
            &&& m.id == old(missiles)@[i].id
            &&& m.has_activation == old(missiles)@[i].has_activation
            &&& m.target == old(missiles)@[i].target
            &&& m.heading_millideg == spec_guided_heading(
                old(missiles)@[i],
                live@,
                bearings@[i],
                dt_ms,
            )
            &&& is_heading(m.heading_millideg)
        },
{
    let budget: i64 = if TURN_RATE_MILLIDEG_PER_MS * dt_ms <= HALF_TURN_MILLIDEG {
        TURN_RATE_MILLIDEG_PER_MS * dt_ms
    } else {
        HALF_TURN_MILLIDEG
    };
    let n = missiles.len();
    let mut i: usize = 0;
    while i < n
        invariant
            n == old(missiles)@.len(),
            missiles@.len() == n,
            bearings@.len() == n,
            i <= n,
            0 <= dt_ms <= 1_000_000,
            budget == spec_turn_budget(dt_ms),
            0 <= budget <= HALF_TURN_MILLIDEG,
            forall|j: int| 0 <= j < n ==> is_heading(
                (#[trigger] old(missiles)@[j]).heading_millideg,
            ),
            forall|j: int| 0 <= j < n ==> is_heading(#[trigger] bearings@[j]),
            forall|j: int| i <= j < n ==> #[trigger] missiles@[j] == old(missiles)@[j],
            forall|j: int| 0 <= j < i ==> {
                let m = #[trigger] missiles@[j];
                &&& m.id == old(missiles)@[j].id
                &&& m.has_activation == old(missiles)@[j].has_activation
                &&& m.target == old(missiles)@[j].target
                &&& m.heading_millideg == spec_guided_heading(
                    old(missiles)@[j],
                    live@,
                    bearings@[j],
                    dt_ms,
                )
                &&& is_heading(m.heading_millideg)
            },
        decreases n - i,
    {
        let mut m = missiles[i];
        if !m.has_activation && contains_id(live, m.target.0) {
            m.heading_millideg = turn_toward(m.heading_millideg, bearings[i], budget);
            missiles.set(i, m);
        }
        i = i + 1;
    }
}

} // verus!
