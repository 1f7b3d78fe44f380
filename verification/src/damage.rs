//! Damage events and their application to health.
//!
//! Damage is queued as events during collision resolution and applied
//! in a separate pass, so that every source landing in the same tick is
//! accounted before any destruction decision is made.

use vstd::prelude::*;

use crate::events::SpawnVisualEvent;

verus! {

/// Hit points of a ship: a `(max, current)` pair of unsigned integers.
/// `current` never exceeds `max` and is clamped at zero from below.
#[derive(Clone, Copy, PartialEq, Eq, Structural, Debug)]
pub struct Health {
    pub max: u32,
    pub current: u32,
}

impl Health {
    /// A ship's health is well formed when its current hit points do
    /// not exceed its maximum.
    pub open spec fn wf(self) -> bool {
        self.current <= self.max
    }

    /// Fresh health for a newly spawned ship: full hit points.
    pub fn new(max: u32) -> (h: Health)
        ensures
            h.max == max,
            h.current == max,
            h.wf(),
    {
        Health { max, current: max }
    }
}

/// What `current` hit points become after taking `damage`: plain
/// subtraction, clamped at zero from below.
pub open spec fn spec_resolve_damage(current: u32, damage: u32) -> u32 {
    if current >= damage {
        (current - damage) as u32
    } else {
        0u32
    }
}

/// Subtract `damage` from `current` with a saturating (non-negative)
/// floor.
pub fn resolve_damage(current: u32, damage: u32) -> (r: u32)
    ensures
        r == spec_resolve_damage(current, damage),
        current >= damage ==> r == current - damage,
        current < damage ==> r == 0,
{
    if current >= damage {
        current - damage
    } else {
        0
    }
}

/// One queued point of damage: the target entity and the amount.
#[derive(Clone, Copy, PartialEq, Eq, Structural, Debug)]
pub struct DamageEvent {
    pub target: u64,
    pub amount: u32,
}

/// One damage event applied to a health table: every entry of the
/// targeted entity takes the saturating hit, all others are untouched.
pub open spec fn spec_apply_one(healths: Seq<(u64, Health)>, ev: DamageEvent) -> Seq<(u64, Health)> {
    Seq::new(
        healths.len(),
        |j: int|
            if healths[j].0 == ev.target {
                (
                    healths[j].0,
                    Health {
                        max: healths[j].1.max,
                        current: spec_resolve_damage(healths[j].1.current, ev.amount),
                    },
                )
            } else {
                healths[j]
            },
    )
}

/// A whole tick's damage queue applied in arrival order.
pub open spec fn spec_apply_events(
    healths: Seq<(u64, Health)>,
    events: Seq<DamageEvent>,
) -> Seq<(u64, Health)>
    decreases events.len(),
{
    if events.len() == 0 {
        healths
    } else {
        spec_apply_one(spec_apply_events(healths, events.drop_last()), events.last())
    }
}

/// Drain the damage queue into the health table: each queued event
/// subtracts its amount from its target's current hit points with a
/// saturating floor, in queue order, so that every source landing in
/// the same tick is accounted.  Events aimed at entities without a
/// health entry fall through silently.
pub fn apply_damage_events(healths: &mut Vec<(u64, Health)>, events: &Vec<DamageEvent>)
    ensures
        final(healths)@ == spec_apply_events(old(healths)@, events@),
{
    let m = events.len();
    let mut k: usize = 0;
    while k < m
        invariant
            m == events@.len(),
            k <= m,
            healths@ == spec_apply_events(old(healths)@, events@.take(k as int)),
        decreases m - k,
    {
        let ev = events[k];
        let ghost pre = healths@;
        let n = healths.len();
        let mut i: usize = 0;
        while i < n
            invariant
                n == pre.len(),
                healths@.len() == n,
                i <= n,
                forall|j: int| i <= j < n ==> #[trigger] healths@[j] == pre[j],
                forall|j: int| 0 <= j < i ==> #[trigger] healths@[j] == spec_apply_one(pre, ev)[j],
            decreases n - i,
        {
            let (id, h) = healths[i];
            if id == ev.target {
                healths.set(
                    i,
                    (id, Health { max: h.max, current: resolve_damage(h.current, ev.amount) }),
                );
            }
            i = i + 1;
        }
        proof {
            assert(healths@ =~= spec_apply_one(pre, ev));
            assert(events@.take(k + 1int).drop_last() =~= events@.take(k as int));
            assert(events@.take(k + 1int).last() == events@[k as int]);
        }
        k = k + 1;
    }
    proof {
        assert(events@.take(m as int) =~= events@);
    }
}

/// An entity with hit points, and where it last stood.
#[derive(Clone, Copy, PartialEq, Eq, Structural, Debug)]
pub struct HealthAt {
    pub id: u64,
    pub health: Health,
    pub pos: crate::math::Vec2I,
}

/// The sweep's outcome: every entity whose current hit points have
/// reached zero is destroyed, leaving smoke and debris at its last
/// position, in table order.
pub open spec fn spec_sweep(units: Seq<HealthAt>) -> (Seq<u64>, Seq<SpawnVisualEvent>)
    decreases units.len(),
{
    if units.len() == 0 {
        (Seq::empty(), Seq::empty())
    } else {
        let prior = spec_sweep(units.drop_last());
        let u = units.last();
        if u.health.current == 0 {
            (
                prior.0.push(u.id),
                prior.1.push(
                    SpawnVisualEvent::Smoke {
                        origin: u.pos,
                        rotation_millideg: 0i64,
                        scale_milli: 1000i64,
                    },
                ).push(SpawnVisualEvent::Debris(u.pos)),
            )
        } else {
            prior
        }
    }
}

/// The destruction sweep, decoupled from damage application: scan
/// every health entry and destroy those at zero, emitting one smoke
/// and one debris request at the entity's last transform.
pub fn destroy_when_health_reaches_zero(units: &Vec<HealthAt>) -> (out: (
    Vec<u64>,
    Vec<SpawnVisualEvent>,
))
    ensures
        out.0@ == spec_sweep(units@).0,
        out.1@ == spec_sweep(units@).1,
{
    let mut destroys: Vec<u64> = Vec::new();
    let mut visuals: Vec<SpawnVisualEvent> = Vec::new();
    let n = units.len();
    let mut i: usize = 0;
    while i < n
        invariant
            n == units@.len(),
            i <= n,
            destroys@ == spec_sweep(units@.take(i as int)).0,
            visuals@ == spec_sweep(units@.take(i as int)).1,
        decreases n - i,
    {
        let u = units[i];
        if u.health.current == 0 {
            destroys.push(u.id);
            visuals.push(SpawnVisualEvent::default_smoke(u.pos));
            visuals.push(SpawnVisualEvent::Debris(u.pos));
        }
        proof {
            assert(units@.take(i + 1int).drop_last() =~= units@.take(i as int));
            assert(units@.take(i + 1int).last() == units@[i as int]);
        }
        i = i + 1;
    }
    proof {
        assert(units@.take(n as int) =~= units@);
    }
    (destroys, visuals)
}

} // verus!
