//! The spatial index: positions of registered entities, rebuilt
//! wholesale at a fixed cadence and queried by radius.
//!
//! Combat entities churn every few ticks, so the index does not track
//! every mutation: it is rebuilt from a snapshot of the world on its
//! own timer, and every query is a snapshot read against the most
//! recent rebuild.  Entities created or destroyed since then may be
//! absent or dangling; consumers treat a present-but-invalid entity
//! reference as a no-op, never an error.

use vstd::prelude::*;

use crate::math::{spec_dist_sq, Vec2I, COORD_LIMIT};

verus! {

/// One registered entity: where it stood at the last rebuild, and its
/// identity if the registration still carries one.
#[derive(Clone, Copy, PartialEq, Eq, Structural, Debug)]
pub struct SpatialEntry {
    pub pos: Vec2I,
    pub entity: Option<u64>,
}

/// One query answer: the squared distance from the query point, and
/// the possibly dangling entity reference.
#[derive(Clone, Copy, PartialEq, Eq, Structural, Debug)]
pub struct SpatialHit {
    pub dist_sq: i64,
    pub entity: Option<u64>,
}

/// The hit a query reports for a stored entry.
pub open spec fn spec_hit(e: SpatialEntry, p: Vec2I) -> SpatialHit {
    SpatialHit { dist_sq: spec_dist_sq(p, e.pos) as i64, entity: e.entity }
}

/// Whether a stored entry answers a query at `p` with radius
/// `radius`: its squared distance is at most the squared radius.
pub open spec fn spec_within(e: SpatialEntry, p: Vec2I, radius: i64) -> bool {
    spec_dist_sq(p, e.pos) <= radius * radius
}

/// The answer to a radius query over a snapshot: the hits for exactly
/// the entries within the radius, in storage order.
pub open spec fn spec_query(entries: Seq<SpatialEntry>, p: Vec2I, radius: i64) -> Seq<SpatialHit>
    decreases entries.len(),
{
    if entries.len() == 0 {
        Seq::empty()
    } else {
        let prior = spec_query(entries.drop_last(), p, radius);
        if spec_within(entries.last(), p, radius) {
            prior.push(spec_hit(entries.last(), p))
        } else {
            prior
        }
    }
}

/// The periodically rebuilt 2D index over registered entities.
pub struct SpatialIndex {
    /// The entries captured at the last rebuild.
    pub snapshot: Vec<SpatialEntry>,
    /// Milliseconds elapsed since the last rebuild.
    pub since_rebuild_ms: i64,
    /// Rebuild cadence in milliseconds.
    pub interval_ms: i64,
}

impl SpatialIndex {
    /// Every stored position is inside the world box and the timer
    /// state is sane.
    pub open spec fn wf(self) -> bool {
        &&& forall|i: int| 0 <= i < self.snapshot@.len() ==> (#[trigger] self.snapshot@[i]).pos.in_bounds()
        &&& 0 < self.interval_ms <= 1_000_000
        &&& 0 <= self.since_rebuild_ms <= 2_000_000
    }

    /// An empty index with the given rebuild cadence.
    pub fn new(interval_ms: i64) -> (r: SpatialIndex)
        requires
            0 < interval_ms <= 1_000_000,
        ensures
            r.wf(),
            r.snapshot@.len() == 0,
            r.interval_ms == interval_ms,
            r.since_rebuild_ms == 0,
    {
        SpatialIndex { snapshot: Vec::new(), since_rebuild_ms: 0, interval_ms }
    }

    /// Advance the rebuild timer; report whether a rebuild is due.
    /// The timer saturates while no rebuild happens, so a long stall
    /// cannot overflow it.
    pub fn advance_timer(&mut self, dt_ms: i64) -> (due: bool)
        requires
            old(self).wf(),
            0 <= dt_ms <= 1_000_000,
        ensures
            final(self).wf(),
            final(self).snapshot == old(self).snapshot,
            final(self).interval_ms == old(self).interval_ms,
            final(self).since_rebuild_ms == if old(self).since_rebuild_ms + dt_ms <= 2_000_000 {
                old(self).since_rebuild_ms + dt_ms
            } else {
                2_000_000int
            },
            due == (final(self).since_rebuild_ms >= final(self).interval_ms),
    {
        if self.since_rebuild_ms + dt_ms <= 2_000_000 {
            self.since_rebuild_ms = self.since_rebuild_ms + dt_ms;
        } else {
            self.since_rebuild_ms = 2_000_000;
        }
        self.since_rebuild_ms >= self.interval_ms
    }

    /// Replace the snapshot wholesale and restart the cadence timer.
    pub fn rebuild(&mut self, entries: Vec<SpatialEntry>)
        requires
            old(self).wf(),
            forall|i: int| 0 <= i < entries@.len() ==> (#[trigger] entries@[i]).pos.in_bounds(),
        ensures
            final(self).wf(),
            final(self).snapshot == entries,
            final(self).since_rebuild_ms == 0,
            final(self).interval_ms == old(self).interval_ms,
    {
        self.snapshot = entries;
        self.since_rebuild_ms = 0;
    }

    /// Which registered entities lie within `radius` of `p`, as of the
    /// most recent rebuild: a snapshot read, exact per `spec_query`.
    pub fn within_distance(&self, p: Vec2I, radius: i64) -> (out: Vec<SpatialHit>)
        requires
            self.wf(),
            p.in_bounds(),
            0 <= radius <= COORD_LIMIT,
        ensures
            out@ == spec_query(self.snapshot@, p, radius),
    {
        let r2 = radius_sq(radius);
        let mut out: Vec<SpatialHit> = Vec::new();
        let n = self.snapshot.len();
        let mut i: usize = 0;
        while i < n
            invariant
                n == self.snapshot@.len(),
                i <= n,
                self.wf(),
                p.in_bounds(),
                0 <= radius <= COORD_LIMIT,
                r2 == radius * radius,
                out@ == spec_query(self.snapshot@.take(i as int), p, radius),
            decreases n - i,
        {
            let e = self.snapshot[i];
            let d2 = p.dist_sq(e.pos);
            if d2 <= r2 {
                out.push(SpatialHit { dist_sq: d2, entity: e.entity });
            }
            proof {
                let pre = self.snapshot@.take(i as int);
                let post = self.snapshot@.take(i + 1int);
                assert(post.drop_last() =~= pre);
                assert(post.last() == self.snapshot@[i as int]);
            }
            i = i + 1;
        }
        proof {
            assert(self.snapshot@.take(n as int) =~= self.snapshot@);
        }
        out
    }
}

/// The squared query radius, overflow-free for world-sized radii.
pub fn radius_sq(radius: i64) -> (r: i64)
    requires
        0 <= radius <= COORD_LIMIT,
    ensures
        r == radius * radius,
{
    proof {
        crate::math::lemma_mul_le(radius as int, radius as int, 1_000_000_000int, 1_000_000_000int);
    }
    radius * radius
}

} // verus!
