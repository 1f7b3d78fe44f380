//! Lifecycle timers: the per-tick opacity fadeout that bounds every
//! projectile's life.
//!
//! A fading entity loses a fixed amount of opacity each tick.  While
//! opacity remains it merely dims; the tick that would take it to or
//! below zero destroys the entity and queues an explosion in its
//! place.

use vstd::prelude::*;

use crate::events::SpawnVisualEvent;
use crate::math::Vec2I;

verus! {

/// An entity that fades: its sprite opacity in milli-units of full,
/// the per-tick decay, and where it is.
#[derive(Clone, Copy, PartialEq, Eq, Structural, Debug)]
pub struct FadingSprite {
    pub id: u64,
    pub opacity_milli: i64,
    pub decay_milli: i64,
    pub pos: Vec2I,
}

impl FadingSprite {
    /// Opacity and decay sit in the milli-opacity band.
    pub open spec fn wf(self) -> bool {
        0 <= self.opacity_milli <= 1_000 && 0 <= self.decay_milli <= 1_000
    }
}

/// The opacity one fade tick leaves: the decay subtracted, floored at
/// zero.
pub open spec fn spec_faded_opacity(opacity: i64, decay: i64) -> int {
    if opacity - decay > 0 {
        opacity - decay
    } else {
        0
    }
}

/// The fadeout pass over every fading entity: each loses its decay of
/// opacity; those that reach zero are destroyed and replaced by an
/// explosion at their position, in table order.
pub open spec fn spec_fadeout(faders: Seq<FadingSprite>) -> (
    Seq<FadingSprite>,
    Seq<u64>,
    Seq<SpawnVisualEvent>,
)
    decreases faders.len(),
{
    if faders.len() == 0 {
        (Seq::empty(), Seq::empty(), Seq::empty())
    } else {
        let prior = spec_fadeout(faders.drop_last());
        let f = faders.last();
        let alpha = spec_faded_opacity(f.opacity_milli, f.decay_milli);
        if alpha > 0 {
            (
                prior.0.push(FadingSprite { opacity_milli: alpha as i64, ..f }),
                prior.1,
                prior.2,
            )
        } else {
            (
                prior.0.push(FadingSprite { opacity_milli: 0, ..f }),
                prior.1.push(f.id),
                prior.2.push(SpawnVisualEvent::Explosion(f.pos)),
            )
        }
    }
}

/// Fade every entity one tick, exactly per `spec_fadeout`: the new
/// fade states, the entities to destroy, and the queued explosions.
pub fn fadeout(faders: &mut Vec<FadingSprite>) -> (out: (Vec<u64>, Vec<SpawnVisualEvent>))
    requires
        forall|i: int| 0 <= i < old(faders)@.len() ==> (#[trigger] old(faders)@[i]).wf(),
    ensures
        final(faders)@ == spec_fadeout(old(faders)@).0,
        out.0@ == spec_fadeout(old(faders)@).1,
        out.1@ == spec_fadeout(old(faders)@).2,
{
    let mut destroys: Vec<u64> = Vec::new();
    let mut visuals: Vec<SpawnVisualEvent> = Vec::new();
    let n = faders.len();
    let mut i: usize = 0;
    while i < n
        invariant
            n == old(faders)@.len(),
            faders@.len() == n,
            i <= n,
            forall|j: int| 0 <= j < n ==> (#[trigger] old(faders)@[j]).wf(),
            forall|j: int| i <= j < n ==> #[trigger] faders@[j] == old(faders)@[j],
            faders@.take(i as int) == spec_fadeout(old(faders)@.take(i as int)).0,
            destroys@ == spec_fadeout(old(faders)@.take(i as int)).1,
            visuals@ == spec_fadeout(old(faders)@.take(i as int)).2,
        decreases n - i,
    {
        let mut f = faders[i];
        let alpha = if f.opacity_milli - f.decay_milli > 0 {
            f.opacity_milli - f.decay_milli
        } else {
            0
        };
        f.opacity_milli = alpha;
        if alpha == 0 {
            destroys.push(f.id);
            visuals.push(SpawnVisualEvent::Explosion(f.pos));
        }
        let ghost pre = faders@;
        faders.set(i, f);
        proof {
            assert(old(faders)@.take(i + 1int).drop_last() =~= old(faders)@.take(i as int));
            assert(old(faders)@.take(i + 1int).last() == old(faders)@[i as int]);
            assert(faders@.take(i as int) =~= pre.take(i as int));
            assert(faders@.take(i + 1int) =~= pre.take(i as int).push(f));
        }
        i = i + 1;
    }
    proof {
        assert(old(faders)@.take(n as int) =~= old(faders)@);
        assert(faders@.take(n as int) =~= faders@);
    }
    (destroys, visuals)
}

} // verus!
