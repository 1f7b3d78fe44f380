//! Projectile flight: velocity integration, the activation window,
//! and noise-driven wobble.
//!
//! Every entity with a velocity advances by it once per tick.  While
//! an activation countdown remains, the velocity is damped to 35% and
//! the countdown shrinks by the elapsed time; once it reaches zero the
//! component is removed and full velocity applies permanently.
//! Entities carrying the noise marker add a lateral wobble scaled by
//! the square of the velocity factor and the square of the sprite
//! scale, so wobble all but vanishes during the slow pre-activation
//! phase and grows with projectile size.  The noise sample itself is
//! an input: the core is verified for every value of it.

use vstd::prelude::*;

use crate::components::ActivationTime;
use crate::math::{spec_mul_div, Vec2I};

verus! {

/// The damped velocity factor applied inside the activation window,
/// in milli-units.
pub const ACTIVATION_FACTOR_MILLI: i64 = 350;

/// The full velocity factor applied after activation, in milli-units.
pub const FULL_FACTOR_MILLI: i64 = 1000;

/// Flight state of one moving entity.
#[derive(Clone, Copy, PartialEq, Eq, Structural, Debug)]
pub struct FlightState {
    pub pos: Vec2I,
    pub vel: Vec2I,
    pub activation: Option<ActivationTime>,
    pub scale_milli: i64,
    pub has_noise: bool,
}

impl FlightState {
    /// The bands inside which one flight step can neither overflow
    /// nor leave the world box's wide margin.
    pub open spec fn wf(self) -> bool {
        &&& self.pos.in_bounds()
        &&& -100_000_000 <= self.vel.x <= 100_000_000
        &&& -100_000_000 <= self.vel.y <= 100_000_000
        &&& match self.activation {
            Some(a) => 0 <= a.0 <= 2_000_000,
            None => true,
        }
        &&& 0 <= self.scale_milli <= 4_000
    }
}

/// The velocity factor an entity flies with: damped while an
/// activation countdown remains, full afterwards.
pub open spec fn spec_velocity_factor(activation: Option<ActivationTime>) -> int {
    if activation is Some {
        ACTIVATION_FACTOR_MILLI as int
    } else {
        FULL_FACTOR_MILLI as int
    }
}

/// The activation countdown after `dt_ms` elapsed: decremented, and
/// removed once it reaches zero.
pub open spec fn spec_activation_after(a: Option<ActivationTime>, dt_ms: i64) -> Option<
    ActivationTime,
> {
    match a {
        None => None,
        Some(t) => if t.0 - dt_ms <= 0 {
            None
        } else {
            Some(ActivationTime((t.0 - dt_ms) as i64))
        },
    }
}

/// The lateral wobble coefficient: the noise sample scaled by the
/// squared velocity factor and the squared sprite scale, all in
/// fixed point.
pub open spec fn spec_wobble_coeff(noise_milli: i64, factor: int, scale_milli: i64) -> int {
    let f2 = spec_mul_div(factor, factor, 1000);
    let s2 = spec_mul_div(scale_milli as int, scale_milli as int, 1000);
    let c1 = spec_mul_div(noise_milli as int, f2, 1000);
    spec_mul_div(c1, s2, 1000)
}

/// Advance one entity one tick: shrink the activation window, damp
/// the velocity while it remains, and add the wobble the noise sample
/// dictates.  The exact new position is pinned; velocity, scale and
/// the noise marker are untouched.
pub fn fly_velocity(
    state: &mut FlightState,
    dt_ms: i64,
    noise_milli: i64,
    lateral_milli: Vec2I,
)
    requires
        old(state).wf(),
        0 <= dt_ms <= 1_000_000,
        -2_000 <= noise_milli <= 2_000,
        -2_000 <= lateral_milli.x <= 2_000,
        -2_000 <= lateral_milli.y <= 2_000,
    ensures
        final(state).vel == old(state).vel,
        final(state).scale_milli == old(state).scale_milli,
        final(state).has_noise == old(state).has_noise,
        final(state).activation == spec_activation_after(old(state).activation, dt_ms),
        ({
            let factor = spec_velocity_factor(old(state).activation);
            let wx = if old(state).has_noise {
                spec_mul_div(
                    lateral_milli.x as int,
                    spec_wobble_coeff(noise_milli, factor, old(state).scale_milli),
                    1000,
                )
            } else {
                0int
            };
            let wy = if old(state).has_noise {
                spec_mul_div(
                    lateral_milli.y as int,
                    spec_wobble_coeff(noise_milli, factor, old(state).scale_milli),
                    1000,
                )
            } else {
                0int
            };
            &&& final(state).pos.x == old(state).pos.x + spec_mul_div(
                old(state).vel.x as int,
                factor,
                1000,
            ) + wx
            &&& final(state).pos.y == old(state).pos.y + spec_mul_div(
                old(state).vel.y as int,
                factor,
                1000,
            ) + wy
        }),
{
    let factor: i64 = match state.activation {
        Some(t) => {
            if t.0 - dt_ms <= 0 {
                state.activation = None;
            } else {
                state.activation = Some(ActivationTime(t.0 - dt_ms));
            }
            ACTIVATION_FACTOR_MILLI
        },
        None => FULL_FACTOR_MILLI,
    };
    let step = state.vel.scaled_milli(factor);
    proof {
        crate::math::lemma_mul_div_bound(
            old(state).vel.x as int,
            factor as int,
            100_000_000int,
            1000int,
        );
        crate::math::lemma_mul_div_bound(
            old(state).vel.y as int,
            factor as int,
            100_000_000int,
            1000int,
        );
    }
    let wobble: Vec2I = if state.has_noise {
        let f2 = crate::math::mul_div_milli(factor, factor);
        proof {
            crate::math::lemma_mul_div_bound(factor as int, factor as int, 1000int, 1000int);
        }
        let s2 = crate::math::mul_div_milli(state.scale_milli, state.scale_milli);
        proof {
            crate::math::lemma_mul_div_bound(
                old(state).scale_milli as int,
                old(state).scale_milli as int,
                4000int,
                4000int,
            );
        }
        let c1 = crate::math::mul_div_milli(noise_milli, f2);
        proof {
            crate::math::lemma_mul_div_bound(noise_milli as int, f2 as int, 2000int, 1000int);
        }
        let coeff = crate::math::mul_div_milli(c1, s2);
        proof {
            crate::math::lemma_mul_div_bound(c1 as int, s2 as int, 2000int, 16000int);
        }
        let w = lateral_milli.scaled_milli(coeff);
        proof {
            crate::math::lemma_mul_div_bound(lateral_milli.x as int, coeff as int, 2000int, 32000int);
            crate::math::lemma_mul_div_bound(lateral_milli.y as int, coeff as int, 2000int, 32000int);
        }
        w
    } else {
        Vec2I::zero()
    };
    state.pos = Vec2I {
        x: state.pos.x + step.x + wobble.x,
        y: state.pos.y + step.y + wobble.y,
    };
}

/// The total of a sequence of tick durations.
pub open spec fn spec_sum(dts: Seq<i64>) -> int
    decreases dts.len(),
{
    if dts.len() == 0 {
        0
    } else {
        dts[0] + spec_sum(dts.drop_first())
    }
}

/// The activation countdown after a whole run of ticks.
pub open spec fn spec_iter_activation(a: Option<ActivationTime>, dts: Seq<i64>) -> Option<
    ActivationTime,
>
    decreases dts.len(),
{
    if dts.len() == 0 {
        a
    } else {
        spec_iter_activation(spec_activation_after(a, dts[0]), dts.drop_first())
    }
}

/// A removed activation window never comes back.
pub proof fn lemma_activation_stays_removed(dts: Seq<i64>)
    ensures
        spec_iter_activation(None, dts) is None,
    decreases dts.len(),
{
    if dts.len() > 0 {
        lemma_activation_stays_removed(dts.drop_first());
    }
}

/// The activation window runs out exactly on time: for a projectile
/// spawned with countdown `t`, once the elapsed time reaches `t` the
/// component is absent and the velocity factor is the full 1000
/// milli-units; before that it is present with exactly the remaining
/// time, and the factor is the damped 350.
pub proof fn lemma_activation_window(t: i64, dts: Seq<i64>)
    requires
        0 < t <= 2_000_000,
        forall|i: int| 0 <= i < dts.len() ==> 0 <= #[trigger] dts[i] <= 1_000_000,
    ensures
        spec_sum(dts) >= t ==> {
            &&& spec_iter_activation(Some(ActivationTime(t)), dts) is None
            &&& spec_velocity_factor(spec_iter_activation(Some(ActivationTime(t)), dts)) == 1000
        },
        spec_sum(dts) < t ==> {
            &&& spec_iter_activation(Some(ActivationTime(t)), dts) == Some(
                ActivationTime((t - spec_sum(dts)) as i64),
            )
            &&& spec_velocity_factor(spec_iter_activation(Some(ActivationTime(t)), dts)) == 350
        },
    decreases dts.len(),
{
    assert(spec_sum(dts) >= 0) by {
        lemma_sum_nonneg(dts);
    }
    if dts.len() == 0 {
    } else {
        let rest = dts.drop_first();
        assert(forall|i: int| 0 <= i < rest.len() ==> 0 <= #[trigger] rest[i] <= 1_000_000);
        if t - dts[0] <= 0 {
            lemma_activation_stays_removed(rest);
            assert(spec_sum(dts) >= t) by {
                lemma_sum_nonneg(rest);
            }
        } else {
            lemma_activation_window((t - dts[0]) as i64, rest);
        }
    }
}

/// Tick durations are nonnegative, so their total is too.
pub proof fn lemma_sum_nonneg(dts: Seq<i64>)
    requires
        forall|i: int| 0 <= i < dts.len() ==> 0 <= #[trigger] dts[i],
    ensures
        spec_sum(dts) >= 0,
    decreases dts.len(),
{
    if dts.len() > 0 {
        lemma_sum_nonneg(dts.drop_first());
    }
}

} // verus!
