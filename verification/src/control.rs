//! Player ship control: the thrust and strafe state machine.
//!
//! Rotation and translation are the host's interpolation; what is
//! decided here, exactly, is how the throttle ramps, how a strafe
//! impulse fires and decays, and which thrust and fire events each
//! batch of input leaves behind.

use vstd::prelude::*;

use crate::events::{FireMissileEvent, ThrustEvent};
use crate::math::{spec_mul_div, Vec2I};

verus! {

/// The strafe impulse a trigger press sets, milli-units.
pub const STRAFE_IMPULSE_MILLI: i64 = 3_000;

/// Per-tick strafe decay numerator over 1000.
pub const STRAFE_DECAY_NUM: i64 = 895;

/// Below this magnitude a decaying strafe snaps to zero.
pub const STRAFE_SNAP_MILLI: i64 = 100;

/// One batch-entry of player input, already decoded to plain values.
#[derive(Clone, Copy, PartialEq, Eq, Structural, Debug)]
pub struct ControlInput {
    /// Left-stick direction in milli-units, when the stick is away
    /// from rest.
    pub stick: Option<Vec2I>,
    /// Strafe-left trigger held.
    pub strafe_left: bool,
    /// Strafe-right trigger held.
    pub strafe_right: bool,
    /// Either fire trigger pressed.
    pub fire_a: bool,
    /// The other fire trigger pressed.
    pub fire_b: bool,
}

/// The controlled state: throttle and strafe, both milli-units.
#[derive(Clone, Copy, PartialEq, Eq, Structural, Debug)]
pub struct ShipControl {
    pub thrust_milli: i64,
    pub strafe_milli: i64,
}

impl ShipControl {
    /// Thrust sits in `[0, 1000]`, strafe in
    /// `[-STRAFE_IMPULSE_MILLI, STRAFE_IMPULSE_MILLI]`.
    pub open spec fn wf(self) -> bool {
        &&& 0 <= self.thrust_milli <= 1_000
        &&& -STRAFE_IMPULSE_MILLI <= self.strafe_milli <= STRAFE_IMPULSE_MILLI
    }
}

/// Whether a stick sample is strong enough to throttle up: its
/// magnitude exceeds a tenth of a unit.
pub open spec fn spec_throttling(stick: Option<Vec2I>) -> bool {
    match stick {
        Some(v) => v.x * v.x + v.y * v.y > 10_000,
        None => false,
    }
}

/// One throttle ramp step: a tenth of the way from the current
/// thrust to full.
pub open spec fn spec_thrust_ramp(t: int) -> int {
    (t * 900) / 1000 + 100
}

/// One strafe decay step: scaled by 895/1000 toward zero, snapping
/// to zero below a tenth of a unit.
pub open spec fn spec_strafe_decay(s: int) -> int {
    if s > 0 {
        let d = (s * STRAFE_DECAY_NUM) / 1000;
        if d < STRAFE_SNAP_MILLI {
            0
        } else {
            d
        }
    } else if s < 0 {
        let d = -(((-s) * STRAFE_DECAY_NUM) / 1000);
        if d > -STRAFE_SNAP_MILLI {
            0
        } else {
            d
        }
    } else {
        0
    }
}

/// Raw gamepad state for one tick, already read from the device:
/// stick directions in milli-units (unit vectors when deflected) and
/// the trigger buttons.
#[derive(Clone, Copy, PartialEq, Eq, Structural, Debug)]
pub struct GamepadState {
    pub left_stick: Option<Vec2I>,
    pub right_stick: Option<Vec2I>,
    pub strafe_left: bool,
    pub strafe_right: bool,
    pub fire_a: bool,
    pub fire_b: bool,
}

impl GamepadState {
    /// Whether anything at all was pressed or deflected.
    pub open spec fn spec_any(self) -> bool {
        ||| (self.left_stick matches Some(v) && (v.x != 0 || v.y != 0))
        ||| (self.right_stick matches Some(v) && (v.x != 0 || v.y != 0))
        ||| self.strafe_left
        ||| self.strafe_right
        ||| self.fire_a
        ||| self.fire_b
    }
}

/// Decode one tick of gamepad state into a control event and an aim
/// direction for the railguns.  A deflected left stick steers the
/// ship, a deflected right stick aims the railguns, and nothing at
/// all yields no event, exactly as stated: the decode invents no
/// input and drops none.
pub fn gamepad_input(pad: GamepadState) -> (r: (Option<ControlInput>, Option<Vec2I>))
    ensures
        r.0 is Some <==> pad.spec_any(),
        pad.spec_any() ==> r.0 == Some(
            ControlInput {
                stick: match pad.left_stick {
                    Some(v) => if v.x != 0 || v.y != 0 {
                        Some(v)
                    } else {
                        None
                    },
                    None => None,
                },
                strafe_left: pad.strafe_left,
                strafe_right: pad.strafe_right,
                fire_a: pad.fire_a,
                fire_b: pad.fire_b,
            },
        ),
        r.1 == match pad.right_stick {
            Some(v) => if v.x != 0 || v.y != 0 {
                Some(v)
            } else {
                None
            },
            None => None,
        },
{
    let stick: Option<Vec2I> = match pad.left_stick {
        Some(v) => if v.x != 0 || v.y != 0 {
            Some(v)
        } else {
            None
        },
        None => None,
    };
    let dir: Option<Vec2I> = match pad.right_stick {
        Some(v) => if v.x != 0 || v.y != 0 {
            Some(v)
        } else {
            None
        },
        None => None,
    };
    let any = stick.is_some() || dir.is_some() || pad.strafe_left || pad.strafe_right
        || pad.fire_a || pad.fire_b;
    if any {
        (
            Some(
                ControlInput {
                    stick,
                    strafe_left: pad.strafe_left,
                    strafe_right: pad.strafe_right,
                    fire_a: pad.fire_a,
                    fire_b: pad.fire_b,
                },
            ),
            dir,
        )
    } else {
        (None, dir)
    }
}

/// The state after one input entry, and the thrust and fire events it
/// emits, in order: strafe impulses first, then the main-drive event
/// while thrust remains.
pub open spec fn spec_control_step(s: ShipControl, ev: ControlInput, entity: u64) -> (
    ShipControl,
    Seq<ThrustEvent>,
    Seq<FireMissileEvent>,
) {
    let thrust = if spec_throttling(ev.stick) {
        spec_thrust_ramp(s.thrust_milli as int)
    } else {
        s.thrust_milli as int
    };
    let side_events: Seq<ThrustEvent> = if s.strafe_milli == 0 {
        let lefts: Seq<ThrustEvent> = if ev.strafe_left {
            seq![ThrustEvent { entity, thrust_milli: 1000i64, side: -1i8 }]
        } else {
            Seq::empty()
        };
        if ev.strafe_right {
            lefts.push(ThrustEvent { entity, thrust_milli: 1000i64, side: 1i8 })
        } else {
            lefts
        }
    } else {
        Seq::empty()
    };
    let strafe = if s.strafe_milli == 0 {
        if ev.strafe_right {
            STRAFE_IMPULSE_MILLI as int
        } else if ev.strafe_left {
            -STRAFE_IMPULSE_MILLI as int
        } else {
            0
        }
    } else {
        spec_strafe_decay(s.strafe_milli as int)
    };
    let fires: Seq<FireMissileEvent> = if s.strafe_milli == 0 {
        let a: Seq<FireMissileEvent> = if ev.fire_a {
            seq![FireMissileEvent(entity)]
        } else {
            Seq::empty()
        };
        if ev.fire_b {
            a.push(FireMissileEvent(entity))
        } else {
            a
        }
    } else {
        Seq::empty()
    };
    let drive: Seq<ThrustEvent> = if thrust > 0 {
        side_events.push(ThrustEvent { entity, thrust_milli: thrust as i64, side: 0 })
    } else {
        side_events
    };
    (ShipControl { thrust_milli: thrust as i64, strafe_milli: strafe as i64 }, drive, fires)
}

/// The whole input batch folded in arrival order.
pub open spec fn spec_control_fold(s: ShipControl, evs: Seq<ControlInput>, entity: u64) -> (
    ShipControl,
    Seq<ThrustEvent>,
    Seq<FireMissileEvent>,
    bool,
)
    decreases evs.len(),
{
    if evs.len() == 0 {
        (s, Seq::empty(), Seq::empty(), false)
    } else {
        let prior = spec_control_fold(s, evs.drop_last(), entity);
        let step = spec_control_step(prior.0, evs.last(), entity);
        (
            step.0,
            prior.1 + step.1,
            prior.2 + step.2,
            prior.3 || spec_throttling(evs.last().stick),
        )
    }
}

/// Where one tick of drive carries the ship: the facing plus the
/// lateral strafe component, scaled by throttle times engine speed.
pub open spec fn spec_integrated_position(
    pos: Vec2I,
    forward: Vec2I,
    strafe_milli: i64,
    thrust_milli: i64,
    move_speed_milli: i64,
) -> (int, int) {
    let dx = forward.x + spec_mul_div(forward.y as int, strafe_milli as int, 1000int);
    let dy = forward.y + spec_mul_div(-(forward.x as int), strafe_milli as int, 1000int);
    let coeff = spec_mul_div(thrust_milli as int, move_speed_milli as int, 1000int);
    (pos.x + spec_mul_div(dx, coeff, 1000int), pos.y + spec_mul_div(dy, coeff, 1000int))
}

/// Advance the ship's position one tick: the facing direction plus
/// the strafe's lateral push, scaled by the throttle and the ship's
/// engine speed, exactly per `spec_integrated_position`.
pub fn integrate_movement(
    pos: Vec2I,
    forward: Vec2I,
    strafe_milli: i64,
    thrust_milli: i64,
    move_speed_milli: i64,
) -> (r: Vec2I)
    requires
        pos.in_combat_bounds(),
        -2_000 <= forward.x <= 2_000,
        -2_000 <= forward.y <= 2_000,
        -STRAFE_IMPULSE_MILLI <= strafe_milli <= STRAFE_IMPULSE_MILLI,
        0 <= thrust_milli <= 1_000,
        0 <= move_speed_milli <= 1_000_000,
    ensures
        r.x == spec_integrated_position(pos, forward, strafe_milli, thrust_milli, move_speed_milli).0,
        r.y == spec_integrated_position(pos, forward, strafe_milli, thrust_milli, move_speed_milli).1,
{
    let right = Vec2I { x: forward.y, y: -forward.x };
    let lateral = right.scaled_milli(strafe_milli);
    proof {
        crate::math::lemma_mul_div_bound(right.x as int, strafe_milli as int, 2_000int, 3_000int);
        crate::math::lemma_mul_div_bound(right.y as int, strafe_milli as int, 2_000int, 3_000int);
    }
    let dir = Vec2I { x: forward.x + lateral.x, y: forward.y + lateral.y };
    let coeff = crate::math::mul_div_milli(thrust_milli, move_speed_milli);
    proof {
        crate::math::lemma_mul_div_bound(
            thrust_milli as int,
            move_speed_milli as int,
            1_000int,
            1_000_000int,
        );
    }
    let step = dir.scaled_milli(coeff);
    proof {
        crate::math::lemma_mul_div_bound(dir.x as int, coeff as int, 8_000int, 1_000_000int);
        crate::math::lemma_mul_div_bound(dir.y as int, coeff as int, 8_000int, 1_000_000int);
    }
    Vec2I { x: pos.x + step.x, y: pos.y + step.y }
}

/// The idle throttle decay applied when no input throttled this tick.
pub open spec fn spec_thrust_idle(t: int) -> int {
    (t * 985) / 1000
}

/// Drive the ship through one tick's input batch: the state moves
/// exactly as `spec_control_fold` says, the throttle decays when no
/// entry throttled, and the emitted thrust and fire events come back
/// in order.
pub fn control_ship(state: &mut ShipControl, inputs: &Vec<ControlInput>, entity: u64) -> (out: (
    Vec<ThrustEvent>,
    Vec<FireMissileEvent>,
))
    requires
        old(state).wf(),
        forall|i: int| 0 <= i < inputs@.len() ==> match (#[trigger] inputs@[i]).stick {
            Some(v) => -2_000 <= v.x <= 2_000 && -2_000 <= v.y <= 2_000,
            None => true,
        },
    ensures
        final(state).wf(),
        ({
            let fold = spec_control_fold(*old(state), inputs@, entity);
            &&& out.0@ == fold.1
            &&& out.1@ == fold.2
            &&& final(state).strafe_milli == fold.0.strafe_milli
            &&& final(state).thrust_milli == if fold.3 {
                fold.0.thrust_milli as int
            } else {
                spec_thrust_idle(fold.0.thrust_milli as int)
            }
        }),
{
    let mut thrust_events: Vec<ThrustEvent> = Vec::new();
    let mut fire_events: Vec<FireMissileEvent> = Vec::new();
    let mut throttled = false;
    let n = inputs.len();
    let mut i: usize = 0;
    while i < n
        invariant
            n == inputs@.len(),
            i <= n,
            state.wf(),
            forall|j: int| 0 <= j < n ==> match (#[trigger] inputs@[j]).stick {
                Some(v) => -2_000 <= v.x <= 2_000 && -2_000 <= v.y <= 2_000,
                None => true,
            },
            ({
                let fold = spec_control_fold(*old(state), inputs@.take(i as int), entity);
                &&& *state == fold.0
                &&& thrust_events@ == fold.1
                &&& fire_events@ == fold.2
                &&& throttled == fold.3
            }),
        decreases n - i,
    {
        let ev = inputs[i];
        let throttling = match ev.stick {
            Some(v) => {
                proof {
                    crate::math::lemma_mul_le(v.x as int, v.x as int, 2_000int, 2_000int);
                    crate::math::lemma_mul_le(v.y as int, v.y as int, 2_000int, 2_000int);
                }
                v.x * v.x + v.y * v.y > 10_000
            },
            None => false,
        };
        if throttling {
            state.thrust_milli = (state.thrust_milli * 900) / 1000 + 100;
            throttled = true;
        }
        if state.strafe_milli == 0 {
            if ev.strafe_left {
                state.strafe_milli = -STRAFE_IMPULSE_MILLI;
                thrust_events.push(ThrustEvent { entity, thrust_milli: 1000, side: -1 });
            }
            if ev.strafe_right {
                state.strafe_milli = STRAFE_IMPULSE_MILLI;
                thrust_events.push(ThrustEvent { entity, thrust_milli: 1000, side: 1 });
            }
            if ev.fire_a {
                fire_events.push(FireMissileEvent(entity));
            }
            if ev.fire_b {
                fire_events.push(FireMissileEvent(entity));
            }
        } else {
            if state.strafe_milli > 0 {
                let d = (state.strafe_milli * STRAFE_DECAY_NUM) / 1000;
                state.strafe_milli = if d < STRAFE_SNAP_MILLI {
                    0
                } else {
                    d
                };
            } else {
                let d = -((-state.strafe_milli * STRAFE_DECAY_NUM) / 1000);
                state.strafe_milli = if d > -STRAFE_SNAP_MILLI {
                    0
                } else {
                    d
                };
            }
        }
        if state.thrust_milli > 0 {
            thrust_events.push(
                ThrustEvent { entity, thrust_milli: state.thrust_milli, side: 0 },
            );
        }
        proof {
            assert(inputs@.take(i + 1int).drop_last() =~= inputs@.take(i as int));
            assert(inputs@.take(i + 1int).last() == inputs@[i as int]);
        }
        i = i + 1;
    }
    proof {
        assert(inputs@.take(n as int) =~= inputs@);
    }
    if !throttled {
        state.thrust_milli = (state.thrust_milli * 985) / 1000;
    }
    (thrust_events, fire_events)
}

} // verus!
