//! The Izhikevich neuron state and its per-tick integration.
//!
//! All quantities are fixed-point numbers from [`crate::fx`].  A tick covers
//! an arbitrary elapsed interval; it is consumed in explicit-Euler sub-steps
//! of at most half a millisecond, the bound the scheme needs for stability
//! near the spike.  A sub-step whose candidate membrane potential reaches
//! the threshold commits the hard reset instead: `v` becomes the configured
//! reset value and `u` gains the configured increment.
//!
//! Degenerate inputs never raise errors: an absent (unrepresentable) or
//! non-positive elapsed time skips the tick, an absent synaptic sample is
//! stored as zero, and an absent parameter key or value leaves the state
//! untouched.

use vstd::prelude::*;
use crate::fx;
use crate::fx::{fx_add, fx_mul, fx_sub, in_range, sat};

verus! {

/// Spike threshold: a sub-step whose candidate membrane potential reaches
/// this value triggers the hard reset (30.0 mV in fixed-point).
pub const THRESHOLD_FX: i64 = 30_000_000;

/// Longest permitted sub-step, 0.5 ms in fixed-point; explicit Euler on
/// these mildly stiff equations must stay below this bound.
pub const HALF_MS_FX: i64 = 500_000;

/// Coefficient 0.04 of the quadratic term of `dv/dt`.
pub const QUAD_COEF_FX: i64 = 40_000;

/// Coefficient 5.0 of the linear term of `dv/dt`.
pub const LIN_COEF_FX: i64 = 5_000_000;

/// Constant term 140.0 of `dv/dt`.
pub const CONST_TERM_FX: i64 = 140_000_000;

/// One thousandth, the factor taking millivolts to volts.
pub const MILLI_FX: i64 = 1_000;

/// Default membrane potential, -65.0 mV.
pub const DEFAULT_V_FX: i64 = -65_000_000;

/// Default recovery variable, -13.0.
pub const DEFAULT_U_FX: i64 = -13_000_000;

/// Default recovery time scale `a`, 0.02.
pub const DEFAULT_A_FX: i64 = 20_000;

/// Default recovery sensitivity `b`, 0.2.
pub const DEFAULT_B_FX: i64 = 200_000;

/// Default post-spike reset potential `c`, -65.0 mV.
pub const DEFAULT_C_FX: i64 = -65_000_000;

/// Default post-spike recovery increment `d`, 8.0.
pub const DEFAULT_D_FX: i64 = 8_000_000;

/// A configurable field of the neuron state.
#[derive(Clone, Copy, Debug, PartialEq, Eq, Structural)]
pub enum Param {
    V,
    U,
    A,
    B,
    C,
    D,
}

/// An observable output channel.
#[derive(Clone, Copy, Debug, PartialEq, Eq, Structural)]
pub enum OutputChannel {
    PotentialVolts,
    PotentialMillivolts,
}

/// An internal variable a host may inspect.
#[derive(Clone, Copy, Debug, PartialEq, Eq, Structural)]
pub enum InternalVar {
    V,
    U,
}

/// The full state of one neuron: the two continuous variables, the four
/// model parameters, the sampled synaptic input, and the output cache.
#[derive(Clone, Copy, Debug, PartialEq, Eq, Structural)]
pub struct NeuronState {
    /// Membrane potential (mV), the fast variable.
    pub v: i64,
    /// Recovery variable, the slow variable.
    pub u: i64,
    /// Recovery time scale.
    pub a: i64,
    /// Sensitivity of `u` to `v`.
    pub b: i64,
    /// Post-spike reset value of `v` (mV).
    pub c: i64,
    /// Post-spike increment of `u`.
    pub d: i64,
    /// Synaptic input sampled for the coming tick.
    pub i_syn: i64,
    /// Membrane potential as of the end of the last completed tick (mV).
    pub v_mv: i64,
}

/// The synaptic value stored by [`NeuronState::set_input`]: an absent
/// sample is coerced to zero, a present one is clamped to the
/// representable interval.
pub open spec fn input_spec(value: Option<i64>) -> int {
    match value {
        None => 0,
        Some(x) => sat(x as int),
    }
}

/// The state left by [`NeuronState::set_parameter`]: an absent key or an
/// absent value changes nothing, otherwise the named field is overwritten
/// with the clamped value.
pub open spec fn set_parameter_spec(s: NeuronState, key: Option<Param>, value: Option<i64>) -> NeuronState {
    match (key, value) {
        (Some(k), Some(x)) => {
            let w = sat(x as int) as i64;
            match k {
                Param::V => NeuronState { v: w, ..s },
                Param::U => NeuronState { u: w, ..s },
                Param::A => NeuronState { a: w, ..s },
                Param::B => NeuronState { b: w, ..s },
                Param::C => NeuronState { c: w, ..s },
                Param::D => NeuronState { d: w, ..s },
            }
        },
        _ => s,
    }
}

/// Time derivative of `v` (per millisecond), evaluated at the pre-step
/// values `v` and `u`: `0.04*v^2 + 5*v + 140 - u + i_syn`, each operation
/// saturating.
pub open spec fn dv_spec(s: NeuronState, v: int, u: int) -> int {
    fx_add(fx_sub(fx_add(fx_add(fx_mul(fx_mul(QUAD_COEF_FX as int, v), v), fx_mul(LIN_COEF_FX as int, v)), CONST_TERM_FX as int), u), s.i_syn as int)
}

/// Time derivative of `u` (per millisecond), evaluated at the pre-step
/// values: `a * (b*v - u)`, each operation saturating.
pub open spec fn du_spec(s: NeuronState, v: int, u: int) -> int {
    fx_mul(s.a as int, fx_sub(fx_mul(s.b as int, v), u))
}

/// Raw Euler candidate for `v` after a sub-step of length `dt` (ms).
pub open spec fn euler_v_spec(s: NeuronState, v: int, u: int, dt: int) -> int {
    fx_add(v, fx_mul(dt, dv_spec(s, v, u)))
}

/// Raw Euler candidate for `u` after a sub-step of length `dt` (ms).
pub open spec fn euler_u_spec(s: NeuronState, v: int, u: int, dt: int) -> int {
    fx_add(u, fx_mul(dt, du_spec(s, v, u)))
}

/// One committed sub-step: the Euler candidates, unless the candidate `v`
/// reaches the threshold, in which case `v` is reset to `c` and `u` gains
/// `d` on top of its integrated value.
pub open spec fn sub_step_spec(s: NeuronState, v: int, u: int, dt: int) -> (int, int) {
    let vn = euler_v_spec(s, v, u, dt);
    let un = euler_u_spec(s, v, u, dt);
    if vn >= THRESHOLD_FX as int {
        (s.c as int, fx_add(un, s.d as int))
    } else {
        (vn, un)
    }
}

/// The pair `(v, u)` after consuming `remaining` milliseconds of
/// fixed-point time in sub-steps of `min(remaining, 0.5 ms)`.
pub open spec fn run_spec(s: NeuronState, v: int, u: int, remaining: int) -> (int, int)
    decreases remaining,
{
    if remaining <= 0 {
        (v, u)
    } else {
        let dt: int = if remaining < HALF_MS_FX as int {
            remaining
        } else {
            HALF_MS_FX as int
        };
        let st = sub_step_spec(s, v, u, dt);
        run_spec(s, st.0, st.1, remaining - dt)
    }
}

/// The milliseconds of sub-step time an elapsed time of `e` fixed-point
/// seconds buys, clamped to the representable interval.
pub open spec fn remaining_ms_spec(e: int) -> int {
    sat(e * 1000)
}

/// The state after one whole tick: unchanged for an absent or
/// non-positive elapsed time; otherwise `v` and `u` advance through all
/// sub-steps and the output cache `v_mv` is refreshed from the final `v`.
pub open spec fn tick_spec(s: NeuronState, elapsed: Option<i64>) -> NeuronState {
    match elapsed {
        None => s,
        Some(e) => if e <= 0 {
            s
        } else {
            let vu = run_spec(s, s.v as int, s.u as int, remaining_ms_spec(e as int));
            NeuronState { v: vu.0 as i64, u: vu.1 as i64, v_mv: vu.0 as i64, ..s }
        },
    }
}

/// What [`NeuronState::read_output`] returns: the cached potential in
/// millivolts, the same scaled to volts, or zero for an unknown channel.
pub open spec fn output_spec(s: NeuronState, channel: Option<OutputChannel>) -> int {
    match channel {
        Some(OutputChannel::PotentialVolts) => fx_mul(s.v_mv as int, MILLI_FX as int),
        Some(OutputChannel::PotentialMillivolts) => s.v_mv as int,
        None => 0,
    }
}

/// What [`NeuronState::read_internal`] returns: the live `v` or `u`, or
/// nothing for an unknown name.
pub open spec fn internal_spec(s: NeuronState, var: Option<InternalVar>) -> Option<i64> {
    match var {
        Some(InternalVar::V) => Some(s.v),
        Some(InternalVar::U) => Some(s.u),
        None => None,
    }
}

impl NeuronState {
    /// Every field lies in the representable fixed-point interval.
    pub open spec fn wf(self) -> bool {
        &&& in_range(self.v as int)
        &&& in_range(self.u as int)
        &&& in_range(self.a as int)
        &&& in_range(self.b as int)
        &&& in_range(self.c as int)
        &&& in_range(self.d as int)
        &&& in_range(self.i_syn as int)
        &&& in_range(self.v_mv as int)
    }

    /// The documented default state.
    pub open spec fn default_spec() -> NeuronState {
        NeuronState {
            v: DEFAULT_V_FX,
            u: DEFAULT_U_FX,
            a: DEFAULT_A_FX,
            b: DEFAULT_B_FX,
            c: DEFAULT_C_FX,
            d: DEFAULT_D_FX,
            i_syn: 0,
            v_mv: DEFAULT_V_FX,
        }
    }

    /// A fresh neuron in the default regular-spiking configuration.
    pub fn new() -> (s: NeuronState)
        ensures
            s == NeuronState::default_spec(),
            s.wf(),
    {
        NeuronState {
            v: DEFAULT_V_FX,
            u: DEFAULT_U_FX,
            a: DEFAULT_A_FX,
            b: DEFAULT_B_FX,
            c: DEFAULT_C_FX,
            d: DEFAULT_D_FX,
            i_syn: 0,
            v_mv: DEFAULT_V_FX,
        }
    }

    /// Store a synaptic sample for the coming tick.  An absent
    /// (unrepresentable) sample is stored as zero, so the state never
    /// holds one; only the last value stored before a tick is honoured.
    pub fn set_input(&mut self, value: Option<i64>)
        ensures
            final(self).i_syn as int == input_spec(value),
            final(self).v == old(self).v,
            final(self).u == old(self).u,
            final(self).a == old(self).a,
            final(self).b == old(self).b,
            final(self).c == old(self).c,
            final(self).d == old(self).d,
            final(self).v_mv == old(self).v_mv,
            old(self).wf() ==> final(self).wf(),
    {
        match value {
            None => {
                self.i_syn = 0;
            },
            Some(x) => {
                self.i_syn = fx::clamp_fx(x);
            },
        }
    }

    /// Overwrite one named parameter with a clamped value.  An absent key
    /// (an unknown name) or an absent (unrepresentable) value is silently
    /// ignored: this is a best-effort configuration sink.
    pub fn set_parameter(&mut self, key: Option<Param>, value: Option<i64>)
        ensures
            *final(self) == set_parameter_spec(*old(self), key, value),
            old(self).wf() ==> final(self).wf(),
    {
        if let (Some(k), Some(x)) = (key, value) {
            let w: i64 = fx::clamp_fx(x);
            match k {
                Param::V => self.v = w,
                Param::U => self.u = w,
                Param::A => self.a = w,
                Param::B => self.b = w,
                Param::C => self.c = w,
                Param::D => self.d = w,
            }
        }
    }

    /// One committed Euler sub-step of length `dt` milliseconds.
    fn sub_step(&mut self, dt: i64)
        requires
            old(self).wf(),
            in_range(dt as int),
        ensures
            final(self).v as int == sub_step_spec(*old(self), old(self).v as int, old(self).u as int, dt as int).0,
            final(self).u as int == sub_step_spec(*old(self), old(self).v as int, old(self).u as int, dt as int).1,
            final(self).a == old(self).a,
            final(self).b == old(self).b,
            final(self).c == old(self).c,
            final(self).d == old(self).d,
            final(self).i_syn == old(self).i_syn,
            final(self).v_mv == old(self).v_mv,
            final(self).wf(),
    {
        let v0 = self.v;
        let u0 = self.u;
        let quad = fx::mul_fx(fx::mul_fx(QUAD_COEF_FX, v0), v0);
        let lin = fx::mul_fx(LIN_COEF_FX, v0);
        let dv = fx::add_fx(fx::sub_fx(fx::add_fx(fx::add_fx(quad, lin), CONST_TERM_FX), u0), self.i_syn);
        let du = fx::mul_fx(self.a, fx::sub_fx(fx::mul_fx(self.b, v0), u0));
        let vn = fx::add_fx(v0, fx::mul_fx(dt, dv));
        let un = fx::add_fx(u0, fx::mul_fx(dt, du));
        if vn >= THRESHOLD_FX {
            self.v = self.c;
            self.u = fx::add_fx(un, self.d);
        } else {
            self.v = vn;
            self.u = un;
        }
    }

    /// Advance the state across `elapsed` fixed-point seconds of wall
    /// clock.  An absent (unrepresentable) or non-positive elapsed time
    /// skips the tick and leaves the state exactly as it was; otherwise
    /// the interval, converted to milliseconds, is consumed in sub-steps
    /// of at most half a millisecond and the output cache is refreshed.
    pub fn integrate(&mut self, elapsed: Option<i64>)
        requires
            old(self).wf(),
        ensures
            *final(self) == tick_spec(*old(self), elapsed),
            final(self).wf(),
    {
        let e: i64 = match elapsed {
            None => {
                return;
            },
            Some(e) => e,
        };
        if e <= 0 {
            return;
        }
        let p: i128 = (e as i128) * 1000;
        let mut remaining: i64 = if p > fx::FX_MAX as i128 {
            fx::FX_MAX
        } else {
            p as i64
        };
        let ghost target: (int, int) = run_spec(*old(self), old(self).v as int, old(self).u as int, remaining as int);
        while remaining > 0
            invariant
                self.a == old(self).a,
                self.b == old(self).b,
                self.c == old(self).c,
                self.d == old(self).d,
                self.i_syn == old(self).i_syn,
                self.v_mv == old(self).v_mv,
                self.wf(),
                0 <= remaining,
                in_range(remaining as int),
                run_spec(*old(self), self.v as int, self.u as int, remaining as int) == target,
            decreases remaining,
        {
            let dt: i64 = if remaining < HALF_MS_FX {
                remaining
            } else {
                HALF_MS_FX
            };
            remaining = remaining - dt;
            let ghost vp: int = self.v as int;
            let ghost up: int = self.u as int;
            let ghost prev: NeuronState = *self;
            self.sub_step(dt);
            proof {
                lemma_sub_step_params_only(*old(self), prev, vp, up, dt as int);
            }
        }
        self.v_mv = self.v;
    }

    /// Read one observable output: the cached potential in millivolts or
    /// in volts, or zero for an unknown channel.
    pub fn read_output(&self, channel: Option<OutputChannel>) -> (r: i64)
        requires
            self.wf(),
        ensures
            r as int == output_spec(*self, channel),
    {
        match channel {
            Some(OutputChannel::PotentialVolts) => fx::mul_fx(self.v_mv, MILLI_FX),
            Some(OutputChannel::PotentialMillivolts) => self.v_mv,
            None => 0,
        }
    }

    /// Read one internal variable, or nothing for an unknown name.
    pub fn read_internal(&self, var: Option<InternalVar>) -> (r: Option<i64>)
        ensures
            r == internal_spec(*self, var),
    {
        match var {
            Some(InternalVar::V) => Some(self.v),
            Some(InternalVar::U) => Some(self.u),
            None => None,
        }
    }
}

impl Default for NeuronState {
    /// The documented default state.
    fn default() -> (s: NeuronState)
        ensures
            s == NeuronState::default_spec(),
            s.wf(),
    {
        NeuronState::new()
    }
}

/// A sub-step reads only the parameters and the sampled input from the
/// state, never its `v`, `u` or `v_mv` fields, which it takes explicitly.
pub proof fn lemma_sub_step_params_only(s1: NeuronState, s2: NeuronState, v: int, u: int, dt: int)
    requires
        s1.a == s2.a,
        s1.b == s2.b,
        s1.c == s2.c,
        s1.d == s2.d,
        s1.i_syn == s2.i_syn,
    ensures
        sub_step_spec(s1, v, u, dt) == sub_step_spec(s2, v, u, dt),
{
}

} // verus!

