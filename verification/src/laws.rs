//! The behavioural laws of the neuron, stated and proved once and for all:
//! determinism, the degenerate-tick guard, sub-step composition, the reset
//! rule, the subthreshold observation bound, and the output scaling.

use vstd::prelude::*;
use vstd::arithmetic::div_mod::{
    lemma_div_denominator, lemma_div_multiples_vanish, lemma_div_nonincreasing,
    lemma_div_pos_is_pos,
};
use crate::fx;
use crate::fx::{fx_add, in_range};
use crate::neuron::{
    euler_u_spec, euler_v_spec, input_spec, output_spec, remaining_ms_spec, run_spec,
    sub_step_spec, tick_spec, lemma_sub_step_params_only, NeuronState, OutputChannel,
    HALF_MS_FX, THRESHOLD_FX,
};

verus! {

/// The state after one host cycle: the synaptic sample is stored, then one
/// tick of the given elapsed time is integrated.
pub open spec fn cycle_spec(s: NeuronState, input: Option<i64>, elapsed: Option<i64>) -> NeuronState {
    tick_spec(NeuronState { i_syn: input_spec(input) as i64, ..s }, elapsed)
}

/// The state after a whole sequence of host cycles, each a pair of a
/// synaptic sample and an elapsed time.
pub open spec fn run_cycles_spec(s: NeuronState, cycles: Seq<(Option<i64>, Option<i64>)>) -> NeuronState
    decreases cycles.len(),
{
    if cycles.len() == 0 {
        s
    } else {
        run_cycles_spec(cycle_spec(s, cycles[0].0, cycles[0].1), cycles.drop_first())
    }
}

/// Determinism: from equal initial states, an identical sequence of
/// (synaptic sample, elapsed time) pairs yields identical trajectories.
/// The state is a pure value and every operation's contract pins its
/// result as a function of state and arguments alone, so two runs cannot
/// diverge.
pub proof fn lemma_determinism(s1: NeuronState, s2: NeuronState, cycles: Seq<(Option<i64>, Option<i64>)>)
    requires
        s1 == s2,
    ensures
        run_cycles_spec(s1, cycles) == run_cycles_spec(s2, cycles),
{
}

/// Degenerate-tick guard: an absent (unrepresentable) or non-positive
/// elapsed time leaves the whole state, `v_mv` included, exactly as it was.
pub proof fn lemma_no_op_guard(s: NeuronState, elapsed: Option<i64>)
    requires
        match elapsed {
            None => true,
            Some(e) => e <= 0,
        },
    ensures
        tick_spec(s, elapsed) == s,
{
}

/// Reset rule: whenever the raw Euler candidate for `v` reaches the
/// threshold, the committed sub-step yields the configured reset value for
/// `v` and the integrated `u` plus the configured increment; otherwise the
/// raw candidates are committed unchanged.
pub proof fn lemma_reset_rule(s: NeuronState, v: int, u: int, dt: int)
    ensures
        euler_v_spec(s, v, u, dt) >= THRESHOLD_FX as int ==> sub_step_spec(s, v, u, dt)
            == (s.c as int, fx_add(euler_u_spec(s, v, u, dt), s.d as int)),
        euler_v_spec(s, v, u, dt) < THRESHOLD_FX as int ==> sub_step_spec(s, v, u, dt)
            == (euler_v_spec(s, v, u, dt), euler_u_spec(s, v, u, dt)),
{
}

/// The sub-step loop reads only the parameters and the sampled input from
/// the state, so two states that agree on those fields run identically.
pub proof fn lemma_run_params_only(s1: NeuronState, s2: NeuronState, v: int, u: int, r: int)
    requires
        s1.a == s2.a,
        s1.b == s2.b,
        s1.c == s2.c,
        s1.d == s2.d,
        s1.i_syn == s2.i_syn,
    ensures
        run_spec(s1, v, u, r) == run_spec(s2, v, u, r),
    decreases r,
{
    if r > 0 {
        let dt: int = if r < HALF_MS_FX as int {
            r
        } else {
            HALF_MS_FX as int
        };
        lemma_sub_step_params_only(s1, s2, v, u, dt);
        let st = sub_step_spec(s1, v, u, dt);
        lemma_run_params_only(s1, s2, st.0, st.1, r - dt);
    }
}

/// Starting from representable `v` and `u`, the sub-step loop keeps both
/// representable: every committed value is either clamped or the
/// configured reset value.
pub proof fn lemma_run_in_range(s: NeuronState, v: int, u: int, r: int)
    requires
        in_range(v),
        in_range(u),
        in_range(s.c as int),
    ensures
        in_range(run_spec(s, v, u, r).0),
        in_range(run_spec(s, v, u, r).1),
    decreases r,
{
    if r > 0 {
        let dt: int = if r < HALF_MS_FX as int {
            r
        } else {
            HALF_MS_FX as int
        };
        let st = sub_step_spec(s, v, u, dt);
        lemma_run_in_range(s, st.0, st.1, r - dt);
    }
}

/// Sub-step composition: consuming `k` whole half-millisecond steps and
/// then `r2` more time equals consuming `k * 0.5 ms + r2` at once.  The
/// first portion must be a whole number of maximal sub-steps, so that the
/// two schedules cut the interval at the same points.
pub proof fn lemma_run_split(s: NeuronState, v: int, u: int, k: nat, r2: int)
    requires
        r2 >= 0,
    ensures
        run_spec(s, v, u, k * (HALF_MS_FX as int) + r2) == run_spec(
            s,
            run_spec(s, v, u, k * (HALF_MS_FX as int)).0,
            run_spec(s, v, u, k * (HALF_MS_FX as int)).1,
            r2,
        ),
    decreases k,
{
    let h = HALF_MS_FX as int;
    if k == 0 {
        assert(k * h == 0);
    } else {
        assert(k * h - h == (k - 1) * h);
        assert(k * h >= h);
        let st = sub_step_spec(s, v, u, h);
        assert(run_spec(s, v, u, k * h + r2) == run_spec(s, st.0, st.1, k * h + r2 - h));
        assert(run_spec(s, v, u, k * h) == run_spec(s, st.0, st.1, k * h - h));
        lemma_run_split(s, st.0, st.1, (k - 1) as nat, r2);
    }
}

/// Tick composition: integrating one interval in a single tick equals
/// integrating it as two consecutive ticks, provided the first tick is a
/// whole number of half-millisecond sub-steps (`k * 500` fixed-point
/// seconds is `k * 0.5 ms`) and the total is small enough that the
/// conversion to milliseconds does not saturate.
pub proof fn lemma_tick_split(s: NeuronState, e1: i64, e2: i64, esum: i64, k: nat)
    requires
        s.wf(),
        e1 == k * 500,
        0 < e1,
        0 < e2,
        esum == e1 + e2,
        esum * 1000 <= fx::FX_MAX as int,
    ensures
        tick_spec(tick_spec(s, Some(e1)), Some(e2)) == tick_spec(s, Some(esum)),
{
    let h = HALF_MS_FX as int;
    let v0 = s.v as int;
    let u0 = s.u as int;
    let rem1 = remaining_ms_spec(e1 as int);
    let rem2 = remaining_ms_spec(e2 as int);
    let rems = remaining_ms_spec(esum as int);
    assert(rem1 == k * h);
    assert(rem2 == e2 * 1000);
    assert(rems == k * h + rem2);
    let s1 = tick_spec(s, Some(e1));
    let r1 = run_spec(s, v0, u0, rem1);
    lemma_run_in_range(s, v0, u0, rem1);
    assert(s1.v as int == r1.0);
    assert(s1.u as int == r1.1);
    lemma_run_params_only(s1, s, r1.0, r1.1, rem2);
    lemma_run_split(s, v0, u0, k, rem2);
    lemma_run_in_range(s, v0, u0, rems);
}

/// Subthreshold invariant of the sub-step loop: if the reset target is
/// below the threshold and `v` starts below it, no committed sub-step ever
/// leaves `v` at or above it — a crossing is reset within its own sub-step.
pub proof fn lemma_run_subthreshold(s: NeuronState, v: int, u: int, r: int)
    requires
        (s.c as int) < THRESHOLD_FX as int,
        v < THRESHOLD_FX as int,
    ensures
        run_spec(s, v, u, r).0 < THRESHOLD_FX as int,
    decreases r,
{
    if r > 0 {
        let dt: int = if r < HALF_MS_FX as int {
            r
        } else {
            HALF_MS_FX as int
        };
        let st = sub_step_spec(s, v, u, dt);
        lemma_run_subthreshold(s, st.0, st.1, r - dt);
    }
}

/// After any tick from a subthreshold state with a subthreshold reset
/// target, the membrane potential is still observed below the threshold.
pub proof fn lemma_tick_subthreshold(s: NeuronState, elapsed: Option<i64>)
    requires
        s.wf(),
        s.c < THRESHOLD_FX,
        s.v < THRESHOLD_FX,
    ensures
        tick_spec(s, elapsed).v < THRESHOLD_FX,
{
    match elapsed {
        None => {},
        Some(e) => {
            if e > 0 {
                let rem = remaining_ms_spec(e as int);
                lemma_run_in_range(s, s.v as int, s.u as int, rem);
                lemma_run_subthreshold(s, s.v as int, s.u as int, rem);
            }
        },
    }
}

/// Output scaling: the volts channel always reads the millivolts channel
/// divided by one thousand (truncated toward zero, as the fixed-point
/// rescaling is).
pub proof fn lemma_output_scaling(s: NeuronState)
    requires
        s.wf(),
    ensures
        output_spec(s, Some(OutputChannel::PotentialVolts)) == fx::div_trunc(
            output_spec(s, Some(OutputChannel::PotentialMillivolts)),
            1000,
        ),
{
    let m = s.v_mv as int;
    if m >= 0 {
        lemma_div_denominator(m * 1000, 1000, 1000);
        lemma_div_multiples_vanish(m, 1000);
        assert(m * 1000 == 1000 * m);
        assert((m * 1000) / ((1000 * 1000) as int) == m / 1000);
        lemma_div_pos_is_pos(m, 1000);
        lemma_div_nonincreasing(m, 1000);
    } else {
        let n = -m;
        lemma_div_denominator(n * 1000, 1000, 1000);
        lemma_div_multiples_vanish(n, 1000);
        assert(n * 1000 == 1000 * n);
        assert((n * 1000) / ((1000 * 1000) as int) == n / 1000);
        lemma_div_pos_is_pos(n, 1000);
        lemma_div_nonincreasing(n, 1000);
        assert(-(m * 1000) == n * 1000);
    }
}

} // verus!
