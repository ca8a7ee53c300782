use izhikevich_neuron::fx::FX_MAX;
use izhikevich_neuron::neuron::{InternalVar, NeuronState, OutputChannel, Param};

const MV: i64 = 1_000_000;

#[test]
fn defaults_construction() {
    let s = NeuronState::new();
    assert_eq!(s.v, -65 * MV);
    assert_eq!(s.u, -13 * MV);
    assert_eq!(s.a, 20_000);
    assert_eq!(s.b, 200_000);
    assert_eq!(s.c, -65 * MV);
    assert_eq!(s.d, 8 * MV);
    assert_eq!(s.i_syn, 0);
    assert_eq!(s.v_mv, -65 * MV);
    assert_eq!(NeuronState::default(), s);
}

#[test]
fn noop_guard_freezes_state() {
    let mut s = NeuronState::new();
    s.set_input(Some(7 * MV));
    let before = s;
    s.integrate(Some(0));
    assert_eq!(s, before);
    s.integrate(Some(-1_000_000));
    assert_eq!(s, before);
    s.integrate(None);
    assert_eq!(s, before);
}

#[test]
fn defaults_one_millisecond_tick() {
    // Two half-millisecond sub-steps from rest with no input; every
    // intermediate product is exact in fixed point, so the trajectory can
    // be followed by hand: dv/dt is -3.0 then -2.61, du/dt is 0 then -0.006.
    let mut s = NeuronState::new();
    s.set_input(Some(0));
    s.integrate(Some(1000));
    assert_eq!(s.v, -67_805_000);
    assert_eq!(s.u, -13_003_000);
    assert_eq!(s.v_mv, -67_805_000);
    // A small negative drift, no spike within the first millisecond.
    assert!(s.v < -65 * MV && s.v > -70 * MV);
    assert_eq!(s.read_internal(Some(InternalVar::V)), Some(-67_805_000));
    assert_eq!(s.read_internal(Some(InternalVar::U)), Some(-13_003_000));
}

#[test]
fn reset_applies_within_the_crossing_sub_step() {
    // From v = 29.9, u = 0 with no input, the raw Euler candidate after
    // one 0.5 ms sub-step is 192.5302 mV, far over threshold, so the
    // committed state must be v = c and u = (integrated u) + d.
    let mut s = NeuronState::new();
    s.set_parameter(Some(Param::V), Some(29_900_000));
    s.set_parameter(Some(Param::U), Some(0));
    s.integrate(Some(500));
    assert_eq!(s.v, -65 * MV);
    assert_eq!(s.u, 59_800 + 8 * MV);
    assert_eq!(s.v_mv, -65 * MV);
}

#[test]
fn saturation_scenario_spikes_and_resets() {
    // A strong constant drive of 20.0 over one second must cross threshold
    // and reset at least once; v is never observed at or over threshold.
    let mut s = NeuronState::new();
    s.set_input(Some(20 * MV));
    let mut resets: u32 = 0;
    let mut prev = s;
    for _ in 0..2000 {
        s.integrate(Some(500));
        assert!(s.v < 30 * MV);
        if s.v == -65 * MV && s.u - prev.u >= 7 * MV {
            resets += 1;
        }
        prev = s;
    }
    assert!(resets >= 1);
}

#[test]
fn sub_step_equivalence_on_aligned_splits() {
    // One 1 ms tick equals two 0.5 ms ticks; one 1 s tick equals two
    // thousand 0.5 ms ticks, since every split point falls on a
    // half-millisecond boundary.
    let mut one = NeuronState::new();
    let mut two = NeuronState::new();
    one.set_input(Some(5 * MV));
    two.set_input(Some(5 * MV));
    one.integrate(Some(1000));
    two.integrate(Some(500));
    two.integrate(Some(500));
    assert_eq!(one, two);

    let mut whole = NeuronState::new();
    let mut pieces = NeuronState::new();
    whole.set_input(Some(20 * MV));
    pieces.set_input(Some(20 * MV));
    whole.integrate(Some(1_000_000));
    for _ in 0..2000 {
        pieces.integrate(Some(500));
    }
    assert_eq!(whole, pieces);
}

#[test]
fn output_scaling_volts_is_millivolts_over_thousand() {
    let mut s = NeuronState::new();
    assert_eq!(s.read_output(Some(OutputChannel::PotentialMillivolts)), -65 * MV);
    assert_eq!(s.read_output(Some(OutputChannel::PotentialVolts)), -65 * MV / 1000);
    s.set_input(Some(0));
    s.integrate(Some(1000));
    let mv = s.read_output(Some(OutputChannel::PotentialMillivolts));
    let volts = s.read_output(Some(OutputChannel::PotentialVolts));
    assert_eq!(mv, -67_805_000);
    assert_eq!(volts, mv / 1000);
}

#[test]
fn unknown_channels_read_as_absent_or_zero() {
    let s = NeuronState::new();
    assert_eq!(s.read_output(None), 0);
    assert_eq!(s.read_internal(None), None);
}

#[test]
fn input_coercion_and_clamping() {
    let mut s = NeuronState::new();
    s.set_input(Some(3 * MV));
    assert_eq!(s.i_syn, 3 * MV);
    // An unrepresentable sample is coerced to zero.
    s.set_input(None);
    assert_eq!(s.i_syn, 0);
    // A finite but out-of-range sample pins at the representation bound.
    s.set_input(Some(i64::MAX));
    assert_eq!(s.i_syn, FX_MAX);
    s.set_input(Some(i64::MIN));
    assert_eq!(s.i_syn, -FX_MAX);
}

#[test]
fn parameter_sink_ignores_unknown_or_absent() {
    let mut s = NeuronState::new();
    let before = s;
    // An unknown key or an unrepresentable value changes nothing.
    s.set_parameter(None, Some(5 * MV));
    assert_eq!(s, before);
    s.set_parameter(Some(Param::B), None);
    assert_eq!(s, before);
    // A known key with a representable value overwrites just that field.
    s.set_parameter(Some(Param::A), Some(100_000));
    assert_eq!(s.a, 100_000);
    s.set_parameter(Some(Param::C), Some(-50 * MV));
    assert_eq!(s.c, -50 * MV);
    s.set_parameter(Some(Param::D), Some(2 * MV));
    assert_eq!(s.d, 2 * MV);
    s.set_parameter(Some(Param::U), Some(-14 * MV));
    assert_eq!(s.u, -14 * MV);
    s.set_parameter(Some(Param::V), Some(-60 * MV));
    assert_eq!(s.v, -60 * MV);
    assert_eq!(s.b, before.b);
    // Out-of-range values pin at the representation bound.
    s.set_parameter(Some(Param::D), Some(i64::MIN));
    assert_eq!(s.d, -FX_MAX);
}

#[test]
fn determinism_identical_runs_identical_trajectories() {
    let mut s1 = NeuronState::new();
    let mut s2 = NeuronState::new();
    let drives = [0, 4 * MV, 20 * MV, -3 * MV, 20 * MV];
    let elapsed = [500, 1000, 250, 3000, 777];
    for i in 0..drives.len() {
        s1.set_input(Some(drives[i]));
        s2.set_input(Some(drives[i]));
        s1.integrate(Some(elapsed[i]));
        s2.integrate(Some(elapsed[i]));
        assert_eq!(s1, s2);
    }
}
