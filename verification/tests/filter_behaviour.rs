use psynth::UNIT;
use psynth::control::Control;
use psynth::filters::{
    all_pass, clip, comb, four_stage_low_pass, gain, offset, parallel, ramp_down, ramp_up,
    recursive, reverb, reverb_defaults, single_pole_high_pass, single_pole_low_pass,
};
use psynth::graph::r_and_k_from_cos;
use psynth::graph::{CombDirection, Filter, Generator, Pot};
use psynth::generators::{constant, repeat, sawtooth};
use psynth::pots::generator_pot;
use psynth::track::VecTrack;

/// Feed an impulse of the given length through a filter and collect outputs.
fn impulse_response(f: &mut Filter, len: usize) -> Vec<i64> {
    let mut out = Vec::new();
    for t in 0..len {
        let x = if t == 0 { UNIT } else { 0 };
        out.push(f.apply(x));
    }
    out
}

#[test]
fn comb_feed_forward_impulse() {
    // One echo: full amplitude at the first tick, exactly the decay at the
    // delay, silence elsewhere.
    let mut f = comb(3, 700_000_000, CombDirection::FeedForward);
    let outs = impulse_response(&mut f, 8);
    assert_eq!(outs, vec![UNIT, 0, 0, 700_000_000, 0, 0, 0, 0]);
}

#[test]
fn comb_feed_back_impulse() {
    // Echoes at every multiple of the delay with amplitudes 1, a, a^2, ...
    let mut f = comb(2, 500_000_000, CombDirection::FeedBack);
    let outs = impulse_response(&mut f, 7);
    assert_eq!(
        outs,
        vec![UNIT, 0, 500_000_000, 0, 250_000_000, 0, 125_000_000]
    );
}

#[test]
fn all_pass_is_two_combs() {
    let mut ap = all_pass(2, 500_000_000);
    let mut ff = comb(2, 500_000_000, CombDirection::FeedForward);
    let mut fb = comb(2, -500_000_000, CombDirection::FeedBack);
    for t in 0..10 {
        let x = if t == 0 { UNIT } else { 0 };
        assert_eq!(ap.apply(x), fb.apply(ff.apply(x)));
    }
}

#[test]
fn low_pass_zero_is_pass_through() {
    let mut f = single_pole_low_pass(Pot::Constant(0));
    for x in [UNIT, -UNIT, 123_456_789, 0, -7] {
        assert_eq!(f.apply(x), x);
    }
}

#[test]
fn low_pass_one_holds_previous_output() {
    let mut f = single_pole_low_pass(Pot::Constant(UNIT));
    // The previous output starts at silence and never moves.
    for x in [UNIT, -UNIT, 5, 900_000_000] {
        assert_eq!(f.apply(x), 0);
    }
}

#[test]
fn low_pass_half_smooths() {
    let mut f = single_pole_low_pass(Pot::Constant(500_000_000));
    assert_eq!(f.apply(UNIT), 500_000_000);
    assert_eq!(f.apply(UNIT), 750_000_000);
    assert_eq!(f.apply(UNIT), 875_000_000);
}

#[test]
fn four_stage_zero_is_pass_through() {
    let mut f = four_stage_low_pass(Pot::Constant(0));
    for x in [UNIT, -42, 0, 250_000_000] {
        assert_eq!(f.apply(x), x);
    }
}

#[test]
fn high_pass_blocks_constant_input() {
    let mut f = single_pole_high_pass(Pot::Constant(0));
    let c = 600_000_000;
    assert_eq!(f.apply(c), 300_000_000);
    assert_eq!(f.apply(c), 0);
    assert_eq!(f.apply(c), 0);
}

#[test]
fn recursive_identity() {
    // One input coefficient of 1.0, no feedback: the filter is the identity.
    let mut f = recursive(vec![Control::Constant(UNIT)], vec![Control::Constant(0)]);
    for x in [5, -5, UNIT, 0] {
        assert_eq!(f.apply(x), x);
    }
}

#[test]
fn recursive_history_stays_at_order() {
    // The histories keep exactly their configured order across many ticks.
    let a = vec![
        Control::Constant(UNIT),
        Control::Constant(0),
        Control::Constant(0),
    ];
    let b = vec![Control::Constant(0), Control::Constant(0)];
    let mut f = recursive(a, b);
    for t in 0..1000 {
        f.apply(t);
        match &f {
            Filter::Recursive {
                inputs, outputs, ..
            } => {
                assert_eq!(inputs.len(), 3);
                assert_eq!(outputs.len(), 2);
            }
            _ => panic!("recursive filter changed shape"),
        }
    }
}

#[test]
fn recursive_coefficients_can_be_fed() {
    let mut f = recursive(vec![Control::Cached(UNIT)], vec![Control::Constant(0)]);
    assert_eq!(f.apply(100), 100);
    match &mut f {
        Filter::Recursive { a, .. } => {
            assert!(a[0].feed(2 * UNIT));
        }
        _ => panic!("recursive filter changed shape"),
    }
    assert_eq!(f.apply(100), 200);
}

#[test]
fn gain_scales_and_clip_thresholds() {
    let mut g = gain(Pot::Constant(500_000_000));
    assert_eq!(g.apply(600_000_000), 300_000_000);
    assert_eq!(g.apply(-600_000_000), -300_000_000);

    let mut c = clip(Pot::Constant(-UNIT), Pot::Constant(UNIT));
    assert_eq!(c.apply(2 * UNIT), UNIT);
    assert_eq!(c.apply(-2 * UNIT), -UNIT);
    assert_eq!(c.apply(7), 7);
}

#[test]
fn offset_shifts() {
    let mut f = offset(Pot::Constant(10));
    assert_eq!(f.apply(5), 15);
    assert_eq!(f.apply(-10), 0);
}

#[test]
fn offset_by_generator_pot_advances_per_tick() {
    let track = VecTrack::from_samples(vec![10, 20, 30]);
    let mut f = offset(generator_pot(repeat(track)));
    assert_eq!(f.apply(0), 10);
    assert_eq!(f.apply(0), 20);
    assert_eq!(f.apply(0), 30);
    assert_eq!(f.apply(0), 10);
}

#[test]
fn ramp_up_reaches_unity() {
    let mut f = ramp_up(4);
    let outs: Vec<i64> = (0..6).map(|_| f.apply(UNIT)).collect();
    assert_eq!(
        outs,
        vec![250_000_000, 500_000_000, 750_000_000, UNIT, UNIT, UNIT]
    );
}

#[test]
fn ramp_down_fades_after_cliff() {
    let mut f = ramp_down(2, 2);
    let outs: Vec<i64> = (0..5).map(|_| f.apply(UNIT)).collect();
    assert_eq!(outs, vec![UNIT, UNIT, 500_000_000, 0, 0]);
}

#[test]
fn parallel_sums_branches() {
    let mut f = parallel(vec![gain(Pot::Constant(UNIT)), gain(Pot::Constant(UNIT))]);
    assert_eq!(f.apply(300), 600);
    let mut empty = parallel(vec![]);
    assert_eq!(empty.apply(123), 0);
}

#[test]
fn band_pass_constants() {
    // cos of the normalized angular center frequency 0 (a quarter of the
    // sample rate), bandwidth a tenth of the sample rate.
    let (r, k) = r_and_k_from_cos(0, 100_000_000);
    assert_eq!(r, 700_000_000);
    assert_eq!(k, 745_000_000);

    let mut bp = psynth::filters::band_pass(Pot::Constant(0), Pot::Constant(100_000_000));
    // First output of an impulse is the first input coefficient, 1 - k.
    assert_eq!(bp.apply(UNIT), UNIT - 745_000_000);

    let mut n = psynth::filters::notch(Pot::Constant(0), Pot::Constant(100_000_000));
    // First output of an impulse through the notch is k itself.
    assert_eq!(n.apply(UNIT), 745_000_000);
}

#[test]
fn reverb_defaults_shape() {
    let config = reverb_defaults(44100);
    let delays: Vec<usize> = config.combs.iter().map(|c| c.0).collect();
    assert_eq!(delays, vec![4409, 4592, 4960, 5329]);
    let decays: Vec<i64> = config.combs.iter().map(|c| c.1).collect();
    assert_eq!(
        decays,
        vec![742_000_000, 733_000_000, 715_000_000, 697_000_000]
    );
    assert_eq!(config.all_passes.len(), 2);

    let mut f = reverb(reverb_defaults(44100));
    // Four parallel feed-back combs each pass the impulse through at first.
    assert_eq!(f.apply(UNIT), 4 * UNIT);
}

#[test]
fn compose_matches_manual_application() {
    // Composing a filter onto a generator gives, tick for tick, the same
    // values as pulling the generator and applying the filter by hand.
    let mut composed: Generator =
        sawtooth(8, UNIT).compose(single_pole_low_pass(Pot::Constant(500_000_000)));
    let mut source = sawtooth(8, UNIT);
    let mut filter = single_pole_low_pass(Pot::Constant(500_000_000));
    for _ in 0..32 {
        assert_eq!(composed.tick(), filter.apply(source.tick()));
    }
}

#[test]
fn constant_generator_is_flat() {
    let mut g = constant(123);
    for _ in 0..5 {
        assert_eq!(g.tick(), 123);
    }
}

#[test]
fn warble_modulates_amplitude() {
    // Amplitude modulation by a square wave: full signal on the positive
    // half of the modulator's cycle, inverted on the negative half.
    let mut f = psynth::filters::warble(psynth::generators::square(4, UNIT));
    assert_eq!(f.apply(600_000_000), 600_000_000);
    assert_eq!(f.apply(600_000_000), -600_000_000);
}
