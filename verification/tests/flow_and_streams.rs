use psynth::UNIT;
use psynth::consumer::MonoConsumer;
use psynth::generators::{constant, join, join2, metronome, repeat, sawtooth, silence, square};
use psynth::graph::{Generator, Pot};
use psynth::mux::{balance, fork, mux2, MuxFn};
use psynth::pots::range_pot;
use psynth::sample::{div_scaled, mul_scaled, sat_add, sat_sub};
use psynth::stream::{decode_be_words, StreamSource};
use psynth::track::VecTrack;

#[test]
fn sample_arithmetic_saturates_and_scales() {
    assert_eq!(sat_add(i64::MAX, 1), i64::MAX);
    assert_eq!(sat_add(i64::MIN, -1), i64::MIN);
    assert_eq!(sat_sub(i64::MIN, 1), i64::MIN);
    assert_eq!(sat_add(2, 3), 5);
    assert_eq!(mul_scaled(600_000_000, 500_000_000), 300_000_000);
    assert_eq!(mul_scaled(-600_000_000, 500_000_000), -300_000_000);
    assert_eq!(mul_scaled(7, UNIT), 7);
    assert_eq!(mul_scaled(7, 0), 0);
    // Truncation is toward zero on both sides.
    assert_eq!(mul_scaled(3, 500_000_000), 1);
    assert_eq!(mul_scaled(-3, 500_000_000), -1);
    assert_eq!(div_scaled(UNIT, 2 * UNIT), 500_000_000);
    assert_eq!(div_scaled(UNIT, 0), 0);
}

#[test]
fn square_wave_cycle() {
    // One cycle per four ticks: positive for the strict first half.
    let mut g = square(4, UNIT);
    let outs: Vec<i64> = (0..8).map(|_| g.tick()).collect();
    assert_eq!(outs, vec![UNIT, -UNIT, -UNIT, -UNIT, UNIT, -UNIT, -UNIT, -UNIT]);
}

#[test]
fn sawtooth_ramps() {
    let mut g = sawtooth(4, UNIT);
    let outs: Vec<i64> = (0..8).map(|_| g.tick()).collect();
    assert_eq!(
        outs,
        vec![
            250_000_000,
            500_000_000,
            750_000_000,
            0,
            250_000_000,
            500_000_000,
            750_000_000,
            0
        ]
    );
}

#[test]
fn silence_is_zero() {
    let mut g = silence();
    for _ in 0..3 {
        assert_eq!(g.tick(), 0);
    }
}

#[test]
fn repeat_loops_track() {
    let mut g = repeat(VecTrack::from_samples(vec![1, 2]));
    let outs: Vec<i64> = (0..5).map(|_| g.tick()).collect();
    assert_eq!(outs, vec![1, 2, 1, 2, 1]);
}

#[test]
fn metronome_beats() {
    // 60 beats per minute at 10 ticks per second: the one-sample track plays
    // on the first tick and again once the clock passes ten ticks.
    let track = VecTrack::from_samples(vec![900_000_000]);
    let mut g = metronome(10, Pot::Constant(60 * UNIT), track);
    let outs: Vec<i64> = (0..12).map(|_| g.tick()).collect();
    let mut expected = vec![900_000_000];
    expected.extend(std::iter::repeat(0).take(9));
    expected.push(900_000_000);
    expected.push(0);
    assert_eq!(outs, expected);
}

#[test]
fn join_sums_constants() {
    // The additive join of constants is their exact sum at every tick.
    let mut g = join(vec![
        constant(100_000_000),
        constant(200_000_000),
        constant(300_000_000),
    ]);
    for _ in 0..4 {
        assert_eq!(g.tick(), 600_000_000);
    }
    let mut empty = join(vec![]);
    assert_eq!(empty.tick(), 0);
}

#[test]
fn join2_bias_extremes_and_center() {
    let l = 400_000_000;
    let r = 200_000_000;
    let mut left_only = join2(Pot::Constant(-UNIT), constant(l), constant(r));
    assert_eq!(left_only.tick(), l);
    let mut right_only = join2(Pot::Constant(UNIT), constant(l), constant(r));
    assert_eq!(right_only.tick(), r);
    let mut even = join2(Pot::Constant(0), constant(l), constant(r));
    assert_eq!(even.tick(), (l + r) / 2);
    // Bias values beyond the range clamp to the extremes.
    let mut clamped = join2(Pot::Constant(5 * UNIT), constant(l), constant(r));
    assert_eq!(clamped.tick(), r);
}

#[test]
fn fork_outputs_identical() {
    // Both channels of a fork agree sample-for-sample, whichever side is
    // pulled first in a round.
    let mut pair = fork(sawtooth(8, UNIT));
    let mut reference = sawtooth(8, UNIT);
    for round in 0..16 {
        let (a, b) = if round % 2 == 0 {
            let a = pair.pull_left();
            let b = pair.pull_right();
            (a, b)
        } else {
            let b = pair.pull_right();
            let a = pair.pull_left();
            (a, b)
        };
        let expected = reference.tick();
        assert_eq!(a, b);
        assert_eq!(a, expected);
    }
}

#[test]
fn entangled_pair_evaluates_sources_once_per_round() {
    // The shared source advances exactly once per round: no double-compute,
    // no skipped ticks, whatever the pull order.
    let track = VecTrack::from_samples(vec![10, 20, 30, 40]);
    let mut pair = fork(repeat(track));
    assert_eq!(pair.pull_left(), 10);
    assert_eq!(pair.pull_right(), 10);
    assert_eq!(pair.pull_right(), 20);
    assert_eq!(pair.pull_left(), 20);
    assert_eq!(pair.pull_left(), 30);
    assert_eq!(pair.pull_right(), 30);
    assert_eq!(pair.pull_right(), 40);
    assert_eq!(pair.pull_left(), 40);
}

#[test]
fn balance_neutral_keeps_channels() {
    let mut pair = balance(Pot::Constant(0), constant(111), constant(222));
    assert_eq!(pair.pull_left(), 111);
    assert_eq!(pair.pull_right(), 222);
}

#[test]
fn balance_extremes_route_everything() {
    let mut left = balance(Pot::Constant(-UNIT), constant(100), constant(23));
    assert_eq!(pair_outputs(&mut left), (123, 0));
    let mut right = balance(Pot::Constant(UNIT), constant(100), constant(23));
    assert_eq!(pair_outputs(&mut right), (0, 123));
}

fn pair_outputs(pair: &mut psynth::mux::EntangledPair) -> (i64, i64) {
    let l = pair.pull_left();
    let r = pair.pull_right();
    (l, r)
}

#[test]
fn mux2_fork_against_silence() {
    let mut pair = mux2(MuxFn::Fork, constant(77), silence());
    assert_eq!(pair.pull_right(), 77);
    assert_eq!(pair.pull_left(), 77);
}

#[test]
fn range_pot_maps_span() {
    // A source spanning [-UNIT, UNIT] maps to [low, high]: a square wave
    // alternates between the two bounds.
    let mut f = psynth::filters::offset(range_pot(square(4, UNIT), 100, 500));
    // Square at rate 4: first tick positive, the rest of the cycle negative.
    assert_eq!(f.apply(0), 500);
    assert_eq!(f.apply(0), 100);
    assert_eq!(f.apply(0), 100);
}

#[test]
fn stream_source_queues_and_pads() {
    let mut s = StreamSource::new(3);
    assert!(s.feed(5));
    assert!(s.feed(6));
    assert!(s.feed(7));
    assert!(!s.feed(8));
    assert_eq!(s.tick(), 5);
    assert_eq!(s.tick(), 6);
    assert!(s.feed(9));
    assert_eq!(s.tick(), 7);
    assert_eq!(s.tick(), 9);
    assert_eq!(s.tick(), 0);
    assert_eq!(s.tick(), 0);
}

#[test]
fn decode_be_words_drops_trailing() {
    let bytes = vec![0, 0, 0, 1, 0xFF, 0, 0, 0, 0xAA, 0xBB];
    let words = decode_be_words(&bytes);
    assert_eq!(words, vec![1, 0xFF00_0000]);
    assert_eq!(decode_be_words(&vec![]), Vec::<u32>::new());
}

#[test]
fn mono_consumer_fills_frames() {
    let track = VecTrack::from_samples(vec![1, 2, 3]);
    let mut consumer = MonoConsumer::new(2).bind(repeat(track));
    let mut buffer: Vec<i64> = vec![0; 5];
    consumer.fill(&mut buffer);
    assert_eq!(buffer, vec![1, 1, 2, 2, 3]);
    let mut next: Vec<i64> = vec![0; 2];
    consumer.fill(&mut next);
    assert_eq!(next, vec![1, 1]);
}

#[test]
fn vec_track_records_generator() {
    let t = VecTrack::from_generator(sawtooth(4, UNIT), 4);
    let mut g = repeat(t);
    assert_eq!(g.tick(), 250_000_000);
    assert_eq!(g.tick(), 500_000_000);
    assert_eq!(g.tick(), 750_000_000);
    assert_eq!(g.tick(), 0);
}

#[test]
fn vec_track_rejects_rate_mismatch() {
    assert!(VecTrack::try_from_decoded(44100, 48000, vec![1, 2]).is_err());
    let t = VecTrack::try_from_decoded(44100, 44100, vec![1, 2]).unwrap();
    assert_eq!(t.len(), 2);
}

#[test]
fn generator_sum_saturates() {
    let mut g = join(vec![constant(i64::MAX), constant(i64::MAX)]);
    assert_eq!(g.tick(), i64::MAX);
}
