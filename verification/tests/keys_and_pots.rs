use psynth::UNIT;
use psynth::control::{BoolPot, Control, Curve};
use psynth::filters::gain;
use psynth::graph::Pot;
use psynth::keys::SimpleKey;
use psynth::track::VecTrack;

#[test]
fn key_gates_track_with_envelopes() {
    let track = VecTrack::from_samples(vec![UNIT, UNIT, UNIT, UNIT]);
    let mut key = SimpleKey::new(
        track,
        BoolPot::Cached(true),
        Curve::Constant(UNIT),
        Curve::Constant(0),
    );
    // Closed switch: the attack envelope (full strength) shapes the track.
    assert_eq!(key.read(), UNIT);
    assert_eq!(key.read(), UNIT);
    // Open the switch: the sustain envelope (silence) takes over.
    assert!(key.set_active(false));
    assert_eq!(key.read(), 0);
    assert_eq!(key.read(), 0);
    // Close it again: the track rewinds and the attack starts over.
    assert!(key.set_active(true));
    assert_eq!(key.read(), UNIT);
}

#[test]
fn key_attack_table_ramps() {
    let track = VecTrack::from_samples(vec![UNIT, UNIT, UNIT, UNIT]);
    let attack = Curve::Table(vec![0, 250_000_000, 500_000_000, UNIT]);
    let mut key = SimpleKey::new(track, BoolPot::Constant(true), attack, Curve::Constant(0));
    assert_eq!(key.read(), 0);
    assert_eq!(key.read(), 250_000_000);
    assert_eq!(key.read(), 500_000_000);
    assert_eq!(key.read(), UNIT);
}

#[test]
fn key_runs_silent_after_track_ends() {
    let track = VecTrack::from_samples(vec![UNIT]);
    let mut key = SimpleKey::new(
        track,
        BoolPot::Constant(true),
        Curve::Constant(UNIT),
        Curve::Constant(UNIT),
    );
    assert_eq!(key.read(), UNIT);
    assert_eq!(key.read(), 0);
    assert_eq!(key.read(), 0);
}

#[test]
fn into_generator_matches_key_reads() {
    let make = || {
        SimpleKey::new(
            VecTrack::from_samples(vec![10, 20, 30]),
            BoolPot::Constant(true),
            Curve::Constant(UNIT),
            Curve::Constant(0),
        )
    };
    let mut key = make();
    let mut gen = make().into_generator();
    for _ in 0..4 {
        assert_eq!(gen.tick(), key.read());
    }
}

#[test]
fn cached_pot_feeds() {
    let mut f = gain(Pot::Cached(0));
    assert_eq!(f.apply(UNIT), 0);
    match &mut f {
        psynth::graph::Filter::Gain { scale } => {
            assert!(scale.feed(500_000_000));
            assert!(!Pot::Constant(1).feed(2));
        }
        _ => panic!("gain changed shape"),
    }
    assert_eq!(f.apply(UNIT), 500_000_000);
}

#[test]
fn control_reads_do_not_advance() {
    let c = Control::Constant(7);
    assert_eq!(c.read(), 7);
    assert_eq!(c.read(), 7);
    let mut d = Control::Cached(1);
    assert_eq!(d.read(), 1);
    assert!(d.feed(2));
    assert_eq!(d.read(), 2);
    let mut k = Control::Constant(1);
    assert!(!k.feed(9));
    assert_eq!(k.read(), 1);
}

#[test]
fn curve_table_reads_by_index() {
    let c = Curve::Table(vec![5, 6]);
    assert_eq!(c.read(0), 5);
    assert_eq!(c.read(1), 6);
    assert_eq!(c.read(2), 0);
    assert_eq!(Curve::Constant(9).read(1000), 9);
}
