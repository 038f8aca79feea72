use psynth::notes::{Note, Octave, Pitch, Tone};
use psynth::scales::c_major;

#[test]
fn test_semitone_distance() {
    assert_eq!(Tone::fixed_tone().semitone_distance_to(&Tone::fixed_tone()), 0);
}

#[test]
fn test_tone_try_from() {
    assert_eq!(Tone::fixed_tone(), Tone::try_from("A4").unwrap());
    assert_eq!(
        Tone::new(Note::C, Pitch::Sharp, Octave::Zero).unwrap(),
        Tone::try_from("C#0").unwrap()
    );
}

#[test]
fn test_semitone_bump() {
    let fs6 = Tone::new(Note::F, Pitch::Sharp, Octave::Six).unwrap();
    assert_eq!(
        fs6.semitone_up().unwrap(),
        Tone::new(Note::G, Pitch::Natural, Octave::Six).unwrap()
    );
    assert_eq!(
        fs6.semitone_down().unwrap(),
        Tone::new(Note::F, Pitch::Natural, Octave::Six).unwrap()
    );

    let c0 = Tone::new(Note::C, Pitch::Natural, Octave::Zero).unwrap();
    if let Ok(n) = c0.semitone_down() {
        panic!("cannot shift bottom note C0 down a semitone (got: {:?})", n);
    }
    assert_eq!(
        c0.semitone_up().unwrap(),
        Tone::new(Note::C, Pitch::Sharp, Octave::Zero).unwrap()
    );

    let b8 = Tone::new(Note::B, Pitch::Natural, Octave::Eight).unwrap();
    if let Ok(n) = b8.semitone_up() {
        panic!("cannot shift top note B8 up a semitone (got: {:?})", n);
    }
    assert_eq!(
        b8.semitone_down().unwrap(),
        Tone::new(Note::B, Pitch::Flat, Octave::Eight).unwrap()
    );
}

#[test]
fn test_invalid_tones_refused() {
    assert!(Tone::new(Note::C, Pitch::Flat, Octave::Three).is_err());
    assert!(Tone::new(Note::E, Pitch::Sharp, Octave::Two).is_err());
    assert!(Tone::new(Note::B, Pitch::Sharp, Octave::One).is_err());
    assert!(Tone::new(Note::F, Pitch::Flat, Octave::Five).is_err());
}

#[test]
fn test_tone_parse_errors() {
    assert!(Tone::try_from("").is_err());
    assert!(Tone::try_from("X4").is_err());
    assert!(Tone::try_from("C9").is_err());
    assert!(Tone::try_from("Cb3").is_err());
    assert!(Tone::try_from("A#42").is_err());
}

#[test]
fn test_doppelganger() {
    let cs4 = Tone::new(Note::C, Pitch::Sharp, Octave::Four).unwrap();
    let db4 = Tone::new(Note::D, Pitch::Flat, Octave::Four).unwrap();
    assert_eq!(cs4.doppelganger(), Some(db4));
    assert_eq!(db4.doppelganger(), Some(cs4));
    assert_eq!(Tone::fixed_tone().doppelganger(), None);
    assert_eq!(cs4.semitone_rank(), db4.semitone_rank());
}

#[test]
fn test_note_next_prev_cycle() {
    assert_eq!(Note::G.next(), Note::A);
    assert_eq!(Note::A.prev(), Note::G);
    let mut n = Note::C;
    for _ in 0..7 {
        n = n.next();
    }
    assert_eq!(n, Note::C);
}

#[test]
fn test_octave_bounds() {
    assert!(Octave::Eight.try_next().is_err());
    assert!(Octave::Zero.try_prev().is_err());
    assert_eq!(Octave::Three.try_next().unwrap(), Octave::Four);
    assert_eq!(Octave::Three.try_prev().unwrap(), Octave::Two);
    assert!(Pitch::Sharp.try_next().is_err());
    assert!(Pitch::Flat.try_prev().is_err());
}

#[test]
fn test_c_major_scale() {
    let scale = c_major(Octave::Four);
    let expected = vec![
        Tone::new(Note::C, Pitch::Natural, Octave::Four).unwrap(),
        Tone::new(Note::D, Pitch::Natural, Octave::Four).unwrap(),
        Tone::new(Note::E, Pitch::Natural, Octave::Four).unwrap(),
        Tone::new(Note::F, Pitch::Natural, Octave::Four).unwrap(),
        Tone::new(Note::G, Pitch::Natural, Octave::Four).unwrap(),
        Tone::new(Note::A, Pitch::Natural, Octave::Four).unwrap(),
        Tone::new(Note::B, Pitch::Natural, Octave::Four).unwrap(),
    ];
    assert_eq!(scale, expected);
}

#[test]
fn test_semitone_distance_across_octaves() {
    let a4 = Tone::fixed_tone();
    let a5 = a4.with_octave(Octave::Five);
    assert_eq!(a5.semitone_distance_to(&a4), 12);
    assert_eq!(a4.semitone_distance_to(&a5), -12);
    let c4 = Tone::new(Note::C, Pitch::Natural, Octave::Four).unwrap();
    assert_eq!(a4.semitone_distance_to(&c4), 9);
}

#[test]
fn test_semitone_walk_spans_all_octaves() {
    // From C0 up a semitone 107 times lands on B8; one more is refused.
    let mut t = Tone::new(Note::C, Pitch::Natural, Octave::Zero).unwrap();
    for _ in 0..107 {
        t = t.semitone_up().unwrap();
    }
    assert_eq!(t, Tone::new(Note::B, Pitch::Natural, Octave::Eight).unwrap());
    assert!(t.semitone_up().is_err());
    for _ in 0..107 {
        t = t.semitone_down().unwrap();
    }
    assert_eq!(t, Tone::new(Note::C, Pitch::Natural, Octave::Zero).unwrap());
    assert!(t.semitone_down().is_err());
}
