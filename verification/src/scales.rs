//! Scales built from tones.

use vstd::prelude::*;

use crate::notes::{Note, Octave, Pitch, Tone, tone_valid};

verus! {

/// The seven natural tones of the C major scale in the given octave.
pub open spec fn c_major_s(octave: Octave) -> Seq<Tone> {
    seq![
        (Tone(Note::C, Pitch::Natural, octave)),
        (Tone(Note::D, Pitch::Natural, octave)),
        (Tone(Note::E, Pitch::Natural, octave)),
        (Tone(Note::F, Pitch::Natural, octave)),
        (Tone(Note::G, Pitch::Natural, octave)),
        (Tone(Note::A, Pitch::Natural, octave)),
        (Tone(Note::B, Pitch::Natural, octave)),
    ]
}

/// The C major scale: the seven natural tones of the given octave, rising
/// from C.
pub fn c_major(octave: Octave) -> (r: Vec<Tone>)
    ensures
        r@ == c_major_s(octave),
        forall|i: int| 0 <= i < r@.len() ==> tone_valid(r@[i]),
{
    let mut out: Vec<Tone> = Vec::new();
    out.push(Tone(Note::C, Pitch::Natural, octave));
    out.push(Tone(Note::D, Pitch::Natural, octave));
    out.push(Tone(Note::E, Pitch::Natural, octave));
    out.push(Tone(Note::F, Pitch::Natural, octave));
    out.push(Tone(Note::G, Pitch::Natural, octave));
    out.push(Tone(Note::A, Pitch::Natural, octave));
    out.push(Tone(Note::B, Pitch::Natural, octave));
    assert(out@ =~= c_major_s(octave));
    out
}

} // verus!
