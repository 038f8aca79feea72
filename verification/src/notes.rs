//! Musical note naming: notes, pitches, octaves and their combination into
//! tones, with semitone arithmetic over the twelve-tone octave.
//!
//! A [`Tone`] triple is valid when its note and pitch name one of the twelve
//! semitones of an octave (for example there is no C flat); constructors
//! refuse the combinations that name none.

use vstd::prelude::*;

verus! {

/// One of the seven note letters.
#[derive(Debug, Copy, Clone, Eq, PartialEq, Structural)]
pub enum Note {
    A,
    B,
    C,
    D,
    E,
    F,
    G,
}

/// Pitch modifier of a note letter.
#[derive(Debug, Copy, Clone, Eq, PartialEq, Structural)]
pub enum Pitch {
    Flat,
    Natural,
    Sharp,
}

/// Octave number, 0 through 8.
#[derive(Debug, Copy, Clone, Eq, PartialEq, Structural)]
pub enum Octave {
    Zero,
    One,
    Two,
    Three,
    Four,
    Five,
    Six,
    Seven,
    Eight,
}

/// Why a note operation was refused.
#[derive(Debug, Copy, Clone, Eq, PartialEq, Structural)]
pub enum NoteError {
    /// A pitch shift fell off the flat/sharp range.
    PitchRange,
    /// An octave shift fell off the 0..=8 range.
    OctaveRange,
    /// The note/pitch pair names no semitone (such as C flat).
    InvalidTone,
    /// Text named no tone.
    Unparsable,
}

/// The note letter that follows, wrapping from G to A.
pub open spec fn note_next_s(n: Note) -> Note {
    match n {
        Note::A => Note::B,
        Note::B => Note::C,
        Note::C => Note::D,
        Note::D => Note::E,
        Note::E => Note::F,
        Note::F => Note::G,
        Note::G => Note::A,
    }
}

/// The note letter before, wrapping from A to G.
pub open spec fn note_prev_s(n: Note) -> Note {
    match n {
        Note::A => Note::G,
        Note::B => Note::A,
        Note::C => Note::B,
        Note::D => Note::C,
        Note::E => Note::D,
        Note::F => Note::E,
        Note::G => Note::F,
    }
}

/// Octave as a number, 0 through 8.
pub open spec fn octave_num(o: Octave) -> int {
    match o {
        Octave::Zero => 0,
        Octave::One => 1,
        Octave::Two => 2,
        Octave::Three => 3,
        Octave::Four => 4,
        Octave::Five => 5,
        Octave::Six => 6,
        Octave::Seven => 7,
        Octave::Eight => 8,
    }
}

impl Note {
    /// The note letter that follows, wrapping from G to A.
    pub fn next(&self) -> (r: Self)
        ensures
            r == note_next_s(*self),
    {
        match self {
            Note::A => Note::B,
            Note::B => Note::C,
            Note::C => Note::D,
            Note::D => Note::E,
            Note::E => Note::F,
            Note::F => Note::G,
            Note::G => Note::A,
        }
    }

    /// The note letter before, wrapping from A to G.
    pub fn prev(&self) -> (r: Self)
        ensures
            r == note_prev_s(*self),
    {
        match self {
            Note::A => Note::G,
            Note::B => Note::A,
            Note::C => Note::B,
            Note::D => Note::C,
            Note::E => Note::D,
            Note::F => Note::E,
            Note::G => Note::F,
        }
    }
}

impl Pitch {
    /// Shift one step sharper; refused above sharp.
    pub fn try_next(&self) -> (r: Result<Self, NoteError>)
        ensures
            match *self {
                Pitch::Flat => r == Result::<Self, NoteError>::Ok(Pitch::Natural),
                Pitch::Natural => r == Result::<Self, NoteError>::Ok(Pitch::Sharp),
                Pitch::Sharp => r == Result::<Self, NoteError>::Err(NoteError::PitchRange),
            },
    {
        match self {
            Pitch::Flat => Ok(Pitch::Natural),
            Pitch::Natural => Ok(Pitch::Sharp),
            Pitch::Sharp => Err(NoteError::PitchRange),
        }
    }

    /// Shift one step flatter; refused below flat.
    pub fn try_prev(&self) -> (r: Result<Self, NoteError>)
        ensures
            match *self {
                Pitch::Flat => r == Result::<Self, NoteError>::Err(NoteError::PitchRange),
                Pitch::Natural => r == Result::<Self, NoteError>::Ok(Pitch::Flat),
                Pitch::Sharp => r == Result::<Self, NoteError>::Ok(Pitch::Natural),
            },
    {
        match self {
            Pitch::Flat => Err(NoteError::PitchRange),
            Pitch::Natural => Ok(Pitch::Flat),
            Pitch::Sharp => Ok(Pitch::Natural),
        }
    }
}

impl Octave {
    /// One octave up; refused above eight.
    pub fn try_next(&self) -> (r: Result<Self, NoteError>)
        ensures
            octave_num(*self) < 8 ==> (r matches Ok(o) && octave_num(o) == octave_num(*self) + 1),
            octave_num(*self) == 8 ==> r == Result::<Self, NoteError>::Err(NoteError::OctaveRange),
    {
        match self {
            Octave::Zero => Ok(Octave::One),
            Octave::One => Ok(Octave::Two),
            Octave::Two => Ok(Octave::Three),
            Octave::Three => Ok(Octave::Four),
            Octave::Four => Ok(Octave::Five),
            Octave::Five => Ok(Octave::Six),
            Octave::Six => Ok(Octave::Seven),
            Octave::Seven => Ok(Octave::Eight),
            Octave::Eight => Err(NoteError::OctaveRange),
        }
    }

    /// One octave down; refused below zero.
    pub fn try_prev(&self) -> (r: Result<Self, NoteError>)
        ensures
            octave_num(*self) > 0 ==> (r matches Ok(o) && octave_num(o) == octave_num(*self) - 1),
            octave_num(*self) == 0 ==> r == Result::<Self, NoteError>::Err(NoteError::OctaveRange),
    {
        match self {
            Octave::Zero => Err(NoteError::OctaveRange),
            Octave::One => Ok(Octave::Zero),
            Octave::Two => Ok(Octave::One),
            Octave::Three => Ok(Octave::Two),
            Octave::Four => Ok(Octave::Three),
            Octave::Five => Ok(Octave::Four),
            Octave::Six => Ok(Octave::Five),
            Octave::Seven => Ok(Octave::Six),
            Octave::Eight => Ok(Octave::Seven),
        }
    }
}

/// A note letter with pitch modifier and octave.
///
/// Build one through [`Tone::new`] or [`Tone::try_from`]: a directly written
/// triple may pair a note and pitch that name no semitone (such as C flat),
/// which the semitone operations' contracts exclude.
#[derive(Debug, Copy, Clone, Eq, PartialEq, Structural)]
pub struct Tone(pub Note, pub Pitch, pub Octave);

/// Position of a tone within its octave, 1 (C natural) through 12 (B natural),
/// or -1 for a note/pitch pair that names no semitone.
pub open spec fn semitone_rank_s(t: Tone) -> int {
    match (t.0, t.1) {
        (Note::C, Pitch::Natural) => 1,
        (Note::C, Pitch::Sharp) => 2,
        (Note::D, Pitch::Flat) => 2,
        (Note::D, Pitch::Natural) => 3,
        (Note::D, Pitch::Sharp) => 4,
        (Note::E, Pitch::Flat) => 4,
        (Note::E, Pitch::Natural) => 5,
        (Note::F, Pitch::Natural) => 6,
        (Note::F, Pitch::Sharp) => 7,
        (Note::G, Pitch::Flat) => 7,
        (Note::G, Pitch::Natural) => 8,
        (Note::G, Pitch::Sharp) => 9,
        (Note::A, Pitch::Flat) => 9,
        (Note::A, Pitch::Natural) => 10,
        (Note::A, Pitch::Sharp) => 11,
        (Note::B, Pitch::Flat) => 11,
        (Note::B, Pitch::Natural) => 12,
        _ => -1,
    }
}

/// A tone is valid when its note/pitch pair names a semitone.
pub open spec fn tone_valid(t: Tone) -> bool {
    semitone_rank_s(t) >= 1
}

/// Absolute semitone position of a valid tone: rank plus twelve per octave.
pub open spec fn semitone_abs(t: Tone) -> int {
    semitone_rank_s(t) + 12 * octave_num(t.2)
}

impl Tone {
    /// Combine note, pitch and octave; refused when the note/pitch pair
    /// names no semitone.
    pub fn new(note: Note, pitch: Pitch, octave: Octave) -> (r: Result<Self, NoteError>)
        ensures
            tone_valid(Tone(note, pitch, octave)) ==> r == Result::<Self, NoteError>::Ok(
                Tone(note, pitch, octave),
            ),
            !tone_valid(Tone(note, pitch, octave)) ==> r == Result::<Self, NoteError>::Err(
                NoteError::InvalidTone,
            ),
    {
        let t = Tone(note, pitch, octave);
        if t.semitone_rank() < 0 {
            Err(NoteError::InvalidTone)
        } else {
            Ok(t)
        }
    }

    /// The reference tone A natural in octave four (concert pitch A440).
    pub fn fixed_tone() -> (t: Self)
        ensures
            t == (Tone(Note::A, Pitch::Natural, Octave::Four)),
            tone_valid(t),
    {
        Tone(Note::A, Pitch::Natural, Octave::Four)
    }

    /// The note letter.
    pub fn note(&self) -> (n: Note)
        ensures
            n == self.0,
    {
        self.0
    }

    /// The pitch modifier.
    pub fn pitch(&self) -> (p: Pitch)
        ensures
            p == self.1,
    {
        self.1
    }

    /// The octave.
    pub fn octave(&self) -> (o: Octave)
        ensures
            o == self.2,
    {
        self.2
    }

    /// Position within the octave, 1 through 12, or -1 when the note/pitch
    /// pair names no semitone.
    pub fn semitone_rank(&self) -> (r: i32)
        ensures
            r as int == semitone_rank_s(*self),
            -1 <= r as int <= 12,
    {
        match (self.0, self.1) {
            (Note::C, Pitch::Natural) => 1,
            (Note::C, Pitch::Sharp) => 2,
            (Note::D, Pitch::Flat) => 2,
            (Note::D, Pitch::Natural) => 3,
            (Note::D, Pitch::Sharp) => 4,
            (Note::E, Pitch::Flat) => 4,
            (Note::E, Pitch::Natural) => 5,
            (Note::F, Pitch::Natural) => 6,
            (Note::F, Pitch::Sharp) => 7,
            (Note::G, Pitch::Flat) => 7,
            (Note::G, Pitch::Natural) => 8,
            (Note::G, Pitch::Sharp) => 9,
            (Note::A, Pitch::Flat) => 9,
            (Note::A, Pitch::Natural) => 10,
            (Note::A, Pitch::Sharp) => 11,
            (Note::B, Pitch::Flat) => 11,
            (Note::B, Pitch::Natural) => 12,
            _ => -1,
        }
    }

    /// Signed semitone distance from `self` down to `to`: positive when
    /// `self` is higher.
    pub fn semitone_distance_to(&self, to: &Tone) -> (d: i32)
        ensures
            d as int == semitone_rank_s(*self) + 12 * octave_num(self.2) - (semitone_rank_s(*to)
                + 12 * octave_num(to.2)),
    {
        let inter: i32 = self.octave_number() as i32 - to.octave_number() as i32;
        let intra: i32 = self.semitone_rank() - to.semitone_rank();
        intra + 12 * inter
    }

    /// The same note and pitch moved to the given octave.
    pub fn with_octave(&self, octave: Octave) -> (t: Self)
        ensures
            t == (Tone(self.0, self.1, octave)),
    {
        Tone(self.0, self.1, octave)
    }

    /// The octave as a number, 0 through 8.
    fn octave_number(&self) -> (n: u8)
        ensures
            n as int == octave_num(self.2),
    {
        match self.2 {
            Octave::Zero => 0,
            Octave::One => 1,
            Octave::Two => 2,
            Octave::Three => 3,
            Octave::Four => 4,
            Octave::Five => 5,
            Octave::Six => 6,
            Octave::Seven => 7,
            Octave::Eight => 8,
        }
    }

    /// The tone one semitone higher, preferring the sharp spelling of the
    /// black keys; refused above B natural in octave eight.
    pub fn semitone_up(&self) -> (r: Result<Self, NoteError>)
        requires
            tone_valid(*self),
        ensures
            match r {
                Ok(t) => tone_valid(t) && semitone_abs(t) == semitone_abs(*self) + 1 && t.1
                    != Pitch::Flat,
                Err(e) => e == NoteError::OctaveRange && semitone_rank_s(*self) == 12
                    && octave_num(self.2) == 8,
            },
    {
        match (self.0, self.1) {
            (Note::B, Pitch::Natural) => {
                let o = self.2.try_next()?;
                Ok(Tone(Note::C, Pitch::Natural, o))
            },
            (Note::E, Pitch::Natural) => Ok(Tone(Note::F, Pitch::Natural, self.2)),
            (n, Pitch::Flat) => Ok(Tone(n, Pitch::Natural, self.2)),
            (n, Pitch::Natural) => Ok(Tone(n, Pitch::Sharp, self.2)),
            (n, Pitch::Sharp) => Ok(Tone(n.next(), Pitch::Natural, self.2)),
        }
    }

    /// The tone one semitone lower, preferring the flat spelling of the
    /// black keys; refused below C natural in octave zero.
    pub fn semitone_down(&self) -> (r: Result<Self, NoteError>)
        requires
            tone_valid(*self),
        ensures
            match r {
                Ok(t) => tone_valid(t) && semitone_abs(t) == semitone_abs(*self) - 1 && t.1
                    != Pitch::Sharp,
                Err(e) => e == NoteError::OctaveRange && semitone_rank_s(*self) == 1
                    && octave_num(self.2) == 0,
            },
    {
        match (self.0, self.1) {
            (Note::C, Pitch::Natural) => {
                let o = self.2.try_prev()?;
                Ok(Tone(Note::B, Pitch::Natural, o))
            },
            (Note::F, Pitch::Natural) => Ok(Tone(Note::E, Pitch::Natural, self.2)),
            (n, Pitch::Sharp) => Ok(Tone(n, Pitch::Natural, self.2)),
            (n, Pitch::Natural) => Ok(Tone(n, Pitch::Flat, self.2)),
            (n, Pitch::Flat) => Ok(Tone(n.prev(), Pitch::Natural, self.2)),
        }
    }

    /// The enharmonic spelling of the same semitone, if one exists.
    pub fn doppelganger(&self) -> (r: Option<Self>)
        ensures
            match r {
                Some(t) => t.1 != self.1 && t.2 == self.2 && semitone_rank_s(t) == semitone_rank_s(
                    *self,
                ),
                None => self.1 == Pitch::Natural || !tone_valid(*self),
            },
    {
        match (self.0, self.1) {
            (Note::C, Pitch::Sharp) => Some(Tone(Note::D, Pitch::Flat, self.2)),
            (Note::D, Pitch::Flat) => Some(Tone(Note::C, Pitch::Sharp, self.2)),
            (Note::D, Pitch::Sharp) => Some(Tone(Note::E, Pitch::Flat, self.2)),
            (Note::E, Pitch::Flat) => Some(Tone(Note::D, Pitch::Sharp, self.2)),
            (Note::F, Pitch::Sharp) => Some(Tone(Note::G, Pitch::Flat, self.2)),
            (Note::G, Pitch::Flat) => Some(Tone(Note::F, Pitch::Sharp, self.2)),
            (Note::G, Pitch::Sharp) => Some(Tone(Note::A, Pitch::Flat, self.2)),
            (Note::A, Pitch::Flat) => Some(Tone(Note::G, Pitch::Sharp, self.2)),
            (Note::A, Pitch::Sharp) => Some(Tone(Note::B, Pitch::Flat, self.2)),
            (Note::B, Pitch::Flat) => Some(Tone(Note::A, Pitch::Sharp, self.2)),
            _ => None,
        }
    }
}

/// The note letter named by a character, if any.
pub open spec fn note_of_char(c: char) -> Option<Note> {
    match c {
        'A' => Some(Note::A),
        'B' => Some(Note::B),
        'C' => Some(Note::C),
        'D' => Some(Note::D),
        'E' => Some(Note::E),
        'F' => Some(Note::F),
        'G' => Some(Note::G),
        _ => None,
    }
}

/// The pitch named by a character, if any: an ASCII or typographic flat,
/// natural or sharp sign.
pub open spec fn pitch_of_char(c: char) -> Option<Pitch> {
    match c {
        'b' => Some(Pitch::Flat),
        '\u{266d}' => Some(Pitch::Flat),
        '\u{266e}' => Some(Pitch::Natural),
        '#' => Some(Pitch::Sharp),
        '\u{266f}' => Some(Pitch::Sharp),
        _ => None,
    }
}

/// The octave named by a decimal digit 0 through 8, if any.
pub open spec fn octave_of_char(c: char) -> Option<Octave> {
    match c {
        '0' => Some(Octave::Zero),
        '1' => Some(Octave::One),
        '2' => Some(Octave::Two),
        '3' => Some(Octave::Three),
        '4' => Some(Octave::Four),
        '5' => Some(Octave::Five),
        '6' => Some(Octave::Six),
        '7' => Some(Octave::Seven),
        '8' => Some(Octave::Eight),
        _ => None,
    }
}

/// The note, pitch and octave spelled by text of the form `A4` or `F#7`,
/// if the characters spell any, whether or not they name a semitone.
pub open spec fn spelled_tone(s: Seq<char>) -> Option<Tone> {
    if s.len() == 2 {
        match (note_of_char(s[0]), octave_of_char(s[1])) {
            (Some(n), Some(o)) => Some(Tone(n, Pitch::Natural, o)),
            _ => None,
        }
    } else if s.len() == 3 {
        match (note_of_char(s[0]), pitch_of_char(s[1]), octave_of_char(s[2])) {
            (Some(n), Some(p), Some(o)) => Some(Tone(n, p, o)),
            _ => None,
        }
    } else {
        None
    }
}

/// The valid tone named by text of the form `A4` or `F#7`, if any.
pub open spec fn parse_tone(s: Seq<char>) -> Option<Tone> {
    match spelled_tone(s) {
        Some(t) => if tone_valid(t) {
            Some(t)
        } else {
            None
        },
        None => None,
    }
}

fn note_from_char(c: char) -> (r: Option<Note>)
    ensures
        r == note_of_char(c),
{
    match c {
        'A' => Some(Note::A),
        'B' => Some(Note::B),
        'C' => Some(Note::C),
        'D' => Some(Note::D),
        'E' => Some(Note::E),
        'F' => Some(Note::F),
        'G' => Some(Note::G),
        _ => None,
    }
}

fn pitch_from_char(c: char) -> (r: Option<Pitch>)
    ensures
        r == pitch_of_char(c),
{
    match c {
        'b' => Some(Pitch::Flat),
        '\u{266d}' => Some(Pitch::Flat),
        '\u{266e}' => Some(Pitch::Natural),
        '#' => Some(Pitch::Sharp),
        '\u{266f}' => Some(Pitch::Sharp),
        _ => None,
    }
}

fn octave_from_char(c: char) -> (r: Option<Octave>)
    ensures
        r == octave_of_char(c),
{
    match c {
        '0' => Some(Octave::Zero),
        '1' => Some(Octave::One),
        '2' => Some(Octave::Two),
        '3' => Some(Octave::Three),
        '4' => Some(Octave::Four),
        '5' => Some(Octave::Five),
        '6' => Some(Octave::Six),
        '7' => Some(Octave::Seven),
        '8' => Some(Octave::Eight),
        _ => None,
    }
}

impl Tone {
    /// Parse text of the form `A4` or `F#7` into a valid tone: refused as
    /// unparsable when the characters spell no tone at all, and as invalid
    /// when they spell one that names no semitone.
    pub fn try_from(s: &str) -> (r: Result<Self, NoteError>)
        ensures
            match r {
                Ok(t) => parse_tone(s@) == Some(t),
                Err(e) => parse_tone(s@) is None && e == (match spelled_tone(s@) {
                    Some(_) => NoteError::InvalidTone,
                    None => NoteError::Unparsable,
                }),
            },
    {
        let len = s.unicode_len();
        if len == 2 {
            let n = match note_from_char(s.get_char(0)) {
                Some(n) => n,
                None => {
                    return Err(NoteError::Unparsable);
                },
            };
            let o = match octave_from_char(s.get_char(1)) {
                Some(o) => o,
                None => {
                    return Err(NoteError::Unparsable);
                },
            };
            Tone::new(n, Pitch::Natural, o)
        } else if len == 3 {
            let n = match note_from_char(s.get_char(0)) {
                Some(n) => n,
                None => {
                    return Err(NoteError::Unparsable);
                },
            };
            let p = match pitch_from_char(s.get_char(1)) {
                Some(p) => p,
                None => {
                    return Err(NoteError::Unparsable);
                },
            };
            let o = match octave_from_char(s.get_char(2)) {
                Some(o) => o,
                None => {
                    return Err(NoteError::Unparsable);
                },
            };
            Tone::new(n, p, o)
        } else {
            Err(NoteError::Unparsable)
        }
    }
}

} // verus!
