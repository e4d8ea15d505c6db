//! Diatonic letters, accidentals, and notes with MIDI conversion.
//!
//! A note is a (letter, octave, optional accidental) triple.  Its MIDI
//! pitch lives in a wrapping 8-bit space: `midi = base(letter) +
//! offset(accidental) + 12 * (octave + 1)`, reduced modulo 256.

use vstd::prelude::*;

verus! {

/// One of the 7 diatonic note names, ordered C, D, E, F, G, A, B.
#[derive(Debug, Clone, Copy, PartialEq, Eq, Structural)]
pub enum Letter {
    C,
    D,
    E,
    F,
    G,
    A,
    B,
}

impl Letter {
    /// Position of the letter in the cyclic diatonic sequence, 0 through 6.
    pub open spec fn ord_spec(self) -> int {
        match self {
            Letter::C => 0,
            Letter::D => 1,
            Letter::E => 2,
            Letter::F => 3,
            Letter::G => 4,
            Letter::A => 5,
            Letter::B => 6,
        }
    }

    /// Semitone of the letter within its octave (the white-key pitch classes).
    pub open spec fn base_spec(self) -> int {
        match self {
            Letter::C => 0,
            Letter::D => 2,
            Letter::E => 4,
            Letter::F => 5,
            Letter::G => 7,
            Letter::A => 9,
            Letter::B => 11,
        }
    }

    /// The letter with the given ordinal, 0 through 6.
    pub open spec fn of_ord_spec(k: int) -> Letter {
        if k == 0 {
            Letter::C
        } else if k == 1 {
            Letter::D
        } else if k == 2 {
            Letter::E
        } else if k == 3 {
            Letter::F
        } else if k == 4 {
            Letter::G
        } else if k == 5 {
            Letter::A
        } else {
            Letter::B
        }
    }

    pub fn ord(self) -> (r: u8)
        ensures
            r as int == self.ord_spec(),
    {
        match self {
            Letter::C => 0,
            Letter::D => 1,
            Letter::E => 2,
            Letter::F => 3,
            Letter::G => 4,
            Letter::A => 5,
            Letter::B => 6,
        }
    }

    pub fn base(self) -> (r: u8)
        ensures
            r as int == self.base_spec(),
    {
        match self {
            Letter::C => 0,
            Letter::D => 2,
            Letter::E => 4,
            Letter::F => 5,
            Letter::G => 7,
            Letter::A => 9,
            Letter::B => 11,
        }
    }

    pub fn of_ord(k: u8) -> (r: Letter)
        requires
            k < 7,
        ensures
            r == Letter::of_ord_spec(k as int),
    {
        if k == 0 {
            Letter::C
        } else if k == 1 {
            Letter::D
        } else if k == 2 {
            Letter::E
        } else if k == 3 {
            Letter::F
        } else if k == 4 {
            Letter::G
        } else if k == 5 {
            Letter::A
        } else {
            Letter::B
        }
    }
}

/// A pitch modifier with a semitone offset between -2 and 2.
///
/// The absence of an accidental marker on a note (`accidental == None`)
/// and an explicit `Natural` marker both leave the pitch unchanged, but
/// they render differently and come from different code paths: respelling
/// never produces an explicit `Natural`, while parsing may.
#[derive(Debug, Clone, Copy, PartialEq, Eq, Structural)]
pub enum Accidental {
    DoubleFlat,
    Flat,
    Natural,
    Sharp,
    DoubleSharp,
}

impl Accidental {
    /// Semitone offset of the accidental, -2 through 2.
    pub open spec fn offset_spec(self) -> int {
        match self {
            Accidental::DoubleFlat => -2,
            Accidental::Flat => -1,
            Accidental::Natural => 0,
            Accidental::Sharp => 1,
            Accidental::DoubleSharp => 2,
        }
    }

    pub fn offset(self) -> (r: i8)
        ensures
            r as int == self.offset_spec(),
    {
        match self {
            Accidental::DoubleFlat => -2,
            Accidental::Flat => -1,
            Accidental::Natural => 0,
            Accidental::Sharp => 1,
            Accidental::DoubleSharp => 2,
        }
    }

    /// The accidental with the given semitone offset, if one exists.
    pub open spec fn of_offset_spec(v: int) -> Option<Accidental> {
        if v == -2 {
            Some(Accidental::DoubleFlat)
        } else if v == -1 {
            Some(Accidental::Flat)
        } else if v == 0 {
            Some(Accidental::Natural)
        } else if v == 1 {
            Some(Accidental::Sharp)
        } else if v == 2 {
            Some(Accidental::DoubleSharp)
        } else {
            None
        }
    }

    pub fn of_offset(v: i8) -> (r: Option<Accidental>)
        ensures
            r == Accidental::of_offset_spec(v as int),
    {
        if v == -2 {
            Some(Accidental::DoubleFlat)
        } else if v == -1 {
            Some(Accidental::Flat)
        } else if v == 0 {
            Some(Accidental::Natural)
        } else if v == 1 {
            Some(Accidental::Sharp)
        } else if v == 2 {
            Some(Accidental::DoubleSharp)
        } else {
            None
        }
    }
}

/// A (letter, octave, optional accidental) triple naming a pitch.
#[derive(Debug, Clone, Copy, PartialEq, Eq, Structural)]
pub struct Note {
    pub letter: Letter,
    pub octave: u8,
    pub accidental: Option<Accidental>,
}

/// Semitone offset of an optional accidental; absence counts as 0.
pub open spec fn acc_offset_spec(a: Option<Accidental>) -> int {
    match a {
        Some(x) => x.offset_spec(),
        None => 0,
    }
}

impl Note {
    /// MIDI pitch of the note in the wrapping 8-bit pitch space (C4 = 60).
    pub open spec fn midi_spec(self) -> int {
        (self.letter.base_spec() + acc_offset_spec(self.accidental) + 12 * (self.octave + 1)) % 256
    }

    /// MIDI pitch of the note (C4 = 60), wrapping modulo 256.
    pub fn midi(self) -> (r: u8)
        ensures
            r as int == self.midi_spec(),
    {
        let base = self.letter.base() as i32;
        let off = match self.accidental {
            Some(a) => a.offset() as i32,
            None => 0i32,
        };
        let total: i32 = base + off + 12 * (self.octave as i32 + 1);
        assert(total == self.letter.base_spec() + acc_offset_spec(self.accidental) + 12 * (
        self.octave + 1));
        assert(total >= 10);
        (total % 256) as u8
    }

    /// Canonical spelling of a MIDI pitch: the nearest natural letter at or
    /// below the pitch, sharpened by one semitone when the pitch falls
    /// between two naturals.  Never produces a flat.
    pub open spec fn from_midi_spec(m: int) -> Note {
        let sem = m % 12;
        let octave = ((m / 12) - 1) % 256;
        let (letter, accidental): (Letter, Option<Accidental>) = if sem == 0 {
            (Letter::C, None)
        } else if sem == 1 {
            (Letter::C, Some(Accidental::Sharp))
        } else if sem == 2 {
            (Letter::D, None)
        } else if sem == 3 {
            (Letter::D, Some(Accidental::Sharp))
        } else if sem == 4 {
            (Letter::E, None)
        } else if sem == 5 {
            (Letter::F, None)
        } else if sem == 6 {
            (Letter::F, Some(Accidental::Sharp))
        } else if sem == 7 {
            (Letter::G, None)
        } else if sem == 8 {
            (Letter::G, Some(Accidental::Sharp))
        } else if sem == 9 {
            (Letter::A, None)
        } else if sem == 10 {
            (Letter::A, Some(Accidental::Sharp))
        } else {
            (Letter::B, None)
        };
        Note { letter, octave: octave as u8, accidental }
    }

    /// The canonical (sharp-only) spelling of a MIDI pitch.
    pub fn from_midi(m: u8) -> (r: Note)
        ensures
            r == Note::from_midi_spec(m as int),
            r.midi_spec() == m as int,
            r.accidental == Option::<Accidental>::None || r.accidental == Some(Accidental::Sharp),
    {
        let sem = m % 12;
        let octave: u8 = if m < 12 {
            255
        } else {
            m / 12 - 1
        };
        let (letter, accidental): (Letter, Option<Accidental>) = if sem == 0 {
            (Letter::C, None)
        } else if sem == 1 {
            (Letter::C, Some(Accidental::Sharp))
        } else if sem == 2 {
            (Letter::D, None)
        } else if sem == 3 {
            (Letter::D, Some(Accidental::Sharp))
        } else if sem == 4 {
            (Letter::E, None)
        } else if sem == 5 {
            (Letter::F, None)
        } else if sem == 6 {
            (Letter::F, Some(Accidental::Sharp))
        } else if sem == 7 {
            (Letter::G, None)
        } else if sem == 8 {
            (Letter::G, Some(Accidental::Sharp))
        } else if sem == 9 {
            (Letter::A, None)
        } else {
            if sem == 10 {
                (Letter::A, Some(Accidental::Sharp))
            } else {
                (Letter::B, None)
            }
        };
        let r = Note { letter, octave, accidental };
        proof {
            lemma_from_midi_midi(m as int);
        }
        r
    }
}

/// Reads a difference of two 8-bit pitches as a signed quantity: the
/// residue of `a - b` modulo 256, mapped into the range -128 through 127.
pub open spec fn signed_byte_diff(a: int, b: int) -> int {
    let d = (a - b) % 256;
    if d >= 128 {
        d - 256
    } else {
        d
    }
}

impl Note {
    /// The respelling candidate for this note under another letter name:
    /// the bare letter, with the octave adjusted so that the candidate
    /// stays near this note's pitch.
    pub open spec fn enharm_candidate_spec(self, letter: Letter) -> Note {
        let d = letter.ord_spec() - self.letter.ord_spec();
        let octave = if 5 <= d && d <= 7 {
            (self.octave - 1) % 256
        } else if -7 <= d && d <= -5 {
            (self.octave + 1) % 256
        } else {
            self.octave as int
        };
        Note { letter, octave: octave as u8, accidental: None }
    }

    /// Respelling of this note under another letter name at the same
    /// pitch, if the two letters are at most two semitones apart at the
    /// adjusted octave.
    pub open spec fn enharmonic_spec(self, letter: Letter) -> Option<Note> {
        let cand = self.enharm_candidate_spec(letter);
        let sd = signed_byte_diff(cand.midi_spec(), self.midi_spec());
        if sd == -2 {
            Some(Note { accidental: Some(Accidental::DoubleSharp), ..cand })
        } else if sd == -1 {
            Some(Note { accidental: Some(Accidental::Sharp), ..cand })
        } else if sd == 0 {
            Some(cand)
        } else if sd == 1 {
            Some(Note { accidental: Some(Accidental::Flat), ..cand })
        } else if sd == 2 {
            Some(Note { accidental: Some(Accidental::DoubleFlat), ..cand })
        } else {
            None
        }
    }

    /// Respell this note under a different letter name at the same pitch.
    /// Returns `None` when the target letter cannot represent the pitch:
    /// letters more than a whole tone apart at the adjusted octave have no
    /// respelling.  Never produces an explicit `Natural`.
    pub fn enharmonic_equivalent(self, letter: Letter) -> (r: Option<Note>)
        ensures
            r == self.enharmonic_spec(letter),
    {
        let d: i8 = letter.ord() as i8 - self.letter.ord() as i8;
        let octave: u8 = if 5 <= d && d <= 7 {
            if self.octave == 0 {
                255
            } else {
                self.octave - 1
            }
        } else if -7 <= d && d <= -5 {
            if self.octave == 255 {
                0
            } else {
                self.octave + 1
            }
        } else {
            self.octave
        };
        let cand = Note { letter, octave, accidental: None };
        assert(cand == self.enharm_candidate_spec(letter));
        let diff: i32 = cand.midi() as i32 - self.midi() as i32;
        let diff: i32 = if diff < 0 {
            diff + 256
        } else {
            diff
        };
        assert(diff == (cand.midi_spec() - self.midi_spec()) % 256);
        let sd: i32 = if diff >= 128 {
            diff - 256
        } else {
            diff
        };
        if sd == -2 {
            Some(Note { accidental: Some(Accidental::DoubleSharp), ..cand })
        } else if sd == -1 {
            Some(Note { accidental: Some(Accidental::Sharp), ..cand })
        } else if sd == 0 {
            Some(cand)
        } else if sd == 1 {
            Some(Note { accidental: Some(Accidental::Flat), ..cand })
        } else if sd == 2 {
            Some(Note { accidental: Some(Accidental::DoubleFlat), ..cand })
        } else {
            None
        }
    }

    /// The respellings of this note gathered over the 7 letters with
    /// ordinal below `k`, in letter order.
    pub open spec fn equivalents_upto(self, k: int) -> Seq<Note>
        decreases k,
    {
        if k <= 0 {
            Seq::empty()
        } else {
            let rest = self.equivalents_upto(k - 1);
            match self.enharmonic_spec(Letter::of_ord_spec(k - 1)) {
                Some(n) => rest.push(n),
                None => rest,
            }
        }
    }

    /// Every letter's respelling of this note, in letter order C through B.
    pub open spec fn all_equivalents_spec(self) -> Seq<Note> {
        self.equivalents_upto(7)
    }

    /// Try all 7 letters and keep the letters that can respell this note.
    pub fn all_enharmonic_equivalents(self) -> (r: Vec<Note>)
        ensures
            r@ == self.all_equivalents_spec(),
    {
        let mut r: Vec<Note> = Vec::new();
        let mut k: u8 = 0;
        while k < 7
            invariant
                k <= 7,
                r@ == self.equivalents_upto(k as int),
            decreases 7 - k,
        {
            let letter = Letter::of_ord(k);
            match self.enharmonic_equivalent(letter) {
                Some(n) => r.push(n),
                None => (),
            }
            k = k + 1;
        }
        r
    }

    /// Diatonic staff distance from this note up to `other`: 7 steps per
    /// octave plus the letter ordinal difference.
    pub open spec fn staff_distance_spec(self, other: Note) -> int {
        7 * (other.octave - self.octave) + other.letter.ord_spec() - self.letter.ord_spec()
    }

    /// How far up the staff the other note sits from this one.
    pub fn staff_distance(self, other: Note) -> (r: i8)
        requires
            -128 <= self.staff_distance_spec(other) <= 127,
        ensures
            r as int == self.staff_distance_spec(other),
    {
        let d: i32 = 7 * (other.octave as i32 - self.octave as i32) + other.letter.ord() as i32
            - self.letter.ord() as i32;
        d as i8
    }
}

/// A respelling exists exactly when the candidate's pitch is within two
/// semitones of the note's own pitch, and a respelling, when present, has
/// the same pitch as the note it respells.
pub proof fn lemma_enharmonic_closure(n: Note, letter: Letter)
    ensures
        n.enharmonic_spec(letter) is Some <==> -2 <= signed_byte_diff(
            n.enharm_candidate_spec(letter).midi_spec(),
            n.midi_spec(),
        ) <= 2,
        n.enharmonic_spec(letter) matches Some(e) ==> e.midi_spec() == n.midi_spec(),
{
    let cand = n.enharm_candidate_spec(letter);
    let cm = cand.midi_spec();
    let nm = n.midi_spec();
    let sd = signed_byte_diff(cm, nm);
    assert(0 <= cm < 256 && 0 <= nm < 256) by {
        vstd::arithmetic::div_mod::lemma_mod_bound(
            cand.letter.base_spec() + acc_offset_spec(cand.accidental) + 12 * (cand.octave + 1),
            256,
        );
        vstd::arithmetic::div_mod::lemma_mod_bound(
            n.letter.base_spec() + acc_offset_spec(n.accidental) + 12 * (n.octave + 1),
            256,
        );
    }
    if n.enharmonic_spec(letter) is Some {
        let e = n.enharmonic_spec(letter)->Some_0;
        assert(e.letter == cand.letter && e.octave == cand.octave);
        assert(acc_offset_spec(e.accidental) == -sd);
        let raw = cand.letter.base_spec() + 12 * (cand.octave + 1);
        assert(cm == raw % 256);
        assert(e.midi_spec() == (raw + (-sd)) % 256);
        assert((raw - sd) % 256 == (cm - sd) % 256) by {
            vstd::arithmetic::div_mod::lemma_sub_mod_noop(raw, sd, 256);
            vstd::arithmetic::div_mod::lemma_mod_twice(raw, 256);
            vstd::arithmetic::div_mod::lemma_mod_twice(sd, 256);
            vstd::arithmetic::div_mod::lemma_sub_mod_noop(raw % 256, sd, 256);
        }
        let d = (cm - nm) % 256;
        assert(sd == d || sd == d - 256);
        assert((cm - sd) % 256 == nm) by {
            vstd::arithmetic::div_mod::lemma_fundamental_div_mod(cm - nm, 256);
            vstd::arithmetic::div_mod::lemma_mod_bound(cm - nm, 256);
            let q = (cm - nm) / 256;
            assert(cm - sd == nm + 256 * q || cm - sd == nm + 256 * (q + 1));
            vstd::arithmetic::div_mod::lemma_mod_multiples_vanish(q, nm, 256);
            vstd::arithmetic::div_mod::lemma_mod_multiples_vanish(q + 1, nm, 256);
            vstd::arithmetic::div_mod::lemma_small_mod(nm as nat, 256);
        }
    }
}

/// Every gathered respelling keeps the note's pitch and never carries an
/// explicit natural marker.
pub proof fn lemma_equivalents_props(n: Note, k: int)
    requires
        0 <= k <= 7,
    ensures
        forall|j: int|
            0 <= j < n.equivalents_upto(k).len() ==> ((#[trigger] n.equivalents_upto(k)[j]).midi_spec()
                == n.midi_spec() && n.equivalents_upto(k)[j].accidental != Some(
                Accidental::Natural,
            )),
    decreases k,
{
    if k > 0 {
        lemma_equivalents_props(n, k - 1);
        lemma_enharmonic_closure(n, Letter::of_ord_spec(k - 1));
    }
}

/// Converting a MIDI pitch to its canonical spelling and back returns the
/// same pitch.
pub proof fn lemma_from_midi_midi(m: int)
    requires
        0 <= m < 256,
    ensures
        Note::from_midi_spec(m).midi_spec() == m,
{
    let n = Note::from_midi_spec(m);
    let sem = m % 12;
    let q = m / 12;
    assert(m == 12 * q + sem) by {
        vstd::arithmetic::div_mod::lemma_fundamental_div_mod(m, 12);
    }
    assert(n.letter.base_spec() + acc_offset_spec(n.accidental) == sem);
    if m < 12 {
        assert(q == 0) by {
            vstd::arithmetic::div_mod::lemma_basic_div(m, 12);
        }
        assert((q - 1) % 256 == 255);
        assert(n.octave == 255);
        assert(n.midi_spec() == (sem + 12 * 256) % 256);
        assert((sem + 12 * 256) % 256 == sem % 256) by {
            vstd::arithmetic::div_mod::lemma_mod_multiples_vanish(12, sem, 256);
        }
        assert(sem % 256 == sem) by {
            vstd::arithmetic::div_mod::lemma_small_mod(sem as nat, 256);
        }
    } else {
        assert(1 <= q < 22) by {
            vstd::arithmetic::div_mod::lemma_div_is_ordered(12, m, 12);
            vstd::arithmetic::div_mod::lemma_div_is_ordered(m, 263, 12);
        }
        assert((q - 1) % 256 == q - 1) by {
            vstd::arithmetic::div_mod::lemma_small_mod((q - 1) as nat, 256);
        }
        assert(n.octave == q - 1);
        assert(n.midi_spec() == (sem + 12 * q) % 256);
        assert(m % 256 == m) by {
            vstd::arithmetic::div_mod::lemma_small_mod(m as nat, 256);
        }
    }
}

} // verus!
