//! Intervals: a (quality, signed diatonic number) pair with
//! music-theoretic legality rules and semitone-offset computation.

use vstd::prelude::*;
use crate::pitch::{
    acc_offset_spec,
    lemma_enharmonic_closure,
    lemma_from_midi_midi,
    signed_byte_diff,
    Accidental,
    Letter,
    Note,
};

verus! {

/// Quality of an interval.
#[derive(Debug, Clone, Copy, PartialEq, Eq, Structural)]
pub enum IntervalQuality {
    Major,
    Perfect,
    Minor,
    Diminished,
    Augmented,
}

/// A named distance between two pitches: a quality and a signed diatonic
/// number whose magnitude is at least 1.
#[derive(Debug, Clone, Copy, PartialEq, Eq, Structural)]
pub struct Interval {
    pub quality: IntervalQuality,
    pub interval: i8,
}

/// Magnitude of an integer.
pub open spec fn abs_val(x: int) -> int {
    if x < 0 {
        -x
    } else {
        x
    }
}

/// Whether a step index (0 = unison through 6 = seventh) belongs to the
/// unison/fourth/fifth family, whose intervals are Perfect rather than
/// Major or Minor.
pub open spec fn perfect_family(step: int) -> bool {
    step == 0 || step == 3 || step == 4
}

/// Major and Perfect semitone offsets at each step index: unison 0,
/// second 2, third 4, fourth 5, fifth 7, sixth 9, seventh 11.
pub open spec fn base_of_step(step: int) -> int {
    if step == 0 {
        0
    } else if step == 1 {
        2
    } else if step == 2 {
        4
    } else if step == 3 {
        5
    } else if step == 4 {
        7
    } else if step == 5 {
        9
    } else {
        11
    }
}

impl Interval {
    /// Step index of the interval within the octave: 0 = unison through
    /// 6 = seventh.
    pub open spec fn step_index_spec(self) -> int {
        (abs_val(self.interval as int) - 1) % 7
    }

    /// Whole octaves spanned by the interval.
    pub open spec fn octaves_spec(self) -> int {
        (abs_val(self.interval as int) - 1) / 7
    }

    /// Music-theoretic legality: the magnitude is at least 1, Perfect is
    /// legal only in the unison/fourth/fifth family, Major and Minor only
    /// in the complementary family, Diminished and Augmented everywhere.
    pub open spec fn legal_spec(self) -> bool {
        &&& 1 <= abs_val(self.interval as int)
        &&& match self.quality {
            IntervalQuality::Perfect => perfect_family(self.step_index_spec()),
            IntervalQuality::Major | IntervalQuality::Minor => !perfect_family(
                self.step_index_spec(),
            ),
            IntervalQuality::Diminished | IntervalQuality::Augmented => true,
        }
    }

    /// Unsigned semitone span of the interval: 12 per octave plus the
    /// quality-adjusted step offset.
    pub open spec fn offset_magnitude_spec(self) -> int {
        let base = base_of_step(self.step_index_spec());
        12 * self.octaves_spec() + match self.quality {
            IntervalQuality::Major | IntervalQuality::Perfect => base,
            IntervalQuality::Minor => base - 1,
            IntervalQuality::Augmented => base + 1,
            IntervalQuality::Diminished => if perfect_family(self.step_index_spec()) {
                base - 1
            } else {
                base - 2
            },
        }
    }

    /// Signed semitone offset: the magnitude, negated for descending
    /// (negative-numbered) intervals.
    pub open spec fn midi_offset_spec(self) -> int {
        if self.interval > 0 {
            self.offset_magnitude_spec()
        } else {
            -self.offset_magnitude_spec()
        }
    }

    /// A well-formed interval is legal and its semitone span fits the
    /// signed byte that offset computation returns.
    pub open spec fn wf(self) -> bool {
        self.legal_spec() && self.offset_magnitude_spec() <= 127
    }

    /// Construct an interval, enforcing quality/number legality.
    pub fn new(quality: IntervalQuality, interval: i8) -> (r: Interval)
        requires
            (Interval { quality, interval }).legal_spec(),
        ensures
            r == (Interval { quality, interval }),
    {
        Interval { quality, interval }
    }

    /// Semitone offset of the interval (a Perfect octave is 12, a Major
    /// tenth 16; descending intervals are negative).
    pub fn midi_offset(self) -> (r: i8)
        requires
            self.wf(),
        ensures
            r as int == self.midi_offset_spec(),
    {
        let iv: i32 = self.interval as i32;
        let a: i32 = if iv < 0 {
            -iv
        } else {
            iv
        };
        let interval0: i32 = a - 1;
        let octaves: i32 = interval0 / 7;
        let idx: i32 = interval0 % 7;
        assert(octaves == self.octaves_spec() && idx == self.step_index_spec());
        let base: i32 = if idx == 0 {
            0
        } else if idx == 1 {
            2
        } else if idx == 2 {
            4
        } else if idx == 3 {
            5
        } else if idx == 4 {
            7
        } else if idx == 5 {
            9
        } else {
            11
        };
        let adj: i32 = match self.quality {
            IntervalQuality::Major | IntervalQuality::Perfect => base,
            IntervalQuality::Minor => base - 1,
            IntervalQuality::Augmented => base + 1,
            IntervalQuality::Diminished => if idx == 0 || idx == 3 || idx == 4 {
                base - 1
            } else {
                base - 2
            },
        };
        let mag: i32 = 12 * octaves + adj;
        if self.interval > 0 {
            mag as i8
        } else {
            (-mag) as i8
        }
    }
}

impl Note {
    /// Adding an interval to a note: the target pitch is the note's MIDI
    /// pitch plus the interval's offset (wrapping), the target letter is
    /// the note's letter stepped by the signed diatonic distance, and the
    /// result is the respelling of the target pitch under the target
    /// letter, if one exists.
    pub open spec fn add_spec(self, i: Interval) -> Option<Note> {
        let target = (self.midi_spec() + i.midi_offset_spec()) % 256;
        let delta = if i.interval > 0 {
            i.interval - 1
        } else {
            i.interval + 1
        };
        let letter = Letter::of_ord_spec((self.letter.ord_spec() + delta) % 7);
        Note::from_midi_spec(target).enharmonic_spec(letter)
    }

    /// Transpose this note by an interval.  Returns `None` when the target
    /// letter cannot spell the target pitch; callers treat that as
    /// "interval not applicable here".
    pub fn add(self, i: Interval) -> (r: Option<Note>)
        requires
            i.wf(),
        ensures
            r == self.add_spec(i),
    {
        let off: i8 = i.midi_offset();
        let t: i32 = self.midi() as i32 + off as i32;
        let t: i32 = if t < 0 {
            t + 256
        } else {
            t % 256
        };
        assert(t == (self.midi_spec() + i.midi_offset_spec()) % 256) by {
            let x = self.midi_spec() + i.midi_offset_spec();
            if x < 0 {
                vstd::arithmetic::div_mod::lemma_mod_multiples_vanish(1, x, 256);
                vstd::arithmetic::div_mod::lemma_small_mod((x + 256) as nat, 256);
            }
        }
        let target = Note::from_midi(t as u8);
        let delta: i32 = if i.interval > 0 {
            i.interval as i32 - 1
        } else {
            i.interval as i32 + 1
        };
        let s: i32 = self.letter.ord() as i32 + delta + 7 * 19;
        assert(s >= 0);
        let s7: i32 = s % 7;
        assert(s7 == (self.letter.ord_spec() + (if i.interval > 0 {
            i.interval - 1
        } else {
            i.interval + 1
        })) % 7) by {
            vstd::arithmetic::div_mod::lemma_mod_multiples_vanish(
                19,
                self.letter.ord_spec() + (if i.interval > 0 {
                    i.interval - 1
                } else {
                    i.interval + 1
                }),
                7,
            );
        }
        let letter = Letter::of_ord(s7 as u8);
        target.enharmonic_equivalent(letter)
    }
}

/// The ascending perfect unison.
pub open spec fn perfect_unison() -> Interval {
    Interval { quality: IntervalQuality::Perfect, interval: 1 }
}

/// Adding a perfect unison to a note keeps its pitch, for every letter,
/// octave 0 through 8, and accidental.  A note without an accidental comes
/// back unchanged.
pub proof fn lemma_unison_identity(letter: Letter, octave: u8, accidental: Option<Accidental>)
    requires
        octave <= 8,
    ensures
        ({
            let n = Note { letter, octave, accidental };
            &&& n.add_spec(perfect_unison()) is Some
            &&& n.add_spec(perfect_unison())->Some_0.midi_spec() == n.midi_spec()
            &&& accidental is None ==> n.add_spec(perfect_unison()) == Some(n)
        }),
{
    let n = Note { letter, octave, accidental };
    let u = perfect_unison();
    assert(u.midi_offset_spec() == 0);
    let raw = letter.base_spec() + acc_offset_spec(accidental) + 12 * (octave + 1);
    assert(10 <= raw < 256);
    assert(n.midi_spec() == raw) by {
        vstd::arithmetic::div_mod::lemma_small_mod(raw as nat, 256);
    }
    assert(raw % 256 == raw) by {
        vstd::arithmetic::div_mod::lemma_small_mod(raw as nat, 256);
    }
    assert((letter.ord_spec() + 0) % 7 == letter.ord_spec()) by {
        vstd::arithmetic::div_mod::lemma_small_mod(letter.ord_spec() as nat, 7);
    }
    assert(Letter::of_ord_spec(letter.ord_spec()) == letter);
    lemma_from_midi_midi(raw);
    let fm = Note::from_midi_spec(raw);
    let cand = fm.enharm_candidate_spec(letter);
    lemma_enharmonic_closure(fm, letter);
    let off = acc_offset_spec(accidental);
    assert(cand.letter == letter && cand.accidental is None);
    assert(cand.octave == octave && cand.midi_spec() == raw - off && signed_byte_diff(
        cand.midi_spec(),
        raw,
    ) == -off) by {
        lemma_unison_candidate_octave(letter, octave, accidental);
    }
    assert(n.add_spec(u) == fm.enharmonic_spec(letter));
    assert(fm.enharmonic_spec(letter) is Some);
    if accidental is None {
        assert(fm.enharmonic_spec(letter) == Some(cand));
        assert(cand == n);
    }
}

/// Helper for the unison identity: the respelling candidate of the
/// canonical spelling of a note's pitch, under the note's own letter,
/// sits at the note's own octave and pitch, shifted back by the
/// accidental's offset.
proof fn lemma_unison_candidate_octave(letter: Letter, octave: u8, accidental: Option<Accidental>)
    requires
        octave <= 8,
    ensures
        ({
            let n = Note { letter, octave, accidental };
            let raw = letter.base_spec() + acc_offset_spec(accidental) + 12 * (octave + 1);
            let fm = Note::from_midi_spec(raw);
            let cand = fm.enharm_candidate_spec(letter);
            &&& cand.octave == octave
            &&& cand.midi_spec() == raw - acc_offset_spec(accidental)
            &&& signed_byte_diff(cand.midi_spec(), raw) == -acc_offset_spec(accidental)
        }),
{
    let n = Note { letter, octave, accidental };
    let off = acc_offset_spec(accidental);
    let raw = letter.base_spec() + off + 12 * (octave + 1);
    assert(10 <= raw < 256);
    let fm = Note::from_midi_spec(raw);
    let cand = fm.enharm_candidate_spec(letter);
    let c = letter.base_spec() + off;
    assert(raw == 12 * (octave + 1) + c && -2 <= c <= 13);
    if 0 <= c <= 11 {
        assert(raw % 12 == c && raw / 12 == octave + 1) by {
            vstd::arithmetic::div_mod::lemma_fundamental_div_mod_converse(
                raw,
                12,
                octave + 1,
                c,
            );
        }
        assert(fm.octave == octave) by {
            vstd::arithmetic::div_mod::lemma_small_mod(octave as nat, 256);
        }
        assert(-4 <= letter.ord_spec() - fm.letter.ord_spec() <= 4);
        assert(cand.octave == octave);
    } else if c < 0 {
        assert(letter == Letter::C);
        assert(raw % 12 == c + 12 && raw / 12 == octave) by {
            vstd::arithmetic::div_mod::lemma_fundamental_div_mod_converse(
                raw,
                12,
                octave as int,
                c + 12,
            );
        }
        assert(fm.letter == Letter::A || fm.letter == Letter::B);
        if octave == 0 {
            assert(fm.octave == 255) by {
                vstd::arithmetic::div_mod::lemma_mod_multiples_vanish(1, -1, 256);
                vstd::arithmetic::div_mod::lemma_small_mod(255nat, 256);
            }
            assert(cand.octave as int == (255 + 1) % 256);
        } else {
            assert(fm.octave == octave - 1) by {
                vstd::arithmetic::div_mod::lemma_small_mod((octave - 1) as nat, 256);
            }
            assert(cand.octave == octave);
        }
    } else {
        assert(letter == Letter::B && c - 12 <= 1);
        assert(raw % 12 == c - 12 && raw / 12 == octave + 2) by {
            vstd::arithmetic::div_mod::lemma_fundamental_div_mod_converse(
                raw,
                12,
                octave + 2,
                c - 12,
            );
        }
        assert(fm.letter == Letter::C);
        assert(fm.octave == octave + 1) by {
            vstd::arithmetic::div_mod::lemma_small_mod((octave + 1) as nat, 256);
        }
        assert(letter.ord_spec() - fm.letter.ord_spec() == 6);
        assert(cand.octave == octave);
    }
    let craw = letter.base_spec() + 12 * (cand.octave + 1);
    assert(cand.midi_spec() == craw % 256);
    assert(0 <= craw < 256);
    assert(cand.midi_spec() == craw) by {
        vstd::arithmetic::div_mod::lemma_small_mod(craw as nat, 256);
    }
    assert(craw == raw - off);
    assert(signed_byte_diff(craw, raw) == -off) by {
        if craw >= raw {
            vstd::arithmetic::div_mod::lemma_small_mod((craw - raw) as nat, 256);
        } else {
            vstd::arithmetic::div_mod::lemma_mod_multiples_vanish(1, craw - raw, 256);
            vstd::arithmetic::div_mod::lemma_small_mod((craw - raw + 256) as nat, 256);
        }
    }
}

} // verus!
