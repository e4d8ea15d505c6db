//! Tests of the pitch model: parsing, printing, MIDI conversion,
//! enharmonic respelling, and interval arithmetic.

use cello_cards::interval::{Interval, IntervalQuality};
use cello_cards::pitch::Accidental::{DoubleFlat, DoubleSharp, Flat, Natural, Sharp};
use cello_cards::pitch::Letter::{A, B, C, D, E, F, G};
use cello_cards::pitch::{Accidental, Letter, Note};

#[test]
fn midi_notes() {
    assert_eq!(Note::from_str("C4").unwrap().midi(), 60);
    assert_eq!(Note::from_str("B##3").unwrap().midi(), 61);
    assert_eq!(Note::from_str("Abb4").unwrap().midi(), 67);
}

#[test]
fn enharmonic_tests() {
    assert_eq!(
        Note::from_str("Cbb4")
            .unwrap()
            .enharmonic_equivalent(Letter::B)
            .unwrap(),
        Note::from_str("Bb3").unwrap()
    );
}

#[test]
fn interval_tests() {
    let test_interval = Interval::new(IntervalQuality::Perfect, 1);
    for letter in [A, B, C, D, E, F, G] {
        for octave in 0..=8 {
            let note = Note {
                letter,
                octave,
                accidental: None,
            };
            println!("{note:?}");
            assert_eq!(note.midi(), note.add(test_interval).unwrap().midi());
            for accidental in [DoubleFlat, DoubleSharp, Flat, Sharp, Natural] {
                let note = Note {
                    letter,
                    octave,
                    accidental: Some(accidental),
                };
                println!("{note:?}");
                assert_eq!(note.midi(), note.add(test_interval).unwrap().midi());
            }
        }
    }
    assert_eq!(
        Interval::new(IntervalQuality::Perfect, 8).midi_offset(),
        12
    );
    assert_eq!(Interval::new(IntervalQuality::Major, 10).midi_offset(), 16);
    assert_eq!(
        Interval::new(IntervalQuality::Diminished, 7).midi_offset(),
        9
    );
    assert_eq!(Interval::new(IntervalQuality::Perfect, 1).midi_offset(), 0);
    assert_eq!(Interval::new(IntervalQuality::Major, -3).midi_offset(), -4);
}

#[test]
fn note_round_trip() {
    for letter in [C, D, E, F, G, A, B] {
        for octave in [0, 1, 4, 9, 10, 42, 255] {
            for accidental in [
                None,
                Some(DoubleFlat),
                Some(Flat),
                Some(Natural),
                Some(Sharp),
                Some(DoubleSharp),
            ] {
                let n = Note {
                    letter,
                    octave,
                    accidental,
                };
                assert_eq!(Note::from_str(&n.to_string()), Some(n));
            }
        }
    }
}

#[test]
fn note_text_forms() {
    assert_eq!(
        Note::from_str("C"),
        Some(Note {
            letter: Letter::C,
            octave: 0,
            accidental: None
        })
    );
    assert_eq!(
        Note::from_str("Gn12"),
        Some(Note {
            letter: Letter::G,
            octave: 12,
            accidental: Some(Accidental::Natural)
        })
    );
    assert_eq!(Note::from_str(""), None);
    assert_eq!(Note::from_str("H4"), None);
    assert_eq!(Note::from_str("x"), None);
    // trailing text after the octave digits is ignored
    assert_eq!(Note::from_str("C4x"), Note::from_str("C4"));
    // octave digits wrap modulo 256
    assert_eq!(Note::from_str("C300").unwrap().octave, 44);
    let n = Note {
        letter: Letter::D,
        octave: 5,
        accidental: Some(Accidental::DoubleSharp),
    };
    assert_eq!(n.to_string(), "D##5");
    assert_eq!(
        Note {
            letter: Letter::A,
            octave: 0,
            accidental: None
        }
        .to_string(),
        "A0"
    );
}

#[test]
fn midi_wraps_around() {
    // the pitch space is 8-bit by design: octave 21 wraps
    assert_eq!(Note::from_str("C21").unwrap().midi(), 8);
    assert_eq!(
        Note {
            letter: Letter::C,
            octave: 2,
            accidental: None
        }
        .midi(),
        36
    );
}

#[test]
fn from_midi_never_flats() {
    for m in 0..=255u8 {
        let n = Note::from_midi(m);
        assert_eq!(n.midi(), m);
        assert!(n.accidental == None || n.accidental == Some(Accidental::Sharp));
    }
    assert_eq!(
        Note::from_midi(60),
        Note {
            letter: Letter::C,
            octave: 4,
            accidental: None
        }
    );
    assert_eq!(
        Note::from_midi(61),
        Note {
            letter: Letter::C,
            octave: 4,
            accidental: Some(Accidental::Sharp)
        }
    );
}

#[test]
fn enharmonic_closure() {
    // every gathered respelling keeps the pitch
    let n = Note::from_str("F#3").unwrap();
    let all = n.all_enharmonic_equivalents();
    assert!(!all.is_empty());
    for e in &all {
        assert_eq!(e.midi(), n.midi());
        assert_ne!(e.accidental, Some(Accidental::Natural));
    }
    // letters more than a whole tone away have no respelling
    let c4 = Note::from_str("C4").unwrap();
    assert_eq!(c4.enharmonic_equivalent(Letter::F), None);
    assert_eq!(c4.enharmonic_equivalent(Letter::G), None);
    // ... and letters within reach do
    assert_eq!(
        c4.enharmonic_equivalent(Letter::D),
        Note::from_str("Dbb4")
    );
    assert_eq!(c4.enharmonic_equivalent(Letter::B), Note::from_str("B#3"));
}

#[test]
fn add_without_respelling_is_none() {
    // near the wrap boundary the target letter cannot spell the target
    // pitch, and the addition reports that no respelling exists
    let high_c = Note::from_str("C20").unwrap();
    assert_eq!(
        high_c.add(Interval::new(IntervalQuality::Major, 3)),
        None
    );
}

#[test]
fn staff_distances() {
    let c4 = Note::from_str("C4").unwrap();
    let a3 = Note::from_str("A3").unwrap();
    assert_eq!(c4.staff_distance(c4), 0);
    assert_eq!(a3.staff_distance(c4), 2);
    assert_eq!(c4.staff_distance(a3), -2);
    let c2 = Note::from_str("C2").unwrap();
    assert_eq!(c2.staff_distance(c4), 14);
}

#[test]
fn accidental_offsets() {
    assert_eq!(Accidental::of_offset(-2), Some(Accidental::DoubleFlat));
    assert_eq!(Accidental::of_offset(0), Some(Accidental::Natural));
    assert_eq!(Accidental::of_offset(2), Some(Accidental::DoubleSharp));
    assert_eq!(Accidental::of_offset(3), None);
    assert_eq!(Accidental::DoubleFlat.offset(), -2);
    assert_eq!(Accidental::Sharp.to_str(), "#");
    assert_eq!(Accidental::Natural.to_str(), "n");
    assert_eq!(Letter::try_from_char('E'), Some(Letter::E));
    assert_eq!(Letter::try_from_char('e'), None);
    assert_eq!(Letter::B.to_char(), 'B');
}
