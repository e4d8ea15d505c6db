//! The generator configuration: finger-pattern, position and string
//! enable flags, per-clef inclusive MIDI ranges, accidental budgets, and
//! the randomized-transposition settings, with the named presets.

use vstd::prelude::*;
use crate::pitch::{Letter, Note};

verus! {

/// An inclusive range of MIDI pitches.
#[derive(Debug, Clone, Copy, PartialEq, Eq, Structural)]
pub struct MidiRange {
    pub lo: u8,
    pub hi: u8,
}

impl MidiRange {
    /// Whether a pitch lies within the range, both ends included.
    pub open spec fn contains_spec(self, m: int) -> bool {
        self.lo <= m <= self.hi
    }
}

/// Configuration of a generation pass: which hand shapes, positions and
/// strings are allowed, which clefs are enabled and over which pitch
/// ranges, how many sharps, flats and doubled accidentals a group may
/// carry, and how the randomized string transposition behaves
/// (`string_count == 0` disables it).
#[derive(Debug, Clone, Copy, PartialEq, Eq, Structural)]
pub struct CelloCardGenerator {
    pub finger_pattern_1_allowed: bool,
    pub finger_pattern_2_allowed: bool,
    pub finger_pattern_34_allowed: bool,
    pub finger_pattern_5_allowed: bool,
    pub bass_clef: Option<MidiRange>,
    pub tenor_clef: Option<MidiRange>,
    pub treble_clef: Option<MidiRange>,
    pub alto_clef: Option<MidiRange>,
    pub half_position_allowed: bool,
    pub position_1_allowed: bool,
    pub position_2_allowed: bool,
    pub position_3_allowed: bool,
    pub position_4_allowed: bool,
    pub position_5_allowed: bool,
    pub position_6_allowed: bool,
    pub position_7_allowed: bool,
    pub a_string: bool,
    pub d_string: bool,
    pub g_string: bool,
    pub c_string: bool,
    pub max_double_accidentals: u8,
    pub max_sharps: u8,
    pub max_flats: u8,
    pub shuffled_order: bool,
    pub string_count: u8,
}

/// The beginner preset: every position and string, the three plain hand
/// shapes, bass clef over C2 through C5, and no accidentals at all.
pub open spec fn no_sharps_flats_spec() -> CelloCardGenerator {
    CelloCardGenerator {
        finger_pattern_1_allowed: true,
        finger_pattern_2_allowed: true,
        finger_pattern_34_allowed: true,
        finger_pattern_5_allowed: false,
        bass_clef: Some(MidiRange { lo: 36, hi: 72 }),
        tenor_clef: None,
        treble_clef: None,
        alto_clef: None,
        half_position_allowed: true,
        position_1_allowed: true,
        position_2_allowed: true,
        position_3_allowed: true,
        position_4_allowed: true,
        position_5_allowed: true,
        position_6_allowed: true,
        position_7_allowed: true,
        a_string: true,
        d_string: true,
        g_string: true,
        c_string: true,
        max_double_accidentals: 0,
        max_sharps: 0,
        max_flats: 0,
        shuffled_order: false,
        string_count: 1,
    }
}

pub open spec fn one_flat_spec() -> CelloCardGenerator {
    CelloCardGenerator { max_flats: 1, ..no_sharps_flats_spec() }
}

pub open spec fn one_sharp_spec() -> CelloCardGenerator {
    CelloCardGenerator { max_sharps: 1, ..one_flat_spec() }
}

pub open spec fn two_flats_spec() -> CelloCardGenerator {
    CelloCardGenerator { max_flats: 2, ..one_sharp_spec() }
}

pub open spec fn two_sharps_spec() -> CelloCardGenerator {
    CelloCardGenerator { max_sharps: 2, ..two_flats_spec() }
}

pub open spec fn three_flats_spec() -> CelloCardGenerator {
    CelloCardGenerator { max_flats: 3, ..two_sharps_spec() }
}

pub open spec fn three_sharps_spec() -> CelloCardGenerator {
    CelloCardGenerator { max_sharps: 3, ..three_flats_spec() }
}

pub open spec fn tenor_clef_initial_spec() -> CelloCardGenerator {
    CelloCardGenerator {
        bass_clef: None,
        tenor_clef: Some(MidiRange { lo: 48, hi: 72 }),
        ..no_sharps_flats_spec()
    }
}

pub open spec fn tenor_clef_advanced_spec() -> CelloCardGenerator {
    CelloCardGenerator {
        bass_clef: None,
        tenor_clef: Some(MidiRange { lo: 48, hi: 72 }),
        ..three_sharps_spec()
    }
}

pub open spec fn treble_clef_initial_spec() -> CelloCardGenerator {
    CelloCardGenerator {
        bass_clef: None,
        treble_clef: Some(MidiRange { lo: 55, hi: 72 }),
        ..no_sharps_flats_spec()
    }
}

pub open spec fn treble_clef_advanced_spec() -> CelloCardGenerator {
    CelloCardGenerator {
        bass_clef: None,
        treble_clef: Some(MidiRange { lo: 55, hi: 72 }),
        ..three_sharps_spec()
    }
}

pub open spec fn advanced_spec() -> CelloCardGenerator {
    CelloCardGenerator {
        tenor_clef: Some(MidiRange { lo: 55, hi: 48 }),
        treble_clef: Some(MidiRange { lo: 55, hi: 72 }),
        max_double_accidentals: 1,
        shuffled_order: true,
        string_count: 2,
        finger_pattern_5_allowed: true,
        ..three_sharps_spec()
    }
}

pub open spec fn impossible_spec() -> CelloCardGenerator {
    CelloCardGenerator {
        finger_pattern_1_allowed: true,
        finger_pattern_2_allowed: true,
        finger_pattern_34_allowed: true,
        finger_pattern_5_allowed: true,
        bass_clef: Some(MidiRange { lo: 36, hi: 72 }),
        tenor_clef: Some(MidiRange { lo: 55, hi: 72 }),
        treble_clef: Some(MidiRange { lo: 55, hi: 84 }),
        alto_clef: Some(MidiRange { lo: 48, hi: 67 }),
        half_position_allowed: true,
        position_1_allowed: true,
        position_2_allowed: true,
        position_3_allowed: true,
        position_4_allowed: true,
        position_5_allowed: true,
        position_6_allowed: true,
        position_7_allowed: true,
        a_string: true,
        d_string: true,
        g_string: true,
        c_string: true,
        max_double_accidentals: 3,
        max_sharps: 3,
        max_flats: 3,
        shuffled_order: true,
        string_count: 4,
    }
}

impl CelloCardGenerator {
    pub fn no_sharps_flats() -> (r: CelloCardGenerator)
        ensures
            r == no_sharps_flats_spec(),
    {
        let lo = Note { letter: Letter::C, octave: 2, accidental: None }.midi();
        let hi = Note { letter: Letter::C, octave: 5, accidental: None }.midi();
        CelloCardGenerator {
            finger_pattern_1_allowed: true,
            finger_pattern_2_allowed: true,
            finger_pattern_34_allowed: true,
            finger_pattern_5_allowed: false,
            bass_clef: Some(MidiRange { lo, hi }),
            tenor_clef: None,
            treble_clef: None,
            alto_clef: None,
            half_position_allowed: true,
            position_1_allowed: true,
            position_2_allowed: true,
            position_3_allowed: true,
            position_4_allowed: true,
            position_5_allowed: true,
            position_6_allowed: true,
            position_7_allowed: true,
            a_string: true,
            d_string: true,
            g_string: true,
            c_string: true,
            max_double_accidentals: 0,
            max_sharps: 0,
            max_flats: 0,
            shuffled_order: false,
            string_count: 1,
        }
    }

    pub fn one_flat() -> (r: CelloCardGenerator)
        ensures
            r == one_flat_spec(),
    {
        let mut g = CelloCardGenerator::no_sharps_flats();
        g.max_flats = 1;
        g
    }

    pub fn one_sharp() -> (r: CelloCardGenerator)
        ensures
            r == one_sharp_spec(),
    {
        let mut g = CelloCardGenerator::one_flat();
        g.max_sharps = 1;
        g
    }

    pub fn two_flats() -> (r: CelloCardGenerator)
        ensures
            r == two_flats_spec(),
    {
        let mut g = CelloCardGenerator::one_sharp();
        g.max_flats = 2;
        g
    }

    pub fn two_sharps() -> (r: CelloCardGenerator)
        ensures
            r == two_sharps_spec(),
    {
        let mut g = CelloCardGenerator::two_flats();
        g.max_sharps = 2;
        g
    }

    pub fn three_flats() -> (r: CelloCardGenerator)
        ensures
            r == three_flats_spec(),
    {
        let mut g = CelloCardGenerator::two_sharps();
        g.max_flats = 3;
        g
    }

    pub fn three_sharps() -> (r: CelloCardGenerator)
        ensures
            r == three_sharps_spec(),
    {
        let mut g = CelloCardGenerator::three_flats();
        g.max_sharps = 3;
        g
    }

    pub fn tenor_clef_initial() -> (r: CelloCardGenerator)
        ensures
            r == tenor_clef_initial_spec(),
    {
        let mut g = CelloCardGenerator::no_sharps_flats();
        g.bass_clef = None;
        g.tenor_clef = Some(
            MidiRange {
                lo: Note { letter: Letter::C, octave: 3, accidental: None }.midi(),
                hi: Note { letter: Letter::C, octave: 5, accidental: None }.midi(),
            },
        );
        g
    }

    pub fn tenor_clef_advanced() -> (r: CelloCardGenerator)
        ensures
            r == tenor_clef_advanced_spec(),
    {
        let mut g = CelloCardGenerator::three_sharps();
        g.bass_clef = None;
        g.tenor_clef = Some(
            MidiRange {
                lo: Note { letter: Letter::C, octave: 3, accidental: None }.midi(),
                hi: Note { letter: Letter::C, octave: 5, accidental: None }.midi(),
            },
        );
        g
    }

    pub fn treble_clef_initial() -> (r: CelloCardGenerator)
        ensures
            r == treble_clef_initial_spec(),
    {
        let mut g = CelloCardGenerator::no_sharps_flats();
        g.bass_clef = None;
        g.treble_clef = Some(
            MidiRange {
                lo: Note { letter: Letter::G, octave: 3, accidental: None }.midi(),
                hi: Note { letter: Letter::C, octave: 5, accidental: None }.midi(),
            },
        );
        g
    }

    pub fn treble_clef_advanced() -> (r: CelloCardGenerator)
        ensures
            r == treble_clef_advanced_spec(),
    {
        let mut g = CelloCardGenerator::three_sharps();
        g.bass_clef = None;
        g.treble_clef = Some(
            MidiRange {
                lo: Note { letter: Letter::G, octave: 3, accidental: None }.midi(),
                hi: Note { letter: Letter::C, octave: 5, accidental: None }.midi(),
            },
        );
        g
    }

    /// A demanding preset: both upper clefs, doubled accidentals, random
    /// transposition over two strings, shuffled note order.  Its tenor
    /// range is empty (its low end sits above its high end), so the tenor
    /// clef contributes no cards.
    pub fn advanced() -> (r: CelloCardGenerator)
        ensures
            r == advanced_spec(),
    {
        let mut g = CelloCardGenerator::three_sharps();
        g.tenor_clef = Some(
            MidiRange {
                lo: Note { letter: Letter::G, octave: 3, accidental: None }.midi(),
                hi: Note { letter: Letter::C, octave: 3, accidental: None }.midi(),
            },
        );
        g.treble_clef = Some(
            MidiRange {
                lo: Note { letter: Letter::G, octave: 3, accidental: None }.midi(),
                hi: Note { letter: Letter::C, octave: 5, accidental: None }.midi(),
            },
        );
        g.max_double_accidentals = 1;
        g.shuffled_order = true;
        g.string_count = 2;
        g.finger_pattern_5_allowed = true;
        g
    }

    /// Every option at once: all clefs, all budgets at 3, transposition
    /// over all four strings, shuffled order.
    pub fn impossible() -> (r: CelloCardGenerator)
        ensures
            r == impossible_spec(),
    {
        CelloCardGenerator {
            finger_pattern_1_allowed: true,
            finger_pattern_2_allowed: true,
            finger_pattern_34_allowed: true,
            finger_pattern_5_allowed: true,
            bass_clef: Some(
                MidiRange {
                    lo: Note { letter: Letter::C, octave: 2, accidental: None }.midi(),
                    hi: Note { letter: Letter::C, octave: 5, accidental: None }.midi(),
                },
            ),
            tenor_clef: Some(
                MidiRange {
                    lo: Note { letter: Letter::G, octave: 3, accidental: None }.midi(),
                    hi: Note { letter: Letter::C, octave: 5, accidental: None }.midi(),
                },
            ),
            treble_clef: Some(
                MidiRange {
                    lo: Note { letter: Letter::G, octave: 3, accidental: None }.midi(),
                    hi: Note { letter: Letter::C, octave: 6, accidental: None }.midi(),
                },
            ),
            alto_clef: Some(
                MidiRange {
                    lo: Note { letter: Letter::C, octave: 3, accidental: None }.midi(),
                    hi: Note { letter: Letter::G, octave: 4, accidental: None }.midi(),
                },
            ),
            half_position_allowed: true,
            position_1_allowed: true,
            position_2_allowed: true,
            position_3_allowed: true,
            position_4_allowed: true,
            position_5_allowed: true,
            position_6_allowed: true,
            position_7_allowed: true,
            a_string: true,
            d_string: true,
            g_string: true,
            c_string: true,
            max_double_accidentals: 3,
            max_sharps: 3,
            max_flats: 3,
            shuffled_order: true,
            string_count: 4,
        }
    }
}

} // verus!
