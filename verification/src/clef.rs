//! Clefs: the four staff keys, each parsed from a fixed literal token
//! naming the clef's key letter and reference line.

use vstd::prelude::*;
use crate::pitch::{Letter, Note};

verus! {

/// One of the four staff keys.
#[derive(Debug, Clone, Copy, PartialEq, Eq, Structural)]
pub enum Clef {
    Treble,
    Alto,
    Tenor,
    Bass,
}

/// The clef named by a token: exactly `B4`, `A3`, `C4` or `D3`; any other
/// text names no clef.
pub open spec fn parse_clef_spec(s: Seq<char>) -> Option<Clef> {
    if s.len() == 2 {
        if s[0] == 'B' && s[1] == '4' {
            Some(Clef::Treble)
        } else if s[0] == 'A' && s[1] == '3' {
            Some(Clef::Tenor)
        } else if s[0] == 'C' && s[1] == '4' {
            Some(Clef::Alto)
        } else if s[0] == 'D' && s[1] == '3' {
            Some(Clef::Bass)
        } else {
            None
        }
    } else {
        None
    }
}

impl Clef {
    /// Parse one of the four fixed clef tokens; no partial recognition.
    pub fn from_str(s: &str) -> (r: Option<Clef>)
        ensures
            r == parse_clef_spec(s@),
    {
        if s.unicode_len() != 2 {
            return None;
        }
        let c0 = s.get_char(0);
        let c1 = s.get_char(1);
        if c0 == 'B' && c1 == '4' {
            Some(Clef::Treble)
        } else if c0 == 'A' && c1 == '3' {
            Some(Clef::Tenor)
        } else if c0 == 'C' && c1 == '4' {
            Some(Clef::Alto)
        } else if c0 == 'D' && c1 == '3' {
            Some(Clef::Bass)
        } else {
            None
        }
    }

    /// The note sitting on the clef's center line.
    pub open spec fn center_note_spec(self) -> Note {
        match self {
            Clef::Treble => Note { letter: Letter::B, octave: 4, accidental: None },
            Clef::Alto => Note { letter: Letter::C, octave: 4, accidental: None },
            Clef::Tenor => Note { letter: Letter::A, octave: 3, accidental: None },
            Clef::Bass => Note { letter: Letter::D, octave: 3, accidental: None },
        }
    }

    /// The note on the clef's center line, the anchor for staff placement.
    pub fn center_note(self) -> (r: Note)
        ensures
            r == self.center_note_spec(),
    {
        match self {
            Clef::Treble => Note { letter: Letter::B, octave: 4, accidental: None },
            Clef::Alto => Note { letter: Letter::C, octave: 4, accidental: None },
            Clef::Tenor => Note { letter: Letter::A, octave: 3, accidental: None },
            Clef::Bass => Note { letter: Letter::D, octave: 3, accidental: None },
        }
    }
}

} // verus!
