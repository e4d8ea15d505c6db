//! Position gating: each of the four strings defines nine landmark
//! spellings (a half-position landmark reachable through either of two
//! enharmonic spellings, then positions 1 through 7, each bound to one
//! letter-and-octave with any accidental).  A candidate start note passes
//! when it matches an enabled position's landmark on an enabled string.

use vstd::prelude::*;
use crate::config::CelloCardGenerator;
use crate::pitch::{Accidental, Letter, Note};

verus! {

/// The A string's landmarks: half position at A#3/Bb3, then B3 through A4.
pub open spec fn a_string_position(cfg: CelloCardGenerator, n: Note) -> bool {
    if n.letter == Letter::A && n.octave == 3 && n.accidental == Some(Accidental::Sharp) {
        cfg.half_position_allowed
    } else if n.letter == Letter::B && n.octave == 3 && n.accidental == Some(Accidental::Flat) {
        cfg.half_position_allowed
    } else if n.letter == Letter::B && n.octave == 3 {
        cfg.position_1_allowed
    } else if n.letter == Letter::C && n.octave == 4 {
        cfg.position_2_allowed
    } else if n.letter == Letter::D && n.octave == 4 {
        cfg.position_3_allowed
    } else if n.letter == Letter::E && n.octave == 4 {
        cfg.position_4_allowed
    } else if n.letter == Letter::F && n.octave == 4 {
        cfg.position_5_allowed
    } else if n.letter == Letter::G && n.octave == 4 {
        cfg.position_6_allowed
    } else if n.letter == Letter::A && n.octave == 4 {
        cfg.position_7_allowed
    } else {
        false
    }
}

/// The D string's landmarks: half position at D#3/Eb3, then E3 through D4.
pub open spec fn d_string_position(cfg: CelloCardGenerator, n: Note) -> bool {
    if n.letter == Letter::D && n.octave == 3 && n.accidental == Some(Accidental::Sharp) {
        cfg.half_position_allowed
    } else if n.letter == Letter::E && n.octave == 3 && n.accidental == Some(Accidental::Flat) {
        cfg.half_position_allowed
    } else if n.letter == Letter::E && n.octave == 3 {
        cfg.position_1_allowed
    } else if n.letter == Letter::F && n.octave == 3 {
        cfg.position_2_allowed
    } else if n.letter == Letter::G && n.octave == 3 {
        cfg.position_3_allowed
    } else if n.letter == Letter::A && n.octave == 3 {
        cfg.position_4_allowed
    } else if n.letter == Letter::B && n.octave == 3 {
        cfg.position_5_allowed
    } else if n.letter == Letter::C && n.octave == 4 {
        cfg.position_6_allowed
    } else if n.letter == Letter::D && n.octave == 4 {
        cfg.position_7_allowed
    } else {
        false
    }
}

/// The G string's landmarks: half position at G#2/Ab2, then A2 through G3.
pub open spec fn g_string_position(cfg: CelloCardGenerator, n: Note) -> bool {
    if n.letter == Letter::G && n.octave == 2 && n.accidental == Some(Accidental::Sharp) {
        cfg.half_position_allowed
    } else if n.letter == Letter::A && n.octave == 2 && n.accidental == Some(Accidental::Flat) {
        cfg.half_position_allowed
    } else if n.letter == Letter::A && n.octave == 2 {
        cfg.position_1_allowed
    } else if n.letter == Letter::B && n.octave == 2 {
        cfg.position_2_allowed
    } else if n.letter == Letter::C && n.octave == 3 {
        cfg.position_3_allowed
    } else if n.letter == Letter::D && n.octave == 3 {
        cfg.position_4_allowed
    } else if n.letter == Letter::E && n.octave == 3 {
        cfg.position_5_allowed
    } else if n.letter == Letter::F && n.octave == 3 {
        cfg.position_6_allowed
    } else if n.letter == Letter::G && n.octave == 3 {
        cfg.position_7_allowed
    } else {
        false
    }
}

/// The C string's landmarks: half position at C#2/Db2, then D2 through C3.
pub open spec fn c_string_position(cfg: CelloCardGenerator, n: Note) -> bool {
    if n.letter == Letter::C && n.octave == 2 && n.accidental == Some(Accidental::Sharp) {
        cfg.half_position_allowed
    } else if n.letter == Letter::D && n.octave == 2 && n.accidental == Some(Accidental::Flat) {
        cfg.half_position_allowed
    } else if n.letter == Letter::D && n.octave == 2 {
        cfg.position_1_allowed
    } else if n.letter == Letter::E && n.octave == 2 {
        cfg.position_2_allowed
    } else if n.letter == Letter::F && n.octave == 2 {
        cfg.position_3_allowed
    } else if n.letter == Letter::G && n.octave == 2 {
        cfg.position_4_allowed
    } else if n.letter == Letter::A && n.octave == 2 {
        cfg.position_5_allowed
    } else if n.letter == Letter::B && n.octave == 2 {
        cfg.position_6_allowed
    } else if n.letter == Letter::C && n.octave == 3 {
        cfg.position_7_allowed
    } else {
        false
    }
}

/// A start spelling is eligible when an enabled string has it as the
/// landmark of an enabled position.
pub open spec fn eligible_spec(cfg: CelloCardGenerator, n: Note) -> bool {
    ||| cfg.a_string && a_string_position(cfg, n)
    ||| cfg.d_string && d_string_position(cfg, n)
    ||| cfg.g_string && g_string_position(cfg, n)
    ||| cfg.c_string && c_string_position(cfg, n)
}

/// Whether any position is enabled at all.
pub open spec fn some_position_enabled(cfg: CelloCardGenerator) -> bool {
    ||| cfg.half_position_allowed
    ||| cfg.position_1_allowed
    ||| cfg.position_2_allowed
    ||| cfg.position_3_allowed
    ||| cfg.position_4_allowed
    ||| cfg.position_5_allowed
    ||| cfg.position_6_allowed
    ||| cfg.position_7_allowed
}

/// Eligible start spellings sit between octaves 2 and 4 and between MIDI
/// pitches 36 and 71, and exist only when some position is enabled.
pub proof fn lemma_eligible_bounds(cfg: CelloCardGenerator, n: Note)
    requires
        eligible_spec(cfg, n),
    ensures
        2 <= n.octave <= 4,
        36 <= n.midi_spec() <= 71,
        some_position_enabled(cfg),
{
    let raw = n.letter.base_spec() + crate::pitch::acc_offset_spec(n.accidental) + 12 * (n.octave
        + 1);
    assert(34 <= raw <= 71);
    assert(n.midi_spec() == raw) by {
        vstd::arithmetic::div_mod::lemma_small_mod(raw as nat, 256);
    }
    assert(raw >= 36);
}

/// Decide whether a start spelling matches an enabled (string, position)
/// landmark under the configuration.
pub fn position_allowed(cfg: &CelloCardGenerator, n: Note) -> (r: bool)
    ensures
        r == eligible_spec(*cfg, n),
{
    if cfg.a_string {
        let hit = if n.letter == Letter::A && n.octave == 3 && n.accidental == Some(
            Accidental::Sharp,
        ) {
            cfg.half_position_allowed
        } else if n.letter == Letter::B && n.octave == 3 && n.accidental == Some(Accidental::Flat) {
            cfg.half_position_allowed
        } else if n.letter == Letter::B && n.octave == 3 {
            cfg.position_1_allowed
        } else if n.letter == Letter::C && n.octave == 4 {
            cfg.position_2_allowed
        } else if n.letter == Letter::D && n.octave == 4 {
            cfg.position_3_allowed
        } else if n.letter == Letter::E && n.octave == 4 {
            cfg.position_4_allowed
        } else if n.letter == Letter::F && n.octave == 4 {
            cfg.position_5_allowed
        } else if n.letter == Letter::G && n.octave == 4 {
            cfg.position_6_allowed
        } else if n.letter == Letter::A && n.octave == 4 {
            cfg.position_7_allowed
        } else {
            false
        };
        if hit {
            return true;
        }
    }
    if cfg.d_string {
        let hit = if n.letter == Letter::D && n.octave == 3 && n.accidental == Some(
            Accidental::Sharp,
        ) {
            cfg.half_position_allowed
        } else if n.letter == Letter::E && n.octave == 3 && n.accidental == Some(Accidental::Flat) {
            cfg.half_position_allowed
        } else if n.letter == Letter::E && n.octave == 3 {
            cfg.position_1_allowed
        } else if n.letter == Letter::F && n.octave == 3 {
            cfg.position_2_allowed
        } else if n.letter == Letter::G && n.octave == 3 {
            cfg.position_3_allowed
        } else if n.letter == Letter::A && n.octave == 3 {
            cfg.position_4_allowed
        } else if n.letter == Letter::B && n.octave == 3 {
            cfg.position_5_allowed
        } else if n.letter == Letter::C && n.octave == 4 {
            cfg.position_6_allowed
        } else if n.letter == Letter::D && n.octave == 4 {
            cfg.position_7_allowed
        } else {
            false
        };
        if hit {
            return true;
        }
    }
    if cfg.g_string {
        let hit = if n.letter == Letter::G && n.octave == 2 && n.accidental == Some(
            Accidental::Sharp,
        ) {
            cfg.half_position_allowed
        } else if n.letter == Letter::A && n.octave == 2 && n.accidental == Some(Accidental::Flat) {
            cfg.half_position_allowed
        } else if n.letter == Letter::A && n.octave == 2 {
            cfg.position_1_allowed
        } else if n.letter == Letter::B && n.octave == 2 {
            cfg.position_2_allowed
        } else if n.letter == Letter::C && n.octave == 3 {
            cfg.position_3_allowed
        } else if n.letter == Letter::D && n.octave == 3 {
            cfg.position_4_allowed
        } else if n.letter == Letter::E && n.octave == 3 {
            cfg.position_5_allowed
        } else if n.letter == Letter::F && n.octave == 3 {
            cfg.position_6_allowed
        } else if n.letter == Letter::G && n.octave == 3 {
            cfg.position_7_allowed
        } else {
            false
        };
        if hit {
            return true;
        }
    }
    if cfg.c_string {
        let hit = if n.letter == Letter::C && n.octave == 2 && n.accidental == Some(
            Accidental::Sharp,
        ) {
            cfg.half_position_allowed
        } else if n.letter == Letter::D && n.octave == 2 && n.accidental == Some(Accidental::Flat) {
            cfg.half_position_allowed
        } else if n.letter == Letter::D && n.octave == 2 {
            cfg.position_1_allowed
        } else if n.letter == Letter::E && n.octave == 2 {
            cfg.position_2_allowed
        } else if n.letter == Letter::F && n.octave == 2 {
            cfg.position_3_allowed
        } else if n.letter == Letter::G && n.octave == 2 {
            cfg.position_4_allowed
        } else if n.letter == Letter::A && n.octave == 2 {
            cfg.position_5_allowed
        } else if n.letter == Letter::B && n.octave == 2 {
            cfg.position_6_allowed
        } else if n.letter == Letter::C && n.octave == 3 {
            cfg.position_7_allowed
        } else {
            false
        };
        if hit {
            return true;
        }
    }
    false
}

} // verus!
