//! A flashcard: a clef together with three notes, parsed from the text
//! form `clef:note:note:note`.

use vstd::prelude::*;
use crate::clef::{parse_clef_spec, Clef};
use crate::parse::parse_note_spec;
use crate::pitch::Note;

verus! {

/// A flashcard: a clef and exactly three notes.
#[derive(Debug, Clone, Copy, PartialEq, Eq)]
pub struct Card {
    pub clef: Clef,
    pub notes: [Note; 3],
}

/// Position of the first colon at or after position `i`, or the text's
/// length when none remains.
pub open spec fn first_colon(s: Seq<char>, i: int) -> int
    decreases s.len() - i,
{
    if i < 0 || i >= s.len() {
        s.len() as int
    } else if s[i] == ':' {
        i
    } else {
        first_colon(s, i + 1)
    }
}

/// The card named by a text: four colon-separated fields, a clef token
/// then three notes.  Fields after the fourth are ignored, as is text
/// after each note's octave digits.
pub open spec fn parse_card_spec(s: Seq<char>) -> Option<Card> {
    let len = s.len() as int;
    let i1 = first_colon(s, 0);
    let i2 = first_colon(s, i1 + 1);
    let i3 = first_colon(s, i2 + 1);
    let i4 = first_colon(s, i3 + 1);
    if i1 < len && i2 < len && i3 < len {
        match (
            parse_clef_spec(s.subrange(0, i1)),
            parse_note_spec(s.subrange(i1 + 1, i2)),
            parse_note_spec(s.subrange(i2 + 1, i3)),
            parse_note_spec(s.subrange(i3 + 1, i4)),
        ) {
            (Some(clef), Some(n1), Some(n2), Some(n3)) => Some(
                Card { clef, notes: [n1, n2, n3] },
            ),
            _ => None,
        }
    } else {
        None
    }
}

/// The first colon at or after a position never sits before it, never
/// runs past the text, and marks a colon when it sits inside the text.
pub proof fn lemma_first_colon_bounds(s: Seq<char>, i: int)
    requires
        0 <= i <= s.len(),
    ensures
        i <= first_colon(s, i) <= s.len(),
        first_colon(s, i) < s.len() ==> s[first_colon(s, i)] == ':',
    decreases s.len() - i,
{
    if i < s.len() && s[i] != ':' {
        lemma_first_colon_bounds(s, i + 1);
    }
}

/// Scan for the first colon at or after `from`.
fn next_colon(s: &str, from: usize) -> (r: usize)
    requires
        from <= s@.len(),
    ensures
        r as int == first_colon(s@, from as int),
        from <= r <= s@.len(),
    {
    proof {
        lemma_first_colon_bounds(s@, from as int);
    }
    let len = s.unicode_len();
    let mut i = from;
    while i < len
        invariant
            from <= i <= len,
            len == s@.len(),
            first_colon(s@, from as int) == first_colon(s@, i as int),
        decreases len - i,
    {
        if s.get_char(i) == ':' {
            return i;
        }
        i = i + 1;
    }
    i
}

impl Card {
    /// Parse a card from its `clef:note:note:note` text.
    pub fn from_str(s: &str) -> (r: Option<Card>)
        ensures
            r == parse_card_spec(s@),
    {
        let len = s.unicode_len();
        let i1 = next_colon(s, 0);
        if i1 >= len {
            return None;
        }
        let i2 = next_colon(s, i1 + 1);
        if i2 >= len {
            return None;
        }
        let i3 = next_colon(s, i2 + 1);
        if i3 >= len {
            return None;
        }
        let i4 = next_colon(s, i3 + 1);
        let clef = Clef::from_str(s.substring_char(0, i1));
        let n1 = Note::from_str(s.substring_char(i1 + 1, i2));
        let n2 = Note::from_str(s.substring_char(i2 + 1, i3));
        let n3 = Note::from_str(s.substring_char(i3 + 1, i4));
        match (clef, n1, n2, n3) {
            (Some(clef), Some(n1), Some(n2), Some(n3)) => Some(
                Card { clef, notes: [n1, n2, n3] },
            ),
            _ => None,
        }
    }
}

} // verus!
