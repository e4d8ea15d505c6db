//! The note text grammar: a letter `A` through `G`, an optional
//! accidental token (`#`, `##`, `b`, `bb`, or `n` for an explicit
//! natural), then zero or more decimal octave digits parsed greedily,
//! wrapping modulo 256; absent digits parse as octave 0.  Printing a note
//! and parsing it back returns the note unchanged.

use vstd::prelude::*;
use crate::pitch::{Accidental, Letter, Note};

verus! {

/// The letter named by a character, if any.
pub open spec fn letter_of_char(c: char) -> Option<Letter> {
    if c == 'A' {
        Some(Letter::A)
    } else if c == 'B' {
        Some(Letter::B)
    } else if c == 'C' {
        Some(Letter::C)
    } else if c == 'D' {
        Some(Letter::D)
    } else if c == 'E' {
        Some(Letter::E)
    } else if c == 'F' {
        Some(Letter::F)
    } else if c == 'G' {
        Some(Letter::G)
    } else {
        None
    }
}

/// The character naming a letter.
pub open spec fn letter_char_spec(l: Letter) -> char {
    match l {
        Letter::A => 'A',
        Letter::B => 'B',
        Letter::C => 'C',
        Letter::D => 'D',
        Letter::E => 'E',
        Letter::F => 'F',
        Letter::G => 'G',
    }
}

impl Letter {
    /// Parse a letter name.
    pub fn try_from_char(c: char) -> (r: Option<Letter>)
        ensures
            r == letter_of_char(c),
    {
        if c == 'A' {
            Some(Letter::A)
        } else if c == 'B' {
            Some(Letter::B)
        } else if c == 'C' {
            Some(Letter::C)
        } else if c == 'D' {
            Some(Letter::D)
        } else if c == 'E' {
            Some(Letter::E)
        } else if c == 'F' {
            Some(Letter::F)
        } else if c == 'G' {
            Some(Letter::G)
        } else {
            None
        }
    }

    /// The character naming this letter.
    pub fn to_char(self) -> (r: char)
        ensures
            r == letter_char_spec(self),
    {
        match self {
            Letter::A => 'A',
            Letter::B => 'B',
            Letter::C => 'C',
            Letter::D => 'D',
            Letter::E => 'E',
            Letter::F => 'F',
            Letter::G => 'G',
        }
    }
}

/// The text of an accidental token: `bb`, `b`, `n`, `#`, or `##`.  An
/// explicit natural prints as `n`, the same token the parser reads, so
/// that a note with an explicit natural survives a round trip; a note
/// without an accidental marker prints nothing in the accidental's place.
pub open spec fn acc_str_chars(a: Accidental) -> Seq<char> {
    match a {
        Accidental::DoubleFlat => seq!['b', 'b'],
        Accidental::Flat => seq!['b'],
        Accidental::Natural => seq!['n'],
        Accidental::Sharp => seq!['#'],
        Accidental::DoubleSharp => seq!['#', '#'],
    }
}

impl Accidental {
    /// The accidental's text: `bb`, `b`, `n`, `#`, or `##`.
    pub fn to_str(self) -> (r: &'static str)
        ensures
            r@ == acc_str_chars(self),
    {
        proof {
            reveal_strlit("bb");
            reveal_strlit("b");
            reveal_strlit("n");
            reveal_strlit("#");
            reveal_strlit("##");
        }
        match self {
            Accidental::DoubleFlat => "bb",
            Accidental::Flat => "b",
            Accidental::Natural => "n",
            Accidental::Sharp => "#",
            Accidental::DoubleSharp => "##",
        }
    }
}

/// Whether a character is a decimal digit.
pub open spec fn is_digit_char(c: char) -> bool {
    48 <= c as u32 <= 57
}

/// Value of a decimal digit character.
pub open spec fn digit_val(c: char) -> int {
    c as u32 - 48
}

/// The character of a decimal digit 0 through 9.
pub open spec fn digit_char_spec(v: int) -> char {
    if v == 0 {
        '0'
    } else if v == 1 {
        '1'
    } else if v == 2 {
        '2'
    } else if v == 3 {
        '3'
    } else if v == 4 {
        '4'
    } else if v == 5 {
        '5'
    } else if v == 6 {
        '6'
    } else if v == 7 {
        '7'
    } else if v == 8 {
        '8'
    } else {
        '9'
    }
}

/// The accidental token at position 1 of a note's text, with the position
/// of the first character after it.
pub open spec fn parse_accidental_spec(s: Seq<char>) -> (Option<Accidental>, int) {
    if s.len() >= 2 && s[1] == '#' {
        if s.len() >= 3 && s[2] == '#' {
            (Some(Accidental::DoubleSharp), 3)
        } else {
            (Some(Accidental::Sharp), 2)
        }
    } else if s.len() >= 2 && s[1] == 'b' {
        if s.len() >= 3 && s[2] == 'b' {
            (Some(Accidental::DoubleFlat), 3)
        } else {
            (Some(Accidental::Flat), 2)
        }
    } else if s.len() >= 2 && s[1] == 'n' {
        (Some(Accidental::Natural), 2)
    } else {
        (None, 1)
    }
}

/// Greedy decimal octave parse from position `i` with accumulator `acc`,
/// wrapping modulo 256; stops at the first non-digit.
pub open spec fn parse_octave_spec(s: Seq<char>, i: int, acc: int) -> int
    decreases s.len() - i,
{
    if i < 0 || i >= s.len() || !is_digit_char(s[i]) {
        acc
    } else {
        parse_octave_spec(s, i + 1, (acc * 10 + digit_val(s[i])) % 256)
    }
}

/// The note named by a text under the note grammar: a letter, an optional
/// accidental token, then greedy octave digits.  Characters after the
/// digits are ignored.
pub open spec fn parse_note_spec(s: Seq<char>) -> Option<Note> {
    if s.len() == 0 {
        None
    } else {
        match letter_of_char(s[0]) {
            None => None,
            Some(letter) => {
                let (accidental, p) = parse_accidental_spec(s);
                Some(Note { letter, octave: parse_octave_spec(s, p, 0) as u8, accidental })
            },
        }
    }
}

/// Decimal digits of a non-negative number, most significant first.
pub open spec fn dec_digits(v: int) -> Seq<char>
    decreases v,
{
    if v < 10 {
        seq![digit_char_spec(v)]
    } else {
        dec_digits(v / 10).push(digit_char_spec(v % 10))
    }
}

/// The text of a note: its letter's character, its accidental's text (the
/// empty string when the note carries none), then its octave in decimal.
pub open spec fn note_chars(n: Note) -> Seq<char> {
    seq![letter_char_spec(n.letter)] + (match n.accidental {
        Some(a) => acc_str_chars(a),
        None => Seq::empty(),
    }) + dec_digits(n.octave as int)
}

impl Note {
    /// Parse a note from text under the note grammar.
    pub fn from_str(s: &str) -> (r: Option<Note>)
        ensures
            r == parse_note_spec(s@),
    {
        let len = s.unicode_len();
        if len == 0 {
            return None;
        }
        let letter = match Letter::try_from_char(s.get_char(0)) {
            Some(l) => l,
            None => {
                return None;
            },
        };
        let (accidental, start): (Option<Accidental>, usize) = if len >= 2 {
            let c1 = s.get_char(1);
            if c1 == '#' {
                if len >= 3 && s.get_char(2) == '#' {
                    (Some(Accidental::DoubleSharp), 3)
                } else {
                    (Some(Accidental::Sharp), 2)
                }
            } else if c1 == 'b' {
                if len >= 3 && s.get_char(2) == 'b' {
                    (Some(Accidental::DoubleFlat), 3)
                } else {
                    (Some(Accidental::Flat), 2)
                }
            } else if c1 == 'n' {
                (Some(Accidental::Natural), 2)
            } else {
                (None, 1)
            }
        } else {
            (None, 1)
        };
        assert((accidental, start as int) == parse_accidental_spec(s@));
        let mut octave: u32 = 0;
        let mut i: usize = start;
        loop
            invariant
                start <= i,
                i <= len || i == start,
                len == s@.len(),
                octave < 256,
                parse_octave_spec(s@, start as int, 0) == parse_octave_spec(
                    s@,
                    i as int,
                    octave as int,
                ),
            ensures
                octave < 256,
                octave as int == parse_octave_spec(s@, start as int, 0),
            decreases len - i,
        {
            if i >= len {
                assert(parse_octave_spec(s@, i as int, octave as int) == octave as int);
                break ;
            }
            let c = s.get_char(i);
            let cu = c as u32;
            if 48 <= cu && cu <= 57 {
                octave = (octave * 10 + (cu - 48)) % 256;
                i = i + 1;
            } else {
                assert(!is_digit_char(s@[i as int]));
                assert(parse_octave_spec(s@, i as int, octave as int) == octave as int);
                break ;
            }
        }
        Some(Note { letter, octave: octave as u8, accidental })
    }

    /// The text of the note: letter, accidental token (empty if none),
    /// then the octave in decimal.
    pub fn to_string(&self) -> (r: String)
        ensures
            r@ == note_chars(*self),
    {
        let mut out = string_of_char(self.letter.to_char());
        match self.accidental {
            Some(a) => out.append(a.to_str()),
            None => (),
        }
        let v = self.octave;
        if v >= 100 {
            out.append(digit_str(v / 100));
        }
        if v >= 10 {
            out.append(digit_str((v / 10) % 10));
        }
        out.append(digit_str(v % 10));
        proof {
            if v >= 100 {
                assert(dec_digits(v as int) == dec_digits(v as int / 10).push(
                    digit_char_spec(v as int % 10),
                ));
                assert(v as int / 10 / 10 == v as int / 100) by {
                    vstd::arithmetic::div_mod::lemma_div_denominator(v as int, 10, 10);
                }
                assert(dec_digits(v as int / 10) == dec_digits(v as int / 100).push(
                    digit_char_spec(v as int / 10 % 10),
                ));
                assert(dec_digits(v as int / 100) == seq![digit_char_spec(v as int / 100)]);
                assert(out@ =~= note_chars(*self));
            } else if v >= 10 {
                assert(dec_digits(v as int) == dec_digits(v as int / 10).push(
                    digit_char_spec(v as int % 10),
                ));
                assert(dec_digits(v as int / 10) == seq![digit_char_spec(v as int / 10)]);
                assert(v as int / 10 == v as int / 10 % 10) by {
                    vstd::arithmetic::div_mod::lemma_small_mod((v as int / 10) as nat, 10);
                }
                assert(out@ =~= note_chars(*self));
            } else {
                assert(dec_digits(v as int) == seq![digit_char_spec(v as int)]);
                assert(out@ =~= note_chars(*self));
            }
        }
        out
    }
}

/// Left fold of the greedy octave parse over a pure digit string.
pub open spec fn digits_value(ds: Seq<char>, acc: int) -> int
    decreases ds.len(),
{
    if ds.len() == 0 {
        acc
    } else {
        digits_value(ds.drop_first(), (acc * 10 + digit_val(ds[0])) % 256)
    }
}

/// Every character that the decimal printer emits is a digit.
proof fn lemma_dec_digits_are_digits(v: int)
    requires
        0 <= v,
    ensures
        forall|j: int| 0 <= j < dec_digits(v).len() ==> is_digit_char(#[trigger] dec_digits(v)[j]),
    decreases v,
{
    if v >= 10 {
        lemma_dec_digits_are_digits(v / 10);
        assert(is_digit_char(digit_char_spec(v % 10)));
        assert(dec_digits(v) == dec_digits(v / 10).push(digit_char_spec(v % 10)));
        assert(forall|j: int|
            0 <= j < dec_digits(v / 10).len() ==> #[trigger] dec_digits(v)[j] == dec_digits(
                v / 10,
            )[j]);
        assert(dec_digits(v)[dec_digits(v).len() - 1] == digit_char_spec(v % 10));
    } else {
        assert(is_digit_char(digit_char_spec(v)));
        assert(dec_digits(v)[0] == digit_char_spec(v));
    }
}

/// On a string of digits the greedy octave parse runs to the end and
/// computes the digits' left fold.
proof fn lemma_parse_octave_digits(s: Seq<char>, i: int, acc: int)
    requires
        0 <= i <= s.len(),
        forall|j: int| i <= j < s.len() ==> is_digit_char(#[trigger] s[j]),
    ensures
        parse_octave_spec(s, i, acc) == digits_value(s.subrange(i, s.len() as int), acc),
    decreases s.len() - i,
{
    if i == s.len() {
    } else {
        lemma_parse_octave_digits(s, i + 1, (acc * 10 + digit_val(s[i])) % 256);
        assert(s.subrange(i, s.len() as int).drop_first() =~= s.subrange(i + 1, s.len() as int));
    }
}

/// Folding one more digit onto a digit string's value.
proof fn lemma_digits_value_push(ds: Seq<char>, d: char, acc: int)
    ensures
        digits_value(ds.push(d), acc) == (digits_value(ds, acc) * 10 + digit_val(d)) % 256,
    decreases ds.len(),
{
    assert(ds.push(d).len() == ds.len() + 1);
    if ds.len() == 0 {
        assert(ds.push(d)[0] == d);
        assert(ds.push(d).drop_first() =~= Seq::<char>::empty());
        assert(digits_value(ds.push(d), acc) == digits_value(
            Seq::<char>::empty(),
            (acc * 10 + digit_val(d)) % 256,
        ));
    } else {
        assert(ds.push(d)[0] == ds[0]);
        assert(ds.push(d).drop_first() =~= ds.drop_first().push(d));
        let acc2 = (acc * 10 + digit_val(ds[0])) % 256;
        assert(digits_value(ds.push(d), acc) == digits_value(ds.drop_first().push(d), acc2));
        assert(digits_value(ds, acc) == digits_value(ds.drop_first(), acc2));
        lemma_digits_value_push(ds.drop_first(), d, acc2);
    }
}

/// The greedy parse of a printed number recovers the number modulo 256.
proof fn lemma_dec_digits_value(v: int)
    requires
        0 <= v,
    ensures
        digits_value(dec_digits(v), 0) == v % 256,
    decreases v,
{
    if v < 10 {
        assert(dec_digits(v) == seq![digit_char_spec(v)]);
        assert(seq![digit_char_spec(v)][0] == digit_char_spec(v));
        assert(seq![digit_char_spec(v)].drop_first() =~= Seq::<char>::empty());
        assert(digit_val(digit_char_spec(v)) == v);
        assert(digits_value(dec_digits(v), 0) == digits_value(
            Seq::<char>::empty(),
            (0 * 10 + v) % 256,
        ));
    } else {
        lemma_dec_digits_value(v / 10);
        lemma_digits_value_push(dec_digits(v / 10), digit_char_spec(v % 10), 0);
        let a = v / 10;
        let r = v % 10;
        assert(digit_val(digit_char_spec(r)) == r);
        assert(digits_value(dec_digits(v), 0) == ((a % 256) * 10 + r) % 256);
        assert((a % 256) * 10 % 256 == a * 10 % 256) by {
            vstd::arithmetic::div_mod::lemma_mul_mod_noop_left(a, 10, 256);
        }
        assert(((a % 256) * 10 + r) % 256 == (a * 10 + r) % 256) by {
            vstd::arithmetic::div_mod::lemma_add_mod_noop((a % 256) * 10, r, 256);
            vstd::arithmetic::div_mod::lemma_add_mod_noop(a * 10, r, 256);
            vstd::arithmetic::div_mod::lemma_small_mod(r as nat, 256);
        }
        assert(a * 10 + r == v) by {
            vstd::arithmetic::div_mod::lemma_fundamental_div_mod(v, 10);
        }
    }
}

/// Printing any note and parsing the text back returns the same note: the
/// round trip holds for every note the grammar can construct.
pub proof fn lemma_note_round_trip(n: Note)
    ensures
        parse_note_spec(note_chars(n)) == Some(n),
{
    let s = note_chars(n);
    let v = n.octave as int;
    let ds = dec_digits(v);
    lemma_dec_digits_are_digits(v);
    lemma_dec_digits_value(v);
    assert(v % 256 == v) by {
        vstd::arithmetic::div_mod::lemma_small_mod(v as nat, 256);
    }
    assert(ds.len() >= 1);
    assert(letter_of_char(s[0]) == Some(n.letter));
    let p: int = match n.accidental {
        None => 1,
        Some(Accidental::Sharp) | Some(Accidental::Flat) | Some(Accidental::Natural) => 2,
        Some(Accidental::DoubleSharp) | Some(Accidental::DoubleFlat) => 3,
    };
    assert(s.len() == p + ds.len());
    assert(forall|j: int| p <= j < s.len() ==> #[trigger] s[j] == ds[j - p]);
    assert(forall|j: int| p <= j < s.len() ==> is_digit_char(#[trigger] s[j]));
    assert(parse_accidental_spec(s) == (n.accidental, p)) by {
        assert(is_digit_char(s[p]));
        assert(s[p] != '#' && s[p] != 'b' && s[p] != 'n');
    }
    lemma_parse_octave_digits(s, p, 0);
    assert(s.subrange(p, s.len() as int) =~= ds);
    assert(parse_octave_spec(s, p, 0) == v);
}

/// A one-character string holding the letter characters the grammar uses.
fn string_of_char(c: char) -> (r: String)
    requires
        letter_of_char(c) is Some,
    ensures
        r@ == seq![c],
{
    proof {
        reveal_strlit("A");
        reveal_strlit("B");
        reveal_strlit("C");
        reveal_strlit("D");
        reveal_strlit("E");
        reveal_strlit("F");
        reveal_strlit("G");
    }
    if c == 'A' {
        String::from_str("A")
    } else if c == 'B' {
        String::from_str("B")
    } else if c == 'C' {
        String::from_str("C")
    } else if c == 'D' {
        String::from_str("D")
    } else if c == 'E' {
        String::from_str("E")
    } else {
        if c == 'F' {
            String::from_str("F")
        } else {
            String::from_str("G")
        }
    }
}

/// The one-character string of a decimal digit.
fn digit_str(d: u8) -> (r: &'static str)
    requires
        d < 10,
    ensures
        r@ == seq![digit_char_spec(d as int)],
{
    proof {
        reveal_strlit("0");
        reveal_strlit("1");
        reveal_strlit("2");
        reveal_strlit("3");
        reveal_strlit("4");
        reveal_strlit("5");
        reveal_strlit("6");
        reveal_strlit("7");
        reveal_strlit("8");
        reveal_strlit("9");
    }
    if d == 0 {
        "0"
    } else if d == 1 {
        "1"
    } else if d == 2 {
        "2"
    } else if d == 3 {
        "3"
    } else if d == 4 {
        "4"
    } else if d == 5 {
        "5"
    } else if d == 6 {
        "6"
    } else if d == 7 {
        "7"
    } else if d == 8 {
        "8"
    } else {
        "9"
    }
}

} // verus!
