//! The combinatorial engine: sweep every raw pitch, expand it to its
//! enharmonic spellings, keep the spellings that match an enabled
//! (string, position) landmark, apply the enabled finger patterns, filter
//! by the accidental budgets, and cross the surviving three-note groups
//! with the enabled clefs, optionally transposing each note by a random
//! string offset and reordering before the clef-range check.

use vstd::prelude::*;
use vstd::assert_multisets_equal;
use crate::card::Card;
use crate::clef::Clef;
use crate::config::{CelloCardGenerator, MidiRange};
use crate::interval::{lemma_unison_identity, perfect_unison, Interval, IntervalQuality};
use crate::pitch::{Accidental, Note};
use crate::positions::{eligible_spec, lemma_eligible_bounds, position_allowed, some_position_enabled};

verus! {

/// First hand shape: a minor second and a minor third above the start.
pub open spec fn pattern_one() -> (Interval, Interval) {
    (
        Interval { quality: IntervalQuality::Minor, interval: 2 },
        Interval { quality: IntervalQuality::Minor, interval: 3 },
    )
}

/// Second hand shape: a major second and a minor third.
pub open spec fn pattern_two() -> (Interval, Interval) {
    (
        Interval { quality: IntervalQuality::Major, interval: 2 },
        Interval { quality: IntervalQuality::Minor, interval: 3 },
    )
}

/// Third hand shape: a major second and a major third.
pub open spec fn pattern_three_four() -> (Interval, Interval) {
    (
        Interval { quality: IntervalQuality::Major, interval: 2 },
        Interval { quality: IntervalQuality::Major, interval: 3 },
    )
}

/// Stretched hand shape: an augmented second and a major third.
pub open spec fn pattern_five() -> (Interval, Interval) {
    (
        Interval { quality: IntervalQuality::Augmented, interval: 2 },
        Interval { quality: IntervalQuality::Major, interval: 3 },
    )
}

/// The enabled finger patterns, in their fixed order.
pub open spec fn pattern_list(cfg: CelloCardGenerator) -> Seq<(Interval, Interval)> {
    let s = Seq::<(Interval, Interval)>::empty();
    let s = if cfg.finger_pattern_1_allowed {
        s.push(pattern_one())
    } else {
        s
    };
    let s = if cfg.finger_pattern_2_allowed {
        s.push(pattern_two())
    } else {
        s
    };
    let s = if cfg.finger_pattern_34_allowed {
        s.push(pattern_three_four())
    } else {
        s
    };
    if cfg.finger_pattern_5_allowed {
        s.push(pattern_five())
    } else {
        s
    }
}

/// Every enabled pattern's two intervals are well formed and span 1
/// through 4 semitones upward.
pub proof fn lemma_pattern_list_wf(cfg: CelloCardGenerator)
    ensures
        forall|k: int|
            0 <= k < pattern_list(cfg).len() ==> {
                let p = #[trigger] pattern_list(cfg)[k];
                &&& p.0.wf()
                &&& p.1.wf()
                &&& 1 <= p.0.midi_offset_spec() <= 4
                &&& 1 <= p.1.midi_offset_spec() <= 4
            },
{
    assert(pattern_one().0.wf() && pattern_one().0.midi_offset_spec() == 1);
    assert(pattern_one().1.wf() && pattern_one().1.midi_offset_spec() == 3);
    assert(pattern_two().0.wf() && pattern_two().0.midi_offset_spec() == 2);
    assert(pattern_three_four().1.wf() && pattern_three_four().1.midi_offset_spec() == 4);
    assert(pattern_five().0.wf() && pattern_five().0.midi_offset_spec() == 3);
    assert forall|k: int| 0 <= k < pattern_list(cfg).len() implies {
        let p = #[trigger] pattern_list(cfg)[k];
        &&& p.0.wf()
        &&& p.1.wf()
        &&& 1 <= p.0.midi_offset_spec() <= 4
        &&& 1 <= p.1.midi_offset_spec() <= 4
    } by {
        let p = pattern_list(cfg)[k];
        assert(p == pattern_one() || p == pattern_two() || p == pattern_three_four() || p
            == pattern_five());
    }
}

/// Assemble the enabled finger patterns.
fn build_patterns(cfg: &CelloCardGenerator) -> (r: Vec<(Interval, Interval)>)
    ensures
        r@ == pattern_list(*cfg),
{
    let mut v: Vec<(Interval, Interval)> = Vec::new();
    if cfg.finger_pattern_1_allowed {
        v.push(
            (Interval::new(IntervalQuality::Minor, 2), Interval::new(IntervalQuality::Minor, 3)),
        );
    }
    if cfg.finger_pattern_2_allowed {
        v.push(
            (Interval::new(IntervalQuality::Major, 2), Interval::new(IntervalQuality::Minor, 3)),
        );
    }
    if cfg.finger_pattern_34_allowed {
        v.push(
            (Interval::new(IntervalQuality::Major, 2), Interval::new(IntervalQuality::Major, 3)),
        );
    }
    if cfg.finger_pattern_5_allowed {
        v.push(
            (
                Interval::new(IntervalQuality::Augmented, 2),
                Interval::new(IntervalQuality::Major, 3),
            ),
        );
    }
    proof {
        assert(v@ =~= pattern_list(*cfg));
    }
    v
}

/// The enabled clefs with their configured ranges, in their fixed order:
/// bass, treble, tenor, alto.
pub open spec fn clef_list(cfg: CelloCardGenerator) -> Seq<(Clef, MidiRange)> {
    let s = Seq::<(Clef, MidiRange)>::empty();
    let s = match cfg.bass_clef {
        Some(r) => s.push((Clef::Bass, r)),
        None => s,
    };
    let s = match cfg.treble_clef {
        Some(r) => s.push((Clef::Treble, r)),
        None => s,
    };
    let s = match cfg.tenor_clef {
        Some(r) => s.push((Clef::Tenor, r)),
        None => s,
    };
    match cfg.alto_clef {
        Some(r) => s.push((Clef::Alto, r)),
        None => s,
    }
}

/// The range that the configuration assigns to a clef.
pub open spec fn clef_range(cfg: CelloCardGenerator, clef: Clef) -> Option<MidiRange> {
    match clef {
        Clef::Bass => cfg.bass_clef,
        Clef::Treble => cfg.treble_clef,
        Clef::Tenor => cfg.tenor_clef,
        Clef::Alto => cfg.alto_clef,
    }
}

/// Each entry of the clef list carries exactly the range configured for
/// its clef.
pub proof fn lemma_clef_list_ranges(cfg: CelloCardGenerator)
    ensures
        forall|k: int|
            0 <= k < clef_list(cfg).len() ==> clef_range(cfg, (#[trigger] clef_list(cfg)[k]).0)
                == Some(clef_list(cfg)[k].1),
{
    assert forall|k: int| 0 <= k < clef_list(cfg).len() implies clef_range(
        cfg,
        (#[trigger] clef_list(cfg)[k]).0,
    ) == Some(clef_list(cfg)[k].1) by {
        let e = clef_list(cfg)[k];
        assert(e == (Clef::Bass, clef_list(cfg)[k].1) || e == (Clef::Treble, clef_list(cfg)[k].1)
            || e == (Clef::Tenor, clef_list(cfg)[k].1) || e == (Clef::Alto, clef_list(cfg)[k].1));
    }
}

/// Assemble the enabled (clef, range) pairs.
fn build_clefs(cfg: &CelloCardGenerator) -> (r: Vec<(Clef, MidiRange)>)
    ensures
        r@ == clef_list(*cfg),
{
    let mut v: Vec<(Clef, MidiRange)> = Vec::new();
    match cfg.bass_clef {
        Some(range) => v.push((Clef::Bass, range)),
        None => (),
    }
    match cfg.treble_clef {
        Some(range) => v.push((Clef::Treble, range)),
        None => (),
    }
    match cfg.tenor_clef {
        Some(range) => v.push((Clef::Tenor, range)),
        None => (),
    }
    match cfg.alto_clef {
        Some(range) => v.push((Clef::Alto, range)),
        None => (),
    }
    proof {
        assert(v@ =~= clef_list(*cfg));
    }
    v
}

/// 1 when the note carries a sharp or double sharp.
pub open spec fn note_sharps(n: Note) -> int {
    if n.accidental == Some(Accidental::Sharp) || n.accidental == Some(Accidental::DoubleSharp) {
        1
    } else {
        0
    }
}

/// 1 when the note carries a flat or double flat.
pub open spec fn note_flats(n: Note) -> int {
    if n.accidental == Some(Accidental::Flat) || n.accidental == Some(Accidental::DoubleFlat) {
        1
    } else {
        0
    }
}

/// 1 when the note carries a doubled accidental.
pub open spec fn note_doubles(n: Note) -> int {
    if n.accidental == Some(Accidental::DoubleSharp) || n.accidental == Some(
        Accidental::DoubleFlat,
    ) {
        1
    } else {
        0
    }
}

/// Whether a three-note group stays within the configured accidental
/// budgets: sharps, flats and doubled accidentals are counted across the
/// three notes and each count must not exceed its maximum.
pub open spec fn budget_ok(cfg: CelloCardGenerator, t: [Note; 3]) -> bool {
    &&& note_sharps(t@[0]) + note_sharps(t@[1]) + note_sharps(t@[2]) <= cfg.max_sharps
    &&& note_flats(t@[0]) + note_flats(t@[1]) + note_flats(t@[2]) <= cfg.max_flats
    &&& note_doubles(t@[0]) + note_doubles(t@[1]) + note_doubles(t@[2])
        <= cfg.max_double_accidentals
}

/// Count one note's contribution to the sharp budget.
fn count_sharp(n: &Note) -> (r: u8)
    ensures
        r as int == note_sharps(*n),
{
    match n.accidental {
        Some(Accidental::Sharp) | Some(Accidental::DoubleSharp) => 1,
        _ => 0,
    }
}

/// Count one note's contribution to the flat budget.
fn count_flat(n: &Note) -> (r: u8)
    ensures
        r as int == note_flats(*n),
{
    match n.accidental {
        Some(Accidental::Flat) | Some(Accidental::DoubleFlat) => 1,
        _ => 0,
    }
}

/// Count one note's contribution to the doubled-accidental budget.
fn count_double(n: &Note) -> (r: u8)
    ensures
        r as int == note_doubles(*n),
{
    match n.accidental {
        Some(Accidental::DoubleSharp) | Some(Accidental::DoubleFlat) => 1,
        _ => 0,
    }
}

/// Check a three-note group against the accidental budgets.
fn budget_allows(cfg: &CelloCardGenerator, t: &[Note; 3]) -> (r: bool)
    ensures
        r == budget_ok(*cfg, *t),
{
    let sharps = count_sharp(&t[0]) + count_sharp(&t[1]) + count_sharp(&t[2]);
    let flats = count_flat(&t[0]) + count_flat(&t[1]) + count_flat(&t[2]);
    let doubles = count_double(&t[0]) + count_double(&t[1]) + count_double(&t[2]);
    sharps <= cfg.max_sharps && flats <= cfg.max_flats && doubles <= cfg.max_double_accidentals
}

/// The fixed transposition set, modeling four strings tuned in fifths:
/// unison, perfect fifth, major ninth, major thirteenth.
pub open spec fn transposition_offsets() -> Seq<Interval> {
    seq![
        perfect_unison(),
        Interval { quality: IntervalQuality::Perfect, interval: 5 },
        Interval { quality: IntervalQuality::Major, interval: 9 },
        Interval { quality: IntervalQuality::Major, interval: 13 },
    ]
}

/// The four transposition intervals are well formed.
pub proof fn lemma_offsets_wf()
    ensures
        forall|k: int| 0 <= k < 4 ==> (#[trigger] transposition_offsets()[k]).wf(),
{
    assert(transposition_offsets()[0].wf());
    assert(transposition_offsets()[1].wf());
    assert(transposition_offsets()[2].wf());
    assert(transposition_offsets()[3].wf());
}

/// Assemble the transposition set.
fn build_offsets() -> (r: Vec<Interval>)
    ensures
        r@ == transposition_offsets(),
{
    let mut v: Vec<Interval> = Vec::new();
    v.push(Interval::new(IntervalQuality::Perfect, 1));
    v.push(Interval::new(IntervalQuality::Perfect, 5));
    v.push(Interval::new(IntervalQuality::Major, 9));
    v.push(Interval::new(IntervalQuality::Major, 13));
    proof {
        assert(v@ =~= transposition_offsets());
    }
    v
}

/// The note after drawing transposition choice `d`: the note moved by the
/// chosen offset, or unchanged when the move has no valid respelling.
pub open spec fn apply_offset_spec(n: Note, d: int) -> Note {
    match n.add_spec(transposition_offsets()[d]) {
        Some(x) => x,
        None => n,
    }
}

/// Relies on rand's `Rng::gen_range` over `0..n` on a `thread_rng`: the
/// draw lies in the range; the empty range, on which it panics, is ruled
/// out by the precondition.  Nothing links separate draws.
#[verifier::external_body]
fn random_below(n: u8) -> (r: u8)
    requires
        1 <= n,
    ensures
        r < n,
{
    rand::Rng::gen_range(&mut rand::thread_rng(), 0..n)
}

/// Relies on rand's `SliceRandom::shuffle` on a `thread_rng`: a
/// Fisher-Yates in-place permutation, so the slice afterwards holds
/// exactly the notes it held before, possibly reordered.
#[verifier::external_body]
fn shuffle_notes(notes: &mut [Note; 3])
    ensures
        final(notes)@.to_multiset() == old(notes)@.to_multiset(),
{
    rand::seq::SliceRandom::shuffle(&mut notes[..], &mut rand::thread_rng());
}

/// Transpose one note by a uniformly random choice among the first
/// `string_count` entries of the transposition set, keeping the note
/// unchanged when the chosen move has no respelling.  With a single
/// string the only choice is the unison, which returns an
/// accidental-free note of moderate octave unchanged.
fn transpose_note(n: Note, offsets: &Vec<Interval>, string_count: u8) -> (r: Note)
    requires
        offsets@ == transposition_offsets(),
        1 <= string_count <= 4,
    ensures
        exists|d: int| 0 <= d < string_count && r == apply_offset_spec(n, d),
        (string_count == 1 && n.accidental is None && n.octave <= 8) ==> r == n,
{
    let d = random_below(string_count);
    proof {
        lemma_offsets_wf();
    }
    let iv = offsets[d as usize];
    let r = match n.add(iv) {
        Some(x) => x,
        None => n,
    };
    proof {
        assert(r == apply_offset_spec(n, d as int));
        if string_count == 1 && n.accidental is None && n.octave <= 8 {
            assert(d == 0);
            assert(iv == perfect_unison());
            lemma_unison_identity(n.letter, n.octave, n.accidental);
            assert(Note { letter: n.letter, octave: n.octave, accidental: n.accidental } == n);
        }
    }
    r
}

/// The three-note group a finger pattern builds on a start note: the
/// start and the two pattern intervals added to it, or nothing when
/// either addition has no valid respelling.
pub open spec fn triple_of(start: Note, p: (Interval, Interval)) -> Option<[Note; 3]> {
    match (start.add_spec(p.0), start.add_spec(p.1)) {
        (Some(a), Some(b)) => Some([start, a, b]),
        _ => None,
    }
}

/// The budget-respecting groups that the first `k` enabled patterns build
/// on a start spelling, in pattern order.
pub open spec fn triples_for_spelling_upto(cfg: CelloCardGenerator, sp: Note, k: int) -> Seq<
    [Note; 3],
>
    decreases k,
{
    if k <= 0 {
        Seq::empty()
    } else {
        let rest = triples_for_spelling_upto(cfg, sp, k - 1);
        match triple_of(sp, pattern_list(cfg)[k - 1]) {
            Some(t) => if budget_ok(cfg, t) {
                rest.push(t)
            } else {
                rest
            },
            None => rest,
        }
    }
}

/// The groups contributed by the first `k` respellings of a raw pitch:
/// each eligible spelling contributes its groups in pattern order.
pub open spec fn triples_for_midi_upto(cfg: CelloCardGenerator, m: int, k: int) -> Seq<[Note; 3]>
    decreases k,
{
    if k <= 0 {
        Seq::empty()
    } else {
        let rest = triples_for_midi_upto(cfg, m, k - 1);
        let sp = Note::from_midi_spec(m).all_equivalents_spec()[k - 1];
        if eligible_spec(cfg, sp) {
            rest + triples_for_spelling_upto(cfg, sp, pattern_list(cfg).len() as int)
        } else {
            rest
        }
    }
}

/// The groups contributed by the raw pitches below `m`, in pitch order.
pub open spec fn det_triples_upto(cfg: CelloCardGenerator, m: int) -> Seq<[Note; 3]>
    decreases m,
{
    if m <= 0 {
        Seq::empty()
    } else {
        det_triples_upto(cfg, m - 1) + triples_for_midi_upto(
            cfg,
            m - 1,
            Note::from_midi_spec(m - 1).all_equivalents_spec().len() as int,
        )
    }
}

/// The deterministic stages of the pipeline: sweep every raw pitch 0
/// through 255, expand each to its respellings, keep the eligible start
/// spellings, build each enabled pattern's group, and keep the groups
/// within the accidental budgets.  A pure function of the configuration.
pub open spec fn det_triples(cfg: CelloCardGenerator) -> Seq<[Note; 3]> {
    det_triples_upto(cfg, 256)
}

/// What holds of every group the deterministic stages emit: it respects
/// the budgets, it exists only when some position is enabled, and its
/// notes sit at moderate octaves and never carry an explicit natural.
pub open spec fn group_props(cfg: CelloCardGenerator, t: [Note; 3]) -> bool {
    &&& budget_ok(cfg, t)
    &&& some_position_enabled(cfg)
    &&& forall|j: int|
        0 <= j < 3 ==> ((#[trigger] t@[j]).octave <= 8 && t@[j].accidental != Some(
            Accidental::Natural,
        ))
}

/// Adding an interval within the byte range's interior lands at a
/// moderate octave, never carries an explicit natural, and moves the
/// pitch by exactly the interval's offset.
pub proof fn lemma_add_result_bounds(n: Note, i: Interval)
    requires
        24 <= n.midi_spec() + i.midi_offset_spec() <= 107,
    ensures
        n.add_spec(i) matches Some(e) ==> (e.octave <= 8 && e.accidental != Some(
            Accidental::Natural,
        ) && e.midi_spec() == n.midi_spec() + i.midi_offset_spec()),
{
    let x = n.midi_spec() + i.midi_offset_spec();
    assert(x % 256 == x) by {
        vstd::arithmetic::div_mod::lemma_small_mod(x as nat, 256);
    }
    let fm = Note::from_midi_spec(x);
    crate::pitch::lemma_from_midi_midi(x);
    assert(2 <= x / 12 <= 8) by {
        vstd::arithmetic::div_mod::lemma_div_is_ordered(24, x, 12);
        vstd::arithmetic::div_mod::lemma_div_is_ordered(x, 107, 12);
    }
    assert(fm.octave as int == (x / 12 - 1) % 256);
    assert(1 <= x / 12 - 1 <= 7);
    assert(fm.octave as int == x / 12 - 1) by {
        vstd::arithmetic::div_mod::lemma_small_mod((x / 12 - 1) as nat, 256);
    }
    if n.add_spec(i) is Some {
        let delta = if i.interval > 0 {
            i.interval - 1
        } else {
            i.interval + 1
        };
        let letter = crate::pitch::Letter::of_ord_spec((n.letter.ord_spec() + delta) % 7);
        let cand = fm.enharm_candidate_spec(letter);
        assert(cand.octave <= 8) by {
            assert((fm.octave - 1) % 256 == fm.octave - 1 && (fm.octave + 1) % 256 == fm.octave
                + 1) by {
                vstd::arithmetic::div_mod::lemma_small_mod((fm.octave - 1) as nat, 256);
                vstd::arithmetic::div_mod::lemma_small_mod((fm.octave + 1) as nat, 256);
            }
        }
        crate::pitch::lemma_enharmonic_closure(fm, letter);
    }
}

/// Build one pattern's group on a start spelling and check it against
/// the budgets: the group when both interval additions respell and the
/// budgets allow it, nothing otherwise.
fn try_group(cfg: &CelloCardGenerator, sp: Note, p: (Interval, Interval)) -> (r: Option<
    [Note; 3],
>)
    requires
        p.0.wf(),
        p.1.wf(),
        1 <= p.0.midi_offset_spec() <= 4,
        1 <= p.1.midi_offset_spec() <= 4,
        eligible_spec(*cfg, sp),
        sp.accidental != Some(Accidental::Natural),
    ensures
        r == (match triple_of(sp, p) {
            Some(t) => if budget_ok(*cfg, t) {
                Some(t)
            } else {
                None
            },
            None => None,
        }),
        r matches Some(t) ==> group_props(*cfg, t),
{
    proof {
        lemma_eligible_bounds(*cfg, sp);
    }
    match (sp.add(p.0), sp.add(p.1)) {
        (Some(a), Some(b)) => {
            let t = [sp, a, b];
            proof {
                assert(triple_of(sp, p) == Some(t));
            }
            if budget_allows(cfg, &t) {
                proof {
                    lemma_add_result_bounds(sp, p.0);
                    lemma_add_result_bounds(sp, p.1);
                    assert(t@[0] == sp && t@[1] == a && t@[2] == b);
                    assert(group_props(*cfg, t));
                }
                Some(t)
            } else {
                None
            }
        },
        _ => None,
    }
}

/// Append to `out` every budget-respecting group that an enabled pattern
/// builds on one eligible start spelling, in pattern order.
fn groups_for_spelling(
    cfg: &CelloCardGenerator,
    sp: Note,
    pats: &Vec<(Interval, Interval)>,
    out: &mut Vec<[Note; 3]>,
)
    requires
        pats@ == pattern_list(*cfg),
        eligible_spec(*cfg, sp),
        sp.accidental != Some(Accidental::Natural),
        forall|i: int| 0 <= i < old(out)@.len() ==> group_props(*cfg, #[trigger] old(out)@[i]),
    ensures
        final(out)@ == old(out)@ + triples_for_spelling_upto(
            *cfg,
            sp,
            pattern_list(*cfg).len() as int,
        ),
        forall|i: int| 0 <= i < final(out)@.len() ==> group_props(*cfg, #[trigger] final(out)@[i]),
{
    let mut pi: usize = 0;
    while pi < pats.len()
        invariant
            pi <= pats@.len(),
            pats@ == pattern_list(*cfg),
            eligible_spec(*cfg, sp),
            sp.accidental != Some(Accidental::Natural),
            out@ == old(out)@ + triples_for_spelling_upto(*cfg, sp, pi as int),
            forall|i: int| 0 <= i < out@.len() ==> group_props(*cfg, #[trigger] out@[i]),
        decreases pats@.len() - pi,
    {
        proof {
            lemma_pattern_list_wf(*cfg);
        }
        let p = pats[pi];
        match try_group(cfg, sp, p) {
            Some(t) => out.push(t),
            None => (),
        }
        pi = pi + 1;
    }
}

impl CelloCardGenerator {
    /// The deterministic stages of a generation pass: every budget-
    /// respecting three-note group that an enabled finger pattern builds
    /// on an eligible start spelling, swept over all 256 raw pitches in
    /// order.  Two calls with the same configuration return the same
    /// groups in the same order.
    pub fn note_groups(&self) -> (r: Vec<[Note; 3]>)
        ensures
            r@ == det_triples(*self),
            forall|i: int| 0 <= i < r@.len() ==> group_props(*self, #[trigger] r@[i]),
    {
        let pats = build_patterns(self);
        let mut out: Vec<[Note; 3]> = Vec::new();
        let mut m: u16 = 0;
        while m < 256
            invariant
                m <= 256,
                pats@ == pattern_list(*self),
                out@ == det_triples_upto(*self, m as int),
                forall|i: int| 0 <= i < out@.len() ==> group_props(*self, #[trigger] out@[i]),
            decreases 256 - m,
        {
            let start = Note::from_midi(m as u8);
            let spellings = start.all_enharmonic_equivalents();
            proof {
                crate::pitch::lemma_equivalents_props(start, 7);
            }
            let mut k: usize = 0;
            while k < spellings.len()
                invariant
                    k <= spellings@.len(),
                    m < 256,
                    pats@ == pattern_list(*self),
                    spellings@ == Note::from_midi_spec(m as int).all_equivalents_spec(),
                    forall|j: int|
                        0 <= j < spellings@.len() ==> (#[trigger] spellings@[j]).accidental != Some(
                            Accidental::Natural,
                        ),
                    out@ == det_triples_upto(*self, m as int) + triples_for_midi_upto(
                        *self,
                        m as int,
                        k as int,
                    ),
                    forall|i: int| 0 <= i < out@.len() ==> group_props(*self, #[trigger] out@[i]),
                decreases spellings@.len() - k,
            {
                let sp = spellings[k];
                if position_allowed(self, sp) {
                    groups_for_spelling(self, sp, &pats, &mut out);
                    proof {
                        assert(out@ =~= det_triples_upto(*self, m as int) + triples_for_midi_upto(
                            *self,
                            m as int,
                            k as int + 1,
                        ));
                    }
                } else {
                    proof {
                        assert(out@ == det_triples_upto(*self, m as int) + triples_for_midi_upto(
                            *self,
                            m as int,
                            k as int + 1,
                        ));
                    }
                }
                k = k + 1;
            }
            proof {
                assert(out@ == det_triples_upto(*self, m as int + 1));
            }
            m = m + 1;
        }
        out
    }
}

/// Whether all three notes of a group lie within a range.
pub open spec fn in_range3(range: MidiRange, t: [Note; 3]) -> bool {
    &&& range.contains_spec(t@[0].midi_spec())
    &&& range.contains_spec(t@[1].midi_spec())
    &&& range.contains_spec(t@[2].midi_spec())
}

/// The cards that one group yields over the first `k` enabled clefs in
/// the deterministic path: one card per clef whose range contains all
/// three pitches.
pub open spec fn cards_for_triple_upto(cfg: CelloCardGenerator, t: [Note; 3], k: int) -> Seq<Card>
    decreases k,
{
    if k <= 0 {
        Seq::empty()
    } else {
        let rest = cards_for_triple_upto(cfg, t, k - 1);
        let e = clef_list(cfg)[k - 1];
        if in_range3(e.1, t) {
            rest.push(Card { clef: e.0, notes: t })
        } else {
            rest
        }
    }
}

/// The cards of the deterministic path over the first `i` groups.
pub open spec fn det_cards_upto(cfg: CelloCardGenerator, ts: Seq<[Note; 3]>, i: int) -> Seq<Card>
    decreases i,
{
    if i <= 0 {
        Seq::empty()
    } else {
        det_cards_upto(cfg, ts, i - 1) + cards_for_triple_upto(
            cfg,
            ts[i - 1],
            clef_list(cfg).len() as int,
        )
    }
}

/// The whole pipeline without randomization (`string_count == 0`): every
/// group of the deterministic stages crossed with every enabled clef
/// whose range contains it, in sweep order.  A pure function of the
/// configuration.
pub open spec fn det_cards(cfg: CelloCardGenerator) -> Seq<Card> {
    det_cards_upto(cfg, det_triples(cfg), det_triples(cfg).len() as int)
}

/// Whether none of a group's notes carries an accidental marker.
pub open spec fn no_accidentals(t: [Note; 3]) -> bool {
    forall|j: int| 0 <= j < 3 ==> (#[trigger] t@[j]).accidental is None
}

/// What holds of every card a generation pass returns: its clef is
/// enabled and its three pitches lie within that clef's configured
/// range; and when every accidental budget is zero and at most one
/// string is drawn from, its notes carry no accidental.
pub open spec fn card_ok(cfg: CelloCardGenerator, card: Card) -> bool {
    &&& clef_range(cfg, card.clef) matches Some(range) && in_range3(range, card.notes)
    &&& (cfg.max_sharps == 0 && cfg.max_flats == 0 && cfg.max_double_accidentals == 0
        && cfg.string_count <= 1) ==> no_accidentals(card.notes)
}

/// Zero budgets force a budget-respecting group without explicit
/// naturals to carry no accidental at all.
proof fn lemma_budget_zero(cfg: CelloCardGenerator, t: [Note; 3])
    requires
        budget_ok(cfg, t),
        cfg.max_sharps == 0,
        cfg.max_flats == 0,
        cfg.max_double_accidentals == 0,
        forall|j: int| 0 <= j < 3 ==> (#[trigger] t@[j]).accidental != Some(Accidental::Natural),
    ensures
        no_accidentals(t),
{
    assert(note_sharps(t@[0]) == 0 && note_sharps(t@[1]) == 0 && note_sharps(t@[2]) == 0);
    assert(note_flats(t@[0]) == 0 && note_flats(t@[1]) == 0 && note_flats(t@[2]) == 0);
    lemma_zero_counts_note(t@[0]);
    lemma_zero_counts_note(t@[1]);
    lemma_zero_counts_note(t@[2]);
    assert forall|j: int| 0 <= j < 3 implies (#[trigger] t@[j]).accidental is None by {
        assert(j == 0 || j == 1 || j == 2);
    }
}

/// A note that counts toward no budget and is no explicit natural
/// carries no accidental.
proof fn lemma_zero_counts_note(n: Note)
    requires
        note_sharps(n) == 0,
        note_flats(n) == 0,
        n.accidental != Some(Accidental::Natural),
    ensures
        n.accidental is None,
{
    match n.accidental {
        Some(a) => {
            match a {
                Accidental::DoubleFlat => assert(note_flats(n) == 1),
                Accidental::Flat => assert(note_flats(n) == 1),
                Accidental::Natural => assert(false),
                Accidental::Sharp => assert(note_sharps(n) == 1),
                Accidental::DoubleSharp => assert(note_sharps(n) == 1),
            }
        },
        None => (),
    }
}

/// Notes drawn from the same multiset inherit accidental-freedom.
proof fn lemma_multiset_no_accidentals(s1: Seq<Note>, s2: Seq<Note>)
    requires
        s1.to_multiset() == s2.to_multiset(),
        forall|j: int| 0 <= j < s1.len() ==> (#[trigger] s1[j]).accidental is None,
    ensures
        forall|j: int| 0 <= j < s2.len() ==> (#[trigger] s2[j]).accidental is None,
{
    broadcast use vstd::seq_lib::group_to_multiset_ensures;

    assert forall|j: int| 0 <= j < s2.len() implies (#[trigger] s2[j]).accidental is None by {
        assert(s2.contains(s2[j]));
        assert(s2.to_multiset().count(s2[j]) > 0);
        assert(s1.contains(s2[j]));
        let w = choose|w: int| 0 <= w < s1.len() && s1[w] == s2[j];
        assert(s1[w].accidental is None);
    }
}

/// Three notes sit in ascending pitch order.
pub open spec fn sorted3(t: [Note; 3]) -> bool {
    t@[0].midi_spec() <= t@[1].midi_spec() <= t@[2].midi_spec()
}

/// A group of notes arises from another by drawing, for each note
/// independently, one of the first `string_count` transposition offsets,
/// and then reordering.
pub open spec fn derived_from(cfg: CelloCardGenerator, t: [Note; 3], notes: [Note; 3]) -> bool {
    exists|d0: int, d1: int, d2: int|
        0 <= d0 < cfg.string_count && 0 <= d1 < cfg.string_count && 0 <= d2 < cfg.string_count
            && notes@.to_multiset() == seq![
            apply_offset_spec(t@[0], d0),
            apply_offset_spec(t@[1], d1),
            apply_offset_spec(t@[2], d2),
        ].to_multiset()
}

/// Transpose each of a group's notes by an independent uniformly random
/// draw among the first `string_count` transposition offsets, then
/// shuffle the three notes into random order or sort them ascending by
/// pitch.  Zero budgets with a single string leave the notes free of
/// accidentals.
#[verifier::rlimit(60)]
fn transform_group(cfg: &CelloCardGenerator, t: [Note; 3], offsets: &Vec<Interval>) -> (r: [
    Note; 3])
    requires
        1 <= cfg.string_count <= 4,
        offsets@ == transposition_offsets(),
        group_props(*cfg, t),
    ensures
        derived_from(*cfg, t, r),
        !cfg.shuffled_order ==> sorted3(r),
        (cfg.max_sharps == 0 && cfg.max_flats == 0 && cfg.max_double_accidentals == 0
            && cfg.string_count == 1) ==> (forall|j: int|
            0 <= j < 3 ==> (#[trigger] r@[j]).accidental is None),
{
    let ghost budgets_zero = cfg.max_sharps == 0 && cfg.max_flats == 0
        && cfg.max_double_accidentals == 0;
    proof {
        if budgets_zero {
            lemma_budget_zero(*cfg, t);
        }
    }
    let n0 = transpose_note(t[0], offsets, cfg.string_count);
    let n1 = transpose_note(t[1], offsets, cfg.string_count);
    let n2 = transpose_note(t[2], offsets, cfg.string_count);
    let arr = [n0, n1, n2];
    let ghost d0 = choose|d: int| 0 <= d < cfg.string_count && n0 == apply_offset_spec(t@[0], d);
    let ghost d1 = choose|d: int| 0 <= d < cfg.string_count && n1 == apply_offset_spec(t@[1], d);
    let ghost d2 = choose|d: int| 0 <= d < cfg.string_count && n2 == apply_offset_spec(t@[2], d);
    proof {
        assert(arr@ =~= seq![
            apply_offset_spec(t@[0], d0),
            apply_offset_spec(t@[1], d1),
            apply_offset_spec(t@[2], d2),
        ]);
        if budgets_zero && cfg.string_count == 1 {
            assert(t@[0].accidental is None && t@[1].accidental is None && t@[2].accidental
                is None);
            assert(n0 == t[0] && n1 == t[1] && n2 == t[2]);
            assert(forall|j: int| 0 <= j < 3 ==> (#[trigger] arr@[j]).accidental is None) by {
                assert(arr@[0] == n0 && arr@[1] == n1 && arr@[2] == n2);
            }
        }
    }
    if cfg.shuffled_order {
        let mut shuffled = arr;
        shuffle_notes(&mut shuffled);
        proof {
            if budgets_zero && cfg.string_count == 1 {
                lemma_multiset_no_accidentals(arr@, shuffled@);
            }
            assert(derived_from(*cfg, t, shuffled));
        }
        shuffled
    } else {
        let sorted = sort3(arr);
        proof {
            if budgets_zero && cfg.string_count == 1 {
                lemma_multiset_no_accidentals(arr@, sorted@);
            }
            assert(derived_from(*cfg, t, sorted));
        }
        sorted
    }
}

/// A card's notes arise from some group of the deterministic stages by
/// the randomized transposition and reordering.
pub open spec fn from_generated_group(cfg: CelloCardGenerator, card: Card) -> bool {
    exists|t: [Note; 3]| det_triples(cfg).contains(t) && derived_from(cfg, t, card.notes)
}

/// One clef's verdict on one group: the group (transposed and reordered
/// when `string_count` is positive) becomes a card exactly when all three
/// resulting pitches lie within the clef's range.
fn card_for_clef(
    cfg: &CelloCardGenerator,
    t: [Note; 3],
    clef: Clef,
    range: MidiRange,
    offsets: &Vec<Interval>,
) -> (r: Option<Card>)
    requires
        cfg.string_count <= 4,
        offsets@ == transposition_offsets(),
        group_props(*cfg, t),
        clef_range(*cfg, clef) == Some(range),
    ensures
        cfg.string_count == 0 ==> r == (if in_range3(range, t) {
            Some(Card { clef, notes: t })
        } else {
            Option::<Card>::None
        }),
        r matches Some(c) ==> card_ok(*cfg, c) && c.clef == clef,
        r matches Some(c) ==> (cfg.string_count > 0 ==> derived_from(*cfg, t, c.notes)),
        r matches Some(c) ==> ((cfg.string_count > 0 && !cfg.shuffled_order) ==> sorted3(c.notes)),
{
    let notes: [Note; 3] = if cfg.string_count == 0 {
        proof {
            if cfg.max_sharps == 0 && cfg.max_flats == 0 && cfg.max_double_accidentals == 0 {
                lemma_budget_zero(*cfg, t);
            }
        }
        t
    } else {
        transform_group(cfg, t, offsets)
    };
    let m0 = notes[0].midi();
    let m1 = notes[1].midi();
    let m2 = notes[2].midi();
    if range.lo <= m0 && m0 <= range.hi && range.lo <= m1 && m1 <= range.hi && range.lo <= m2 && m2
        <= range.hi {
        proof {
            assert(in_range3(range, notes));
        }
        Some(Card { clef, notes })
    } else {
        None
    }
}

impl CelloCardGenerator {
    /// Run a generation pass: cross every group of the deterministic
    /// stages with every enabled clef, transposing each note by a random
    /// string offset and reordering (shuffled or sorted by pitch) when
    /// `string_count` is positive, and keep a card exactly when its three
    /// pitches lie within the clef's range.  With `string_count == 0` the
    /// notes pass through unmodified and the whole pass is a pure
    /// function of the configuration; every returned card's pitches lie
    /// within its clef's configured range; zero accidental budgets (with
    /// at most one string) force accidental-free cards; and with every
    /// position disabled the result is empty.
    pub fn card_generator(&self) -> (r: Vec<Card>)
        requires
            self.string_count <= 4,
        ensures
            self.string_count == 0 ==> r@ == det_cards(*self),
            forall|i: int| 0 <= i < r@.len() ==> card_ok(*self, #[trigger] r@[i]),
            self.string_count > 0 ==> forall|i: int|
                0 <= i < r@.len() ==> from_generated_group(*self, #[trigger] r@[i]),
            self.string_count > 0 && !self.shuffled_order ==> forall|i: int|
                0 <= i < r@.len() ==> sorted3((#[trigger] r@[i]).notes),
            !some_position_enabled(*self) ==> r@.len() == 0,
    {
        let triples = self.note_groups();
        let clefs = build_clefs(self);
        let offsets = build_offsets();
        let mut out: Vec<Card> = Vec::new();
        let mut i: usize = 0;
        while i < triples.len()
            invariant
                i <= triples@.len(),
                triples@ == det_triples(*self),
                forall|x: int|
                    0 <= x < triples@.len() ==> group_props(*self, #[trigger] triples@[x]),
                clefs@ == clef_list(*self),
                offsets@ == transposition_offsets(),
                self.string_count <= 4,
                self.string_count == 0 ==> out@ == det_cards_upto(*self, triples@, i as int),
                forall|x: int| 0 <= x < out@.len() ==> card_ok(*self, #[trigger] out@[x]),
                self.string_count > 0 ==> forall|x: int|
                    0 <= x < out@.len() ==> from_generated_group(*self, #[trigger] out@[x]),
                self.string_count > 0 && !self.shuffled_order ==> forall|x: int|
                    0 <= x < out@.len() ==> sorted3((#[trigger] out@[x]).notes),
                !some_position_enabled(*self) ==> out@.len() == 0,
            decreases triples@.len() - i,
        {
            let t = triples[i];
            let mut c: usize = 0;
            while c < clefs.len()
                invariant
                    c <= clefs@.len(),
                    i < triples@.len(),
                    t == triples@[i as int],
                    triples@ == det_triples(*self),
                    forall|x: int|
                        0 <= x < triples@.len() ==> group_props(*self, #[trigger] triples@[x]),
                    clefs@ == clef_list(*self),
                    offsets@ == transposition_offsets(),
                    self.string_count <= 4,
                    self.string_count == 0 ==> out@ == det_cards_upto(*self, triples@, i as int)
                        + cards_for_triple_upto(*self, t, c as int),
                    forall|x: int| 0 <= x < out@.len() ==> card_ok(*self, #[trigger] out@[x]),
                    self.string_count > 0 ==> forall|x: int|
                        0 <= x < out@.len() ==> from_generated_group(*self, #[trigger] out@[x]),
                    self.string_count > 0 && !self.shuffled_order ==> forall|x: int|
                        0 <= x < out@.len() ==> sorted3((#[trigger] out@[x]).notes),
                    !some_position_enabled(*self) ==> out@.len() == 0,
                decreases clefs@.len() - c,
            {
                let (clef, range) = clefs[c];
                proof {
                    lemma_clef_list_ranges(*self);
                    assert(clef_range(*self, clef) == Some(range));
                }
                match card_for_clef(self, t, clef, range, &offsets) {
                    Some(card) => {
                        proof {
                            assert(det_triples(*self)[i as int] == t);
                            assert(det_triples(*self).contains(t));
                            if self.string_count > 0 {
                                assert(from_generated_group(*self, card));
                            }
                        }
                        out.push(card);
                    },
                    None => (),
                }
                c = c + 1;
            }
            proof {
                if self.string_count == 0 {
                    assert(out@ =~= det_cards_upto(*self, triples@, i as int + 1));
                }
            }
            i = i + 1;
        }
        out
    }
}

/// Sort three notes ascending by MIDI pitch, keeping the original order
/// of equal pitches; the result holds exactly the notes given.
fn sort3(t: [Note; 3]) -> (r: [Note; 3])
    ensures
        r@.to_multiset() == t@.to_multiset(),
        r@[0].midi_spec() <= r@[1].midi_spec() <= r@[2].midi_spec(),
{
    broadcast use vstd::seq_lib::group_to_multiset_ensures;

    let (a0, b0, c0) = (t[0], t[1], t[2]);
    let (a1, b1) = if b0.midi() < a0.midi() {
        (b0, a0)
    } else {
        (a0, b0)
    };
    let (b2, c2) = if c0.midi() < b1.midi() {
        (c0, b1)
    } else {
        (b1, c0)
    };
    let (a3, b3) = if b2.midi() < a1.midi() {
        (b2, a1)
    } else {
        (a1, b2)
    };
    let r = [a3, b3, c2];
    proof {
        assert(t@ =~= Seq::<Note>::empty().push(t@[0]).push(t@[1]).push(t@[2]));
        assert(r@ =~= Seq::<Note>::empty().push(a3).push(b3).push(c2));
        assert_multisets_equal!(r@.to_multiset(), t@.to_multiset());
    }
    r
}

} // verus!
