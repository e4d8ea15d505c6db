//! Tests of the clefs, the card text form, the configuration presets,
//! and the combinatorial generator.

use cello_cards::card::Card;
use cello_cards::clef::Clef;
use cello_cards::config::CelloCardGenerator;
use cello_cards::pitch::{Letter, Note};

#[test]
fn cello_card_generator() {
    CelloCardGenerator::no_sharps_flats()
        .card_generator()
        .into_iter()
        .for_each(|c| {
            println!("{c:?}");
        });
}

#[test]
fn clef_tokens() {
    assert_eq!(Clef::from_str("B4"), Some(Clef::Treble));
    assert_eq!(Clef::from_str("A3"), Some(Clef::Tenor));
    assert_eq!(Clef::from_str("C4"), Some(Clef::Alto));
    assert_eq!(Clef::from_str("D3"), Some(Clef::Bass));
    assert_eq!(Clef::from_str("G2"), None);
    assert_eq!(Clef::from_str("B42"), None);
    assert_eq!(Clef::from_str(""), None);
}

#[test]
fn clef_center_notes() {
    assert_eq!(Clef::Treble.center_note(), Note::from_str("B4").unwrap());
    assert_eq!(Clef::Alto.center_note(), Note::from_str("C4").unwrap());
    assert_eq!(Clef::Tenor.center_note(), Note::from_str("A3").unwrap());
    assert_eq!(Clef::Bass.center_note(), Note::from_str("D3").unwrap());
}

#[test]
fn card_text_form() {
    let card = Card::from_str("D3:C2:E2:G2").unwrap();
    assert_eq!(card.clef, Clef::Bass);
    assert_eq!(card.notes[0], Note::from_str("C2").unwrap());
    assert_eq!(card.notes[1], Note::from_str("E2").unwrap());
    assert_eq!(card.notes[2], Note::from_str("G2").unwrap());
    // too few fields, or an unparsable field, name no card
    assert_eq!(Card::from_str("D3:C2:E2"), None);
    assert_eq!(Card::from_str("D3:C2:E2:"), None);
    assert_eq!(Card::from_str("X9:C2:E2:G2"), None);
    assert_eq!(Card::from_str(""), None);
    // fields past the fourth are ignored
    let extra = Card::from_str("B4:A3:B3:C4:ignored").unwrap();
    assert_eq!(extra.clef, Clef::Treble);
    assert_eq!(extra.notes[2], Note::from_str("C4").unwrap());
}

#[test]
fn presets_build_on_each_other() {
    let base = CelloCardGenerator::no_sharps_flats();
    assert_eq!(base.max_sharps, 0);
    assert_eq!(base.max_flats, 0);
    assert_eq!(base.string_count, 1);
    assert!(!base.shuffled_order);
    let three = CelloCardGenerator::three_sharps();
    assert_eq!(three.max_sharps, 3);
    assert_eq!(three.max_flats, 3);
    assert_eq!(three.max_double_accidentals, 0);
    let tenor = CelloCardGenerator::tenor_clef_initial();
    assert_eq!(tenor.bass_clef, None);
    assert!(tenor.tenor_clef.is_some());
    let adv = CelloCardGenerator::advanced();
    assert!(adv.shuffled_order);
    assert_eq!(adv.string_count, 2);
    assert!(adv.finger_pattern_5_allowed);
    let imp = CelloCardGenerator::impossible();
    assert_eq!(imp.string_count, 4);
    assert!(imp.bass_clef.is_some() && imp.alto_clef.is_some());
    assert_eq!(CelloCardGenerator::one_flat().max_flats, 1);
    assert_eq!(CelloCardGenerator::one_sharp().max_sharps, 1);
    assert_eq!(CelloCardGenerator::two_flats().max_flats, 2);
    assert_eq!(CelloCardGenerator::two_sharps().max_sharps, 2);
    assert_eq!(CelloCardGenerator::three_flats().max_flats, 3);
    assert_eq!(
        CelloCardGenerator::treble_clef_initial().treble_clef,
        CelloCardGenerator::treble_clef_advanced().treble_clef
    );
    assert_eq!(
        CelloCardGenerator::tenor_clef_advanced().max_sharps,
        3
    );
}

#[test]
fn accidental_budget_enforcement() {
    // with all three budgets at zero, no returned note carries an accidental
    let cards = CelloCardGenerator::no_sharps_flats().card_generator();
    assert!(!cards.is_empty());
    for card in &cards {
        for note in &card.notes {
            assert_eq!(note.accidental, None);
        }
    }
}

#[test]
fn range_enforcement() {
    // every returned pitch lies within its clef's configured range, with
    // randomized transposition over all four strings and shuffled order
    let cfg = CelloCardGenerator::impossible();
    let cards = cfg.card_generator();
    for card in &cards {
        let range = match card.clef {
            Clef::Bass => cfg.bass_clef.unwrap(),
            Clef::Treble => cfg.treble_clef.unwrap(),
            Clef::Tenor => cfg.tenor_clef.unwrap(),
            Clef::Alto => cfg.alto_clef.unwrap(),
        };
        for note in &card.notes {
            assert!(range.lo <= note.midi() && note.midi() <= range.hi);
        }
    }
}

#[test]
fn position_gating() {
    // disabling every position on every string yields nothing, whatever
    // the other settings say
    let mut cfg = CelloCardGenerator::impossible();
    cfg.half_position_allowed = false;
    cfg.position_1_allowed = false;
    cfg.position_2_allowed = false;
    cfg.position_3_allowed = false;
    cfg.position_4_allowed = false;
    cfg.position_5_allowed = false;
    cfg.position_6_allowed = false;
    cfg.position_7_allowed = false;
    assert!(cfg.card_generator().is_empty());
}

#[test]
fn deterministic_without_transposition() {
    // with string_count 0 the whole pass is a pure function of the
    // configuration: repeated runs agree exactly, order included
    let mut cfg = CelloCardGenerator::three_sharps();
    cfg.string_count = 0;
    let first = cfg.card_generator();
    let second = cfg.card_generator();
    assert_eq!(first, second);
    assert!(!first.is_empty());
    // the deterministic note groups agree between runs too
    assert_eq!(cfg.note_groups(), cfg.note_groups());
}

#[test]
fn start_notes_come_from_landmarks() {
    // without transposition the first note of each bass-clef card is an
    // eligible landmark spelling: here D2 upward with no accidentals
    let mut cfg = CelloCardGenerator::no_sharps_flats();
    cfg.string_count = 0;
    let cards = cfg.card_generator();
    assert!(!cards.is_empty());
    for card in &cards {
        assert_eq!(card.clef, Clef::Bass);
        let m = card.notes[0].midi();
        assert!((38..=69).contains(&m), "start pitch {m} off the landmark set");
    }
    // D2 with patterns 2 (D2 E2 F2) must appear
    let d2 = Note {
        letter: Letter::D,
        octave: 2,
        accidental: None,
    };
    assert!(cards.iter().any(|c| c.notes[0] == d2));
}
