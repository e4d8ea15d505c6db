//! Music-theory core for a string-instrument flashcard generator.
//!
//! The library models diatonic letters, accidentals, notes with MIDI
//! conversion in a wrapping 8-bit pitch space, intervals with
//! music-theoretic legality rules, enharmonic respelling, clefs, and a
//! combinatorial generator that turns a configuration into the set of
//! valid three-note fingering groups.

pub mod card;
pub mod clef;
pub mod config;
pub mod generator;
pub mod interval;
pub mod parse;
pub mod pitch;
pub mod positions;
