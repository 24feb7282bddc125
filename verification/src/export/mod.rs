//! Exports: ChordPro files and PDF sheets.

pub mod chordpro;
pub mod chords;
pub mod filenames;
pub mod layout;
pub mod limiter;
pub mod lyrics;
pub mod options;
pub mod pages;
pub mod sheet;
