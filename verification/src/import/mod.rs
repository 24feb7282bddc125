//! Imports.

pub mod chordpro;
pub mod laws;
pub mod round_trip;
pub mod values;
