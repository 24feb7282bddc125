//! What the library promises, stated of every input.

pub mod accounts;
pub mod answers;
pub mod billing;
pub mod chords;
pub mod community;
pub mod exporting;
pub mod files;
pub mod imported_lines;
pub mod importing;
pub mod lyrics;
pub mod mail;
pub mod messages;
pub mod music;
pub mod notices;
pub mod payloads;
pub mod records;
pub mod refusals;
pub mod sessions;
pub mod sheets;
pub mod song_sheets;
pub mod symbols;
pub mod values;
pub mod words;
