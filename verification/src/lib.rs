//! Setlyst: the rules of the setlist platform.
pub mod email;
pub mod errors;
pub mod export;
pub mod fields;
pub mod ids;
pub mod import;
pub mod jobs;
pub mod json;
pub mod laws;
pub mod middlewares;
pub mod models;
pub mod text;
pub mod time;
pub mod validation;
