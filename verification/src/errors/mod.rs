//! Errors, and how they are answered.

pub mod api_error;
pub mod auth_error;
pub mod codes;
pub mod config_error;
pub mod status;
