//! What stands before every request: who asks, from where, and whether they
//! may.

pub mod authentication;
pub mod client_ip;
