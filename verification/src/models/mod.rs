//! The records of the platform and the rules on them.

pub mod actions;
pub mod admin;
pub mod announcement;
pub mod artist;
pub mod audit;
pub mod auth;
pub mod backup;
pub mod band;
pub mod band_note;
pub mod billing;
pub mod communication;
pub mod finance;
pub mod gig;
pub mod legal_documents;
pub mod link;
pub mod mailboxes;
pub mod metrics;
pub mod moderation;
pub mod notification;
pub mod page;
pub mod pin;
pub mod quota;
pub mod release_note;
pub mod security;
pub mod setlist;
pub mod song;
pub mod status;
pub mod suggestion;
pub mod tonality;
pub mod tour;
pub mod trash;
pub mod user;
pub mod user_preferences;
