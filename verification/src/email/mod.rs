//! Transactional e-mail: what every message says, how it is written out, and
//! the rules of the outbox and its delivery.

pub mod content;
pub mod escaping;
pub mod markup;
pub mod notices;
pub mod notification_text;
pub mod outbox;
pub mod payload;
pub mod priority;
pub mod render;
pub mod templates;
pub mod unsubscribe;
pub mod wording;
pub mod worker;
