//! Delivery priority of queued messages (`email_outbox.priority`); lower
//! is sent first, so a bulk send never delays a code that expires in
//! minutes.

use vstd::prelude::*;

verus! {

/// One-time codes and security notices.
pub const SECURITY: i16 = 0;

/// Account and billing messages.
pub const ACCOUNT: i16 = 3;

/// Everything else (copies of in-app notifications). Also the column
/// default.
pub const NORMAL: i16 = 5;

/// Announcements and release notes, sent to many users at once.
pub const BULK: i16 = 9;

} // verus!
