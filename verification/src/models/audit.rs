//! The audit log.

pub use crate::models::{actions, legal_documents};
use crate::ids::Uuid;
use crate::json::JsonValue;
use crate::time::NaiveDateTime;
use vstd::prelude::*;

verus! {

/// One consent given (or withdrawn), with its evidence (LGPD art. 8, § 2).
#[derive(Debug, Clone)]
pub struct LegalAcceptance {
    pub user_id: Uuid,
    pub document: &'static str,
    pub version: String,
    pub accepted: bool,
    /// `register`, `google_signup`, `accept_terms`, `settings`,
    /// `unsubscribe_link`.
    pub source: &'static str,
    pub ip_address: Option<String>,
    pub user_agent: Option<String>,
}

#[derive(Debug, Clone)]
pub struct AuditLogEntry {
    pub id: Uuid,
    pub actor_id: Option<Uuid>,
    pub actor_username: Option<String>,
    pub impersonator_id: Option<Uuid>,
    pub action: String,
    pub target_type: Option<String>,
    pub target_id: Option<Uuid>,
    pub target_label: Option<String>,
    pub metadata: JsonValue,
    pub ip_address: Option<String>,
    pub created_at: NaiveDateTime,
}

#[derive(Debug, Clone)]
pub struct AuditLogQuery {
    pub page: Option<i64>,
    pub per_page: Option<i64>,
    /// Only entries performed by this user.
    pub actor_id: Option<Uuid>,
    /// Only entries about this record (user, band, setlist...).
    pub target_id: Option<Uuid>,
    /// Exact action (e.g. `user.banned`) or a prefix ending in `.` (e.g. `user.`).
    pub action: Option<String>,
    /// Free-text search over actor/target labels.
    pub q: Option<String>,
}

} // verus!
