//! The staff finance report: recurring revenue, subscribers and payments.

use crate::ids::Uuid;
use crate::time::NaiveDateTime;
use vstd::prelude::*;

verus! {

/// What every "net" amount of the report means.
pub const NET_DEFINITION: &'static str = "gross - refunds - disputes (before Stripe fees and taxes)";

/// Paying subscribers of one plan and interval.
#[derive(Debug, Clone)]
pub struct PlanRevenue {
    pub plan_code: String,
    /// `monthly` or `yearly`.
    pub interval: String,
    pub subscribers: i64,
    /// Monthly recurring revenue at the price each subscriber is charged
    /// (the plan's list price when unknown), in minor units (a yearly price
    /// counts one twelfth).
    pub mrr_cents: i64,
}

/// Money received in one calendar month (report time zone).
#[derive(Debug, Clone)]
pub struct MonthRevenue {
    /// `YYYY-MM`.
    pub month: String,
    pub gross_cents: i64,
    /// Refunds made that month (whatever month the payment was).
    pub refunded_cents: i64,
    /// Payments of that month taken back by a card dispute.
    pub disputed_cents: i64,
    /// Gross − refunds − disputes, before fees (see `net_definition`).
    pub net_cents: i64,
    /// Stripe's fees on that month's payments, where known.
    pub fees_cents: i64,
    pub payments: i64,
    /// Accounts whose first payment was that month.
    pub new_subscribers: i64,
    /// Paid subscriptions that ended that month.
    pub churned: i64,
}

/// One payment, for the recent-payments table.
#[derive(Debug, Clone)]
pub struct PaymentRow {
    pub id: Uuid,
    pub invoice_id: String,
    /// Naive UTC.
    pub paid_at: NaiveDateTime,
    /// `None` once the account was deleted.
    pub user_id: Option<Uuid>,
    pub username: Option<String>,
    pub plan_code: Option<String>,
    pub interval: Option<String>,
    pub amount_cents: i64,
    pub refunded_cents: i64,
    pub disputed_cents: i64,
    /// Stripe's fee, when known.
    pub fee_cents: Option<i64>,
    pub currency: String,
}

/// Received money over a few standard windows (net, see
/// `net_definition`).
#[derive(Debug, Clone, Copy, Default)]
pub struct RevenueTotals {
    pub this_month_cents: i64,
    pub last_month_cents: i64,
    pub last_12_months_cents: i64,
    pub all_time_cents: i64,
    pub refunded_this_month_cents: i64,
    pub disputed_this_month_cents: i64,
    /// Stripe's known fees on this month's payments.
    pub fees_this_month_cents: i64,
}

/// `POST /admin/finance/sync`.
#[derive(Debug, Clone, Default)]
pub struct FinanceSyncPayload {
    /// The `cursor` of the previous call, to carry on where it stopped.
    pub cursor: Option<String>,
}

/// `POST /admin/finance/sync`: what this call did. While `done` is false,
/// call again with `cursor`.
#[derive(Debug, Clone)]
pub struct FinanceSyncResult {
    /// Paid invoices read from the provider.
    pub scanned: i64,
    /// Payments not known before.
    pub imported: i64,
    /// Payments whose refunded amount was brought up to date.
    pub refunds_applied: i64,
    pub done: bool,
    pub cursor: Option<String>,
}

} // verus!
