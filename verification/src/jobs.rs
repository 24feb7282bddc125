//! Background jobs: what runs how often, and what each run keeps.
//!
//! Each job runs in its own task on a fixed interval. A failing run is logged
//! and the job simply tries again at the next tick: a job never panics and
//! never takes the server down.

use crate::email::worker::BATCH_SIZE;
use crate::models::page::{clamp_to, clamped};
use crate::time::{is_moment, shifted, NaiveDateTime, SECONDS_PER_DAY};
use vstd::prelude::*;

verus! {

/// Delivered, skipped or failed e-mails are kept this long for support,
/// then deleted (they hold the recipient's address and, for failures, the
/// provider's error).
pub const OUTBOX_RETENTION_DAYS: i64 = 30;

/// Read notifications are deleted after this many days...
pub const READ_NOTIFICATION_RETENTION_DAYS: i64 = 180;

/// ...and any notification after this many.
pub const NOTIFICATION_RETENTION_DAYS: i64 = 365;

/// Revoked or expired band invites are kept this long (the band's invite
/// history), then deleted.
pub const INACTIVE_INVITE_RETENTION_DAYS: i64 = 30;

/// Closed (accepted, rejected, withdrawn) song suggestions are kept this
/// long, then deleted with their votes.
pub const CLOSED_SUGGESTION_RETENTION_DAYS: i64 = 180;

/// Access records (IP address, typed sign-in identifiers) are kept for the
/// six months the Marco Civil da Internet (art. 15) requires, then
/// stripped from the audit log.
pub const ACCESS_RECORD_RETENTION_DAYS: i64 = 183;

/// Audit entries themselves are kept up to five years (Privacy Policy,
/// "Por quanto tempo guardamos"), then deleted.
pub const AUDIT_RETENTION_DAYS: i64 = 1_826;

/// Days an account may stay without verifying its e-mail (and without
/// any content) before it is deleted.
pub const UNVERIFIED_RETENTION_DAYS: i64 = 7;

/// Accounts deleted per batch (a run keeps going while batches are full).
pub const ACCOUNT_BATCH: i64 = 200;

/// Batches of accounts in one run, so it can't monopolize the pool.
pub const MAX_ACCOUNT_BATCHES: u32 = 25;

/// Batches of e-mails in one run, so it can't monopolize the task forever.
pub const MAX_EMAIL_BATCHES: u32 = 20;

/// The jobs there are.
#[derive(Debug, Clone, Copy, PartialEq, Eq, Structural)]
pub enum Job {
    /// E-mail delivery.
    EmailWorker,
    /// Expired one-time codes and sign-in challenges.
    PurgeExpiredCodes,
    /// Old delivered e-mails.
    OutboxCleanup,
    /// Subscription expiry and trial reminders (no-op unless enforced).
    SubscriptionMaintenance,
    /// Scheduled announcements.
    AnnouncementDelivery,
    /// Audit log retention.
    AuditRetention,
    /// Content retention: notifications, old invites and suggestions.
    ContentRetention,
    /// Trash purge.
    TrashPurge,
    /// Unverified accounts without content.
    UnverifiedAccountPurge,
}

/// The name of a job.
pub open spec fn job_name(job: Job) -> Seq<char> {
    match job {
        Job::EmailWorker => "email_worker"@,
        Job::PurgeExpiredCodes => "purge_expired_codes"@,
        Job::OutboxCleanup => "outbox_cleanup"@,
        Job::SubscriptionMaintenance => "subscription_maintenance"@,
        Job::AnnouncementDelivery => "announcement_delivery"@,
        Job::AuditRetention => "audit_retention"@,
        Job::ContentRetention => "content_retention"@,
        Job::TrashPurge => "trash_purge"@,
        Job::UnverifiedAccountPurge => "unverified_account_purge"@,
    }
}

/// Seconds between two runs of a job; `email_interval` is the configured one
/// of the e-mail worker.
pub open spec fn job_interval(job: Job, email_interval: u64) -> u64 {
    match job {
        Job::EmailWorker => email_interval,
        Job::PurgeExpiredCodes | Job::OutboxCleanup | Job::ContentRetention => 86_400,
        Job::SubscriptionMaintenance | Job::TrashPurge | Job::UnverifiedAccountPurge => 3_600,
        Job::AnnouncementDelivery => 60,
        Job::AuditRetention => 21_600,
    }
}

impl Job {
    /// Every job, in the order they are started.
    pub const ALL: [Job; 9] = [
        Job::EmailWorker,
        Job::PurgeExpiredCodes,
        Job::OutboxCleanup,
        Job::SubscriptionMaintenance,
        Job::AnnouncementDelivery,
        Job::AuditRetention,
        Job::ContentRetention,
        Job::TrashPurge,
        Job::UnverifiedAccountPurge,
    ];

    pub fn name(&self) -> (r: &'static str)
        ensures
            r@ == job_name(*self),
    {
        match self {
            Job::EmailWorker => "email_worker",
            Job::PurgeExpiredCodes => "purge_expired_codes",
            Job::OutboxCleanup => "outbox_cleanup",
            Job::SubscriptionMaintenance => "subscription_maintenance",
            Job::AnnouncementDelivery => "announcement_delivery",
            Job::AuditRetention => "audit_retention",
            Job::ContentRetention => "content_retention",
            Job::TrashPurge => "trash_purge",
            Job::UnverifiedAccountPurge => "unverified_account_purge",
        }
    }

    /// Seconds between two runs; `email_interval` is the configured one of the
    /// e-mail worker.
    pub fn interval_secs(&self, email_interval: u64) -> (r: u64)
        ensures
            r == job_interval(*self, email_interval),
    {
        match self {
            Job::EmailWorker => email_interval,
            Job::PurgeExpiredCodes | Job::OutboxCleanup | Job::ContentRetention => 86_400,
            Job::SubscriptionMaintenance | Job::TrashPurge | Job::UnverifiedAccountPurge => 3_600,
            Job::AnnouncementDelivery => 60,
            Job::AuditRetention => 21_600,
        }
    }
}

/// Every job there is gets started.
pub proof fn every_job_is_started(job: Job)
    ensures
        Job::ALL@.contains(job),
{
    let all = Job::ALL@;
    match job {
        Job::EmailWorker => assert(all[0] == job),
        Job::PurgeExpiredCodes => assert(all[1] == job),
        Job::OutboxCleanup => assert(all[2] == job),
        Job::SubscriptionMaintenance => assert(all[3] == job),
        Job::AnnouncementDelivery => assert(all[4] == job),
        Job::AuditRetention => assert(all[5] == job),
        Job::ContentRetention => assert(all[6] == job),
        Job::TrashPurge => assert(all[7] == job),
        Job::UnverifiedAccountPurge => assert(all[8] == job),
    }
}

/// The moment `days` before `now`: what is older has been kept long enough.
pub fn cutoff(now: NaiveDateTime, days: i64) -> (r: NaiveDateTime)
    requires
        0 <= days <= 3_650,
        is_moment(shifted(now@, -(days * SECONDS_PER_DAY))),
    ensures
        r@ == shifted(now@, -(days * SECONDS_PER_DAY)),
{
    let span = days * SECONDS_PER_DAY;
    now.plus(-span)
}

/// Days that something stays in the trash, as configured but within bounds.
pub open spec fn trash_days(configured: int) -> int {
    clamped(configured, 1, 3_650)
}

/// The moment before which what is in the trash is removed for good.
pub fn trash_cutoff(now: NaiveDateTime, retention_days: i64) -> (r: NaiveDateTime)
    requires
        is_moment(shifted(now@, -(3_650 * SECONDS_PER_DAY))),
    ensures
        r@ == shifted(now@, -(trash_days(retention_days as int) * SECONDS_PER_DAY)),
{
    let days = clamp_to(retention_days, 1, 3_650);
    let _bounds = now.seconds();
    cutoff(now, days)
}

/// When notifications are old enough to be deleted: read ones, and any.
pub fn notification_cutoffs(now: NaiveDateTime) -> (r: (NaiveDateTime, NaiveDateTime))
    requires
        is_moment(shifted(now@, -(NOTIFICATION_RETENTION_DAYS * SECONDS_PER_DAY))),
    ensures
        r.0@ == shifted(now@, -(READ_NOTIFICATION_RETENTION_DAYS * SECONDS_PER_DAY)),
        r.1@ == shifted(now@, -(NOTIFICATION_RETENTION_DAYS * SECONDS_PER_DAY)),
        r.1@ < r.0@,
{
    let _bounds = now.seconds();
    (
        cutoff(now, READ_NOTIFICATION_RETENTION_DAYS),
        cutoff(now, NOTIFICATION_RETENTION_DAYS),
    )
}

/// When access data is stripped from an audit entry, and when the entry is
/// deleted.
pub fn audit_cutoffs(now: NaiveDateTime) -> (r: (NaiveDateTime, NaiveDateTime))
    requires
        is_moment(shifted(now@, -(AUDIT_RETENTION_DAYS * SECONDS_PER_DAY))),
    ensures
        r.0@ == shifted(now@, -(ACCESS_RECORD_RETENTION_DAYS * SECONDS_PER_DAY)),
        r.1@ == shifted(now@, -(AUDIT_RETENTION_DAYS * SECONDS_PER_DAY)),
        r.1@ < r.0@,
{
    let _bounds = now.seconds();
    (cutoff(now, ACCESS_RECORD_RETENTION_DAYS), cutoff(now, AUDIT_RETENTION_DAYS))
}

/// Whether a run goes on after its `done`-th batch, which held `count`: a
/// batch that was not full was the last, and a run is bounded.
pub open spec fn goes_on(done: int, count: int, full: int, most: int) -> bool {
    count >= full && done < most
}

/// Whether the e-mail worker claims another batch after its `done`-th one,
/// which held `count` messages.
pub fn another_email_batch(done: u32, count: usize) -> (r: bool)
    ensures
        r == goes_on(done as int, count as int, BATCH_SIZE as int, MAX_EMAIL_BATCHES as int),
{
    count >= BATCH_SIZE as usize && done < MAX_EMAIL_BATCHES
}

/// Whether the purge of unverified accounts takes another batch after its
/// `done`-th one, which held `count` accounts.
pub fn another_account_batch(done: u32, count: usize) -> (r: bool)
    ensures
        r == goes_on(done as int, count as int, ACCOUNT_BATCH as int, MAX_ACCOUNT_BATCHES as int),
{
    count >= ACCOUNT_BATCH as usize && done < MAX_ACCOUNT_BATCHES
}

/// A run of batches ends: after the bound it never goes on.
pub proof fn runs_are_bounded(done: int, count: int, full: int, most: int)
    requires
        done >= most,
    ensures
        !goes_on(done, count, full, most),
{
}

} // verus!
