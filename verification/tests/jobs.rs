use setlyst::jobs::{
    another_account_batch, another_email_batch, audit_cutoffs, cutoff, notification_cutoffs,
    trash_cutoff, Job, OUTBOX_RETENTION_DAYS,
};
use setlyst::time::NaiveDateTime;

fn moment(s: &str) -> NaiveDateTime {
    NaiveDateTime::parse(s).unwrap()
}

#[test]
fn jobs_run_at_their_intervals() {
    assert_eq!(Job::ALL.len(), 9);
    assert_eq!(Job::EmailWorker.name(), "email_worker");
    assert_eq!(Job::EmailWorker.interval_secs(15), 15);
    assert_eq!(Job::AnnouncementDelivery.interval_secs(15), 60);
    assert_eq!(Job::AuditRetention.interval_secs(15), 6 * 3600);
    assert_eq!(Job::ContentRetention.interval_secs(15), 24 * 3600);
    assert_eq!(Job::UnverifiedAccountPurge.interval_secs(15), 3600);
    assert_eq!(Job::UnverifiedAccountPurge.name(), "unverified_account_purge");
}

#[test]
fn retention_is_counted_in_days() {
    let now = moment("2026-10-01T12:00:00");
    assert_eq!(cutoff(now, OUTBOX_RETENTION_DAYS), moment("2026-09-01T12:00:00"));
    let (read, any) = notification_cutoffs(now);
    assert_eq!(any, moment("2025-10-01T12:00:00"));
    assert_eq!(read, moment("2026-04-04T12:00:00"));
    let (access, all) = audit_cutoffs(now);
    assert_eq!(access, moment("2026-04-01T12:00:00"));
    assert_eq!(all, moment("2021-10-01T12:00:00"));
    assert_eq!(trash_cutoff(now, 0), moment("2026-09-30T12:00:00"));
    assert_eq!(trash_cutoff(now, 30), moment("2026-09-01T12:00:00"));
    assert_eq!(trash_cutoff(now, i64::MAX), cutoff(now, 3_650));
}

#[test]
fn runs_stop_at_a_batch_that_is_not_full() {
    assert!(another_email_batch(1, 25));
    assert!(!another_email_batch(1, 24));
    assert!(!another_email_batch(20, 25));
    assert!(another_account_batch(24, 200));
    assert!(!another_account_batch(25, 200));
    assert!(!another_account_batch(1, 199));
}
