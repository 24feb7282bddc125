//! Stable action identifiers recorded in the audit log. Clients translate
//! them, so never rename one — add a new one instead.

use vstd::prelude::*;

verus! {

pub const USER_REGISTERED: &'static str = "user.registered";

pub const USER_CREATED: &'static str = "user.created";

pub const USER_UPDATED: &'static str = "user.updated";

pub const USER_ROLE_CHANGED: &'static str = "user.role_changed";

pub const USER_ACTIVATED: &'static str = "user.activated";

pub const USER_DEACTIVATED: &'static str = "user.deactivated";

pub const USER_BANNED: &'static str = "user.banned";

pub const USER_UNBANNED: &'static str = "user.unbanned";

pub const USER_DELETED: &'static str = "user.deleted";

pub const USER_PASSWORD_CHANGED: &'static str = "user.password_changed";

pub const USER_PASSWORD_RESET: &'static str = "user.password_reset";

pub const USER_SESSIONS_REVOKED: &'static str = "user.sessions_revoked";

pub const USER_QUOTAS_UPDATED: &'static str = "user.quotas_updated";

pub const USER_IMPERSONATED: &'static str = "user.impersonated";

pub const USER_LOGIN_FAILED: &'static str = "user.login_failed";

pub const BAND_UPDATED: &'static str = "band.updated";

pub const BAND_DELETED: &'static str = "band.deleted";

pub const BAND_MEMBER_ADDED: &'static str = "band.member_added";

pub const BAND_MEMBER_REMOVED: &'static str = "band.member_removed";

pub const BAND_MEMBER_ROLE_CHANGED: &'static str = "band.member_role_changed";

pub const BAND_OWNERSHIP_TRANSFERRED: &'static str = "band.ownership_transferred";

pub const SONG_UPDATED: &'static str = "song.updated";

pub const SONG_DELETED: &'static str = "song.deleted";

pub const SETLIST_UPDATED: &'static str = "setlist.updated";

pub const SETLIST_DELETED: &'static str = "setlist.deleted";

pub const SHARE_REVOKED: &'static str = "share.revoked";

pub const SHARE_UNLOCKED: &'static str = "share.unlocked";

pub const QUOTA_DEFAULTS_UPDATED: &'static str = "settings.quota_defaults_updated";

// Accounts (v0.12).

pub const USER_SELF_DELETED: &'static str = "user.self_deleted";

pub const USER_EMAIL_CHANGED: &'static str = "user.email_changed";

pub const USER_TWO_FACTOR_ENABLED: &'static str = "user.two_factor_enabled";

pub const USER_TWO_FACTOR_DISABLED: &'static str = "user.two_factor_disabled";

/// A wrong second factor outside sign-in (disabling 2FA, regenerating

/// recovery codes); `meta.context` says which.

pub const USER_SECOND_FACTOR_FAILED: &'static str = "user.second_factor_failed";

pub const USER_PASSWORD_RECOVERED: &'static str = "user.password_recovered";

pub const USER_LOGIN_LOCKED: &'static str = "user.login_locked";

pub const USER_TERMS_ACCEPTED: &'static str = "user.terms_accepted";

pub const USER_SUBSCRIPTION_GRANTED: &'static str = "user.subscription_granted";

pub const USER_SUBSCRIPTION_REVOKED: &'static str = "user.subscription_revoked";

pub const USER_CREDITS_ADJUSTED: &'static str = "user.credits_adjusted";

// Billing.

pub const BILLING_SETTINGS_UPDATED: &'static str = "billing.settings_updated";

pub const BILLING_PLAN_UPDATED: &'static str = "billing.plan_updated";

pub const BILLING_TRIALS_GRANTED: &'static str = "billing.trials_granted";

pub const FINANCE_SYNCED: &'static str = "finance.synced";

pub const PROMO_CREATED: &'static str = "promo.created";

pub const PROMO_UPDATED: &'static str = "promo.updated";

pub const PROMOTION_CREATED: &'static str = "promotion.created";

pub const PROMOTION_UPDATED: &'static str = "promotion.updated";

pub const PROMOTION_DELETED: &'static str = "promotion.deleted";

// Communications.

pub const ANNOUNCEMENT_CREATED: &'static str = "announcement.created";

pub const ANNOUNCEMENT_UPDATED: &'static str = "announcement.updated";

pub const ANNOUNCEMENT_PUBLISHED: &'static str = "announcement.published";

pub const ANNOUNCEMENT_ARCHIVED: &'static str = "announcement.archived";

pub const ANNOUNCEMENT_DELETED: &'static str = "announcement.deleted";

pub const RELEASE_NOTE_CREATED: &'static str = "release_note.created";

pub const RELEASE_NOTE_UPDATED: &'static str = "release_note.updated";

pub const RELEASE_NOTE_PUBLISHED: &'static str = "release_note.published";

pub const RELEASE_NOTE_UNPUBLISHED: &'static str = "release_note.unpublished";

pub const RELEASE_NOTE_DELETED: &'static str = "release_note.deleted";

// Moderation.

pub const MODERATION_DISMISSED: &'static str = "moderation.dismissed";

pub const MODERATION_AVATAR_REMOVED: &'static str = "moderation.avatar_removed";

pub const MODERATION_BAND_LOGO_REMOVED: &'static str = "moderation.band_logo_removed";

pub const MODERATION_USERNAME_RESET: &'static str = "moderation.username_reset";

pub const MODERATION_RESCAN: &'static str = "moderation.rescan";

// Account security (launch hardening).

/// A wrong password or re-auth code typed to confirm a sensitive

/// action while signed in; `meta.context` says which.

pub const USER_REAUTH_FAILED: &'static str = "user.reauth_failed";

/// Too many wrong confirmations in 24 hours: every session was

/// signed out.

pub const USER_REAUTH_SESSIONS_REVOKED: &'static str = "user.reauth_sessions_revoked";

pub const USER_PASSWORD_RESET_FAILED: &'static str = "user.password_reset_failed";

pub const USER_LOGIN_SUCCEEDED: &'static str = "user.login_succeeded";

pub const USER_IDENTITY_LINKED: &'static str = "user.identity_linked";

pub const USER_IDENTITY_UNLINKED: &'static str = "user.identity_unlinked";

pub const USER_RECOVERY_CODES_REGENERATED: &'static str = "user.recovery_codes_regenerated";

pub const USER_EMAIL_CHANGE_STARTED: &'static str = "user.email_change_started";

/// An unverified account lost its (never proven) address to the

/// person who proved they own it (Google sign-in).

pub const USER_EMAIL_DETACHED: &'static str = "user.email_detached";

/// First proof of ownership of the address through password recovery:

/// what the unproven owner set up (2FA, linked sign-ins) was removed.

pub const USER_SECURITY_RESET: &'static str = "user.security_reset";

pub const USER_COMMUNICATION_CHANGED: &'static str = "user.communication_changed";

/// Unverified account without content, deleted after 7 days.

pub const USER_UNVERIFIED_PURGED: &'static str = "user.unverified_purged";

/// A request made while viewing the platform as the target;

/// `meta.blocked` when it was refused (exports).

pub const USER_IMPERSONATED_READ: &'static str = "user.impersonated_read";

/// Staff opened private content (a song, a setlist, an account

/// overview).

pub const STAFF_CONTENT_VIEWED: &'static str = "staff.content_viewed";

} // verus!
