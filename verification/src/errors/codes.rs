//! Stable, machine-readable error codes.
//!
//! These are part of the public API contract: the frontend keys its
//! translated messages off them, so a code must never be renamed once
//! shipped. Add new ones instead.

use vstd::prelude::*;

verus! {

pub const INVALID_CREDENTIALS: &'static str = "INVALID_CREDENTIALS";

pub const ACCOUNT_BANNED: &'static str = "ACCOUNT_BANNED";

pub const ACCOUNT_DEACTIVATED: &'static str = "ACCOUNT_DEACTIVATED";

pub const SESSION_REVOKED: &'static str = "SESSION_REVOKED";

pub const PASSWORD_CHANGE_REQUIRED: &'static str = "PASSWORD_CHANGE_REQUIRED";

pub const WEAK_PASSWORD: &'static str = "WEAK_PASSWORD";

pub const PASSWORD_REUSED: &'static str = "PASSWORD_REUSED";

pub const IMPERSONATION_READ_ONLY: &'static str = "IMPERSONATION_READ_ONLY";

pub const QUOTA_EXCEEDED: &'static str = "QUOTA_EXCEEDED";

pub const INSUFFICIENT_ROLE: &'static str = "INSUFFICIENT_ROLE";

pub const CANNOT_TARGET_SELF: &'static str = "CANNOT_TARGET_SELF";

pub const LAST_ADMIN: &'static str = "LAST_ADMIN";

pub const SHARE_LOCKED: &'static str = "SHARE_LOCKED";

pub const USERNAME_COOLDOWN: &'static str = "USERNAME_COOLDOWN";

pub const USERNAME_TAKEN: &'static str = "USERNAME_TAKEN";

pub const INVITE_INVALID: &'static str = "INVITE_INVALID";

pub const ALREADY_MEMBER: &'static str = "ALREADY_MEMBER";

pub const PAYLOAD_TOO_LARGE: &'static str = "PAYLOAD_TOO_LARGE";

// Accounts and authentication.
pub const TOO_MANY_ATTEMPTS: &'static str = "TOO_MANY_ATTEMPTS";

pub const ACCOUNT_LOCKED: &'static str = "ACCOUNT_LOCKED";

pub const INVALID_TWO_FACTOR_CODE: &'static str = "INVALID_TWO_FACTOR_CODE";

pub const TWO_FACTOR_ALREADY_ENABLED: &'static str = "TWO_FACTOR_ALREADY_ENABLED";

pub const TWO_FACTOR_NOT_ENABLED: &'static str = "TWO_FACTOR_NOT_ENABLED";

pub const INVALID_CODE: &'static str = "INVALID_CODE";

pub const CODE_EXPIRED: &'static str = "CODE_EXPIRED";

pub const EMAIL_NOT_VERIFIED: &'static str = "EMAIL_NOT_VERIFIED";

pub const EMAIL_TAKEN: &'static str = "EMAIL_TAKEN";

pub const EMAIL_REQUIRED: &'static str = "EMAIL_REQUIRED";

pub const EMAIL_ALREADY_VERIFIED: &'static str = "EMAIL_ALREADY_VERIFIED";

pub const GOOGLE_SIGNIN_DISABLED: &'static str = "GOOGLE_SIGNIN_DISABLED";

pub const INVALID_GOOGLE_TOKEN: &'static str = "INVALID_GOOGLE_TOKEN";

pub const PASSWORD_NOT_SET: &'static str = "PASSWORD_NOT_SET";

pub const TERMS_NOT_ACCEPTED: &'static str = "TERMS_NOT_ACCEPTED";

pub const INVALID_IMAGE_URL: &'static str = "INVALID_IMAGE_URL";

/// A stored two-factor secret can't be decrypted (the data encryption
/// key changed). 500; details are only in the server log.
pub const TWO_FACTOR_UNAVAILABLE: &'static str = "TWO_FACTOR_UNAVAILABLE";

// Plans, promo codes and credits.
pub const FEATURE_NOT_IN_PLAN: &'static str = "FEATURE_NOT_IN_PLAN";

pub const PLAN_NOT_FOUND: &'static str = "PLAN_NOT_FOUND";

pub const PROMO_CODE_INVALID: &'static str = "PROMO_CODE_INVALID";

pub const PROMO_CODE_EXPIRED: &'static str = "PROMO_CODE_EXPIRED";

pub const PROMO_CODE_EXHAUSTED: &'static str = "PROMO_CODE_EXHAUSTED";

pub const PROMO_CODE_ALREADY_REDEEMED: &'static str = "PROMO_CODE_ALREADY_REDEEMED";

pub const PROMO_CODE_NOT_ELIGIBLE: &'static str = "PROMO_CODE_NOT_ELIGIBLE";

pub const INSUFFICIENT_CREDITS: &'static str = "INSUFFICIENT_CREDITS";

pub const REWARD_NOT_FOUND: &'static str = "REWARD_NOT_FOUND";

// Payments.
pub const PAYMENTS_UNAVAILABLE: &'static str = "PAYMENTS_UNAVAILABLE";

pub const BILLING_NOT_ENFORCED: &'static str = "BILLING_NOT_ENFORCED";

pub const PLAN_NOT_PURCHASABLE: &'static str = "PLAN_NOT_PURCHASABLE";

pub const PAID_SUBSCRIPTION_ACTIVE: &'static str = "PAID_SUBSCRIPTION_ACTIVE";

pub const NO_PAID_SUBSCRIPTION: &'static str = "NO_PAID_SUBSCRIPTION";

pub const PLAN_ALREADY_ACTIVE: &'static str = "PLAN_ALREADY_ACTIVE";

pub const SUBSCRIPTION_PAST_DUE: &'static str = "SUBSCRIPTION_PAST_DUE";

pub const SUBSCRIPTION_CANCELING: &'static str = "SUBSCRIPTION_CANCELING";

pub const PAYMENT_DECLINED: &'static str = "PAYMENT_DECLINED";

pub const PAYMENT_PROVIDER_ERROR: &'static str = "PAYMENT_PROVIDER_ERROR";

// Content.
pub const INVALID_LINK: &'static str = "INVALID_LINK";

pub const REPERTOIRE_PROTECTED: &'static str = "REPERTOIRE_PROTECTED";

pub const SONG_ALREADY_IN_SETLIST: &'static str = "SONG_ALREADY_IN_SETLIST";

pub const SUGGESTION_CLOSED: &'static str = "SUGGESTION_CLOSED";

pub const NOT_IN_TRASH: &'static str = "NOT_IN_TRASH";

pub const RESTORE_CONFLICT: &'static str = "RESTORE_CONFLICT";

pub const CHORDPRO_INVALID: &'static str = "CHORDPRO_INVALID";

pub const CHORDPRO_TOO_LARGE: &'static str = "CHORDPRO_TOO_LARGE";

// Moderation.
/// The flag was already resolved (actioned or dismissed) by someone else.
pub const FLAG_ALREADY_RESOLVED: &'static str = "FLAG_ALREADY_RESOLVED";

// Capacity.
pub const SERVICE_BUSY: &'static str = "SERVICE_BUSY";

// Communications (platform, v0.12).
/// An announcement that must stay visible (not dismissible, or waiting
/// for an acknowledgement) was dismissed.
pub const NOT_DISMISSIBLE: &'static str = "NOT_DISMISSIBLE";

/// A published announcement can't be changed this way (only its text,
/// button, end and display flags while active; nothing once ended or
/// archived).
pub const ANNOUNCEMENT_LOCKED: &'static str = "ANNOUNCEMENT_LOCKED";

/// An export that is too big to render.
pub const PDF_TOO_LARGE: &'static str = "PDF_TOO_LARGE";

/// A staff account that must turn on two-factor authentication first.
pub const STAFF_TWO_FACTOR_REQUIRED: &'static str = "STAFF_TWO_FACTOR_REQUIRED";

} // verus!
