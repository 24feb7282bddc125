//! Account security: e-mail verification and change, two-factor
//! authentication and linked sign-in providers.

use crate::models::user::{email_error, validate_email_address};
use crate::ids::Uuid;
use crate::text::{has, opt_text};
use crate::time::NaiveDateTime;
use crate::validation::{ValidationErrors, Wrong, has_length, judged, length_within, no_errors, noted, opt_has_length, opt_length_within, unless};
use vstd::prelude::*;

verus! {

/// What a one-time e-mail code is for (`verification_purpose` in SQL).
#[derive(Debug, Clone, Copy, PartialEq, Eq, Structural)]
pub enum VerificationPurpose {
    EmailVerification,
    PasswordReset,
    EmailChange,
}

/// The key of each [`VerificationPurpose`].
pub open spec fn verification_purpose_key(x: VerificationPurpose) -> Seq<char> {
    match x {
        VerificationPurpose::EmailVerification => "email_verification"@,
        VerificationPurpose::PasswordReset => "password_reset"@,
        VerificationPurpose::EmailChange => "email_change"@,
    }
}

/// No two of them share a key.
pub proof fn verification_purpose_keys_are_distinct(a: VerificationPurpose, b: VerificationPurpose)
    ensures
        verification_purpose_key(a) == verification_purpose_key(b) ==> a == b,
{
    reveal_strlit("email_verification");
    reveal_strlit("password_reset");
    reveal_strlit("email_change");
    assert("email_verification"@.len() != "password_reset"@.len());
    assert("email_verification"@.len() != "email_change"@.len());
    assert("password_reset"@.len() != "email_change"@.len());
}

impl VerificationPurpose {
    pub fn key(&self) -> (r: &'static str)
        ensures
            r@ == verification_purpose_key(*self),
    {
        match self {
            VerificationPurpose::EmailVerification => "email_verification",
            VerificationPurpose::PasswordReset => "password_reset",
            VerificationPurpose::EmailChange => "email_change",
        }
    }
}

/// A stored one-time code (the plain code only exists in the e-mail).
#[derive(Debug, Clone)]
pub struct VerificationCode {
    pub id: Uuid,
    pub user_id: Uuid,
    pub purpose: VerificationPurpose,
    pub code_hash: String,
    pub target_email: String,
    pub attempts: i32,
    pub expires_at: NaiveDateTime,
    pub consumed_at: Option<NaiveDateTime>,
    pub created_at: NaiveDateTime,
}

/// A pending second sign-in step.
#[derive(Debug, Clone)]
pub struct LoginChallenge {
    pub id: Uuid,
    pub user_id: Uuid,
    pub method: String,
    pub attempts: i32,
    pub expires_at: NaiveDateTime,
    pub consumed_at: Option<NaiveDateTime>,
}

/// Answer of the endpoints that send a code by e-mail.
#[derive(Debug, Clone)]
pub struct CodeSentResponse {
    /// When the code stops working.
    pub expires_at: NaiveDateTime,
    /// Seconds before another code may be requested.
    pub resend_after_seconds: i64,
}

/// A 6-digit code received by e-mail.
#[derive(Debug, Clone)]
pub struct EmailCodePayload {
    pub code: String,
}

impl EmailCodePayload {
    /// The rules that this payload breaks.
    pub open spec fn broken_rules(self) -> Wrong {
        let e = no_errors();
        unless(e, length_within(self.code@, 6, 6), "code"@, "length"@, Some("The code has 6 digits."@))
    }

    /// Checks the payload against its rules.
    pub fn validate(&self) -> (r: Result<(), ValidationErrors>)
        ensures
            judged(r, self.broken_rules()),
    {
        let mut e = ValidationErrors::new();
        e.check(has_length(self.code.as_str(), 6, 6), "code", "length", Some("The code has 6 digits."));
        e.into_result()
    }
}

/// Body of `POST /users/me/email/change`.
#[derive(Debug, Clone)]
pub struct EmailChangePayload {
    pub new_email: String,
    /// Required when the account has a password.
    pub password: Option<String>,
}

impl EmailChangePayload {
    /// The rules that this payload breaks.
    pub open spec fn broken_rules(self) -> Wrong {
        let e = no_errors();
        let e = noted(e, "new_email"@, email_error(self.new_email@));
        unless(e, opt_length_within(opt_text(self.password), 0, 256), "password"@, "length"@, None)
    }

    /// Checks the payload against its rules.
    pub fn validate(&self) -> (r: Result<(), ValidationErrors>)
        ensures
            judged(r, self.broken_rules()),
    {
        let mut e = ValidationErrors::new();
        e.note("new_email", validate_email_address(self.new_email.as_str()));
        e.check(opt_has_length(&self.password, 0, 256), "password", "length", None);
        e.into_result()
    }
}

/// `GET /users/me/security`.
#[derive(Debug, Clone)]
pub struct SecurityOverview {
    pub two_factor_enabled: bool,
    pub two_factor_enabled_at: Option<NaiveDateTime>,
    pub recovery_codes_remaining: i64,
    pub password_set: bool,
    pub email_verified: bool,
    pub has_google: bool,
    pub last_login_at: Option<NaiveDateTime>,
}

/// Password confirmation for sensitive changes (required when the account
/// has a password).
#[derive(Debug, Clone, Default)]
pub struct PasswordConfirmationPayload {
    pub password: Option<String>,
}

impl PasswordConfirmationPayload {
    /// The rules that this payload breaks.
    pub open spec fn broken_rules(self) -> Wrong {
        let e = no_errors();
        unless(e, opt_length_within(opt_text(self.password), 0, 256), "password"@, "length"@, None)
    }

    /// Checks the payload against its rules.
    pub fn validate(&self) -> (r: Result<(), ValidationErrors>)
        ensures
            judged(r, self.broken_rules()),
    {
        let mut e = ValidationErrors::new();
        e.check(opt_has_length(&self.password, 0, 256), "password", "length", None);
        e.into_result()
    }
}

/// Answer of `POST /users/me/2fa/setup`.
#[derive(Debug, Clone)]
pub struct TwoFactorSetupResponse {
    /// Base32 secret, for manual entry in the authenticator app.
    pub secret: String,
    /// The same secret as an `otpauth://` URI, rendered as a QR code.
    pub otpauth_url: String,
    /// The pending secret must be confirmed before this moment.
    pub expires_at: NaiveDateTime,
}

/// A code from the authenticator app (or, where accepted, a recovery code).
#[derive(Debug, Clone)]
pub struct TwoFactorCodePayload {
    pub code: String,
}

impl TwoFactorCodePayload {
    /// The rules that this payload breaks.
    pub open spec fn broken_rules(self) -> Wrong {
        let e = no_errors();
        unless(e, length_within(self.code@, 6, 16), "code"@, "length"@, None)
    }

    /// Checks the payload against its rules.
    pub fn validate(&self) -> (r: Result<(), ValidationErrors>)
        ensures
            judged(r, self.broken_rules()),
    {
        let mut e = ValidationErrors::new();
        e.check(has_length(self.code.as_str(), 6, 16), "code", "length", None);
        e.into_result()
    }
}

/// Body of `POST /users/me/2fa/disable`.
#[derive(Debug, Clone)]
pub struct TwoFactorDisablePayload {
    pub password: Option<String>,
    /// A current code from the app, or an unused recovery code.
    pub code: String,
}

impl TwoFactorDisablePayload {
    /// The rules that this payload breaks.
    pub open spec fn broken_rules(self) -> Wrong {
        let e = no_errors();
        let e = unless(e, opt_length_within(opt_text(self.password), 0, 256), "password"@, "length"@, None);
        unless(e, length_within(self.code@, 6, 16), "code"@, "length"@, None)
    }

    /// Checks the payload against its rules.
    pub fn validate(&self) -> (r: Result<(), ValidationErrors>)
        ensures
            judged(r, self.broken_rules()),
    {
        let mut e = ValidationErrors::new();
        e.check(opt_has_length(&self.password, 0, 256), "password", "length", None);
        e.check(has_length(self.code.as_str(), 6, 16), "code", "length", None);
        e.into_result()
    }
}

/// Freshly issued recovery codes. Shown once: only their hashes are kept.
#[derive(Debug, Clone)]
pub struct RecoveryCodesResponse {
    pub recovery_codes: Vec<String>,
}

/// A sign-in provider linked to the account.
#[derive(Debug, Clone)]
pub struct LinkedIdentity {
    /// `google`.
    pub provider: String,
    pub email: Option<String>,
    pub created_at: NaiveDateTime,
    pub last_used_at: Option<NaiveDateTime>,
}

} // verus!
