//! Signing in.

use crate::ids::Uuid;
use crate::text::{has, opt_text};
use crate::time::NaiveDateTime;
use crate::validation::{ValidationErrors, Wrong, has_length, judged, length_within, no_errors, opt_has_length, opt_length_within, unless};
use vstd::prelude::*;

pub mod access;
pub mod token;

verus! {

/// Sign-in credentials. Only bounded in length here — strength rules are
/// deliberately *not* applied at sign-in, so an account whose password
/// predates the current policy can still sign in and be walked through a
/// mandatory change (see `controllers::auth::login`).
#[derive(Debug, Clone)]
pub struct LoginPayload {
    /// Username or e-mail address (case-insensitive).
    pub username: String,
    pub password: String,
}

impl LoginPayload {
    /// The rules that this payload breaks.
    pub open spec fn broken_rules(self) -> Wrong {
        let e = no_errors();
        let e = unless(e, length_within(self.username@, 1, 254), "username"@, "length"@, Some("Username is required."@));
        unless(e, length_within(self.password@, 1, 256), "password"@, "length"@, Some("Password is required."@))
    }

    /// Checks the payload against its rules.
    pub fn validate(&self) -> (r: Result<(), ValidationErrors>)
        ensures
            judged(r, self.broken_rules()),
    {
        let mut e = ValidationErrors::new();
        e.check(has_length(self.username.as_str(), 1, 254), "username", "length", Some("Username is required."));
        e.check(has_length(self.password.as_str(), 1, 256), "password", "length", Some("Password is required."));
        e.into_result()
    }
}

#[derive(Debug, Clone)]
pub struct LoginResponse {
    pub token: String,
    /// `true` when this is the account's very first login ever — lets the
    /// frontend skip the "welcome back" toast for a brand new account.
    pub is_first_login: bool,
    /// `true` when the account must choose a new password before using
    /// the platform (temporary password, or one below the current policy).
    /// Every endpoint except the password change itself answers
    /// `PASSWORD_CHANGE_REQUIRED` until then.
    pub must_change_password: bool,
    /// Always `false` here: when a second factor is needed the sign-in
    /// answers with a [`TwoFactorChallengeResponse`] instead.
    pub two_factor_required: bool,
    /// `true` when the account accepted the terms currently in force.
    /// Otherwise the client asks for consent (`POST /users/me/accept-terms`).
    pub terms_accepted: bool,
    pub email_verified: bool,
    /// `true` when this sign-in created the account (Google sign-in).
    pub is_new_account: bool,
}

/// First step of a sign-in to an account with two-factor authentication:
/// the credentials were right, and `challenge_token` must now be sent to
/// `POST /auth/login/2fa` together with a code.
#[derive(Debug, Clone)]
pub struct TwoFactorChallengeResponse {
    /// Always `true`.
    pub two_factor_required: bool,
    pub challenge_token: String,
    pub challenge_expires_at: NaiveDateTime,
}

/// What a sign-in answers: a session, or a second-factor challenge.
#[derive(Debug, Clone)]
pub enum LoginOutcome {
    Session(LoginResponse),
    TwoFactor(TwoFactorChallengeResponse),
}

/// Second step of a sign-in: exactly one of `code` (authenticator app) or
/// `recovery_code`.
#[derive(Debug, Clone)]
pub struct LoginTwoFactorPayload {
    pub challenge_token: String,
    pub code: Option<String>,
    pub recovery_code: Option<String>,
}

impl LoginTwoFactorPayload {
    /// The rules that this payload breaks.
    pub open spec fn broken_rules(self) -> Wrong {
        let e = no_errors();
        let e = unless(e, length_within(self.challenge_token@, 1, 128), "challenge_token"@, "length"@, None);
        let e = unless(e, opt_length_within(opt_text(self.code), 6, 8), "code"@, "length"@, None);
        unless(e, opt_length_within(opt_text(self.recovery_code), 8, 16), "recovery_code"@, "length"@, None)
    }

    /// Checks the payload against its rules.
    pub fn validate(&self) -> (r: Result<(), ValidationErrors>)
        ensures
            judged(r, self.broken_rules()),
    {
        let mut e = ValidationErrors::new();
        e.check(has_length(self.challenge_token.as_str(), 1, 128), "challenge_token", "length", None);
        e.check(opt_has_length(&self.code, 6, 8), "code", "length", None);
        e.check(opt_has_length(&self.recovery_code, 8, 16), "recovery_code", "length", None);
        e.into_result()
    }
}

/// Body of `POST /auth/password/forgot`.
#[derive(Debug, Clone)]
pub struct ForgotPasswordPayload {
    /// Username or e-mail address.
    pub identifier: String,
}

impl ForgotPasswordPayload {
    /// The rules that this payload breaks.
    pub open spec fn broken_rules(self) -> Wrong {
        let e = no_errors();
        unless(e, length_within(self.identifier@, 1, 254), "identifier"@, "length"@, None)
    }

    /// Checks the payload against its rules.
    pub fn validate(&self) -> (r: Result<(), ValidationErrors>)
        ensures
            judged(r, self.broken_rules()),
    {
        let mut e = ValidationErrors::new();
        e.check(has_length(self.identifier.as_str(), 1, 254), "identifier", "length", None);
        e.into_result()
    }
}

/// Body of `POST /auth/password/reset`.
#[derive(Debug, Clone)]
pub struct ResetPasswordPayload {
    pub identifier: String,
    pub code: String,
    /// Checked against the password policy only *after* the code: an
    /// earlier `WEAK_PASSWORD` would tell whether the identifier exists.
    pub new_password: String,
}

impl ResetPasswordPayload {
    /// The rules that this payload breaks.
    pub open spec fn broken_rules(self) -> Wrong {
        let e = no_errors();
        let e = unless(e, length_within(self.identifier@, 1, 254), "identifier"@, "length"@, None);
        let e = unless(e, length_within(self.code@, 6, 6), "code"@, "length"@, Some("The code has 6 digits."@));
        unless(e, length_within(self.new_password@, 0, 1024), "new_password"@, "length"@, None)
    }

    /// Checks the payload against its rules.
    pub fn validate(&self) -> (r: Result<(), ValidationErrors>)
        ensures
            judged(r, self.broken_rules()),
    {
        let mut e = ValidationErrors::new();
        e.check(has_length(self.identifier.as_str(), 1, 254), "identifier", "length", None);
        e.check(has_length(self.code.as_str(), 6, 6), "code", "length", Some("The code has 6 digits."));
        e.check(has_length(self.new_password.as_str(), 0, 1024), "new_password", "length", None);
        e.into_result()
    }
}

/// Body of `POST /auth/oauth/google`.
#[derive(Debug, Clone)]
pub struct GoogleSignInPayload {
    /// The ID token (JWT) obtained from Google Identity Services.
    pub id_token: String,
    pub referral_code: Option<String>,
    /// Required (`true`) to create a new account.
    pub accept_terms: bool,
    /// Required (`true`) to create a new account
    /// (`AGE_CONFIRMATION_REQUIRED`): the age declaration. Ignored for
    /// existing accounts.
    pub age_confirmed: bool,
    pub marketing_opt_in: bool,
    pub locale: Option<String>,
}

impl GoogleSignInPayload {
    /// The rules that this payload breaks.
    pub open spec fn broken_rules(self) -> Wrong {
        let e = no_errors();
        let e = unless(e, length_within(self.id_token@, 20, 8192), "id_token"@, "length"@, None);
        let e = unless(e, opt_length_within(opt_text(self.referral_code), 0, 32), "referral_code"@, "length"@, None);
        unless(e, opt_length_within(opt_text(self.locale), 0, 10), "locale"@, "length"@, None)
    }

    /// Checks the payload against its rules.
    pub fn validate(&self) -> (r: Result<(), ValidationErrors>)
        ensures
            judged(r, self.broken_rules()),
    {
        let mut e = ValidationErrors::new();
        e.check(has_length(self.id_token.as_str(), 20, 8192), "id_token", "length", None);
        e.check(opt_has_length(&self.referral_code, 0, 32), "referral_code", "length", None);
        e.check(opt_has_length(&self.locale, 0, 10), "locale", "length", None);
        e.into_result()
    }
}

/// Answer of the password reset: every session was revoked.
#[derive(Debug, Clone)]
pub struct ReauthRequiredResponse {
    pub reauth_required: bool,
}

/// Response of `POST /users/{id}/impersonate`.
#[derive(Debug, Clone)]
pub struct ImpersonationResponse {
    /// A short-lived, read-only token acting as the target user.
    pub token: String,
    pub expires_at: NaiveDateTime,
    pub user_id: Uuid,
    pub username: String,
}

} // verus!
