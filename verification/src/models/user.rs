//! Accounts.

use crate::export::chords::find_last;
use crate::models::admin::{pattern_of, search_pattern};
use crate::models::user_preferences::{is_supported_language, language_supported};
use crate::ids::Uuid;
use crate::text::{
    char_is_alnum, char_is_control, chars, copy_of, find_char, in_lower_case, index_of, is_alnum, is_control, last_index_of, lemma_index_of, lemma_texts_push, lower_case, opt_text, piece, replace, replaced, same, squeeze, squeezed, texts, trim, trimmed,
};
use crate::time::NaiveDateTime;
use crate::validation::{ErrorView, ValidationError, ValidationErrors, Wrong, has_length, judged, length_within, no_errors, noted, opt_has_length, opt_length_within, unless, verdict};
use vstd::prelude::*;

verus! {

/// Version of the Terms of Use / Privacy Policy currently in force (shared
/// with the web's `LEGAL_VERSION`). Accounts whose `terms_version` differs
/// are asked to accept the new version.
pub const CURRENT_TERMS_VERSION: &'static str = "2026-09-24";

/// Longest accepted e-mail address (RFC 5321 path limit).
pub const MAX_EMAIL_LENGTH: usize = 254;

pub const MAX_BIO_LENGTH: usize = 280;

pub const MAX_LOCATION_LENGTH: usize = 80;

pub const MAX_INSTRUMENTS: usize = 8;

pub const MAX_INSTRUMENT_LENGTH: usize = 30;

#[derive(Debug, Clone, Copy, PartialEq, Eq, Structural)]
pub enum Role {
    User,
    Moderator,
    Admin,
}

impl Default for Role {
    fn default() -> (r: Self)
        ensures
            r == Role::User,
    {
        Role::User
    }
}

/// The rank of a role.
pub open spec fn role_rank(role: Role) -> u8 {
    match role {
        Role::User => 0,
        Role::Moderator => 1,
        Role::Admin => 2,
    }
}

pub open spec fn staff(role: Role) -> bool {
    role == Role::Moderator || role == Role::Admin
}

/// `true` when a holder of `a` may manage an account holding `b`.
pub open spec fn may_manage(a: Role, b: Role) -> bool {
    staff(a) && role_rank(a) > role_rank(b)
}

/// The key of each [`Role`].
pub open spec fn role_key(x: Role) -> Seq<char> {
    match x {
        Role::User => "user"@,
        Role::Moderator => "moderator"@,
        Role::Admin => "admin"@,
    }
}

impl Role {
    /// The name of the role.
    pub fn name(&self) -> (r: &'static str)
        ensures
            r@ == role_key(*self),
    {
        match self {
            Role::User => "user",
            Role::Moderator => "moderator",
            Role::Admin => "admin",
        }
    }
}

impl Role {
    /// Rank used for "may act on" comparisons: staff can only manage
    /// accounts strictly below their own rank.
    pub fn rank(&self) -> (r: u8)
        ensures
            r == role_rank(*self),
    {
        match self {
            Role::User => 0,
            Role::Moderator => 1,
            Role::Admin => 2,
        }
    }

    pub fn is_staff(&self) -> (r: bool)
        ensures
            r == staff(*self),
    {
        matches!(self, Role::Moderator | Role::Admin)
    }

    /// `true` when a holder of `self` may manage an account holding
    /// `target`. Admins can manage moderators and users; moderators can
    /// only manage regular users; nobody manages a peer or a superior.
    pub fn outranks(&self, target: &Role) -> (r: bool)
        ensures
            r == may_manage(*self, *target),
    {
        self.is_staff() && self.rank() > target.rank()
    }
}

/// Nobody manages a peer or a superior, and regular users manage nobody.
pub proof fn nobody_manages_a_peer_or_superior(a: Role, b: Role, c: Role)
    ensures
        !may_manage(a, a),
        may_manage(a, b) ==> !may_manage(b, a),
        may_manage(a, b) && may_manage(b, c) ==> may_manage(a, c),
        !may_manage(Role::User, b),
        may_manage(Role::Admin, b) <==> b != Role::Admin,
{
}

#[derive(Debug, Clone, Copy, PartialEq, Eq, Structural)]
pub enum Status {
    Active,
    Inactive,
}

impl Default for Status {
    fn default() -> (r: Self)
        ensures
            r == Status::Active,
    {
        Status::Active
    }
}

/// The suspension in effect at the moment `now`: `Some(None)` is permanent.
pub open spec fn ban_at(
    banned_at: Option<NaiveDateTime>,
    banned_until: Option<NaiveDateTime>,
    now: int,
) -> Option<Option<NaiveDateTime>> {
    if banned_at is None {
        None
    } else {
        match banned_until {
            None => Some(None),
            Some(until) => if until@ > now {
                Some(Some(until))
            } else {
                None
            },
        }
    }
}

/// Returns the active suspension described by `banned_at`/`banned_until`,
/// if any: `Some(None)` is permanent, `Some(Some(until))` is temporary,
/// `None` means not suspended (never, or already expired).
pub fn active_ban(
    banned_at: Option<NaiveDateTime>,
    banned_until: Option<NaiveDateTime>,
    now: NaiveDateTime,
) -> (r: Option<Option<NaiveDateTime>>)
    ensures
        r == ban_at(banned_at, banned_until, now@),
{
    if banned_at.is_none() {
        return None;
    }
    match banned_until {
        None => Some(None),
        Some(until) => if now.is_before(&until) {
            Some(Some(until))
        } else {
            None
        },
    }
}

/// The full account row, including secrets. Never serialized to clients —
/// use [`UserPublic`] for responses.
#[derive(Debug, Clone)]
pub struct User {
    pub id: Uuid,
    pub username: String,
    pub email: Option<String>,
    pub password_hash: String,
    pub first_name: Option<String>,
    pub last_name: Option<String>,
    pub role: Role,
    pub status: Status,
    pub token_version: i32,
    pub must_change_password: bool,
    pub banned_at: Option<NaiveDateTime>,
    pub banned_until: Option<NaiveDateTime>,
    pub ban_reason: Option<String>,
    /// When the username was last changed — `None` if it has never been
    /// changed since the account was created. Governs the 90-day cooldown
    /// between changes.
    pub username_changed_at: Option<NaiveDateTime>,
    pub created_at: NaiveDateTime,
    pub updated_at: NaiveDateTime,
    pub email_verified_at: Option<NaiveDateTime>,
    /// `false` for accounts created through Google that never chose a
    /// password (their hash is random and unusable).
    pub password_set: bool,
    /// Encrypted TOTP seed (see `utils::crypto`), set once 2FA is enabled.
    pub totp_secret_enc: Option<String>,
    pub totp_enabled_at: Option<NaiveDateTime>,
    pub totp_pending_secret_enc: Option<String>,
    pub totp_pending_created_at: Option<NaiveDateTime>,
    /// Last TOTP time step accepted, so a code can't be used twice.
    pub totp_last_step: Option<i64>,
    pub failed_login_count: i32,
    pub locked_until: Option<NaiveDateTime>,
    pub terms_accepted_at: Option<NaiveDateTime>,
    pub terms_version: Option<String>,
    pub referral_code: Option<String>,
    pub avatar_url: Option<String>,
    /// Last password change (sign-in challenges older than this are
    /// refused).
    pub password_changed_at: Option<NaiveDateTime>,
}

/// `u` is a new account.
pub open spec fn is_new_user(
    u: User,
    username: Seq<char>,
    email: Option<Seq<char>>,
    password_hash: Seq<char>,
    first_name: Option<Seq<char>>,
    last_name: Option<Seq<char>>,
    role: Option<Role>,
    status: Option<Status>,
    id: Uuid,
    now: NaiveDateTime,
) -> bool {
    &&& u.id == id
    &&& u.username@ == username
    &&& opt_text(u.email) == email
    &&& u.password_hash@ == password_hash
    &&& opt_text(u.first_name) == first_name
    &&& opt_text(u.last_name) == last_name
    &&& u.role == match role {
        Some(r) => r,
        None => Role::User,
    }
    &&& u.status == match status {
        Some(s) => s,
        None => Status::Active,
    }
    &&& u.token_version == 0
    &&& !u.must_change_password
    &&& u.banned_at is None
    &&& u.banned_until is None
    &&& u.ban_reason is None
    &&& u.username_changed_at is None
    &&& u.created_at == now
    &&& u.updated_at == now
    &&& u.email_verified_at is None
    &&& u.password_set
    &&& u.totp_secret_enc is None
    &&& u.totp_enabled_at is None
    &&& u.totp_pending_secret_enc is None
    &&& u.totp_pending_created_at is None
    &&& u.totp_last_step is None
    &&& u.failed_login_count == 0
    &&& u.locked_until is None
    &&& u.terms_accepted_at is None
    &&& u.terms_version is None
    &&& u.referral_code is None
    &&& u.avatar_url is None
    &&& u.password_changed_at is None
}

impl User {
    /// The account with this identity, made at the moment `now`.
    pub fn made(
        username: &str,
        email: Option<String>,
        password_hash: &str,
        first_name: Option<String>,
        last_name: Option<String>,
        role: Option<Role>,
        status: Option<Status>,
        id: Uuid,
        now: NaiveDateTime,
    ) -> (r: Self)
        ensures
            is_new_user(
                r,
                username@,
                opt_text(email),
                password_hash@,
                opt_text(first_name),
                opt_text(last_name),
                role,
                status,
                id,
                now,
            ),
    {
        User {
            id,
            username: username.to_string(),
            email,
            password_hash: password_hash.to_string(),
            first_name,
            last_name,
            role: match role {
                Some(r) => r,
                None => Role::default(),
            },
            status: match status {
                Some(s) => s,
                None => Status::default(),
            },
            token_version: 0,
            must_change_password: false,
            banned_at: None,
            banned_until: None,
            ban_reason: None,
            username_changed_at: None,
            created_at: now,
            updated_at: now,
            email_verified_at: None,
            password_set: true,
            totp_secret_enc: None,
            totp_enabled_at: None,
            totp_pending_secret_enc: None,
            totp_pending_created_at: None,
            totp_last_step: None,
            failed_login_count: 0,
            locked_until: None,
            terms_accepted_at: None,
            terms_version: None,
            referral_code: None,
            avatar_url: None,
            password_changed_at: None,
        }
    }

    pub fn new(
        username: &str,
        email: Option<String>,
        password_hash: &str,
        first_name: Option<String>,
        last_name: Option<String>,
        role: Option<Role>,
        status: Option<Status>,
    ) -> (r: Self)
        ensures
            is_new_user(
                r,
                username@,
                opt_text(email),
                password_hash@,
                opt_text(first_name),
                opt_text(last_name),
                role,
                status,
                r.id,
                r.created_at,
            ),
    {
        User::made(
            username,
            email,
            password_hash,
            first_name,
            last_name,
            role,
            status,
            Uuid::new_v4(),
            NaiveDateTime::now(),
        )
    }

    /// The suspension in effect now.
    pub fn active_ban(&self) -> (r: Option<Option<NaiveDateTime>>)
        ensures
            exists|now: int| r == #[trigger] ban_at(self.banned_at, self.banned_until, now),
    {
        let now = NaiveDateTime::now();
        let r = active_ban(self.banned_at, self.banned_until, now);
        assert(r == ban_at(self.banned_at, self.banned_until, now@));
        r
    }

    pub fn two_factor_enabled(&self) -> (r: bool)
        ensures
            r == (self.totp_enabled_at is Some && self.totp_secret_enc is Some),
    {
        self.totp_enabled_at.is_some() && self.totp_secret_enc.is_some()
    }

    pub fn email_verified(&self) -> (r: bool)
        ensures
            r == (self.email_verified_at is Some && self.email is Some),
    {
        self.email_verified_at.is_some() && self.email.is_some()
    }

    /// `true` when the account accepted the terms currently in force.
    pub fn terms_accepted(&self) -> (r: bool)
        ensures
            r == in_force(opt_text(self.terms_version)),
    {
        is_in_force(&self.terms_version)
    }

    /// The end of a sign-in lockout in effect at the moment `now`, if any.
    pub fn locked_until_at(&self, now: NaiveDateTime) -> (r: Option<NaiveDateTime>)
        ensures
            r == lock_at(self.locked_until, now@),
    {
        match self.locked_until {
            Some(until) => if now.is_before(&until) {
                Some(until)
            } else {
                None
            },
            None => None,
        }
    }

    /// The end of an active sign-in lockout, if any.
    pub fn locked_until_active(&self) -> (r: Option<NaiveDateTime>)
        ensures
            exists|now: int| r == #[trigger] lock_at(self.locked_until, now),
    {
        let now = NaiveDateTime::now();
        let r = self.locked_until_at(now);
        assert(r == lock_at(self.locked_until, now@));
        r
    }
}

/// The end of a lockout in effect at the moment `now`.
pub open spec fn lock_at(locked_until: Option<NaiveDateTime>, now: int) -> Option<NaiveDateTime> {
    match locked_until {
        Some(until) => if until@ > now {
            Some(until)
        } else {
            None
        },
        None => None,
    }
}

/// The terms accepted are those in force.
pub open spec fn in_force(version: Option<Seq<char>>) -> bool {
    version == Some(CURRENT_TERMS_VERSION@)
}

fn is_in_force(version: &Option<String>) -> (r: bool)
    ensures
        r == in_force(opt_text(*version)),
{
    match version {
        Some(v) => same(v.as_str(), CURRENT_TERMS_VERSION),
        None => false,
    }
}

/// An account as returned to clients — never includes the password hash.
#[derive(Debug, Clone)]
pub struct UserPublic {
    pub id: Uuid,
    pub username: String,
    pub email: Option<String>,
    pub first_name: Option<String>,
    pub last_name: Option<String>,
    pub role: Role,
    pub status: Status,
    /// When the username was last changed — `None` if never changed.
    pub username_changed_at: Option<NaiveDateTime>,
    pub must_change_password: bool,
    pub password_changed_at: Option<NaiveDateTime>,
    pub last_login_at: Option<NaiveDateTime>,
    /// `true` while a suspension is in effect (computed server-side so
    /// clients don't depend on their own clock).
    pub is_banned: bool,
    pub banned_at: Option<NaiveDateTime>,
    /// `None` with `is_banned` means a permanent suspension.
    pub banned_until: Option<NaiveDateTime>,
    pub ban_reason: Option<String>,
    pub banned_by_username: Option<String>,
    pub created_by_username: Option<String>,
    pub updated_by_username: Option<String>,
    pub created_at: NaiveDateTime,
    pub updated_at: NaiveDateTime,
    /// `true` once the owner proved they control `email`.
    pub email_verified: bool,
    /// Link to an externally hosted image. Clients load it through the
    /// web's image proxy, never directly.
    pub avatar_url: Option<String>,
    pub bio: Option<String>,
    pub location: Option<String>,
    pub instruments: Vec<String>,
    pub two_factor_enabled: bool,
    /// `false` for accounts created through Google that never chose a
    /// password (password recovery sets one).
    pub password_set: bool,
    /// The version of the terms the account last accepted.
    pub terms_version: Option<String>,
    pub terms_accepted_at: Option<NaiveDateTime>,
    pub referral_code: Option<String>,
}

impl UserPublic {
    /// `true` when the account accepted the terms currently in force.
    pub fn terms_accepted(&self) -> (r: bool)
        ensures
            r == in_force(opt_text(self.terms_version)),
    {
        is_in_force(&self.terms_version)
    }
}

// ---------------------------------------------------------------------
// E-mail addresses
// ---------------------------------------------------------------------

/// What `validator` says of an e-mail address that holds an `@`.
pub uninterp spec fn validator_email(s: Seq<char>) -> bool;

/// A syntactically valid e-mail address.
pub open spec fn is_email(s: Seq<char>) -> bool {
    s.contains('@') && validator_email(s)
}

/// `validator::ValidateEmail::validate_email`: whether the text is an e-mail
/// address. Without an `@` it is none; otherwise the answer is a function of
/// the text.
#[verifier::external_body]
fn valid_email(s: &str) -> (r: bool)
    ensures
        !s@.contains('@') ==> !r,
        s@.contains('@') ==> r == validator_email(s@),
{
    validator::ValidateEmail::validate_email(&s)
}

/// The error of a bad address.
pub open spec fn bad_email() -> ErrorView {
    ErrorView { code: "email"@, message: Some("Invalid email address."@) }
}

/// What is wrong with a required address.
pub open spec fn email_error(email: Seq<char>) -> Option<ErrorView> {
    if trim(email).len() <= MAX_EMAIL_LENGTH && is_email(trim(email)) {
        None
    } else {
        Some(bad_email())
    }
}

/// What is wrong with an optional address: an empty one clears it.
pub open spec fn optional_email_error(email: Seq<char>) -> Option<ErrorView> {
    if email.len() == 0 || vstd::utf8::encode_utf8(email).len() <= MAX_EMAIL_LENGTH && is_email(
        email,
    ) {
        None
    } else {
        Some(bad_email())
    }
}

/// A required e-mail address: syntactically valid and at most 254
/// characters.
pub fn validate_email_address(email: &str) -> (r: Result<(), ValidationError>)
    ensures
        verdict(r) == email_error(email@),
{
    let t = trimmed(email);
    if chars(t.as_str()).len() <= MAX_EMAIL_LENGTH && valid_email(t.as_str()) {
        Ok(())
    } else {
        Err(ValidationError::with_message("email", "Invalid email address."))
    }
}

pub fn validate_optional_email(email: &str) -> (r: Result<(), ValidationError>)
    ensures
        verdict(r) == optional_email_error(email@),
{
    if email.is_empty() || (email.as_bytes().len() <= MAX_EMAIL_LENGTH && valid_email(email)) {
        Ok(())
    } else {
        Err(ValidationError::with_message("email", "Invalid email address."))
    }
}

/// Canonical stored form of an e-mail address. Only surrounding blanks
/// are dropped: the local part is case-sensitive in theory, so the case
/// is kept and uniqueness is checked case-insensitively instead.
pub fn normalize_email(email: &str) -> (r: String)
    ensures
        r@ == trim(email@),
{
    trimmed(email)
}

/// The mailbox behind an address without blanks, in lower case.
pub open spec fn mailbox_of(email: Seq<char>) -> Seq<char> {
    let at = last_index_of(email, '@');
    if at < 0 {
        email
    } else {
        let name = email.take(at);
        let local = name.take(index_of(name, '+'));
        let domain = email.skip(at + 1);
        if domain == "gmail.com"@ || domain == "googlemail.com"@ {
            replace(local, "."@, ""@) + "@"@ + "gmail.com"@
        } else {
            local + "@"@ + domain
        }
    }
}

/// The mailbox behind an address without blanks, in lower case.
pub fn mailbox(email: &str) -> (r: String)
    ensures
        r@ == mailbox_of(email@),
{
    let v = chars(email);
    let n = v.len();
    match find_last(&v, '@') {
        None => email.to_string(),
        Some(at) => {
            let plus = find_char(&v, 0, at, '+');
            proof {
                let name = email@.take(at as int);
                assert(v@.subrange(0, at as int) =~= name);
                lemma_index_of(name, '+');
                assert(v@.subrange(0, plus as int) =~= name.take(plus as int));
            }
            let local = piece(&v, 0, plus);
            let domain = piece(&v, at + 1, n);
            assert(domain@ =~= email@.skip(at + 1));
            let d = domain.as_str();
            if same(d, "gmail.com") || same(d, "googlemail.com") {
                proof {
                    reveal_strlit(".");
                }
                let mut r = replaced(local.as_str(), ".", "");
                r.append("@");
                r.append("gmail.com");
                r
            } else {
                let mut r = local;
                r.append("@");
                r.append(d);
                r
            }
        },
    }
}

/// The mailbox behind an address.
pub open spec fn canonical(email: Seq<char>) -> Seq<char> {
    mailbox_of(lower_case(trim(email)))
}

/// The mailbox an address really delivers to, for "one per person"
/// checks (trials): lower case, without a `+tag`, and for Gmail without
/// dots and with `googlemail.com` folded into `gmail.com`. Never stored
/// or used to send mail.
pub fn canonical_email(email: &str) -> (r: String)
    ensures
        r@ == canonical(email@),
{
    let t = trimmed(email);
    let low = in_lower_case(t.as_str());
    mailbox(low.as_str())
}

// ---------------------------------------------------------------------
// Profile fields
// ---------------------------------------------------------------------

/// What is wrong with a language.
pub open spec fn locale_error(locale: Seq<char>) -> Option<ErrorView> {
    if is_supported_language(locale) {
        None
    } else {
        Some(
            ErrorView {
                code: "unsupported_language"@,
                message: Some("Unsupported language."@),
            },
        )
    }
}

pub fn validate_optional_locale(locale: &str) -> (r: Result<(), ValidationError>)
    ensures
        verdict(r) == locale_error(locale@),
{
    if language_supported(locale) {
        Ok(())
    } else {
        Err(ValidationError::with_message("unsupported_language", "Unsupported language."))
    }
}

/// A referral code: empty, or at most 32 letters, digits and dashes.
pub open spec fn is_referral_code(code: Seq<char>) -> bool {
    code.len() <= 32 && forall|i: int|
        0 <= i < code.len() ==> is_alnum(#[trigger] code[i]) || code[i] == '-'
}

/// What is wrong with a referral code.
pub open spec fn referral_error(code: Seq<char>) -> Option<ErrorView> {
    if is_referral_code(trim(code)) {
        None
    } else {
        Some(ErrorView { code: "referral_code"@, message: Some("Invalid referral code."@) })
    }
}

pub fn validate_referral_code(code: &str) -> (r: Result<(), ValidationError>)
    ensures
        verdict(r) == referral_error(code@),
{
    let t = trimmed(code);
    let v = chars(t.as_str());
    let mut i: usize = 0;
    while i < v.len() && (char_is_alnum(v[i]) || v[i] == '-')
        invariant
            i <= v@.len(),
            forall|j: int| 0 <= j < i ==> is_alnum(#[trigger] v@[j]) || v@[j] == '-',
        decreases v@.len() - i,
    {
        i = i + 1;
    }
    if v.len() <= 32 && i == v.len() {
        Ok(())
    } else {
        assert(!is_referral_code(t@)) by {
            if i < v.len() {
                assert(!(is_alnum(t@[i as int]) || t@[i as int] == '-'));
            }
        }
        Err(ValidationError::with_message("referral_code", "Invalid referral code."))
    }
}

/// What is wrong with a biography.
pub open spec fn bio_error(value: Seq<char>) -> Option<ErrorView> {
    if trim(value).len() <= MAX_BIO_LENGTH {
        None
    } else {
        Some(
            ErrorView {
                code: "bio_too_long"@,
                message: Some("Bio must be at most 280 characters."@),
            },
        )
    }
}

pub fn validate_bio(value: &str) -> (r: Result<(), ValidationError>)
    ensures
        verdict(r) == bio_error(value@),
{
    if chars(trimmed(value).as_str()).len() <= MAX_BIO_LENGTH {
        Ok(())
    } else {
        Err(ValidationError::with_message("bio_too_long", "Bio must be at most 280 characters."))
    }
}

/// What is wrong with a location.
pub open spec fn location_error(value: Seq<char>) -> Option<ErrorView> {
    if trim(value).len() <= MAX_LOCATION_LENGTH {
        None
    } else {
        Some(
            ErrorView {
                code: "location_too_long"@,
                message: Some("Location must be at most 80 characters."@),
            },
        )
    }
}

pub fn validate_location(value: &str) -> (r: Result<(), ValidationError>)
    ensures
        verdict(r) == location_error(value@),
{
    if chars(trimmed(value).as_str()).len() <= MAX_LOCATION_LENGTH {
        Ok(())
    } else {
        Err(
            ValidationError::with_message(
                "location_too_long",
                "Location must be at most 80 characters.",
            ),
        )
    }
}

/// What is wrong with one instrument.
pub open spec fn instrument_problem(value: Seq<char>) -> Option<Seq<char>> {
    if !(0 < trim(value).len() <= MAX_INSTRUMENT_LENGTH) {
        Some("Each instrument must have between 1 and 30 characters."@)
    } else if exists|i: int| 0 <= i < value.len() && is_control(#[trigger] value[i]) {
        Some("Instruments cannot contain control characters."@)
    } else {
        None
    }
}

/// What is wrong with the first instrument, from `i` on, that has a problem.
pub open spec fn first_problem(values: Seq<Seq<char>>, i: int) -> Option<Seq<char>>
    decreases values.len() - i,
{
    if i < 0 || i >= values.len() {
        None
    } else if instrument_problem(values[i]) is Some {
        instrument_problem(values[i])
    } else {
        first_problem(values, i + 1)
    }
}

/// What is wrong with a list of instruments.
pub open spec fn instruments_error(values: Seq<Seq<char>>) -> Option<ErrorView> {
    let problem = if values.len() > MAX_INSTRUMENTS {
        Some("At most 8 instruments are allowed."@)
    } else {
        first_problem(values, 0)
    };
    match problem {
        Some(m) => Some(ErrorView { code: "invalid_instruments"@, message: Some(m) }),
        None => None,
    }
}

fn has_control(value: &str) -> (r: bool)
    ensures
        r == (exists|i: int| 0 <= i < value@.len() && is_control(#[trigger] value@[i])),
{
    let v = chars(value);
    let mut i: usize = 0;
    while i < v.len()
        invariant
            v@ == value@,
            i <= v@.len(),
            forall|j: int| 0 <= j < i ==> !is_control(#[trigger] value@[j]),
        decreases v@.len() - i,
    {
        if char_is_control(v[i]) {
            assert(is_control(value@[i as int]));
            return true;
        }
        i = i + 1;
    }
    false
}

pub fn validate_instruments(values: &[String]) -> (r: Result<(), ValidationError>)
    ensures
        verdict(r) == instruments_error(texts(values@)),
{
    if values.len() > MAX_INSTRUMENTS {
        return Err(
            ValidationError::with_message(
                "invalid_instruments",
                "At most 8 instruments are allowed.",
            ),
        );
    }
    let ghost all = texts(values@);
    let mut i: usize = 0;
    while i < values.len()
        invariant
            all == texts(values@),
            values@.len() <= MAX_INSTRUMENTS,
            i <= values@.len(),
            first_problem(all, 0) == first_problem(all, i as int),
        decreases values@.len() - i,
    {
        let value = values[i].as_str();
        assert(all[i as int] == value@);
        let n = chars(trimmed(value).as_str()).len();
        if n == 0 || n > MAX_INSTRUMENT_LENGTH {
            return Err(
                ValidationError::with_message(
                    "invalid_instruments",
                    "Each instrument must have between 1 and 30 characters.",
                ),
            );
        }
        if has_control(value) {
            return Err(
                ValidationError::with_message(
                    "invalid_instruments",
                    "Instruments cannot contain control characters.",
                ),
            );
        }
        i = i + 1;
    }
    Ok(())
}

/// `t` is in the list, whatever the case of its letters.
pub open spec fn listed(v: Seq<Seq<char>>, t: Seq<char>) -> bool {
    exists|i: int| 0 <= i < v.len() && lower_case(#[trigger] v[i]) == lower_case(t)
}

/// The instruments without blank ones and repetitions, in their order.
pub open spec fn distinct_instruments(values: Seq<Seq<char>>) -> Seq<Seq<char>>
    decreases values.len(),
{
    if values.len() == 0 {
        seq![]
    } else {
        let before = distinct_instruments(values.drop_last());
        let t = squeeze(values.last());
        if t.len() == 0 || listed(before, t) {
            before
        } else {
            before.push(t)
        }
    }
}

fn is_listed(v: &Vec<String>, t: &str) -> (r: bool)
    ensures
        r == listed(texts(v@), t@),
{
    let low = in_lower_case(t);
    let ghost all = texts(v@);
    let mut i: usize = 0;
    while i < v.len()
        invariant
            all == texts(v@),
            low@ == lower_case(t@),
            i <= v@.len(),
            forall|j: int| 0 <= j < i ==> lower_case(#[trigger] all[j]) != lower_case(t@),
        decreases v@.len() - i,
    {
        assert(all[i as int] == v@[i as int]@);
        let l = in_lower_case(v[i].as_str());
        if same(l.as_str(), low.as_str()) {
            return true;
        }
        i = i + 1;
    }
    false
}

/// Trims, drops blanks and removes case-insensitive duplicates (keeping
/// the first spelling), preserving order.
pub fn normalize_instruments(values: &[String]) -> (r: Vec<String>)
    ensures
        texts(r@) == distinct_instruments(texts(values@)),
{
    let ghost all = texts(values@);
    let mut out: Vec<String> = Vec::new();
    let mut i: usize = 0;
    assert(all.take(0) =~= seq![]);
    assert(texts(out@) =~= seq![]);
    while i < values.len()
        invariant
            all == texts(values@),
            i <= values@.len(),
            texts(out@) == distinct_instruments(all.take(i as int)),
        decreases values@.len() - i,
    {
        proof {
            assert(all.take(i + 1).drop_last() =~= all.take(i as int));
            assert(all.take(i + 1).last() == values@[i as int]@);
        }
        let t = squeezed(values[i].as_str());
        if !t.as_str().is_empty() && !is_listed(&out, t.as_str()) {
            proof {
                lemma_texts_push(out@, t);
            }
            out.push(t);
        }
        i = i + 1;
    }
    assert(all.take(i as int) =~= all);
    out
}

proof fn lemma_distinct(values: Seq<Seq<char>>)
    ensures
        forall|i: int, j: int|
            0 <= i < j < distinct_instruments(values).len() ==> lower_case(
                #[trigger] distinct_instruments(values)[i],
            ) != lower_case(#[trigger] distinct_instruments(values)[j]),
        forall|i: int|
            0 <= i < distinct_instruments(values).len() ==> (#[trigger] distinct_instruments(
                values,
            )[i]).len() > 0,
        distinct_instruments(values).len() <= values.len(),
    decreases values.len(),
{
    if values.len() > 0 {
        lemma_distinct(values.drop_last());
    }
}

/// A normalized list names no instrument twice, and none that is blank.
pub proof fn normalized_instruments_are_distinct(values: Seq<Seq<char>>)
    ensures
        forall|i: int, j: int|
            0 <= i < j < distinct_instruments(values).len() ==> lower_case(
                #[trigger] distinct_instruments(values)[i],
            ) != lower_case(#[trigger] distinct_instruments(values)[j]),
        forall|i: int|
            0 <= i < distinct_instruments(values).len() ==> (#[trigger] distinct_instruments(
                values,
            )[i]).len() > 0,
        distinct_instruments(values).len() <= values.len(),
{
    lemma_distinct(values);
}

/// What a field of a change says.
pub open spec fn opt_opt_text(o: Option<Option<String>>) -> Option<Option<Seq<char>>> {
    match o {
        Some(x) => Some(opt_text(x)),
        None => None,
    }
}

/// Normalizes an optional text field from a PATCH-style payload:
/// `None` = leave unchanged, `Some("")` (after trimming) = clear.
pub fn clearable(value: &Option<String>) -> (r: Option<Option<String>>)
    ensures
        opt_opt_text(r) == match opt_text(*value) {
            Some(v) => Some(
                if trim(v).len() == 0 {
                    None
                } else {
                    Some(trim(v))
                },
            ),
            None => None,
        },
{
    match value {
        Some(v) => {
            let t = trimmed(v.as_str());
            Some(
                if t.as_str().is_empty() {
                    None
                } else {
                    Some(t)
                },
            )
        },
        None => None,
    }
}

/// Self-service sign-up.
#[derive(Debug, Clone)]
pub struct RegisterPayload {
    pub username: String,
    /// Required (`EMAIL_REQUIRED` when missing): password recovery and
    /// security notices depend on it.
    pub email: Option<String>,
    pub password: String,
    pub first_name: Option<String>,
    pub last_name: Option<String>,
    /// Must be `true` (`TERMS_NOT_ACCEPTED` otherwise): consent to the
    /// Terms of Use and Privacy Policy in force.
    pub accept_terms: bool,
    /// Opt-in to marketing e-mails. Off unless explicitly chosen.
    pub marketing_opt_in: bool,
    /// Must be `true` (`AGE_CONFIRMATION_REQUIRED` otherwise): the
    /// declaration of being 18 or older, or 16 or 17 with a guardian's
    /// authorization.
    pub age_confirmed: bool,
    /// The referral code of the account that invited this one.
    pub referral_code: Option<String>,
    /// UI language (`en`, `pt-BR`, `es`), also used for e-mails.
    pub locale: Option<String>,
}

impl RegisterPayload {
    /// The rules that this payload breaks.
    pub open spec fn broken_rules(self, username: Option<ErrorView>, password: Option<ErrorView>, first_name: Option<ErrorView>, last_name: Option<ErrorView>) -> Wrong {
        let e = no_errors();
        let e = noted(e, "username"@, username);
        let e = noted(e, "email"@, match self.email { Some(x) => email_error(x@), None => None });
        let e = noted(e, "password"@, password);
        let e = noted(e, "first_name"@, first_name);
        let e = noted(e, "last_name"@, last_name);
        let e = noted(e, "referral_code"@, match self.referral_code { Some(x) => referral_error(x@), None => None });
        noted(e, "locale"@, match self.locale { Some(x) => locale_error(x@), None => None })
    }

    /// Checks the payload against its rules.
    /// `username`, `password`, `first_name` and `last_name` are what the text rules say of those fields.
    pub fn validate(&self, username: Result<(), ValidationError>, password: Result<(), ValidationError>, first_name: Result<(), ValidationError>, last_name: Result<(), ValidationError>) -> (r: Result<(), ValidationErrors>)
        ensures
            judged(r, self.broken_rules(verdict(username), verdict(password), verdict(first_name), verdict(last_name))),
    {
        let mut e = ValidationErrors::new();
        e.note("username", username);
        e.note("email", match &self.email { Some(x) => validate_email_address(x.as_str()), None => Ok(()) });
        e.note("password", password);
        e.note("first_name", first_name);
        e.note("last_name", last_name);
        e.note("referral_code", match &self.referral_code { Some(x) => validate_referral_code(x.as_str()), None => Ok(()) });
        e.note("locale", match &self.locale { Some(x) => validate_optional_locale(x.as_str()), None => Ok(()) });
        e.into_result()
    }
}

#[derive(Debug, Clone)]
pub struct CreateUserPayload {
    pub username: String,
    pub email: Option<String>,
    pub password: String,
    pub first_name: Option<String>,
    pub last_name: Option<String>,
    pub role: Option<Role>,
    pub status: Option<Status>,
    /// Forces the new account to pick its own password at first sign-in.
    /// Defaults to `true` for staff-created accounts: the creator knows
    /// the initial password, so it must be treated as temporary.
    pub require_password_change: Option<bool>,
}

impl CreateUserPayload {
    /// The rules that this payload breaks.
    pub open spec fn broken_rules(self, username: Option<ErrorView>, password: Option<ErrorView>, first_name: Option<ErrorView>, last_name: Option<ErrorView>) -> Wrong {
        let e = no_errors();
        let e = noted(e, "username"@, username);
        let e = noted(e, "email"@, match self.email { Some(x) => optional_email_error(x@), None => None });
        let e = noted(e, "password"@, password);
        let e = noted(e, "first_name"@, first_name);
        noted(e, "last_name"@, last_name)
    }

    /// Checks the payload against its rules.
    /// `username`, `password`, `first_name` and `last_name` are what the text rules say of those fields.
    pub fn validate(&self, username: Result<(), ValidationError>, password: Result<(), ValidationError>, first_name: Result<(), ValidationError>, last_name: Result<(), ValidationError>) -> (r: Result<(), ValidationErrors>)
        ensures
            judged(r, self.broken_rules(verdict(username), verdict(password), verdict(first_name), verdict(last_name))),
    {
        let mut e = ValidationErrors::new();
        e.note("username", username);
        e.note("email", match &self.email { Some(x) => validate_optional_email(x.as_str()), None => Ok(()) });
        e.note("password", password);
        e.note("first_name", first_name);
        e.note("last_name", last_name);
        e.into_result()
    }
}

/// Staff edit of another account. Passwords are deliberately absent — see
/// [`AdminResetPasswordPayload`], which also revokes sessions and forces a
/// change at next sign-in.
#[derive(Debug, Clone, Default)]
pub struct UpdateUserPayload {
    pub username: Option<String>,
    /// Empty string clears the email.
    pub email: Option<String>,
    /// Empty string clears the field.
    pub first_name: Option<String>,
    /// Empty string clears the field.
    pub last_name: Option<String>,
    pub role: Option<Role>,
    pub status: Option<Status>,
}

impl UpdateUserPayload {
    /// The rules that this payload breaks.
    pub open spec fn broken_rules(self, username: Option<ErrorView>, first_name: Option<ErrorView>, last_name: Option<ErrorView>) -> Wrong {
        let e = no_errors();
        let e = noted(e, "username"@, username);
        let e = noted(e, "email"@, match self.email { Some(x) => optional_email_error(x@), None => None });
        let e = noted(e, "first_name"@, first_name);
        noted(e, "last_name"@, last_name)
    }

    /// Checks the payload against its rules.
    /// `username`, `first_name` and `last_name` are what the text rules say of those fields.
    pub fn validate(&self, username: Result<(), ValidationError>, first_name: Result<(), ValidationError>, last_name: Result<(), ValidationError>) -> (r: Result<(), ValidationErrors>)
        ensures
            judged(r, self.broken_rules(verdict(username), verdict(first_name), verdict(last_name))),
    {
        let mut e = ValidationErrors::new();
        e.note("username", username);
        e.note("email", match &self.email { Some(x) => validate_optional_email(x.as_str()), None => Ok(()) });
        e.note("first_name", first_name);
        e.note("last_name", last_name);
        e.into_result()
    }
}

/// Self-service profile edit. Empty strings clear optional fields.
#[derive(Debug, Clone, Default)]
pub struct UpdateCurrentUserPayload {
    pub username: Option<String>,
    /// No longer accepted: answered with `BAD_REQUEST`. The address is
    /// changed through `POST /users/me/email/change`, which proves the
    /// owner controls the new one.
    pub email: Option<String>,
    pub first_name: Option<String>,
    pub last_name: Option<String>,
    /// Up to 280 characters.
    pub bio: Option<String>,
    /// Up to 80 characters.
    pub location: Option<String>,
    /// Up to 8 entries of 1 to 30 characters; trimmed and de-duplicated.
    pub instruments: Option<Vec<String>>,
    /// An `https` link to an image (see `validations::image_url`).
    pub avatar_url: Option<String>,
}

impl UpdateCurrentUserPayload {
    /// The rules that this payload breaks.
    pub open spec fn broken_rules(self, username: Option<ErrorView>, first_name: Option<ErrorView>, last_name: Option<ErrorView>) -> Wrong {
        let e = no_errors();
        let e = noted(e, "username"@, username);
        let e = noted(e, "first_name"@, first_name);
        let e = noted(e, "last_name"@, last_name);
        let e = noted(e, "bio"@, match self.bio { Some(x) => bio_error(x@), None => None });
        let e = noted(e, "location"@, match self.location { Some(x) => location_error(x@), None => None });
        noted(e, "instruments"@, match self.instruments { Some(x) => instruments_error(texts(x@)), None => None })
    }

    /// Checks the payload against its rules.
    /// `username`, `first_name` and `last_name` are what the text rules say of those fields.
    pub fn validate(&self, username: Result<(), ValidationError>, first_name: Result<(), ValidationError>, last_name: Result<(), ValidationError>) -> (r: Result<(), ValidationErrors>)
        ensures
            judged(r, self.broken_rules(verdict(username), verdict(first_name), verdict(last_name))),
    {
        let mut e = ValidationErrors::new();
        e.note("username", username);
        e.note("first_name", first_name);
        e.note("last_name", last_name);
        e.note("bio", match &self.bio { Some(x) => validate_bio(x.as_str()), None => Ok(()) });
        e.note("location", match &self.location { Some(x) => validate_location(x.as_str()), None => Ok(()) });
        e.note("instruments", match &self.instruments { Some(x) => validate_instruments(x.as_slice()), None => Ok(()) });
        e.into_result()
    }
}

impl UpdateCurrentUserPayload {
    /// The account fields shared with the staff edit.
    pub fn account_fields(&self) -> (r: UpdateUserPayload)
        ensures
            opt_text(r.username) == opt_text(self.username),
            r.email is None,
            opt_text(r.first_name) == opt_text(self.first_name),
            opt_text(r.last_name) == opt_text(self.last_name),
            r.role is None,
            r.status is None,
    {
        UpdateUserPayload {
            username: copy_of(&self.username),
            email: None,
            first_name: copy_of(&self.first_name),
            last_name: copy_of(&self.last_name),
            role: None,
            status: None,
        }
    }

    pub fn has_profile_fields(&self) -> (r: bool)
        ensures
            r == (self.bio is Some || self.location is Some || self.instruments is Some
                || self.avatar_url is Some),
    {
        self.bio.is_some() || self.location.is_some() || self.instruments.is_some()
            || self.avatar_url.is_some()
    }
}

/// Normalized public-profile changes (`None` = unchanged, `Some(None)` =
/// clear).
#[derive(Debug, Clone, Default)]
pub struct ProfileUpdate {
    pub bio: Option<Option<String>>,
    pub location: Option<Option<String>>,
    pub instruments: Option<Vec<String>>,
    pub avatar_url: Option<Option<String>>,
}

#[derive(Debug, Clone)]
pub struct ChangePasswordPayload {
    pub current_password: String,
    pub new_password: String,
}

impl ChangePasswordPayload {
    /// The rules that this payload breaks.
    pub open spec fn broken_rules(self, new_password: Option<ErrorView>) -> Wrong {
        let e = no_errors();
        let e = unless(e, length_within(self.current_password@, 1, 256), "current_password"@, "length"@, Some("Current password is required."@));
        noted(e, "new_password"@, new_password)
    }

    /// Checks the payload against its rules.
    /// `new_password` is what the text rules say of that field.
    pub fn validate(&self, new_password: Result<(), ValidationError>) -> (r: Result<(), ValidationErrors>)
        ensures
            judged(r, self.broken_rules(verdict(new_password))),
    {
        let mut e = ValidationErrors::new();
        e.check(has_length(self.current_password.as_str(), 1, 256), "current_password", "length", Some("Current password is required."));
        e.note("new_password", new_password);
        e.into_result()
    }
}

#[derive(Debug, Clone)]
pub struct ChangePasswordResponse {
    /// Always `true`: every session (including the caller's) was revoked,
    /// so the client must sign in again with the new password.
    pub reauth_required: bool,
}

#[derive(Debug, Clone)]
pub struct AdminResetPasswordPayload {
    pub new_password: String,
    /// Whether the user must replace this password at next sign-in.
    /// Defaults to `true` — a password someone else chose is temporary.
    pub require_change: Option<bool>,
}

impl AdminResetPasswordPayload {
    /// The rules that this payload breaks.
    pub open spec fn broken_rules(self, new_password: Option<ErrorView>) -> Wrong {
        let e = no_errors();
        noted(e, "new_password"@, new_password)
    }

    /// Checks the payload against its rules.
    /// `new_password` is what the text rules say of that field.
    pub fn validate(&self, new_password: Result<(), ValidationError>) -> (r: Result<(), ValidationErrors>)
        ensures
            judged(r, self.broken_rules(verdict(new_password))),
    {
        let mut e = ValidationErrors::new();
        e.note("new_password", new_password);
        e.into_result()
    }
}

#[derive(Debug, Clone)]
pub struct BanUserPayload {
    /// Suspension length in hours; omit (or null) for a permanent ban.
    pub duration_hours: Option<i64>,
    pub reason: Option<String>,
}

impl BanUserPayload {
    /// The rules that this payload breaks.
    pub open spec fn broken_rules(self, reason: Option<ErrorView>) -> Wrong {
        let e = no_errors();
        let e = unless(e, (self.duration_hours matches Some(x) ==> 1 <= x <= 87_600), "duration_hours"@, "range"@, Some("Duration must be between 1 hour and 10 years."@));
        noted(e, "reason"@, reason)
    }

    /// Checks the payload against its rules.
    /// `reason` is what the text rules say of that field.
    pub fn validate(&self, reason: Result<(), ValidationError>) -> (r: Result<(), ValidationErrors>)
        ensures
            judged(r, self.broken_rules(verdict(reason))),
    {
        let mut e = ValidationErrors::new();
        e.check(match self.duration_hours { Some(x) => 1 <= x && x <= 87_600, None => true }, "duration_hours", "range", Some("Duration must be between 1 hour and 10 years."));
        e.note("reason", reason);
        e.into_result()
    }
}

/// One past username a user has held, kept for admins to trace an
/// account across a rename. Never exposed to non-admins.
#[derive(Debug, Clone)]
pub struct UsernameHistoryEntry {
    pub old_username: String,
    pub changed_at: NaiveDateTime,
}

/// Response for the live username-availability check shown in Settings.
#[derive(Debug, Clone)]
pub struct UsernameAvailability {
    pub available: bool,
    /// Set when the name is syntactically invalid or reserved, so the UI
    /// can explain why instead of just saying "unavailable".
    pub reason: Option<String>,
}

/// A band both the viewer and the profile owner belong to.
#[derive(Debug, Clone)]
pub struct BandInCommon {
    pub id: Uuid,
    pub name: String,
    pub logo_url: Option<String>,
}

/// Another user's profile, as seen by the caller. Regular users see only
/// the basic public fields; staff additionally see the privileged block.
#[derive(Debug, Clone)]
pub struct UserProfileView {
    pub id: Uuid,
    pub username: String,
    pub first_name: Option<String>,
    pub last_name: Option<String>,
    pub created_at: NaiveDateTime,
    /// `None` when there is no avatar (or staff removed it).
    pub avatar_url: Option<String>,
    pub bio: Option<String>,
    pub location: Option<String>,
    pub instruments: Vec<String>,
    pub bands_in_common: Vec<BandInCommon>,
    /// Same as `created_at`.
    pub member_since: NaiveDateTime,
    /// `true` when the caller is looking at their own profile.
    pub is_self: bool,
    /// Set only when the caller is staff — `None` for every other viewer.
    pub admin_details: Option<UserProfileAdminDetails>,
}

/// Privileged fields shown only to staff viewing someone else's profile.
#[derive(Debug, Clone)]
pub struct UserProfileAdminDetails {
    pub email: Option<String>,
    pub role: Role,
    pub status: Status,
    pub username_changed_at: Option<NaiveDateTime>,
    pub is_banned: bool,
    pub banned_until: Option<NaiveDateTime>,
    pub last_login_at: Option<NaiveDateTime>,
    /// Open moderation flags about this account.
    pub open_flags: i64,
}

/// `v` is the profile of `u` as its viewer sees it: the privileged block only
/// for staff.
pub open spec fn is_profile_of(
    v: UserProfileView,
    u: UserPublic,
    viewer_is_staff: bool,
    is_self: bool,
    bands_in_common: Vec<BandInCommon>,
    open_flags: i64,
) -> bool {
    &&& v.id == u.id
    &&& v.username == u.username
    &&& v.first_name == u.first_name
    &&& v.last_name == u.last_name
    &&& v.created_at == u.created_at
    &&& v.avatar_url == u.avatar_url
    &&& v.bio == u.bio
    &&& v.location == u.location
    &&& v.instruments == u.instruments
    &&& v.bands_in_common == bands_in_common
    &&& v.member_since == u.created_at
    &&& v.is_self == is_self
    &&& v.admin_details == if viewer_is_staff {
        Some(
            UserProfileAdminDetails {
                email: u.email,
                role: u.role,
                status: u.status,
                username_changed_at: u.username_changed_at,
                is_banned: u.is_banned,
                banned_until: u.banned_until,
                last_login_at: u.last_login_at,
                open_flags,
            },
        )
    } else {
        None
    }
}

impl UserPublic {
    /// Builds the profile view of `self` as seen by a caller who is (or
    /// isn't) staff. This is the one place that decides which fields a
    /// regular viewer never sees.
    pub fn into_profile_view(
        self,
        viewer_is_staff: bool,
        is_self: bool,
        bands_in_common: Vec<BandInCommon>,
        open_flags: i64,
    ) -> (r: UserProfileView)
        ensures
            is_profile_of(r, self, viewer_is_staff, is_self, bands_in_common, open_flags),
    {
        let admin_details = if viewer_is_staff {
            Some(
                UserProfileAdminDetails {
                    email: self.email,
                    role: self.role,
                    status: self.status,
                    username_changed_at: self.username_changed_at,
                    is_banned: self.is_banned,
                    banned_until: self.banned_until,
                    last_login_at: self.last_login_at,
                    open_flags,
                },
            )
        } else {
            None
        };
        UserProfileView {
            id: self.id,
            username: self.username,
            first_name: self.first_name,
            last_name: self.last_name,
            created_at: self.created_at,
            avatar_url: self.avatar_url,
            bio: self.bio,
            location: self.location,
            instruments: self.instruments,
            bands_in_common,
            member_since: self.created_at,
            is_self,
            admin_details,
        }
    }
}

/// Body of `POST /users/me/accept-terms`.
#[derive(Debug, Clone)]
pub struct AcceptTermsPayload {
    /// Must equal the version currently in force.
    pub version: String,
}

impl AcceptTermsPayload {
    /// The rules that this payload breaks.
    pub open spec fn broken_rules(self) -> Wrong {
        let e = no_errors();
        unless(e, length_within(self.version@, 1, 20), "version"@, "length"@, None)
    }

    /// Checks the payload against its rules.
    pub fn validate(&self) -> (r: Result<(), ValidationErrors>)
        ensures
            judged(r, self.broken_rules()),
    {
        let mut e = ValidationErrors::new();
        e.check(has_length(self.version.as_str(), 1, 20), "version", "length", None);
        e.into_result()
    }
}

/// Body of `DELETE /users/me`.
#[derive(Debug, Clone)]
pub struct DeleteAccountPayload {
    /// The current password (accounts with a password).
    pub password: Option<String>,
    /// A code from `POST /users/me/reauth/code` (accounts without a
    /// password).
    pub reauth_code: Option<String>,
    /// A current authenticator code or an unused recovery code, required
    /// when two-factor authentication is enabled.
    pub code: Option<String>,
    /// The account's username, typed to confirm.
    pub confirmation: String,
}

impl DeleteAccountPayload {
    /// The rules that this payload breaks.
    pub open spec fn broken_rules(self) -> Wrong {
        let e = no_errors();
        let e = unless(e, opt_length_within(opt_text(self.password), 0, 256), "password"@, "length"@, None);
        let e = unless(e, opt_length_within(opt_text(self.reauth_code), 0, 16), "reauth_code"@, "length"@, None);
        let e = unless(e, opt_length_within(opt_text(self.code), 0, 16), "code"@, "length"@, None);
        unless(e, length_within(self.confirmation@, 1, 64), "confirmation"@, "length"@, None)
    }

    /// Checks the payload against its rules.
    pub fn validate(&self) -> (r: Result<(), ValidationErrors>)
        ensures
            judged(r, self.broken_rules()),
    {
        let mut e = ValidationErrors::new();
        e.check(opt_has_length(&self.password, 0, 256), "password", "length", None);
        e.check(opt_has_length(&self.reauth_code, 0, 16), "reauth_code", "length", None);
        e.check(opt_has_length(&self.code, 0, 16), "code", "length", None);
        e.check(has_length(self.confirmation.as_str(), 1, 64), "confirmation", "length", None);
        e.into_result()
    }
}

/// Why a profile is being reported.
#[derive(Debug, Clone, Copy, PartialEq, Eq, Structural)]
pub enum ReportReason {
    InappropriateAvatar,
    OffensiveUsername,
    Impersonation,
    Spam,
    Other,
}

/// The key of each [`ReportReason`].
pub open spec fn report_reason_key(x: ReportReason) -> Seq<char> {
    match x {
        ReportReason::InappropriateAvatar => "inappropriate_avatar"@,
        ReportReason::OffensiveUsername => "offensive_username"@,
        ReportReason::Impersonation => "impersonation"@,
        ReportReason::Spam => "spam"@,
        ReportReason::Other => "other"@,
    }
}

impl ReportReason {
    pub fn key(&self) -> (r: &'static str)
        ensures
            r@ == report_reason_key(*self),
    {
        match self {
            ReportReason::InappropriateAvatar => "inappropriate_avatar",
            ReportReason::OffensiveUsername => "offensive_username",
            ReportReason::Impersonation => "impersonation",
            ReportReason::Spam => "spam",
            ReportReason::Other => "other",
        }
    }
}

/// Body of `POST /users/{id}/report`.
#[derive(Debug, Clone)]
pub struct ReportUserPayload {
    pub reason: ReportReason,
    pub details: Option<String>,
}

impl ReportUserPayload {
    /// The rules that this payload breaks.
    pub open spec fn broken_rules(self) -> Wrong {
        let e = no_errors();
        unless(e, opt_length_within(opt_text(self.details), 0, 500), "details"@, "length"@, Some("Details must be at most 500 characters."@))
    }

    /// Checks the payload against its rules.
    pub fn validate(&self) -> (r: Result<(), ValidationErrors>)
        ensures
            judged(r, self.broken_rules()),
    {
        let mut e = ValidationErrors::new();
        e.check(opt_has_length(&self.details, 0, 500), "details", "length", Some("Details must be at most 500 characters."));
        e.into_result()
    }
}

/// Query string of `GET /users`.
#[derive(Debug, Clone, Default)]
pub struct UserListQuery {
    pub page: Option<i64>,
    pub per_page: Option<i64>,
    /// Case-insensitive search over username, email and names.
    pub q: Option<String>,
}

impl UserListQuery {
    /// `q` as an escaped `ILIKE` pattern, or `None` when blank.
    pub fn search_pattern(&self) -> (r: Option<String>)
        ensures
            opt_text(r) == pattern_of(opt_text(self.q)),
    {
        search_pattern(&self.q)
    }
}

} // verus!
