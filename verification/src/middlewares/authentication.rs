//! Authentication of requests.
//!
//! A valid signature is not enough: the token is re-checked against the
//! account's *current* state on every request, so that
//!
//! - a deactivated or suspended account is locked out immediately, not
//!   when its token happens to expire;
//! - a password change, admin reset or "sign out everywhere" revokes
//!   existing tokens (via `token_version`);
//! - role changes apply immediately (the claims are rewritten with the
//!   current role before handlers see them);
//! - impersonation tokens stay valid only while the staff member behind
//!   them still outranks the target and hasn't been signed out, and can
//!   never write.

use crate::errors::api_error::{
    ban_message, detailed_rule, json_moment, plain_rule, ApiError, Failure,
};
use crate::errors::auth_error::AuthError;
use crate::errors::{codes, status};
use crate::json::{json_text, members, object_value, text_value, Json, JsonValue};
use crate::models::auth::access::Impersonation;
use crate::models::auth::token::Claims;
use crate::models::user::{active_ban, ban_at, may_manage, staff, Role, Status};
use crate::text::{
    chars, contains, copy_of, end_trimmed_of, ends_with, has, has_prefix, has_suffix, opt_str,
    opt_text, piece, same, starts_with, trim, trim_end_char, trimmed,
};
use crate::time::{shifted, NaiveDateTime, SECONDS_PER_MINUTE};
use vstd::prelude::*;

verus! {

/// Staff accounts must enable two-factor authentication: after this long
/// in a staff role without it, everything but their own account settings
/// answers `STAFF_TWO_FACTOR_REQUIRED` (the time to sign in and enrol).
pub const STAFF_TWO_FACTOR_GRACE_MINUTES: i64 = 60;

/// Largest JSON answer rewritten for an impersonation session; larger
/// ones are refused rather than passed through unredacted.
pub const MAX_REDACTED_BODY_BYTES: usize = 16_777_216;

/// The method of a request.
#[derive(Debug, Clone, Copy, PartialEq, Eq, Structural)]
pub enum Method {
    Get,
    Head,
    Options,
    Post,
    Put,
    Patch,
    Delete,
    Other,
}

/// The state of an account that decides whether its tokens count.
#[derive(Debug, Clone)]
pub struct AuthState {
    pub username: String,
    pub role: Role,
    /// Since when the account has its role.
    pub role_since: NaiveDateTime,
    pub status: Status,
    pub token_version: i32,
    pub must_change_password: bool,
    pub two_factor_enabled: bool,
    pub banned_at: Option<NaiveDateTime>,
    pub banned_until: Option<NaiveDateTime>,
    pub ban_reason: Option<String>,
}

// ---------------------------------------------------------------------
// Paths
// ---------------------------------------------------------------------

/// `s` without `p` at its start, where it has it.
pub open spec fn without_prefix(s: Seq<char>, p: Seq<char>) -> Seq<char> {
    if starts_with(s, p) {
        s.skip(p.len() as int)
    } else {
        s
    }
}

/// A path without slashes at its end and without the prefix of the API.
pub open spec fn api_path(path: Seq<char>) -> Seq<char> {
    without_prefix(trim_end_char(path, '/'), "/api/v1"@)
}

/// The part of a path below `/users/me`.
pub open spec fn below_users_me(path: Seq<char>) -> Option<Seq<char>> {
    let p = api_path(path);
    let rest = p.skip(9);
    if starts_with(p, "/users/me"@) && (rest.len() == 0 || rest[0] == '/') {
        Some(rest)
    } else {
        None
    }
}

fn strip(s: &str, p: &str) -> (r: Option<String>)
    ensures
        opt_text(r) == if starts_with(s@, p@) {
            Some(s@.skip(p@.len() as int))
        } else {
            None
        },
{
    if has_prefix(s, p) {
        let v = chars(s);
        let n = chars(p).len();
        let r = piece(&v, n, v.len());
        assert(r@ =~= s@.skip(p@.len() as int));
        Some(r)
    } else {
        None
    }
}

fn path_in_api(path: &str) -> (r: String)
    ensures
        r@ == api_path(path@),
{
    let p = end_trimmed_of(path, '/');
    match strip(p.as_str(), "/api/v1") {
        Some(rest) => rest,
        None => p,
    }
}

/// The part of `path` after `/users/me`, when `path` is `/users/me` or
/// below it (with or without the `/api/v1` prefix).
pub fn users_me_suffix(path: &str) -> (r: Option<String>)
    ensures
        opt_text(r) == below_users_me(path@),
{
    let p = path_in_api(path);
    proof {
        reveal_strlit("/users/me");
    }
    match strip(p.as_str(), "/users/me") {
        Some(rest) => {
            let v = chars(rest.as_str());
            if v.len() == 0 || v[0] == '/' {
                Some(rest)
            } else {
                None
            }
        },
        None => None,
    }
}

/// What a staff account without two-factor authentication may still ask for.
pub open spec fn kept_without_two_factor(method: Method, path: Seq<char>) -> bool {
    match below_users_me(path) {
        None => false,
        Some(rest) => method == Method::Get || rest == "/2fa"@ || starts_with(rest, "/2fa/"@)
            || starts_with(rest, "/email/"@) || rest == "/reauth/code"@ || (method == Method::Post
            && rest == "/accept-terms"@) || (method == Method::Patch && rest == "/password"@),
    }
}

/// Endpoints a staff account without two-factor authentication may still
/// call (the web sends it to the security settings): reading its own
/// account, everything about 2FA, the e-mail flows, re-authentication
/// codes, accepting the terms and changing the password.
pub fn allowed_without_staff_two_factor(method: Method, path: &str) -> (r: bool)
    ensures
        r == kept_without_two_factor(method, path@),
{
    match users_me_suffix(path) {
        None => false,
        Some(rest) => {
            let rest = rest.as_str();
            method == Method::Get || same(rest, "/2fa") || has_prefix(rest, "/2fa/") || has_prefix(
                rest,
                "/email/",
            ) || same(rest, "/reauth/code") || (method == Method::Post && same(
                rest,
                "/accept-terms",
            )) || (method == Method::Patch && same(rest, "/password"))
        },
    }
}

/// A staff account has had its role long enough without two-factor
/// authentication.
pub open spec fn lacks_two_factor(account: AuthState, now: int) -> bool {
    staff(account.role) && !account.two_factor_enabled && shifted(
        account.role_since@,
        STAFF_TWO_FACTOR_GRACE_MINUTES * SECONDS_PER_MINUTE,
    ) <= now
}

/// `true` when a staff account has had its role long enough without
/// enabling two-factor authentication.
pub fn staff_two_factor_missing(account: &AuthState, now: NaiveDateTime) -> (r: bool)
    ensures
        r == lacks_two_factor(*account, now@),
{
    account.role.is_staff() && !account.two_factor_enabled && account.role_since.reaches(
        STAFF_TWO_FACTOR_GRACE_MINUTES * SECONDS_PER_MINUTE,
        &now,
    )
}

/// A request for a whole repertoire or all the data of an account.
pub open spec fn exports_in_bulk(method: Method, path: Seq<char>) -> bool {
    let p = api_path(path);
    (method == Method::Get || method == Method::Post) && (p == "/backup/export"@ || p
        == "/songs/export/chordpro"@ || p == "/users/me/data-export"@ || (starts_with(
        p,
        "/setlists/"@,
    ) && ends_with(p, "/export/pdf"@)))
}

/// Bulk exports refused to impersonation sessions: staff "viewing as"
/// someone must not walk away with their whole repertoire or data.
pub fn is_bulk_export(method: Method, path: &str) -> (r: bool)
    ensures
        r == exports_in_bulk(method, path@),
{
    if method != Method::Get && method != Method::Post {
        return false;
    }
    let p = path_in_api(path);
    let p = p.as_str();
    same(p, "/backup/export") || same(p, "/songs/export/chordpro") || same(
        p,
        "/users/me/data-export",
    ) || (has_prefix(p, "/setlists/") && has_suffix(p, "/export/pdf"))
}

/// What an account that must change its password may still ask for.
pub open spec fn kept_until_password_change(method: Method, path: Seq<char>) -> bool {
    let p = trim_end_char(path, '/');
    ||| method == Method::Get && (ends_with(p, "/users/me"@) || ends_with(
        p,
        "/users/me/preferences"@,
    ) || ends_with(p, "/users/me/security"@))
    ||| method == Method::Patch && ends_with(p, "/users/me/password"@)
    ||| method == Method::Post && ends_with(p, "/users/me/accept-terms"@)
}

/// Endpoints an account flagged with `must_change_password` may still
/// call: reading itself (so the client can render the change screen),
/// accepting the current terms and changing the password. Everything else
/// is refused until then.
pub fn allowed_while_password_change_required(method: Method, path: &str) -> (r: bool)
    ensures
        r == kept_until_password_change(method, path@),
{
    let p = end_trimmed_of(path, '/');
    let p = p.as_str();
    (method == Method::Get && (has_suffix(p, "/users/me") || has_suffix(
        p,
        "/users/me/preferences",
    ) || has_suffix(p, "/users/me/security"))) || (method == Method::Patch && has_suffix(
        p,
        "/users/me/password",
    )) || (method == Method::Post && has_suffix(p, "/users/me/accept-terms"))
}

/// A method that changes nothing.
pub open spec fn reads_only(method: Method) -> bool {
    method == Method::Get || method == Method::Head || method == Method::Options
}

pub fn is_read_only(method: Method) -> (r: bool)
    ensures
        r == reads_only(method),
{
    matches!(method, Method::Get | Method::Head | Method::Options)
}

// ---------------------------------------------------------------------
// Accounts
// ---------------------------------------------------------------------

/// The refusal of a session that no longer counts.
pub open spec fn revoked() -> Failure {
    plain_rule(
        status::UNAUTHORIZED,
        codes::SESSION_REVOKED@,
        "Your session is no longer valid. Please sign in again."@,
    )
}

/// The refusal of a change while viewing as someone else.
pub open spec fn read_only_refusal() -> Failure {
    plain_rule(
        status::FORBIDDEN,
        codes::IMPERSONATION_READ_ONLY@,
        "Changes are disabled while viewing the platform as another user."@,
    )
}

/// The refusal of an account that must change its password first.
pub open spec fn password_refusal() -> Failure {
    plain_rule(
        status::FORBIDDEN,
        codes::PASSWORD_CHANGE_REQUIRED@,
        "You must change your password before continuing."@,
    )
}

/// The refusal of a staff account without two-factor authentication.
pub open spec fn two_factor_refusal() -> Failure {
    plain_rule(
        status::FORBIDDEN,
        codes::STAFF_TWO_FACTOR_REQUIRED@,
        "Enable two-factor authentication to keep using your staff account."@,
    )
}

/// The refusal of a staff account without two-factor authentication.
pub fn staff_two_factor_required() -> (r: ApiError)
    ensures
        r@ == two_factor_refusal(),
{
    ApiError::rule(
        status::FORBIDDEN,
        codes::STAFF_TWO_FACTOR_REQUIRED,
        "Enable two-factor authentication to keep using your staff account.",
    )
}

/// Why an account can't use the platform at the moment `now`; none when it
/// can.
pub open spec fn unusable(account: AuthState, now: int) -> Option<Failure> {
    if account.status != Status::Active {
        Some(
            plain_rule(
                status::FORBIDDEN,
                codes::ACCOUNT_DEACTIVATED@,
                "This account is deactivated. Contact an administrator."@,
            ),
        )
    } else {
        match ban_at(account.banned_at, account.banned_until, now) {
            Some(until) => Some(
                detailed_rule(
                    status::FORBIDDEN,
                    codes::ACCOUNT_BANNED@,
                    ban_message(until),
                    Json::Object(
                        seq![
                            ("reason"@, json_text(opt_text(account.ban_reason))),
                            ("until"@, json_moment(until)),
                        ],
                    ),
                ),
            ),
            None => None,
        }
    }
}

/// Rejects an account that can't currently use the platform.
pub fn ensure_account_usable(state: &AuthState, now: NaiveDateTime) -> (r: Result<(), ApiError>)
    ensures
        match unusable(*state, now@) {
            None => r is Ok,
            Some(f) => r matches Err(e) && e@ == f,
        },
{
    if state.status != Status::Active {
        return Err(ApiError::account_deactivated());
    }
    if let Some(until) = active_ban(state.banned_at, state.banned_until, now) {
        return Err(ApiError::account_banned(until, copy_of(&state.ban_reason)));
    }
    Ok(())
}

// ---------------------------------------------------------------------
// Claims
// ---------------------------------------------------------------------

/// Why a "view as" token is refused; none when it counts.
pub open spec fn view_as_refusal(
    claims: Claims,
    account: AuthState,
    impersonator: Option<AuthState>,
    method: Option<Method>,
    now: int,
) -> Option<Failure> {
    match impersonator {
        None => Some(revoked()),
        Some(i) => if unusable(i, now) is Some || claims.iver != Some(i.token_version)
            || !may_manage(i.role, account.role) || lacks_two_factor(i, now) {
            Some(revoked())
        } else if method matches Some(m) && !reads_only(m) {
            Some(read_only_refusal())
        } else {
            None
        },
    }
}

/// Why a token of the account itself is refused; none when it counts.
pub open spec fn own_refusal(
    claims: Claims,
    account: AuthState,
    request: Option<(Method, Seq<char>)>,
    now: int,
) -> Option<Failure> {
    if account.token_version != claims.ver {
        Some(revoked())
    } else if unusable(account, now) is Some {
        unusable(account, now)
    } else if request matches Some((m, p)) && account.must_change_password
        && !kept_until_password_change(m, p) {
        Some(password_refusal())
    } else if request matches Some((m, p)) && lacks_two_factor(account, now)
        && !kept_without_two_factor(m, p) {
        Some(two_factor_refusal())
    } else {
        None
    }
}

/// Why a token is refused; none when it counts.
pub open spec fn refusal(
    claims: Claims,
    account: Option<AuthState>,
    impersonator: Option<AuthState>,
    request: Option<(Method, Seq<char>)>,
    now: int,
) -> Option<Failure> {
    match account {
        None => Some(revoked()),
        Some(a) => if claims.imp is Some {
            view_as_refusal(
                claims,
                a,
                impersonator,
                match request {
                    Some((m, _)) => Some(m),
                    None => None,
                },
                now,
            )
        } else {
            own_refusal(claims, a, request, now)
        },
    }
}

/// What a request asks for.
pub open spec fn request_view(request: Option<(Method, &str)>) -> Option<(Method, Seq<char>)> {
    match request {
        Some((m, p)) => Some((m, p@)),
        None => None,
    }
}

/// Checks decoded `claims` against the accounts' *current* state and
/// returns the subject's state. Shared by the middleware and
/// `/auth/verify`, so a token is valid in exactly the same cases in both.
///
/// `account` is that of `claims.sub`, `impersonator` that of `claims.imp`
/// (where there are any). `request` is the method and path of the call being
/// authorized, or `None` when only the token itself is being verified.
pub fn check_claims(
    claims: &Claims,
    account: Option<AuthState>,
    impersonator: &Option<AuthState>,
    request: Option<(Method, &str)>,
    now: NaiveDateTime,
) -> (r: Result<AuthState, ApiError>)
    ensures
        match refusal(*claims, account, *impersonator, request_view(request), now@) {
            None => r is Ok && account == Some(r->Ok_0),
            Some(f) => r matches Err(e) && e@ == f,
        },
{
    let account = match account {
        Some(a) => a,
        None => {
            return Err(ApiError::session_revoked());
        },
    };
    if claims.imp.is_some() {
        let i = match impersonator {
            Some(i) => i,
            None => {
                return Err(ApiError::session_revoked());
            },
        };
        if ensure_account_usable(i, now).is_err() {
            return Err(ApiError::session_revoked());
        }
        // Bound to the impersonator's sessions: signing them out (or a
        // password change) ends every "view as" session they opened.
        let bound = match claims.iver {
            Some(v) => v == i.token_version,
            None => false,
        };
        if !bound {
            return Err(ApiError::session_revoked());
        }
        if !i.role.outranks(&account.role) {
            return Err(ApiError::session_revoked());
        }
        // Staff who haven't enabled 2FA can't open "view as" sessions,
        // and the ones they opened stop working.
        if staff_two_factor_missing(i, now) {
            return Err(ApiError::session_revoked());
        }
        if let Some((method, _)) = request {
            if !is_read_only(method) {
                return Err(ApiError::impersonation_read_only());
            }
        }
        // The target's own suspension/deactivation is deliberately
        // *not* enforced here: staff often need to look at exactly
        // those accounts.
        return Ok(account);
    }
    if account.token_version != claims.ver {
        return Err(ApiError::session_revoked());
    }
    if let Err(e) = ensure_account_usable(&account, now) {
        return Err(e);
    }
    if let Some((method, path)) = request {
        if account.must_change_password && !allowed_while_password_change_required(method, path) {
            return Err(ApiError::password_change_required());
        }
        if staff_two_factor_missing(&account, now) && !allowed_without_staff_two_factor(
            method,
            path,
        ) {
            return Err(staff_two_factor_required());
        }
    }
    Ok(account)
}

/// "View as" sessions never change anything: whatever the accounts, a request
/// that could is refused.
pub proof fn view_as_sessions_never_write(
    claims: Claims,
    account: Option<AuthState>,
    impersonator: Option<AuthState>,
    method: Method,
    path: Seq<char>,
    now: int,
)
    requires
        claims.imp is Some,
        !reads_only(method),
    ensures
        refusal(claims, account, impersonator, Some((method, path)), now) is Some,
{
}

/// A token counts only while the staff member behind it still outranks the
/// account, has not been signed out, deactivated or suspended, and has the
/// second factor that staff owe.
pub proof fn view_as_sessions_end_with_their_staff_member(
    claims: Claims,
    account: AuthState,
    impersonator: Option<AuthState>,
    request: Option<(Method, Seq<char>)>,
    now: int,
)
    requires
        claims.imp is Some,
        refusal(claims, Some(account), impersonator, request, now) is None,
    ensures
        impersonator matches Some(i) && may_manage(i.role, account.role) && claims.iver == Some(
            i.token_version,
        ) && unusable(i, now) is None && !lacks_two_factor(i, now),
{
}

/// Raising the token version of an account revokes every token issued before.
pub proof fn raising_the_version_revokes_tokens(
    claims: Claims,
    account: AuthState,
    impersonator: Option<AuthState>,
    request: Option<(Method, Seq<char>)>,
    now: int,
)
    requires
        claims.imp is None,
        account.token_version != claims.ver,
    ensures
        refusal(claims, Some(account), impersonator, request, now) == Some(revoked()),
{
}

/// A deactivated or suspended account is locked out, whatever its token says.
pub proof fn unusable_accounts_are_locked_out(
    claims: Claims,
    account: AuthState,
    impersonator: Option<AuthState>,
    request: Option<(Method, Seq<char>)>,
    now: int,
)
    requires
        claims.imp is None,
        unusable(account, now) is Some,
    ensures
        refusal(claims, Some(account), impersonator, request, now) is Some,
{
}

// ---------------------------------------------------------------------
// Requests
// ---------------------------------------------------------------------

/// The token in an `Authorization` header; nothing where there is none.
pub open spec fn bearer(header: Option<Seq<char>>) -> Option<Seq<char>> {
    match header {
        Some(h) => if starts_with(h, "Bearer "@) && trim(h.skip(7)).len() > 0 {
            Some(trim(h.skip(7)))
        } else {
            None
        },
        None => None,
    }
}

/// The token of a request, from its `Authorization` header.
pub fn bearer_token(header: Option<&str>) -> (r: Result<String, ApiError>)
    ensures
        match bearer(opt_str(header)) {
            Some(t) => r matches Ok(x) && x@ == t,
            None => r matches Err(e) && e@ == Failure::Auth(AuthError::MissingToken),
        },
{
    proof {
        reveal_strlit("Bearer ");
    }
    if let Some(h) = header {
        if let Some(rest) = strip(h, "Bearer ") {
            let token = trimmed(rest.as_str());
            if !token.as_str().is_empty() {
                return Ok(token);
            }
        }
    }
    Err(ApiError::AuthError(AuthError::MissingToken))
}

/// The claims that handlers see: those of the token, with the *current*
/// role, name and status of the account.
pub fn current_claims(claims: Claims, account: AuthState) -> (r: Claims)
    ensures
        r == (Claims {
            role: account.role,
            username: account.username,
            status: account.status,
            ..claims
        }),
{
    Claims { role: account.role, username: account.username, status: account.status, ..claims }
}

/// Who views as someone else, where someone does.
pub fn impersonation_of(claims: &Claims) -> (r: Option<Impersonation>)
    ensures
        r == match claims.imp {
            Some(id) => Some(Impersonation { impersonator_id: id }),
            None => None,
        },
{
    match claims.imp {
        Some(impersonator_id) => Some(Impersonation { impersonator_id }),
        None => None,
    }
}

/// What is recorded of a request made while viewing as someone else.
pub open spec fn view_as_record(method: Seq<char>, path: Seq<char>, blocked: bool) -> Json {
    Json::Object(
        seq![
            ("blocked"@, Json::Bool(blocked)),
            ("method"@, Json::Text(method)),
            ("path"@, Json::Text(path)),
        ],
    )
}

/// What is recorded of a request made while viewing as someone else: every
/// one is (LGPD accountability for staff access to personal data), bulk
/// exports as refused ones.
pub fn view_as_meta(method: Method, method_name: &str, path: &str) -> (r: (JsonValue, bool))
    ensures
        r.1 == exports_in_bulk(method, path@),
        r.0@ == view_as_record(method_name@, path@, r.1),
{
    let blocked = is_bulk_export(method, path);
    let mut m: Vec<(String, JsonValue)> = Vec::new();
    m.push(("blocked".to_string(), JsonValue::Bool(blocked)));
    m.push(("method".to_string(), text_value(method_name)));
    m.push(("path".to_string(), text_value(path)));
    assert(members(m@) =~= view_as_record(method_name@, path@, blocked)->Object_0);
    (object_value(m), blocked)
}

/// Whether an answer to an impersonation session is rewritten: successful
/// JSON answers are; anything else passes through.
pub fn must_redact(content_type: Option<&str>, status: u16) -> (r: bool)
    ensures
        r == (opt_str(content_type) matches Some(t) && starts_with(t, "application/json"@) && 200
            <= status < 300),
{
    match content_type {
        Some(t) => has_prefix(t, "application/json") && 200 <= status && status < 300,
        None => false,
    }
}

/// Whether the answer to a request for `path` holds invite codes.
pub fn holds_invite_codes(path: &str) -> (r: bool)
    ensures
        r == contains(path@, "/invites"@),
{
    has(path, "/invites")
}

} // verus!
