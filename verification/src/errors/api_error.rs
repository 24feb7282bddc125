//! The errors of the API and the answers they become.

use crate::errors::auth_error::{auth_text, AuthError};
use crate::errors::codes;
use crate::errors::config_error::{config_text, ConfigError};
use crate::errors::status;
use crate::json::{
    json_number, json_text, jsons, list_value, member, members, number_value, object1, object2,
    object_value, opt_text_value, text_member, text_value, Json, Number, JsonValue,
};
use crate::text::{number, number_of, opt_str, opt_text, same, slice_of};
use crate::time::{
    chrono_moment_text, is_moment, moment_in, moment_json, nanos_between, NaiveDateTime, DAY_AND_MINUTE,
};
use crate::validation::{field_views, FieldError, FieldView, ValidationErrors};
use vstd::prelude::*;

verus! {

/// A failure. What another component said of its own failure is kept for the
/// logs.
#[derive(Debug)]
pub enum ApiError {
    /// `sqlstate` is the code of the database, when the database gave one.
    DatabaseError { sqlstate: Option<String>, message: String },
    ValidationError(ValidationErrors),
    EncryptionError(String),
    JWTError(String),
    ServerError(String),
    AuthError(AuthError),
    ConfigError(ConfigError),
    NotFound,
    AlreadyExists,
    NotModified,
    Unauthorized,
    Forbidden,
    BadRequest(String),
    WrongPassword,
    /// A business-rule failure with a stable [`codes`] entry, so clients can
    /// react to (and translate) it without parsing English prose.
    Rule { status: u16, code: &'static str, message: String, meta: Option<JsonValue> },
}

/// What an error is.
pub ghost enum Failure {
    Database { sqlstate: Option<Seq<char>>, message: Seq<char> },
    Validation(Seq<FieldView>),
    Encryption(Seq<char>),
    Jwt(Seq<char>),
    Server(Seq<char>),
    Auth(AuthError),
    Config(Seq<char>),
    NotFound,
    AlreadyExists,
    NotModified,
    Unauthorized,
    Forbidden,
    BadRequest(Seq<char>),
    WrongPassword,
    Rule { status: u16, code: Seq<char>, message: Seq<char>, meta: Option<Json> },
}

pub open spec fn opt_json(v: Option<JsonValue>) -> Option<Json> {
    match v {
        Some(x) => Some(x@),
        None => None,
    }
}

impl View for ApiError {
    type V = Failure;

    open spec fn view(&self) -> Failure {
        match self {
            ApiError::DatabaseError { sqlstate, message } => Failure::Database {
                sqlstate: opt_text(*sqlstate),
                message: message@,
            },
            ApiError::ValidationError(e) => Failure::Validation(e@.fields),
            ApiError::EncryptionError(m) => Failure::Encryption(m@),
            ApiError::JWTError(m) => Failure::Jwt(m@),
            ApiError::ServerError(m) => Failure::Server(m@),
            ApiError::AuthError(e) => Failure::Auth(*e),
            ApiError::ConfigError(e) => Failure::Config(config_text(*e)),
            ApiError::NotFound => Failure::NotFound,
            ApiError::AlreadyExists => Failure::AlreadyExists,
            ApiError::NotModified => Failure::NotModified,
            ApiError::Unauthorized => Failure::Unauthorized,
            ApiError::Forbidden => Failure::Forbidden,
            ApiError::BadRequest(m) => Failure::BadRequest(m@),
            ApiError::WrongPassword => Failure::WrongPassword,
            ApiError::Rule { status, code, message, meta } => Failure::Rule {
                status: *status,
                code: code@,
                message: message@,
                meta: opt_json(*meta),
            },
        }
    }
}

/// A rule failure without more to say.
pub open spec fn plain_rule(status: u16, code: Seq<char>, message: Seq<char>) -> Failure {
    Failure::Rule { status, code, message, meta: None }
}

/// A rule failure with its details.
pub open spec fn detailed_rule(
    status: u16,
    code: Seq<char>,
    message: Seq<char>,
    meta: Json,
) -> Failure {
    Failure::Rule { status, code, message, meta: Some(meta) }
}

/// The message to someone who is suspended.
pub open spec fn ban_message(until: Option<NaiveDateTime>) -> Seq<char> {
    match until {
        Some(t) => "This account is suspended until "@ + chrono_moment_text(t@, DAY_AND_MINUTE@)
            + " UTC."@,
        None => "This account is permanently suspended."@,
    }
}

/// A moment as JSON, or null.
pub open spec fn json_moment(t: Option<NaiveDateTime>) -> Json {
    match t {
        Some(m) => Json::Text(moment_json(m@)),
        None => Json::Null,
    }
}

/// A moment as JSON, or null.
pub fn moment_value(t: &Option<NaiveDateTime>) -> (r: JsonValue)
    ensures
        r@ == json_moment(*t),
{
    match t {
        Some(m) => JsonValue::Text(m.to_text()),
        None => JsonValue::Null,
    }
}

impl ApiError {
    pub fn rule(status: u16, code: &'static str, message: &str) -> (r: Self)
        ensures
            r@ == plain_rule(status, code@, message@),
    {
        ApiError::Rule { status, code, message: message.to_string(), meta: None }
    }

    pub fn rule_with_meta(status: u16, code: &'static str, message: &str, meta: JsonValue) -> (r: Self)
        ensures
            r@ == detailed_rule(status, code@, message@, meta@),
    {
        ApiError::Rule { status, code, message: message.to_string(), meta: Some(meta) }
    }

    pub fn invalid_credentials() -> (r: Self)
        ensures
            r@ == plain_rule(
                status::UNAUTHORIZED,
                codes::INVALID_CREDENTIALS@,
                "Invalid username or password."@,
            ),
    {
        ApiError::rule(
            status::UNAUTHORIZED,
            codes::INVALID_CREDENTIALS,
            "Invalid username or password.",
        )
    }

    pub fn account_deactivated() -> (r: Self)
        ensures
            r@ == plain_rule(
                status::FORBIDDEN,
                codes::ACCOUNT_DEACTIVATED@,
                "This account is deactivated. Contact an administrator."@,
            ),
    {
        ApiError::rule(
            status::FORBIDDEN,
            codes::ACCOUNT_DEACTIVATED,
            "This account is deactivated. Contact an administrator.",
        )
    }

    pub fn session_revoked() -> (r: Self)
        ensures
            r@ == plain_rule(
                status::UNAUTHORIZED,
                codes::SESSION_REVOKED@,
                "Your session is no longer valid. Please sign in again."@,
            ),
    {
        ApiError::rule(
            status::UNAUTHORIZED,
            codes::SESSION_REVOKED,
            "Your session is no longer valid. Please sign in again.",
        )
    }

    pub fn password_change_required() -> (r: Self)
        ensures
            r@ == plain_rule(
                status::FORBIDDEN,
                codes::PASSWORD_CHANGE_REQUIRED@,
                "You must change your password before continuing."@,
            ),
    {
        ApiError::rule(
            status::FORBIDDEN,
            codes::PASSWORD_CHANGE_REQUIRED,
            "You must change your password before continuing.",
        )
    }

    pub fn impersonation_read_only() -> (r: Self)
        ensures
            r@ == plain_rule(
                status::FORBIDDEN,
                codes::IMPERSONATION_READ_ONLY@,
                "Changes are disabled while viewing the platform as another user."@,
            ),
    {
        ApiError::rule(
            status::FORBIDDEN,
            codes::IMPERSONATION_READ_ONLY,
            "Changes are disabled while viewing the platform as another user.",
        )
    }

    pub fn account_banned(until: Option<NaiveDateTime>, reason: Option<String>) -> (r: Self)
        ensures
            r@ == detailed_rule(
                status::FORBIDDEN,
                codes::ACCOUNT_BANNED@,
                ban_message(until),
                Json::Object(
                    seq![
                        ("reason"@, json_text(opt_text(reason))),
                        ("until"@, json_moment(until)),
                    ],
                ),
            ),
    {
        let message = match &until {
            Some(t) => {
                let mut m = "This account is suspended until ".to_string();
                m.append(t.format(DAY_AND_MINUTE).as_str());
                m.append(" UTC.");
                m
            },
            None => "This account is permanently suspended.".to_string(),
        };
        let meta = object2(
            "reason",
            opt_text_value(slice_of(&reason)),
            "until",
            moment_value(&until),
        );
        ApiError::rule_with_meta(
            status::FORBIDDEN,
            codes::ACCOUNT_BANNED,
            message.as_str(),
            meta,
        )
    }

    pub fn insufficient_role(message: &str) -> (r: Self)
        ensures
            r@ == plain_rule(status::FORBIDDEN, codes::INSUFFICIENT_ROLE@, message@),
    {
        ApiError::rule(status::FORBIDDEN, codes::INSUFFICIENT_ROLE, message)
    }

    pub fn cannot_target_self(message: &str) -> (r: Self)
        ensures
            r@ == plain_rule(status::FORBIDDEN, codes::CANNOT_TARGET_SELF@, message@),
    {
        ApiError::rule(status::FORBIDDEN, codes::CANNOT_TARGET_SELF, message)
    }

    pub fn quota_exceeded(resource: &str, limit: i64) -> (r: Self)
        ensures
            r@ == detailed_rule(
                status::FORBIDDEN,
                codes::QUOTA_EXCEEDED@,
                "You have reached the limit of "@ + number(limit as int) + " for '"@ + resource@
                    + "'."@,
                Json::Object(
                    seq![
                        ("limit"@, json_number(limit as int)),
                        ("resource"@, Json::Text(resource@)),
                    ],
                ),
            ),
    {
        let mut message = "You have reached the limit of ".to_string();
        message.append(number_of(limit).as_str());
        message.append(" for '");
        message.append(resource);
        message.append("'.");
        ApiError::rule_with_meta(
            status::FORBIDDEN,
            codes::QUOTA_EXCEEDED,
            message.as_str(),
            object2("limit", number_value(limit), "resource", text_value(resource)),
        )
    }

    pub fn weak_password(issues: &Vec<&'static str>) -> (r: Self)
        ensures
            r@ == detailed_rule(
                status::BAD_REQUEST,
                codes::WEAK_PASSWORD@,
                "The password does not meet the security requirements."@,
                Json::Object(
                    seq![
                        (
                            "issues"@,
                            Json::Array(
                                Seq::new(issues@.len(), |i: int| Json::Text(issues@[i]@)),
                            ),
                        ),
                    ],
                ),
            ),
    {
        let mut list: Vec<JsonValue> = Vec::new();
        let mut i: usize = 0;
        while i < issues.len()
            invariant
                i <= issues@.len(),
                jsons(list@) =~= Seq::new(i as nat, |j: int| Json::Text(issues@[j]@)),
            decreases issues@.len() - i,
        {
            let ghost before = list@;
            let v = text_value(issues[i]);
            list.push(v);
            assert(jsons(list@) =~= jsons(before).push(v@));
            i = i + 1;
        }
        ApiError::rule_with_meta(
            status::BAD_REQUEST,
            codes::WEAK_PASSWORD,
            "The password does not meet the security requirements.",
            object1("issues", list_value(list)),
        )
    }

    /// The machine-readable code this error serializes with.
    pub fn code(&self) -> (r: &str)
        ensures
            r@ == code_of(self@),
    {
        match self {
            ApiError::DatabaseError { sqlstate, .. } => if is_unique_violation(sqlstate) {
                "ALREADY_EXISTS"
            } else {
                "DATABASE_ERROR"
            },
            ApiError::ValidationError(_) => "VALIDATION_ERROR",
            ApiError::EncryptionError(_) => "ENCRYPT_ERROR",
            ApiError::JWTError(_) => "JWT_ERROR",
            ApiError::ServerError(_) => "SERVER_ERROR",
            ApiError::AuthError(_) => "AUTH_ERROR",
            ApiError::ConfigError(_) => "CONFIG_ERROR",
            ApiError::NotFound => "NOT_FOUND",
            ApiError::AlreadyExists => "ALREADY_EXISTS",
            ApiError::NotModified => "UNPROCESSABLE_ENTITY",
            ApiError::Unauthorized => "UNAUTHORIZED",
            ApiError::Forbidden => "FORBIDDEN",
            ApiError::BadRequest(_) => "BAD_REQUEST",
            ApiError::WrongPassword => "WRONG_PASSWORD",
            ApiError::Rule { code, .. } => code,
        }
    }
}

/// The code of the database for a value that must be unique and is not.
pub const UNIQUE_VIOLATION: &'static str = "23505";

/// The database refused a second value.
pub open spec fn is_duplicate(sqlstate: Option<Seq<char>>) -> bool {
    sqlstate == Some(UNIQUE_VIOLATION@)
}

fn is_unique_violation(sqlstate: &Option<String>) -> (r: bool)
    ensures
        r == is_duplicate(opt_text(*sqlstate)),
{
    match sqlstate {
        Some(s) => same(s.as_str(), UNIQUE_VIOLATION),
        None => false,
    }
}

/// The machine-readable code of an error.
pub open spec fn code_of(e: Failure) -> Seq<char> {
    match e {
        Failure::Database { sqlstate, .. } => if is_duplicate(sqlstate) {
            "ALREADY_EXISTS"@
        } else {
            "DATABASE_ERROR"@
        },
        Failure::Validation(_) => "VALIDATION_ERROR"@,
        Failure::Encryption(_) => "ENCRYPT_ERROR"@,
        Failure::Jwt(_) => "JWT_ERROR"@,
        Failure::Server(_) => "SERVER_ERROR"@,
        Failure::Auth(_) => "AUTH_ERROR"@,
        Failure::Config(_) => "CONFIG_ERROR"@,
        Failure::NotFound => "NOT_FOUND"@,
        Failure::AlreadyExists => "ALREADY_EXISTS"@,
        Failure::NotModified => "UNPROCESSABLE_ENTITY"@,
        Failure::Unauthorized => "UNAUTHORIZED"@,
        Failure::Forbidden => "FORBIDDEN"@,
        Failure::BadRequest(_) => "BAD_REQUEST"@,
        Failure::WrongPassword => "WRONG_PASSWORD"@,
        Failure::Rule { code, .. } => code,
    }
}

// ---------------------------------------------------------------------
// Validation errors
// ---------------------------------------------------------------------

/// The message of an error: its own, or one that names the field.
pub open spec fn field_message(e: FieldView) -> Seq<char> {
    match e.error.message {
        Some(m) => m,
        None => "Invalid value for '"@ + e.field + "'."@,
    }
}

/// An error as JSON.
pub open spec fn field_entry(e: FieldView) -> Json {
    Json::Object(
        seq![("code"@, Json::Text(e.error.code)), ("message"@, Json::Text(field_message(e)))],
    )
}

/// The fields, each with its errors.
pub open spec fn grouped(v: Seq<FieldView>) -> Seq<(Seq<char>, Seq<Json>)>
    decreases v.len(),
{
    if v.len() == 0 {
        seq![]
    } else {
        let g = grouped(v.drop_last());
        let e = v.last();
        if g.len() > 0 && g.last().0 == e.field {
            g.drop_last().push((e.field, g.last().1.push(field_entry(e))))
        } else {
            g.push((e.field, seq![field_entry(e)]))
        }
    }
}

/// `{ field: [{ code, message }] }`.
pub open spec fn fields_json(v: Seq<FieldView>) -> Json {
    let g = grouped(v);
    Json::Object(Seq::new(g.len(), |i: int| (g[i].0, Json::Array(g[i].1))))
}

/// The first human-readable message.
pub open spec fn first_message(v: Seq<FieldView>) -> Seq<char> {
    if v.len() == 0 {
        "One or more validation errors occurred."@
    } else {
        field_message(v[0])
    }
}

fn message_of(e: &FieldError) -> (r: String)
    ensures
        r@ == field_message(e@),
{
    match &e.error.message {
        Some(m) => m.clone(),
        None => {
            let mut r = "Invalid value for '".to_string();
            r.append(e.field.as_str());
            r.append("'.");
            r
        },
    }
}

spec fn group_views(v: Seq<(String, Vec<JsonValue>)>) -> Seq<(Seq<char>, Seq<Json>)> {
    Seq::new(v.len(), |i: int| (v[i].0@, jsons(v[i].1@)))
}

fn groups(errors: &Vec<FieldError>) -> (r: Vec<(String, Vec<JsonValue>)>)
    ensures
        group_views(r@) == grouped(field_views(errors@)),
{
    let ghost all = field_views(errors@);
    let mut out: Vec<(String, Vec<JsonValue>)> = Vec::new();
    let mut i: usize = 0;
    assert(all.take(0) =~= seq![]);
    assert(group_views(out@) =~= seq![]);
    while i < errors.len()
        invariant
            all == field_views(errors@),
            i <= errors@.len(),
            group_views(out@) == grouped(all.take(i as int)),
        decreases errors@.len() - i,
    {
        let e = &errors[i];
        proof {
            assert(all.take(i + 1).drop_last() =~= all.take(i as int));
            assert(all.take(i + 1).last() == e@);
        }
        let entry = object2(
            "code",
            text_value(e.error.code.as_str()),
            "message",
            JsonValue::Text(message_of(e)),
        );
        assert(entry@ == field_entry(e@));
        let ghost before = out@;
        let n = out.len();
        if n > 0 && same(out[n - 1].0.as_str(), e.field.as_str()) {
            match out.pop() {
                Some(last) => {
                    let name = last.0;
                    let mut list = last.1;
                    let ghost had = list@;
                    list.push(entry);
                    assert(jsons(list@) =~= jsons(had).push(entry@));
                    let ghost middle = out@;
                    out.push((name, list));
                    assert(group_views(out@) =~= group_views(before).drop_last().push(
                        (name@, jsons(list@)),
                    ));
                },
                None => {},
            }
        } else {
            let mut list: Vec<JsonValue> = Vec::new();
            list.push(entry);
            assert(jsons(list@) =~= seq![entry@]);
            let name = e.field.clone();
            out.push((name, list));
            assert(group_views(out@) =~= group_views(before).push((name@, jsons(list@))));
        }
        i = i + 1;
    }
    assert(all.take(i as int) =~= all);
    out
}

/// Flattens validation errors into `{ field: [{ code, message }] }` and
/// picks the first human-readable message, so a client can both show a
/// useful toast and highlight the offending fields.
pub fn describe_validation_errors(errors: &ValidationErrors) -> (r: (String, JsonValue))
    ensures
        r.0@ == first_message(errors@.fields),
        r.1@ == Json::Object(seq![("fields"@, fields_json(errors@.fields))]),
{
    let message = if errors.errors.len() == 0 {
        "One or more validation errors occurred.".to_string()
    } else {
        message_of(&errors.errors[0])
    };
    let g = groups(&errors.errors);
    let ghost wanted = group_views(g@);
    let mut fields: Vec<(String, JsonValue)> = Vec::new();
    for group in it: g
        invariant
            it.seq() == g@,
            wanted == group_views(g@),
            members(fields@) =~= Seq::new(
                it.index() as nat,
                |i: int| (wanted[i].0, Json::Array(wanted[i].1)),
            ),
    {
        let ghost before = fields@;
        assert(wanted[it.index() as int] == (group.0@, jsons(group.1@)));
        let v = list_value(group.1);
        fields.push((group.0, v));
        assert(members(fields@) =~= members(before).push((group.0@, v@)));
    }
    (message, object1("fields", object_value(fields)))
}

// ---------------------------------------------------------------------
// Answers
// ---------------------------------------------------------------------

/// The answer to a failed request.
#[derive(Debug)]
pub struct ErrorResponse {
    pub status: u16,
    pub code: String,
    pub message: String,
    pub details: Option<String>,
    pub meta: Option<JsonValue>,
    /// The `Retry-After` header.
    pub retry_after: Option<u64>,
}

/// What an answer says.
pub ghost struct Answer {
    pub status: u16,
    pub code: Seq<char>,
    pub message: Seq<char>,
    pub details: Option<Seq<char>>,
    pub meta: Option<Json>,
    pub retry_after: Option<u64>,
}

impl View for ErrorResponse {
    type V = Answer;

    open spec fn view(&self) -> Answer {
        Answer {
            status: self.status,
            code: self.code@,
            message: self.message@,
            details: opt_text(self.details),
            meta: opt_json(self.meta),
            retry_after: self.retry_after,
        }
    }
}

/// The whole seconds in a number, rounded up.
pub open spec fn seconds_in(v: Json) -> Option<int> {
    match v {
        Json::Unsigned(n) => Some(
            if n <= i64::MAX {
                n as int
            } else {
                i64::MAX as int
            },
        ),
        Json::Negative(n) => Some(n as int),
        Json::Decimal(_, ceiling) => Some(ceiling as int),
        _ => None,
    }
}

/// The whole seconds from the moment `now` to the moment `t`, rounded up.
pub open spec fn seconds_until(t: int, now: int) -> int {
    -((-nanos_between(now, t)) / 1_000_000_000)
}

/// `n`, and at least one.
pub open spec fn at_least_one(n: int) -> u64 {
    if n < 1 {
        1
    } else {
        n as u64
    }
}

/// A status that asks the client to wait.
pub open spec fn asks_to_wait(code: u16) -> bool {
    code == status::TOO_MANY_REQUESTS || code == status::SERVICE_UNAVAILABLE
}

/// The seconds to wait that an answer tells.
pub open spec fn wait_of(code: u16, meta: Option<Json>, now: int) -> Option<u64> {
    if !asks_to_wait(code) || meta is None {
        None
    } else {
        match member(meta->0, "retry_after_seconds"@) {
            Some(v) => match seconds_in(v) {
                Some(s) => Some(at_least_one(s)),
                None => None,
            },
            None => match text_member(meta->0, "until"@) {
                Some(text) => match moment_in(text) {
                    Some(m) => Some(at_least_one(seconds_until(m, now))),
                    None => None,
                },
                None => None,
            },
        }
    }
}

fn number_seconds(v: &JsonValue) -> (r: Option<i64>)
    ensures
        match r {
            Some(s) => seconds_in(v@) == Some(s as int),
            None => seconds_in(v@) is None,
        },
{
    match v {
        JsonValue::Number(Number::Unsigned(n)) => if *n <= i64::MAX as u64 {
            Some(*n as i64)
        } else {
            Some(i64::MAX)
        },
        JsonValue::Number(Number::Negative(n)) => Some(*n),
        JsonValue::Number(Number::Decimal { ceiling, .. }) => Some(*ceiling),
        _ => None,
    }
}

/// The whole seconds from `now` to a moment, rounded up, and at least one.
pub fn wait_until(moment: &NaiveDateTime, now: &NaiveDateTime) -> (r: u64)
    ensures
        r == at_least_one(seconds_until(moment@, now@)),
{
    let left: i128 = now.nanos_until(moment);
    if left <= 0 {
        assert(seconds_until(moment@, now@) < 1) by (nonlinear_arith)
            requires
                left <= 0,
                seconds_until(moment@, now@) == -((-left as int) / 1_000_000_000),
        ;
        1
    } else {
        let whole = (left - 1) / 1_000_000_000 + 1;
        assert(whole == seconds_until(moment@, now@)) by (nonlinear_arith)
            requires
                left > 0,
                whole == (left - 1) / 1_000_000_000 + 1,
                seconds_until(moment@, now@) == -((-left as int) / 1_000_000_000),
        ;
        whole as u64
    }
}

/// The `Retry-After` value (in whole seconds, at least 1) for a 429/503
/// answer whose meta says how long to wait: either
/// `meta.retry_after_seconds` or, for lockouts, `meta.until` (a UTC
/// timestamp, counted from now). `None` for any other answer, so clients
/// only back off when the server actually told them to.
pub fn retry_after_seconds(status: u16, meta: Option<&JsonValue>, now: &NaiveDateTime) -> (r: Option<
    u64,
>)
    ensures
        r == wait_of(
            status,
            match meta {
                Some(m) => Some(m@),
                None => None,
            },
            now@,
        ),
        forall|t: int|
            is_moment(t) && asks_to_wait(status) && meta is Some && member(
                meta->0@,
                "retry_after_seconds"@,
            ) is None && text_member(meta->0@, "until"@) == Some(#[trigger] moment_json(t)) ==> r
                == Some(at_least_one(seconds_until(t, now@))),
{
    if status != status::TOO_MANY_REQUESTS && status != status::SERVICE_UNAVAILABLE {
        return None;
    }
    let meta = match meta {
        Some(m) => m,
        None => {
            return None;
        },
    };
    match meta.get("retry_after_seconds") {
        Some(v) => match number_seconds(v) {
            Some(s) => if s < 1 {
                Some(1)
            } else {
                Some(s as u64)
            },
            None => None,
        },
        None => match meta.text_of("until") {
            Some(text) => match NaiveDateTime::parse(text) {
                Some(m) => Some(wait_until(&m, now)),
                None => None,
            },
            None => None,
        },
    }
}

/// An answer without details of the rule.
pub open spec fn plain_answer(
    status: u16,
    code: Seq<char>,
    message: Seq<char>,
    details: Option<Seq<char>>,
) -> Answer {
    Answer { status, code, message, details, meta: None, retry_after: None }
}

/// The answer to an error, at the moment `now`.
pub open spec fn answer_of(e: Failure, now: int) -> Answer {
    let code = code_of(e);
    match e {
        Failure::Database { sqlstate, .. } => if is_duplicate(sqlstate) {
            plain_answer(
                status::CONFLICT,
                code,
                "A resource with the provided details already exists."@,
                Some("Please choose a different name."@),
            )
        } else {
            plain_answer(
                status::INTERNAL_SERVER_ERROR,
                code,
                "An unexpected database error occurred."@,
                Some("Please try again later or contact support."@),
            )
        },
        Failure::Validation(v) => Answer {
            meta: Some(Json::Object(seq![("fields"@, fields_json(v))])),
            ..plain_answer(status::BAD_REQUEST, code, first_message(v), None)
        },
        Failure::Encryption(_) => plain_answer(
            status::INTERNAL_SERVER_ERROR,
            code,
            "One or more encryption errors occurred."@,
            None,
        ),
        Failure::Jwt(_) => plain_answer(
            status::INTERNAL_SERVER_ERROR,
            code,
            "One or more JWT errors occurred."@,
            None,
        ),
        Failure::Server(_) => plain_answer(
            status::INTERNAL_SERVER_ERROR,
            code,
            "One or more server errors occurred."@,
            None,
        ),
        Failure::Config(_) => plain_answer(
            status::INTERNAL_SERVER_ERROR,
            code,
            "One or more config errors occurred."@,
            None,
        ),
        Failure::NotFound => plain_answer(
            status::NOT_FOUND,
            code,
            "The data provided does not exist."@,
            Some("Please check if the data is correct and try again."@),
        ),
        Failure::Unauthorized => plain_answer(
            status::UNAUTHORIZED,
            code,
            "You are not allowed to continue."@,
            Some("Please sign in again."@),
        ),
        Failure::Forbidden => plain_answer(
            status::FORBIDDEN,
            code,
            "You do not have permission to perform this action."@,
            Some("Your current role does not grant access to this resource."@),
        ),
        Failure::WrongPassword => plain_answer(
            status::UNAUTHORIZED,
            code,
            "Incorrect password! Try again."@,
            Some("Please try again."@),
        ),
        Failure::NotModified => plain_answer(
            status::UNPROCESSABLE_ENTITY,
            code,
            "No updates were made for the provided ID."@,
            Some("No fields were changed. Please verify the update values."@),
        ),
        Failure::AlreadyExists => plain_answer(
            status::CONFLICT,
            code,
            "A resource with the provided details already exists."@,
            Some("Please choose a different name."@),
        ),
        Failure::Auth(x) => plain_answer(status::UNAUTHORIZED, code, auth_text(x), None),
        Failure::BadRequest(m) => plain_answer(status::BAD_REQUEST, code, m, None),
        Failure::Rule { status, message, meta, .. } => Answer {
            meta,
            retry_after: wait_of(status, meta, now),
            ..plain_answer(status, code, message, None)
        },
    }
}

fn answer(
    status: u16,
    code: String,
    message: &str,
    details: Option<&str>,
    meta: Option<JsonValue>,
) -> (r: ErrorResponse)
    ensures
        r@ == (Answer {
            meta: opt_json(meta),
            ..plain_answer(status, code@, message@, opt_str(details))
        }),
{
    ErrorResponse {
        status,
        code,
        message: message.to_string(),
        details: match details {
            Some(d) => Some(d.to_string()),
            None => None,
        },
        meta,
        retry_after: None,
    }
}

impl ApiError {
    /// The answer to this error, at the moment `now`. Internal failures never
    /// echo their inner message back: it can carry library internals that
    /// are meaningless (or sensitive) to a client.
    pub fn into_response(self, now: &NaiveDateTime) -> (r: ErrorResponse)
        ensures
            r@ == answer_of(self@, now@),
    {
        let code = self.code().to_string();
        match self {
            ApiError::DatabaseError { sqlstate, .. } => if is_unique_violation(&sqlstate) {
                answer(
                    status::CONFLICT,
                    code,
                    "A resource with the provided details already exists.",
                    Some("Please choose a different name."),
                    None,
                )
            } else {
                answer(
                    status::INTERNAL_SERVER_ERROR,
                    code,
                    "An unexpected database error occurred.",
                    Some("Please try again later or contact support."),
                    None,
                )
            },
            ApiError::ValidationError(e) => {
                let (message, meta) = describe_validation_errors(&e);
                answer(status::BAD_REQUEST, code, message.as_str(), None, Some(meta))
            },
            ApiError::EncryptionError(_) => answer(
                status::INTERNAL_SERVER_ERROR,
                code,
                "One or more encryption errors occurred.",
                None,
                None,
            ),
            ApiError::JWTError(_) => answer(
                status::INTERNAL_SERVER_ERROR,
                code,
                "One or more JWT errors occurred.",
                None,
                None,
            ),
            ApiError::ServerError(_) => answer(
                status::INTERNAL_SERVER_ERROR,
                code,
                "One or more server errors occurred.",
                None,
                None,
            ),
            ApiError::ConfigError(_) => answer(
                status::INTERNAL_SERVER_ERROR,
                code,
                "One or more config errors occurred.",
                None,
                None,
            ),
            ApiError::NotFound => answer(
                status::NOT_FOUND,
                code,
                "The data provided does not exist.",
                Some("Please check if the data is correct and try again."),
                None,
            ),
            ApiError::Unauthorized => answer(
                status::UNAUTHORIZED,
                code,
                "You are not allowed to continue.",
                Some("Please sign in again."),
                None,
            ),
            ApiError::Forbidden => answer(
                status::FORBIDDEN,
                code,
                "You do not have permission to perform this action.",
                Some("Your current role does not grant access to this resource."),
                None,
            ),
            ApiError::WrongPassword => answer(
                status::UNAUTHORIZED,
                code,
                "Incorrect password! Try again.",
                Some("Please try again."),
                None,
            ),
            ApiError::NotModified => answer(
                status::UNPROCESSABLE_ENTITY,
                code,
                "No updates were made for the provided ID.",
                Some("No fields were changed. Please verify the update values."),
                None,
            ),
            ApiError::AlreadyExists => answer(
                status::CONFLICT,
                code,
                "A resource with the provided details already exists.",
                Some("Please choose a different name."),
                None,
            ),
            ApiError::AuthError(e) => answer(
                status::UNAUTHORIZED,
                code,
                e.text().as_str(),
                None,
                None,
            ),
            ApiError::BadRequest(m) => answer(status::BAD_REQUEST, code, m.as_str(), None, None),
            ApiError::Rule { status, message, meta, .. } => {
                let wait = retry_after_seconds(status, meta.as_ref(), now);
                let mut r = answer(status, code, message.as_str(), None, meta);
                r.retry_after = wait;
                r
            },
        }
    }
}

/// What another component said of its own failure never reaches the answer.
pub proof fn internal_details_never_leave(
    a: Seq<char>,
    b: Seq<char>,
    sqlstate: Option<Seq<char>>,
    now: int,
)
    ensures
        answer_of(Failure::Encryption(a), now) == answer_of(Failure::Encryption(b), now),
        answer_of(Failure::Jwt(a), now) == answer_of(Failure::Jwt(b), now),
        answer_of(Failure::Server(a), now) == answer_of(Failure::Server(b), now),
        answer_of(Failure::Config(a), now) == answer_of(Failure::Config(b), now),
        answer_of(Failure::Database { sqlstate, message: a }, now) == answer_of(
            Failure::Database { sqlstate, message: b },
            now,
        ),
{
}

/// Only a rule with a waiting status sends `Retry-After`, and never less than
/// one second.
pub proof fn only_waiting_rules_send_retry_after(e: Failure, now: int)
    requires
        is_moment(now),
    ensures
        answer_of(e, now).retry_after matches Some(s) ==> s >= 1 && asks_to_wait(
            answer_of(e, now).status,
        ) && e is Rule,
{
    if let Failure::Rule { status, meta, .. } = e {
        if asks_to_wait(status) && meta is Some && text_member(meta->0, "until"@) is Some {
            if let Some(m) = moment_in(text_member(meta->0, "until"@)->0) {
                assert(seconds_until(m, now) <= u64::MAX);
            }
        }
    }
}

} // verus!
