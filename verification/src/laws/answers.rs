//! How failures are answered.

use crate::errors::api_error::{
    answer_of, field_entry, field_message, grouped, seconds_until, wait_of, Failure,
};
use crate::errors::auth_error::{auth_text, AuthError};
use crate::json::{member, text_member, Json};
use crate::time::moment_in;
use crate::validation::{ErrorView, FieldView};
use vstd::prelude::*;

verus! {

/// What is wrong with a request is answered with its own status and code.
pub proof fn wrong_requests_have_their_status(m: Seq<char>, v: Seq<FieldView>, a: AuthError, now: int)
    ensures
        answer_of(Failure::NotFound, now).status == 404,
        answer_of(Failure::NotFound, now).code == "NOT_FOUND"@,
        answer_of(Failure::AlreadyExists, now).status == 409,
        answer_of(Failure::AlreadyExists, now).code == "ALREADY_EXISTS"@,
        answer_of(Failure::NotModified, now).status == 422,
        answer_of(Failure::NotModified, now).code == "UNPROCESSABLE_ENTITY"@,
        answer_of(Failure::Unauthorized, now).status == 401,
        answer_of(Failure::Unauthorized, now).code == "UNAUTHORIZED"@,
        answer_of(Failure::Forbidden, now).status == 403,
        answer_of(Failure::Forbidden, now).code == "FORBIDDEN"@,
        answer_of(Failure::WrongPassword, now).status == 401,
        answer_of(Failure::WrongPassword, now).code == "WRONG_PASSWORD"@,
        answer_of(Failure::BadRequest(m), now).status == 400,
        answer_of(Failure::BadRequest(m), now).code == "BAD_REQUEST"@,
        answer_of(Failure::BadRequest(m), now).message == m,
        answer_of(Failure::Validation(v), now).status == 400,
        answer_of(Failure::Validation(v), now).code == "VALIDATION_ERROR"@,
        answer_of(Failure::Auth(a), now).status == 401,
        answer_of(Failure::Auth(a), now).code == "AUTH_ERROR"@,
        answer_of(Failure::Auth(a), now).message == auth_text(a),
{
}

/// What is wrong with the service is answered as such, without a word of it.
pub proof fn failures_of_the_service_are_500(m: Seq<char>, state: Option<Seq<char>>, now: int)
    ensures
        answer_of(Failure::Encryption(m), now).status == 500,
        answer_of(Failure::Encryption(m), now).code == "ENCRYPT_ERROR"@,
        answer_of(Failure::Jwt(m), now).status == 500,
        answer_of(Failure::Jwt(m), now).code == "JWT_ERROR"@,
        answer_of(Failure::Server(m), now).status == 500,
        answer_of(Failure::Server(m), now).code == "SERVER_ERROR"@,
        answer_of(Failure::Config(m), now).status == 500,
        answer_of(Failure::Config(m), now).code == "CONFIG_ERROR"@,
        answer_of(Failure::Encryption(m), now).details is None,
        answer_of(Failure::Jwt(m), now).details is None,
        answer_of(Failure::Server(m), now).details is None,
        answer_of(Failure::Config(m), now).details is None,
        state == Some("23505"@) ==> answer_of(Failure::Database { sqlstate: state, message: m }, now)
            == answer_of(Failure::AlreadyExists, now),
        state != Some("23505"@) ==> answer_of(
            Failure::Database { sqlstate: state, message: m },
            now,
        ).status == 500 && answer_of(Failure::Database { sqlstate: state, message: m }, now).code
            == "DATABASE_ERROR"@,
{
}

/// A rule is answered as it was stated.
pub proof fn rules_are_answered_as_stated(
    status: u16,
    code: Seq<char>,
    message: Seq<char>,
    meta: Option<Json>,
    now: int,
)
    ensures
        ({
            let a = answer_of(Failure::Rule { status, code, message, meta }, now);
            &&& a.status == status
            &&& a.code == code
            &&& a.message == message
            &&& a.meta == meta
            &&& a.details is None
            &&& status != 429 && status != 503 ==> a.retry_after is None
            &&& meta is None ==> a.retry_after is None
        }),
{
}

/// Where a wait is stated, it is told, and is at least a second.
pub proof fn stated_waits_are_told(status: u16, meta: Json, now: int, n: u64, text: Seq<char>, t: int)
    requires
        status == 429 || status == 503,
    ensures
        member(meta, "retry_after_seconds"@) == Some(Json::Unsigned(n)) && 1 <= n <= i64::MAX
            ==> wait_of(status, Some(meta), now) == Some(n),
        member(meta, "retry_after_seconds"@) == Some(Json::Unsigned(0)) ==> wait_of(
            status,
            Some(meta),
            now,
        ) == Some(1u64),
        member(meta, "retry_after_seconds"@) is None && text_member(meta, "until"@) is None
            ==> wait_of(status, Some(meta), now) is None,
        member(meta, "retry_after_seconds"@) is None && text_member(meta, "until"@) == Some(text)
            && moment_in(text) == Some(t) && t <= now ==> wait_of(status, Some(meta), now) == Some(
            1u64,
        ),
{
}

/// A wait until a moment is the whole number of seconds that reaches it.
pub proof fn waits_reach_their_moment(t: int, now: int)
    ensures
        ({
            let nanos = crate::time::nanos_between(now, t);
            &&& seconds_until(t, now) * 1_000_000_000 >= nanos
            &&& (seconds_until(t, now) - 1) * 1_000_000_000 < nanos
        }),
{
}

/// A field's own message is told, else that its value is invalid.
pub proof fn fields_have_their_message(f: Seq<char>, e: ErrorView)
    ensures
        e.message matches Some(m) ==> field_message(FieldView { field: f, error: e }) == m,
        e.message is None ==> field_message(FieldView { field: f, error: e })
            == "Invalid value for '"@ + f + "'."@,
{
}

/// A validation error's message is that of the first field.
pub proof fn the_first_field_is_told(v: Seq<FieldView>, now: int)
    ensures
        v.len() > 0 ==> answer_of(Failure::Validation(v), now).message == field_message(v[0]),
        v.len() == 0 ==> answer_of(Failure::Validation(v), now).message
            == "One or more validation errors occurred."@,
{
}

/// The entries of the groups, one behind the other, each with its field.
pub open spec fn entries(g: Seq<(Seq<char>, Seq<Json>)>) -> Seq<(Seq<char>, Json)>
    decreases g.len(),
{
    if g.len() == 0 {
        seq![]
    } else {
        entries(g.drop_last()) + Seq::new(g.last().1.len(), |i: int| (g.last().0, g.last().1[i]))
    }
}

/// Every error is told under its field, in order.
pub proof fn every_error_is_told_under_its_field(v: Seq<FieldView>)
    ensures
        entries(grouped(v)) == Seq::new(v.len(), |i: int| (v[i].field, field_entry(v[i]))),
        forall|i: int|
            0 < i < grouped(v).len() ==> (#[trigger] grouped(v)[i]).0 != grouped(v)[i - 1].0,
    decreases v.len(),
{
    let told = Seq::new(v.len(), |i: int| (v[i].field, field_entry(v[i])));
    if v.len() > 0 {
        let e = v.last();
        let g = grouped(v.drop_last());
        every_error_is_told_under_its_field(v.drop_last());
        let before = Seq::new(
            v.drop_last().len(),
            |i: int| (v.drop_last()[i].field, field_entry(v.drop_last()[i])),
        );
        let now = grouped(v);
        assert(told =~= before.push((e.field, field_entry(e))));
        if g.len() > 0 && g.last().0 == e.field {
            assert(now.drop_last() =~= g.drop_last());
            assert(entries(now) =~= entries(g).push((e.field, field_entry(e))));
            assert forall|i: int| 0 < i < now.len() implies (#[trigger] now[i]).0 != now[i - 1].0 by {
                assert(g[i].0 != g[i - 1].0);
            }
        } else {
            assert(now.drop_last() =~= g);
            assert(entries(now) =~= entries(g).push((e.field, field_entry(e))));
            assert forall|i: int| 0 < i < now.len() implies (#[trigger] now[i]).0 != now[i - 1].0 by {
                if i < g.len() {
                    assert(g[i].0 != g[i - 1].0);
                }
            }
        }
    } else {
        assert(told =~= seq![]);
    }
}

} // verus!
