//! Who may do what.

use crate::errors::api_error::{ApiError, Failure};
use crate::json::{lemma_array_view, lemma_object_view};
use crate::models::auth::token::Claims;
use crate::models::user::{staff, Role};
use crate::ids::Uuid;
use crate::json::{Json, JsonValue, jsons, members};
use crate::text::{opt_str, opt_text, same, slice_of};
use vstd::prelude::*;

verus! {

/// Wrapper struct providing authorization logic for a given authenticated user.
///
/// The wrapped claims have already been checked against the database by
/// the authentication middleware (status, suspension, token version) and
/// carry the user's *current* role.
#[derive(Debug, Clone)]
pub struct AccessControl(pub Claims);

/// Granted, or refused with `Forbidden`.
pub open spec fn granted_if(r: Result<(), ApiError>, allowed: bool) -> bool {
    match r {
        Ok(()) => allowed,
        Err(e) => !allowed && e@ == Failure::Forbidden,
    }
}

impl AccessControl {
    /// Returns the user ID directly.
    pub fn user_id(&self) -> (r: Uuid)
        ensures
            r == self.0.sub,
    {
        self.0.sub
    }

    pub fn role(&self) -> (r: &Role)
        ensures
            *r == self.0.role,
    {
        &self.0.role
    }

    pub fn is_admin(&self) -> (r: bool)
        ensures
            r == (self.0.role == Role::Admin),
    {
        self.0.role == Role::Admin
    }

    pub fn is_staff(&self) -> (r: bool)
        ensures
            r == staff(self.0.role),
    {
        self.0.role.is_staff()
    }

    /// The staff member behind an impersonation session, if any.
    pub fn impersonator(&self) -> (r: Option<Uuid>)
        ensures
            r == self.0.imp,
    {
        self.0.imp
    }

    /// Ensures the user has exactly the specified role.
    pub fn require_role(&self, role: Role) -> (r: Result<(), ApiError>)
        ensures
            granted_if(r, self.0.role == role),
    {
        if self.0.role == role {
            Ok(())
        } else {
            Err(ApiError::Forbidden)
        }
    }

    /// Ensures the user has at least one of the specified roles.
    pub fn require_any_role(&self, roles: &[Role]) -> (r: Result<(), ApiError>)
        ensures
            granted_if(r, roles@.contains(self.0.role)),
    {
        let mut i: usize = 0;
        while i < roles.len()
            invariant
                i <= roles@.len(),
                forall|j: int| 0 <= j < i ==> #[trigger] roles@[j] != self.0.role,
            decreases roles@.len() - i,
        {
            if roles[i] == self.0.role {
                assert(roles@[i as int] == self.0.role);
                return Ok(());
            }
            i = i + 1;
        }
        Err(ApiError::Forbidden)
    }

    /// Ensures the caller is a moderator or an admin.
    pub fn require_staff(&self) -> (r: Result<(), ApiError>)
        ensures
            granted_if(r, staff(self.0.role)),
    {
        let roles: [Role; 2] = [Role::Admin, Role::Moderator];
        assert(roles@[0] == Role::Admin && roles@[1] == Role::Moderator);
        self.require_any_role(&roles)
    }

    /// Ensures the caller is an admin.
    pub fn require_admin(&self) -> (r: Result<(), ApiError>)
        ensures
            granted_if(r, self.0.role == Role::Admin),
    {
        self.require_role(Role::Admin)
    }
}

/// Request extension set by the authentication middleware on requests
/// made with an impersonation ("view as") token. Handlers and response
/// filters use it to withhold secrets from staff viewing as someone.
#[derive(Debug, Clone, Copy, PartialEq, Eq, Structural)]
pub struct Impersonation {
    pub impersonator_id: Uuid,
}

/// A member as an impersonation response may carry it.
pub open spec fn redacted_member(
    key: Seq<char>,
    v: Json,
    redacted: Json,
    invite_codes: bool,
) -> Json {
    if key == "share_token"@ {
        Json::Null
    } else if invite_codes && key == "code"@ && v is Text {
        Json::Text("***"@)
    } else {
        redacted
    }
}

/// `v` without what an impersonation response must not carry.
pub open spec fn redacted(v: Json, invite_codes: bool) -> Json
    decreases v,
{
    match v {
        Json::Object(m) => Json::Object(
            Seq::new(
                m.len(),
                |i: int|
                    if 0 <= i < m.len() {
                        (
                            m[i].0,
                            redacted_member(
                                m[i].0,
                                m[i].1,
                                redacted(m[i].1, invite_codes),
                                invite_codes,
                            ),
                        )
                    } else {
                        (seq![], Json::Null)
                    },
            ),
        ),
        Json::Array(items) => Json::Array(
            Seq::new(
                items.len(),
                |i: int|
                    if 0 <= i < items.len() {
                        redacted(items[i], invite_codes)
                    } else {
                        Json::Null
                    },
            ),
        ),
        _ => v,
    }
}

/// `value` without what an impersonation response must not carry.
pub fn without_secrets(value: &JsonValue, invite_codes: bool) -> (r: JsonValue)
    ensures
        r@ == redacted(value@, invite_codes),
    decreases *value,
{
    match value {
        JsonValue::Object(m) => {
            proof {
                lemma_object_view(*m);
            }
            let ghost all = members(m@);
            let mut out: Vec<(String, JsonValue)> = Vec::new();
            let mut i: usize = 0;
            while i < m.len()
                invariant
                    i <= m@.len(),
                    out@.len() == i,
                    *value == JsonValue::Object(*m),
                    all == members(m@),
                    forall|j: int|
                        0 <= j < i ==> #[trigger] members(out@)[j] == (
                            all[j].0,
                            redacted_member(
                                all[j].0,
                                all[j].1,
                                redacted(all[j].1, invite_codes),
                                invite_codes,
                            ),
                        ),
                decreases m@.len() - i,
            {
                proof {
                    assert(decreases_to!(*value => value->Object_0));
                    assert(decreases_to!(*m => m@));
                    assert(decreases_to!(m@ => m@[i as int]));
                    assert(decreases_to!(m@[i as int] => m@[i as int].1));
                }
                let key = m[i].0.as_str();
                let item = &m[i].1;
                let x = if same(key, "share_token") {
                    JsonValue::Null
                } else if invite_codes && same(key, "code") && item.as_str().is_some() {
                    JsonValue::Text("***".to_string())
                } else {
                    without_secrets(item, invite_codes)
                };
                assert(all[i as int] == (key@, item@));
                let ghost before = out@;
                out.push((key.to_string(), x));
                assert forall|j: int| 0 <= j < i + 1 implies #[trigger] members(out@)[j] == (
                    all[j].0,
                    redacted_member(
                        all[j].0,
                        all[j].1,
                        redacted(all[j].1, invite_codes),
                        invite_codes,
                    ),
                ) by {
                    if j < i {
                        assert(members(out@)[j] == members(before)[j]);
                    }
                }
                i = i + 1;
            }
            proof {
                lemma_object_view(out);
                assert(members(out@) =~= redacted(value@, invite_codes)->Object_0);
            }
            JsonValue::Object(out)
        },
        JsonValue::Array(items) => {
            proof {
                lemma_array_view(*items);
            }
            let ghost all = jsons(items@);
            let mut out: Vec<JsonValue> = Vec::new();
            let mut i: usize = 0;
            while i < items.len()
                invariant
                    i <= items@.len(),
                    out@.len() == i,
                    *value == JsonValue::Array(*items),
                    all == jsons(items@),
                    forall|j: int|
                        0 <= j < i ==> #[trigger] out@[j]@ == redacted(all[j], invite_codes),
                decreases items@.len() - i,
            {
                proof {
                    assert(decreases_to!(*value => value->Array_0));
                    assert(decreases_to!(*items => items@));
                    assert(decreases_to!(items@ => items@[i as int]));
                }
                out.push(without_secrets(&items[i], invite_codes));
                i = i + 1;
            }
            proof {
                lemma_array_view(out);
                assert(jsons(out@) =~= redacted(value@, invite_codes)->Array_0);
            }
            JsonValue::Array(out)
        },
        _ => value.copy(),
    }
}

/// What an impersonation response must not carry, replaced in place:
/// every `share_token` (a public link staff could keep using after the
/// session) becomes `null`, and, when `invite_codes`, every `code` (band
/// invite codes, which would let staff join a private band under their own
/// identity) becomes `"***"`. Only call it with `invite_codes` on invite
/// answers: `code` is a common key elsewhere (plan codes, error codes).
pub fn redact_for_impersonation(value: &mut JsonValue, invite_codes: bool)
    ensures
        final(value)@ == redacted(old(value)@, invite_codes),
{
    let clean = without_secrets(value, invite_codes);
    *value = clean;
}

/// No object in `v`, at any depth, holds a `share_token` other than `null`,
/// nor (with `invite_codes`) a `code` other than the placeholder.
pub open spec fn holds_no_secret(v: Json, invite_codes: bool) -> bool
    decreases v,
{
    match v {
        Json::Object(m) => forall|i: int|
            0 <= i < m.len() ==> holds_no_secret(#[trigger] m[i].1, invite_codes) && (m[i].0
                == "share_token"@ ==> m[i].1 is Null) && (invite_codes && m[i].0 == "code"@
                && m[i].1 is Text ==> m[i].1 == Json::Text("***"@)),
        Json::Array(items) => forall|i: int|
            0 <= i < items.len() ==> holds_no_secret(#[trigger] items[i], invite_codes),
        _ => true,
    }
}

/// A redacted answer carries no secret, however deep it is nested.
pub proof fn redacted_answers_hold_no_secret(v: Json, invite_codes: bool)
    ensures
        holds_no_secret(redacted(v, invite_codes), invite_codes),
    decreases v,
{
    match v {
        Json::Object(m) => {
            let o = redacted(v, invite_codes)->Object_0;
            assert forall|i: int| 0 <= i < o.len() implies holds_no_secret(
                #[trigger] o[i].1,
                invite_codes,
            ) && (o[i].0 == "share_token"@ ==> o[i].1 is Null) && (invite_codes && o[i].0
                == "code"@ && o[i].1 is Text ==> o[i].1 == Json::Text("***"@)) by {
                assert(decreases_to!(v => v->Object_0));
                assert(decreases_to!(m => m[i]));
                assert(decreases_to!(m[i] => m[i].1));
                redacted_answers_hold_no_secret(m[i].1, invite_codes);
                reveal_strlit("share_token");
                reveal_strlit("code");
                assert("share_token"@.len() != "code"@.len());
                if !(m[i].1 is Text) {
                    assert(!(redacted(m[i].1, invite_codes) is Text));
                }
            }
        },
        Json::Array(items) => {
            let o = redacted(v, invite_codes)->Array_0;
            assert forall|i: int| 0 <= i < o.len() implies holds_no_secret(
                #[trigger] o[i],
                invite_codes,
            ) by {
                assert(decreases_to!(v => v->Array_0));
                assert(decreases_to!(items => items[i]));
                redacted_answers_hold_no_secret(items[i], invite_codes);
            }
        },
        _ => {},
    }
}

/// The client IP as seen by the API, resolved exactly like the rate
/// limiters do (see `middlewares::client_ip`): forwarding headers only
/// count when they come from a trusted proxy or carry the internal secret.
/// Recorded on audit entries.
#[derive(Debug, Clone)]
pub struct ClientIp(pub Option<String>);

impl Default for ClientIp {
    fn default() -> (r: Self)
        ensures
            r.0 is None,
    {
        ClientIp(None)
    }
}

impl ClientIp {
    /// The resolved address, when there is one.
    pub fn addr(&self) -> (r: Option<&str>)
        ensures
            opt_str(r) == opt_text(self.0),
    {
        slice_of(&self.0)
    }
}

} // verus!
