//! Moderation flags on profile images, usernames and band logos.

use crate::models::user::Role;
use vstd::std_specs::convert::FromSpecImpl;
use crate::ids::Uuid;
use crate::json::JsonValue;
use crate::text::{copy_of, opt_text, texts};
use crate::time::NaiveDateTime;
use crate::validation::{ValidationErrors, Wrong, judged, no_errors, opt_has_length, opt_length_within, unless};
use vstd::prelude::*;

verus! {

#[derive(Debug, Clone, Copy, PartialEq, Eq, Structural)]
pub enum ModerationTarget {
    Avatar,
    Username,
    BandLogo,
    /// The profile as a whole (reports about impersonation, spam...).
    Profile,
}

/// The key of each [`ModerationTarget`].
pub open spec fn moderation_target_key(x: ModerationTarget) -> Seq<char> {
    match x {
        ModerationTarget::Avatar => "avatar"@,
        ModerationTarget::Username => "username"@,
        ModerationTarget::BandLogo => "band_logo"@,
        ModerationTarget::Profile => "profile"@,
    }
}

/// No two of them share a key.
pub proof fn moderation_target_keys_are_distinct(a: ModerationTarget, b: ModerationTarget)
    ensures
        moderation_target_key(a) == moderation_target_key(b) ==> a == b,
{
    reveal_strlit("avatar");
    reveal_strlit("username");
    reveal_strlit("band_logo");
    reveal_strlit("profile");
    assert("avatar"@.len() != "username"@.len());
    assert("avatar"@.len() != "band_logo"@.len());
    assert("avatar"@.len() != "profile"@.len());
    assert("username"@.len() != "band_logo"@.len());
    assert("username"@.len() != "profile"@.len());
    assert("band_logo"@.len() != "profile"@.len());
}

impl ModerationTarget {
    pub fn key(&self) -> (r: &'static str)
        ensures
            r@ == moderation_target_key(*self),
    {
        match self {
            ModerationTarget::Avatar => "avatar",
            ModerationTarget::Username => "username",
            ModerationTarget::BandLogo => "band_logo",
            ModerationTarget::Profile => "profile",
        }
    }
}

#[derive(Debug, Clone, Copy, PartialEq, Eq, Structural)]
pub enum ModerationStatus {
    Open,
    Dismissed,
    Actioned,
}

#[derive(Debug, Clone, Copy, PartialEq, Eq, Structural)]
pub enum ModerationSource {
    Automatic,
    Report,
}

/// A flag about to be stored.
#[derive(Debug, Clone)]
pub struct NewFlag {
    pub target_type: ModerationTarget,
    pub user_id: Uuid,
    pub band_id: Option<Uuid>,
    pub value: String,
    pub reasons: Vec<String>,
    pub details: JsonValue,
    pub source: ModerationSource,
    pub reported_by: Option<Uuid>,
    pub report_note: Option<String>,
}

/// The account a flag is about.
#[derive(Debug, Clone)]
pub struct FlagUser {
    pub id: Uuid,
    pub username: String,
    pub avatar_url: Option<String>,
    pub role: Role,
    pub is_banned: bool,
}

#[derive(Debug, Clone)]
pub struct FlagBand {
    pub id: Uuid,
    pub name: String,
}

/// One entry of the moderation queue.
#[derive(Debug, Clone)]
pub struct ModerationFlag {
    pub id: Uuid,
    pub target_type: ModerationTarget,
    pub user: FlagUser,
    pub band: Option<FlagBand>,
    /// The flagged value when the flag was raised.
    pub value: String,
    /// The current avatar, username or logo, to see whether it changed
    /// since.
    pub current_value: Option<String>,
    pub reasons: Vec<String>,
    pub details: JsonValue,
    pub source: ModerationSource,
    pub reported_by_username: Option<String>,
    pub report_note: Option<String>,
    pub status: ModerationStatus,
    pub resolution: Option<String>,
    pub resolution_note: Option<String>,
    pub resolved_by_username: Option<String>,
    pub resolved_at: Option<NaiveDateTime>,
    pub created_at: NaiveDateTime,
}

/// Flat row behind [`ModerationFlag`].
#[derive(Debug, Clone)]
pub struct ModerationFlagRow {
    pub id: Uuid,
    pub target_type: ModerationTarget,
    pub user_id: Uuid,
    pub username: String,
    pub user_avatar_url: Option<String>,
    pub user_role: Role,
    pub user_is_banned: bool,
    pub band_id: Option<Uuid>,
    pub band_name: Option<String>,
    pub band_logo_url: Option<String>,
    pub value: String,
    pub reasons: Vec<String>,
    pub details: JsonValue,
    pub source: ModerationSource,
    pub reported_by_username: Option<String>,
    pub report_note: Option<String>,
    pub status: ModerationStatus,
    pub resolution: Option<String>,
    pub resolution_note: Option<String>,
    pub resolved_by_username: Option<String>,
    pub resolved_at: Option<NaiveDateTime>,
    pub created_at: NaiveDateTime,
}

/// The avatar, username or logo that the flag is about, as it is now.
pub open spec fn current_value_of(row: ModerationFlagRow) -> Option<Seq<char>> {
    match row.target_type {
        ModerationTarget::Avatar => opt_text(row.user_avatar_url),
        ModerationTarget::Username | ModerationTarget::Profile => Some(row.username@),
        ModerationTarget::BandLogo => opt_text(row.band_logo_url),
    }
}

impl From<ModerationFlagRow> for ModerationFlag {
    fn from(row: ModerationFlagRow) -> (r: Self)
        ensures
            r.id == row.id,
            r.target_type == row.target_type,
            r.user.id == row.user_id,
            r.user.username@ == row.username@,
            opt_text(r.user.avatar_url) == opt_text(row.user_avatar_url),
            r.user.role == row.user_role,
            r.user.is_banned == row.user_is_banned,
            match (row.band_id, row.band_name) {
                (Some(id), Some(name)) => r.band matches Some(b) && b.id == id && b.name@ == name@,
                _ => r.band is None,
            },
            r.value@ == row.value@,
            opt_text(r.current_value) == current_value_of(row),
            texts(r.reasons@) == texts(row.reasons@),
            r.details@ == row.details@,
            r.source == row.source,
            opt_text(r.reported_by_username) == opt_text(row.reported_by_username),
            opt_text(r.report_note) == opt_text(row.report_note),
            r.status == row.status,
            opt_text(r.resolution) == opt_text(row.resolution),
            opt_text(r.resolution_note) == opt_text(row.resolution_note),
            opt_text(r.resolved_by_username) == opt_text(row.resolved_by_username),
            r.resolved_at == row.resolved_at,
            r.created_at == row.created_at,
    {
        let current_value = match row.target_type {
            ModerationTarget::Avatar => copy_of(&row.user_avatar_url),
            ModerationTarget::Username | ModerationTarget::Profile => Some(row.username.clone()),
            ModerationTarget::BandLogo => copy_of(&row.band_logo_url),
        };
        let band = match (row.band_id, row.band_name) {
            (Some(id), Some(name)) => Some(FlagBand { id, name }),
            _ => None,
        };
        ModerationFlag {
            id: row.id,
            target_type: row.target_type,
            user: FlagUser {
                id: row.user_id,
                username: row.username,
                avatar_url: row.user_avatar_url,
                role: row.user_role,
                is_banned: row.user_is_banned,
            },
            band,
            value: row.value,
            current_value,
            reasons: row.reasons,
            details: row.details,
            source: row.source,
            reported_by_username: row.reported_by_username,
            report_note: row.report_note,
            status: row.status,
            resolution: row.resolution,
            resolution_note: row.resolution_note,
            resolved_by_username: row.resolved_by_username,
            resolved_at: row.resolved_at,
            created_at: row.created_at,
        }
    }
}

impl FromSpecImpl<ModerationFlagRow> for ModerationFlag {
    /// Texts are told apart by more than what they say, so the result is
    /// stated by the clauses of `from` alone.
    open spec fn obeys_from_spec() -> bool {
        false
    }

    open spec fn from_spec(row: ModerationFlagRow) -> Self {
        arbitrary()
    }
}

/// Query string of `GET /admin/moderation/flags`.
#[derive(Debug, Clone, Default)]
pub struct FlagListQuery {
    /// `open` (default), `dismissed`, `actioned` or `all`.
    pub status: Option<String>,
    pub target_type: Option<ModerationTarget>,
    /// Only flags about this account.
    pub user_id: Option<Uuid>,
    pub page: Option<i64>,
    pub per_page: Option<i64>,
}

/// `GET /admin/moderation/summary`.
#[derive(Debug, Clone)]
pub struct ModerationSummary {
    pub open_total: i64,
    /// Open flags per target type.
    pub by_type: Vec<(String, i64)>,
}

/// What a moderator does with a flag.
#[derive(Debug, Clone, Copy, PartialEq, Eq, Structural)]
pub enum ResolveAction {
    /// Nothing wrong: close the flag.
    Dismiss,
    RemoveAvatar,
    RemoveBandLogo,
    /// Replace the username with a random `user-xxxxxx` one the owner can
    /// change right away.
    ResetUsername,
}

/// The key of each [`ResolveAction`].
pub open spec fn resolve_action_key(x: ResolveAction) -> Seq<char> {
    match x {
        ResolveAction::Dismiss => "dismissed"@,
        ResolveAction::RemoveAvatar => "avatar_removed"@,
        ResolveAction::RemoveBandLogo => "band_logo_removed"@,
        ResolveAction::ResetUsername => "username_reset"@,
    }
}

/// No two of them share a key.
pub proof fn resolve_action_keys_are_distinct(a: ResolveAction, b: ResolveAction)
    ensures
        resolve_action_key(a) == resolve_action_key(b) ==> a == b,
{
    reveal_strlit("dismissed");
    reveal_strlit("avatar_removed");
    reveal_strlit("band_logo_removed");
    reveal_strlit("username_reset");
    assert("dismissed"@.len() != "avatar_removed"@.len());
    assert("dismissed"@.len() != "band_logo_removed"@.len());
    assert("dismissed"@.len() != "username_reset"@.len());
    assert("avatar_removed"@.len() != "band_logo_removed"@.len());
    assert("avatar_removed"@[0] != "username_reset"@[0]);
    assert("band_logo_removed"@.len() != "username_reset"@.len());
}

impl ResolveAction {
    /// The `resolution` stored on the flag.
    pub fn resolution(&self) -> (r: &'static str)
        ensures
            r@ == resolve_action_key(*self),
    {
        match self {
            ResolveAction::Dismiss => "dismissed",
            ResolveAction::RemoveAvatar => "avatar_removed",
            ResolveAction::RemoveBandLogo => "band_logo_removed",
            ResolveAction::ResetUsername => "username_reset",
        }
    }
}

/// Body of `POST /admin/moderation/flags/{id}/resolve`.
#[derive(Debug, Clone)]
pub struct ResolveFlagPayload {
    pub action: ResolveAction,
    pub note: Option<String>,
    /// Send the owner a `moderation_action` notification.
    pub notify_user: bool,
}

impl ResolveFlagPayload {
    /// The rules that this payload breaks.
    pub open spec fn broken_rules(self) -> Wrong {
        let e = no_errors();
        unless(e, opt_length_within(opt_text(self.note), 0, 500), "note"@, "length"@, None)
    }

    /// Checks the payload against its rules.
    pub fn validate(&self) -> (r: Result<(), ValidationErrors>)
        ensures
            judged(r, self.broken_rules()),
    {
        let mut e = ValidationErrors::new();
        e.check(opt_has_length(&self.note, 0, 500), "note", "length", None);
        e.into_result()
    }
}

/// `POST /admin/moderation/rescan`.
#[derive(Debug, Clone)]
pub struct RescanResponse {
    /// New flags raised by the scan.
    pub flagged: i64,
}

} // verus!
