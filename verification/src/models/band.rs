//! Bands, their members and what those may do.

use crate::ids::Uuid;
use crate::json::member;
use crate::text::{chars, opt_text};
use crate::time::NaiveDateTime;
use crate::validation::{ErrorView, ValidationError, ValidationErrors, Wrong, judged, no_errors, noted, opt_has_length, opt_length_within, unless, verdict, with_part};
use vstd::prelude::*;

verus! {

#[derive(Debug, Clone, Copy, PartialEq, Eq, Structural)]
pub enum BandRole {
    Member,
    Moderator,
    Admin,
    Owner,
}

/// The standing of a role: each satisfies those below it.
pub open spec fn band_rank(role: BandRole) -> int {
    match role {
        BandRole::Member => 0,
        BandRole::Moderator => 1,
        BandRole::Admin => 2,
        BandRole::Owner => 3,
    }
}

/// The key of each [`BandRole`].
pub open spec fn band_role_key(x: BandRole) -> Seq<char> {
    match x {
        BandRole::Owner => "owner"@,
        BandRole::Admin => "admin"@,
        BandRole::Moderator => "moderator"@,
        BandRole::Member => "member"@,
    }
}

impl BandRole {
    /// The name of the role.
    pub fn name(&self) -> (r: &'static str)
        ensures
            r@ == band_role_key(*self),
    {
        match self {
            BandRole::Owner => "owner",
            BandRole::Admin => "admin",
            BandRole::Moderator => "moderator",
            BandRole::Member => "member",
        }
    }
}

impl BandRole {
    fn rank(&self) -> (r: u8)
        ensures
            r == band_rank(*self),
    {
        match self {
            BandRole::Member => 0,
            BandRole::Moderator => 1,
            BandRole::Admin => 2,
            BandRole::Owner => 3,
        }
    }

    /// Returns `true` when this role grants at least the privileges of `min`.
    pub fn satisfies(&self, min: BandRole) -> (r: bool)
        ensures
            r == (band_rank(*self) >= band_rank(min)),
    {
        self.rank() >= min.rank()
    }
}

/// Roles are in line: of two, one satisfies the other, and only equal roles
/// satisfy each other.
pub proof fn band_roles_are_in_line(a: BandRole, b: BandRole)
    ensures
        band_rank(a) >= band_rank(b) || band_rank(b) >= band_rank(a),
        band_rank(a) == band_rank(b) ==> a == b,
{
}

#[derive(Debug, Clone)]
pub struct Band {
    pub id: Uuid,
    pub name: String,
    pub slug: String,
    pub description: Option<String>,
    pub logo_url: Option<String>,
    /// The account that created the band — `None` once that account is
    /// deleted. Ownership is tracked by the `owner` membership, not here.
    pub created_by: Option<Uuid>,
    pub updated_by: Option<Uuid>,
    pub created_at: NaiveDateTime,
    pub updated_at: NaiveDateTime,
}

/// A [`Band`] enriched with data scoped to the requesting user.
///
/// Mirrors `Band`'s columns directly (rather than nesting it) to stay
/// consistent with how other list queries in this codebase compute
/// extra aggregate columns alongside a table's own fields.
#[derive(Debug, Clone)]
pub struct BandWithMembership {
    pub id: Uuid,
    pub name: String,
    pub slug: String,
    pub description: Option<String>,
    pub logo_url: Option<String>,
    pub created_by: Option<Uuid>,
    pub updated_by: Option<Uuid>,
    pub updated_by_username: Option<String>,
    pub created_at: NaiveDateTime,
    pub updated_at: NaiveDateTime,
    pub member_count: i64,
    pub my_role: BandRole,
    /// Whether the *caller* has favorited this band — personal, never
    /// affects anyone else's view or any permission.
    pub is_favorite: bool,
    /// The band's repertoire (see `Setlist::is_repertoire`).
    pub repertoire_id: Option<Uuid>,
    /// Up-votes that accept a song suggestion automatically (`None` =
    /// never automatic).
    pub suggestion_auto_accept_votes: Option<i32>,
    /// Suggestions still open for voting.
    pub open_suggestions: i64,
    /// Whether the *caller* pinned this band to their home screen.
    pub is_pinned: bool,
    /// What the *caller* may do in this band, computed with the same rules
    /// the API enforces.
    pub my_permissions: MyBandPermissions,
}

/// The caller's effective band permissions: `owner`/`admin` always have
/// every one; `member`/`moderator` follow the band's permission matrix
/// (`band_role_permissions`, denied when no row exists).
#[derive(Debug, Clone, Copy, PartialEq, Eq, Structural, Default)]
pub struct MyBandPermissions {
    pub manage_setlists: bool,
    pub manage_songs: bool,
    pub export_pdf: bool,
}

/// `b` is a new band.
pub open spec fn is_new_band(
    b: Band,
    name: Seq<char>,
    slug: Seq<char>,
    description: Option<Seq<char>>,
    created_by: Uuid,
    id: Uuid,
    now: NaiveDateTime,
) -> bool {
    &&& b.id == id
    &&& b.name@ == name
    &&& b.slug@ == slug
    &&& opt_text(b.description) == description
    &&& b.logo_url is None
    &&& b.created_by == Some(created_by)
    &&& b.updated_by is None
    &&& b.created_at == now
    &&& b.updated_at == now
}

impl Band {
    /// The band with this identity, made at the moment `now`.
    pub fn made(
        name: &str,
        slug: String,
        description: Option<String>,
        created_by: Uuid,
        id: Uuid,
        now: NaiveDateTime,
    ) -> (r: Self)
        ensures
            is_new_band(r, name@, slug@, opt_text(description), created_by, id, now),
    {
        Band {
            id,
            name: name.to_string(),
            slug,
            description,
            logo_url: None,
            created_by: Some(created_by),
            updated_by: None,
            created_at: now,
            updated_at: now,
        }
    }

    pub fn new(name: &str, slug: String, description: Option<String>, created_by: Uuid) -> (r: Self)
        ensures
            is_new_band(r, name@, slug@, opt_text(description), created_by, r.id, r.created_at),
    {
        Band::made(name, slug, description, created_by, Uuid::new_v4(), NaiveDateTime::now())
    }
}

#[derive(Debug, Clone)]
pub struct CreateBandPayload {
    pub name: String,
    pub description: Option<String>,
}

impl CreateBandPayload {
    /// The rules that this payload breaks.
    pub open spec fn broken_rules(self, name: Option<ErrorView>, description: Option<ErrorView>) -> Wrong {
        let e = no_errors();
        let e = noted(e, "name"@, name);
        noted(e, "description"@, description)
    }

    /// Checks the payload against its rules.
    /// `name` and `description` are what the text rules say of those fields.
    pub fn validate(&self, name: Result<(), ValidationError>, description: Result<(), ValidationError>) -> (r: Result<(), ValidationErrors>)
        ensures
            judged(r, self.broken_rules(verdict(name), verdict(description))),
    {
        let mut e = ValidationErrors::new();
        e.note("name", name);
        e.note("description", description);
        e.into_result()
    }
}

/// Nullable fields use `Option<Option<T>>`: absent = unchanged, `null` =
/// clear (see [`crate::models::patch`]).
#[derive(Debug, Clone, Default)]
pub struct UpdateBandPayload {
    pub name: Option<String>,
    pub description: Option<Option<String>>,
    pub logo_url: Option<Option<String>>,
    /// Up-votes that accept a song suggestion automatically (1 to 100);
    /// `null` turns automatic acceptance off.
    pub suggestion_auto_accept_votes: Option<Option<i32>>,
}

impl UpdateBandPayload {
    /// The rules that this payload breaks.
    pub open spec fn broken_rules(self, name: Option<ErrorView>, description: Option<ErrorView>, logo_url: Option<ErrorView>) -> Wrong {
        let e = no_errors();
        let e = noted(e, "name"@, name);
        let e = noted(e, "description"@, description);
        let e = noted(e, "logo_url"@, logo_url);
        unless(e, (self.suggestion_auto_accept_votes matches Some(Some(x)) ==> 1 <= x <= 100), "suggestion_auto_accept_votes"@, "range"@, Some("The vote threshold must be between 1 and 100."@))
    }

    /// Checks the payload against its rules.
    /// `name`, `description` and `logo_url` are what the text rules say of those fields.
    pub fn validate(&self, name: Result<(), ValidationError>, description: Result<(), ValidationError>, logo_url: Result<(), ValidationError>) -> (r: Result<(), ValidationErrors>)
        ensures
            judged(r, self.broken_rules(verdict(name), verdict(description), verdict(logo_url))),
    {
        let mut e = ValidationErrors::new();
        e.note("name", name);
        e.note("description", description);
        e.note("logo_url", logo_url);
        e.check(match self.suggestion_auto_accept_votes { Some(Some(x)) => 1 <= x && x <= 100, _ => true }, "suggestion_auto_accept_votes", "range", Some("The vote threshold must be between 1 and 100."));
        e.into_result()
    }
}

#[derive(Debug, Clone)]
pub struct BandMember {
    pub id: Uuid,
    pub band_id: Uuid,
    pub user_id: Uuid,
    pub role: BandRole,
    /// Free-text identification label (e.g. "Guitarrista", "Baixista") —
    /// purely cosmetic, unrelated to `role` and never affects permissions.
    pub title: Option<String>,
    pub joined_at: NaiveDateTime,
    pub username: String,
    pub first_name: Option<String>,
    pub last_name: Option<String>,
}

#[derive(Debug, Clone)]
pub struct UpdateBandMemberTitlePayload {
    pub title: Option<String>,
}

impl UpdateBandMemberTitlePayload {
    /// The rules that this payload breaks.
    pub open spec fn broken_rules(self) -> Wrong {
        let e = no_errors();
        unless(e, opt_length_within(opt_text(self.title), 0, 50), "title"@, "length"@, Some("Title must be at most 50 chars."@))
    }

    /// Checks the payload against its rules.
    pub fn validate(&self) -> (r: Result<(), ValidationErrors>)
        ensures
            judged(r, self.broken_rules()),
    {
        let mut e = ValidationErrors::new();
        e.check(opt_has_length(&self.title, 0, 50), "title", "length", Some("Title must be at most 50 chars."));
        e.into_result()
    }
}

/// A specific action within a band that can be independently permitted or
/// denied for the `member` and `moderator` roles via
/// [`BandRolePermissions`]. `admin` and `owner` always have every
/// permission and are never restricted, so they never appear here.
#[derive(Debug, Clone, Copy, PartialEq, Eq, Structural)]
pub enum BandPermission {
    /// Add/remove/reorder songs, blocks and breaks in the band's setlists,
    /// and edit or delete those setlists.
    ManageSetlists,
    /// Edit or delete the band's own copy of a song (title, lyrics, BPM,
    /// key, etc.) once it has been added to a band setlist.
    ManageSongs,
    /// Export a band setlist to PDF.
    ExportPdf,
}

/// One row of a band's permission matrix: whether `role` is allowed to
/// perform `permission`. Only `member`/`moderator` rows are meaningful —
/// `admin`/`owner` are always allowed everything and are never stored.
#[derive(Debug, Clone, Copy)]
pub struct BandRolePermission {
    pub role: BandRole,
    pub permission: BandPermission,
    pub allowed: bool,
}

/// What is wrong with customizing a role.
pub open spec fn configurable_error(role: BandRole) -> Option<ErrorView> {
    match role {
        BandRole::Member | BandRole::Moderator => None,
        BandRole::Admin | BandRole::Owner => Some(
            ErrorView {
                code: "non_configurable_role"@,
                message: Some(
                    "admin and owner permissions cannot be customized — they always have every permission."@,
                ),
            },
        ),
    }
}

pub fn validate_configurable_role(role: &BandRole) -> (r: Result<(), ValidationError>)
    ensures
        verdict(r) == configurable_error(*role),
{
    match role {
        BandRole::Member | BandRole::Moderator => Ok(()),
        BandRole::Admin | BandRole::Owner => Err(
            ValidationError::with_message(
                "non_configurable_role",
                "admin and owner permissions cannot be customized — they always have every permission.",
            ),
        ),
    }
}

#[derive(Debug, Clone, Copy)]
pub struct BandRolePermissionEntry {
    pub role: BandRole,
    pub permission: BandPermission,
    pub allowed: bool,
}

impl BandRolePermissionEntry {
    /// The rules that this payload breaks.
    pub open spec fn broken_rules(self) -> Wrong {
        let e = no_errors();
        noted(e, "role"@, configurable_error(self.role))
    }

    /// Checks the payload against its rules.
    pub fn validate(&self) -> (r: Result<(), ValidationErrors>)
        ensures
            judged(r, self.broken_rules()),
    {
        let mut e = ValidationErrors::new();
        e.note("role", validate_configurable_role(&self.role));
        e.into_result()
    }
}

/// Every entry can be customized.
pub open spec fn all_configurable(v: Seq<BandRolePermissionEntry>) -> bool {
    forall|i: int| 0 <= i < v.len() ==> configurable_error((#[trigger] v[i]).role) is None
}

fn entries_configurable(v: &Vec<BandRolePermissionEntry>) -> (r: bool)
    ensures
        r == all_configurable(v@),
{
    let mut i: usize = 0;
    while i < v.len()
        invariant
            i <= v@.len(),
            forall|j: int| 0 <= j < i ==> configurable_error((#[trigger] v@[j]).role) is None,
        decreases v@.len() - i,
    {
        if validate_configurable_role(&v[i].role).is_err() {
            return false;
        }
        i = i + 1;
    }
    true
}

#[derive(Debug, Clone)]
pub struct UpdateBandRolePermissionsPayload {
    pub permissions: Vec<BandRolePermissionEntry>,
}

impl UpdateBandRolePermissionsPayload {
    /// The rules that this payload breaks.
    pub open spec fn broken_rules(self) -> Wrong {
        let e = no_errors();
        let e = unless(e, 1 <= self.permissions@.len() <= 20, "permissions"@, "length"@, Some("Between 1 and 20 permission entries are required."@));
        with_part(e, all_configurable(self.permissions@))
    }

    /// Checks the payload against its rules.
    pub fn validate(&self) -> (r: Result<(), ValidationErrors>)
        ensures
            judged(r, self.broken_rules()),
    {
        let mut e = ValidationErrors::new();
        e.check(self.permissions.len() >= 1 && self.permissions.len() <= 20, "permissions", "length", Some("Between 1 and 20 permission entries are required."));
        e.part(entries_configurable(&self.permissions));
        e.into_result()
    }
}

#[derive(Debug, Clone)]
pub struct UpdateBandMemberRolePayload {
    pub role: BandRole,
}

#[derive(Debug, Clone)]
pub struct BandInvite {
    pub id: Uuid,
    pub band_id: Uuid,
    pub code: String,
    pub role: BandRole,
    pub created_by: Uuid,
    pub max_uses: Option<i32>,
    pub uses_count: i32,
    pub expires_at: Option<NaiveDateTime>,
    pub revoked_at: Option<NaiveDateTime>,
    pub created_at: NaiveDateTime,
}

#[derive(Debug, Clone)]
pub struct CreateBandInvitePayload {
    pub role: Option<BandRole>,
    pub max_uses: Option<i32>,
    /// Up to one year; 7 days when omitted.
    pub expires_in_hours: Option<i64>,
}

impl CreateBandInvitePayload {
    /// The rules that this payload breaks.
    pub open spec fn broken_rules(self) -> Wrong {
        let e = no_errors();
        let e = unless(e, (self.max_uses matches Some(x) ==> 1 <= x <= 1000), "max_uses"@, "range"@, Some("Max uses must be between 1 and 1000."@));
        unless(e, (self.expires_in_hours matches Some(x) ==> 1 <= x <= 8760), "expires_in_hours"@, "range"@, Some("Expiry must be between 1 hour and 1 year."@))
    }

    /// Checks the payload against its rules.
    pub fn validate(&self) -> (r: Result<(), ValidationErrors>)
        ensures
            judged(r, self.broken_rules()),
    {
        let mut e = ValidationErrors::new();
        e.check(match self.max_uses { Some(x) => 1 <= x && x <= 1000, None => true }, "max_uses", "range", Some("Max uses must be between 1 and 1000."));
        e.check(match self.expires_in_hours { Some(x) => 1 <= x && x <= 8760, None => true }, "expires_in_hours", "range", Some("Expiry must be between 1 hour and 1 year."));
        e.into_result()
    }
}

/// Staff adding a user straight into a band (no invite).
#[derive(Debug, Clone)]
pub struct AdminAddBandMemberPayload {
    pub user_id: Uuid,
    /// Defaults to `member`. `owner` is not accepted — use transfer-ownership.
    pub role: Option<BandRole>,
}

#[derive(Debug, Clone)]
pub struct TransferOwnershipPayload {
    pub new_owner_id: Uuid,
}

} // verus!
