//! Resource quotas.
//!
//! The platform runs on modest infrastructure, so every kind of content a
//! user can create is capped. Limits come from platform-wide defaults
//! (editable by admins) and can be overridden per user, or lifted entirely
//! with the `unlimited` flag. Admins are always unlimited.

use crate::fields::{integer_or, integer_or_field, names_in, record, record_of};
use crate::validation::has_errors;
use crate::json::{Json, JsonValue, member};
use crate::time::NaiveDateTime;
use crate::validation::{ErrorView, ValidationError, ValidationErrors, Wrong, judged, no_errors, noted, verdict, with_part};
use vstd::prelude::*;

verus! {

/// Upper bound accepted for any limit, to keep typos (an extra zero or
/// three) from effectively disabling the protection.
pub const MAX_QUOTA_VALUE: i64 = 1_000_000;

#[derive(Debug, Clone, Copy, PartialEq, Eq, Structural)]
pub enum QuotaResource {
    Songs,
    Artists,
    Setlists,
    Gigs,
    Tags,
    BandsOwned,
    BandMemberships,
    BandMembers,
    BandSetlists,
    BandGigs,
    BandSongs,
    SetlistItems,
}

/// The key of each [`QuotaResource`].
pub open spec fn quota_resource_key(x: QuotaResource) -> Seq<char> {
    match x {
        QuotaResource::Songs => "songs"@,
        QuotaResource::Artists => "artists"@,
        QuotaResource::Setlists => "setlists"@,
        QuotaResource::Gigs => "gigs"@,
        QuotaResource::Tags => "tags"@,
        QuotaResource::BandsOwned => "bands_owned"@,
        QuotaResource::BandMemberships => "band_memberships"@,
        QuotaResource::BandMembers => "band_members"@,
        QuotaResource::BandSetlists => "band_setlists"@,
        QuotaResource::BandGigs => "band_gigs"@,
        QuotaResource::BandSongs => "band_songs"@,
        QuotaResource::SetlistItems => "setlist_items"@,
    }
}

/// No two of them share a key.
pub proof fn quota_resource_keys_are_distinct(a: QuotaResource, b: QuotaResource)
    ensures
        quota_resource_key(a) == quota_resource_key(b) ==> a == b,
{
    reveal_strlit("songs");
    reveal_strlit("artists");
    reveal_strlit("setlists");
    reveal_strlit("gigs");
    reveal_strlit("tags");
    reveal_strlit("bands_owned");
    reveal_strlit("band_memberships");
    reveal_strlit("band_members");
    reveal_strlit("band_setlists");
    reveal_strlit("band_gigs");
    reveal_strlit("band_songs");
    reveal_strlit("setlist_items");
    assert("songs"@.len() != "artists"@.len());
    assert("songs"@.len() != "setlists"@.len());
    assert("songs"@.len() != "gigs"@.len());
    assert("songs"@.len() != "tags"@.len());
    assert("songs"@.len() != "bands_owned"@.len());
    assert("songs"@.len() != "band_memberships"@.len());
    assert("songs"@.len() != "band_members"@.len());
    assert("songs"@.len() != "band_setlists"@.len());
    assert("songs"@.len() != "band_gigs"@.len());
    assert("songs"@.len() != "band_songs"@.len());
    assert("songs"@.len() != "setlist_items"@.len());
    assert("artists"@.len() != "setlists"@.len());
    assert("artists"@.len() != "gigs"@.len());
    assert("artists"@.len() != "tags"@.len());
    assert("artists"@.len() != "bands_owned"@.len());
    assert("artists"@.len() != "band_memberships"@.len());
    assert("artists"@.len() != "band_members"@.len());
    assert("artists"@.len() != "band_setlists"@.len());
    assert("artists"@.len() != "band_gigs"@.len());
    assert("artists"@.len() != "band_songs"@.len());
    assert("artists"@.len() != "setlist_items"@.len());
    assert("setlists"@.len() != "gigs"@.len());
    assert("setlists"@.len() != "tags"@.len());
    assert("setlists"@.len() != "bands_owned"@.len());
    assert("setlists"@.len() != "band_memberships"@.len());
    assert("setlists"@.len() != "band_members"@.len());
    assert("setlists"@.len() != "band_setlists"@.len());
    assert("setlists"@.len() != "band_gigs"@.len());
    assert("setlists"@.len() != "band_songs"@.len());
    assert("setlists"@.len() != "setlist_items"@.len());
    assert("gigs"@[0] != "tags"@[0]);
    assert("gigs"@.len() != "bands_owned"@.len());
    assert("gigs"@.len() != "band_memberships"@.len());
    assert("gigs"@.len() != "band_members"@.len());
    assert("gigs"@.len() != "band_setlists"@.len());
    assert("gigs"@.len() != "band_gigs"@.len());
    assert("gigs"@.len() != "band_songs"@.len());
    assert("gigs"@.len() != "setlist_items"@.len());
    assert("tags"@.len() != "bands_owned"@.len());
    assert("tags"@.len() != "band_memberships"@.len());
    assert("tags"@.len() != "band_members"@.len());
    assert("tags"@.len() != "band_setlists"@.len());
    assert("tags"@.len() != "band_gigs"@.len());
    assert("tags"@.len() != "band_songs"@.len());
    assert("tags"@.len() != "setlist_items"@.len());
    assert("bands_owned"@.len() != "band_memberships"@.len());
    assert("bands_owned"@.len() != "band_members"@.len());
    assert("bands_owned"@.len() != "band_setlists"@.len());
    assert("bands_owned"@.len() != "band_gigs"@.len());
    assert("bands_owned"@.len() != "band_songs"@.len());
    assert("bands_owned"@.len() != "setlist_items"@.len());
    assert("band_memberships"@.len() != "band_members"@.len());
    assert("band_memberships"@.len() != "band_setlists"@.len());
    assert("band_memberships"@.len() != "band_gigs"@.len());
    assert("band_memberships"@.len() != "band_songs"@.len());
    assert("band_memberships"@.len() != "setlist_items"@.len());
    assert("band_members"@.len() != "band_setlists"@.len());
    assert("band_members"@.len() != "band_gigs"@.len());
    assert("band_members"@.len() != "band_songs"@.len());
    assert("band_members"@.len() != "setlist_items"@.len());
    assert("band_setlists"@.len() != "band_gigs"@.len());
    assert("band_setlists"@.len() != "band_songs"@.len());
    assert("band_setlists"@[0] != "setlist_items"@[0]);
    assert("band_gigs"@.len() != "band_songs"@.len());
    assert("band_gigs"@.len() != "setlist_items"@.len());
    assert("band_songs"@.len() != "setlist_items"@.len());
}

impl QuotaResource {
    pub fn key(&self) -> (r: &'static str)
        ensures
            r@ == quota_resource_key(*self),
    {
        match self {
            QuotaResource::Songs => "songs",
            QuotaResource::Artists => "artists",
            QuotaResource::Setlists => "setlists",
            QuotaResource::Gigs => "gigs",
            QuotaResource::Tags => "tags",
            QuotaResource::BandsOwned => "bands_owned",
            QuotaResource::BandMemberships => "band_memberships",
            QuotaResource::BandMembers => "band_members",
            QuotaResource::BandSetlists => "band_setlists",
            QuotaResource::BandGigs => "band_gigs",
            QuotaResource::BandSongs => "band_songs",
            QuotaResource::SetlistItems => "setlist_items",
        }
    }
}

impl QuotaResource {
    pub const ALL: [QuotaResource; 12] = [
        QuotaResource::Songs,
        QuotaResource::Artists,
        QuotaResource::Setlists,
        QuotaResource::Gigs,
        QuotaResource::Tags,
        QuotaResource::BandsOwned,
        QuotaResource::BandMemberships,
        QuotaResource::BandMembers,
        QuotaResource::BandSetlists,
        QuotaResource::BandGigs,
        QuotaResource::BandSongs,
        QuotaResource::SetlistItems,
    ];

    /// Resources counted against the user themselves (the rest are
    /// counted per band or per setlist).
    pub const PER_USER: [QuotaResource; 7] = [
        QuotaResource::Songs,
        QuotaResource::Artists,
        QuotaResource::Setlists,
        QuotaResource::Gigs,
        QuotaResource::Tags,
        QuotaResource::BandsOwned,
        QuotaResource::BandMemberships,
    ];
}

/// What is wrong with a limit.
pub open spec fn limit_error(value: int) -> Option<ErrorView> {
    if 0 <= value <= MAX_QUOTA_VALUE {
        None
    } else {
        Some(
            ErrorView {
                code: "invalid_quota"@,
                message: Some("Limits must be between 0 and 1000000."@),
            },
        )
    }
}

pub fn validate_limit(value: i64) -> (r: Result<(), ValidationError>)
    ensures
        verdict(r) == limit_error(value as int),
{
    if 0 <= value && value <= MAX_QUOTA_VALUE {
        Ok(())
    } else {
        Err(
            ValidationError::with_message(
                "invalid_quota",
                "Limits must be between 0 and 1000000.",
            ),
        )
    }
}

/// A complete set of limits — the platform defaults, or the effective
/// limits for one user after applying their overrides.
#[derive(Debug, Clone, Copy, PartialEq, Eq, Structural)]
pub struct QuotaLimits {
    pub songs: i64,
    pub artists: i64,
    pub setlists: i64,
    pub gigs: i64,
    pub tags: i64,
    pub bands_owned: i64,
    pub band_memberships: i64,
    pub band_members: i64,
    pub band_setlists: i64,
    pub band_gigs: i64,
    pub band_songs: i64,
    pub setlist_items: i64,
}

impl QuotaLimits {
    /// The rules that this payload breaks.
    pub open spec fn broken_rules(self) -> Wrong {
        let e = no_errors();
        let e = noted(e, "songs"@, limit_error(self.songs as int));
        let e = noted(e, "artists"@, limit_error(self.artists as int));
        let e = noted(e, "setlists"@, limit_error(self.setlists as int));
        let e = noted(e, "gigs"@, limit_error(self.gigs as int));
        let e = noted(e, "tags"@, limit_error(self.tags as int));
        let e = noted(e, "bands_owned"@, limit_error(self.bands_owned as int));
        let e = noted(e, "band_memberships"@, limit_error(self.band_memberships as int));
        let e = noted(e, "band_members"@, limit_error(self.band_members as int));
        let e = noted(e, "band_setlists"@, limit_error(self.band_setlists as int));
        let e = noted(e, "band_gigs"@, limit_error(self.band_gigs as int));
        let e = noted(e, "band_songs"@, limit_error(self.band_songs as int));
        noted(e, "setlist_items"@, limit_error(self.setlist_items as int))
    }

    /// Checks the payload against its rules.
    pub fn validate(&self) -> (r: Result<(), ValidationErrors>)
        ensures
            judged(r, self.broken_rules()),
    {
        let mut e = ValidationErrors::new();
        e.note("songs", validate_limit(self.songs));
        e.note("artists", validate_limit(self.artists));
        e.note("setlists", validate_limit(self.setlists));
        e.note("gigs", validate_limit(self.gigs));
        e.note("tags", validate_limit(self.tags));
        e.note("bands_owned", validate_limit(self.bands_owned));
        e.note("band_memberships", validate_limit(self.band_memberships));
        e.note("band_members", validate_limit(self.band_members));
        e.note("band_setlists", validate_limit(self.band_setlists));
        e.note("band_gigs", validate_limit(self.band_gigs));
        e.note("band_songs", validate_limit(self.band_songs));
        e.note("setlist_items", validate_limit(self.setlist_items));
        e.into_result()
    }
}

/// The limits of the platform: generous for a working musician or band, small
/// enough that a single abusive account can't meaningfully load the database.
pub open spec fn default_limits() -> QuotaLimits {
    QuotaLimits {
        songs: 1_000,
        artists: 500,
        setlists: 200,
        gigs: 500,
        tags: 100,
        bands_owned: 5,
        band_memberships: 20,
        band_members: 30,
        band_setlists: 300,
        band_gigs: 500,
        band_songs: 2_000,
        setlist_items: 150,
    }
}

impl Default for QuotaLimits {
    fn default() -> (r: Self)
        ensures
            r == default_limits(),
    {
        QuotaLimits {
            songs: 1_000,
            artists: 500,
            setlists: 200,
            gigs: 500,
            tags: 100,
            bands_owned: 5,
            band_memberships: 20,
            band_members: 30,
            band_setlists: 300,
            band_gigs: 500,
            band_songs: 2_000,
            setlist_items: 150,
        }
    }
}

/// The limit on a resource.
pub open spec fn limit_on(limits: QuotaLimits, resource: QuotaResource) -> i64 {
    match resource {
        QuotaResource::Songs => limits.songs,
        QuotaResource::Artists => limits.artists,
        QuotaResource::Setlists => limits.setlists,
        QuotaResource::Gigs => limits.gigs,
        QuotaResource::Tags => limits.tags,
        QuotaResource::BandsOwned => limits.bands_owned,
        QuotaResource::BandMemberships => limits.band_memberships,
        QuotaResource::BandMembers => limits.band_members,
        QuotaResource::BandSetlists => limits.band_setlists,
        QuotaResource::BandGigs => limits.band_gigs,
        QuotaResource::BandSongs => limits.band_songs,
        QuotaResource::SetlistItems => limits.setlist_items,
    }
}

/// The override on a resource.
pub open spec fn override_on(overrides: QuotaOverrides, resource: QuotaResource) -> Option<i64> {
    match resource {
        QuotaResource::Songs => overrides.songs,
        QuotaResource::Artists => overrides.artists,
        QuotaResource::Setlists => overrides.setlists,
        QuotaResource::Gigs => overrides.gigs,
        QuotaResource::Tags => overrides.tags,
        QuotaResource::BandsOwned => overrides.bands_owned,
        QuotaResource::BandMemberships => overrides.band_memberships,
        QuotaResource::BandMembers => overrides.band_members,
        QuotaResource::BandSetlists => overrides.band_setlists,
        QuotaResource::BandGigs => overrides.band_gigs,
        QuotaResource::BandSongs => overrides.band_songs,
        QuotaResource::SetlistItems => overrides.setlist_items,
    }
}

impl QuotaLimits {
    pub fn get(&self, resource: QuotaResource) -> (r: i64)
        ensures
            r == limit_on(*self, resource),
    {
        match resource {
            QuotaResource::Songs => self.songs,
            QuotaResource::Artists => self.artists,
            QuotaResource::Setlists => self.setlists,
            QuotaResource::Gigs => self.gigs,
            QuotaResource::Tags => self.tags,
            QuotaResource::BandsOwned => self.bands_owned,
            QuotaResource::BandMemberships => self.band_memberships,
            QuotaResource::BandMembers => self.band_members,
            QuotaResource::BandSetlists => self.band_setlists,
            QuotaResource::BandGigs => self.band_gigs,
            QuotaResource::BandSongs => self.band_songs,
            QuotaResource::SetlistItems => self.setlist_items,
        }
    }

    /// Applies per-user overrides on top of `self`.
    pub fn with_overrides(self, overrides: &QuotaOverrides) -> (r: Self)
        ensures
            forall|x: QuotaResource| #[trigger]
                limit_on(r, x) == match override_on(*overrides, x) {
                    Some(n) => n,
                    None => limit_on(self, x),
                },
    {
        QuotaLimits {
            songs: or_limit(overrides.songs, self.songs),
            artists: or_limit(overrides.artists, self.artists),
            setlists: or_limit(overrides.setlists, self.setlists),
            gigs: or_limit(overrides.gigs, self.gigs),
            tags: or_limit(overrides.tags, self.tags),
            bands_owned: or_limit(overrides.bands_owned, self.bands_owned),
            band_memberships: or_limit(overrides.band_memberships, self.band_memberships),
            band_members: or_limit(overrides.band_members, self.band_members),
            band_setlists: or_limit(overrides.band_setlists, self.band_setlists),
            band_gigs: or_limit(overrides.band_gigs, self.band_gigs),
            band_songs: or_limit(overrides.band_songs, self.band_songs),
            setlist_items: or_limit(overrides.setlist_items, self.setlist_items),
        }
    }
}

fn or_limit(n: Option<i64>, limit: i64) -> (r: i64)
    ensures
        r == match n {
            Some(x) => x,
            None => limit,
        },
{
    match n {
        Some(x) => x,
        None => limit,
    }
}

/// Per-user overrides: `None` means "use the platform default".
#[derive(Debug, Clone, Copy, PartialEq, Eq, Structural)]
pub struct QuotaOverrides {
    pub songs: Option<i64>,
    pub artists: Option<i64>,
    pub setlists: Option<i64>,
    pub gigs: Option<i64>,
    pub tags: Option<i64>,
    pub bands_owned: Option<i64>,
    pub band_memberships: Option<i64>,
    pub band_members: Option<i64>,
    pub band_setlists: Option<i64>,
    pub band_gigs: Option<i64>,
    pub band_songs: Option<i64>,
    pub setlist_items: Option<i64>,
}

impl QuotaOverrides {
    /// The rules that this payload breaks.
    pub open spec fn broken_rules(self) -> Wrong {
        let e = no_errors();
        let e = noted(e, "songs"@, match self.songs { Some(n) => limit_error(n as int), None => None });
        let e = noted(e, "artists"@, match self.artists { Some(n) => limit_error(n as int), None => None });
        let e = noted(e, "setlists"@, match self.setlists { Some(n) => limit_error(n as int), None => None });
        let e = noted(e, "gigs"@, match self.gigs { Some(n) => limit_error(n as int), None => None });
        let e = noted(e, "tags"@, match self.tags { Some(n) => limit_error(n as int), None => None });
        let e = noted(e, "bands_owned"@, match self.bands_owned { Some(n) => limit_error(n as int), None => None });
        let e = noted(e, "band_memberships"@, match self.band_memberships { Some(n) => limit_error(n as int), None => None });
        let e = noted(e, "band_members"@, match self.band_members { Some(n) => limit_error(n as int), None => None });
        let e = noted(e, "band_setlists"@, match self.band_setlists { Some(n) => limit_error(n as int), None => None });
        let e = noted(e, "band_gigs"@, match self.band_gigs { Some(n) => limit_error(n as int), None => None });
        let e = noted(e, "band_songs"@, match self.band_songs { Some(n) => limit_error(n as int), None => None });
        noted(e, "setlist_items"@, match self.setlist_items { Some(n) => limit_error(n as int), None => None })
    }

    /// Checks the payload against its rules.
    pub fn validate(&self) -> (r: Result<(), ValidationErrors>)
        ensures
            judged(r, self.broken_rules()),
    {
        let mut e = ValidationErrors::new();
        e.note("songs", match self.songs { Some(n) => validate_limit(n), None => Ok(()) });
        e.note("artists", match self.artists { Some(n) => validate_limit(n), None => Ok(()) });
        e.note("setlists", match self.setlists { Some(n) => validate_limit(n), None => Ok(()) });
        e.note("gigs", match self.gigs { Some(n) => validate_limit(n), None => Ok(()) });
        e.note("tags", match self.tags { Some(n) => validate_limit(n), None => Ok(()) });
        e.note("bands_owned", match self.bands_owned { Some(n) => validate_limit(n), None => Ok(()) });
        e.note("band_memberships", match self.band_memberships { Some(n) => validate_limit(n), None => Ok(()) });
        e.note("band_members", match self.band_members { Some(n) => validate_limit(n), None => Ok(()) });
        e.note("band_setlists", match self.band_setlists { Some(n) => validate_limit(n), None => Ok(()) });
        e.note("band_gigs", match self.band_gigs { Some(n) => validate_limit(n), None => Ok(()) });
        e.note("band_songs", match self.band_songs { Some(n) => validate_limit(n), None => Ok(()) });
        e.note("setlist_items", match self.setlist_items { Some(n) => validate_limit(n), None => Ok(()) });
        e.into_result()
    }
}

impl Default for QuotaOverrides {
    fn default() -> (r: Self)
        ensures
            forall|x: QuotaResource| #[trigger] override_on(r, x) is None,
    {
        QuotaOverrides {
            songs: None,
            artists: None,
            setlists: None,
            gigs: None,
            tags: None,
            bands_owned: None,
            band_memberships: None,
            band_members: None,
            band_setlists: None,
            band_gigs: None,
            band_songs: None,
            setlist_items: None,
        }
    }
}

/// The limits, in the order in which a list of them is stored.
pub const LIMIT_FIELDS: [&'static str; 12] = [
    "songs",
    "artists",
    "setlists",
    "gigs",
    "tags",
    "bands_owned",
    "band_memberships",
    "band_members",
    "band_setlists",
    "band_gigs",
    "band_songs",
    "setlist_items",
];

/// What stored limits say, be they stored by name or as a list; none where one
/// of them is no whole number. Those that are missing are the default ones.
pub open spec fn limits_in(v: Json) -> Option<QuotaLimits> {
    match record(v, names_in(LIMIT_FIELDS@)) {
        Some(o) => named_limits(o),
        None => None,
    }
}

/// What limits that are stored by name say.
pub open spec fn named_limits(v: Json) -> Option<QuotaLimits> {
    let d = default_limits();
    match ((integer_or(v, "songs"@, d.songs), integer_or(v, "artists"@, d.artists), integer_or(v, "setlists"@, d.setlists), integer_or(v, "gigs"@, d.gigs), integer_or(v, "tags"@, d.tags), integer_or(v, "bands_owned"@, d.bands_owned)), (integer_or(v, "band_memberships"@, d.band_memberships), integer_or(v, "band_members"@, d.band_members), integer_or(v, "band_setlists"@, d.band_setlists), integer_or(v, "band_gigs"@, d.band_gigs), integer_or(v, "band_songs"@, d.band_songs), integer_or(v, "setlist_items"@, d.setlist_items))) {
        (
            (Some(songs), Some(artists), Some(setlists), Some(gigs), Some(tags), Some(bands_owned)),
            (Some(band_memberships), Some(band_members), Some(band_setlists), Some(band_gigs), Some(band_songs), Some(setlist_items)),
        ) => Some(
            QuotaLimits {
                songs,
                artists,
                setlists,
                gigs,
                tags,
                bands_owned,
                band_memberships,
                band_members,
                band_setlists,
                band_gigs,
                band_songs,
                setlist_items,
            },
        ),
        _ => None,
    }
}

impl QuotaLimits {
    /// Reads stored limits; those that are missing are the default ones.
    pub fn from_json(value: &JsonValue) -> (r: Option<QuotaLimits>)
        ensures
            r == limits_in(value@),
    {
        let stored = match record_of(value, LIMIT_FIELDS) {
            Some(o) => o,
            None => {
                return None;
            },
        };
        let value = &stored;
        let d = QuotaLimits::default();
        match ((integer_or_field(value, "songs", d.songs), integer_or_field(value, "artists", d.artists), integer_or_field(value, "setlists", d.setlists), integer_or_field(value, "gigs", d.gigs), integer_or_field(value, "tags", d.tags), integer_or_field(value, "bands_owned", d.bands_owned)), (integer_or_field(value, "band_memberships", d.band_memberships), integer_or_field(value, "band_members", d.band_members), integer_or_field(value, "band_setlists", d.band_setlists), integer_or_field(value, "band_gigs", d.band_gigs), integer_or_field(value, "band_songs", d.band_songs), integer_or_field(value, "setlist_items", d.setlist_items))) {
            (
                (Some(songs), Some(artists), Some(setlists), Some(gigs), Some(tags), Some(bands_owned)),
                (Some(band_memberships), Some(band_members), Some(band_setlists), Some(band_gigs), Some(band_songs), Some(setlist_items)),
            ) => Some(
                QuotaLimits {
                    songs,
                    artists,
                    setlists,
                    gigs,
                    tags,
                    bands_owned,
                    band_memberships,
                    band_members,
                    band_setlists,
                    band_gigs,
                    band_songs,
                    setlist_items,
                },
            ),
            _ => None,
        }
    }
}

/// Nothing stored means the default limits.
pub proof fn nothing_stored_means_the_defaults()
    ensures
        limits_in(Json::Object(seq![])) == Some(default_limits()),
        limits_in(Json::Array(seq![])) == Some(default_limits()),
{
    let v = Json::Object(seq![]);
    assert forall|key: Seq<char>| #[trigger] member(v, key) is None by {}
    let o = record(Json::Array(seq![]), names_in(LIMIT_FIELDS@))->0;
    assert(o->Object_0 =~= seq![]);
}

/// A user's stored quota settings.
#[derive(Debug, Clone, Default)]
pub struct UserQuotaSettings {
    pub overrides: QuotaOverrides,
    pub unlimited: bool,
    pub updated_at: Option<NaiveDateTime>,
    pub updated_by_username: Option<String>,
}

#[derive(Debug, Clone, Copy)]
pub struct UpdateUserQuotaPayload {
    pub overrides: QuotaOverrides,
    pub unlimited: bool,
}

impl UpdateUserQuotaPayload {
    /// The rules that this payload breaks.
    pub open spec fn broken_rules(self) -> Wrong {
        let e = no_errors();
        with_part(e, !has_errors(self.overrides.broken_rules()))
    }

    /// Checks the payload against its rules.
    pub fn validate(&self) -> (r: Result<(), ValidationErrors>)
        ensures
            judged(r, self.broken_rules()),
    {
        let mut e = ValidationErrors::new();
        e.part(self.overrides.validate().is_ok());
        e.into_result()
    }
}

/// One line of a usage report.
#[derive(Debug, Clone, Copy)]
pub struct QuotaUsageItem {
    pub resource: QuotaResource,
    /// Current count. `None` for per-band/per-setlist limits, which have
    /// no single "used" value for a user.
    pub used: Option<i64>,
    /// Effective limit. `None` when the account is unlimited.
    pub limit: Option<i64>,
    /// Whether this limit comes from a per-user override.
    pub overridden: bool,
}

#[derive(Debug, Clone)]
pub struct QuotaReport {
    pub unlimited: bool,
    pub items: Vec<QuotaUsageItem>,
}

/// The default limits are limits that may be set.
pub proof fn default_limits_are_valid()
    ensures
        !has_errors(default_limits().broken_rules()),
{
}

} // verus!
