//! Setlists: the running order of a show.

use crate::models::link::{LinkInput, Links};
use crate::models::song::{PublicSong, SongWithArtist};
use vstd::std_specs::convert::FromSpecImpl;
use crate::ids::Uuid;
use crate::text::{chars, number, opt_text};
use crate::time::NaiveDateTime;
use crate::validation::{ErrorView, ValidationError, ValidationErrors, Wrong, has_length, judged, length_within, no_errors, noted, opt_has_length, opt_length_within, unless, verdict};
use vstd::prelude::*;

verus! {

#[derive(Debug, Clone)]
pub struct Setlist {
    pub id: Uuid,
    pub title: String,
    pub description: Option<String>,
    pub user_id: Uuid,
    /// The band this setlist belongs to, or `None` for a personal setlist.
    pub band_id: Option<Uuid>,
    /// A long, random, unguessable token that resolves this setlist through
    /// the public (unauthenticated) `/public/setlists/{token}` endpoints, or
    /// `None` if public sharing isn't enabled. See [`crate::utils::share_token::generate_share_token`].
    pub share_token: Option<String>,
    pub total_duration: i32,
    /// Whether the *caller* has favorited this setlist — personal, never
    /// affects anyone else's view or any permission. `false` on the
    /// public (unauthenticated) share endpoints, which have no caller.
    pub is_favorite: bool,
    /// Set when staff took the public link down; the owner can't re-share
    /// until it's unlocked.
    pub share_locked_at: Option<NaiveDateTime>,
    pub share_lock_reason: Option<String>,
    /// Number of songs in the running order (blocks/breaks excluded).
    pub song_count: i64,
    /// Username of the creator (`user_id`).
    pub owner_username: Option<String>,
    pub updated_by: Option<Uuid>,
    pub updated_by_username: Option<String>,
    /// Reference links (a playlist, the charts folder...).
    pub links: Links,
    /// `true` for a band's repertoire: the special setlist that collects
    /// every song the band plays. It can't be deleted or renamed.
    pub is_repertoire: bool,
    /// Whether the *caller* pinned this setlist to their home screen.
    pub is_pinned: bool,
    pub created_at: NaiveDateTime,
    pub updated_at: NaiveDateTime,
}

/// `POST /setlists/{id}/duplicate` answer: the new personal setlist plus
/// how many band songs could not be copied into the caller's library
/// (their song or artist quota was reached).
#[derive(Debug, Clone)]
pub struct DuplicateSetlistResponse {
    pub setlist: Setlist,
    pub skipped_band_songs: i64,
}

#[derive(Debug, Clone)]
pub struct CreateSetlistPayload {
    pub title: String,
    pub description: Option<String>,
    /// Optionally create the setlist under a band instead of personally.
    /// The caller must be a member of the band with permission to manage its setlists.
    pub band_id: Option<Uuid>,
    /// At most 5 links to supported providers.
    pub links: Option<Vec<LinkInput>>,
}

impl CreateSetlistPayload {
    /// The rules that this payload breaks.
    pub open spec fn broken_rules(self, description: Option<ErrorView>) -> Wrong {
        let e = no_errors();
        let e = unless(e, length_within(self.title@, 1, 255), "title"@, "length"@, Some("Title must be between 1 and 255 chars."@));
        let e = noted(e, "description"@, description);
        unless(e, (self.links matches Some(x) ==> 0 <= x@.len() <= 5), "links"@, "length"@, Some("At most 5 links are allowed."@))
    }

    /// Checks the payload against its rules.
    /// `description` is what the text rules say of that field.
    pub fn validate(&self, description: Result<(), ValidationError>) -> (r: Result<(), ValidationErrors>)
        ensures
            judged(r, self.broken_rules(verdict(description))),
    {
        let mut e = ValidationErrors::new();
        e.check(has_length(self.title.as_str(), 1, 255), "title", "length", Some("Title must be between 1 and 255 chars."));
        e.note("description", description);
        e.check(match &self.links { Some(x) => x.len() <= 5, None => true }, "links", "length", Some("At most 5 links are allowed."));
        e.into_result()
    }
}

#[derive(Debug, Clone)]
pub struct UpdateSetlistPayload {
    pub title: Option<String>,
    /// Absent = unchanged, `null` = clear.
    pub description: Option<Option<String>>,
    /// Absent = unchanged, `[]` = remove every link.
    pub links: Option<Vec<LinkInput>>,
}

impl UpdateSetlistPayload {
    /// The rules that this payload breaks.
    pub open spec fn broken_rules(self, description: Option<ErrorView>) -> Wrong {
        let e = no_errors();
        let e = unless(e, opt_length_within(opt_text(self.title), 1, 255), "title"@, "length"@, Some("Title must be between 1 and 255 chars."@));
        let e = noted(e, "description"@, description);
        unless(e, (self.links matches Some(x) ==> 0 <= x@.len() <= 5), "links"@, "length"@, Some("At most 5 links are allowed."@))
    }

    /// Checks the payload against its rules.
    /// `description` is what the text rules say of that field.
    pub fn validate(&self, description: Result<(), ValidationError>) -> (r: Result<(), ValidationErrors>)
        ensures
            judged(r, self.broken_rules(verdict(description))),
    {
        let mut e = ValidationErrors::new();
        e.check(opt_has_length(&self.title, 1, 255), "title", "length", Some("Title must be between 1 and 255 chars."));
        e.note("description", description);
        e.check(match &self.links { Some(x) => x.len() <= 5, None => true }, "links", "length", Some("At most 5 links are allowed."));
        e.into_result()
    }
}

#[derive(Debug, Clone)]
pub struct AddSongToSetlistPayload {
    pub song_id: Uuid,
}

/// Optional title override when duplicating a setlist. When omitted, the
/// backend derives one from the original title (see
/// `SetlistRepository::duplicate`).
#[derive(Debug, Clone, Default)]
pub struct DuplicateSetlistPayload {
    pub title: Option<String>,
}

impl DuplicateSetlistPayload {
    /// The rules that this payload breaks.
    pub open spec fn broken_rules(self) -> Wrong {
        let e = no_errors();
        unless(e, opt_length_within(opt_text(self.title), 1, 255), "title"@, "length"@, Some("Title must be between 1 and 255 chars."@))
    }

    /// Checks the payload against its rules.
    pub fn validate(&self) -> (r: Result<(), ValidationErrors>)
        ensures
            judged(r, self.broken_rules()),
    {
        let mut e = ValidationErrors::new();
        e.check(opt_has_length(&self.title, 1, 255), "title", "length", Some("Title must be between 1 and 255 chars."));
        e.into_result()
    }
}

/// A non-song entry in a setlist's running order: either a named
/// block/section header, or a break/pause slot.
#[derive(Debug, Clone, Copy, PartialEq, Eq, Structural)]
pub enum SetlistMarkerType {
    Block,
    Break,
}

#[derive(Debug, Clone)]
pub struct SetlistMarker {
    pub id: Uuid,
    pub setlist_id: Uuid,
    pub marker_type: SetlistMarkerType,
    /// Block name (for `block` markers) or an optional break label (for
    /// `break` markers — the frontend falls back to a translated
    /// placeholder such as "Break" when this is `None`).
    pub label: Option<String>,
    /// Only meaningful for `break` markers.
    pub duration_minutes: Option<i32>,
    pub position: i32,
    pub created_at: NaiveDateTime,
}

#[derive(Debug, Clone)]
pub struct CreateSetlistBlockPayload {
    pub name: String,
}

impl CreateSetlistBlockPayload {
    /// The rules that this payload breaks.
    pub open spec fn broken_rules(self) -> Wrong {
        let e = no_errors();
        unless(e, length_within(self.name@, 1, 255), "name"@, "length"@, Some("Block name must be between 1 and 255 chars."@))
    }

    /// Checks the payload against its rules.
    pub fn validate(&self) -> (r: Result<(), ValidationErrors>)
        ensures
            judged(r, self.broken_rules()),
    {
        let mut e = ValidationErrors::new();
        e.check(has_length(self.name.as_str(), 1, 255), "name", "length", Some("Block name must be between 1 and 255 chars."));
        e.into_result()
    }
}

#[derive(Debug, Clone)]
pub struct UpdateSetlistBlockPayload {
    pub name: String,
}

impl UpdateSetlistBlockPayload {
    /// The rules that this payload breaks.
    pub open spec fn broken_rules(self) -> Wrong {
        let e = no_errors();
        unless(e, length_within(self.name@, 1, 255), "name"@, "length"@, Some("Block name must be between 1 and 255 chars."@))
    }

    /// Checks the payload against its rules.
    pub fn validate(&self) -> (r: Result<(), ValidationErrors>)
        ensures
            judged(r, self.broken_rules()),
    {
        let mut e = ValidationErrors::new();
        e.check(has_length(self.name.as_str(), 1, 255), "name", "length", Some("Block name must be between 1 and 255 chars."));
        e.into_result()
    }
}

#[derive(Debug, Clone, Default)]
pub struct CreateSetlistBreakPayload {
    pub label: Option<String>,
    pub duration_minutes: Option<i32>,
}

impl CreateSetlistBreakPayload {
    /// The rules that this payload breaks.
    pub open spec fn broken_rules(self) -> Wrong {
        let e = no_errors();
        let e = unless(e, opt_length_within(opt_text(self.label), 0, 255), "label"@, "length"@, Some("Label must be at most 255 chars."@));
        unless(e, (self.duration_minutes matches Some(x) ==> 0 <= x <= 1440), "duration_minutes"@, "range"@, Some("Duration must be a realistic number of minutes."@))
    }

    /// Checks the payload against its rules.
    pub fn validate(&self) -> (r: Result<(), ValidationErrors>)
        ensures
            judged(r, self.broken_rules()),
    {
        let mut e = ValidationErrors::new();
        e.check(opt_has_length(&self.label, 0, 255), "label", "length", Some("Label must be at most 255 chars."));
        e.check(match self.duration_minutes { Some(x) => 0 <= x && x <= 1440, None => true }, "duration_minutes", "range", Some("Duration must be a realistic number of minutes."));
        e.into_result()
    }
}

#[derive(Debug, Clone, Default)]
pub struct UpdateSetlistBreakPayload {
    pub label: Option<String>,
    pub duration_minutes: Option<i32>,
}

impl UpdateSetlistBreakPayload {
    /// The rules that this payload breaks.
    pub open spec fn broken_rules(self) -> Wrong {
        let e = no_errors();
        let e = unless(e, opt_length_within(opt_text(self.label), 0, 255), "label"@, "length"@, Some("Label must be at most 255 chars."@));
        unless(e, (self.duration_minutes matches Some(x) ==> 0 <= x <= 1440), "duration_minutes"@, "range"@, Some("Duration must be a realistic number of minutes."@))
    }

    /// Checks the payload against its rules.
    pub fn validate(&self) -> (r: Result<(), ValidationErrors>)
        ensures
            judged(r, self.broken_rules()),
    {
        let mut e = ValidationErrors::new();
        e.check(opt_has_length(&self.label, 0, 255), "label", "length", Some("Label must be at most 255 chars."));
        e.check(match self.duration_minutes { Some(x) => 0 <= x && x <= 1440, None => true }, "duration_minutes", "range", Some("Duration must be a realistic number of minutes."));
        e.into_result()
    }
}

/// One entry in the combined, position-ordered view of a setlist's
/// contents — a song, a block header, or a break.
#[derive(Debug, Clone)]
pub enum SetlistItem {
    Song { position: i32, song: SongWithArtist },
    Block { position: i32, id: Uuid, name: String },
    Break { position: i32, id: Uuid, label: Option<String>, duration_minutes: Option<i32> },
}

/// A reference to one item in a setlist's timeline, used to describe the
/// desired order in `ReorderSetlistItemsPayload`. `item_type` says which
/// table `id` belongs to: `song` -> `songs.id`, `block`/`break` ->
/// `setlist_markers.id`.
#[derive(Debug, Clone, Copy, PartialEq, Eq, Structural)]
pub enum SetlistItemType {
    Song,
    Block,
    Break,
}

#[derive(Debug, Clone)]
pub struct SetlistItemRef {
    pub item_type: SetlistItemType,
    pub id: Uuid,
}

#[derive(Debug, Clone)]
pub struct ReorderSetlistItemsPayload {
    pub items: Vec<SetlistItemRef>,
}

impl ReorderSetlistItemsPayload {
    /// The rules that this payload breaks.
    pub open spec fn broken_rules(self) -> Wrong {
        let e = no_errors();
        unless(e, 1 <= self.items@.len() <= 1000, "items"@, "length"@, Some("The list of items must have between 1 and 1000 entries."@))
    }

    /// Checks the payload against its rules.
    pub fn validate(&self) -> (r: Result<(), ValidationErrors>)
        ensures
            judged(r, self.broken_rules()),
    {
        let mut e = ValidationErrors::new();
        e.check(self.items.len() >= 1 && self.items.len() <= 1000, "items", "length", Some("The list of items must have between 1 and 1000 entries."));
        e.into_result()
    }
}

#[derive(Debug, Clone)]
pub struct ReorderSetlistSongsPayload {
    pub song_ids: Vec<Uuid>,
}

impl ReorderSetlistSongsPayload {
    /// The rules that this payload breaks.
    pub open spec fn broken_rules(self) -> Wrong {
        let e = no_errors();
        unless(e, 1 <= self.song_ids@.len() <= 1000, "song_ids"@, "length"@, Some("The list of song IDs must have between 1 and 1000 entries."@))
    }

    /// Checks the payload against its rules.
    pub fn validate(&self) -> (r: Result<(), ValidationErrors>)
        ensures
            judged(r, self.broken_rules()),
    {
        let mut e = ValidationErrors::new();
        e.check(self.song_ids.len() >= 1 && self.song_ids.len() <= 1000, "song_ids", "length", Some("The list of song IDs must have between 1 and 1000 entries."));
        e.into_result()
    }
}

/// A block header or break on the public share endpoints (no ids or
/// timestamps).
#[derive(Debug, Clone)]
pub struct PublicMarker {
    pub marker_type: SetlistMarkerType,
    pub label: Option<String>,
    pub duration_minutes: Option<i32>,
    pub position: i32,
}

/// `s` is a new, empty setlist.
pub open spec fn is_new_setlist(
    s: Setlist,
    title: Seq<char>,
    description: Option<Seq<char>>,
    user_id: Uuid,
    band_id: Option<Uuid>,
    id: Uuid,
    now: NaiveDateTime,
) -> bool {
    &&& s.id == id
    &&& s.title@ == title
    &&& opt_text(s.description) == description
    &&& s.user_id == user_id
    &&& s.band_id == band_id
    &&& s.share_token is None
    &&& s.total_duration == 0
    &&& !s.is_favorite
    &&& s.share_locked_at is None
    &&& s.share_lock_reason is None
    &&& s.song_count == 0
    &&& s.owner_username is None
    &&& s.updated_by is None
    &&& s.updated_by_username is None
    &&& s.links@.len() == 0
    &&& !s.is_repertoire
    &&& !s.is_pinned
    &&& s.created_at == now
    &&& s.updated_at == now
}

impl Setlist {
    /// The setlist with this identity, made at the moment `now`.
    pub fn made(
        title: &str,
        description: Option<String>,
        user_id: Uuid,
        band_id: Option<Uuid>,
        id: Uuid,
        now: NaiveDateTime,
    ) -> (r: Self)
        ensures
            is_new_setlist(r, title@, opt_text(description), user_id, band_id, id, now),
    {
        Setlist {
            id,
            title: title.to_string(),
            description,
            user_id,
            band_id,
            share_token: None,
            total_duration: 0,
            is_favorite: false,
            share_locked_at: None,
            share_lock_reason: None,
            song_count: 0,
            owner_username: None,
            updated_by: None,
            updated_by_username: None,
            links: Links::default(),
            is_repertoire: false,
            is_pinned: false,
            created_at: now,
            updated_at: now,
        }
    }

    pub fn new(
        title: &str,
        description: Option<String>,
        user_id: Uuid,
        band_id: Option<Uuid>,
    ) -> (r: Self)
        ensures
            is_new_setlist(
                r,
                title@,
                opt_text(description),
                user_id,
                band_id,
                r.id,
                r.created_at,
            ),
    {
        Setlist::made(title, description, user_id, band_id, Uuid::new_v4(), NaiveDateTime::now())
    }
}

impl From<SetlistMarker> for PublicMarker {
    fn from(marker: SetlistMarker) -> (r: Self) {
        PublicMarker {
            marker_type: marker.marker_type,
            label: marker.label,
            duration_minutes: marker.duration_minutes,
            position: marker.position,
        }
    }
}

impl FromSpecImpl<SetlistMarker> for PublicMarker {
    open spec fn obeys_from_spec() -> bool {
        true
    }

    open spec fn from_spec(marker: SetlistMarker) -> Self {
        PublicMarker {
            marker_type: marker.marker_type,
            label: marker.label,
            duration_minutes: marker.duration_minutes,
            position: marker.position,
        }
    }
}

/// The read-only shape returned by the public (unauthenticated) setlist
/// endpoints. Only what a viewer needs to follow the running order: no
/// account, band or record identifiers, usernames, tags or timestamps.
#[derive(Debug, Clone)]
pub struct PublicSetlist {
    pub title: String,
    pub description: Option<String>,
    pub total_duration: i32,
    pub links: Links,
    pub songs: Vec<PublicSong>,
    /// Block headers and breaks in the setlist's running order. Merge these
    /// with `songs` by `position` to reconstruct the full timeline.
    pub markers: Vec<PublicMarker>,
}

} // verus!
