//! Gigs.

use crate::models::setlist::PublicSetlist;
use crate::ids::Uuid;
use crate::text::{chars, opt_text};
use crate::time::NaiveDateTime;
use crate::validation::{ErrorView, ValidationError, ValidationErrors, Wrong, has_length, judged, length_within, no_errors, noted, opt_has_length, opt_length_within, unless, verdict};
use vstd::prelude::*;

verus! {

/// Where a gig currently stands.
#[derive(Debug, Clone, Copy, PartialEq, Eq, Structural)]
pub enum GigStatus {
    Confirmed,
    Cancelled,
    Completed,
}

impl Default for GigStatus {
    fn default() -> (r: Self)
        ensures
            r == GigStatus::Confirmed,
    {
        GigStatus::Confirmed
    }
}

#[derive(Debug, Clone)]
pub struct Gig {
    pub id: Uuid,
    pub user_id: Uuid,
    /// The band this gig belongs to, or `None` for a personal/solo gig.
    pub band_id: Option<Uuid>,
    /// The setlist to be played, or `None` if it hasn't been chosen yet.
    pub setlist_id: Option<Uuid>,
    pub venue: String,
    /// Free-text location (address, city, or a maps link) — independent
    /// of `venue`, which is just the venue's name.
    pub location: Option<String>,
    pub scheduled_at: NaiveDateTime,
    pub status: GigStatus,
    pub notes: Option<String>,
    /// A long, random, unguessable token that resolves this gig through the
    /// public (unauthenticated) `/public/gigs/{token}` endpoints, or `None`
    /// if public sharing isn't enabled. Same convention as
    /// [`crate::models::setlist::Setlist::share_token`].
    pub share_token: Option<String>,
    pub share_locked_at: Option<NaiveDateTime>,
    pub share_lock_reason: Option<String>,
    pub updated_by: Option<Uuid>,
    pub updated_by_username: Option<String>,
    /// Whether the *caller* pinned this gig to their home screen.
    pub is_pinned: bool,
    pub created_at: NaiveDateTime,
    pub updated_at: NaiveDateTime,
}

#[derive(Debug, Clone)]
pub struct CreateGigPayload {
    pub venue: String,
    pub location: Option<String>,
    pub scheduled_at: NaiveDateTime,
    /// Optionally attach the gig to a band instead of keeping it personal.
    /// The caller must be a member of the band with permission to manage
    /// its gigs.
    pub band_id: Option<Uuid>,
    /// The setlist to play, if already decided. Must belong to the same
    /// scope as the gig itself (same band, or the caller's own personal
    /// setlist).
    pub setlist_id: Option<Uuid>,
    pub status: Option<GigStatus>,
    pub notes: Option<String>,
}

impl CreateGigPayload {
    /// The rules that this payload breaks.
    pub open spec fn broken_rules(self, notes: Option<ErrorView>) -> Wrong {
        let e = no_errors();
        let e = unless(e, length_within(self.venue@, 1, 255), "venue"@, "length"@, Some("Venue must be between 1 and 255 chars."@));
        let e = unless(e, opt_length_within(opt_text(self.location), 0, 500), "location"@, "length"@, Some("Location must be at most 500 chars."@));
        noted(e, "notes"@, notes)
    }

    /// Checks the payload against its rules.
    /// `notes` is what the text rules say of that field.
    pub fn validate(&self, notes: Result<(), ValidationError>) -> (r: Result<(), ValidationErrors>)
        ensures
            judged(r, self.broken_rules(verdict(notes))),
    {
        let mut e = ValidationErrors::new();
        e.check(has_length(self.venue.as_str(), 1, 255), "venue", "length", Some("Venue must be between 1 and 255 chars."));
        e.check(opt_has_length(&self.location, 0, 500), "location", "length", Some("Location must be at most 500 chars."));
        e.note("notes", notes);
        e.into_result()
    }
}

/// Nullable fields use `Option<Option<T>>`: absent = unchanged, `null` =
/// clear (see [`crate::models::patch`]).
#[derive(Debug, Clone, Default)]
pub struct UpdateGigPayload {
    pub venue: Option<String>,
    pub location: Option<Option<String>>,
    pub scheduled_at: Option<NaiveDateTime>,
    pub setlist_id: Option<Option<Uuid>>,
    pub status: Option<GigStatus>,
    pub notes: Option<Option<String>>,
}

impl UpdateGigPayload {
    /// The rules that this payload breaks.
    pub open spec fn broken_rules(self, notes: Option<ErrorView>) -> Wrong {
        let e = no_errors();
        let e = unless(e, opt_length_within(opt_text(self.venue), 1, 255), "venue"@, "length"@, Some("Venue must be between 1 and 255 chars."@));
        let e = unless(e, (self.location matches Some(x) ==> opt_length_within(opt_text(x), 0, 500)), "location"@, "length"@, Some("Location must be at most 500 chars."@));
        noted(e, "notes"@, notes)
    }

    /// Checks the payload against its rules.
    /// `notes` is what the text rules say of that field.
    pub fn validate(&self, notes: Result<(), ValidationError>) -> (r: Result<(), ValidationErrors>)
        ensures
            judged(r, self.broken_rules(verdict(notes))),
    {
        let mut e = ValidationErrors::new();
        e.check(opt_has_length(&self.venue, 1, 255), "venue", "length", Some("Venue must be between 1 and 255 chars."));
        e.check(match &self.location { Some(x) => opt_has_length(x, 0, 500), None => true }, "location", "length", Some("Location must be at most 500 chars."));
        e.note("notes", notes);
        e.into_result()
    }
}

/// `g` is the gig that `payload` describes, made at the moment `now`.
pub open spec fn is_new_gig(
    g: Gig,
    payload: CreateGigPayload,
    user_id: Uuid,
    id: Uuid,
    now: NaiveDateTime,
) -> bool {
    &&& g.id == id
    &&& g.user_id == user_id
    &&& g.band_id == payload.band_id
    &&& g.setlist_id == payload.setlist_id
    &&& g.venue@ == payload.venue@
    &&& opt_text(g.location) == opt_text(payload.location)
    &&& g.scheduled_at == payload.scheduled_at
    &&& g.status == match payload.status {
        Some(s) => s,
        None => GigStatus::Confirmed,
    }
    &&& opt_text(g.notes) == opt_text(payload.notes)
    &&& g.share_token is None
    &&& g.share_locked_at is None
    &&& g.share_lock_reason is None
    &&& g.updated_by is None
    &&& g.updated_by_username is None
    &&& !g.is_pinned
    &&& g.created_at == now
    &&& g.updated_at == now
}

impl Gig {
    /// The gig that `payload` describes, with this identity, made at the
    /// moment `now`.
    pub fn made(payload: CreateGigPayload, user_id: Uuid, id: Uuid, now: NaiveDateTime) -> (r: Self)
        ensures
            is_new_gig(r, payload, user_id, id, now),
    {
        Gig {
            id,
            user_id,
            band_id: payload.band_id,
            setlist_id: payload.setlist_id,
            venue: payload.venue,
            location: payload.location,
            scheduled_at: payload.scheduled_at,
            status: match payload.status {
                Some(s) => s,
                None => GigStatus::default(),
            },
            notes: payload.notes,
            share_token: None,
            share_locked_at: None,
            share_lock_reason: None,
            updated_by: None,
            updated_by_username: None,
            is_pinned: false,
            created_at: now,
            updated_at: now,
        }
    }

    /// Builds a new gig from the caller's `CreateGigPayload` plus the
    /// `user_id` it doesn't carry itself. Takes the payload by value
    /// (rather than one argument per field) to keep the constructor's
    /// arity fixed as fields are added.
    pub fn new(payload: CreateGigPayload, user_id: Uuid) -> (r: Self)
        ensures
            is_new_gig(r, payload, user_id, r.id, r.created_at),
    {
        Gig::made(payload, user_id, Uuid::new_v4(), NaiveDateTime::now())
    }
}

/// The read-only shape returned by the public (unauthenticated) gig
/// endpoints. Deliberately excludes internal fields — `id`, `user_id`,
/// `band_id`, `share_token` — that an anonymous viewer has no use for.
#[derive(Debug, Clone)]
pub struct PublicGig {
    pub venue: String,
    pub location: Option<String>,
    pub scheduled_at: NaiveDateTime,
    pub status: GigStatus,
    pub setlist: Option<PublicSetlist>,
}

} // verus!
