//! Artists.

use crate::ids::Uuid;
use crate::text::{chars, opt_text};
use crate::time::NaiveDateTime;
use crate::validation::{ValidationErrors, Wrong, has_length, judged, length_within, no_errors, opt_has_length, opt_length_within, unless};
use vstd::prelude::*;

verus! {

#[derive(Debug, Clone)]
pub struct Artist {
    pub id: Uuid,
    pub name: String,
    pub user_id: Uuid,
    /// The band that owns this artist as an independent, shared copy, or
    /// `None` for a personal artist. See [`crate::models::song::Song::band_id`].
    pub band_id: Option<Uuid>,
    pub created_at: NaiveDateTime,
    pub updated_at: NaiveDateTime,
}

#[derive(Debug, Clone)]
pub struct CreateArtistPayload {
    pub name: String,
}

impl CreateArtistPayload {
    /// The rules that this payload breaks.
    pub open spec fn broken_rules(self) -> Wrong {
        let e = no_errors();
        unless(e, length_within(self.name@, 1, 255), "name"@, "length"@, Some("Artist name must be between 1 and 255 chars."@))
    }

    /// Checks the payload against its rules.
    pub fn validate(&self) -> (r: Result<(), ValidationErrors>)
        ensures
            judged(r, self.broken_rules()),
    {
        let mut e = ValidationErrors::new();
        e.check(has_length(self.name.as_str(), 1, 255), "name", "length", Some("Artist name must be between 1 and 255 chars."));
        e.into_result()
    }
}

#[derive(Debug, Clone)]
pub struct UpdateArtistPayload {
    pub name: Option<String>,
}

impl UpdateArtistPayload {
    /// The rules that this payload breaks.
    pub open spec fn broken_rules(self) -> Wrong {
        let e = no_errors();
        unless(e, opt_length_within(opt_text(self.name), 1, 255), "name"@, "length"@, Some("Artist name must be between 1 and 255 chars."@))
    }

    /// Checks the payload against its rules.
    pub fn validate(&self) -> (r: Result<(), ValidationErrors>)
        ensures
            judged(r, self.broken_rules()),
    {
        let mut e = ValidationErrors::new();
        e.check(opt_has_length(&self.name, 1, 255), "name", "length", Some("Artist name must be between 1 and 255 chars."));
        e.into_result()
    }
}

/// `a` is a fresh artist of this name and owner.
pub open spec fn is_artist(
    a: Artist,
    id: Uuid,
    name: Seq<char>,
    user_id: Uuid,
    band_id: Option<Uuid>,
    now: NaiveDateTime,
) -> bool {
    &&& a.id == id
    &&& a.name@ == name
    &&& a.user_id == user_id
    &&& a.band_id == band_id
    &&& a.created_at == now
    &&& a.updated_at == now
}

impl Artist {
    /// The artist with this identity, made at the moment `now`.
    pub fn made(
        id: Uuid,
        name: &str,
        user_id: Uuid,
        band_id: Option<Uuid>,
        now: NaiveDateTime,
    ) -> (r: Self)
        ensures
            is_artist(r, id, name@, user_id, band_id, now),
    {
        Artist {
            id,
            name: name.to_string(),
            user_id,
            band_id,
            created_at: now,
            updated_at: now,
        }
    }

    pub fn new(name: &str, user_id: Uuid) -> (r: Self)
        ensures
            is_artist(r, r.id, name@, user_id, None, r.created_at),
    {
        Artist::made(Uuid::new_v4(), name, user_id, None, NaiveDateTime::now())
    }

    /// Creates a band-owned artist, e.g. resolved while forking a song into
    /// a band (see [`crate::models::song::Song::fork_for_band`]).
    /// `creator_id` is kept for audit purposes only; it does not grant that
    /// user any special ownership over the result.
    pub fn new_for_band(name: &str, band_id: Uuid, creator_id: Uuid) -> (r: Self)
        ensures
            is_artist(r, r.id, name@, creator_id, Some(band_id), r.created_at),
    {
        Artist::made(Uuid::new_v4(), name, creator_id, Some(band_id), NaiveDateTime::now())
    }
}

} // verus!
