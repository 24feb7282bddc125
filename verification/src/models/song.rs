//! Songs.

use crate::models::link::Links;
use crate::models::tonality::{Genre, Tonality};
use crate::ids::Uuid;
use crate::text::{chars, copies_of, copy_of, opt_text, same, texts};
use crate::time::NaiveDateTime;
use crate::validation::{ErrorView, ValidationError, ValidationErrors, Wrong, has_length, judged, length_within, no_errors, noted, opt_has_length, opt_length_within, unless, verdict};
use vstd::prelude::*;

verus! {

/// The time signatures a song may have.
pub const TIME_SIGNATURES: [&'static str; 10] = [
    "2/2",
    "2/4",
    "3/4",
    "4/4",
    "5/4",
    "6/4",
    "6/8",
    "7/8",
    "9/8",
    "12/8",
];

/// `s` is one of the time signatures.
pub open spec fn is_time_signature(s: Seq<char>) -> bool {
    exists|i: int| 0 <= i < 10 && #[trigger] TIME_SIGNATURES@[i]@ == s
}

/// Whether a song may have this time signature.
pub fn time_signature_known(s: &str) -> (r: bool)
    ensures
        r == is_time_signature(s@),
{
    let mut i: usize = 0;
    while i < 10
        invariant
            i <= 10,
            forall|j: int| 0 <= j < i ==> #[trigger] TIME_SIGNATURES@[j]@ != s@,
        decreases 10 - i,
    {
        if same(TIME_SIGNATURES[i], s) {
            assert(TIME_SIGNATURES@[i as int]@ == s@);
            return true;
        }
        i = i + 1;
    }
    false
}

#[derive(Debug, Clone)]
pub struct Song {
    pub id: Uuid,
    pub title: String,
    pub artist_id: Uuid,
    pub user_id: Uuid,
    /// The band that owns this song as an independent, shared copy, or
    /// `None` for a personal song. Set only via [`Song::fork_for_band`],
    /// when a member contributes one of their own songs to a band setlist —
    /// this decouples the band's setlist from that member's personal
    /// catalog, so deleting (or editing) their own copy later never affects
    /// the band's.
    pub band_id: Option<Uuid>,
    /// The personal song this band-owned copy was forked from, or `None`
    /// for a personal song (or a fork whose source was later deleted — the
    /// link is cleared, not the copy).
    pub forked_from: Option<Uuid>,
    pub tempo: Option<i32>,
    pub lyrics: Option<String>,
    pub tonality: Option<Tonality>,
    pub genre: Option<Genre>,
    pub duration: Option<i32>,
    /// Normalized (lowercase) tags, alphabetically sorted.
    pub tags: Vec<String>,
    /// Who last changed the song (`None` if never edited since creation,
    /// or if that account was deleted).
    pub updated_by: Option<Uuid>,
    pub updated_by_username: Option<String>,
    /// Whether the *caller* pinned this song to their home screen.
    pub is_pinned: bool,
    pub created_at: NaiveDateTime,
    pub updated_at: NaiveDateTime,
}

/// Longest song duration accepted, in seconds (2 hours).
pub const MAX_SONG_DURATION_SECS: i32 = 7_200;

#[derive(Debug, Clone)]
pub struct CreateSongPayload {
    pub title: String,
    pub artist_id: Uuid,
    pub tempo: Option<i32>,
    pub lyrics: Option<String>,
    pub tonality: Option<Tonality>,
    pub genre: Option<Genre>,
    pub duration: Option<i32>,
    /// Free-form tags; normalized server-side (see `validations::tag`).
    pub tags: Option<Vec<String>>,
}

impl CreateSongPayload {
    /// The rules that this payload breaks.
    pub open spec fn broken_rules(self, lyrics: Option<ErrorView>) -> Wrong {
        let e = no_errors();
        let e = unless(e, length_within(self.title@, 1, 255), "title"@, "length"@, Some("Title must be between 1 and 255 chars."@));
        let e = unless(e, (self.tempo matches Some(x) ==> 1 <= x <= 500), "tempo"@, "range"@, Some("Tempo must be a valid BPM."@));
        let e = noted(e, "lyrics"@, lyrics);
        unless(e, (self.duration matches Some(x) ==> 1 <= x <= 7200), "duration"@, "range"@, Some("Duration must be between 1 second and 2 hours."@))
    }

    /// Checks the payload against its rules.
    /// `lyrics` is what the text rules say of that field.
    pub fn validate(&self, lyrics: Result<(), ValidationError>) -> (r: Result<(), ValidationErrors>)
        ensures
            judged(r, self.broken_rules(verdict(lyrics))),
    {
        let mut e = ValidationErrors::new();
        e.check(has_length(self.title.as_str(), 1, 255), "title", "length", Some("Title must be between 1 and 255 chars."));
        e.check(match self.tempo { Some(x) => 1 <= x && x <= 500, None => true }, "tempo", "range", Some("Tempo must be a valid BPM."));
        e.note("lyrics", lyrics);
        e.check(match self.duration { Some(x) => 1 <= x && x <= 7200, None => true }, "duration", "range", Some("Duration must be between 1 second and 2 hours."));
        e.into_result()
    }
}

/// Every nullable field uses `Option<Option<T>>`: absent leaves it
/// unchanged, `null` clears it (see [`crate::models::patch`]).
#[derive(Debug, Clone, Default)]
pub struct UpdateSongPayload {
    pub title: Option<String>,
    pub artist_id: Option<Uuid>,
    pub tempo: Option<Option<i32>>,
    pub lyrics: Option<Option<String>>,
    pub tonality: Option<Option<Tonality>>,
    pub genre: Option<Option<Genre>>,
    pub duration: Option<Option<i32>>,
    /// Replaces the song's whole tag set when present.
    pub tags: Option<Vec<String>>,
}

impl UpdateSongPayload {
    /// The rules that this payload breaks.
    pub open spec fn broken_rules(self, lyrics: Option<ErrorView>) -> Wrong {
        let e = no_errors();
        let e = unless(e, opt_length_within(opt_text(self.title), 1, 255), "title"@, "length"@, Some("Title must be between 1 and 255 chars."@));
        let e = unless(e, (self.tempo matches Some(Some(x)) ==> 1 <= x <= 500), "tempo"@, "range"@, Some("Tempo must be a valid BPM."@));
        let e = noted(e, "lyrics"@, lyrics);
        unless(e, (self.duration matches Some(Some(x)) ==> 1 <= x <= 7200), "duration"@, "range"@, Some("Duration must be between 1 second and 2 hours."@))
    }

    /// Checks the payload against its rules.
    /// `lyrics` is what the text rules say of that field.
    pub fn validate(&self, lyrics: Result<(), ValidationError>) -> (r: Result<(), ValidationErrors>)
        ensures
            judged(r, self.broken_rules(verdict(lyrics))),
    {
        let mut e = ValidationErrors::new();
        e.check(opt_has_length(&self.title, 1, 255), "title", "length", Some("Title must be between 1 and 255 chars."));
        e.check(match self.tempo { Some(Some(x)) => 1 <= x && x <= 500, _ => true }, "tempo", "range", Some("Tempo must be a valid BPM."));
        e.note("lyrics", lyrics);
        e.check(match self.duration { Some(Some(x)) => 1 <= x && x <= 7200, _ => true }, "duration", "range", Some("Duration must be between 1 second and 2 hours."));
        e.into_result()
    }
}

#[derive(Debug, Clone)]
pub struct SongExport {
    pub title: String,
    pub artist_name: Option<String>,
    pub tonality: Option<String>,
    pub tempo: Option<i32>,
    pub lyrics: Option<String>,
    pub time_signature: Option<String>,
    pub capo: Option<i16>,
    pub duration: Option<i32>,
    pub energy: Option<i16>,
}

/// A [`Song`] with its artist's name resolved via a join, so callers don't
/// need a separate (and possibly ownership-scoped) artist lookup to display
/// it — e.g. a band setlist can contain songs owned by different members,
/// none of whom can see each other's `/artists` list.
#[derive(Debug, Clone)]
pub struct SongWithArtist {
    pub id: Uuid,
    pub title: String,
    pub artist_id: Uuid,
    pub artist_name: String,
    pub user_id: Uuid,
    pub band_id: Option<Uuid>,
    pub forked_from: Option<Uuid>,
    pub tempo: Option<i32>,
    pub lyrics: Option<String>,
    pub tonality: Option<Tonality>,
    pub genre: Option<Genre>,
    pub duration: Option<i32>,
    /// From 1 (calm) to 5 (intense).
    pub energy: Option<i16>,
    pub time_signature: Option<String>,
    pub capo: Option<i16>,
    pub tuning: Option<String>,
    pub performance_notes: Option<String>,
    pub links: Links,
    pub tags: Vec<String>,
    pub updated_by: Option<Uuid>,
    pub updated_by_username: Option<String>,
    pub source_synced_at: Option<NaiveDateTime>,
    pub created_at: NaiveDateTime,
    pub updated_at: NaiveDateTime,
}

/// One tag in the caller's vocabulary, with how many songs use it.
#[derive(Debug, Clone)]
pub struct TagCount {
    pub tag: String,
    pub song_count: i64,
}

#[derive(Debug, Clone)]
pub struct RenameTagPayload {
    pub new_name: String,
}

impl RenameTagPayload {
    /// The rules that this payload breaks.
    pub open spec fn broken_rules(self) -> Wrong {
        let e = no_errors();
        unless(e, length_within(self.new_name@, 1, 30), "new_name"@, "length"@, Some("Tags must be between 1 and 30 chars."@))
    }

    /// Checks the payload against its rules.
    pub fn validate(&self) -> (r: Result<(), ValidationErrors>)
        ensures
            judged(r, self.broken_rules()),
    {
        let mut e = ValidationErrors::new();
        e.check(has_length(self.new_name.as_str(), 1, 30), "new_name", "length", Some("Tags must be between 1 and 30 chars."));
        e.into_result()
    }
}

/// Filters for `GET /songs`.
#[derive(Debug, Clone)]
pub struct SongListQuery {
    pub page: Option<i64>,
    pub per_page: Option<i64>,
    /// Case-insensitive search over title and artist name.
    pub q: Option<String>,
    /// Only songs carrying *all* of these tags (comma-separated).
    pub tags: Option<String>,
}

/// A song as the public share endpoints show it: what a viewer needs to follow
/// the running order.
#[derive(Debug, Clone)]
pub struct PublicSong {
    pub title: String,
    pub artist_name: String,
    pub tempo: Option<i32>,
    pub tonality: Option<Tonality>,
    pub genre: Option<Genre>,
    pub duration: Option<i32>,
    pub position: i32,
}

/// `s` is a song that nobody has edited yet, made at the moment `now`.
pub open spec fn is_fresh(s: Song, id: Uuid, now: NaiveDateTime) -> bool {
    &&& s.id == id
    &&& s.updated_by is None
    &&& s.updated_by_username is None
    &&& !s.is_pinned
    &&& s.created_at == now
    &&& s.updated_at == now
}

/// `s` is the personal song that `payload` describes.
pub open spec fn is_personal(s: Song, payload: CreateSongPayload, user_id: Uuid) -> bool {
    &&& s.title@ == payload.title@
    &&& s.artist_id == payload.artist_id
    &&& s.user_id == user_id
    &&& s.band_id is None
    &&& s.forked_from is None
    &&& s.tempo == payload.tempo
    &&& opt_text(s.lyrics) == opt_text(payload.lyrics)
    &&& s.tonality == payload.tonality
    &&& s.genre == payload.genre
    &&& s.duration == payload.duration
    &&& s.tags@.len() == 0
}

/// `s` is a copy of `source` that the band owns.
pub open spec fn is_fork(
    s: Song,
    source: SongWithArtist,
    band_id: Uuid,
    artist_id: Uuid,
    creator_id: Uuid,
) -> bool {
    &&& s.title@ == source.title@
    &&& s.artist_id == artist_id
    &&& s.user_id == creator_id
    &&& s.band_id == Some(band_id)
    &&& s.forked_from == Some(source.id)
    &&& s.tempo == source.tempo
    &&& opt_text(s.lyrics) == opt_text(source.lyrics)
    &&& s.tonality == source.tonality
    &&& s.genre == source.genre
    &&& s.duration == source.duration
    &&& texts(s.tags@) == texts(source.tags@)
}

impl Song {
    /// The song that `payload` describes, with this identity, made at the
    /// moment `now`.
    pub fn made(payload: &CreateSongPayload, user_id: Uuid, id: Uuid, now: NaiveDateTime) -> (r:
        Self)
        ensures
            is_fresh(r, id, now),
            is_personal(r, *payload, user_id),
    {
        Song {
            id,
            title: payload.title.clone(),
            artist_id: payload.artist_id,
            user_id,
            band_id: None,
            forked_from: None,
            tempo: payload.tempo,
            lyrics: copy_of(&payload.lyrics),
            tonality: payload.tonality,
            genre: payload.genre,
            duration: payload.duration,
            tags: Vec::new(),
            updated_by: None,
            updated_by_username: None,
            is_pinned: false,
            created_at: now,
            updated_at: now,
        }
    }

    pub fn new(payload: &CreateSongPayload, user_id: Uuid) -> (r: Self)
        ensures
            is_fresh(r, r.id, r.created_at),
            is_personal(r, *payload, user_id),
    {
        Song::made(payload, user_id, Uuid::new_v4(), NaiveDateTime::now())
    }

    /// The band's copy of `source`, with this identity, made at the moment
    /// `now`.
    pub fn forked(
        source: &SongWithArtist,
        band_id: Uuid,
        artist_id: Uuid,
        creator_id: Uuid,
        id: Uuid,
        now: NaiveDateTime,
    ) -> (r: Self)
        ensures
            is_fresh(r, id, now),
            is_fork(r, *source, band_id, artist_id, creator_id),
    {
        Song {
            id,
            title: source.title.clone(),
            artist_id,
            user_id: creator_id,
            band_id: Some(band_id),
            forked_from: Some(source.id),
            tempo: source.tempo,
            lyrics: copy_of(&source.lyrics),
            tonality: source.tonality,
            genre: source.genre,
            duration: source.duration,
            tags: copies_of(&source.tags),
            updated_by: None,
            updated_by_username: None,
            is_pinned: false,
            created_at: now,
            updated_at: now,
        }
    }

    /// Creates an independent, band-owned copy of `source`, pointing at
    /// `artist_id` (a band-owned artist resolved separately). `creator_id`
    /// is kept for audit purposes only, mirroring
    /// [`super::artist::Artist::new_for_band`].
    pub fn fork_for_band(
        source: &SongWithArtist,
        band_id: Uuid,
        artist_id: Uuid,
        creator_id: Uuid,
    ) -> (r: Self)
        ensures
            is_fresh(r, r.id, r.created_at),
            is_fork(r, *source, band_id, artist_id, creator_id),
    {
        Song::forked(
            source,
            band_id,
            artist_id,
            creator_id,
            Uuid::new_v4(),
            NaiveDateTime::now(),
        )
    }
}

} // verus!
