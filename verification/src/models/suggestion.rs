//! Song suggestions: a band member proposes a song for one of the band's
//! setlists (the repertoire by default), members vote, and someone allowed
//! to manage setlists accepts or rejects it — or it is accepted
//! automatically once it reaches the band's vote threshold.

use crate::models::link::Links;
use crate::models::tonality::Tonality;
use vstd::std_specs::convert::FromSpecImpl;
use crate::ids::Uuid;
use crate::text::opt_text;
use crate::time::NaiveDateTime;
use crate::validation::{ErrorView, ValidationError, ValidationErrors, Wrong, judged, no_errors, noted, opt_has_length, opt_length_within, unless, verdict};
use vstd::prelude::*;

verus! {

#[derive(Debug, Clone, Copy, PartialEq, Eq, Structural)]
pub enum SuggestionStatus {
    Open,
    Accepted,
    Rejected,
    Withdrawn,
}

/// The key of each [`SuggestionStatus`].
pub open spec fn suggestion_status_key(x: SuggestionStatus) -> Seq<char> {
    match x {
        SuggestionStatus::Open => "open"@,
        SuggestionStatus::Accepted => "accepted"@,
        SuggestionStatus::Rejected => "rejected"@,
        SuggestionStatus::Withdrawn => "withdrawn"@,
    }
}

/// No two of them share a key.
pub proof fn suggestion_status_keys_are_distinct(a: SuggestionStatus, b: SuggestionStatus)
    ensures
        suggestion_status_key(a) == suggestion_status_key(b) ==> a == b,
{
    reveal_strlit("open");
    reveal_strlit("accepted");
    reveal_strlit("rejected");
    reveal_strlit("withdrawn");
    assert("open"@.len() != "accepted"@.len());
    assert("open"@.len() != "rejected"@.len());
    assert("open"@.len() != "withdrawn"@.len());
    assert("accepted"@[0] != "rejected"@[0]);
    assert("accepted"@.len() != "withdrawn"@.len());
    assert("rejected"@.len() != "withdrawn"@.len());
}

impl SuggestionStatus {
    pub fn key(&self) -> (r: &'static str)
        ensures
            r@ == suggestion_status_key(*self),
    {
        match self {
            SuggestionStatus::Open => "open",
            SuggestionStatus::Accepted => "accepted",
            SuggestionStatus::Rejected => "rejected",
            SuggestionStatus::Withdrawn => "withdrawn",
        }
    }
}

#[derive(Debug, Clone)]
pub struct SuggestionSetlist {
    pub id: Uuid,
    pub title: String,
    pub is_repertoire: bool,
}

/// The suggested song as it is now (`null` on the suggestion once it was
/// deleted; `song_title`/`artist_name` keep the snapshot).
#[derive(Debug, Clone)]
pub struct SuggestionSong {
    pub id: Uuid,
    pub title: String,
    pub artist_name: String,
    pub tonality: Option<Tonality>,
    pub tempo: Option<i32>,
    pub energy: Option<i16>,
    pub duration: Option<i32>,
    pub links: Links,
}

#[derive(Debug, Clone)]
pub struct SuggestionUser {
    pub id: Uuid,
    pub username: String,
    pub avatar_url: Option<String>,
}

#[derive(Debug, Clone, Copy, Default)]
pub struct SuggestionVotes {
    pub up: i64,
    pub down: i64,
}

#[derive(Debug, Clone)]
pub struct Suggestion {
    pub id: Uuid,
    pub band_id: Uuid,
    pub setlist: SuggestionSetlist,
    pub song: Option<SuggestionSong>,
    pub song_title: String,
    pub artist_name: String,
    pub suggested_by: Option<SuggestionUser>,
    pub note: Option<String>,
    pub status: SuggestionStatus,
    pub votes: SuggestionVotes,
    /// The caller's vote: -1, 0 (none) or 1.
    pub my_vote: i16,
    pub resolved_by_username: Option<String>,
    pub resolved_at: Option<NaiveDateTime>,
    pub resolution_note: Option<String>,
    pub created_at: NaiveDateTime,
}

/// Flat row the repository reads; turned into a [`Suggestion`].
#[derive(Debug, Clone)]
pub struct SuggestionRow {
    pub id: Uuid,
    pub band_id: Uuid,
    pub setlist_id: Uuid,
    pub setlist_title: String,
    pub setlist_is_repertoire: bool,
    pub song_id: Option<Uuid>,
    pub live_song_id: Option<Uuid>,
    pub live_song_title: Option<String>,
    pub live_artist_name: Option<String>,
    pub live_tonality: Option<Tonality>,
    pub live_tempo: Option<i32>,
    pub live_energy: Option<i16>,
    pub live_duration: Option<i32>,
    pub live_links: Option<Links>,
    pub live_song_band_id: Option<Uuid>,
    pub song_title: String,
    pub artist_name: String,
    pub suggested_by: Option<Uuid>,
    pub suggested_by_username: Option<String>,
    pub suggested_by_avatar_url: Option<String>,
    pub note: Option<String>,
    pub status: SuggestionStatus,
    pub votes_up: i64,
    pub votes_down: i64,
    pub my_vote: i16,
    pub resolved_by_username: Option<String>,
    pub resolved_at: Option<NaiveDateTime>,
    pub resolution_note: Option<String>,
    pub created_at: NaiveDateTime,
}

/// `song` is the live song of the row.
pub open spec fn is_live_song(song: Option<SuggestionSong>, row: SuggestionRow) -> bool {
    match (row.live_song_id, row.live_song_title) {
        (Some(id), Some(title)) => {
            &&& song matches Some(s)
            &&& s.id == id
            &&& s.title@ == title@
            &&& s.artist_name@ == match row.live_artist_name {
                Some(name) => name@,
                None => seq![],
            }
            &&& s.tonality == row.live_tonality
            &&& s.tempo == row.live_tempo
            &&& s.energy == row.live_energy
            &&& s.duration == row.live_duration
            &&& s.links@ == match row.live_links {
                Some(links) => links@,
                None => seq![],
            }
        },
        _ => song is None,
    }
}

impl From<SuggestionRow> for Suggestion {
    fn from(row: SuggestionRow) -> (r: Self)
        ensures
            is_live_song(r.song, row),
            match (row.suggested_by, row.suggested_by_username) {
                (Some(id), Some(username)) => r.suggested_by matches Some(u) && u.id == id
                    && u.username@ == username@ && opt_text(u.avatar_url) == opt_text(
                    row.suggested_by_avatar_url,
                ),
                _ => r.suggested_by is None,
            },
            r.setlist.id == row.setlist_id,
            r.setlist.title@ == row.setlist_title@,
            r.setlist.is_repertoire == row.setlist_is_repertoire,
            r.votes.up == row.votes_up,
            r.votes.down == row.votes_down,
            r.id == row.id,
            r.band_id == row.band_id,
            r.song_title@ == row.song_title@,
            r.artist_name@ == row.artist_name@,
            opt_text(r.note) == opt_text(row.note),
            r.status == row.status,
            r.my_vote == row.my_vote,
            opt_text(r.resolved_by_username) == opt_text(row.resolved_by_username),
            r.resolved_at == row.resolved_at,
            opt_text(r.resolution_note) == opt_text(row.resolution_note),
            r.created_at == row.created_at,
    {
        let song = match (row.live_song_id, row.live_song_title) {
            (Some(id), Some(title)) => Some(
                SuggestionSong {
                    id,
                    title,
                    artist_name: match row.live_artist_name {
                        Some(name) => name,
                        None => String::new(),
                    },
                    tonality: row.live_tonality,
                    tempo: row.live_tempo,
                    energy: row.live_energy,
                    duration: row.live_duration,
                    links: match row.live_links {
                        Some(links) => links,
                        None => Links::default(),
                    },
                },
            ),
            _ => None,
        };
        let suggested_by = match (row.suggested_by, row.suggested_by_username) {
            (Some(id), Some(username)) => Some(
                SuggestionUser { id, username, avatar_url: row.suggested_by_avatar_url },
            ),
            _ => None,
        };
        Suggestion {
            setlist: SuggestionSetlist {
                id: row.setlist_id,
                title: row.setlist_title,
                is_repertoire: row.setlist_is_repertoire,
            },
            song,
            suggested_by,
            votes: SuggestionVotes { up: row.votes_up, down: row.votes_down },
            id: row.id,
            band_id: row.band_id,
            song_title: row.song_title,
            artist_name: row.artist_name,
            note: row.note,
            status: row.status,
            my_vote: row.my_vote,
            resolved_by_username: row.resolved_by_username,
            resolved_at: row.resolved_at,
            resolution_note: row.resolution_note,
            created_at: row.created_at,
        }
    }
}

impl FromSpecImpl<SuggestionRow> for Suggestion {
    /// Texts are told apart by more than what they say, so the result is
    /// stated by the clauses of `from` alone.
    open spec fn obeys_from_spec() -> bool {
        false
    }

    open spec fn from_spec(row: SuggestionRow) -> Self {
        arbitrary()
    }
}

/// What is wrong with a vote.
pub open spec fn vote_error(value: int) -> Option<ErrorView> {
    if value == 1 || value == -1 {
        None
    } else {
        Some(ErrorView { code: "invalid_vote"@, message: Some("A vote is 1 or -1."@) })
    }
}

pub fn validate_vote(value: i16) -> (r: Result<(), ValidationError>)
    ensures
        verdict(r) == vote_error(value as int),
{
    if value == 1 || value == -1 {
        Ok(())
    } else {
        Err(ValidationError::with_message("invalid_vote", "A vote is 1 or -1."))
    }
}

#[derive(Debug, Clone)]
pub struct CreateSuggestionPayload {
    /// One of the caller's personal songs, or a song the band already owns.
    pub song_id: Uuid,
    /// A setlist of the band (default: its repertoire).
    pub setlist_id: Option<Uuid>,
    pub note: Option<String>,
}

impl CreateSuggestionPayload {
    /// The rules that this payload breaks.
    pub open spec fn broken_rules(self) -> Wrong {
        let e = no_errors();
        unless(e, opt_length_within(opt_text(self.note), 0, 500), "note"@, "length"@, Some("The note must be at most 500 characters."@))
    }

    /// Checks the payload against its rules.
    pub fn validate(&self) -> (r: Result<(), ValidationErrors>)
        ensures
            judged(r, self.broken_rules()),
    {
        let mut e = ValidationErrors::new();
        e.check(opt_has_length(&self.note, 0, 500), "note", "length", Some("The note must be at most 500 characters."));
        e.into_result()
    }
}

#[derive(Debug, Clone)]
pub struct VotePayload {
    /// `1` (for) or `-1` (against).
    pub value: i16,
}

impl VotePayload {
    /// The rules that this payload breaks.
    pub open spec fn broken_rules(self) -> Wrong {
        let e = no_errors();
        noted(e, "value"@, vote_error(self.value as int))
    }

    /// Checks the payload against its rules.
    pub fn validate(&self) -> (r: Result<(), ValidationErrors>)
        ensures
            judged(r, self.broken_rules()),
    {
        let mut e = ValidationErrors::new();
        e.note("value", validate_vote(self.value));
        e.into_result()
    }
}

#[derive(Debug, Clone, Default)]
pub struct ResolveSuggestionPayload {
    pub note: Option<String>,
}

impl ResolveSuggestionPayload {
    /// The rules that this payload breaks.
    pub open spec fn broken_rules(self) -> Wrong {
        let e = no_errors();
        unless(e, opt_length_within(opt_text(self.note), 0, 500), "note"@, "length"@, Some("The note must be at most 500 characters."@))
    }

    /// Checks the payload against its rules.
    pub fn validate(&self) -> (r: Result<(), ValidationErrors>)
        ensures
            judged(r, self.broken_rules()),
    {
        let mut e = ValidationErrors::new();
        e.check(opt_has_length(&self.note, 0, 500), "note", "length", Some("The note must be at most 500 characters."));
        e.into_result()
    }
}

/// Which suggestions to list.
#[derive(Debug, Clone, Copy, PartialEq, Eq, Structural)]
pub enum SuggestionFilter {
    Open,
    Accepted,
    Rejected,
    Withdrawn,
    All,
}

impl Default for SuggestionFilter {
    fn default() -> (r: Self)
        ensures
            r == SuggestionFilter::Open,
    {
        SuggestionFilter::Open
    }
}

/// The status that a filter asks for; none for every suggestion.
pub open spec fn filter_status(filter: SuggestionFilter) -> Option<SuggestionStatus> {
    match filter {
        SuggestionFilter::Open => Some(SuggestionStatus::Open),
        SuggestionFilter::Accepted => Some(SuggestionStatus::Accepted),
        SuggestionFilter::Rejected => Some(SuggestionStatus::Rejected),
        SuggestionFilter::Withdrawn => Some(SuggestionStatus::Withdrawn),
        SuggestionFilter::All => None,
    }
}

impl SuggestionFilter {
    pub fn status(&self) -> (r: Option<SuggestionStatus>)
        ensures
            r == filter_status(*self),
    {
        match self {
            SuggestionFilter::Open => Some(SuggestionStatus::Open),
            SuggestionFilter::Accepted => Some(SuggestionStatus::Accepted),
            SuggestionFilter::Rejected => Some(SuggestionStatus::Rejected),
            SuggestionFilter::Withdrawn => Some(SuggestionStatus::Withdrawn),
            SuggestionFilter::All => None,
        }
    }
}

#[derive(Debug, Clone)]
pub struct SuggestionListQuery {
    pub status: Option<SuggestionFilter>,
    pub page: Option<i64>,
    pub per_page: Option<i64>,
}

/// The votes are enough under `threshold`, and more are for than against.
pub open spec fn auto_accepted(threshold: Option<i32>, up: int, down: int) -> bool {
    threshold matches Some(t) && t > 0 && up >= t && up > down
}

/// Whether a suggestion with these votes is accepted automatically under
/// the band's `threshold` (`None` = never): enough up-votes, and more up
/// than down.
pub fn reaches_auto_accept(threshold: Option<i32>, up: i64, down: i64) -> (r: bool)
    ensures
        r == auto_accepted(threshold, up as int, down as int),
{
    match threshold {
        Some(threshold) => threshold > 0 && up >= threshold as i64 && up > down,
        None => false,
    }
}

/// One more vote for a suggestion never undoes its acceptance, and one more
/// against never causes it.
pub proof fn votes_count_in_their_direction(threshold: Option<i32>, up: int, down: int)
    ensures
        auto_accepted(threshold, up, down) ==> auto_accepted(threshold, up + 1, down),
        auto_accepted(threshold, up, down + 1) ==> auto_accepted(threshold, up, down),
{
}

} // verus!
