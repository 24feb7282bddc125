//! Band reminders: short notes shown on the band page (rehearsal times,
//! deadlines, "bring the spare cables").

use crate::ids::Uuid;
use crate::text::{chars, opt_text, trim, trimmed};
use crate::time::NaiveDateTime;
use crate::validation::{ErrorView, ValidationError, ValidationErrors, Wrong, judged, no_errors, noted, verdict};
use vstd::prelude::*;

verus! {

/// Most reminders a band may keep.
pub const MAX_BAND_NOTES: i64 = 100;

#[derive(Debug, Clone, Copy, PartialEq, Eq, Structural)]
pub enum BandNoteColor {
    Default,
    Yellow,
    Green,
    Blue,
    Red,
    Purple,
}

impl Default for BandNoteColor {
    fn default() -> (r: Self)
        ensures
            r == BandNoteColor::Default,
    {
        BandNoteColor::Default
    }
}

#[derive(Debug, Clone)]
pub struct BandNoteAuthor {
    pub id: Uuid,
    pub username: String,
    pub avatar_url: Option<String>,
}

#[derive(Debug, Clone)]
pub struct BandNote {
    pub id: Uuid,
    pub band_id: Uuid,
    /// `null` once the author's account is deleted.
    pub author: Option<BandNoteAuthor>,
    pub content: String,
    pub color: BandNoteColor,
    pub is_pinned: bool,
    pub due_at: Option<NaiveDateTime>,
    pub created_at: NaiveDateTime,
    pub updated_at: NaiveDateTime,
    pub updated_by_username: Option<String>,
    /// Whether the caller may edit or delete it (its author, or a band
    /// moderator or above).
    pub can_edit: bool,
}

#[derive(Debug, Clone)]
pub struct BandNoteRow {
    pub id: Uuid,
    pub band_id: Uuid,
    pub author_id: Option<Uuid>,
    pub author_username: Option<String>,
    pub author_avatar_url: Option<String>,
    pub content: String,
    pub color: BandNoteColor,
    pub is_pinned: bool,
    pub due_at: Option<NaiveDateTime>,
    pub created_at: NaiveDateTime,
    pub updated_at: NaiveDateTime,
    pub updated_by_username: Option<String>,
}

/// `n` is the note of the row, with its author where there is one.
pub open spec fn is_note_of(n: BandNote, row: BandNoteRow, can_edit: bool) -> bool {
    &&& n.id == row.id
    &&& n.band_id == row.band_id
    &&& match n.author {
        Some(a) => row.author_id == Some(a.id) && opt_text(row.author_username) == Some(
            a.username@,
        ) && opt_text(a.avatar_url) == opt_text(row.author_avatar_url),
        None => row.author_id is None || row.author_username is None,
    }
    &&& n.content@ == row.content@
    &&& n.color == row.color
    &&& n.is_pinned == row.is_pinned
    &&& n.due_at == row.due_at
    &&& n.created_at == row.created_at
    &&& n.updated_at == row.updated_at
    &&& opt_text(n.updated_by_username) == opt_text(row.updated_by_username)
    &&& n.can_edit == can_edit
}

impl BandNoteRow {
    pub fn into_note(self, can_edit: bool) -> (r: BandNote)
        ensures
            is_note_of(r, self, can_edit),
    {
        let author = match (self.author_id, self.author_username) {
            (Some(id), Some(username)) => Some(
                BandNoteAuthor { id, username, avatar_url: self.author_avatar_url },
            ),
            _ => None,
        };
        BandNote {
            id: self.id,
            band_id: self.band_id,
            author,
            content: self.content,
            color: self.color,
            is_pinned: self.is_pinned,
            due_at: self.due_at,
            created_at: self.created_at,
            updated_at: self.updated_at,
            updated_by_username: self.updated_by_username,
            can_edit,
        }
    }
}

/// What is wrong with the text of a reminder.
pub open spec fn content_error(content: Seq<char>) -> Option<ErrorView> {
    if 0 < trim(content).len() <= 2_000 {
        None
    } else {
        Some(
            ErrorView {
                code: "invalid_note_content"@,
                message: Some("A reminder must have between 1 and 2000 characters."@),
            },
        )
    }
}

pub fn validate_content(content: &str) -> (r: Result<(), ValidationError>)
    ensures
        verdict(r) == content_error(content@),
{
    let n = chars(trimmed(content).as_str()).len();
    if n == 0 || n > 2_000 {
        Err(
            ValidationError::with_message(
                "invalid_note_content",
                "A reminder must have between 1 and 2000 characters.",
            ),
        )
    } else {
        Ok(())
    }
}

#[derive(Debug, Clone)]
pub struct CreateBandNotePayload {
    pub content: String,
    pub color: Option<BandNoteColor>,
    /// Pinning requires the `moderator` band role or above.
    pub is_pinned: Option<bool>,
    pub due_at: Option<NaiveDateTime>,
}

impl CreateBandNotePayload {
    /// The rules that this payload breaks.
    pub open spec fn broken_rules(self) -> Wrong {
        let e = no_errors();
        noted(e, "content"@, content_error(self.content@))
    }

    /// Checks the payload against its rules.
    pub fn validate(&self) -> (r: Result<(), ValidationErrors>)
        ensures
            judged(r, self.broken_rules()),
    {
        let mut e = ValidationErrors::new();
        e.note("content", validate_content(self.content.as_str()));
        e.into_result()
    }
}

/// Absent = unchanged; `due_at: null` clears it.
#[derive(Debug, Clone, Default)]
pub struct UpdateBandNotePayload {
    pub content: Option<String>,
    pub color: Option<BandNoteColor>,
    pub is_pinned: Option<bool>,
    pub due_at: Option<Option<NaiveDateTime>>,
}

impl UpdateBandNotePayload {
    /// The rules that this payload breaks.
    pub open spec fn broken_rules(self) -> Wrong {
        let e = no_errors();
        noted(e, "content"@, match self.content { Some(x) => content_error(x@), None => None })
    }

    /// Checks the payload against its rules.
    pub fn validate(&self) -> (r: Result<(), ValidationErrors>)
        ensures
            judged(r, self.broken_rules()),
    {
        let mut e = ValidationErrors::new();
        e.note("content", match &self.content { Some(x) => validate_content(x.as_str()), None => Ok(()) });
        e.into_result()
    }
}

} // verus!
