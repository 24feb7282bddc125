//! Tours: a named run of gigs between two dates, personal or of a band.

use crate::models::gig::GigStatus;
use crate::validation::added;
use crate::ids::Uuid;
use crate::text::{char_is_control, chars, is_control, trim, trimmed};
use crate::time::{NaiveDate, NaiveDateTime};
use crate::validation::{ErrorView, ValidationError, ValidationErrors, Wrong, judged, no_errors, noted, verdict};
use vstd::prelude::*;

verus! {

pub const MAX_TOUR_NAME_LENGTH: usize = 120;

#[derive(Debug, Clone)]
pub struct Tour {
    pub id: Uuid,
    /// Creator (the band's owner after the creator's account is deleted).
    pub user_id: Uuid,
    /// `None` for a personal tour.
    pub band_id: Option<Uuid>,
    pub band_name: Option<String>,
    pub name: String,
    pub description: Option<String>,
    pub start_date: NaiveDate,
    pub end_date: NaiveDate,
    /// Live gigs of the tour.
    pub gig_count: i64,
    /// The first confirmed gig from now on, if any.
    pub next_gig_at: Option<NaiveDateTime>,
    pub created_at: NaiveDateTime,
    pub updated_at: NaiveDateTime,
    pub updated_by_username: Option<String>,
    pub owner_username: Option<String>,
    /// Whether the *caller* pinned this tour to their home screen.
    pub is_pinned: bool,
}

/// The setlist of a gig inside a tour.
#[derive(Debug, Clone)]
pub struct TourGigSetlist {
    pub id: Uuid,
    pub title: String,
    /// `true` for a band's repertoire (show a translated name instead of
    /// the stored `title`).
    pub is_repertoire: bool,
    pub song_count: i64,
    /// Seconds (songs + breaks).
    pub total_duration: i32,
}

/// A gig as listed in a tour's timeline.
#[derive(Debug, Clone)]
pub struct GigSummary {
    pub id: Uuid,
    pub venue: String,
    pub location: Option<String>,
    pub scheduled_at: NaiveDateTime,
    pub status: GigStatus,
    pub setlist: Option<TourGigSetlist>,
}

#[derive(Debug, Clone, Default)]
pub struct TourStats {
    pub total_gigs: i64,
    pub confirmed: i64,
    pub completed: i64,
    pub cancelled: i64,
    /// Sum of the gigs' setlist durations, in seconds (a setlist played
    /// at several gigs counts once per gig).
    pub total_setlist_duration: i64,
}

/// `GET /tours/{id}`: the tour, its gigs (soonest first) and totals.
#[derive(Debug, Clone)]
pub struct TourDetail {
    pub tour: Tour,
    pub gigs: Vec<GigSummary>,
    pub stats: TourStats,
}

/// A name of 1 to 120 characters, blanks around it not counted, on one line.
pub open spec fn is_tour_name(name: Seq<char>) -> bool {
    &&& 0 < trim(name).len() <= MAX_TOUR_NAME_LENGTH
    &&& forall|i: int| 0 <= i < name.len() ==> !is_control(#[trigger] name[i])
}

/// What is wrong with the name of a tour.
pub open spec fn name_error(name: Seq<char>) -> Option<ErrorView> {
    if is_tour_name(name) {
        None
    } else {
        Some(
            ErrorView {
                code: "invalid_tour_name"@,
                message: Some(
                    "The tour name must be between 1 and 120 characters, on one line."@,
                ),
            },
        )
    }
}

/// What is wrong with dates that are not in order.
pub open spec fn dates_error_view() -> ErrorView {
    ErrorView {
        code: "invalid_tour_dates"@,
        message: Some("The end date can't be before the start date."@),
    }
}

pub fn validate_name(name: &str) -> (r: Result<(), ValidationError>)
    ensures
        verdict(r) == name_error(name@),
{
    let n = chars(trimmed(name).as_str()).len();
    let v = chars(name);
    let mut i: usize = 0;
    while i < v.len() && !char_is_control(v[i])
        invariant
            i <= v@.len(),
            forall|j: int| 0 <= j < i ==> !is_control(#[trigger] v@[j]),
        decreases v@.len() - i,
    {
        i = i + 1;
    }
    if n == 0 || n > MAX_TOUR_NAME_LENGTH || i < v.len() {
        assert(!is_tour_name(name@)) by {
            if i < v.len() {
                assert(is_control(name@[i as int]));
            }
        }
        Err(
            ValidationError::with_message(
                "invalid_tour_name",
                "The tour name must be between 1 and 120 characters, on one line.",
            ),
        )
    } else {
        Ok(())
    }
}

fn dates_error() -> (r: ValidationError)
    ensures
        r@ == dates_error_view(),
{
    ValidationError::with_message(
        "invalid_tour_dates",
        "The end date can't be before the start date.",
    )
}

/// Checks the dates a tour would have after an update.
pub fn check_dates(start: NaiveDate, end: NaiveDate) -> (r: Result<(), ValidationErrors>)
    ensures
        judged(
            r,
            if end@ < start@ {
                added(no_errors(), "end_date"@, dates_error_view())
            } else {
                no_errors()
            },
        ),
{
    let mut errors = ValidationErrors::new();
    if end.is_before(&start) {
        errors.add_error("end_date", dates_error());
    }
    errors.into_result()
}

#[derive(Debug, Clone)]
pub struct CreateTourPayload {
    pub name: String,
    pub description: Option<String>,
    pub start_date: NaiveDate,
    pub end_date: NaiveDate,
    /// Create the tour under a band (requires its `manage_setlists`
    /// permission).
    pub band_id: Option<Uuid>,
}

impl CreateTourPayload {
    /// The rules that this payload breaks.
    pub open spec fn broken_rules(self, description: Option<ErrorView>) -> Wrong {
        let e = no_errors();
        let e = noted(e, "name"@, name_error(self.name@));
        let e = noted(e, "description"@, description);
        if self.end_date@ < self.start_date@ {
            added(e, "__all__"@, dates_error_view())
        } else {
            e
        }
    }

    /// Checks the payload against its rules.
    /// `description` is what the text rules say of that field.
    pub fn validate(&self, description: Result<(), ValidationError>) -> (r: Result<(), ValidationErrors>)
        ensures
            judged(r, self.broken_rules(verdict(description))),
    {
        let mut e = ValidationErrors::new();
        e.note("name", validate_name(self.name.as_str()));
        e.note("description", description);
        if self.end_date.is_before(&self.start_date) {
            e.add_error("__all__", dates_error());
        }
        e.into_result()
    }
}

/// Absent = unchanged; `description: null` clears it.
#[derive(Debug, Clone, Default)]
pub struct UpdateTourPayload {
    pub name: Option<String>,
    pub description: Option<Option<String>>,
    pub start_date: Option<NaiveDate>,
    pub end_date: Option<NaiveDate>,
}

impl UpdateTourPayload {
    /// The rules that this payload breaks.
    pub open spec fn broken_rules(self, description: Option<ErrorView>) -> Wrong {
        let e = no_errors();
        let e = noted(e, "name"@, match self.name { Some(x) => name_error(x@), None => None });
        noted(e, "description"@, description)
    }

    /// Checks the payload against its rules.
    /// `description` is what the text rules say of that field.
    pub fn validate(&self, description: Result<(), ValidationError>) -> (r: Result<(), ValidationErrors>)
        ensures
            judged(r, self.broken_rules(verdict(description))),
    {
        let mut e = ValidationErrors::new();
        e.note("name", match &self.name { Some(x) => validate_name(x.as_str()), None => Ok(()) });
        e.note("description", description);
        e.into_result()
    }
}

/// Which tours to list.
#[derive(Debug, Clone, Copy, PartialEq, Eq, Structural)]
pub enum TourStatusFilter {
    /// Tours that haven't ended yet (`end_date >= today`), soonest first.
    Upcoming,
    /// Tours that already ended, most recent first.
    Past,
    /// Everything, most recent start first.
    All,
}

impl Default for TourStatusFilter {
    fn default() -> (r: Self)
        ensures
            r == TourStatusFilter::Upcoming,
    {
        TourStatusFilter::Upcoming
    }
}

#[derive(Debug, Clone)]
pub struct TourListQuery {
    pub page: Option<i64>,
    pub per_page: Option<i64>,
    pub status: Option<TourStatusFilter>,
}

} // verus!
