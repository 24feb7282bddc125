//! Shapes used by the staff (admin/moderator) console.

use crate::models::band::{BandMember, BandRole};
use crate::models::page::{page_of, per_page_of, resolve_page};
use crate::models::quota::{QuotaReport, UserQuotaSettings};
use crate::models::setlist::SetlistItem;
use crate::models::song::SongWithArtist;
use crate::models::tonality::{Genre, Tonality};
use crate::models::user::UserPublic;
use crate::ids::Uuid;
use crate::json::members;
use crate::text::{
    lemma_replace_append, lemma_replace_one, opt_text, replace, replaced, trim, trimmed,
};
use crate::time::NaiveDateTime;
use crate::validation::{ErrorView, ValidationError, ValidationErrors, Wrong, judged, no_errors, noted, verdict};
use vstd::prelude::*;

verus! {

/// `q` with the characters that `ILIKE` reads in a special way escaped.
pub open spec fn escaped(q: Seq<char>) -> Seq<char> {
    replace(replace(replace(q, "\\"@, "\\\\"@), "%"@, "\\%"@), "_"@, "\\_"@)
}

/// `q` as an `ILIKE` pattern; none when it is blank.
pub open spec fn pattern_of(q: Option<Seq<char>>) -> Option<Seq<char>> {
    match q {
        Some(s) => if trim(s).len() == 0 {
            None
        } else {
            Some("%"@ + escaped(trim(s)) + "%"@)
        },
        None => None,
    }
}

/// `q` as an escaped `ILIKE` pattern, or `None` when blank.
pub fn search_pattern(q: &Option<String>) -> (r: Option<String>)
    ensures
        opt_text(r) == pattern_of(opt_text(*q)),
{
    match q {
        Some(s) => {
            let t = trimmed(s.as_str());
            if t.as_str().is_empty() {
                return None;
            }
            proof {
                reveal_strlit("\\");
                reveal_strlit("%");
                reveal_strlit("_");
            }
            let e = replaced(t.as_str(), "\\", "\\\\");
            let e = replaced(e.as_str(), "%", "\\%");
            let e = replaced(e.as_str(), "_", "\\_");
            let mut p = "%".to_string();
            p.append(e.as_str());
            p.append("%");
            Some(p)
        },
        None => None,
    }
}

/// How a character stands in a pattern that it is to match.
pub open spec fn literal(c: char) -> Seq<char> {
    if c == '\\' || c == '%' || c == '_' {
        seq!['\\', c]
    } else {
        seq![c]
    }
}

/// How a text stands in a pattern that it is to match.
pub open spec fn literals(q: Seq<char>) -> Seq<char>
    decreases q.len(),
{
    if q.len() == 0 {
        seq![]
    } else {
        literal(q[0]) + literals(q.skip(1))
    }
}

/// What is searched for is matched literally: a pattern starts and ends with
/// a wildcard, and those in the text are escaped.
pub proof fn searches_are_literal(q: Seq<char>)
    requires
        trim(q).len() > 0,
    ensures
        pattern_of(Some(q)) == Some("%"@ + literals(trim(q)) + "%"@),
{
    lemma_escaped(trim(q));
}

proof fn lemma_escaped(q: Seq<char>)
    ensures
        escaped(q) == literals(q),
    decreases q.len(),
{
    reveal_strlit("\\");
    reveal_strlit("\\\\");
    reveal_strlit("%");
    reveal_strlit("\\%");
    reveal_strlit("_");
    reveal_strlit("\\_");
    let b = seq!['\\'];
    assert("\\"@ =~= b);
    assert("%"@ =~= seq!['%']);
    assert("_"@ =~= seq!['_']);
    if q.len() == 0 {
        assert(escaped(q) =~= seq![]);
    } else {
        let one = seq![q[0]];
        let rest = q.skip(1);
        let (w1, w2, w3) = ("\\\\"@, "\\%"@, "\\_"@);
        assert(w1 =~= b + b);
        assert(w2 =~= b + seq!['%']);
        assert(w3 =~= b + seq!['_']);
        assert(one + rest =~= q);
        let (a1, r1) = (replace(one, b, w1), replace(rest, b, w1));
        let (a2, r2) = (replace(a1, seq!['%'], w2), replace(r1, seq!['%'], w2));
        lemma_replace_append(one, rest, '\\', w1);
        lemma_replace_append(a1, r1, '%', w2);
        lemma_replace_append(a2, r2, '_', w3);
        lemma_replace_one(q[0], '\\', w1);
        lemma_replace_one(q[0], '%', w2);
        lemma_replace_one(q[0], '_', w3);
        lemma_replace_append(b, b, '%', w2);
        lemma_replace_append(b, b, '_', w3);
        lemma_replace_append(b, seq!['%'], '_', w3);
        lemma_replace_one('\\', '%', w2);
        lemma_replace_one('\\', '_', w3);
        lemma_replace_one('%', '_', w3);
        lemma_escaped(rest);
        assert(replace(a2, seq!['_'], w3) =~= literal(q[0]));
    }
}

/// Filters shared by the staff listings. Every field is optional.
#[derive(Debug, Clone, Default)]
pub struct AdminListQuery {
    pub page: Option<i64>,
    pub per_page: Option<i64>,
    /// Case-insensitive search over names/titles and owner usernames.
    pub q: Option<String>,
    /// Only records created by this user.
    pub user_id: Option<Uuid>,
    /// Only records belonging to this band.
    pub band_id: Option<Uuid>,
    /// Only records whose public link is currently active (`true`) or not.
    pub shared: Option<bool>,
}

impl AdminListQuery {
    pub fn page(&self) -> (r: (i64, i64))
        ensures
            r.0 == page_of(self.page),
            r.1 == per_page_of(self.per_page, 25),
    {
        resolve_page(self.page, self.per_page, 25)
    }

    /// `q` as an escaped `ILIKE` pattern, or `None` when blank.
    pub fn search_pattern(&self) -> (r: Option<String>)
        ensures
            opt_text(r) == pattern_of(opt_text(self.q)),
    {
        search_pattern(&self.q)
    }
}

#[derive(Debug, Clone)]
pub struct AdminBandSummary {
    pub id: Uuid,
    pub name: String,
    pub slug: String,
    pub description: Option<String>,
    pub logo_url: Option<String>,
    pub members_can_manage_setlists: bool,
    pub created_by: Option<Uuid>,
    pub owner_id: Option<Uuid>,
    pub owner_username: Option<String>,
    pub member_count: i64,
    pub setlist_count: i64,
    pub song_count: i64,
    pub gig_count: i64,
    pub updated_by_username: Option<String>,
    pub created_at: NaiveDateTime,
    pub updated_at: NaiveDateTime,
}

#[derive(Debug, Clone)]
pub struct AdminBandDetail {
    pub band: AdminBandSummary,
    pub members: Vec<BandMember>,
}

#[derive(Debug, Clone)]
pub struct AdminSongSummary {
    pub id: Uuid,
    pub title: String,
    pub artist_id: Uuid,
    pub artist_name: String,
    pub user_id: Uuid,
    pub owner_username: Option<String>,
    pub band_id: Option<Uuid>,
    pub band_name: Option<String>,
    pub tonality: Option<Tonality>,
    pub tempo: Option<i32>,
    pub genre: Option<Genre>,
    pub duration: Option<i32>,
    pub energy: Option<i16>,
    pub time_signature: Option<String>,
    pub capo: Option<i16>,
    pub has_lyrics: bool,
    pub tags: Vec<String>,
    pub setlist_count: i64,
    pub updated_by_username: Option<String>,
    pub created_at: NaiveDateTime,
    pub updated_at: NaiveDateTime,
}

/// A song as the staff console shows it: the full record (with lyrics)
/// plus the owner, band and usage from the listing.
#[derive(Debug, Clone)]
pub struct AdminSongDetail {
    pub song: SongWithArtist,
    pub summary: AdminSongSummary,
}

#[derive(Debug, Clone)]
pub struct AdminSetlistSummary {
    pub id: Uuid,
    pub title: String,
    pub description: Option<String>,
    pub user_id: Uuid,
    pub owner_username: Option<String>,
    pub band_id: Option<Uuid>,
    pub band_name: Option<String>,
    pub song_count: i64,
    pub total_duration: i32,
    pub share_token: Option<String>,
    pub share_locked_at: Option<NaiveDateTime>,
    pub share_lock_reason: Option<String>,
    pub updated_by_username: Option<String>,
    pub created_at: NaiveDateTime,
    pub updated_at: NaiveDateTime,
}

#[derive(Debug, Clone)]
pub struct AdminSetlistDetail {
    pub setlist: AdminSetlistSummary,
    pub items: Vec<SetlistItem>,
}

/// A setlist or gig whose public link is active or was taken down.
#[derive(Debug, Clone)]
pub struct SharedLink {
    /// `"setlist"` or `"gig"`.
    pub kind: String,
    pub id: Uuid,
    pub title: String,
    pub owner_id: Uuid,
    pub owner_username: Option<String>,
    pub band_id: Option<Uuid>,
    pub band_name: Option<String>,
    pub share_token: Option<String>,
    pub share_locked_at: Option<NaiveDateTime>,
    pub share_lock_reason: Option<String>,
    pub share_locked_by_username: Option<String>,
    pub updated_at: NaiveDateTime,
}

#[derive(Debug, Clone)]
pub struct AdminUserBand {
    pub band_id: Uuid,
    pub band_name: String,
    pub role: BandRole,
    pub joined_at: NaiveDateTime,
}

#[derive(Debug, Clone)]
pub struct AdminUserOverview {
    pub user: UserPublic,
    pub usage: QuotaReport,
    pub quota_settings: UserQuotaSettings,
    pub bands: Vec<AdminUserBand>,
}

#[derive(Debug, Clone, Default)]
pub struct RevokeSharePayload {
    /// Shown to the owner in their notification and on the item.
    pub reason: Option<String>,
}

impl RevokeSharePayload {
    /// The rules that this payload breaks.
    pub open spec fn broken_rules(self, reason: Option<ErrorView>) -> Wrong {
        let e = no_errors();
        noted(e, "reason"@, reason)
    }

    /// Checks the payload against its rules.
    /// `reason` is what the text rules say of that field.
    pub fn validate(&self, reason: Result<(), ValidationError>) -> (r: Result<(), ValidationErrors>)
        ensures
            judged(r, self.broken_rules(verdict(reason))),
    {
        let mut e = ValidationErrors::new();
        e.note("reason", reason);
        e.into_result()
    }
}

#[derive(Debug, Clone)]
pub struct AdminUpdateBandMemberRolePayload {
    pub role: BandRole,
}

#[derive(Debug, Clone)]
pub struct AdminTransferOwnershipPayload {
    pub new_owner_id: Uuid,
}

} // verus!
