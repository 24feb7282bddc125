//! Backups: portable snapshots of a user's data.

use crate::models::gig::GigStatus;
use crate::models::tonality::{Genre, Tonality};
use crate::ids::Uuid;
use crate::text::{chars, decimal, decimal_of, has, opt_text, trim, trimmed};
use crate::time::NaiveDateTime;
use vstd::prelude::*;

verus! {

/// Current version of the backup format.
/// Increment this constant if breaking schema changes are made.
pub const BACKUP_FORMAT_VERSION: u32 = 1;

/// Largest number of records of each kind a single backup may carry.
pub const MAX_BACKUP_RECORDS: usize = 20_000;

/// A fully self-contained, portable snapshot of a user's data.
#[derive(Debug, Clone)]
pub struct BackupFile {
    pub version: u32,
    pub exported_at: NaiveDateTime,
    pub artists: Vec<BackupArtist>,
    pub songs: Vec<BackupSong>,
    pub setlists: Vec<BackupSetlist>,
    pub gigs: Vec<BackupGig>,
}

/// Artist entry inside a backup file.
#[derive(Debug, Clone)]
pub struct BackupArtist {
    pub id: Uuid,
    pub name: String,
}

/// Song entry inside a backup file.
#[derive(Debug, Clone)]
pub struct BackupSong {
    pub id: Uuid,
    pub title: String,
    pub artist_id: Uuid,
    pub tempo: Option<i32>,
    pub lyrics: Option<String>,
    pub tonality: Option<Tonality>,
    pub genre: Option<Genre>,
    pub duration: Option<i32>,
    /// Added after the first release — absent in older backups.
    pub tags: Vec<String>,
}

/// Setlist entry inside a backup file.
#[derive(Debug, Clone)]
pub struct BackupSetlist {
    pub id: Uuid,
    pub title: String,
    pub description: Option<String>,
    pub songs: Vec<BackupSetlistSong>,
}

/// A song reference within a setlist, preserving its display position.
#[derive(Debug, Clone, Copy)]
pub struct BackupSetlistSong {
    pub song_id: Uuid,
    pub position: i32,
}

/// Gig entry inside a backup file. Only personal (non-band) gigs are ever
/// included — band data isn't part of a personal backup, same as band
/// setlists.
#[derive(Debug, Clone)]
pub struct BackupGig {
    pub id: Uuid,
    pub venue: String,
    pub scheduled_at: NaiveDateTime,
    /// References a [`BackupSetlist::id`] in the same file, if any. Left
    /// unset on import if the referenced setlist can't be resolved,
    /// rather than aborting the whole import over a missing link.
    pub setlist_id: Option<Uuid>,
    pub status: GigStatus,
    pub notes: Option<String>,
}

/// Summary returned to the caller after a successful import.
#[derive(Debug, Clone, Copy)]
pub struct ImportSummary {
    pub artists_imported: usize,
    pub songs_imported: usize,
    pub setlists_imported: usize,
    pub gigs_imported: usize,
}

/// Between 1 and `max` characters, blanks around them aside.
pub open spec fn bounded(value: Seq<char>, max: int) -> bool {
    1 <= trim(value).len() <= max
}

fn is_bounded(value: &str, max: usize) -> (r: bool)
    ensures
        r == bounded(value@, max as int),
{
    let n = chars(trimmed(value).as_str()).len();
    1 <= n && n <= max
}

/// A text of more than `max` characters.
pub open spec fn too_long(value: Option<String>, max: int) -> bool {
    value matches Some(s) && s@.len() > max
}

fn is_too_long(value: &Option<String>, max: usize) -> (r: bool)
    ensures
        r == too_long(*value, max as int),
{
    match value {
        Some(s) => chars(s.as_str()).len() > max,
        None => false,
    }
}

fn around(before: &str, name: &str, after: &str) -> (r: String)
    ensures
        r@ == before@ + name@ + after@,
{
    let mut s = before.to_string();
    s.append(name);
    s.append(after);
    s
}

/// What is wrong with an artist.
pub open spec fn artist_problem(x: BackupArtist, max_lyrics: int, max_description: int) -> Option<Seq<char>> {
    if !bounded(x.name@, 255) {
        Some("An artist has an empty or too long name."@)
    } else {
        None
    }
}

/// What is wrong with the first of them, from `i` on, that has a problem.
pub open spec fn artists_problem(
    v: Seq<BackupArtist>,
    i: int,
    max_lyrics: int,
    max_description: int,
) -> Option<Seq<char>>
    decreases v.len() - i,
{
    if i < 0 || i >= v.len() {
        None
    } else if artist_problem(v[i], max_lyrics, max_description) is Some {
        artist_problem(v[i], max_lyrics, max_description)
    } else {
        artists_problem(v, i + 1, max_lyrics, max_description)
    }
}

fn check_artists(
    v: &Vec<BackupArtist>,
    max_lyrics: usize,
    max_description: usize,
) -> (r: Option<String>)
    ensures
        opt_text(r) == artists_problem(v@, 0, max_lyrics as int, max_description as int),
{
    let mut i: usize = 0;
    while i < v.len()
        invariant
            i <= v@.len(),
            artists_problem(v@, 0, max_lyrics as int, max_description as int) == artists_problem(
                v@,
                i as int,
                max_lyrics as int,
                max_description as int,
            ),
        decreases v@.len() - i,
    {
        let x = &v[i];
        if !is_bounded(x.name.as_str(), 255) {
            return Some("An artist has an empty or too long name.".to_string());
        }
        i = i + 1;
    }
    None
}

/// What is wrong with a song.
pub open spec fn song_problem(x: BackupSong, max_lyrics: int, max_description: int) -> Option<Seq<char>> {
    if !bounded(x.title@, 255) {
        Some("A song has an empty or too long title."@)
    } else if too_long(x.lyrics, max_lyrics) {
        Some("The lyrics of \""@ + x.title@ + "\" are too long."@)
    } else if x.tempo matches Some(t) && !(1 <= t <= 500) {
        Some("\""@ + x.title@ + "\" has an invalid BPM."@)
    } else if x.duration matches Some(d) && !(1 <= d <= 7_200) {
        Some("\""@ + x.title@ + "\" has an invalid duration."@)
    } else {
        None
    }
}

/// What is wrong with the first of them, from `i` on, that has a problem.
pub open spec fn songs_problem(
    v: Seq<BackupSong>,
    i: int,
    max_lyrics: int,
    max_description: int,
) -> Option<Seq<char>>
    decreases v.len() - i,
{
    if i < 0 || i >= v.len() {
        None
    } else if song_problem(v[i], max_lyrics, max_description) is Some {
        song_problem(v[i], max_lyrics, max_description)
    } else {
        songs_problem(v, i + 1, max_lyrics, max_description)
    }
}

fn check_songs(
    v: &Vec<BackupSong>,
    max_lyrics: usize,
    max_description: usize,
) -> (r: Option<String>)
    ensures
        opt_text(r) == songs_problem(v@, 0, max_lyrics as int, max_description as int),
{
    let mut i: usize = 0;
    while i < v.len()
        invariant
            i <= v@.len(),
            songs_problem(v@, 0, max_lyrics as int, max_description as int) == songs_problem(
                v@,
                i as int,
                max_lyrics as int,
                max_description as int,
            ),
        decreases v@.len() - i,
    {
        let x = &v[i];
        if !is_bounded(x.title.as_str(), 255) {
            return Some("A song has an empty or too long title.".to_string());
        }
        if is_too_long(&x.lyrics, max_lyrics) {
            return Some(around("The lyrics of \"", x.title.as_str(), "\" are too long."));
        }
        if match x.tempo { Some(t) => t < 1 || t > 500, None => false } {
            return Some(around("\"", x.title.as_str(), "\" has an invalid BPM."));
        }
        if match x.duration { Some(d) => d < 1 || d > 7_200, None => false } {
            return Some(around("\"", x.title.as_str(), "\" has an invalid duration."));
        }
        i = i + 1;
    }
    None
}

/// What is wrong with a setlist.
pub open spec fn setlist_problem(x: BackupSetlist, max_lyrics: int, max_description: int) -> Option<Seq<char>> {
    if !bounded(x.title@, 255) {
        Some("A setlist has an empty or too long title."@)
    } else if too_long(x.description, max_description) {
        Some("The description of \""@ + x.title@ + "\" is too long."@)
    } else {
        None
    }
}

/// What is wrong with the first of them, from `i` on, that has a problem.
pub open spec fn setlists_problem(
    v: Seq<BackupSetlist>,
    i: int,
    max_lyrics: int,
    max_description: int,
) -> Option<Seq<char>>
    decreases v.len() - i,
{
    if i < 0 || i >= v.len() {
        None
    } else if setlist_problem(v[i], max_lyrics, max_description) is Some {
        setlist_problem(v[i], max_lyrics, max_description)
    } else {
        setlists_problem(v, i + 1, max_lyrics, max_description)
    }
}

fn check_setlists(
    v: &Vec<BackupSetlist>,
    max_lyrics: usize,
    max_description: usize,
) -> (r: Option<String>)
    ensures
        opt_text(r) == setlists_problem(v@, 0, max_lyrics as int, max_description as int),
{
    let mut i: usize = 0;
    while i < v.len()
        invariant
            i <= v@.len(),
            setlists_problem(v@, 0, max_lyrics as int, max_description as int) == setlists_problem(
                v@,
                i as int,
                max_lyrics as int,
                max_description as int,
            ),
        decreases v@.len() - i,
    {
        let x = &v[i];
        if !is_bounded(x.title.as_str(), 255) {
            return Some("A setlist has an empty or too long title.".to_string());
        }
        if is_too_long(&x.description, max_description) {
            return Some(around("The description of \"", x.title.as_str(), "\" is too long."));
        }
        i = i + 1;
    }
    None
}

/// What is wrong with a gig.
pub open spec fn gig_problem(x: BackupGig, max_lyrics: int, max_description: int) -> Option<Seq<char>> {
    if !bounded(x.venue@, 255) {
        Some("A gig has an empty or too long venue."@)
    } else if too_long(x.notes, max_description) {
        Some("The notes of the gig at \""@ + x.venue@ + "\" are too long."@)
    } else {
        None
    }
}

/// What is wrong with the first of them, from `i` on, that has a problem.
pub open spec fn gigs_problem(
    v: Seq<BackupGig>,
    i: int,
    max_lyrics: int,
    max_description: int,
) -> Option<Seq<char>>
    decreases v.len() - i,
{
    if i < 0 || i >= v.len() {
        None
    } else if gig_problem(v[i], max_lyrics, max_description) is Some {
        gig_problem(v[i], max_lyrics, max_description)
    } else {
        gigs_problem(v, i + 1, max_lyrics, max_description)
    }
}

fn check_gigs(
    v: &Vec<BackupGig>,
    max_lyrics: usize,
    max_description: usize,
) -> (r: Option<String>)
    ensures
        opt_text(r) == gigs_problem(v@, 0, max_lyrics as int, max_description as int),
{
    let mut i: usize = 0;
    while i < v.len()
        invariant
            i <= v@.len(),
            gigs_problem(v@, 0, max_lyrics as int, max_description as int) == gigs_problem(
                v@,
                i as int,
                max_lyrics as int,
                max_description as int,
            ),
        decreases v@.len() - i,
    {
        let x = &v[i];
        if !is_bounded(x.venue.as_str(), 255) {
            return Some("A gig has an empty or too long venue.".to_string());
        }
        if is_too_long(&x.notes, max_description) {
            return Some(around("The notes of the gig at \"", x.venue.as_str(), "\" are too long."));
        }
        i = i + 1;
    }
    None
}

/// What is said of a list that is too long.
pub open spec fn crowded(label: Seq<char>, len: int) -> Option<Seq<char>> {
    if len > MAX_BACKUP_RECORDS {
        Some("The backup has too many "@ + label + " ("@ + decimal(len as nat) + ")."@)
    } else {
        None
    }
}

fn check_count(label: &str, len: usize) -> (r: Option<String>)
    ensures
        opt_text(r) == crowded(label@, len as int),
{
    if len > MAX_BACKUP_RECORDS {
        let mut s = "The backup has too many ".to_string();
        s.append(label);
        s.append(" (");
        s.append(decimal_of(len as u64).as_str());
        s.append(").");
        Some(s)
    } else {
        None
    }
}

/// The first of two problems.
pub open spec fn or_else(a: Option<Seq<char>>, b: Option<Seq<char>>) -> Option<Seq<char>> {
    if a is Some {
        a
    } else {
        b
    }
}

impl BackupFile {
    /// What is wrong with a backup: the first problem found, from its version
    /// over the sizes of its lists to the records in them.
    pub open spec fn problem(self, max_lyrics: int, max_description: int) -> Option<Seq<char>> {
        if self.version == 0 || self.version > BACKUP_FORMAT_VERSION {
            Some(
                "Unsupported backup version "@ + decimal(self.version as nat)
                    + " (this server reads version "@ + decimal(BACKUP_FORMAT_VERSION as nat)
                    + ")."@,
            )
        } else {
            let counts = or_else(
                crowded("artists"@, self.artists@.len() as int),
                or_else(
                    crowded("songs"@, self.songs@.len() as int),
                    or_else(
                        crowded("setlists"@, self.setlists@.len() as int),
                        crowded("gigs"@, self.gigs@.len() as int),
                    ),
                ),
            );
            let records = or_else(
                artists_problem(self.artists@, 0, max_lyrics, max_description),
                or_else(
                    songs_problem(self.songs@, 0, max_lyrics, max_description),
                    or_else(
                        setlists_problem(self.setlists@, 0, max_lyrics, max_description),
                        gigs_problem(self.gigs@, 0, max_lyrics, max_description),
                    ),
                ),
            );
            or_else(counts, records)
        }
    }

    /// Structural validation run before anything touches the database, so
    /// a malformed or hand-edited file fails with a clear 400 instead of a
    /// database error halfway through the import. `max_lyrics` and
    /// `max_description` are the longest texts the platform stores.
    pub fn validate_contents(&self, max_lyrics: usize, max_description: usize) -> (r: Result<
        (),
        String,
    >)
        ensures
            match self.problem(max_lyrics as int, max_description as int) {
                None => r is Ok,
                Some(m) => r matches Err(e) && e@ == m,
            },
    {
        if self.version == 0 || self.version > BACKUP_FORMAT_VERSION {
            let mut s = "Unsupported backup version ".to_string();
            s.append(decimal_of(self.version as u64).as_str());
            s.append(" (this server reads version ");
            s.append(decimal_of(BACKUP_FORMAT_VERSION as u64).as_str());
            s.append(").");
            return Err(s);
        }
        if let Some(m) = check_count("artists", self.artists.len()) {
            return Err(m);
        }
        if let Some(m) = check_count("songs", self.songs.len()) {
            return Err(m);
        }
        if let Some(m) = check_count("setlists", self.setlists.len()) {
            return Err(m);
        }
        if let Some(m) = check_count("gigs", self.gigs.len()) {
            return Err(m);
        }
        if let Some(m) = check_artists(&self.artists, max_lyrics, max_description) {
            return Err(m);
        }
        if let Some(m) = check_songs(&self.songs, max_lyrics, max_description) {
            return Err(m);
        }
        if let Some(m) = check_setlists(&self.setlists, max_lyrics, max_description) {
            return Err(m);
        }
        if let Some(m) = check_gigs(&self.gigs, max_lyrics, max_description) {
            return Err(m);
        }
        Ok(())
    }
}

/// In an accepted backup every record is within its bounds, whatever its place.
pub proof fn accepted_backups_are_bounded(file: BackupFile, max_lyrics: int, max_description: int)
    requires
        file.problem(max_lyrics, max_description) is None,
    ensures
        file.artists@.len() <= MAX_BACKUP_RECORDS,
        file.songs@.len() <= MAX_BACKUP_RECORDS,
        file.setlists@.len() <= MAX_BACKUP_RECORDS,
        file.gigs@.len() <= MAX_BACKUP_RECORDS,
        forall|i: int|
            0 <= i < file.artists@.len() ==> bounded((#[trigger] file.artists@[i]).name@, 255),
        forall|i: int|
            0 <= i < file.songs@.len() ==> bounded((#[trigger] file.songs@[i]).title@, 255)
                && !too_long(file.songs@[i].lyrics, max_lyrics) && (file.songs@[i].tempo matches Some(
                t,
            ) ==> 1 <= t <= 500) && (file.songs@[i].duration matches Some(d) ==> 1 <= d <= 7_200),
        forall|i: int|
            0 <= i < file.setlists@.len() ==> bounded((#[trigger] file.setlists@[i]).title@, 255)
                && !too_long(file.setlists@[i].description, max_description),
        forall|i: int|
            0 <= i < file.gigs@.len() ==> bounded((#[trigger] file.gigs@[i]).venue@, 255)
                && !too_long(file.gigs@[i].notes, max_description),
{
    lemma_no_artist_problem(file.artists@, 0, max_lyrics, max_description);
    lemma_no_song_problem(file.songs@, 0, max_lyrics, max_description);
    lemma_no_setlist_problem(file.setlists@, 0, max_lyrics, max_description);
    lemma_no_gig_problem(file.gigs@, 0, max_lyrics, max_description);
}

proof fn lemma_no_artist_problem(
    v: Seq<BackupArtist>,
    i: int,
    max_lyrics: int,
    max_description: int,
)
    requires
        0 <= i,
        artists_problem(v, i, max_lyrics, max_description) is None,
    ensures
        forall|j: int|
            i <= j < v.len() ==> artist_problem(#[trigger] v[j], max_lyrics, max_description) is None,
    decreases v.len() - i,
{
    if i < v.len() {
        lemma_no_artist_problem(v, i + 1, max_lyrics, max_description);
    }
}

proof fn lemma_no_song_problem(
    v: Seq<BackupSong>,
    i: int,
    max_lyrics: int,
    max_description: int,
)
    requires
        0 <= i,
        songs_problem(v, i, max_lyrics, max_description) is None,
    ensures
        forall|j: int|
            i <= j < v.len() ==> song_problem(#[trigger] v[j], max_lyrics, max_description) is None,
    decreases v.len() - i,
{
    if i < v.len() {
        lemma_no_song_problem(v, i + 1, max_lyrics, max_description);
    }
}

proof fn lemma_no_setlist_problem(
    v: Seq<BackupSetlist>,
    i: int,
    max_lyrics: int,
    max_description: int,
)
    requires
        0 <= i,
        setlists_problem(v, i, max_lyrics, max_description) is None,
    ensures
        forall|j: int|
            i <= j < v.len() ==> setlist_problem(#[trigger] v[j], max_lyrics, max_description) is None,
    decreases v.len() - i,
{
    if i < v.len() {
        lemma_no_setlist_problem(v, i + 1, max_lyrics, max_description);
    }
}

proof fn lemma_no_gig_problem(
    v: Seq<BackupGig>,
    i: int,
    max_lyrics: int,
    max_description: int,
)
    requires
        0 <= i,
        gigs_problem(v, i, max_lyrics, max_description) is None,
    ensures
        forall|j: int|
            i <= j < v.len() ==> gig_problem(#[trigger] v[j], max_lyrics, max_description) is None,
    decreases v.len() - i,
{
    if i < v.len() {
        lemma_no_gig_problem(v, i + 1, max_lyrics, max_description);
    }
}

} // verus!
