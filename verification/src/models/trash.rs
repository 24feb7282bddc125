//! The trash: deleted songs, artists, setlists, gigs and tours wait here
//! (hidden everywhere else) until they are restored or purged.

use crate::models::band::BandPermission;
use crate::ids::Uuid;
use crate::text::same;
use crate::time::NaiveDateTime;
use vstd::prelude::*;

verus! {

/// Kinds of trashable content. Also the `{type}` path segment of the
/// trash endpoints.
#[derive(Debug, Clone, Copy, PartialEq, Eq, Structural)]
pub enum TrashType {
    Song,
    Artist,
    Setlist,
    Gig,
    Tour,
}

/// The key of each [`TrashType`].
pub open spec fn trash_type_key(x: TrashType) -> Seq<char> {
    match x {
        TrashType::Song => "song"@,
        TrashType::Artist => "artist"@,
        TrashType::Setlist => "setlist"@,
        TrashType::Gig => "gig"@,
        TrashType::Tour => "tour"@,
    }
}

/// No two of them share a key.
pub proof fn trash_type_keys_are_distinct(a: TrashType, b: TrashType)
    ensures
        trash_type_key(a) == trash_type_key(b) ==> a == b,
{
    reveal_strlit("song");
    reveal_strlit("artist");
    reveal_strlit("setlist");
    reveal_strlit("gig");
    reveal_strlit("tour");
    assert("song"@.len() != "artist"@.len());
    assert("song"@.len() != "setlist"@.len());
    assert("song"@.len() != "gig"@.len());
    assert("song"@[0] != "tour"@[0]);
    assert("artist"@.len() != "setlist"@.len());
    assert("artist"@.len() != "gig"@.len());
    assert("artist"@.len() != "tour"@.len());
    assert("setlist"@.len() != "gig"@.len());
    assert("setlist"@.len() != "tour"@.len());
    assert("gig"@.len() != "tour"@.len());
}

impl TrashType {
    pub fn key(&self) -> (r: &'static str)
        ensures
            r@ == trash_type_key(*self),
    {
        match self {
            TrashType::Song => "song",
            TrashType::Artist => "artist",
            TrashType::Setlist => "setlist",
            TrashType::Gig => "gig",
            TrashType::Tour => "tour",
        }
    }

    pub fn parse(value: &str) -> (r: Option<Self>)
        ensures
            forall|x: TrashType| r == Some(x) <==> #[trigger] trash_type_key(x) == value@,
    {
        let r = if same(value, "song") {
            Some(TrashType::Song)
        } else if same(value, "artist") {
            Some(TrashType::Artist)
        } else if same(value, "setlist") {
            Some(TrashType::Setlist)
        } else if same(value, "gig") {
            Some(TrashType::Gig)
        } else if same(value, "tour") {
            Some(TrashType::Tour)
        } else {
            None
        };
        proof {
            if let Some(c) = r {
                assert forall|x: TrashType| #[trigger] trash_type_key(x) == value@ implies x == c by {
                    trash_type_keys_are_distinct(x, c);
                }
            }
        }
        r
    }
}

/// The band permission that a kind of content needs.
pub open spec fn trash_permission(kind: TrashType) -> BandPermission {
    if kind == TrashType::Song || kind == TrashType::Artist {
        BandPermission::ManageSongs
    } else {
        BandPermission::ManageSetlists
    }
}

impl TrashType {
    /// Band permission needed to see and manage this kind in a band's
    /// trash: songs and artists follow `manage_songs`, the rest
    /// `manage_setlists`.
    pub fn band_permission(&self) -> (r: BandPermission)
        ensures
            r == trash_permission(*self),
    {
        match self {
            TrashType::Song | TrashType::Artist => BandPermission::ManageSongs,
            _ => BandPermission::ManageSetlists,
        }
    }
}

/// Whose trash.
#[derive(Debug, Clone, Copy, PartialEq, Eq, Structural)]
pub enum TrashScope {
    /// The caller's personal content.
    Personal,
    /// A band's content (`band_id` required).
    Band,
}

impl Default for TrashScope {
    fn default() -> (r: Self)
        ensures
            r == TrashScope::Personal,
    {
        TrashScope::Personal
    }
}

#[derive(Debug, Clone)]
pub struct TrashListQuery {
    pub scope: Option<TrashScope>,
    pub band_id: Option<Uuid>,
    pub item_type: Option<TrashType>,
    pub page: Option<i64>,
    pub per_page: Option<i64>,
}

#[derive(Debug, Clone)]
pub struct EmptyTrashQuery {
    pub scope: Option<TrashScope>,
    pub band_id: Option<Uuid>,
}

/// One entry of the trash.
#[derive(Debug, Clone)]
pub struct TrashItem {
    pub item_type: String,
    pub id: Uuid,
    /// Song title, artist name, setlist title, gig venue or tour name.
    pub title: String,
    /// Song: its artist. Gig: `YYYY-MM-DD HH:MM` (+ `, location`). Tour:
    /// `YYYY-MM-DD..YYYY-MM-DD`. Setlist and artist: the band name (band
    /// trash) or `null`.
    pub subtitle: Option<String>,
    pub band_id: Option<Uuid>,
    pub band_name: Option<String>,
    pub deleted_at: NaiveDateTime,
    pub deleted_by_username: Option<String>,
    /// When it will be deleted for good.
    pub purge_at: NaiveDateTime,
    /// Artists: how many of their songs were deleted with them (restored
    /// together). `0` for everything else.
    pub batch_count: i64,
}

#[derive(Debug, Clone)]
pub struct EmptyTrashResponse {
    pub deleted: u64,
}

} // verus!
