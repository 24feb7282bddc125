//! Items pinned to the home screen. Purely personal: pinning grants no
//! access and never changes what anyone else sees.

use crate::models::band::BandWithMembership;
use crate::models::gig::Gig;
use crate::models::setlist::Setlist;
use crate::models::song::Song;
use crate::models::tour::Tour;
use crate::ids::Uuid;
use crate::text::same;
use crate::validation::{ValidationErrors, Wrong, judged, no_errors, unless};
use vstd::prelude::*;

verus! {

/// Most items one account may pin.
pub const MAX_PINS: i64 = 12;

#[derive(Debug, Clone, Copy, PartialEq, Eq, Structural)]
pub enum PinItemType {
    Setlist,
    Band,
    Song,
    Tour,
    Gig,
}

/// The key of each [`PinItemType`].
pub open spec fn pin_item_type_key(x: PinItemType) -> Seq<char> {
    match x {
        PinItemType::Setlist => "setlist"@,
        PinItemType::Band => "band"@,
        PinItemType::Song => "song"@,
        PinItemType::Tour => "tour"@,
        PinItemType::Gig => "gig"@,
    }
}

/// No two of them share a key.
pub proof fn pin_item_type_keys_are_distinct(a: PinItemType, b: PinItemType)
    ensures
        pin_item_type_key(a) == pin_item_type_key(b) ==> a == b,
{
    reveal_strlit("setlist");
    reveal_strlit("band");
    reveal_strlit("song");
    reveal_strlit("tour");
    reveal_strlit("gig");
    assert("setlist"@.len() != "band"@.len());
    assert("setlist"@.len() != "song"@.len());
    assert("setlist"@.len() != "tour"@.len());
    assert("setlist"@.len() != "gig"@.len());
    assert("band"@[0] != "song"@[0]);
    assert("band"@[0] != "tour"@[0]);
    assert("band"@.len() != "gig"@.len());
    assert("song"@[0] != "tour"@[0]);
    assert("song"@.len() != "gig"@.len());
    assert("tour"@.len() != "gig"@.len());
}

impl PinItemType {
    pub fn parse(value: &str) -> (r: Option<Self>)
        ensures
            forall|x: PinItemType| r == Some(x) <==> #[trigger] pin_item_type_key(x) == value@,
    {
        let r = if same(value, "setlist") {
            Some(PinItemType::Setlist)
        } else if same(value, "band") {
            Some(PinItemType::Band)
        } else if same(value, "song") {
            Some(PinItemType::Song)
        } else if same(value, "tour") {
            Some(PinItemType::Tour)
        } else if same(value, "gig") {
            Some(PinItemType::Gig)
        } else {
            None
        };
        proof {
            if let Some(c) = r {
                assert forall|x: PinItemType| #[trigger] pin_item_type_key(x) == value@ implies x == c by {
                    pin_item_type_keys_are_distinct(x, c);
                }
            }
        }
        r
    }
}

/// A pinned item, resolved for display. Items that no longer exist, are in
/// the trash or are no longer accessible are silently left out.
#[derive(Debug, Clone)]
pub struct PinnedItem {
    pub item_type: PinItemType,
    pub item_id: Uuid,
    pub position: i32,
    pub title: String,
    /// Song: artist. Setlist/tour: band name (if any). Gig: `YYYY-MM-DD
    /// HH:MM`. Band: `null`.
    pub subtitle: Option<String>,
    pub band_id: Option<Uuid>,
    /// `true` for a band's repertoire (a setlist whose `title` is the
    /// stored, untranslated "Repertoire"); `false` for anything else.
    pub is_repertoire: bool,
    /// Suggested dashboard path (`/dashboard/setlists/{id}`...).
    pub href_hint: String,
}

#[derive(Debug, Clone, Copy)]
pub struct PinRef {
    pub item_type: PinItemType,
    pub item_id: Uuid,
}

#[derive(Debug, Clone)]
pub struct ReorderPinsPayload {
    /// The pins in their new order. Pins left out keep their relative
    /// order after the listed ones.
    pub items: Vec<PinRef>,
}

impl ReorderPinsPayload {
    /// The rules that this payload breaks.
    pub open spec fn broken_rules(self) -> Wrong {
        let e = no_errors();
        unless(e, 0 <= self.items@.len() <= 12, "items"@, "length"@, Some("At most 12 pins."@))
    }

    /// Checks the payload against its rules.
    pub fn validate(&self) -> (r: Result<(), ValidationErrors>)
        ensures
            judged(r, self.broken_rules()),
    {
        let mut e = ValidationErrors::new();
        e.check(self.items.len() <= 12, "items", "length", Some("At most 12 pins."));
        e.into_result()
    }
}

/// Responses that carry the caller's `is_pinned` flag.
pub trait Pinnable {
    /// The kind of item.
    spec fn is_kind(t: PinItemType) -> bool;

    /// The identity of the item.
    spec fn identity(&self) -> Uuid;

    /// Whether the caller pinned the item.
    spec fn pinned(&self) -> bool;

    fn pin_type() -> (r: PinItemType)
        ensures
            Self::is_kind(r),
    ;

    fn pin_id(&self) -> (r: Uuid)
        ensures
            r == self.identity(),
    ;

    fn set_pinned(&mut self, pinned: bool)
        ensures
            final(self).pinned() == pinned,
            final(self).identity() == old(self).identity(),
    ;
}

impl Pinnable for Song {
    open spec fn is_kind(t: PinItemType) -> bool {
        t == PinItemType::Song
    }

    open spec fn identity(&self) -> Uuid {
        self.id
    }

    open spec fn pinned(&self) -> bool {
        self.is_pinned
    }

    fn pin_type() -> (r: PinItemType) {
        PinItemType::Song
    }

    fn pin_id(&self) -> (r: Uuid) {
        self.id
    }

    fn set_pinned(&mut self, pinned: bool)
        ensures
            *final(self) == (Song { is_pinned: pinned, ..*old(self) }),
    {
        self.is_pinned = pinned;
    }
}

impl Pinnable for Setlist {
    open spec fn is_kind(t: PinItemType) -> bool {
        t == PinItemType::Setlist
    }

    open spec fn identity(&self) -> Uuid {
        self.id
    }

    open spec fn pinned(&self) -> bool {
        self.is_pinned
    }

    fn pin_type() -> (r: PinItemType) {
        PinItemType::Setlist
    }

    fn pin_id(&self) -> (r: Uuid) {
        self.id
    }

    fn set_pinned(&mut self, pinned: bool)
        ensures
            *final(self) == (Setlist { is_pinned: pinned, ..*old(self) }),
    {
        self.is_pinned = pinned;
    }
}

impl Pinnable for Gig {
    open spec fn is_kind(t: PinItemType) -> bool {
        t == PinItemType::Gig
    }

    open spec fn identity(&self) -> Uuid {
        self.id
    }

    open spec fn pinned(&self) -> bool {
        self.is_pinned
    }

    fn pin_type() -> (r: PinItemType) {
        PinItemType::Gig
    }

    fn pin_id(&self) -> (r: Uuid) {
        self.id
    }

    fn set_pinned(&mut self, pinned: bool)
        ensures
            *final(self) == (Gig { is_pinned: pinned, ..*old(self) }),
    {
        self.is_pinned = pinned;
    }
}

impl Pinnable for Tour {
    open spec fn is_kind(t: PinItemType) -> bool {
        t == PinItemType::Tour
    }

    open spec fn identity(&self) -> Uuid {
        self.id
    }

    open spec fn pinned(&self) -> bool {
        self.is_pinned
    }

    fn pin_type() -> (r: PinItemType) {
        PinItemType::Tour
    }

    fn pin_id(&self) -> (r: Uuid) {
        self.id
    }

    fn set_pinned(&mut self, pinned: bool)
        ensures
            *final(self) == (Tour { is_pinned: pinned, ..*old(self) }),
    {
        self.is_pinned = pinned;
    }
}

impl Pinnable for BandWithMembership {
    open spec fn is_kind(t: PinItemType) -> bool {
        t == PinItemType::Band
    }

    open spec fn identity(&self) -> Uuid {
        self.id
    }

    open spec fn pinned(&self) -> bool {
        self.is_pinned
    }

    fn pin_type() -> (r: PinItemType) {
        PinItemType::Band
    }

    fn pin_id(&self) -> (r: Uuid) {
        self.id
    }

    fn set_pinned(&mut self, pinned: bool)
        ensures
            *final(self) == (BandWithMembership { is_pinned: pinned, ..*old(self) }),
    {
        self.is_pinned = pinned;
    }
}

} // verus!
