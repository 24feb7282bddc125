//! Reference links attached to songs and setlists (a recording, a backing
//! track, a chart on a cloud drive).

use crate::text::{copy_of, opt_text};
use vstd::prelude::*;

verus! {

/// A link as sent by clients.
#[derive(Debug, Clone, PartialEq, Eq)]
pub struct LinkInput {
    /// `https` URL of a supported provider, at most 500 characters.
    pub url: String,
    /// Optional short description (at most 60 characters).
    pub label: Option<String>,
}

/// Where a link points to. Derived from the URL's host, never stored.
#[derive(Debug, Clone, Copy, PartialEq, Eq, Structural)]
pub enum LinkProvider {
    Youtube,
    Spotify,
    GoogleDrive,
    AppleMusic,
    Deezer,
    Soundcloud,
    Dropbox,
    Onedrive,
}

/// A link as stored in the `links` JSONB columns.
#[derive(Debug, Clone, PartialEq, Eq)]
pub struct StoredLink {
    pub url: String,
    pub label: Option<String>,
}

/// A link as returned to clients.
#[derive(Debug, Clone, PartialEq, Eq)]
pub struct Link {
    pub url: String,
    pub label: Option<String>,
    pub provider: LinkProvider,
}

/// What a stored link says.
pub ghost struct StoredView {
    pub url: Seq<char>,
    pub label: Option<Seq<char>>,
}

/// What a link says.
pub ghost struct LinkView {
    pub url: Seq<char>,
    pub label: Option<Seq<char>>,
    pub provider: LinkProvider,
}

impl View for StoredLink {
    type V = StoredView;

    open spec fn view(&self) -> StoredView {
        StoredView { url: self.url@, label: opt_text(self.label) }
    }
}

impl View for Link {
    type V = LinkView;

    open spec fn view(&self) -> LinkView {
        LinkView { url: self.url@, label: opt_text(self.label), provider: self.provider }
    }
}

pub open spec fn stored_views(v: Seq<StoredLink>) -> Seq<StoredView> {
    Seq::new(v.len(), |i: int| v[i]@)
}

pub open spec fn link_views(v: Seq<Link>) -> Seq<LinkView> {
    Seq::new(v.len(), |i: int| v[i]@)
}

/// The link as stored.
pub open spec fn stored_form(l: LinkView) -> StoredView {
    StoredView { url: l.url, label: l.label }
}

/// A stored link with the provider of its URL; none when the URL has none.
pub open spec fn resolved(s: StoredView, provider: Option<LinkProvider>) -> Option<LinkView> {
    match provider {
        Some(p) => Some(LinkView { url: s.url, label: s.label, provider: p }),
        None => None,
    }
}

/// The links that still qualify, in their order.
pub open spec fn all_resolved(
    stored: Seq<StoredView>,
    providers: Seq<Option<LinkProvider>>,
) -> Seq<LinkView>
    decreases stored.len(),
{
    if stored.len() == 0 {
        seq![]
    } else {
        let n = stored.len() - 1;
        let before = all_resolved(stored.drop_last(), providers);
        match resolved(stored[n], providers[n]) {
            Some(l) => before.push(l),
            None => before,
        }
    }
}

impl Link {
    /// Gives a stored link the provider of its URL. `None` when the URL no
    /// longer qualifies (it is then left out of responses).
    pub fn from_stored(stored: StoredLink, provider: Option<LinkProvider>) -> (r: Option<Self>)
        ensures
            match r {
                Some(l) => resolved(stored@, provider) == Some(l@),
                None => resolved(stored@, provider) is None,
            },
    {
        match provider {
            Some(provider) => Some(Link { url: stored.url, label: stored.label, provider }),
            None => None,
        }
    }

    pub fn to_stored(&self) -> (r: StoredLink)
        ensures
            r@ == stored_form(self@),
    {
        StoredLink { url: self.url.clone(), label: copy_of(&self.label) }
    }
}

/// The links of a song or setlist, each with the provider of its URL.
#[derive(Debug, Clone, PartialEq, Eq)]
pub struct Links(pub Vec<Link>);

impl View for Links {
    type V = Seq<LinkView>;

    open spec fn view(&self) -> Seq<LinkView> {
        link_views(self.0@)
    }
}

impl Default for Links {
    fn default() -> (r: Self)
        ensures
            r@ == Seq::<LinkView>::empty(),
    {
        let r = Links(Vec::new());
        assert(r@ =~= Seq::<LinkView>::empty());
        r
    }
}

impl Links {
    /// The stored links that still qualify; `providers` are those of their
    /// URLs, in the same order.
    pub fn from_stored(stored: Vec<StoredLink>, providers: &Vec<Option<LinkProvider>>) -> (r: Self)
        requires
            providers@.len() == stored@.len(),
        ensures
            r@ == all_resolved(stored_views(stored@), providers@),
    {
        let ghost all = stored_views(stored@);
        let mut out: Vec<Link> = Vec::new();
        let n = providers.len();
        let mut i: usize = 0;
        assert(all.take(0) =~= seq![]);
        assert(link_views(out@) =~= seq![]);
        for s in it: stored
            invariant
                it.seq() == stored@,
                all == stored_views(stored@),
                n == providers@.len(),
                n == stored@.len(),
                i == it.index(),
                link_views(out@) == all_resolved(all.take(i as int), providers@),
        {
            proof {
                assert(all.take(i + 1).drop_last() =~= all.take(i as int));
                assert(all.take(i + 1)[i as int] == s@);
            }
            let ghost before = out@;
            if let Some(l) = Link::from_stored(s, providers[i]) {
                out.push(l);
                assert(link_views(out@) =~= link_views(before).push(l@));
            }
            i = i + 1;
        }
        assert(all.take(i as int) =~= all);
        Links(out)
    }

    pub fn to_stored(&self) -> (r: Vec<StoredLink>)
        ensures
            stored_views(r@) == Seq::new(self@.len(), |i: int| stored_form(self@[i])),
    {
        let mut out: Vec<StoredLink> = Vec::new();
        let mut i: usize = 0;
        while i < self.0.len()
            invariant
                i <= self.0@.len(),
                stored_views(out@) =~= Seq::new(i as nat, |j: int| stored_form(self@[j])),
            decreases self.0@.len() - i,
        {
            let ghost before = out@;
            let s = self.0[i].to_stored();
            out.push(s);
            assert(stored_views(out@) =~= stored_views(before).push(s@));
            i = i + 1;
        }
        out
    }

    pub fn is_empty(&self) -> (r: bool)
        ensures
            r == (self@.len() == 0),
    {
        self.0.len() == 0
    }

    /// The same links once more.
    pub fn copy(&self) -> (r: Self)
        ensures
            r@ == self@,
    {
        let mut out: Vec<Link> = Vec::new();
        let mut i: usize = 0;
        while i < self.0.len()
            invariant
                i <= self.0@.len(),
                link_views(out@) =~= self@.take(i as int),
            decreases self.0@.len() - i,
        {
            let l = &self.0[i];
            let c = Link { url: l.url.clone(), label: copy_of(&l.label), provider: l.provider };
            let ghost before = out@;
            out.push(c);
            assert(link_views(out@) =~= link_views(before).push(c@));
            i = i + 1;
        }
        Links(out)
    }
}

/// A link that was stored comes back as it was, given its provider.
pub proof fn stored_links_come_back(l: LinkView)
    ensures
        resolved(stored_form(l), Some(l.provider)) == Some(l),
{
}

} // verus!
