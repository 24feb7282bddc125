//! What new records hold, and what may be restored.

use crate::export::layout::{place, Widths};
use crate::export::chords::SegmentView;
use crate::models::artist::{is_artist, Artist};
use crate::models::backup::{bounded, BackupFile};
use crate::models::band::{is_new_band, Band, BandPermission};
use crate::models::band_note::{is_note_of, BandNote, BandNoteRow};
use crate::models::gig::{is_new_gig, CreateGigPayload, Gig, GigStatus};
use crate::models::link::{all_resolved, LinkProvider, LinkView, StoredView};
use crate::models::notification::{is_notification, Notification, NotificationType};
use crate::models::setlist::{is_new_setlist, Setlist};
use crate::models::song::{is_fork, is_fresh, is_personal, CreateSongPayload, Song, SongWithArtist};
use crate::models::tour::CreateTourPayload;
use crate::models::trash::{trash_permission, TrashType};
use crate::models::user::{is_new_user, Role, Status, User};
use crate::ids::Uuid;
use crate::json::Json;
use crate::text::{is_control, opt_text, texts, trim};
use crate::time::NaiveDateTime;
use crate::validation::{has_errors, ErrorView};
use vstd::prelude::*;

verus! {

/// A new gig is as asked for, confirmed unless said otherwise, and neither
/// shared nor pinned.
pub proof fn new_gigs_are_confirmed(
    g: Gig,
    p: CreateGigPayload,
    user: Uuid,
    id: Uuid,
    now: NaiveDateTime,
)
    requires
        is_new_gig(g, p, user, id, now),
    ensures
        p.status is None ==> g.status == GigStatus::Confirmed,
        p.status matches Some(s) ==> g.status == s,
        g.id == id && g.user_id == user && g.band_id == p.band_id && g.setlist_id == p.setlist_id,
        g.venue@ == p.venue@ && opt_text(g.location) == opt_text(p.location) && opt_text(g.notes)
            == opt_text(p.notes) && g.scheduled_at == p.scheduled_at,
        g.share_token is None && g.share_locked_at is None && !g.is_pinned,
        g.created_at == now && g.updated_at == now,
{
}

/// A new setlist is empty, and neither shared, pinned nor a favorite.
pub proof fn new_setlists_are_empty(
    s: Setlist,
    title: Seq<char>,
    description: Option<Seq<char>>,
    user: Uuid,
    band: Option<Uuid>,
    id: Uuid,
    now: NaiveDateTime,
)
    requires
        is_new_setlist(s, title, description, user, band, id, now),
    ensures
        s.title@ == title && opt_text(s.description) == description,
        s.id == id && s.user_id == user && s.band_id == band,
        s.song_count == 0 && s.total_duration == 0 && s.links@.len() == 0,
        s.share_token is None && s.share_locked_at is None,
        !s.is_favorite && !s.is_pinned && !s.is_repertoire,
        s.created_at == now && s.updated_at == now,
{
}

/// A new band is its creator's and has no logo.
pub proof fn new_bands_are_their_creators(
    b: Band,
    name: Seq<char>,
    slug: Seq<char>,
    description: Option<Seq<char>>,
    creator: Uuid,
    id: Uuid,
    now: NaiveDateTime,
)
    requires
        is_new_band(b, name, slug, description, creator, id, now),
    ensures
        b.name@ == name && b.slug@ == slug && opt_text(b.description) == description,
        b.id == id && b.created_by == Some(creator) && b.logo_url is None,
        b.created_at == now && b.updated_at == now,
{
}

/// A new account is an active user without bans, locks, a second factor or
/// accepted terms, and its address is not verified.
pub proof fn new_accounts_are_active_users(
    u: User,
    username: Seq<char>,
    email: Option<Seq<char>>,
    hash: Seq<char>,
    first: Option<Seq<char>>,
    last: Option<Seq<char>>,
    role: Option<Role>,
    status: Option<Status>,
    id: Uuid,
    now: NaiveDateTime,
)
    requires
        is_new_user(u, username, email, hash, first, last, role, status, id, now),
    ensures
        role is None ==> u.role == Role::User,
        role matches Some(r) ==> u.role == r,
        status is None ==> u.status == Status::Active,
        status matches Some(s) ==> u.status == s,
        u.username@ == username && opt_text(u.email) == email && u.password_hash@ == hash,
        opt_text(u.first_name) == first && opt_text(u.last_name) == last,
        u.banned_at is None && u.banned_until is None && u.locked_until is None
            && u.failed_login_count == 0,
        u.email_verified_at is None && u.terms_accepted_at is None && u.totp_enabled_at is None,
        u.token_version == 0 && !u.must_change_password && u.password_set,
{
}

/// A new song is its user's, as asked for.
pub proof fn new_songs_are_personal(
    s: Song,
    p: CreateSongPayload,
    user: Uuid,
    id: Uuid,
    now: NaiveDateTime,
)
    requires
        is_fresh(s, id, now),
        is_personal(s, p, user),
    ensures
        s.id == id && s.user_id == user && s.band_id is None && s.forked_from is None,
        s.title@ == p.title@ && opt_text(s.lyrics) == opt_text(p.lyrics) && s.tempo == p.tempo
            && s.tonality == p.tonality && s.duration == p.duration && s.genre == p.genre
            && s.artist_id == p.artist_id,
        !s.is_pinned && s.tags@.len() == 0 && s.created_at == now && s.updated_at == now,
{
}

/// A band's copy of a song says where it comes from and keeps what it says.
pub proof fn copies_say_where_they_come_from(
    s: Song,
    source: SongWithArtist,
    band: Uuid,
    artist: Uuid,
    creator: Uuid,
)
    requires
        is_fork(s, source, band, artist, creator),
    ensures
        s.forked_from == Some(source.id) && s.band_id == Some(band) && s.artist_id == artist
            && s.user_id == creator,
        s.title@ == source.title@ && opt_text(s.lyrics) == opt_text(source.lyrics) && s.tempo
            == source.tempo && s.tonality == source.tonality && s.duration == source.duration
            && s.genre == source.genre && texts(s.tags@) == texts(source.tags@),
{
}

/// An artist has a name and an owner.
pub proof fn artists_have_a_name(
    a: Artist,
    id: Uuid,
    name: Seq<char>,
    user: Uuid,
    band: Option<Uuid>,
    now: NaiveDateTime,
)
    requires
        is_artist(a, id, name, user, band, now),
    ensures
        a.id == id && a.name@ == name && a.user_id == user && a.band_id == band && a.created_at
            == now && a.updated_at == now,
{
}

/// A new notification has not been read.
pub proof fn new_notifications_are_unread(
    n: Notification,
    user: Uuid,
    kind: NotificationType,
    data: Json,
)
    requires
        is_notification(n, user, kind, data),
    ensures
        n.read_at is None && n.user_id == user && n.notification_type == kind && n.data@ == data,
{
}

/// A note's author is told where account and name are known.
pub proof fn notes_tell_their_author(n: BandNote, row: BandNoteRow, can_edit: bool)
    requires
        is_note_of(n, row, can_edit),
    ensures
        n.author is Some <==> row.author_id is Some && row.author_username is Some,
        n.author matches Some(a) ==> Some(a.id) == row.author_id && a.username@
            == row.author_username->0@,
        n.can_edit == can_edit && n.content@ == row.content@ && n.color == row.color && n.is_pinned
            == row.is_pinned && n.due_at == row.due_at,
{
}

/// Songs and artists in the trash are for those who manage songs, the rest for
/// those who manage setlists.
pub proof fn the_trash_is_for_those_who_manage()
    ensures
        trash_permission(TrashType::Song) == BandPermission::ManageSongs,
        trash_permission(TrashType::Artist) == BandPermission::ManageSongs,
        trash_permission(TrashType::Setlist) == BandPermission::ManageSetlists,
        trash_permission(TrashType::Gig) == BandPermission::ManageSetlists,
        trash_permission(TrashType::Tour) == BandPermission::ManageSetlists,
{
}

/// A tour has a name of one line and does not end before it starts.
pub proof fn tours_end_after_they_start(p: CreateTourPayload, description: Option<ErrorView>)
    ensures
        !has_errors(p.broken_rules(description)) <==> 1 <= trim(p.name@).len() <= 120 && (forall|
            i: int,
        |
            0 <= i < p.name@.len() ==> !is_control(#[trigger] p.name@[i])) && description is None
            && p.start_date@ <= p.end_date@,
{
}

/// A backup within all bounds is accepted.
pub proof fn backups_within_bounds_are_accepted(
    file: BackupFile,
    max_lyrics: int,
    max_description: int,
)
    requires
        file.version == 1,
        file.artists@.len() <= 20_000,
        file.songs@.len() <= 20_000,
        file.setlists@.len() <= 20_000,
        file.gigs@.len() <= 20_000,
        forall|i: int|
            0 <= i < file.artists@.len() ==> 1 <= trim((#[trigger] file.artists@[i]).name@).len()
                <= 255,
        forall|i: int|
            0 <= i < file.songs@.len() ==> 1 <= trim((#[trigger] file.songs@[i]).title@).len()
                <= 255 && (file.songs@[i].lyrics matches Some(x) ==> x@.len() <= max_lyrics) && (
            file.songs@[i].tempo matches Some(t) ==> 1 <= t <= 500) && (
            file.songs@[i].duration matches Some(d) ==> 1 <= d <= 7_200),
        forall|i: int|
            0 <= i < file.setlists@.len() ==> 1 <= trim((#[trigger] file.setlists@[i]).title@).len()
                <= 255 && (file.setlists@[i].description matches Some(x) ==> x@.len()
                <= max_description),
        forall|i: int|
            0 <= i < file.gigs@.len() ==> 1 <= trim((#[trigger] file.gigs@[i]).venue@).len() <= 255
                && (file.gigs@[i].notes matches Some(x) ==> x@.len() <= max_description),
    ensures
        file.problem(max_lyrics, max_description) is None,
{
    lemma_artists(file, 0, max_lyrics, max_description);
    lemma_songs(file, 0, max_lyrics, max_description);
    lemma_setlists(file, 0, max_lyrics, max_description);
    lemma_gigs(file, 0, max_lyrics, max_description);
}

proof fn lemma_artists(file: BackupFile, i: int, max_lyrics: int, max_description: int)
    requires
        0 <= i <= file.artists@.len(),
        forall|i: int|
            0 <= i < file.artists@.len() ==> bounded((#[trigger] file.artists@[i]).name@, 255),
    ensures
        crate::models::backup::artists_problem(file.artists@, i, max_lyrics, max_description) is None,
    decreases file.artists@.len() - i,
{
    if i < file.artists@.len() {
        assert(bounded(file.artists@[i].name@, 255));
        lemma_artists(file, i + 1, max_lyrics, max_description);
    }
}

proof fn lemma_songs(file: BackupFile, i: int, max_lyrics: int, max_description: int)
    requires
        0 <= i <= file.songs@.len(),
        forall|i: int|
            0 <= i < file.songs@.len() ==> crate::models::backup::song_problem(
                #[trigger] file.songs@[i],
                max_lyrics,
                max_description,
            ) is None,
    ensures
        crate::models::backup::songs_problem(file.songs@, i, max_lyrics, max_description) is None,
    decreases file.songs@.len() - i,
{
    if i < file.songs@.len() {
        assert(crate::models::backup::song_problem(file.songs@[i], max_lyrics, max_description)
            is None);
        lemma_songs(file, i + 1, max_lyrics, max_description);
    }
}

proof fn lemma_setlists(file: BackupFile, i: int, max_lyrics: int, max_description: int)
    requires
        0 <= i <= file.setlists@.len(),
        forall|i: int|
            0 <= i < file.setlists@.len() ==> crate::models::backup::setlist_problem(
                #[trigger] file.setlists@[i],
                max_lyrics,
                max_description,
            ) is None,
    ensures
        crate::models::backup::setlists_problem(file.setlists@, i, max_lyrics, max_description)
            is None,
    decreases file.setlists@.len() - i,
{
    if i < file.setlists@.len() {
        assert(crate::models::backup::setlist_problem(
            file.setlists@[i],
            max_lyrics,
            max_description,
        ) is None);
        lemma_setlists(file, i + 1, max_lyrics, max_description);
    }
}

proof fn lemma_gigs(file: BackupFile, i: int, max_lyrics: int, max_description: int)
    requires
        0 <= i <= file.gigs@.len(),
        forall|i: int|
            0 <= i < file.gigs@.len() ==> crate::models::backup::gig_problem(
                #[trigger] file.gigs@[i],
                max_lyrics,
                max_description,
            ) is None,
    ensures
        crate::models::backup::gigs_problem(file.gigs@, i, max_lyrics, max_description) is None,
    decreases file.gigs@.len() - i,
{
    if i < file.gigs@.len() {
        assert(crate::models::backup::gig_problem(file.gigs@[i], max_lyrics, max_description)
            is None);
        lemma_gigs(file, i + 1, max_lyrics, max_description);
    }
}

/// Only backups of the present format are read.
pub proof fn only_the_present_format_is_read(
    file: BackupFile,
    max_lyrics: int,
    max_description: int,
)
    requires
        file.version != 1,
    ensures
        file.problem(max_lyrics, max_description) is Some,
{
}

/// Every stored link of a known provider is shown, in order, and no other.
pub proof fn links_of_known_providers_are_shown(
    stored: Seq<StoredView>,
    providers: Seq<Option<LinkProvider>>,
    s: StoredView,
    p: Option<LinkProvider>,
)
    requires
        providers.len() == stored.len(),
    ensures
        all_resolved(stored.push(s), providers.push(p)) == match p {
            Some(x) => all_resolved(stored, providers).push(
                LinkView { url: s.url, label: s.label, provider: x },
            ),
            None => all_resolved(stored, providers),
        },
        all_resolved(seq![], seq![]).len() == 0,
{
    assert(stored.push(s).drop_last() =~= stored);
    lemma_resolved(stored, providers, p);
}

proof fn lemma_resolved(
    stored: Seq<StoredView>,
    providers: Seq<Option<LinkProvider>>,
    p: Option<LinkProvider>,
)
    requires
        providers.len() >= stored.len(),
    ensures
        all_resolved(stored, providers.push(p)) == all_resolved(stored, providers),
    decreases stored.len(),
{
    if stored.len() > 0 {
        lemma_resolved(stored.drop_last(), providers, p);
    }
}

proof fn lemma_place(s: Seq<SegmentView>, w: Seq<Widths>, space: int, j: int)
    requires
        0 <= j < s.len(),
    ensures
        place(s, w, space).starts.len() == s.len(),
        place(s, w, space).starts[j] == place(s.take(j + 1), w, space).starts[j],
    decreases s.len(),
{
    if j < s.len() - 1 {
        lemma_place(s.drop_last(), w, space, j);
        assert(s.drop_last().take(j + 1) =~= s.take(j + 1));
    } else {
        assert(s.take(j + 1) =~= s);
        if s.len() > 1 {
            lemma_place(s.drop_last(), w, space, s.len() - 2);
        } else {
            assert(s.drop_last() =~= Seq::<SegmentView>::empty());
            assert(place(Seq::<SegmentView>::empty(), w, space).starts =~= seq![]);
        }
    }
}

/// A line starts at its margin, and a piece without a chord follows the text
/// before it.
pub proof fn lyrics_follow_one_another(s: Seq<SegmentView>, w: Seq<Widths>, space: int, j: int)
    requires
        0 <= j < s.len(),
        w.len() >= s.len(),
    ensures
        place(s, w, space).starts[0] == 0,
        j > 0 && s[j].0 is None ==> place(s, w, space).starts[j] == place(s, w, space).starts[j - 1]
            + w[j - 1].text,
        j > 0 ==> place(s, w, space).starts[j] >= place(s, w, space).starts[j - 1] + w[j - 1].text,
{
    lemma_place(s, w, space, 0);
    assert(s.take(1).drop_last() =~= Seq::<SegmentView>::empty());
    assert(place(Seq::<SegmentView>::empty(), w, space).starts =~= seq![]);
    assert(place(s.take(1), w, space).starts[0] == 0);
    lemma_place(s, w, space, j);
    if j > 0 {
        lemma_place(s, w, space, j - 1);
        let t = s.take(j + 1);
        assert(t.drop_last() =~= s.take(j));
        lemma_place(s.take(j), w, space, j - 1);
        assert(s.take(j).take(j) =~= s.take(j));
        assert(s.take(j).drop_last().len() == j - 1);
        if j > 1 {
            lemma_place(s.take(j).drop_last(), w, space, j - 2);
        } else {
            assert(s.take(j).drop_last() =~= Seq::<SegmentView>::empty());
        }
    }
}

proof fn lemma_chord_end(s: Seq<SegmentView>, w: Seq<Widths>, space: int, i: int)
    requires
        0 <= i < s.len(),
        s[i].0 is Some,
        forall|k: int| i < k < s.len() ==> (#[trigger] s[k]).0 is None,
    ensures
        place(s, w, space).chord_end == place(s, w, space).starts[i] + w[i].chord + space,
    decreases s.len(),
{
    lemma_place(s, w, space, i);
    if i < s.len() - 1 {
        assert(s[s.len() - 1].0 is None);
        lemma_chord_end(s.drop_last(), w, space, i);
        lemma_place(s.drop_last(), w, space, i);
    } else if s.len() > 1 {
        lemma_place(s.drop_last(), w, space, s.len() - 2);
    } else {
        assert(s.drop_last() =~= Seq::<SegmentView>::empty());
    }
}

/// A piece with a chord follows the text before it, or the chord before it
/// where that reaches further.
pub proof fn chords_push_each_other_no_further_than_needed(
    s: Seq<SegmentView>,
    w: Seq<Widths>,
    space: int,
    i: int,
    j: int,
)
    requires
        w.len() >= s.len(),
        0 <= i < j < s.len(),
        s[i].0 is Some,
        s[j].0 is Some,
        forall|k: int| i < k < j ==> (#[trigger] s[k]).0 is None,
    ensures
        ({
            let x = place(s, w, space).starts;
            let text = x[j - 1] + w[j - 1].text;
            let chord = x[i] + w[i].chord + space;
            x[j] == if text < chord {
                chord
            } else {
                text
            }
        }),
{
    lemma_place(s, w, space, j);
    lemma_place(s, w, space, i);
    lemma_place(s, w, space, j - 1);
    let t = s.take(j + 1);
    let u = s.take(j);
    assert(t.drop_last() =~= u);
    lemma_chord_end(u, w, space, i);
    lemma_place(u, w, space, i);
    lemma_place(u, w, space, j - 1);
    assert(u.take(i + 1) =~= s.take(i + 1));
    assert(u.take(j) =~= s.take(j));
    if j > 1 {
        lemma_place(u.drop_last(), w, space, j - 2);
    }
}

} // verus!
