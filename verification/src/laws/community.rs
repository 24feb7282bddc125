//! Announcements, suggestions, preferences, notifications, quotas, releases.

use crate::json::{bool_member, compact_json, member, Json};
use crate::models::announcement::{
    distinct_entries, is_audience_role, is_cta_url, is_solid, status_at, url_parts, Announcement,
    AnnouncementDraft, AnnouncementStatus, AUDIENCE_ROLES,
};
use crate::models::auth::access::redacted;
use crate::models::communication::{
    category_key, default_prefs, effective, stored_prefs_in, Category,
};
use crate::models::moderation::{current_value_of, ModerationFlagRow, ModerationTarget};
use crate::models::notification::{
    band_role_changed_data, notification_category, platform_role_changed_data, NotificationType,
};
use crate::models::page::{page_of, pages_of, per_page_of};
use crate::models::quota::{
    limit_error, limit_on, override_on, QuotaLimits, QuotaOverrides, QuotaResource,
};
use crate::models::release_note::{
    edited, first_item_error, is_item_kind, item_error, items_error, stored_item, stored_items,
    ItemView, ITEM_KINDS,
};
use crate::models::suggestion::{
    auto_accepted, filter_status, vote_error, SuggestionFilter, SuggestionStatus,
};
use crate::models::user::Role;
use crate::models::band::BandRole;
use crate::models::user_preferences::{
    deepest, deepest_member, depth, is_merge, is_supported_language, settings_error,
};
use crate::text::{opt_text, texts, trim};
use crate::time::{second_of, nanos_of, shifted, NaiveDateTime};
use crate::ids::Uuid;
use vstd::prelude::*;

verus! {

// ---------------------------------------------------------------------
// Announcements
// ---------------------------------------------------------------------

/// An announcement is a draft until it is published, is shown from its start
/// until its end, and is archived for good.
pub proof fn announcements_are_shown_from_start_to_end(a: Announcement, now: int)
    ensures
        status_at(a, now) == AnnouncementStatus::Archived <==> a.archived_at is Some,
        status_at(a, now) == AnnouncementStatus::Draft <==> a.archived_at is None && a.published_at
            is None,
        status_at(a, now) == AnnouncementStatus::Active <==> a.archived_at is None && a.published_at
            is Some && (a.starts_at is None || a.starts_at->0@ <= now) && (a.ends_at is None || now
            < a.ends_at->0@),
        status_at(a, now) == AnnouncementStatus::Scheduled <==> a.archived_at is None
            && a.published_at is Some && a.starts_at is Some && now < a.starts_at->0@,
        status_at(a, now) == AnnouncementStatus::Ended <==> a.archived_at is None && a.published_at
            is Some && (a.starts_at is None || a.starts_at->0@ <= now) && a.ends_at is Some
            && a.ends_at->0@ <= now,
{
}

/// A draft is accepted when its title has 3 to 120 characters and its text 1 to
/// 5000, its button is complete or missing, its audience is known, it ends after
/// it starts, and it goes out somewhere: by a modal, where it has to be
/// acknowledged.
pub proof fn drafts_are_complete(d: AnnouncementDraft)
    ensures
        d.problem() is None <==> {
            &&& 3 <= trim(d.title@).len() <= 120
            &&& 1 <= trim(d.body@).len() <= 5_000
            &&& d.cta_label is Some <==> d.cta_url is Some
            &&& d.cta_label matches Some(l) ==> 1 <= trim(l@).len() <= 40
            &&& d.cta_url matches Some(u) ==> is_cta_url(u@)
            &&& d.audience_roles matches Some(v) ==> forall|i: int|
                0 <= i < texts(v@).len() ==> is_audience_role(#[trigger] texts(v@)[i])
            &&& d.audience_locales matches Some(v) ==> forall|i: int|
                0 <= i < texts(v@).len() ==> is_supported_language(#[trigger] texts(v@)[i])
            &&& d.starts_at is Some && d.ends_at is Some ==> d.starts_at->0@ < d.ends_at->0@
            &&& d.show_modal || d.show_banner || d.send_notification || d.send_email
            &&& d.requires_acknowledgement ==> d.show_modal
        },
{
}

/// A button leads to a path of the app, or to an `https` address without a user:
/// never to another host in disguise.
pub proof fn buttons_lead_to_the_app_or_to_https(url: Seq<char>)
    ensures
        is_cta_url(url) ==> url.len() <= 500,
        is_cta_url(url) ==> forall|i: int|
            0 <= i < url.len() ==> !crate::text::is_space(#[trigger] url[i])
                && !crate::text::is_control(url[i]),
        url.len() >= 2 && url[0] == '/' && (url[1] == '/' || url[1] == '\\') ==> !is_cta_url(url),
        is_cta_url(url) && (url.len() == 0 || url[0] != '/') ==> match url_parts(url) {
            Some((scheme, domain, user, password)) => scheme == "https"@ && domain && user.len()
                == 0 && !password,
            None => false,
        },
        1 <= url.len() <= 500 && is_solid(url) && url[0] == '/' && (url.len() == 1 || url[1] != '/'
            && url[1] != '\\') ==> is_cta_url(url),
{
}

/// The roles an announcement may be for.
pub proof fn audiences_are_of_known_roles(s: Seq<char>)
    ensures
        is_audience_role(s) <==> s == "user"@ || s == "moderator"@ || s == "admin"@,
{
    assert(AUDIENCE_ROLES@[0]@ == "user"@ && AUDIENCE_ROLES@[1]@ == "moderator"@
        && AUDIENCE_ROLES@[2]@ == "admin"@);
}

/// Every entry of an audience that says something is kept, without the blanks
/// around it, and nothing else is.
pub proof fn every_entry_of_an_audience_is_kept(list: Seq<Seq<char>>, t: Seq<char>)
    ensures
        distinct_entries(list).contains(t) <==> t.len() > 0 && exists|i: int|
            0 <= i < list.len() && trim(#[trigger] list[i]) == t,
    decreases list.len(),
{
    let all = distinct_entries(list);
    if list.len() > 0 {
        let front = list.drop_last();
        every_entry_of_an_audience_is_kept(front, t);
        let before = distinct_entries(front);
        let item = trim(list.last());
        every_entry_of_an_audience_is_kept(front, item);
        if before.contains(t) {
            let k = choose|k: int| 0 <= k < before.len() && before[k] == t;
            assert(all[k] == t);
            let i = choose|i: int| 0 <= i < front.len() && trim(#[trigger] front[i]) == t;
            assert(list[i] == front[i]);
        }
        if t == item && t.len() > 0 {
            assert(list[list.len() - 1] == list.last());
            if !before.contains(item) {
                assert(all[before.len() as int] == t);
            }
        }
        if all.contains(t) {
            let k = choose|k: int| 0 <= k < all.len() && all[k] == t;
            if k < before.len() {
                assert(before[k] == t);
            }
        }
        if t.len() > 0 && exists|i: int| 0 <= i < list.len() && trim(#[trigger] list[i]) == t {
            let i = choose|i: int| 0 <= i < list.len() && trim(#[trigger] list[i]) == t;
            if i < front.len() {
                assert(front[i] == list[i]);
            }
        }
    } else {
        assert(all.len() == 0);
    }
}

// ---------------------------------------------------------------------
// Suggestions
// ---------------------------------------------------------------------

/// A suggestion is taken on by votes where there is a threshold, once as many are
/// for it, and more than are against it.
pub proof fn suggestions_are_taken_on_by_votes(threshold: Option<i32>, up: int, down: int)
    ensures
        threshold is None ==> !auto_accepted(threshold, up, down),
        threshold matches Some(t) ==> (auto_accepted(threshold, up, down) <==> 0 < t <= up && down
            < up),
        vote_error(up) is None <==> up == 1 || up == -1,
{
}

/// A filter shows the suggestions of its status, or all of them.
pub proof fn filters_show_their_status(f: SuggestionFilter)
    ensures
        filter_status(f) is None <==> f == SuggestionFilter::All,
        filter_status(SuggestionFilter::Open) == Some(SuggestionStatus::Open),
        filter_status(SuggestionFilter::Accepted) == Some(SuggestionStatus::Accepted),
        filter_status(SuggestionFilter::Rejected) == Some(SuggestionStatus::Rejected),
        filter_status(SuggestionFilter::Withdrawn) == Some(SuggestionStatus::Withdrawn),
{
}

// ---------------------------------------------------------------------
// Preferences
// ---------------------------------------------------------------------

/// Unless something else is stored, mail goes out on security, the account and
/// announcements, and all but marketing is shown in the app. What concerns
/// security cannot be switched off.
pub proof fn what_goes_out_by_default(c: Category, v: Json)
    ensures
        default_prefs(c).email <==> c == Category::Security || c == Category::Account || c
            == Category::Announcements,
        default_prefs(c).in_app <==> c != Category::Marketing,
        effective(v, Category::Security) == default_prefs(Category::Security),
        effective(v, Category::Security).email && effective(v, Category::Security).in_app,
        v !is Object ==> effective(v, c) == default_prefs(c),
{
}

/// A stored switch counts where it is one, and the default where it is not.
pub proof fn stored_switches_count(
    m: Seq<(Seq<char>, Json)>,
    c: Category,
    stored: Json,
)
    requires
        m == seq![(category_key(c), stored)],
    ensures
        bool_member(stored, "email"@) matches Some(b) ==> stored_prefs_in(m, c).email == b,
        bool_member(stored, "in_app"@) matches Some(b) ==> stored_prefs_in(m, c).in_app == b,
        bool_member(stored, "email"@) is None ==> stored_prefs_in(m, c).email == default_prefs(
            c,
        ).email,
        bool_member(stored, "in_app"@) is None ==> stored_prefs_in(m, c).in_app == default_prefs(
            c,
        ).in_app,
{
    let none: Seq<(Seq<char>, Json)> = seq![];
    assert(m.drop_last() =~= none);
    assert(stored_prefs_in(none, c) == default_prefs(c));
    assert(m.last() == (category_key(c), stored));
}

/// Switches stored for one category change no other.
pub proof fn categories_do_not_change_each_other(
    m: Seq<(Seq<char>, Json)>,
    e: (Seq<char>, Json),
    c: Category,
)
    requires
        e.0 != category_key(c),
    ensures
        stored_prefs_in(m.push(e), c) == stored_prefs_in(m, c),
{
    assert(m.push(e).drop_last() =~= m);
}

/// Settings are accepted when they are an object of at most 16,384 bytes that is
/// nested at most six deep.
pub proof fn settings_are_small_and_flat(v: Json)
    ensures
        settings_error(v) is None <==> v is Object && vstd::utf8::encode_utf8(compact_json(v)).len()
            <= 16_384 && depth(v) <= 6,
{
}

/// A value in an object or a list is nested less deep than what holds it, and a
/// plain value is not nested.
pub proof fn nesting_counts_every_level(v: Json, i: int)
    ensures
        v matches Json::Object(m) ==> depth(v) >= 1 && (0 <= i < m.len() ==> depth(m[i].1)
            < depth(v)) && (m.len() == 0 ==> depth(v) == 1),
        v matches Json::Array(a) ==> depth(v) >= 1 && (0 <= i < a.len() ==> depth(a[i]) < depth(v))
            && (a.len() == 0 ==> depth(v) == 1),
        v !is Object && v !is Array ==> depth(v) == 0,
{
    match v {
        Json::Object(m) => {
            if 0 <= i < m.len() {
                lemma_deepest_member(m, 0, i);
            }
        },
        Json::Array(a) => {
            if 0 <= i < a.len() {
                lemma_deepest(a, 0, i);
            }
        },
        _ => {},
    }
}

proof fn lemma_deepest_member(m: Seq<(Seq<char>, Json)>, k: int, i: int)
    requires
        0 <= k <= i < m.len(),
    ensures
        depth(m[i].1) <= deepest_member(m, k),
    decreases i - k,
{
    if k < i {
        lemma_deepest_member(m, k + 1, i);
    }
}

proof fn lemma_deepest(a: Seq<Json>, k: int, i: int)
    requires
        0 <= k <= i < a.len(),
    ensures
        depth(a[i]) <= deepest(a, k),
    decreases i - k,
{
    if k < i {
        lemma_deepest(a, k + 1, i);
    }
}

/// Merging settings sets what the patch gives, removes what it gives as null and
/// keeps the rest.
pub proof fn patches_set_remove_and_keep(base: Json, patch: Json, m: Json, key: Seq<char>)
    requires
        is_merge(m, base, patch),
    ensures
        member(patch, key) is None ==> member(m, key) == member(base, key),
        member(patch, key) == Some(Json::Null) ==> member(m, key) is None,
        member(patch, key) is Some && member(patch, key) != Some(Json::Null) ==> member(m, key)
            == member(patch, key),
{
}

// ---------------------------------------------------------------------
// Notifications
// ---------------------------------------------------------------------

/// What a notification is about.
pub proof fn notifications_have_their_category(k: NotificationType)
    ensures
        notification_category(k) == Category::Security <==> k == NotificationType::SecurityAlert,
        notification_category(k) == Category::Announcements <==> k
            == NotificationType::Announcement,
        notification_category(k) == Category::ProductUpdates <==> k
            == NotificationType::ReleasePublished,
        notification_category(k) == Category::Bands <==> k == NotificationType::BandRoleChanged || k
            == NotificationType::BandMemberRemoved || k == NotificationType::BandMemberAdded || k
            == NotificationType::BandSuggestionCreated || k
            == NotificationType::BandSuggestionResolved,
        notification_category(k) != Category::Marketing,
{
}

/// A notification of a new role tells the old role, the new one and who changed
/// it.
pub proof fn role_changes_tell_both_roles(
    band: Uuid,
    name: &str,
    old_role: BandRole,
    new_role: BandRole,
    was: Role,
    is: Role,
    actor: Uuid,
)
    ensures
        band_role_changed_data(band, name, old_role, new_role, actor) matches Json::Object(m)
            && m.contains(
            ("old_role"@, Json::Text(crate::models::band::band_role_key(old_role))),
        ) && m.contains(("new_role"@, Json::Text(crate::models::band::band_role_key(new_role))))
            && m.contains(("actor_id"@, Json::Text(crate::ids::id_text(actor)))) && m.contains(
            ("band_id"@, Json::Text(crate::ids::id_text(band))),
        ) && m.contains(("band_name"@, Json::Text(name@))) && m.len() == 5,
        platform_role_changed_data(was, is, actor) matches Json::Object(m) && m.contains(
            ("old_role"@, Json::Text(crate::models::user::role_key(was))),
        ) && m.contains(("new_role"@, Json::Text(crate::models::user::role_key(is)))) && m.contains(
            ("actor_id"@, Json::Text(crate::ids::id_text(actor))),
        ) && m.len() == 3,
{
    if let Json::Object(m) = band_role_changed_data(band, name, old_role, new_role, actor) {
        assert(m[4] == ("old_role"@, Json::Text(crate::models::band::band_role_key(old_role))));
        assert(m[3] == ("new_role"@, Json::Text(crate::models::band::band_role_key(new_role))));
        assert(m[0] == ("actor_id"@, Json::Text(crate::ids::id_text(actor))));
        assert(m[1] == ("band_id"@, Json::Text(crate::ids::id_text(band))));
        assert(m[2] == ("band_name"@, Json::Text(name@)));
    }
    if let Json::Object(m) = platform_role_changed_data(was, is, actor) {
        assert(m[2] == ("old_role"@, Json::Text(crate::models::user::role_key(was))));
        assert(m[1] == ("new_role"@, Json::Text(crate::models::user::role_key(is))));
        assert(m[0] == ("actor_id"@, Json::Text(crate::ids::id_text(actor))));
    }
}

// ---------------------------------------------------------------------
// Moderation, quotas, pages
// ---------------------------------------------------------------------

/// A flag shows the present value of what was flagged.
pub proof fn flags_show_the_present_value(row: ModerationFlagRow)
    ensures
        row.target_type == ModerationTarget::Avatar ==> current_value_of(row) == opt_text(
            row.user_avatar_url,
        ),
        row.target_type == ModerationTarget::BandLogo ==> current_value_of(row) == opt_text(
            row.band_logo_url,
        ),
        row.target_type == ModerationTarget::Username || row.target_type
            == ModerationTarget::Profile ==> current_value_of(row) == Some(row.username@),
{
}

/// A limit is from nothing to a million; each resource has its own.
pub proof fn every_resource_has_its_limit(l: QuotaLimits, o: QuotaOverrides, n: int)
    ensures
        limit_error(n) is None <==> 0 <= n <= 1_000_000,
        limit_on(l, QuotaResource::Songs) == l.songs && limit_on(l, QuotaResource::Artists)
            == l.artists && limit_on(l, QuotaResource::Setlists) == l.setlists && limit_on(
            l,
            QuotaResource::Gigs,
        ) == l.gigs && limit_on(l, QuotaResource::Tags) == l.tags && limit_on(
            l,
            QuotaResource::BandsOwned,
        ) == l.bands_owned,
        limit_on(l, QuotaResource::BandMemberships) == l.band_memberships && limit_on(
            l,
            QuotaResource::BandMembers,
        ) == l.band_members && limit_on(l, QuotaResource::BandSetlists) == l.band_setlists
            && limit_on(l, QuotaResource::BandGigs) == l.band_gigs && limit_on(
            l,
            QuotaResource::BandSongs,
        ) == l.band_songs && limit_on(l, QuotaResource::SetlistItems) == l.setlist_items,
        override_on(o, QuotaResource::Songs) == o.songs && override_on(o, QuotaResource::Artists)
            == o.artists && override_on(o, QuotaResource::Setlists) == o.setlists && override_on(
            o,
            QuotaResource::Gigs,
        ) == o.gigs && override_on(o, QuotaResource::Tags) == o.tags && override_on(
            o,
            QuotaResource::BandsOwned,
        ) == o.bands_owned,
        override_on(o, QuotaResource::BandMemberships) == o.band_memberships && override_on(
            o,
            QuotaResource::BandMembers,
        ) == o.band_members && override_on(o, QuotaResource::BandSetlists) == o.band_setlists
            && override_on(o, QuotaResource::BandGigs) == o.band_gigs && override_on(
            o,
            QuotaResource::BandSongs,
        ) == o.band_songs && override_on(o, QuotaResource::SetlistItems) == o.setlist_items,
{
}

/// A page is the one that is asked for, from 1 to 1000, and holds as many items
/// as are asked for, from 1 to 100.
pub proof fn pages_are_as_asked_for(page: Option<i64>, per_page: Option<i64>, default: int)
    ensures
        page is None ==> page_of(page) == 1,
        page matches Some(n) ==> (1 <= n <= 1_000 ==> page_of(page) == n) && (n < 1 ==> page_of(page)
            == 1) && (n > 1_000 ==> page_of(page) == 1_000),
        per_page is None && 1 <= default <= 100 ==> per_page_of(per_page, default) == default,
        per_page matches Some(n) ==> (1 <= n <= 100 ==> per_page_of(per_page, default) == n) && (n
            < 1 ==> per_page_of(per_page, default) == 1) && (n > 100 ==> per_page_of(
            per_page,
            default,
        ) == 100),
        pages_of(0, 20) == 0,
{
}

// ---------------------------------------------------------------------
// Releases
// ---------------------------------------------------------------------

/// A release is edited when it was changed more than a minute after it was
/// published.
pub proof fn releases_are_edited_after_a_minute(
    published_at: Option<NaiveDateTime>,
    updated_at: NaiveDateTime,
)
    ensures
        published_at is None ==> !edited(published_at, updated_at),
        published_at matches Some(p) ==> (second_of(updated_at@) > second_of(p@) + 60 ==> edited(
            published_at,
            updated_at,
        )) && (second_of(updated_at@) < second_of(p@) + 60 ==> !edited(published_at, updated_at)),
{
    if let Some(p) = published_at {
        let s = shifted(p@, 60);
        let u = updated_at@;
        assert(s == second_of(s) * 2_000_000_000 + nanos_of(s));
        assert(u == second_of(u) * 2_000_000_000 + nanos_of(u));
        assert(second_of(s) == second_of(p@) + 60);
    }
}

/// The kinds of items of a release, and how many there may be.
pub proof fn releases_have_known_items(items: Seq<ItemView>, kind: Seq<char>)
    ensures
        is_item_kind(kind) <==> kind == "new"@ || kind == "improved"@ || kind == "fixed"@ || kind
            == "security"@,
        items_error(items) is None <==> 1 <= items.len() <= 40 && forall|i: int|
            0 <= i < items.len() ==> item_error(#[trigger] items[i]) is None,
        forall|item: ItemView| #[trigger] item_error(item) is None ==> is_item_kind(item.kind),
{
    assert(ITEM_KINDS@[0]@ == "new"@ && ITEM_KINDS@[1]@ == "improved"@ && ITEM_KINDS@[2]@
        == "fixed"@ && ITEM_KINDS@[3]@ == "security"@);
    lemma_items(items, 0);
}

proof fn lemma_items(items: Seq<ItemView>, i: int)
    requires
        0 <= i,
    ensures
        first_item_error(items, i) is None <==> forall|k: int|
            i <= k < items.len() ==> item_error(#[trigger] items[k]) is None,
    decreases items.len() - i,
{
    if i < items.len() {
        lemma_items(items, i + 1);
    }
}

/// Stored items are read when all of them can be, each as it was stored; when
/// one cannot, none is.
pub proof fn stored_items_are_read_together(a: Seq<Json>)
    ensures
        (forall|i: int| 0 <= i < a.len() ==> stored_item(#[trigger] a[i]) is Some) ==> stored_items(
            Json::Array(a),
        ).len() == a.len() && forall|i: int|
            0 <= i < a.len() ==> stored_item(#[trigger] a[i]) == Some(
                stored_items(Json::Array(a))[i],
            ),
        (exists|i: int| 0 <= i < a.len() && stored_item(#[trigger] a[i]) is None) ==> stored_items(
            Json::Array(a),
        ).len() == 0,
{
}

// ---------------------------------------------------------------------
// Secrets
// ---------------------------------------------------------------------

/// An answer for somebody who only looks keeps all of its members, in their
/// order, and everything that is no secret.
pub proof fn redacted_answers_keep_the_rest(v: Json, invite_codes: bool, i: int)
    ensures
        v matches Json::Object(m) ==> {
            let r = redacted(v, invite_codes)->Object_0;
            &&& redacted(v, invite_codes) is Object
            &&& r.len() == m.len()
            &&& 0 <= i < m.len() ==> r[i].0 == m[i].0
            &&& 0 <= i < m.len() && m[i].0 != "share_token"@ && !(invite_codes && m[i].0 == "code"@
                && m[i].1 is Text) ==> r[i].1 == redacted(m[i].1, invite_codes)
        },
        v matches Json::Array(a) ==> {
            let r = redacted(v, invite_codes)->Array_0;
            &&& redacted(v, invite_codes) is Array
            &&& r.len() == a.len()
            &&& 0 <= i < a.len() ==> r[i] == redacted(a[i], invite_codes)
        },
        v !is Object && v !is Array ==> redacted(v, invite_codes) == v,
{
}

} // verus!
