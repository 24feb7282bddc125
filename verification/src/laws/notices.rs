//! What notifications say.

use crate::email::notices::{
    ACCEPTED, ADMINISTRATOR, ANNOUNCEMENT_LINE, AVATAR_LINE, AVATAR_TITLE, BAND_ADMIN,
    BAND_MODERATOR, CREDITS_PROMO, CREDITS_REFERRED, CREDITS_REFERRER, CREDITS_TEAM, DECLINED,
    LINK_GIG_LINE, LINK_REASON, LINK_SETLIST_LINE, LOGO_LINE, LOGO_TITLE, MEMBER, MODERATOR, OWNER,
    USER, USERNAME_LINE, USERNAME_TITLE, WITHDRAWN,
};
use crate::email::notification_text::{
    amount_in, band_role, credits_reason, moderation_line, moderation_title, notice_of,
    platform_role, resolution, revoked_lines, with_remark,
};
use crate::email::templates::{fill, say, Locale};
use crate::json::{text_member, Json};
use crate::models::notification::NotificationType;
use crate::text::{lemma_replace_passes, number, replace, starts_with};
use vstd::prelude::*;

verus! {

/// Notifications on a band lead to it, the others to their own place.
pub proof fn notifications_lead_to_their_place(kind: NotificationType, data: Json, l: Locale)
    ensures
        ({
            let path = notice_of(kind, data, l).cta_path;
            match kind {
                NotificationType::BandRoleChanged
                | NotificationType::BandMemberAdded
                | NotificationType::BandSuggestionCreated
                | NotificationType::BandSuggestionResolved => path == match text_member(
                    data,
                    "band_id"@,
                ) {
                    Some(id) => Some("/dashboard/bands/"@ + id),
                    None => None,
                },
                NotificationType::BandMemberRemoved => path == Some("/dashboard/bands"@),
                NotificationType::PlatformRoleChanged
                | NotificationType::ShareLinkRevoked => path == Some("/dashboard"@),
                NotificationType::Announcement => path == Some("/dashboard/announcements"@),
                NotificationType::ReleasePublished => path == Some("/dashboard/whats-new"@),
                NotificationType::ModerationAction => path == Some("/dashboard/profile"@),
                NotificationType::CreditsGranted
                | NotificationType::SubscriptionChanged
                | NotificationType::TrialEnding
                | NotificationType::SecurityAlert => path == Some("/dashboard/settings"@),
            }
        }),
{
}

/// Roles in a band have their names, and what is no role stays as it is.
pub proof fn roles_in_a_band_have_their_names(l: Locale, role: Seq<char>)
    ensures
        role == "owner"@ ==> band_role(l, role) == say(l, OWNER),
        role == "admin"@ ==> band_role(l, role) == say(l, BAND_ADMIN),
        role == "moderator"@ ==> band_role(l, role) == say(l, BAND_MODERATOR),
        role == "member"@ ==> band_role(l, role) == say(l, MEMBER),
        role != "owner"@ && role != "admin"@ && role != "moderator"@ && role != "member"@
            ==> band_role(l, role) == role,
        role == "admin"@ ==> platform_role(l, role) == say(l, ADMINISTRATOR),
        role == "moderator"@ ==> platform_role(l, role) == say(l, MODERATOR),
        role == "user"@ ==> platform_role(l, role) == say(l, USER),
        role != "admin"@ && role != "moderator"@ && role != "user"@ ==> platform_role(l, role)
            == role,
{
    reveal_strlit("owner");
    reveal_strlit("admin");
    reveal_strlit("moderator");
    reveal_strlit("member");
    reveal_strlit("user");
    assert("owner"@.len() == 5 && "admin"@.len() == 5 && "moderator"@.len() == 9 && "member"@.len()
        == 6 && "user"@.len() == 4);
    assert("owner"@[0] == 'o' && "admin"@[0] == 'a');
}

/// Accepted suggestions are told as accepted, rejected ones as declined, and
/// the others as withdrawn.
pub proof fn resolutions_are_told(data: Json, l: Locale)
    ensures
        text_member(data, "status"@) == Some("accepted"@) ==> resolution(data, l) == say(
            l,
            ACCEPTED,
        ),
        text_member(data, "status"@) == Some("rejected"@) ==> resolution(data, l) == say(
            l,
            DECLINED,
        ),
        text_member(data, "status"@) != Some("accepted"@) && text_member(data, "status"@) != Some(
            "rejected"@,
        ) ==> resolution(data, l) == say(l, WITHDRAWN),
{
    reveal_strlit("accepted");
    reveal_strlit("rejected");
    assert("accepted"@[0] == 'a' && "rejected"@[0] == 'r');
    assert("accepted"@.len() == 8 && "rejected"@.len() == 8);
}

/// What the team removed is told.
pub proof fn removals_are_told(data: Json, l: Locale)
    ensures
        text_member(data, "action"@) == Some("avatar_removed"@) ==> moderation_title(data, l)
            == say(l, AVATAR_TITLE) && moderation_line(data, l) == say(l, AVATAR_LINE),
        text_member(data, "action"@) == Some("username_reset"@) ==> moderation_title(data, l)
            == say(l, USERNAME_TITLE) && moderation_line(data, l) == say(l, USERNAME_LINE),
        text_member(data, "action"@) == Some("band_logo_removed"@) ==> moderation_title(data, l)
            == say(l, LOGO_TITLE) && moderation_line(data, l) == say(l, LOGO_LINE),
{
    reveal_strlit("avatar_removed");
    reveal_strlit("username_reset");
    reveal_strlit("band_logo_removed");
    assert("avatar_removed"@.len() == 14 && "username_reset"@.len() == 14
        && "band_logo_removed"@.len() == 17);
    assert("avatar_removed"@[0] == 'a' && "username_reset"@[0] == 'u');
}

/// Why credits were granted is told.
pub proof fn reasons_for_credits_are_told(data: Json, l: Locale, kind: NotificationType)
    ensures
        text_member(data, "reason"@) == Some("referral_referrer"@) ==> credits_reason(data, l)
            == say(l, CREDITS_REFERRER),
        text_member(data, "reason"@) == Some("referral_referred"@) ==> credits_reason(data, l)
            == say(l, CREDITS_REFERRED),
        text_member(data, "reason"@) == Some("promo_code"@) ==> credits_reason(data, l) == say(
            l,
            CREDITS_PROMO,
        ),
        text_member(data, "reason"@) == Some("staff"@) ==> credits_reason(data, l) == say(
            l,
            CREDITS_TEAM,
        ),
        kind == NotificationType::CreditsGranted ==> notice_of(kind, data, l).lines[0]
            == credits_reason(data, l) && notice_of(kind, data, l).lines.len() == 2,
{
    reveal_strlit("referral_referrer");
    reveal_strlit("referral_referred");
    reveal_strlit("promo_code");
    reveal_strlit("staff");
    assert("referral_referrer"@.len() == 17 && "referral_referred"@.len() == 17
        && "promo_code"@.len() == 10 && "staff"@.len() == 5);
    assert("referral_referrer"@[16] == 'r' && "referral_referred"@[16] == 'd');
}

/// A remark is a line of its own, and none where there is nothing to remark.
pub proof fn remarks_are_lines_of_their_own(
    lines: Seq<Seq<char>>,
    label: Seq<char>,
    text: Seq<char>,
)
    ensures
        text.len() == 0 ==> with_remark(lines, label, text) == lines,
        text.len() > 0 ==> with_remark(lines, label, text) == lines.push(label + " "@ + text),
{
}

/// Which link was revoked is told, and why where that is known.
pub proof fn revoked_links_are_told(data: Json, l: Locale, title: Seq<char>)
    requires
        text_member(data, "title"@) == Some(title),
    ensures
        text_member(data, "kind"@) == Some("gig"@) ==> revoked_lines(data, l)[0] == fill(
            say(l, LINK_GIG_LINE),
            "t"@,
            title,
        ),
        text_member(data, "kind"@) == Some("setlist"@) ==> revoked_lines(data, l)[0] == fill(
            say(l, LINK_SETLIST_LINE),
            "t"@,
            title,
        ),
        text_member(data, "reason"@) is None ==> revoked_lines(data, l).len() == 1,
        text_member(data, "reason"@) matches Some(r) ==> (r.len() > 0 ==> revoked_lines(
            data,
            l,
        ).len() == 2 && revoked_lines(data, l)[1] == say(l, LINK_REASON) + " "@ + r),
{
    reveal_strlit("gig");
    reveal_strlit("setlist");
    assert("gig"@.len() == 3 && "setlist"@.len() == 7);
}

/// An announcement is told by its title.
pub proof fn announcements_are_told_by_their_title(data: Json, l: Locale, title: Seq<char>)
    requires
        text_member(data, "title"@) == Some(title),
    ensures
        notice_of(NotificationType::Announcement, data, l).title == title,
        notice_of(NotificationType::Announcement, data, l).lines == seq![say(l, ANNOUNCEMENT_LINE)],
{
}

proof fn lemma_fill_this(before: Seq<char>, key: char, v: Seq<char>, after: Seq<char>)
    requires
        !before.contains('{'),
    ensures
        fill(before + seq!['{', key, '}'] + after, seq![key], v) == before + v + fill(
            after,
            seq![key],
            v,
        ),
{
    let p = seq!['{', key, '}'];
    assert(seq!['{'] + seq![key] + seq!['}'] =~= p);
    assert forall|i: int| 0 <= i < before.len() implies #[trigger] before[i] != p[0] by {
        assert(before.contains(before[i]));
    }
    lemma_replace_passes(before, p + after, p, v);
    assert((p + after).subrange(0, p.len() as int) =~= p);
    assert((p + after).skip(p.len() as int) =~= after);
    assert(before + p + after =~= before + (p + after));
    assert(before + (v + replace(after, p, v)) =~= before + v + replace(after, p, v));
}

proof fn lemma_fill_other(before: Seq<char>, other: char, key: char, v: Seq<char>, after: Seq<char>)
    requires
        !before.contains('{'),
        other != key,
        other != '{',
    ensures
        fill(before + seq!['{', other, '}'] + after, seq![key], v) == before + seq!['{', other, '}']
            + fill(after, seq![key], v),
{
    let p = seq!['{', key, '}'];
    let q = seq!['{', other, '}'];
    assert(seq!['{'] + seq![key] + seq!['}'] =~= p);
    assert forall|i: int| 0 <= i < before.len() implies #[trigger] before[i] != p[0] by {
        assert(before.contains(before[i]));
    }
    lemma_replace_passes(before, q + after, p, v);
    let s = q + after;
    assert(s[1] == other);
    if starts_with(s, p) {
        assert(s.subrange(0, 3)[1] == key);
    }
    let rest = seq![other, '}'];
    assert(s.skip(1) =~= rest + after);
    lemma_replace_passes(rest, after, p, v);
    assert(before + q + after =~= before + s);
    assert(before + (seq!['{'] + (rest + replace(after, p, v))) =~= before + q + replace(
        after,
        p,
        v,
    ));
}

proof fn lemma_fill_none(s: Seq<char>, key: char, v: Seq<char>)
    requires
        !s.contains('{'),
    ensures
        fill(s, seq![key], v) == s,
{
    let p = seq!['{', key, '}'];
    assert(seq!['{'] + seq![key] + seq!['}'] =~= p);
    assert forall|i: int| 0 <= i < s.len() implies #[trigger] s[i] != p[0] by {
        assert(s.contains(s[i]));
    }
    lemma_replace_passes(s, Seq::<char>::empty(), p, v);
    assert(s + Seq::<char>::empty() =~= s);
    assert(replace(Seq::<char>::empty(), p, v) =~= Seq::<char>::empty());
}

/// A change of role on the platform tells the old role before the new one.
pub proof fn platform_roles_change_from_old_to_new(data: Json, old_role: Seq<char>, new_role: Seq<char>)
    requires
        text_member(data, "old_role"@) == Some(old_role),
        text_member(data, "new_role"@) == Some(new_role),
        !platform_role(Locale::En, old_role).contains('{'),
    ensures
        notice_of(NotificationType::PlatformRoleChanged, data, Locale::En).lines == seq![
            "Your role on Setlyst changed from "@ + platform_role(Locale::En, old_role) + " to "@
                + platform_role(Locale::En, new_role) + "."@,
        ],
{
    let o = platform_role(Locale::En, old_role);
    let n = platform_role(Locale::En, new_role);
    reveal_strlit("Your role on Setlyst changed from {o} to {n}.");
    reveal_strlit("Your role on Setlyst changed from ");
    reveal_strlit(" to ");
    reveal_strlit(".");
    reveal_strlit("o");
    reveal_strlit("n");
    assert("o"@ =~= seq!['o']);
    assert("n"@ =~= seq!['n']);
    let a = "Your role on Setlyst changed from "@;
    let b = " to "@;
    let c = "."@;
    let s = "Your role on Setlyst changed from {o} to {n}."@;
    assert(s =~= a + seq!['{', 'o', '}'] + (b + seq!['{', 'n', '}'] + c));
    lemma_fill_this(a, 'o', o, b + seq!['{', 'n', '}'] + c);
    lemma_fill_other(b, 'n', 'o', o, c);
    lemma_fill_none(c, 'o', o);
    let t = a + o + (b + seq!['{', 'n', '}'] + c);
    assert(fill(s, "o"@, o) == t);
    let front = a + o + b;
    assert(t =~= front + seq!['{', 'n', '}'] + c);
    assert(!front.contains('{')) by {
        if front.contains('{') {
            let i = choose|i: int| 0 <= i < front.len() && front[i] == '{';
            if i >= a.len() && i < a.len() + o.len() {
                assert(o[i - a.len()] == '{');
            }
        }
    }
    lemma_fill_this(front, 'n', n, c);
    lemma_fill_none(c, 'n', n);
    assert(front + n + c =~= a + o + b + n + c);
}

/// Granted credits are told by their amount.
pub proof fn granted_credits_are_told(data: Json)
    ensures
        notice_of(NotificationType::CreditsGranted, data, Locale::En).title == fill(
            say(Locale::En, crate::email::notices::CREDITS_TITLE),
            "n"@,
            number(amount_in(data) as int),
        ),
{
}

} // verus!
