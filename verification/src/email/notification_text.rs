//! Human-readable text of in-app notifications, for their e-mail copies.
//!
//! In the app, the web client renders notifications from `type` + `data`
//! with its own translations. E-mails can't do that, so the same messages
//! are written here in the three supported languages.

use crate::email::notices::{
    ACCEPTED, ADDED_LINE, ADDED_TITLE, ADMINISTRATOR, ANNOUNCEMENT_LINE, AVATAR_LINE, AVATAR_TITLE, BAND_ADMIN, BAND_MODERATOR, CREDITS_PROMO, CREDITS_REFERRED, CREDITS_REFERRER, CREDITS_TEAM, CREDITS_TITLE, CREDITS_USE, DECLINED, LINK_GIG_LINE, LINK_REASON, LINK_SETLIST_LINE, LINK_TITLE, LOGO_LINE, LOGO_TITLE, MEMBER, MODERATOR, OWNER, PLATFORM_LINE, PLATFORM_TITLE, RELEASE_LINE, RELEASE_TITLE, REMOVED_LINE, REMOVED_TITLE, RESOLVED_LINE, RESOLVED_TITLE, ROLE_LINE, ROLE_TITLE, SUGGESTED_LINE, SUGGESTED_TITLE, TEAM_NOTE, UPDATED_LINE, UPDATED_TITLE, USER, USERNAME_LINE, USERNAME_TITLE, WITHDRAWN,
};
use crate::email::templates::{fill, fill_in, say, Locale};
use crate::models::notification::NotificationType;
use crate::text::{list1, list2};
use crate::json::{Json, JsonValue, integer_member, member, text_member};
use crate::text::{lemma_texts_push, number, number_of, opt_text, same, texts};
use vstd::prelude::*;

verus! {

/// Title, body lines and the app path the e-mail's button opens.
#[derive(Debug, Clone, PartialEq)]
pub struct NotificationText {
    pub title: String,
    pub lines: Vec<String>,
    pub cta_path: Option<String>,
}

/// What a [`NotificationText`] says.
#[verifier::ext_equal]
pub ghost struct Notice {
    pub title: Seq<char>,
    pub lines: Seq<Seq<char>>,
    pub cta_path: Option<Seq<char>>,
}

impl View for NotificationText {
    type V = Notice;

    open spec fn view(&self) -> Notice {
        Notice {
            title: self.title@,
            lines: texts(self.lines@),
            cta_path: opt_text(self.cta_path),
        }
    }
}

/// The text of the member `key`; nothing where there is none.
pub open spec fn text_at(data: Json, key: Seq<char>) -> Seq<char> {
    match text_member(data, key) {
        Some(s) => s,
        None => seq![],
    }
}

fn text_of<'a>(data: &'a JsonValue, key: &str) -> (r: &'a str)
    ensures
        r@ == text_at(data@, key@),
{
    match data.text_of(key) {
        Some(s) => s,
        None => {
            proof {
                reveal_strlit("");
            }
            assert(""@ =~= seq![]);
            ""
        },
    }
}

/// The page of the band that the notification is about.
pub open spec fn band_path(data: Json) -> Option<Seq<char>> {
    match text_member(data, "band_id"@) {
        Some(id) => Some("/dashboard/bands/"@ + id),
        None => None,
    }
}

fn path_of_band(data: &JsonValue) -> (r: Option<String>)
    ensures
        opt_text(r) == band_path(data@),
{
    match data.text_of("band_id") {
        Some(id) => {
            let mut p = "/dashboard/bands/".to_string();
            p.append(id);
            Some(p)
        },
        None => None,
    }
}

/// A role in a band, in words.
pub open spec fn band_role(l: Locale, role: Seq<char>) -> Seq<char> {
    if role == "owner"@ {
        say(l, OWNER)
    } else if role == "admin"@ {
        say(l, BAND_ADMIN)
    } else if role == "moderator"@ {
        say(l, BAND_MODERATOR)
    } else if role == "member"@ {
        say(l, MEMBER)
    } else {
        role
    }
}

fn band_role_name<'a>(l: Locale, role: &'a str) -> (r: &'a str)
    ensures
        r@ == band_role(l, role@),
{
    if same(role, "owner") {
        l.says(OWNER)
    } else if same(role, "admin") {
        l.says(BAND_ADMIN)
    } else if same(role, "moderator") {
        l.says(BAND_MODERATOR)
    } else if same(role, "member") {
        l.says(MEMBER)
    } else {
        role
    }
}

/// A role on the platform, in words.
pub open spec fn platform_role(l: Locale, role: Seq<char>) -> Seq<char> {
    if role == "admin"@ {
        say(l, ADMINISTRATOR)
    } else if role == "moderator"@ {
        say(l, MODERATOR)
    } else if role == "user"@ {
        say(l, USER)
    } else {
        role
    }
}

fn platform_role_name<'a>(l: Locale, role: &'a str) -> (r: &'a str)
    ensures
        r@ == platform_role(l, role@),
{
    if same(role, "admin") {
        l.says(ADMINISTRATOR)
    } else if same(role, "moderator") {
        l.says(MODERATOR)
    } else if same(role, "user") {
        l.says(USER)
    } else {
        role
    }
}

/// What became of a suggestion, in words.
pub open spec fn resolution(data: Json, l: Locale) -> Seq<char> {
    let key = text_at(data, "status"@);
    if key == "accepted"@ {
        say(l, ACCEPTED)
    } else if key == "rejected"@ {
        say(l, DECLINED)
    } else {
        say(l, WITHDRAWN)
    }
}

fn resolution_of(data: &JsonValue, l: Locale) -> (r: &'static str)
    ensures
        r@ == resolution(data@, l),
{
    let key = text_of(data, "status");
    if same(key, "accepted") {
        l.says(ACCEPTED)
    } else if same(key, "rejected") {
        l.says(DECLINED)
    } else {
        l.says(WITHDRAWN)
    }
}

/// What staff did to the profile.
pub open spec fn moderation_title(data: Json, l: Locale) -> Seq<char> {
    let key = text_at(data, "action"@);
    if key == "avatar_removed"@ {
        say(l, AVATAR_TITLE)
    } else if key == "username_reset"@ {
        say(l, USERNAME_TITLE)
    } else {
        say(l, LOGO_TITLE)
    }
}

fn title_of_moderation(data: &JsonValue, l: Locale) -> (r: &'static str)
    ensures
        r@ == moderation_title(data@, l),
{
    let key = text_of(data, "action");
    if same(key, "avatar_removed") {
        l.says(AVATAR_TITLE)
    } else if same(key, "username_reset") {
        l.says(USERNAME_TITLE)
    } else {
        l.says(LOGO_TITLE)
    }
}

/// Why staff did it.
pub open spec fn moderation_line(data: Json, l: Locale) -> Seq<char> {
    let key = text_at(data, "action"@);
    if key == "avatar_removed"@ {
        say(l, AVATAR_LINE)
    } else if key == "username_reset"@ {
        say(l, USERNAME_LINE)
    } else {
        say(l, LOGO_LINE)
    }
}

fn line_of_moderation(data: &JsonValue, l: Locale) -> (r: &'static str)
    ensures
        r@ == moderation_line(data@, l),
{
    let key = text_of(data, "action");
    if same(key, "avatar_removed") {
        l.says(AVATAR_LINE)
    } else if same(key, "username_reset") {
        l.says(USERNAME_LINE)
    } else {
        l.says(LOGO_LINE)
    }
}

/// Why credits were added.
pub open spec fn credits_reason(data: Json, l: Locale) -> Seq<char> {
    let key = text_at(data, "reason"@);
    if key == "referral_referrer"@ {
        say(l, CREDITS_REFERRER)
    } else if key == "referral_referred"@ {
        say(l, CREDITS_REFERRED)
    } else if key == "promo_code"@ {
        say(l, CREDITS_PROMO)
    } else {
        say(l, CREDITS_TEAM)
    }
}

fn reason_for_credits(data: &JsonValue, l: Locale) -> (r: &'static str)
    ensures
        r@ == credits_reason(data@, l),
{
    let key = text_of(data, "reason");
    if same(key, "referral_referrer") {
        l.says(CREDITS_REFERRER)
    } else if same(key, "referral_referred") {
        l.says(CREDITS_REFERRED)
    } else if same(key, "promo_code") {
        l.says(CREDITS_PROMO)
    } else {
        l.says(CREDITS_TEAM)
    }
}

/// The number of credits added.
pub open spec fn amount_in(data: Json) -> i64 {
    match integer_member(data, "amount"@) {
        Some(n) => n,
        None => 0,
    }
}

fn amount_of(data: &JsonValue) -> (r: i64)
    ensures
        r == amount_in(data@),
{
    match data.get("amount") {
        Some(v) => match v.as_i64() {
            Some(n) => n,
            None => 0,
        },
        None => 0,
    }
}

/// `lines` with one more, `label` and `text`, when there is a text.
pub open spec fn with_remark(
    lines: Seq<Seq<char>>,
    label: Seq<char>,
    text: Seq<char>,
) -> Seq<Seq<char>> {
    if text.len() == 0 {
        lines
    } else {
        lines.push(label + " "@ + text)
    }
}

fn push_remark(lines: Vec<String>, label: &str, text: &str) -> (r: Vec<String>)
    ensures
        texts(r@) == with_remark(texts(lines@), label@, text@),
{
    let mut out = lines;
    if !text.is_empty() {
        let mut line = label.to_string();
        line.append(" ");
        line.append(text);
        proof {
            lemma_texts_push(out@, line);
        }
        out.push(line);
    }
    out
}

/// The lines on a public link that was taken down.
pub open spec fn revoked_lines(data: Json, l: Locale) -> Seq<Seq<char>> {
    let line = if text_at(data, "kind"@) == "gig"@ {
        say(l, LINK_GIG_LINE)
    } else {
        say(l, LINK_SETLIST_LINE)
    };
    with_remark(
        seq![fill(line, "t"@, text_at(data, "title"@))],
        say(l, LINK_REASON),
        text_at(data, "reason"@),
    )
}

fn lines_of_revoked(data: &JsonValue, l: Locale) -> (r: Vec<String>)
    ensures
        texts(r@) == revoked_lines(data@, l),
{
    let line = if same(text_of(data, "kind"), "gig") {
        l.says(LINK_GIG_LINE)
    } else {
        l.says(LINK_SETLIST_LINE)
    };
    let lines = list1(fill_in(line, "t", text_of(data, "title")));
    push_remark(lines, l.says(LINK_REASON), text_of(data, "reason"))
}

/// The lines on what staff did to a profile.
pub open spec fn moderation_lines(data: Json, l: Locale) -> Seq<Seq<char>> {
    with_remark(
        seq![fill(moderation_line(data, l), "b"@, text_at(data, "band_name"@))],
        say(l, TEAM_NOTE),
        text_at(data, "note"@),
    )
}

fn lines_of_moderation(data: &JsonValue, l: Locale) -> (r: Vec<String>)
    ensures
        texts(r@) == moderation_lines(data@, l),
{
    let line = line_of_moderation(data, l);
    let lines = list1(fill_in(line, "b", text_of(data, "band_name")));
    push_remark(lines, l.says(TEAM_NOTE), text_of(data, "note"))
}

/// What a notification says.
pub open spec fn notice_of(kind: NotificationType, data: Json, l: Locale) -> Notice {
    let band = text_at(data, "band_name"@);
    match kind {
        NotificationType::BandRoleChanged => Notice {
            title: fill(say(l, ROLE_TITLE), "b"@, band),
            lines: seq![fill(fill(fill(say(l, ROLE_LINE), "b"@, band), "o"@, band_role(l, text_at(data, "old_role"@))), "n"@, band_role(l, text_at(data, "new_role"@)))],
            cta_path: band_path(data),
        },
        NotificationType::BandMemberRemoved => Notice {
            title: fill(say(l, REMOVED_TITLE), "b"@, band),
            lines: seq![fill(say(l, REMOVED_LINE), "b"@, band)],
            cta_path: Some("/dashboard/bands"@),
        },
        NotificationType::BandMemberAdded => Notice {
            title: fill(say(l, ADDED_TITLE), "b"@, band),
            lines: seq![fill(fill(say(l, ADDED_LINE), "b"@, band), "r"@, band_role(l, text_at(data, "role"@)))],
            cta_path: band_path(data),
        },
        NotificationType::PlatformRoleChanged => Notice {
            title: say(l, PLATFORM_TITLE),
            lines: seq![fill(fill(say(l, PLATFORM_LINE), "o"@, platform_role(l, text_at(data, "old_role"@))), "n"@, platform_role(l, text_at(data, "new_role"@)))],
            cta_path: Some("/dashboard"@),
        },
        NotificationType::ShareLinkRevoked => Notice {
            title: say(l, LINK_TITLE),
            lines: revoked_lines(data, l),
            cta_path: Some("/dashboard"@),
        },
        NotificationType::Announcement => Notice {
            title: text_at(data, "title"@),
            lines: seq![say(l, ANNOUNCEMENT_LINE)],
            cta_path: Some("/dashboard/announcements"@),
        },
        NotificationType::ReleasePublished => Notice {
            title: fill(say(l, RELEASE_TITLE), "v"@, text_at(data, "version"@)),
            lines: seq![say(l, RELEASE_LINE)],
            cta_path: Some("/dashboard/whats-new"@),
        },
        NotificationType::BandSuggestionCreated => Notice {
            title: fill(say(l, SUGGESTED_TITLE), "b"@, band),
            lines: seq![fill(fill(fill(say(l, SUGGESTED_LINE), "u"@, text_at(data, "suggested_by"@)), "s"@, text_at(data, "song_title"@)), "b"@, band)],
            cta_path: band_path(data),
        },
        NotificationType::BandSuggestionResolved => Notice {
            title: fill(say(l, RESOLVED_TITLE), "st"@, resolution(data, l)),
            lines: seq![fill(fill(fill(say(l, RESOLVED_LINE), "s"@, text_at(data, "song_title"@)), "b"@, band), "st"@, resolution(data, l))],
            cta_path: band_path(data),
        },
        NotificationType::ModerationAction => Notice {
            title: moderation_title(data, l),
            lines: moderation_lines(data, l),
            cta_path: Some("/dashboard/profile"@),
        },
        NotificationType::CreditsGranted => Notice {
            title: fill(say(l, CREDITS_TITLE), "n"@, number(amount_in(data) as int)),
            lines: seq![credits_reason(data, l), say(l, CREDITS_USE)],
            cta_path: Some("/dashboard/settings"@),
        },
        NotificationType::SubscriptionChanged => Notice {
            title: say(l, UPDATED_TITLE),
            lines: seq![say(l, UPDATED_LINE)],
            cta_path: Some("/dashboard/settings"@),
        },
        NotificationType::TrialEnding => Notice {
            title: say(l, UPDATED_TITLE),
            lines: seq![say(l, UPDATED_LINE)],
            cta_path: Some("/dashboard/settings"@),
        },
        NotificationType::SecurityAlert => Notice {
            title: say(l, UPDATED_TITLE),
            lines: seq![say(l, UPDATED_LINE)],
            cta_path: Some("/dashboard/settings"@),
        },
    }
}

/// The e-mail text of a notification of `kind` with `data`.
pub fn describe(kind: NotificationType, data: &JsonValue, l: Locale) -> (r: NotificationText)
    ensures
        r@ == notice_of(kind, data@, l),
{
    let band = text_of(data, "band_name");
    match kind {
        NotificationType::BandRoleChanged => NotificationText {
            title: fill_in(l.says(ROLE_TITLE), "b", band),
            lines: list1(fill_in(fill_in(fill_in(l.says(ROLE_LINE), "b", band).as_str(), "o", band_role_name(l, text_of(data, "old_role"))).as_str(), "n", band_role_name(l, text_of(data, "new_role")))),
            cta_path: path_of_band(data),
        },
        NotificationType::BandMemberRemoved => NotificationText {
            title: fill_in(l.says(REMOVED_TITLE), "b", band),
            lines: list1(fill_in(l.says(REMOVED_LINE), "b", band)),
            cta_path: Some("/dashboard/bands".to_string()),
        },
        NotificationType::BandMemberAdded => NotificationText {
            title: fill_in(l.says(ADDED_TITLE), "b", band),
            lines: list1(fill_in(fill_in(l.says(ADDED_LINE), "b", band).as_str(), "r", band_role_name(l, text_of(data, "role")))),
            cta_path: path_of_band(data),
        },
        NotificationType::PlatformRoleChanged => NotificationText {
            title: l.says(PLATFORM_TITLE).to_string(),
            lines: list1(fill_in(fill_in(l.says(PLATFORM_LINE), "o", platform_role_name(l, text_of(data, "old_role"))).as_str(), "n", platform_role_name(l, text_of(data, "new_role")))),
            cta_path: Some("/dashboard".to_string()),
        },
        NotificationType::ShareLinkRevoked => NotificationText {
            title: l.says(LINK_TITLE).to_string(),
            lines: lines_of_revoked(data, l),
            cta_path: Some("/dashboard".to_string()),
        },
        NotificationType::Announcement => NotificationText {
            title: text_of(data, "title").to_string(),
            lines: list1(l.says(ANNOUNCEMENT_LINE).to_string()),
            cta_path: Some("/dashboard/announcements".to_string()),
        },
        NotificationType::ReleasePublished => NotificationText {
            title: fill_in(l.says(RELEASE_TITLE), "v", text_of(data, "version")),
            lines: list1(l.says(RELEASE_LINE).to_string()),
            cta_path: Some("/dashboard/whats-new".to_string()),
        },
        NotificationType::BandSuggestionCreated => NotificationText {
            title: fill_in(l.says(SUGGESTED_TITLE), "b", band),
            lines: list1(fill_in(fill_in(fill_in(l.says(SUGGESTED_LINE), "u", text_of(data, "suggested_by")).as_str(), "s", text_of(data, "song_title")).as_str(), "b", band)),
            cta_path: path_of_band(data),
        },
        NotificationType::BandSuggestionResolved => NotificationText {
            title: fill_in(l.says(RESOLVED_TITLE), "st", resolution_of(data, l)),
            lines: list1(fill_in(fill_in(fill_in(l.says(RESOLVED_LINE), "s", text_of(data, "song_title")).as_str(), "b", band).as_str(), "st", resolution_of(data, l))),
            cta_path: path_of_band(data),
        },
        NotificationType::ModerationAction => NotificationText {
            title: title_of_moderation(data, l).to_string(),
            lines: lines_of_moderation(data, l),
            cta_path: Some("/dashboard/profile".to_string()),
        },
        NotificationType::CreditsGranted => NotificationText {
            title: fill_in(l.says(CREDITS_TITLE), "n", number_of(amount_of(data)).as_str()),
            lines: list2(reason_for_credits(data, l).to_string(), l.says(CREDITS_USE).to_string()),
            cta_path: Some("/dashboard/settings".to_string()),
        },
        NotificationType::SubscriptionChanged => NotificationText {
            title: l.says(UPDATED_TITLE).to_string(),
            lines: list1(l.says(UPDATED_LINE).to_string()),
            cta_path: Some("/dashboard/settings".to_string()),
        },
        NotificationType::TrialEnding => NotificationText {
            title: l.says(UPDATED_TITLE).to_string(),
            lines: list1(l.says(UPDATED_LINE).to_string()),
            cta_path: Some("/dashboard/settings".to_string()),
        },
        NotificationType::SecurityAlert => NotificationText {
            title: l.says(UPDATED_TITLE).to_string(),
            lines: list1(l.says(UPDATED_LINE).to_string()),
            cta_path: Some("/dashboard/settings".to_string()),
        },
    }
}

/// Every notification has something to say below its title.
pub proof fn every_notification_has_lines(kind: NotificationType, data: Json, l: Locale)
    ensures
        notice_of(kind, data, l).lines.len() > 0,
{
}

} // verus!
