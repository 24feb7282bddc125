//! Announcements published by staff: shown as a modal, a banner, an
//! in-app notification and/or an e-mail to a targeted audience.

use crate::models::user_preferences::{is_supported_language, language_supported};
use crate::text::lemma_trim_twice;
use crate::ids::Uuid;
use crate::text::{char_is_control, char_is_space, chars, is_control, is_space, lemma_texts_push, opt_str, opt_text, same, texts, trim, trimmed};
use crate::time::NaiveDateTime;
use crate::validation::{ValidationErrors, Wrong, judged, no_errors, unless};
use vstd::prelude::*;

verus! {

pub const AUDIENCE_ROLES: [&'static str; 3] = ["user", "moderator", "admin"];

/// Pseudo plan codes of the audience filter: no live subscription, and a
/// running trial.
pub const AUDIENCE_PLAN_NONE: &'static str = "none";

pub const AUDIENCE_PLAN_TRIAL: &'static str = "trial";

#[derive(Debug, Clone, Copy, PartialEq, Eq, Structural)]
pub enum AnnouncementLevel {
    Info,
    Success,
    Warning,
    /// A service notice: e-mailed to every targeted verified address,
    /// regardless of preferences.
    Critical,
}

/// The key of each [`AnnouncementLevel`].
pub open spec fn announcement_level_key(x: AnnouncementLevel) -> Seq<char> {
    match x {
        AnnouncementLevel::Info => "info"@,
        AnnouncementLevel::Success => "success"@,
        AnnouncementLevel::Warning => "warning"@,
        AnnouncementLevel::Critical => "critical"@,
    }
}

/// No two of them share a key.
pub proof fn announcement_level_keys_are_distinct(a: AnnouncementLevel, b: AnnouncementLevel)
    ensures
        announcement_level_key(a) == announcement_level_key(b) ==> a == b,
{
    reveal_strlit("info");
    reveal_strlit("success");
    reveal_strlit("warning");
    reveal_strlit("critical");
    assert("info"@.len() != "success"@.len());
    assert("info"@.len() != "warning"@.len());
    assert("info"@.len() != "critical"@.len());
    assert("success"@[0] != "warning"@[0]);
    assert("success"@.len() != "critical"@.len());
    assert("warning"@.len() != "critical"@.len());
}

impl AnnouncementLevel {
    pub fn key(&self) -> (r: &'static str)
        ensures
            r@ == announcement_level_key(*self),
    {
        match self {
            AnnouncementLevel::Info => "info",
            AnnouncementLevel::Success => "success",
            AnnouncementLevel::Warning => "warning",
            AnnouncementLevel::Critical => "critical",
        }
    }
}

/// Lifecycle of an announcement, computed from its timestamps.
#[derive(Debug, Clone, Copy, PartialEq, Eq, Structural)]
pub enum AnnouncementStatus {
    Draft,
    Scheduled,
    Active,
    Ended,
    Archived,
}

/// The key of each [`AnnouncementStatus`].
pub open spec fn announcement_status_key(x: AnnouncementStatus) -> Seq<char> {
    match x {
        AnnouncementStatus::Draft => "draft"@,
        AnnouncementStatus::Scheduled => "scheduled"@,
        AnnouncementStatus::Active => "active"@,
        AnnouncementStatus::Ended => "ended"@,
        AnnouncementStatus::Archived => "archived"@,
    }
}

/// No two of them share a key.
pub proof fn announcement_status_keys_are_distinct(a: AnnouncementStatus, b: AnnouncementStatus)
    ensures
        announcement_status_key(a) == announcement_status_key(b) ==> a == b,
{
    reveal_strlit("draft");
    reveal_strlit("scheduled");
    reveal_strlit("active");
    reveal_strlit("ended");
    reveal_strlit("archived");
    assert("draft"@.len() != "scheduled"@.len());
    assert("draft"@.len() != "active"@.len());
    assert("draft"@[0] != "ended"@[0]);
    assert("draft"@.len() != "archived"@.len());
    assert("scheduled"@.len() != "active"@.len());
    assert("scheduled"@.len() != "ended"@.len());
    assert("scheduled"@.len() != "archived"@.len());
    assert("active"@.len() != "ended"@.len());
    assert("active"@.len() != "archived"@.len());
    assert("ended"@.len() != "archived"@.len());
}

impl AnnouncementStatus {
    pub fn parse(value: &str) -> (r: Option<Self>)
        ensures
            forall|x: AnnouncementStatus| r == Some(x) <==> #[trigger] announcement_status_key(x) == value@,
    {
        let r = if same(value, "draft") {
            Some(AnnouncementStatus::Draft)
        } else if same(value, "scheduled") {
            Some(AnnouncementStatus::Scheduled)
        } else if same(value, "active") {
            Some(AnnouncementStatus::Active)
        } else if same(value, "ended") {
            Some(AnnouncementStatus::Ended)
        } else if same(value, "archived") {
            Some(AnnouncementStatus::Archived)
        } else {
            None
        };
        proof {
            if let Some(c) = r {
                assert forall|x: AnnouncementStatus| #[trigger] announcement_status_key(x) == value@ implies x == c by {
                    announcement_status_keys_are_distinct(x, c);
                }
            }
        }
        r
    }
}

#[derive(Debug, Clone)]
pub struct Announcement {
    pub id: Uuid,
    pub title: String,
    /// Plain text; line breaks are meaningful, nothing is rendered as HTML.
    pub body: String,
    pub level: AnnouncementLevel,
    pub show_modal: bool,
    pub show_banner: bool,
    pub send_notification: bool,
    pub send_email: bool,
    pub dismissible: bool,
    pub requires_acknowledgement: bool,
    pub cta_label: Option<String>,
    pub cta_url: Option<String>,
    /// `None` = everybody (for each dimension).
    pub audience_roles: Option<Vec<String>>,
    pub audience_plans: Option<Vec<String>>,
    pub audience_locales: Option<Vec<String>>,
    pub starts_at: Option<NaiveDateTime>,
    pub ends_at: Option<NaiveDateTime>,
    pub published_at: Option<NaiveDateTime>,
    pub archived_at: Option<NaiveDateTime>,
    pub delivered_at: Option<NaiveDateTime>,
    pub created_by_username: Option<String>,
    pub updated_by_username: Option<String>,
    pub created_at: NaiveDateTime,
    pub updated_at: NaiveDateTime,
    /// Computed; not stored.
    pub status: Option<AnnouncementStatus>,
}

/// Where an announcement is in its life at the moment `now`.
pub open spec fn status_at(a: Announcement, now: int) -> AnnouncementStatus {
    if a.archived_at is Some {
        AnnouncementStatus::Archived
    } else if a.published_at is None {
        AnnouncementStatus::Draft
    } else if a.starts_at matches Some(s) && s@ > now {
        AnnouncementStatus::Scheduled
    } else if a.ends_at matches Some(e) && e@ <= now {
        AnnouncementStatus::Ended
    } else {
        AnnouncementStatus::Active
    }
}

impl Announcement {
    pub fn compute_status(&self, now: NaiveDateTime) -> (r: AnnouncementStatus)
        ensures
            r == status_at(*self, now@),
    {
        if self.archived_at.is_some() {
            AnnouncementStatus::Archived
        } else if self.published_at.is_none() {
            AnnouncementStatus::Draft
        } else if match self.starts_at {
            Some(s) => now.is_before(&s),
            None => false,
        } {
            AnnouncementStatus::Scheduled
        } else if match self.ends_at {
            Some(e) => !now.is_before(&e),
            None => false,
        } {
            AnnouncementStatus::Ended
        } else {
            AnnouncementStatus::Active
        }
    }

    /// Fills in `status`.
    pub fn with_status(self, now: NaiveDateTime) -> (r: Self)
        ensures
            r == (Announcement { status: Some(status_at(self, now@)), ..self }),
    {
        let status = Some(self.compute_status(now));
        Announcement { status, ..self }
    }
}

/// How far an announcement is in its life.
pub open spec fn stage(s: AnnouncementStatus) -> int {
    match s {
        AnnouncementStatus::Draft => 0,
        AnnouncementStatus::Scheduled => 1,
        AnnouncementStatus::Active => 2,
        AnnouncementStatus::Ended => 3,
        AnnouncementStatus::Archived => 4,
    }
}

/// As time goes by, an announcement that nobody edits only moves forward:
/// scheduled, active, ended.
pub proof fn time_only_moves_announcements_forward(a: Announcement, earlier: int, later: int)
    requires
        earlier <= later,
    ensures
        stage(status_at(a, earlier)) <= stage(status_at(a, later)),
{
}

#[derive(Debug, Clone, Copy, Default)]
pub struct AnnouncementStats {
    /// Accounts matching the audience right now.
    pub targeted: i64,
    pub seen: i64,
    pub dismissed: i64,
    pub acknowledged: i64,
}

/// An announcement in the staff console.
#[derive(Debug, Clone)]
pub struct AdminAnnouncement {
    pub announcement: Announcement,
    pub stats: AnnouncementStats,
}

#[derive(Debug, Clone, Copy, Default)]
pub struct AnnouncementReceipt {
    pub seen_at: Option<NaiveDateTime>,
    pub dismissed_at: Option<NaiveDateTime>,
    pub acknowledged_at: Option<NaiveDateTime>,
}

/// An announcement as seen by its recipient.
#[derive(Debug, Clone)]
pub struct UserAnnouncement {
    pub announcement: Announcement,
    pub receipt: AnnouncementReceipt,
}

/// `GET /announcements/active`.
#[derive(Debug, Clone)]
pub struct ActiveAnnouncements {
    /// To show as modals, oldest first.
    pub modal: Vec<UserAnnouncement>,
    pub banner: Vec<UserAnnouncement>,
}

/// Who an announcement is for. `None` (or an empty list) = no restriction.
#[derive(Debug, Clone, Default)]
pub struct AudiencePayload {
    pub audience_roles: Option<Vec<String>>,
    pub audience_plans: Option<Vec<String>>,
    pub audience_locales: Option<Vec<String>>,
}

impl AudiencePayload {
    /// The rules that this payload breaks.
    pub open spec fn broken_rules(self) -> Wrong {
        let e = no_errors();
        let e = unless(e, (self.audience_roles matches Some(x) ==> 0 <= x@.len() <= 3), "audience_roles"@, "length"@, None);
        let e = unless(e, (self.audience_plans matches Some(x) ==> 0 <= x@.len() <= 20), "audience_plans"@, "length"@, None);
        unless(e, (self.audience_locales matches Some(x) ==> 0 <= x@.len() <= 3), "audience_locales"@, "length"@, None)
    }

    /// Checks the payload against its rules.
    pub fn validate(&self) -> (r: Result<(), ValidationErrors>)
        ensures
            judged(r, self.broken_rules()),
    {
        let mut e = ValidationErrors::new();
        e.check(match &self.audience_roles { Some(x) => x.len() <= 3, None => true }, "audience_roles", "length", None);
        e.check(match &self.audience_plans { Some(x) => x.len() <= 20, None => true }, "audience_plans", "length", None);
        e.check(match &self.audience_locales { Some(x) => x.len() <= 3, None => true }, "audience_locales", "length", None);
        e.into_result()
    }
}

#[derive(Debug, Clone, Copy)]
pub struct AudiencePreview {
    pub count: i64,
}

#[derive(Debug, Clone)]
pub struct CreateAnnouncementPayload {
    pub title: String,
    pub body: String,
    pub level: Option<AnnouncementLevel>,
    pub show_modal: bool,
    pub show_banner: bool,
    pub send_notification: Option<bool>,
    pub send_email: bool,
    pub dismissible: Option<bool>,
    pub requires_acknowledgement: bool,
    pub cta_label: Option<String>,
    pub cta_url: Option<String>,
    pub audience_roles: Option<Vec<String>>,
    pub audience_plans: Option<Vec<String>>,
    pub audience_locales: Option<Vec<String>>,
    pub starts_at: Option<NaiveDateTime>,
    pub ends_at: Option<NaiveDateTime>,
}

/// `PATCH /admin/announcements/{id}`. Nullable fields accept `null` to
/// clear them.
#[derive(Debug, Clone, Default)]
pub struct UpdateAnnouncementPayload {
    pub title: Option<String>,
    pub body: Option<String>,
    pub level: Option<AnnouncementLevel>,
    pub show_modal: Option<bool>,
    pub show_banner: Option<bool>,
    pub send_notification: Option<bool>,
    pub send_email: Option<bool>,
    pub dismissible: Option<bool>,
    pub requires_acknowledgement: Option<bool>,
    pub cta_label: Option<Option<String>>,
    pub cta_url: Option<Option<String>>,
    pub audience_roles: Option<Option<Vec<String>>>,
    pub audience_plans: Option<Option<Vec<String>>>,
    pub audience_locales: Option<Option<Vec<String>>>,
    pub starts_at: Option<Option<NaiveDateTime>>,
    pub ends_at: Option<Option<NaiveDateTime>>,
}

impl UpdateAnnouncementPayload {
    /// `true` when only fields editable on a live announcement are set
    /// (text, call to action, end of the window and display flags).
    pub fn only_live_editable_fields(&self) -> (r: bool)
        ensures
            r == (self.level is None && self.send_notification is None && self.send_email is None && self.dismissible is None && self.requires_acknowledgement is None && self.audience_roles is None && self.audience_plans is None && self.audience_locales is None && self.starts_at is None),
    {
        self.level.is_none() && self.send_notification.is_none() && self.send_email.is_none() && self.dismissible.is_none() && self.requires_acknowledgement.is_none() && self.audience_roles.is_none() && self.audience_plans.is_none() && self.audience_locales.is_none() && self.starts_at.is_none()
    }
}

/// The complete editable state of an announcement, checked as a whole
/// (create, or after applying a PATCH).
#[derive(Debug, Clone)]
pub struct AnnouncementDraft {
    pub title: String,
    pub body: String,
    pub level: AnnouncementLevel,
    pub show_modal: bool,
    pub show_banner: bool,
    pub send_notification: bool,
    pub send_email: bool,
    pub dismissible: bool,
    pub requires_acknowledgement: bool,
    pub cta_label: Option<String>,
    pub cta_url: Option<String>,
    pub audience_roles: Option<Vec<String>>,
    pub audience_plans: Option<Vec<String>>,
    pub audience_locales: Option<Vec<String>>,
    pub starts_at: Option<NaiveDateTime>,
    pub ends_at: Option<NaiveDateTime>,
}

/// The entries without blanks around them, blank ones and repetitions, in
/// their order.
pub open spec fn distinct_entries(list: Seq<Seq<char>>) -> Seq<Seq<char>>
    decreases list.len(),
{
    if list.len() == 0 {
        seq![]
    } else {
        let before = distinct_entries(list.drop_last());
        let item = trim(list.last());
        if item.len() == 0 || before.contains(item) {
            before
        } else {
            before.push(item)
        }
    }
}

/// What a list of texts says; none for no list.
pub open spec fn opt_texts(o: Option<Vec<String>>) -> Option<Seq<Seq<char>>> {
    match o {
        Some(v) => Some(texts(v@)),
        None => None,
    }
}

/// The list holds `s`.
pub fn has_text(v: &Vec<String>, s: &str) -> (r: bool)
    ensures
        r == texts(v@).contains(s@),
{
    let ghost all = texts(v@);
    let mut i: usize = 0;
    while i < v.len()
        invariant
            all == texts(v@),
            i <= v@.len(),
            forall|j: int| 0 <= j < i ==> #[trigger] all[j] != s@,
        decreases v@.len() - i,
    {
        assert(all[i as int] == v@[i as int]@);
        if same(v[i].as_str(), s) {
            return true;
        }
        i = i + 1;
    }
    false
}

/// Empty lists mean "no restriction"; entries are trimmed and de-duplicated.
pub fn normalize_audience(list: Option<Vec<String>>) -> (r: Option<Vec<String>>)
    ensures
        opt_texts(r) == match list {
            Some(v) => if distinct_entries(texts(v@)).len() == 0 {
                None
            } else {
                Some(distinct_entries(texts(v@)))
            },
            None => None,
        },
{
    let v = match list {
        Some(v) => v,
        None => {
            return None;
        },
    };
    let ghost all = texts(v@);
    let mut out: Vec<String> = Vec::new();
    let mut i: usize = 0;
    assert(all.take(0) =~= seq![]);
    assert(texts(out@) =~= seq![]);
    while i < v.len()
        invariant
            all == texts(v@),
            i <= v@.len(),
            texts(out@) == distinct_entries(all.take(i as int)),
        decreases v@.len() - i,
    {
        proof {
            assert(all.take(i + 1).drop_last() =~= all.take(i as int));
            assert(all.take(i + 1).last() == v@[i as int]@);
        }
        let item = trimmed(v[i].as_str());
        if !item.as_str().is_empty() && !has_text(&out, item.as_str()) {
            proof {
                lemma_texts_push(out@, item);
            }
            out.push(item);
        }
        i = i + 1;
    }
    assert(all.take(i as int) =~= all);
    assert(texts(out@).len() == out@.len());
    if out.len() == 0 {
        None
    } else {
        Some(out)
    }
}

proof fn lemma_entries(list: Seq<Seq<char>>)
    ensures
        distinct_entries(list).no_duplicates(),
        forall|i: int|
            0 <= i < distinct_entries(list).len() ==> #[trigger] trim(distinct_entries(list)[i])
                == distinct_entries(list)[i] && distinct_entries(list)[i].len() > 0,
    decreases list.len(),
{
    if list.len() > 0 {
        lemma_entries(list.drop_last());
        lemma_trim_twice(list.last());
    }
}

/// A normalized audience names nothing twice, nothing blank, and nothing with
/// blanks around it.
pub proof fn normalized_audiences_are_distinct(list: Seq<Seq<char>>)
    ensures
        distinct_entries(list).no_duplicates(),
        forall|i: int|
            0 <= i < distinct_entries(list).len() ==> #[trigger] trim(distinct_entries(list)[i])
                == distinct_entries(list)[i] && distinct_entries(list)[i].len() > 0,
{
    lemma_entries(list);
}

// ---------------------------------------------------------------------
// Links
// ---------------------------------------------------------------------

/// What a URL is made of, as `url` reads it: its scheme, whether its host is
/// a domain, its user name and whether it holds a password.
pub uninterp spec fn url_parts(url: Seq<char>) -> Option<(Seq<char>, bool, Seq<char>, bool)>;

/// `reqwest::Url::parse`: the scheme of a URL, whether its host is a domain,
/// its user name, and whether it holds a password; none for a text that is
/// no URL. The parts are a function of the text.
#[verifier::external_body]
fn parse_url(url: &str) -> (r: Option<(String, bool, String, bool)>)
    ensures
        match r {
            Some((scheme, domain, user, password)) => url_parts(url@) == Some(
                (scheme@, domain, user@, password),
            ),
            None => url_parts(url@) is None,
        },
{
    match reqwest::Url::parse(url) {
        Ok(u) => Some(
            (
                u.scheme().to_string(),
                u.domain().is_some(),
                u.username().to_string(),
                u.password().is_some(),
            ),
        ),
        Err(_) => None,
    }
}

/// An `https` URL of a domain, without credentials.
pub open spec fn is_https(parts: Option<(Seq<char>, bool, Seq<char>, bool)>) -> bool {
    parts matches Some((scheme, domain, user, password)) && scheme == "https"@ && domain
        && user.len() == 0 && !password
}

/// Neither a control character nor a blank.
pub open spec fn is_solid(s: Seq<char>) -> bool {
    forall|i: int| 0 <= i < s.len() ==> !is_control(#[trigger] s[i]) && !is_space(s[i])
}

/// A call-to-action link: an app path or an `https` URL.
pub open spec fn is_cta_url(url: Seq<char>) -> bool {
    &&& url.len() <= 500
    &&& is_solid(url)
    &&& if url.len() > 0 && url[0] == '/' {
        url.len() == 1 || url[1] != '/' && url[1] != '\\'
    } else {
        is_https(url_parts(url))
    }
}

/// What the parts of a URL say of it.
pub fn https_parts(parts: &Option<(String, bool, String, bool)>) -> (r: bool)
    ensures
        r == match *parts {
            Some((scheme, domain, user, password)) => scheme@ == "https"@ && domain
                && user@.len() == 0 && !password,
            None => false,
        },
{
    match parts {
        Some((scheme, domain, user, password)) => same(scheme.as_str(), "https") && *domain
            && user.as_str().is_empty() && !*password,
        None => false,
    }
}

/// A call-to-action link: an app path (`/dashboard/...`, not `//host`) or
/// an `https` URL, at most 500 characters.
pub fn is_valid_cta_url(url: &str) -> (r: bool)
    ensures
        r == is_cta_url(url@),
{
    let v = chars(url);
    let n = v.len();
    if n > 500 {
        return false;
    }
    let mut i: usize = 0;
    while i < n
        invariant
            v@ == url@,
            n == v@.len(),
            i <= n,
            forall|j: int| 0 <= j < i ==> !is_control(#[trigger] url@[j]) && !is_space(url@[j]),
        decreases n - i,
    {
        if char_is_control(v[i]) || char_is_space(v[i]) {
            assert(is_control(url@[i as int]) || is_space(url@[i as int]));
            return false;
        }
        i = i + 1;
    }
    assert(is_solid(url@));
    if n > 0 && v[0] == '/' {
        return n == 1 || v[1] != '/' && v[1] != '\\';
    }
    https_parts(&parse_url(url))
}

// ---------------------------------------------------------------------
// Drafts
// ---------------------------------------------------------------------

/// One of [`AUDIENCE_ROLES`].
pub open spec fn is_audience_role(s: Seq<char>) -> bool {
    exists|i: int| 0 <= i < 3 && #[trigger] AUDIENCE_ROLES@[i]@ == s
}

fn audience_role(s: &str) -> (r: bool)
    ensures
        r == is_audience_role(s@),
{
    let mut i: usize = 0;
    while i < 3
        invariant
            i <= 3,
            forall|j: int| 0 <= j < i ==> #[trigger] AUDIENCE_ROLES@[j]@ != s@,
        decreases 3 - i,
    {
        if same(AUDIENCE_ROLES[i], s) {
            assert(AUDIENCE_ROLES@[i as int]@ == s@);
            return true;
        }
        i = i + 1;
    }
    false
}

pub open spec fn all_roles_known(v: Seq<Seq<char>>) -> bool {
    forall|i: int| 0 <= i < v.len() ==> is_audience_role(#[trigger] v[i])
}

pub open spec fn all_locales_known(v: Seq<Seq<char>>) -> bool {
    forall|i: int| 0 <= i < v.len() ==> is_supported_language(#[trigger] v[i])
}

fn roles_known(v: &Vec<String>) -> (r: bool)
    ensures
        r == all_roles_known(texts(v@)),
{
    let ghost all = texts(v@);
    let mut i: usize = 0;
    while i < v.len()
        invariant
            all == texts(v@),
            i <= v@.len(),
            forall|j: int| 0 <= j < i ==> is_audience_role(#[trigger] all[j]),
        decreases v@.len() - i,
    {
        assert(all[i as int] == v@[i as int]@);
        if !audience_role(v[i].as_str()) {
            return false;
        }
        i = i + 1;
    }
    true
}

fn locales_known(v: &Vec<String>) -> (r: bool)
    ensures
        r == all_locales_known(texts(v@)),
{
    let ghost all = texts(v@);
    let mut i: usize = 0;
    while i < v.len()
        invariant
            all == texts(v@),
            i <= v@.len(),
            forall|j: int| 0 <= j < i ==> is_supported_language(#[trigger] all[j]),
        decreases v@.len() - i,
    {
        assert(all[i as int] == v@[i as int]@);
        if !language_supported(v[i].as_str()) {
            return false;
        }
        i = i + 1;
    }
    true
}

/// What is wrong with the button of an announcement.
pub open spec fn button_problem(
    label: Option<Seq<char>>,
    url: Option<Seq<char>>,
) -> Option<Seq<char>> {
    match (label, url) {
        (Some(l), Some(u)) => if !(1 <= trim(l).len() <= 40) {
            Some("The button label must have between 1 and 40 characters."@)
        } else if !is_cta_url(u) {
            Some("The button link must be an app path starting with '/' or an https URL."@)
        } else {
            None
        },
        (None, None) => None,
        _ => Some("A button needs both a label and a link."@),
    }
}

fn check_button(label: &Option<String>, url: &Option<String>) -> (r: Option<&'static str>)
    ensures
        opt_str(r) == button_problem(opt_text(*label), opt_text(*url)),
{
    match (label, url) {
        (Some(l), Some(u)) => {
            let len = chars(trimmed(l.as_str()).as_str()).len();
            if len < 1 || len > 40 {
                Some("The button label must have between 1 and 40 characters.")
            } else if !is_valid_cta_url(u.as_str()) {
                Some("The button link must be an app path starting with '/' or an https URL.")
            } else {
                None
            }
        },
        (None, None) => None,
        _ => Some("A button needs both a label and a link."),
    }
}

impl AnnouncementDraft {
    /// The first problem of the draft.
    pub open spec fn problem(self) -> Option<Seq<char>> {
        let button = button_problem(opt_text(self.cta_label), opt_text(self.cta_url));
        if !(3 <= trim(self.title@).len() <= 120) {
            Some("The title must have between 3 and 120 characters."@)
        } else if !(1 <= trim(self.body@).len() <= 5000) {
            Some("The text must have between 1 and 5000 characters."@)
        } else if button is Some {
            button
        } else if self.audience_roles matches Some(v) && !all_roles_known(texts(v@)) {
            Some("Unknown role in the audience."@)
        } else if self.audience_locales matches Some(v) && !all_locales_known(texts(v@)) {
            Some("Unknown language in the audience."@)
        } else if self.starts_at matches Some(start) && self.ends_at matches Some(end) && end@
            <= start@ {
            Some("The end must be after the start."@)
        } else if !(self.show_modal || self.show_banner || self.send_notification
            || self.send_email) {
            Some("Choose at least one channel."@)
        } else if self.requires_acknowledgement && !self.show_modal {
            Some("Announcements that require acknowledgement must be shown as a modal."@)
        } else {
            None
        }
    }

    /// Checks every rule except plan codes (which need the database).
    /// Returns the first problem as a message.
    pub fn check(&self) -> (r: Result<(), String>)
        ensures
            match self.problem() {
                None => r is Ok,
                Some(m) => r matches Err(e) && e@ == m,
            },
    {
        let title_len = chars(trimmed(self.title.as_str()).as_str()).len();
        if title_len < 3 || title_len > 120 {
            return Err("The title must have between 3 and 120 characters.".to_string());
        }
        let body_len = chars(trimmed(self.body.as_str()).as_str()).len();
        if body_len < 1 || body_len > 5000 {
            return Err("The text must have between 1 and 5000 characters.".to_string());
        }
        if let Some(m) = check_button(&self.cta_label, &self.cta_url) {
            return Err(m.to_string());
        }
        if let Some(roles) = &self.audience_roles {
            if !roles_known(roles) {
                return Err("Unknown role in the audience.".to_string());
            }
        }
        if let Some(locales) = &self.audience_locales {
            if !locales_known(locales) {
                return Err("Unknown language in the audience.".to_string());
            }
        }
        if let (Some(start), Some(end)) = (self.starts_at, self.ends_at) {
            if !start.is_before(&end) {
                return Err("The end must be after the start.".to_string());
            }
        }
        if !(self.show_modal || self.show_banner || self.send_notification || self.send_email) {
            return Err("Choose at least one channel.".to_string());
        }
        if self.requires_acknowledgement && !self.show_modal {
            return Err(
                "Announcements that require acknowledgement must be shown as a modal.".to_string(),
            );
        }
        Ok(())
    }
}

#[derive(Debug, Clone, Default)]
pub struct AnnouncementListQuery {
    /// `draft`, `scheduled`, `active`, `ended` or `archived`.
    pub status: Option<String>,
    pub page: Option<i64>,
    pub per_page: Option<i64>,
}

} // verus!
