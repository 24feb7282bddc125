//! Transactional e-mail templates, rendered in English, Brazilian
//! Portuguese and Spanish.
//!
//! Every template produces a subject, an HTML body and a plain-text body
//! from the same content blocks, so both parts always say the same thing.
//! Every variable is HTML-escaped; only the fixed copy is trusted.

use crate::email::content::content_of;
use crate::email::render::{
    clean_subject, footer, html_of, message_text, render_html, render_text, subject_line,
    RenderContext, RenderedEmail,
};
use crate::email::render::footer_of;
use crate::json::{lemma_object_view, members, text_in, text_member, Json, JsonValue};
use crate::models::communication::Category;
use crate::text::{opt_text, replace, replaced, same};
use crate::time::{
    chrono_date_text, second_of, NaiveDate, NaiveDateTime, DAY_MONTH_YEAR, MONTH_DAY_YEAR, SECONDS_PER_DAY,
};
use vstd::prelude::*;

verus! {

/// Longest subject line sent.
pub const MAX_SUBJECT_CHARS: usize = 120;

/// The e-mail languages. Anything else falls back to English.
#[derive(Debug, Clone, Copy, PartialEq, Eq, Structural)]
pub enum Locale {
    En,
    PtBr,
    Es,
}

/// The language tag of a locale.
pub open spec fn locale_code(l: Locale) -> Seq<char> {
    match l {
        Locale::En => "en"@,
        Locale::PtBr => "pt-BR"@,
        Locale::Es => "es"@,
    }
}

/// The locale a language tag stands for.
pub open spec fn locale_named(value: Seq<char>) -> Locale {
    if value == "pt-BR"@ || value == "pt"@ || value == "pt_BR"@ {
        Locale::PtBr
    } else if value == "es"@ {
        Locale::Es
    } else {
        Locale::En
    }
}

/// A text of the library in the language of `l`.
pub open spec fn say(l: Locale, t: [&'static str; 3]) -> Seq<char> {
    match l {
        Locale::En => t@[0]@,
        Locale::PtBr => t@[1]@,
        Locale::Es => t@[2]@,
    }
}

/// `s` with `v` in the places marked `{key}`.
pub open spec fn fill(s: Seq<char>, key: Seq<char>, v: Seq<char>) -> Seq<char> {
    replace(s, seq!['{'] + key + seq!['}'], v)
}

/// A date as written in `l`: `Oct 1, 2026` in English, `01/10/2026` elsewhere.
pub open spec fn date_text(l: Locale, day: int) -> Seq<char> {
    chrono_date_text(
        day,
        if l == Locale::En {
            MONTH_DAY_YEAR@
        } else {
            DAY_MONTH_YEAR@
        },
    )
}

/// The day of a moment, as written in `l`.
pub open spec fn moment_text(l: Locale, moment: int) -> Seq<char> {
    date_text(l, second_of(moment) / (SECONDS_PER_DAY as int))
}

/// `text` with `value` in the places marked `{key}`.
pub fn fill_in(text: &str, key: &str, value: &str) -> (r: String)
    ensures
        r@ == fill(text@, key@, value@),
{
    let mut mark = String::new();
    mark.push('{');
    mark.append(key);
    mark.push('}');
    assert(mark@ =~= seq!['{'] + key@ + seq!['}']);
    replaced(text, mark.as_str(), value)
}

impl Locale {
    pub const ALL: [Locale; 3] = [Locale::En, Locale::PtBr, Locale::Es];

    pub fn parse(value: &str) -> (r: Self)
        ensures
            r == locale_named(value@),
    {
        if same(value, "pt-BR") || same(value, "pt") || same(value, "pt_BR") {
            Locale::PtBr
        } else if same(value, "es") {
            Locale::Es
        } else {
            Locale::En
        }
    }

    pub fn code(&self) -> (r: &'static str)
        ensures
            r@ == locale_code(*self),
    {
        match self {
            Locale::En => "en",
            Locale::PtBr => "pt-BR",
            Locale::Es => "es",
        }
    }

    /// Picks the string for this locale.
    pub fn pick<'a>(&self, en: &'a str, pt: &'a str, es: &'a str) -> (r: &'a str)
        ensures
            r@ == (match *self {
                Locale::En => en@,
                Locale::PtBr => pt@,
                Locale::Es => es@,
            }),
    {
        match self {
            Locale::En => en,
            Locale::PtBr => pt,
            Locale::Es => es,
        }
    }

    /// The text in this locale.
    pub fn says(&self, t: [&'static str; 3]) -> (r: &'static str)
        ensures
            r@ == say(*self, t),
    {
        self.pick(t[0], t[1], t[2])
    }

    pub fn format_date(&self, date: NaiveDate) -> (r: String)
        ensures
            r@ == date_text(*self, date@),
    {
        match self {
            Locale::En => date.format(MONTH_DAY_YEAR),
            Locale::PtBr | Locale::Es => date.format(DAY_MONTH_YEAR),
        }
    }

    pub fn format_datetime(&self, value: NaiveDateTime) -> (r: String)
        ensures
            r@ == moment_text(*self, value@),
    {
        self.format_date(value.date())
    }
}

/// The first text among the members of an object.
pub open spec fn first_text(m: Seq<(Seq<char>, Json)>) -> Option<Seq<char>>
    decreases m.len(),
{
    if m.len() == 0 {
        None
    } else if text_in(m[0].1) is Some {
        text_in(m[0].1)
    } else {
        first_text(m.skip(1))
    }
}

/// What a localized value says in `l`: its text in that language, else in
/// English, else in any language, else the value itself when it is a text.
pub open spec fn localized_text(v: Json, l: Locale) -> Seq<char> {
    match text_member(v, locale_code(l)) {
        Some(s) => s,
        None => match text_member(v, "en"@) {
            Some(s) => s,
            None => match v {
                Json::Object(m) => match first_text(m) {
                    Some(s) => s,
                    None => seq![],
                },
                Json::Text(s) => s,
                _ => seq![],
            },
        },
    }
}

/// Picks a localized value out of `{"en": ..., "pt-BR": ..., "es": ...}`,
/// falling back to English, then to any value.
pub fn localized(value: &JsonValue, locale: Locale) -> (r: String)
    ensures
        r@ == localized_text(value@, locale),
{
    if let Some(s) = value.text_of(locale.code()) {
        return s.to_string();
    }
    if let Some(s) = value.text_of("en") {
        return s.to_string();
    }
    match value {
        JsonValue::Object(m) => {
            let ghost all = members(m@);
            proof {
                lemma_object_view(*m);
                assert(all.skip(0) =~= all);
            }
            let mut i: usize = 0;
            while i < m.len()
                invariant
                    all == members(m@),
                    value@ == Json::Object(all),
                    text_member(value@, locale_code(locale)) is None,
                    text_member(value@, "en"@) is None,
                    i <= m@.len(),
                    first_text(all) == first_text(all.skip(i as int)),
                decreases m@.len() - i,
            {
                assert(all.skip(i as int)[0] == all[i as int]);
                assert(all.skip(i as int).skip(1) =~= all.skip(i + 1));
                if let Some(s) = m[i].1.as_str() {
                    return s.to_string();
                }
                i = i + 1;
            }
            let r = String::new();
            assert(r@ =~= seq![]);
            r
        },
        JsonValue::Text(s) => s.clone(),
        _ => {
            let r = String::new();
            assert(r@ =~= seq![]);
            r
        },
    }
}

/// A release note item as stored (`{kind, text: {locale: ...}}`).
#[derive(Debug, Clone, PartialEq)]
pub struct ReleaseItem {
    pub kind: String,
    pub text: JsonValue,
}

/// Every e-mail the platform sends, with its variables. Stored in the
/// outbox as `template` (the variant name) + `payload` (the fields).
#[derive(Debug, Clone, PartialEq)]
pub enum EmailTemplate {
    EmailVerificationCode { username: String, code: String, expires_minutes: i64 },
    PasswordResetCode { username: String, code: String, expires_minutes: i64 },
    EmailChangeCode { username: String, code: String, expires_minutes: i64 },
    PasswordChanged { username: String },
    TwoFactorEnabled { username: String },
    TwoFactorDisabled { username: String },
    EmailChangedNotice {
        username: String,
        /// Partially masked new address (`a***@example.com`).
        new_email_masked: String,
    },
    AccountDeleted { username: String },
    /// Copy of an in-app notification. Title and lines are already
    /// localized (see `email::notification_text`).
    Notification {
        title: String,
        lines: Vec<String>,
        cta_label: Option<String>,
        /// App path, e.g. `/dashboard/bands/<id>`.
        cta_path: Option<String>,
        category: Category,
    },
    Announcement {
        title: String,
        body: String,
        level: String,
        cta_label: Option<String>,
        /// Relative app path (`/dashboard/...`) or absolute `https` URL.
        cta_url: Option<String>,
    },
    ReleaseNotes {
        version: String,
        /// Localized title map.
        title: JsonValue,
        items: Vec<ReleaseItem>,
        released_on: NaiveDate,
    },
    TrialEnding {
        username: String,
        /// Localized plan name map.
        plan_name: JsonValue,
        ends_at: NaiveDateTime,
    },
    SubscriptionChanged {
        username: String,
        /// `plan_granted`, `trial_started`, `extended`, `expired`, `revoked`.
        kind: String,
        plan_name: JsonValue,
        current_period_end: Option<NaiveDateTime>,
    },
    /// Confirmation of a paid subscription (the contract): plan, price,
    /// period, next charge, the terms accepted, how to cancel and the
    /// 7-day withdrawal right.
    SubscriptionConfirmed {
        username: String,
        plan_name: JsonValue,
        /// Minor units per period.
        amount_cents: Option<i64>,
        /// ISO 4217.
        currency: Option<String>,
        /// `monthly` or `yearly`.
        interval: Option<String>,
        next_charge_at: Option<NaiveDateTime>,
        /// Set while a card-on-file trial runs (the first charge is then).
        trial_ends_at: Option<NaiveDateTime>,
        terms_version: Option<String>,
    },
    /// A card-on-file trial ends and the first charge comes (7 days
    /// ahead).
    PaidTrialEnding {
        username: String,
        plan_name: JsonValue,
        amount_cents: Option<i64>,
        currency: Option<String>,
        interval: Option<String>,
        charge_at: NaiveDateTime,
    },
    /// A yearly subscription renews soon.
    RenewalReminder {
        username: String,
        plan_name: JsonValue,
        amount_cents: Option<i64>,
        currency: Option<String>,
        renews_at: NaiveDateTime,
    },
    /// A withdrawal (or a staff refund) was carried out: subscription
    /// ended and money refunded.
    WithdrawalConfirmed {
        username: String,
        plan_name: JsonValue,
        refunded_cents: i64,
        currency: String,
        requested_at: NaiveDateTime,
        /// Ended by staff rather than at the buyer's request.
        by_staff: bool,
    },
    /// A card dispute (chargeback) canceled the subscription.
    PaymentDisputed { username: String, plan_name: JsonValue },
    /// The subscription's price changes from `effective_at`.
    PriceChange {
        username: String,
        plan_name: JsonValue,
        interval: Option<String>,
        old_amount_cents: Option<i64>,
        new_amount_cents: i64,
        currency: Option<String>,
        effective_at: NaiveDateTime,
    },
    Welcome { username: String },
    /// Step-up re-authentication code for an account without a password.
    ReauthCode { username: String, code: String, expires_minutes: i64 },
    /// A security event the owner must hear about. `kind`:
    /// `email_change_started`, `email_in_use`, `google_linked`,
    /// `google_unlinked`, `password_reset_by_staff`,
    /// `email_changed_by_staff`, `login_locked`, `reauth_sessions_revoked`.
    SecurityNotice {
        username: String,
        kind: String,
        /// Masked address (or other short detail) the kind refers to.
        detail: Option<String>,
    },
}

/// The kinds of `SubscriptionChanged` that are about a paid subscription:
/// billing messages, always sent.
pub const BILLING_NOTICE_KINDS: [&'static str; 6] = [
    "subscribed",
    "resumed",
    "plan_changed",
    "payment_failed",
    "cancel_scheduled",
    "canceled",
];

/// Why the recipient gets a message (first line of the footer).
#[derive(Debug, Clone, Copy, PartialEq, Eq, Structural)]
pub enum FooterReason {
    /// Sent to an address typed into an account (not necessarily verified).
    Address,
    Account,
    Security,
    Deleted,
    Critical,
    /// About a paid subscription: always sent, no unsubscribe link.
    Billing,
    Preference(Category),
}

pub open spec fn is_billing_kind(kind: Seq<char>) -> bool {
    exists|i: int| 0 <= i < 6 && (#[trigger] BILLING_NOTICE_KINDS@[i])@ == kind
}

/// The identifier of a template in the outbox.
pub open spec fn template_name(t: EmailTemplate) -> Seq<char> {
    match t {
        EmailTemplate::EmailVerificationCode { .. } => "email_verification_code"@,
        EmailTemplate::PasswordResetCode { .. } => "password_reset_code"@,
        EmailTemplate::EmailChangeCode { .. } => "email_change_code"@,
        EmailTemplate::PasswordChanged { .. } => "password_changed"@,
        EmailTemplate::TwoFactorEnabled { .. } => "two_factor_enabled"@,
        EmailTemplate::TwoFactorDisabled { .. } => "two_factor_disabled"@,
        EmailTemplate::EmailChangedNotice { .. } => "email_changed_notice"@,
        EmailTemplate::AccountDeleted { .. } => "account_deleted"@,
        EmailTemplate::Notification { .. } => "notification"@,
        EmailTemplate::Announcement { .. } => "announcement"@,
        EmailTemplate::ReleaseNotes { .. } => "release_notes"@,
        EmailTemplate::TrialEnding { .. } => "trial_ending"@,
        EmailTemplate::SubscriptionChanged { .. } => "subscription_changed"@,
        EmailTemplate::SubscriptionConfirmed { .. } => "subscription_confirmed"@,
        EmailTemplate::PaidTrialEnding { .. } => "paid_trial_ending"@,
        EmailTemplate::RenewalReminder { .. } => "renewal_reminder"@,
        EmailTemplate::WithdrawalConfirmed { .. } => "withdrawal_confirmed"@,
        EmailTemplate::PaymentDisputed { .. } => "payment_disputed"@,
        EmailTemplate::PriceChange { .. } => "price_change"@,
        EmailTemplate::Welcome { .. } => "welcome"@,
        EmailTemplate::ReauthCode { .. } => "reauth_code"@,
        EmailTemplate::SecurityNotice { .. } => "security_notice"@,
    }
}

/// Why the recipient of `t` gets it.
pub open spec fn reason_of(t: EmailTemplate) -> FooterReason {
    match t {
        EmailTemplate::EmailVerificationCode { .. } | EmailTemplate::EmailChangeCode { .. } =>
            FooterReason::Address,
        EmailTemplate::PasswordResetCode { .. }
        | EmailTemplate::PasswordChanged { .. }
        | EmailTemplate::TwoFactorEnabled { .. }
        | EmailTemplate::TwoFactorDisabled { .. }
        | EmailTemplate::EmailChangedNotice { .. }
        | EmailTemplate::ReauthCode { .. } => FooterReason::Security,
        EmailTemplate::AccountDeleted { .. } => FooterReason::Deleted,
        EmailTemplate::Welcome { .. } => FooterReason::Account,
        EmailTemplate::Notification { category, .. } => if category == Category::Security {
            FooterReason::Security
        } else {
            FooterReason::Preference(category)
        },
        EmailTemplate::Announcement { level, .. } => if level@ == "critical"@ {
            FooterReason::Critical
        } else {
            FooterReason::Preference(Category::Announcements)
        },
        EmailTemplate::ReleaseNotes { .. } => FooterReason::Preference(Category::ProductUpdates),
        EmailTemplate::TrialEnding { .. } => FooterReason::Preference(Category::Account),
        EmailTemplate::SubscriptionChanged { kind, .. } => if is_billing_kind(kind@) {
            FooterReason::Billing
        } else {
            FooterReason::Preference(Category::Account)
        },
        EmailTemplate::SubscriptionConfirmed { .. }
        | EmailTemplate::PaidTrialEnding { .. }
        | EmailTemplate::RenewalReminder { .. }
        | EmailTemplate::WithdrawalConfirmed { .. }
        | EmailTemplate::PaymentDisputed { .. }
        | EmailTemplate::PriceChange { .. } => FooterReason::Billing,
        EmailTemplate::SecurityNotice { kind, .. } => if kind@ == "email_in_use"@ {
            FooterReason::Address
        } else {
            FooterReason::Security
        },
    }
}

/// The category an unsubscribe link in `t` switches off.
pub open spec fn unsubscribable(t: EmailTemplate) -> Option<Category> {
    match reason_of(t) {
        FooterReason::Preference(category) if category != Category::Security => Some(category),
        _ => None,
    }
}

pub fn billing_kind(kind: &str) -> (r: bool)
    ensures
        r == is_billing_kind(kind@),
{
    let mut i: usize = 0;
    while i < 6
        invariant
            i <= 6,
            forall|j: int| 0 <= j < i ==> (#[trigger] BILLING_NOTICE_KINDS@[j])@ != kind@,
        decreases 6 - i,
    {
        if same(BILLING_NOTICE_KINDS[i], kind) {
            assert(BILLING_NOTICE_KINDS@[i as int]@ == kind@);
            return true;
        }
        i = i + 1;
    }
    false
}

impl EmailTemplate {
    /// Outbox `template` identifier.
    pub fn name(&self) -> (r: &'static str)
        ensures
            r@ == template_name(*self),
    {
        match self {
            EmailTemplate::EmailVerificationCode { .. } => "email_verification_code",
            EmailTemplate::PasswordResetCode { .. } => "password_reset_code",
            EmailTemplate::EmailChangeCode { .. } => "email_change_code",
            EmailTemplate::PasswordChanged { .. } => "password_changed",
            EmailTemplate::TwoFactorEnabled { .. } => "two_factor_enabled",
            EmailTemplate::TwoFactorDisabled { .. } => "two_factor_disabled",
            EmailTemplate::EmailChangedNotice { .. } => "email_changed_notice",
            EmailTemplate::AccountDeleted { .. } => "account_deleted",
            EmailTemplate::Notification { .. } => "notification",
            EmailTemplate::Announcement { .. } => "announcement",
            EmailTemplate::ReleaseNotes { .. } => "release_notes",
            EmailTemplate::TrialEnding { .. } => "trial_ending",
            EmailTemplate::SubscriptionChanged { .. } => "subscription_changed",
            EmailTemplate::SubscriptionConfirmed { .. } => "subscription_confirmed",
            EmailTemplate::PaidTrialEnding { .. } => "paid_trial_ending",
            EmailTemplate::RenewalReminder { .. } => "renewal_reminder",
            EmailTemplate::WithdrawalConfirmed { .. } => "withdrawal_confirmed",
            EmailTemplate::PaymentDisputed { .. } => "payment_disputed",
            EmailTemplate::PriceChange { .. } => "price_change",
            EmailTemplate::Welcome { .. } => "welcome",
            EmailTemplate::ReauthCode { .. } => "reauth_code",
            EmailTemplate::SecurityNotice { .. } => "security_notice",
        }
    }

    /// Templates carrying one-time codes: their payload is wiped from the
    /// outbox once the message is sent (or given up on).
    pub fn is_sensitive(&self) -> (r: bool)
        ensures
            r == (self is EmailVerificationCode || self is PasswordResetCode
                || self is EmailChangeCode || self is ReauthCode),
    {
        matches!(
            self,
            EmailTemplate::EmailVerificationCode { .. }
                | EmailTemplate::PasswordResetCode { .. }
                | EmailTemplate::EmailChangeCode { .. }
                | EmailTemplate::ReauthCode { .. }
        )
    }

    /// The preference category an unsubscribe link switches off, or `None`
    /// for messages that can't be unsubscribed from (security and
    /// transactional messages, critical service notices).
    pub fn unsubscribe_category(&self) -> (r: Option<Category>)
        ensures
            r == unsubscribable(*self),
    {
        match self.footer_reason() {
            FooterReason::Preference(category) => if category.locked() {
                None
            } else {
                Some(category)
            },
            _ => None,
        }
    }

    pub fn footer_reason(&self) -> (r: FooterReason)
        ensures
            r == reason_of(*self),
    {
        match self {
            EmailTemplate::EmailVerificationCode { .. } | EmailTemplate::EmailChangeCode { .. } =>
                FooterReason::Address,
            EmailTemplate::PasswordResetCode { .. }
            | EmailTemplate::PasswordChanged { .. }
            | EmailTemplate::TwoFactorEnabled { .. }
            | EmailTemplate::TwoFactorDisabled { .. }
            | EmailTemplate::EmailChangedNotice { .. }
            | EmailTemplate::ReauthCode { .. } => FooterReason::Security,
            EmailTemplate::AccountDeleted { .. } => FooterReason::Deleted,
            EmailTemplate::Welcome { .. } => FooterReason::Account,
            EmailTemplate::Notification { category, .. } => match category {
                Category::Security => FooterReason::Security,
                other => FooterReason::Preference(*other),
            },
            EmailTemplate::Announcement { level, .. } => if same(level.as_str(), "critical") {
                FooterReason::Critical
            } else {
                FooterReason::Preference(Category::Announcements)
            },
            EmailTemplate::ReleaseNotes { .. } => FooterReason::Preference(
                Category::ProductUpdates,
            ),
            EmailTemplate::TrialEnding { .. } => FooterReason::Preference(Category::Account),
            // Notices about a paid subscription are billing messages;
            // plan grants, in-app trials and expiries stay optional.
            EmailTemplate::SubscriptionChanged { kind, .. } => if billing_kind(kind.as_str()) {
                FooterReason::Billing
            } else {
                FooterReason::Preference(Category::Account)
            },
            EmailTemplate::SubscriptionConfirmed { .. }
            | EmailTemplate::PaidTrialEnding { .. }
            | EmailTemplate::RenewalReminder { .. }
            | EmailTemplate::WithdrawalConfirmed { .. }
            | EmailTemplate::PaymentDisputed { .. }
            | EmailTemplate::PriceChange { .. } => FooterReason::Billing,
            // Sent to an address that may belong to someone else's
            // account (or to none): "typed into an account".
            EmailTemplate::SecurityNotice { kind, .. } => if same(kind.as_str(), "email_in_use") {
                FooterReason::Address
            } else {
                FooterReason::Security
            },
        }
    }

    /// Renders the message.
    pub fn render(&self, ctx: &RenderContext) -> (r: RenderedEmail)
        ensures
            r.subject@ == subject_line(content_of(*self, *ctx).subject),
            r.html@ == html_of(
                ctx.locale,
                r.subject@,
                content_of(*self, *ctx),
                footer_of(*ctx, reason_of(*self)),
            ),
            r.text@ == message_text(
                content_of(*self, *ctx),
                footer_of(*ctx, reason_of(*self)),
            ),
            opt_text(r.unsubscribe_url) == opt_text(ctx.unsubscribe_url),
    {
        let content = self.content(ctx);
        let subject = clean_subject(content.subject.as_str());
        let foot = footer(ctx, self.footer_reason());
        let html = render_html(ctx, subject.as_str(), &content, &foot);
        let text = render_text(&content, &foot);
        let unsubscribe_url = match foot.unsubscribe {
            Some((_, _, url)) => Some(url),
            None => None,
        };
        RenderedEmail { subject, html, text, unsubscribe_url }
    }
}

} // verus!
