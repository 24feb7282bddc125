//! What every message says: its content blocks.

use crate::email::render::{app_path, RenderContext};
use crate::email::templates::{
    date_text, fill, fill_in, localized, localized_text, moment_text, say, EmailTemplate, Locale,
    ReleaseItem,
};
use crate::email::wording;
use crate::text::{
    ascii_upper, chars, copies_of, decimal, decimal_of, has_prefix, lemma_texts_push, list1, list2,
    list3, list4, number, number_of, opt_str, opt_text, pieces_by, same, slice_of, split_by,
    starts_with, texts, trim, trimmed, two_digits, two_digits_of, uppered,
};
use crate::time::NaiveDateTime;
use vstd::prelude::*;

verus! {

/// Content blocks shared by the HTML and text renderings. Plain text:
/// escaped when rendered as HTML.
#[derive(Debug, Default)]
pub struct Content {
    pub subject: String,
    pub heading: String,
    pub paragraphs: Vec<String>,
    /// A one-time code, shown large.
    pub code: Option<String>,
    pub items: Vec<String>,
    /// `(label, absolute URL)`.
    pub cta: Option<(String, String)>,
    pub note: Option<String>,
}

/// What a [`Content`] says.
pub ghost struct ContentView {
    pub subject: Seq<char>,
    pub heading: Seq<char>,
    pub paragraphs: Seq<Seq<char>>,
    pub code: Option<Seq<char>>,
    pub items: Seq<Seq<char>>,
    pub cta: Option<(Seq<char>, Seq<char>)>,
    pub note: Option<Seq<char>>,
}

impl View for Content {
    type V = ContentView;

    open spec fn view(&self) -> ContentView {
        ContentView {
            subject: self.subject@,
            heading: self.heading@,
            paragraphs: texts(self.paragraphs@),
            code: opt_text(self.code),
            items: texts(self.items@),
            cta: match self.cta {
                Some(c) => Some((c.0@, c.1@)),
                None => None,
            },
            note: opt_text(self.note),
        }
    }
}

/// A message of a subject, a heading and paragraphs.
pub open spec fn plain(
    subject: Seq<char>,
    heading: Seq<char>,
    paragraphs: Seq<Seq<char>>,
) -> ContentView {
    ContentView { subject, heading, paragraphs, code: None, items: seq![], cta: None, note: None }
}

fn blocks(subject: String, heading: String, paragraphs: Vec<String>) -> (r: Content)
    ensures
        r@ == plain(subject@, heading@, texts(paragraphs@)),
        r.code is None,
        r.cta is None,
        r.note is None,
        texts(r.items@) == Seq::<Seq<char>>::empty(),
{
    let items: Vec<String> = Vec::new();
    assert(texts(items@) =~= seq![]);
    Content { subject, heading, paragraphs, code: None, items, cta: None, note: None }
}

fn says(l: Locale, t: [&'static str; 3]) -> (r: String)
    ensures
        r@ == say(l, t),
{
    l.says(t).to_string()
}

/// A text with one place filled in.
pub open spec fn say_with(l: Locale, t: [&'static str; 3], key: Seq<char>, v: Seq<char>) -> Seq<
    char,
> {
    fill(say(l, t), key, v)
}

fn says_with(l: Locale, t: [&'static str; 3], key: &str, v: &str) -> (r: String)
    ensures
        r@ == say_with(l, t, key@, v@),
{
    fill_in(l.says(t), key, v)
}

// ---------------------------------------------------------------------
// Phrases
// ---------------------------------------------------------------------

pub open spec fn hello(l: Locale, username: Seq<char>) -> Seq<char> {
    say_with(l, wording::HELLO, "u"@, username)
}

pub fn greeting(l: Locale, username: &str) -> (r: String)
    ensures
        r@ == hello(l, username@),
{
    says_with(l, wording::HELLO, "u", username)
}

/// The first `n` of the digits, with `sep` before each digit that starts a
/// group of three, but for the very first digit.
pub open spec fn grouped(digits: Seq<char>, n: int, sep: char) -> Seq<char>
    decreases n,
{
    if n <= 0 {
        seq![]
    } else if n > 1 && (digits.len() - (n - 1)) % 3 == 0 {
        grouped(digits, n - 1, sep).push(sep).push(digits[n - 1])
    } else {
        grouped(digits, n - 1, sep).push(digits[n - 1])
    }
}

/// An amount in minor units as a number: `-1,234.56` in English,
/// `-1.234,56` elsewhere.
pub open spec fn amount_text(l: Locale, cents: int) -> Seq<char> {
    let magnitude: nat = if cents < 0 {
        (-cents) as nat
    } else {
        cents as nat
    };
    let units = decimal(magnitude / 100);
    let sign: Seq<char> = if cents < 0 {
        seq!['-']
    } else {
        seq![]
    };
    let thousands = if l == Locale::En {
        ','
    } else {
        '.'
    };
    let point = if l == Locale::En {
        '.'
    } else {
        ','
    };
    sign + grouped(units, units.len() as int, thousands) + seq![point] + two_digits(magnitude % 100)
}

/// An amount in minor units, as written in `l`.
pub open spec fn money_text(l: Locale, cents: int, currency: Seq<char>) -> Seq<char> {
    let code = ascii_upper(currency);
    if code == "BRL"@ {
        if l == Locale::En {
            "R$"@ + amount_text(l, cents)
        } else {
            "R$ "@ + amount_text(l, cents)
        }
    } else {
        code + " "@ + amount_text(l, cents)
    }
}

/// An amount in minor units, as written in `l` (`R$ 39,90`).
pub fn money(l: Locale, cents: i64, currency: &str) -> (r: String)
    ensures
        r@ == money_text(l, cents as int, currency@),
{
    let magnitude: u64 = if cents >= 0 {
        cents as u64
    } else if cents == i64::MIN {
        9_223_372_036_854_775_808
    } else {
        (-cents) as u64
    };
    let thousands = match l {
        Locale::En => ',',
        Locale::PtBr | Locale::Es => '.',
    };
    let point = match l {
        Locale::En => '.',
        Locale::PtBr | Locale::Es => ',',
    };
    let digits = chars(decimal_of(magnitude / 100).as_str());
    let n = digits.len();
    let mut number = String::new();
    if cents < 0 {
        number.push('-');
    }
    let ghost sign = number@;
    let mut i: usize = 0;
    assert(sign + grouped(digits@, 0, thousands) =~= sign);
    while i < n
        invariant
            n == digits@.len(),
            i <= n,
            number@ == sign + grouped(digits@, i as int, thousands),
        decreases n - i,
    {
        let ghost before = grouped(digits@, i as int, thousands);
        if i > 0 && (n - i) % 3 == 0 {
            number.push(thousands);
            number.push(digits[i]);
            assert((sign + before).push(thousands).push(digits@[i as int]) =~= sign + before.push(
                thousands,
            ).push(digits@[i as int]));
        } else {
            number.push(digits[i]);
            assert((sign + before).push(digits@[i as int]) =~= sign + before.push(
                digits@[i as int],
            ));
        }
        i = i + 1;
    }
    number.push(point);
    number.append(two_digits_of(magnitude % 100).as_str());
    proof {
        let g = grouped(digits@, n as int, thousands);
        assert((sign + g).push(point) + two_digits((magnitude % 100) as nat) =~= sign + g
            + seq![point] + two_digits((magnitude % 100) as nat));
        assert(sign =~= (if cents < 0 {
            seq!['-']
        } else {
            seq![]
        }));
        assert(number@ == amount_text(l, cents as int));
    }
    let code = uppered(currency);
    if same(code.as_str(), "BRL") {
        let mut r = match l {
            Locale::En => "R$".to_string(),
            _ => "R$ ".to_string(),
        };
        r.append(number.as_str());
        r
    } else {
        let mut r = code;
        r.append(" ");
        r.append(number.as_str());
        r
    }
}

pub open spec fn interval_name(l: Locale, interval: Option<Seq<char>>) -> Seq<char> {
    if interval == Some("yearly"@) {
        say(l, wording::YEARLY)
    } else {
        say(l, wording::MONTHLY)
    }
}

/// `monthly` / `yearly` in words.
pub fn interval_label(l: Locale, interval: Option<&str>) -> (r: &'static str)
    ensures
        r@ == interval_name(l, opt_str(interval)),
{
    match interval {
        Some(i) => if same(i, "yearly") {
            l.says(wording::YEARLY)
        } else {
            l.says(wording::MONTHLY)
        },
        None => l.says(wording::MONTHLY),
    }
}

/// The price of a subscription, when the amount is known.
pub open spec fn price(
    l: Locale,
    cents: Option<i64>,
    currency: Option<Seq<char>>,
    interval: Option<Seq<char>>,
) -> Option<Seq<char>> {
    match cents {
        None => None,
        Some(n) => {
            let amount = money_text(
                l,
                n as int,
                match currency {
                    Some(c) => c,
                    None => "BRL"@,
                },
            );
            match interval {
                None => Some(amount),
                Some(i) => if i == "yearly"@ {
                    Some(say_with(l, wording::PER_YEAR, "v"@, amount))
                } else {
                    Some(say_with(l, wording::PER_MONTH, "v"@, amount))
                },
            }
        },
    }
}

/// "R$ 39,90 per month", when the amount is known.
pub fn price_text(
    l: Locale,
    cents: Option<i64>,
    currency: Option<&str>,
    interval: Option<&str>,
) -> (r: Option<String>)
    ensures
        opt_text(r) == price(l, cents, opt_str(currency), opt_str(interval)),
{
    match cents {
        None => None,
        Some(n) => {
            let amount = money(
                l,
                n,
                match currency {
                    Some(c) => c,
                    None => "BRL",
                },
            );
            Some(
                match interval {
                    None => amount,
                    Some(i) => if same(i, "yearly") {
                        says_with(l, wording::PER_YEAR, "v", amount.as_str())
                    } else {
                        says_with(l, wording::PER_MONTH, "v", amount.as_str())
                    },
                },
            )
        },
    }
}

/// The 7-day withdrawal right, as every billing e-mail states it.
pub fn withdrawal_right(l: Locale) -> (r: String)
    ensures
        r@ == say(l, wording::WITHDRAWAL_RIGHT),
{
    says(l, wording::WITHDRAWAL_RIGHT)
}

pub fn manage_label(l: Locale) -> (r: String)
    ensures
        r@ == say(l, wording::MANAGE_SUBSCRIPTION),
{
    says(l, wording::MANAGE_SUBSCRIPTION)
}

/// "Wasn't you?" advice closing every security message.
pub fn security_hint(l: Locale) -> (r: String)
    ensures
        r@ == say(l, wording::SECURITY_HINT),
{
    says(l, wording::SECURITY_HINT)
}

pub open spec fn release_kind(l: Locale, kind: Seq<char>) -> Seq<char> {
    if kind == "new"@ {
        say(l, wording::KIND_NEW)
    } else if kind == "improved"@ {
        say(l, wording::KIND_IMPROVED)
    } else if kind == "fixed"@ {
        say(l, wording::KIND_FIXED)
    } else if kind == "security"@ {
        say(l, wording::KIND_SECURITY)
    } else {
        say(l, wording::KIND_UPDATE)
    }
}

pub fn release_kind_label(l: Locale, kind: &str) -> (r: &'static str)
    ensures
        r@ == release_kind(l, kind@),
{
    if same(kind, "new") {
        l.says(wording::KIND_NEW)
    } else if same(kind, "improved") {
        l.says(wording::KIND_IMPROVED)
    } else if same(kind, "fixed") {
        l.says(wording::KIND_FIXED)
    } else if same(kind, "security") {
        l.says(wording::KIND_SECURITY)
    } else {
        l.says(wording::KIND_UPDATE)
    }
}

// ---------------------------------------------------------------------
// Codes and account security
// ---------------------------------------------------------------------

/// The four texts of a message that carries a code.
pub open spec fn code_content(
    l: Locale,
    subject: [&'static str; 3],
    heading: [&'static str; 3],
    paragraphs: Seq<Seq<char>>,
    code: Seq<char>,
    note: [&'static str; 3],
) -> ContentView {
    ContentView {
        code: Some(code),
        note: Some(say(l, note)),
        ..plain(say(l, subject), say(l, heading), paragraphs)
    }
}

fn code_message(
    l: Locale,
    subject: [&'static str; 3],
    heading: [&'static str; 3],
    paragraphs: Vec<String>,
    code: &String,
    note: [&'static str; 3],
) -> (r: Content)
    ensures
        r@ == code_content(l, subject, heading, texts(paragraphs@), code@, note),
{
    let mut c = blocks(says(l, subject), says(l, heading), paragraphs);
    c.code = Some(code.clone());
    c.note = Some(says(l, note));
    c
}

/// A message with a closing note and no code.
pub open spec fn noted(
    l: Locale,
    subject: [&'static str; 3],
    heading: [&'static str; 3],
    paragraphs: Seq<Seq<char>>,
    note: [&'static str; 3],
) -> ContentView {
    ContentView {
        note: Some(say(l, note)),
        ..plain(say(l, subject), say(l, heading), paragraphs)
    }
}

fn noted_message(
    l: Locale,
    subject: [&'static str; 3],
    heading: [&'static str; 3],
    paragraphs: Vec<String>,
    note: [&'static str; 3],
) -> (r: Content)
    ensures
        r@ == noted(l, subject, heading, texts(paragraphs@), note),
{
    let mut c = blocks(says(l, subject), says(l, heading), paragraphs);
    c.note = Some(says(l, note));
    c
}

/// Subject, heading and body of a security notice, by its kind.
pub open spec fn notice_wording(kind: Seq<char>) -> (
    [&'static str; 3],
    [&'static str; 3],
    [&'static str; 3],
) {
    if kind == "email_change_started"@ {
        (wording::NOTICE_CHANGE_SUBJECT, wording::NOTICE_CHANGE_HEADING, wording::NOTICE_CHANGE_BODY)
    } else if kind == "email_in_use"@ {
        (wording::NOTICE_IN_USE_SUBJECT, wording::NOTICE_IN_USE_HEADING, wording::NOTICE_IN_USE_BODY)
    } else if kind == "google_linked"@ {
        (wording::NOTICE_LINKED_SUBJECT, wording::NOTICE_LINKED_HEADING, wording::NOTICE_LINKED_BODY)
    } else if kind == "google_unlinked"@ {
        (
            wording::NOTICE_UNLINKED_SUBJECT,
            wording::NOTICE_UNLINKED_HEADING,
            wording::NOTICE_UNLINKED_BODY,
        )
    } else if kind == "password_reset_by_staff"@ {
        (
            wording::NOTICE_STAFF_RESET_SUBJECT,
            wording::NOTICE_STAFF_RESET_HEADING,
            wording::NOTICE_STAFF_RESET_BODY,
        )
    } else if kind == "email_changed_by_staff"@ {
        (
            wording::NOTICE_STAFF_EMAIL_SUBJECT,
            wording::NOTICE_STAFF_EMAIL_HEADING,
            wording::NOTICE_STAFF_EMAIL_BODY,
        )
    } else if kind == "login_locked"@ {
        (wording::NOTICE_LOCKED_SUBJECT, wording::NOTICE_LOCKED_HEADING, wording::NOTICE_LOCKED_BODY)
    } else {
        (
            wording::NOTICE_SIGNED_OUT_SUBJECT,
            wording::NOTICE_SIGNED_OUT_HEADING,
            wording::NOTICE_SIGNED_OUT_BODY,
        )
    }
}

/// The content of a security notice.
pub open spec fn security_notice(
    ctx: RenderContext,
    username: Seq<char>,
    kind: Seq<char>,
    detail: Option<Seq<char>>,
) -> ContentView {
    let l = ctx.locale;
    let w = notice_wording(kind);
    let d = match detail {
        Some(d) => d,
        None => ""@,
    };
    let known = kind != "email_in_use"@;
    ContentView {
        cta: if known {
            Some(
                (
                    say(l, wording::REVIEW_SECURITY),
                    app_path(ctx, "/dashboard/settings?section=security"@),
                ),
            )
        } else {
            None
        },
        note: Some(
            if known {
                say(l, wording::SECURITY_HINT)
            } else {
                say(l, wording::NOTICE_IN_USE_NOTE)
            },
        ),
        ..plain(
            say(l, w.0),
            say(l, w.1),
            seq![fill(fill(say(l, w.2), "u"@, username), "d"@, d)],
        )
    }
}

fn notice_texts(kind: &str) -> (r: ([&'static str; 3], [&'static str; 3], [&'static str; 3]))
    ensures
        r == notice_wording(kind@),
{
    if same(kind, "email_change_started") {
        (wording::NOTICE_CHANGE_SUBJECT, wording::NOTICE_CHANGE_HEADING, wording::NOTICE_CHANGE_BODY)
    } else if same(kind, "email_in_use") {
        (wording::NOTICE_IN_USE_SUBJECT, wording::NOTICE_IN_USE_HEADING, wording::NOTICE_IN_USE_BODY)
    } else if same(kind, "google_linked") {
        (wording::NOTICE_LINKED_SUBJECT, wording::NOTICE_LINKED_HEADING, wording::NOTICE_LINKED_BODY)
    } else if same(kind, "google_unlinked") {
        (
            wording::NOTICE_UNLINKED_SUBJECT,
            wording::NOTICE_UNLINKED_HEADING,
            wording::NOTICE_UNLINKED_BODY,
        )
    } else if same(kind, "password_reset_by_staff") {
        (
            wording::NOTICE_STAFF_RESET_SUBJECT,
            wording::NOTICE_STAFF_RESET_HEADING,
            wording::NOTICE_STAFF_RESET_BODY,
        )
    } else if same(kind, "email_changed_by_staff") {
        (
            wording::NOTICE_STAFF_EMAIL_SUBJECT,
            wording::NOTICE_STAFF_EMAIL_HEADING,
            wording::NOTICE_STAFF_EMAIL_BODY,
        )
    } else if same(kind, "login_locked") {
        (wording::NOTICE_LOCKED_SUBJECT, wording::NOTICE_LOCKED_HEADING, wording::NOTICE_LOCKED_BODY)
    } else {
        (
            wording::NOTICE_SIGNED_OUT_SUBJECT,
            wording::NOTICE_SIGNED_OUT_HEADING,
            wording::NOTICE_SIGNED_OUT_BODY,
        )
    }
}

/// Content of a `SecurityNotice`.
pub fn security_notice_content(
    ctx: &RenderContext,
    username: &str,
    kind: &str,
    detail: Option<&str>,
) -> (r: Content)
    ensures
        r@ == security_notice(*ctx, username@, kind@, opt_str(detail)),
{
    let l = ctx.locale;
    let w = notice_texts(kind);
    let d = match detail {
        Some(d) => d,
        None => "",
    };
    let body = fill_in(fill_in(l.says(w.2), "u", username).as_str(), "d", d);
    let mut c = blocks(says(l, w.0), says(l, w.1), list1(body));
    if same(kind, "email_in_use") {
        c.note = Some(says(l, wording::NOTICE_IN_USE_NOTE));
    } else {
        c.cta = Some(
            (says(l, wording::REVIEW_SECURITY), ctx.app_url("/dashboard/settings?section=security")),
        );
        c.note = Some(security_hint(l));
    }
    c
}

// ---------------------------------------------------------------------
// Announcements, notifications and release notes
// ---------------------------------------------------------------------

/// The pieces that are not blank, trimmed.
pub open spec fn not_blank(pieces: Seq<Seq<char>>) -> Seq<Seq<char>>
    decreases pieces.len(),
{
    if pieces.len() == 0 {
        seq![]
    } else if trim(pieces.last()).len() > 0 {
        not_blank(pieces.drop_last()).push(trim(pieces.last()))
    } else {
        not_blank(pieces.drop_last())
    }
}

/// The paragraphs of an announcement: what stands between blank lines.
pub open spec fn body_paragraphs(body: Seq<char>) -> Seq<Seq<char>> {
    not_blank(split_by(body, "\n\n"@))
}

fn paragraphs_of(body: &str) -> (r: Vec<String>)
    ensures
        texts(r@) == body_paragraphs(body@),
{
    proof {
        reveal_strlit("\n\n");
    }
    let pieces = pieces_by(body, "\n\n");
    let ghost all = texts(pieces@);
    let mut r: Vec<String> = Vec::new();
    let mut i: usize = 0;
    assert(all.take(0) =~= seq![]);
    assert(texts(r@) =~= seq![]);
    while i < pieces.len()
        invariant
            all == texts(pieces@),
            i <= pieces@.len(),
            texts(r@) == not_blank(all.take(i as int)),
        decreases pieces@.len() - i,
    {
        let t = trimmed(pieces[i].as_str());
        assert(all.take(i + 1).drop_last() =~= all.take(i as int));
        assert(all.take(i + 1).last() == all[i as int]);
        if !t.as_str().is_empty() {
            proof {
                lemma_texts_push(r@, t);
            }
            r.push(t);
        }
        i = i + 1;
    }
    assert(all.take(i as int) =~= all);
    r
}

/// The button of an announcement: an `https` address as it is, a path under
/// the app's address; anything else gives no button.
pub open spec fn announcement_cta(
    ctx: RenderContext,
    label: Option<Seq<char>>,
    url: Option<Seq<char>>,
) -> Option<(Seq<char>, Seq<char>)> {
    match (label, url) {
        (Some(label), Some(url)) => if starts_with(url, "https://"@) {
            Some((label, url))
        } else if starts_with(url, "/"@) {
            Some((label, app_path(ctx, url)))
        } else {
            None
        },
        _ => None,
    }
}

/// The list entries of a release: the kind of the change and its text.
pub open spec fn release_lines(l: Locale, items: Seq<ReleaseItem>) -> Seq<Seq<char>> {
    Seq::new(
        items.len(),
        |i: int| release_kind(l, items[i].kind@) + ": "@ + localized_text(items[i].text@, l),
    )
}

fn release_items(l: Locale, items: &Vec<ReleaseItem>) -> (r: Vec<String>)
    ensures
        texts(r@) == release_lines(l, items@),
{
    let mut r: Vec<String> = Vec::new();
    let mut i: usize = 0;
    while i < items.len()
        invariant
            i <= items@.len(),
            texts(r@) =~= release_lines(l, items@).take(i as int),
        decreases items@.len() - i,
    {
        let mut line = release_kind_label(l, items[i].kind.as_str()).to_string();
        line.append(": ");
        line.append(localized(&items[i].text, l).as_str());
        proof {
            lemma_texts_push(r@, line);
        }
        r.push(line);
        i = i + 1;
    }
    assert(texts(r@) =~= release_lines(l, items@));
    r
}

fn announcement(
    ctx: &RenderContext,
    title: &String,
    body: &String,
    level: &String,
    cta_label: &Option<String>,
    cta_url: &Option<String>,
) -> (r: Content)
    ensures
        r@ == (ContentView {
            cta: announcement_cta(*ctx, opt_text(*cta_label), opt_text(*cta_url)),
            ..plain(
                if level@ == "critical"@ {
                    say(ctx.locale, wording::IMPORTANT_NOTICE) + " "@ + title@
                } else {
                    title@
                },
                title@,
                body_paragraphs(body@),
            )
        }),
{
    let subject = if same(level.as_str(), "critical") {
        let mut s = says(ctx.locale, wording::IMPORTANT_NOTICE);
        s.append(" ");
        s.append(title.as_str());
        s
    } else {
        title.clone()
    };
    let mut c = blocks(subject, title.clone(), paragraphs_of(body.as_str()));
    if let Some(label) = cta_label {
        if let Some(url) = cta_url {
            if has_prefix(url.as_str(), "https://") {
                c.cta = Some((label.clone(), url.clone()));
            } else if has_prefix(url.as_str(), "/") {
                c.cta = Some((label.clone(), ctx.app_url(url.as_str())));
            }
        }
    }
    c
}

// ---------------------------------------------------------------------
// Plans and payments
// ---------------------------------------------------------------------

/// The line about a changed subscription, the plan's name still to fill in.
pub open spec fn plan_line(l: Locale, kind: Seq<char>, date: Option<Seq<char>>) -> Seq<char> {
    if kind == "trial_started"@ && date is Some {
        say_with(l, wording::PLAN_TRIAL_STARTED, "d"@, date->0)
    } else if kind == "expired"@ {
        say(l, wording::PLAN_EXPIRED)
    } else if kind == "revoked"@ {
        say(l, wording::PLAN_REVOKED)
    } else if (kind == "subscribed"@ || kind == "resumed"@) && date is Some {
        say_with(l, wording::PLAN_SUBSCRIBED, "d"@, date->0)
    } else if kind == "plan_changed"@ && date is Some {
        say_with(l, wording::PLAN_CHANGED, "d"@, date->0)
    } else if kind == "payment_failed"@ {
        say(l, wording::PLAN_PAYMENT_FAILED)
    } else if kind == "cancel_scheduled"@ && date is Some {
        say_with(l, wording::PLAN_CANCEL_SCHEDULED, "d"@, date->0)
    } else if kind == "canceled"@ {
        say(l, wording::PLAN_CANCELED)
    } else if date is Some {
        say_with(l, wording::PLAN_UNTIL, "d"@, date->0)
    } else {
        say(l, wording::PLAN_NOW)
    }
}

fn plan_line_of(l: Locale, kind: &str, date: &Option<String>) -> (r: String)
    ensures
        r@ == plan_line(l, kind@, opt_text(*date)),
{
    if let Some(d) = date {
        if same(kind, "trial_started") {
            return says_with(l, wording::PLAN_TRIAL_STARTED, "d", d.as_str());
        }
    }
    if same(kind, "expired") {
        return says(l, wording::PLAN_EXPIRED);
    }
    if same(kind, "revoked") {
        return says(l, wording::PLAN_REVOKED);
    }
    match date {
        Some(d) => if same(kind, "subscribed") || same(kind, "resumed") {
            says_with(l, wording::PLAN_SUBSCRIBED, "d", d.as_str())
        } else if same(kind, "plan_changed") {
            says_with(l, wording::PLAN_CHANGED, "d", d.as_str())
        } else if same(kind, "payment_failed") {
            says(l, wording::PLAN_PAYMENT_FAILED)
        } else if same(kind, "cancel_scheduled") {
            says_with(l, wording::PLAN_CANCEL_SCHEDULED, "d", d.as_str())
        } else if same(kind, "canceled") {
            says(l, wording::PLAN_CANCELED)
        } else {
            says_with(l, wording::PLAN_UNTIL, "d", d.as_str())
        },
        None => if same(kind, "payment_failed") {
            says(l, wording::PLAN_PAYMENT_FAILED)
        } else if same(kind, "canceled") {
            says(l, wording::PLAN_CANCELED)
        } else {
            says(l, wording::PLAN_NOW)
        },
    }
}

pub open spec fn opt_moment(l: Locale, t: Option<NaiveDateTime>) -> Option<Seq<char>> {
    match t {
        Some(t) => Some(moment_text(l, t@)),
        None => None,
    }
}

fn opt_date(l: Locale, t: &Option<NaiveDateTime>) -> (r: Option<String>)
    ensures
        opt_text(r) == opt_moment(l, *t),
{
    match t {
        Some(t) => Some(l.format_datetime(*t)),
        None => None,
    }
}

/// The button to the subscription settings.
pub open spec fn manage_cta(ctx: RenderContext) -> Option<(Seq<char>, Seq<char>)> {
    Some(
        (
            say(ctx.locale, wording::MANAGE_SUBSCRIPTION),
            app_path(ctx, "/dashboard/settings#subscription"@),
        ),
    )
}

fn manage_button(ctx: &RenderContext) -> (r: (String, String))
    ensures
        Some((r.0@, r.1@)) == manage_cta(*ctx),
{
    (manage_label(ctx.locale), ctx.app_url("/dashboard/settings#subscription"))
}

/// When the next charge of a confirmed subscription comes.
pub open spec fn charge_lines(
    l: Locale,
    trial_ends: Option<Seq<char>>,
    next: Option<Seq<char>>,
) -> Seq<Seq<char>> {
    match (trial_ends, next) {
        (Some(d), _) => seq![say_with(l, wording::CONFIRMED_TRIAL, "d"@, d)],
        (None, Some(d)) => seq![say_with(l, wording::CONFIRMED_NEXT, "d"@, d)],
        (None, None) => seq![],
    }
}

/// The confirmation of a paid subscription: plan and price, the next charge,
/// renewal and cancellation, the withdrawal right and the terms.
pub open spec fn confirmation(
    ctx: RenderContext,
    username: Seq<char>,
    plan: Seq<char>,
    price: Option<Seq<char>>,
    next: Option<Seq<char>>,
    trial_ends: Option<Seq<char>>,
    terms_version: Option<Seq<char>>,
) -> ContentView {
    let l = ctx.locale;
    let confirmed = match price {
        Some(v) => say_with(l, wording::CONFIRMED_AT_PRICE, "v"@, v),
        None => say(l, wording::CONFIRMED_PLAIN),
    };
    let version = match terms_version {
        Some(v) => v,
        None => "-"@,
    };
    let terms = fill(
        fill(
            say_with(l, wording::CONFIRMED_TERMS, "v"@, version),
            "s"@,
            app_path(ctx, "/legal/subscription"@),
        ),
        "t"@,
        app_path(ctx, "/legal/terms"@),
    );
    ContentView {
        cta: manage_cta(ctx),
        note: Some(say(l, wording::CONFIRMED_NOTE)),
        ..plain(
            say(l, wording::CONFIRMED_SUBJECT),
            say(l, wording::CONFIRMED_HEADING),
            seq![hello(l, username), fill(confirmed, "p"@, plan)] + charge_lines(
                l,
                trial_ends,
                next,
            ) + seq![
                say(l, wording::CONFIRMED_RENEWAL),
                say(l, wording::WITHDRAWAL_RIGHT),
                terms,
            ],
        )
    }
}

fn confirmed(
    ctx: &RenderContext,
    username: &str,
    plan: &str,
    price: &Option<String>,
    next: &Option<String>,
    trial_ends: &Option<String>,
    terms_version: &Option<String>,
) -> (r: Content)
    ensures
        r@ == confirmation(
            *ctx,
            username@,
            plan@,
            opt_text(*price),
            opt_text(*next),
            opt_text(*trial_ends),
            opt_text(*terms_version),
        ),
{
    let l = ctx.locale;
    let line = match price {
        Some(v) => says_with(l, wording::CONFIRMED_AT_PRICE, "v", v.as_str()),
        None => says(l, wording::CONFIRMED_PLAIN),
    };
    let second = fill_in(line.as_str(), "p", plan);
    let mut paragraphs = list2(greeting(l, username), second);
    let ghost start = texts(paragraphs@);
    match trial_ends {
        Some(d) => {
            let t = says_with(l, wording::CONFIRMED_TRIAL, "d", d.as_str());
            proof {
                lemma_texts_push(paragraphs@, t);
            }
            paragraphs.push(t);
        },
        None => {
            if let Some(d) = next {
                let t = says_with(l, wording::CONFIRMED_NEXT, "d", d.as_str());
                proof {
                    lemma_texts_push(paragraphs@, t);
                }
                paragraphs.push(t);
            }
        },
    }
    proof {
        assert(texts(paragraphs@) =~= start + charge_lines(l, opt_text(*trial_ends), opt_text(*next)));
    }
    let ghost middle = texts(paragraphs@);
    let renewal = says(l, wording::CONFIRMED_RENEWAL);
    let right = withdrawal_right(l);
    let version = match terms_version {
        Some(v) => v.as_str(),
        None => "-",
    };
    let terms = fill_in(
        fill_in(
            says_with(l, wording::CONFIRMED_TERMS, "v", version).as_str(),
            "s",
            ctx.app_url("/legal/subscription").as_str(),
        ).as_str(),
        "t",
        ctx.app_url("/legal/terms").as_str(),
    );
    proof {
        lemma_texts_push(paragraphs@, renewal);
        lemma_texts_push(paragraphs@.push(renewal), right);
        lemma_texts_push(paragraphs@.push(renewal).push(right), terms);
    }
    paragraphs.push(renewal);
    paragraphs.push(right);
    paragraphs.push(terms);
    proof {
        assert(texts(paragraphs@) =~= middle + seq![renewal@, right@, terms@]);
    }
    let mut c = blocks(
        says(l, wording::CONFIRMED_SUBJECT),
        says(l, wording::CONFIRMED_HEADING),
        paragraphs,
    );
    c.cta = Some(manage_button(ctx));
    c.note = Some(says(l, wording::CONFIRMED_NOTE));
    c
}

/// The first charge of a card-on-file trial.
pub open spec fn first_charge(
    ctx: RenderContext,
    username: Seq<char>,
    plan: Seq<char>,
    price: Option<Seq<char>>,
    date: Seq<char>,
) -> ContentView {
    let l = ctx.locale;
    let charge = match price {
        Some(v) => say_with(l, wording::FIRST_CHARGE_AT_PRICE, "v"@, v),
        None => say(l, wording::FIRST_CHARGE_PLAIN),
    };
    ContentView {
        cta: manage_cta(ctx),
        ..plain(
            say_with(l, wording::FIRST_CHARGE_SUBJECT, "d"@, date),
            say_with(l, wording::FIRST_CHARGE_HEADING, "d"@, date),
            seq![
                hello(l, username),
                fill(fill(charge, "d"@, date), "p"@, plan),
                say_with(l, wording::FIRST_CHARGE_AVOID, "d"@, date),
                say(l, wording::WITHDRAWAL_RIGHT),
            ],
        )
    }
}

fn first_charge_message(
    ctx: &RenderContext,
    username: &str,
    plan: &str,
    price: &Option<String>,
    date: &str,
) -> (r: Content)
    ensures
        r@ == first_charge(*ctx, username@, plan@, opt_text(*price), date@),
{
    let l = ctx.locale;
    let charge = match price {
        Some(v) => says_with(l, wording::FIRST_CHARGE_AT_PRICE, "v", v.as_str()),
        None => says(l, wording::FIRST_CHARGE_PLAIN),
    };
    let line = fill_in(fill_in(charge.as_str(), "d", date).as_str(), "p", plan);
    let mut c = blocks(
        says_with(l, wording::FIRST_CHARGE_SUBJECT, "d", date),
        says_with(l, wording::FIRST_CHARGE_HEADING, "d", date),
        list4(
            greeting(l, username),
            line,
            says_with(l, wording::FIRST_CHARGE_AVOID, "d", date),
            withdrawal_right(l),
        ),
    );
    c.cta = Some(manage_button(ctx));
    c
}

/// The renewal of a yearly subscription.
pub open spec fn renewal(
    ctx: RenderContext,
    username: Seq<char>,
    plan: Seq<char>,
    price: Option<Seq<char>>,
    date: Seq<char>,
) -> ContentView {
    let l = ctx.locale;
    let line = match price {
        Some(v) => say_with(l, wording::RENEWAL_AT_PRICE, "v"@, v),
        None => say(l, wording::RENEWAL_PLAIN),
    };
    ContentView {
        cta: manage_cta(ctx),
        ..plain(
            say_with(l, wording::RENEWAL_SUBJECT, "d"@, date),
            say(l, wording::RENEWAL_HEADING),
            seq![
                hello(l, username),
                fill(fill(line, "d"@, date), "p"@, plan),
                say(l, wording::RENEWAL_CANCEL),
                say(l, wording::WITHDRAWAL_RIGHT),
            ],
        )
    }
}

fn renewal_message(
    ctx: &RenderContext,
    username: &str,
    plan: &str,
    price: &Option<String>,
    date: &str,
) -> (r: Content)
    ensures
        r@ == renewal(*ctx, username@, plan@, opt_text(*price), date@),
{
    let l = ctx.locale;
    let text = match price {
        Some(v) => says_with(l, wording::RENEWAL_AT_PRICE, "v", v.as_str()),
        None => says(l, wording::RENEWAL_PLAIN),
    };
    let line = fill_in(fill_in(text.as_str(), "d", date).as_str(), "p", plan);
    let mut c = blocks(
        says_with(l, wording::RENEWAL_SUBJECT, "d", date),
        says(l, wording::RENEWAL_HEADING),
        list4(
            greeting(l, username),
            line,
            says(l, wording::RENEWAL_CANCEL),
            withdrawal_right(l),
        ),
    );
    c.cta = Some(manage_button(ctx));
    c
}

/// A subscription ended and refunded.
pub open spec fn withdrawal(
    ctx: RenderContext,
    username: Seq<char>,
    plan: Seq<char>,
    refunded_cents: int,
    currency: Seq<char>,
    requested: Seq<char>,
    by_staff: bool,
) -> ContentView {
    let l = ctx.locale;
    let ended = if by_staff {
        say_with(l, wording::ENDED_BY_STAFF, "p"@, plan)
    } else {
        fill(say_with(l, wording::ENDED_BY_REQUEST, "d"@, requested), "p"@, plan)
    };
    let refund = if refunded_cents > 0 {
        say_with(l, wording::REFUNDED, "v"@, money_text(l, refunded_cents, currency))
    } else {
        say(l, wording::NOTHING_REFUNDED)
    };
    ContentView {
        cta: manage_cta(ctx),
        note: Some(say(l, wording::ENDED_NOTE)),
        ..plain(
            if by_staff {
                say(l, wording::ENDED_STAFF_SUBJECT)
            } else {
                say(l, wording::ENDED_SUBJECT)
            },
            say(l, wording::ENDED_HEADING),
            seq![hello(l, username), ended, refund, say(l, wording::ENDED_NO_PLAN)],
        )
    }
}

fn withdrawal_message(
    ctx: &RenderContext,
    username: &str,
    plan: &str,
    refunded_cents: i64,
    currency: &str,
    requested: &str,
    by_staff: bool,
) -> (r: Content)
    ensures
        r@ == withdrawal(
            *ctx,
            username@,
            plan@,
            refunded_cents as int,
            currency@,
            requested@,
            by_staff,
        ),
{
    let l = ctx.locale;
    let ended = if by_staff {
        says_with(l, wording::ENDED_BY_STAFF, "p", plan)
    } else {
        fill_in(says_with(l, wording::ENDED_BY_REQUEST, "d", requested).as_str(), "p", plan)
    };
    let refund = if refunded_cents > 0 {
        says_with(l, wording::REFUNDED, "v", money(l, refunded_cents, currency).as_str())
    } else {
        says(l, wording::NOTHING_REFUNDED)
    };
    let subject = if by_staff {
        says(l, wording::ENDED_STAFF_SUBJECT)
    } else {
        says(l, wording::ENDED_SUBJECT)
    };
    let mut c = blocks(
        subject,
        says(l, wording::ENDED_HEADING),
        list4(greeting(l, username), ended, refund, says(l, wording::ENDED_NO_PLAN)),
    );
    c.cta = Some(manage_button(ctx));
    c.note = Some(says(l, wording::ENDED_NOTE));
    c
}

/// A new price of a subscription.
pub open spec fn price_change(
    ctx: RenderContext,
    username: Seq<char>,
    plan: Seq<char>,
    interval: Option<Seq<char>>,
    old_cents: Option<i64>,
    new_cents: int,
    currency: Option<Seq<char>>,
    date: Seq<char>,
) -> ContentView {
    let l = ctx.locale;
    let code = match currency {
        Some(c) => c,
        None => "BRL"@,
    };
    let change = match old_cents {
        Some(old) => say_with(l, wording::PRICE_FROM_TO, "o"@, money_text(l, old as int, code)),
        None => say(l, wording::PRICE_TO),
    };
    ContentView {
        cta: manage_cta(ctx),
        ..plain(
            say(l, wording::PRICE_SUBJECT),
            say(l, wording::PRICE_HEADING),
            seq![
                hello(l, username),
                fill(
                    fill(
                        fill(fill(change, "d"@, date), "i"@, interval_name(l, interval)),
                        "p"@,
                        plan,
                    ),
                    "n"@,
                    money_text(l, new_cents, code),
                ),
                say(l, wording::PRICE_APPLIES),
            ],
        )
    }
}

fn price_change_message(
    ctx: &RenderContext,
    username: &str,
    plan: &str,
    interval: Option<&str>,
    old_cents: &Option<i64>,
    new_cents: i64,
    currency: Option<&str>,
    date: &str,
) -> (r: Content)
    ensures
        r@ == price_change(
            *ctx,
            username@,
            plan@,
            opt_str(interval),
            *old_cents,
            new_cents as int,
            opt_str(currency),
            date@,
        ),
{
    let l = ctx.locale;
    let code = match currency {
        Some(c) => c,
        None => "BRL",
    };
    let change = match old_cents {
        Some(old) => says_with(l, wording::PRICE_FROM_TO, "o", money(l, *old, code).as_str()),
        None => says(l, wording::PRICE_TO),
    };
    let dated = fill_in(change.as_str(), "d", date);
    let named = fill_in(dated.as_str(), "i", interval_label(l, interval));
    let planned = fill_in(named.as_str(), "p", plan);
    let line = fill_in(planned.as_str(), "n", money(l, new_cents, code).as_str());
    let mut c = blocks(
        says(l, wording::PRICE_SUBJECT),
        says(l, wording::PRICE_HEADING),
        list3(greeting(l, username), line, says(l, wording::PRICE_APPLIES)),
    );
    c.cta = Some(manage_button(ctx));
    c
}

// ---------------------------------------------------------------------
// Every message
// ---------------------------------------------------------------------

/// What a template says in the locale of `ctx`.
pub open spec fn content_of(t: EmailTemplate, ctx: RenderContext) -> ContentView {
    let l = ctx.locale;
    match t {
        EmailTemplate::EmailVerificationCode { username, code, expires_minutes } => code_content(
            l,
            wording::VERIFY_SUBJECT,
            wording::VERIFY_HEADING,
            seq![
                hello(l, username@),
                say_with(l, wording::VERIFY_BODY, "n"@, number(expires_minutes as int)),
            ],
            code@,
            wording::VERIFY_NOTE,
        ),
        EmailTemplate::PasswordResetCode { username, code, expires_minutes } => code_content(
            l,
            wording::RESET_SUBJECT,
            wording::RESET_HEADING,
            seq![
                hello(l, username@),
                say_with(l, wording::RESET_BODY, "n"@, number(expires_minutes as int)),
            ],
            code@,
            wording::RESET_NOTE,
        ),
        EmailTemplate::EmailChangeCode { username, code, expires_minutes } => code_content(
            l,
            wording::CHANGE_SUBJECT,
            wording::CHANGE_HEADING,
            seq![
                fill(
                    say_with(l, wording::CHANGE_BODY, "u"@, username@),
                    "n"@,
                    number(expires_minutes as int),
                ),
            ],
            code@,
            wording::CHANGE_NOTE,
        ),
        EmailTemplate::PasswordChanged { username } => ContentView {
            cta: Some((say(l, wording::PASSWORD_SIGN_IN), app_path(ctx, "/login"@))),
            ..noted(
                l,
                wording::PASSWORD_SUBJECT,
                wording::PASSWORD_HEADING,
                seq![hello(l, username@), say(l, wording::PASSWORD_BODY)],
                wording::PASSWORD_NOTE,
            )
        },
        EmailTemplate::TwoFactorEnabled { username } => noted(
            l,
            wording::TWO_FACTOR_ON_SUBJECT,
            wording::TWO_FACTOR_ON_HEADING,
            seq![
                say_with(l, wording::TWO_FACTOR_ON_BODY, "u"@, username@),
                say(l, wording::TWO_FACTOR_ON_CODES),
            ],
            wording::TWO_FACTOR_ON_NOTE,
        ),
        EmailTemplate::TwoFactorDisabled { username } => noted(
            l,
            wording::TWO_FACTOR_OFF_SUBJECT,
            wording::TWO_FACTOR_OFF_HEADING,
            seq![
                say_with(l, wording::TWO_FACTOR_OFF_BODY, "u"@, username@),
                say(l, wording::TWO_FACTOR_OFF_ADVICE),
            ],
            wording::TWO_FACTOR_OFF_NOTE,
        ),
        EmailTemplate::EmailChangedNotice { username, new_email_masked } => noted(
            l,
            wording::EMAIL_CHANGED_SUBJECT,
            wording::EMAIL_CHANGED_HEADING,
            seq![
                fill(
                    say_with(l, wording::EMAIL_CHANGED_BODY, "u"@, username@),
                    "e"@,
                    new_email_masked@,
                ),
            ],
            wording::EMAIL_CHANGED_NOTE,
        ),
        EmailTemplate::AccountDeleted { username } => noted(
            l,
            wording::DELETED_SUBJECT,
            wording::DELETED_HEADING,
            seq![
                hello(l, username@),
                say(l, wording::DELETED_BODY),
                say(l, wording::DELETED_THANKS),
            ],
            wording::DELETED_NOTE,
        ),
        EmailTemplate::Notification { title, lines, cta_label, cta_path, category } => ContentView {
            cta: match cta_path {
                Some(path) => Some(
                    (
                        match cta_label {
                            Some(label) => label@,
                            None => say(l, wording::OPEN_IN_SETLYST),
                        },
                        app_path(ctx, path@),
                    ),
                ),
                None => None,
            },
            ..plain(title@, title@, texts(lines@))
        },
        EmailTemplate::Announcement { title, body, level, cta_label, cta_url } => ContentView {
            cta: announcement_cta(ctx, opt_text(cta_label), opt_text(cta_url)),
            ..plain(
                if level@ == "critical"@ {
                    say(l, wording::IMPORTANT_NOTICE) + " "@ + title@
                } else {
                    title@
                },
                title@,
                body_paragraphs(body@),
            )
        },
        EmailTemplate::ReleaseNotes { version, title, items, released_on } => ContentView {
            items: release_lines(l, items@),
            cta: Some((say(l, wording::RELEASE_SEE_ALL), app_path(ctx, "/changelog"@))),
            ..plain(
                say_with(l, wording::RELEASE_SUBJECT, "v"@, version@),
                localized_text(title@, l),
                seq![
                    fill(
                        say_with(l, wording::RELEASE_BODY, "v"@, version@),
                        "d"@,
                        date_text(l, released_on@),
                    ),
                ],
            )
        },
        EmailTemplate::TrialEnding { username, plan_name, ends_at } => {
            let date = moment_text(l, ends_at@);
            ContentView {
                cta: Some((say(l, wording::SEE_PLANS), app_path(ctx, "/pricing"@))),
                ..plain(
                    say(l, wording::TRIAL_ENDING_SUBJECT),
                    say_with(l, wording::TRIAL_ENDING_HEADING, "d"@, date),
                    seq![
                        hello(l, username@),
                        fill(
                            say_with(
                                l,
                                wording::TRIAL_ENDING_BODY,
                                "p"@,
                                localized_text(plan_name@, l),
                            ),
                            "d"@,
                            date,
                        ),
                        say(l, wording::TRIAL_ENDING_CHOOSE),
                    ],
                )
            }
        },
        EmailTemplate::SubscriptionChanged { username, kind, plan_name, current_period_end } =>
            ContentView {
            cta: Some((say(l, wording::VIEW_SUBSCRIPTION), app_path(ctx, "/dashboard/settings"@))),
            ..plain(
                say(l, wording::SUBSCRIPTION_SUBJECT),
                say(l, wording::SUBSCRIPTION_HEADING),
                seq![
                    hello(l, username@),
                    fill(
                        plan_line(l, kind@, opt_moment(l, current_period_end)),
                        "p"@,
                        localized_text(plan_name@, l),
                    ),
                ],
            )
        },
        EmailTemplate::SubscriptionConfirmed {
            username,
            plan_name,
            amount_cents,
            currency,
            interval,
            next_charge_at,
            trial_ends_at,
            terms_version,
        } => confirmation(
            ctx,
            username@,
            localized_text(plan_name@, l),
            price(l, amount_cents, opt_text(currency), opt_text(interval)),
            opt_moment(l, next_charge_at),
            opt_moment(l, trial_ends_at),
            opt_text(terms_version),
        ),
        EmailTemplate::PaidTrialEnding {
            username,
            plan_name,
            amount_cents,
            currency,
            interval,
            charge_at,
        } => first_charge(
            ctx,
            username@,
            localized_text(plan_name@, l),
            price(l, amount_cents, opt_text(currency), opt_text(interval)),
            moment_text(l, charge_at@),
        ),
        EmailTemplate::RenewalReminder { username, plan_name, amount_cents, currency, renews_at } =>
            renewal(
            ctx,
            username@,
            localized_text(plan_name@, l),
            price(l, amount_cents, opt_text(currency), None),
            moment_text(l, renews_at@),
        ),
        EmailTemplate::WithdrawalConfirmed {
            username,
            plan_name,
            refunded_cents,
            currency,
            requested_at,
            by_staff,
        } => withdrawal(
            ctx,
            username@,
            localized_text(plan_name@, l),
            refunded_cents as int,
            currency@,
            moment_text(l, requested_at@),
            by_staff,
        ),
        EmailTemplate::PaymentDisputed { username, plan_name } => plain(
            say(l, wording::DISPUTED_SUBJECT),
            say(l, wording::DISPUTED_HEADING),
            seq![
                hello(l, username@),
                say_with(l, wording::DISPUTED_BODY, "p"@, localized_text(plan_name@, l)),
                say(l, wording::DISPUTED_SAVED),
            ],
        ),
        EmailTemplate::PriceChange {
            username,
            plan_name,
            interval,
            old_amount_cents,
            new_amount_cents,
            currency,
            effective_at,
        } => price_change(
            ctx,
            username@,
            localized_text(plan_name@, l),
            opt_text(interval),
            old_amount_cents,
            new_amount_cents as int,
            opt_text(currency),
            moment_text(l, effective_at@),
        ),
        EmailTemplate::Welcome { username } => ContentView {
            cta: Some((say(l, wording::WELCOME_OPEN), app_path(ctx, "/dashboard"@))),
            ..plain(
                say(l, wording::WELCOME_SUBJECT),
                say_with(l, wording::WELCOME_HEADING, "u"@, username@),
                seq![say(l, wording::WELCOME_BODY), say(l, wording::WELCOME_START)],
            )
        },
        EmailTemplate::ReauthCode { username, code, expires_minutes } => code_content(
            l,
            wording::REAUTH_SUBJECT,
            wording::REAUTH_HEADING,
            seq![
                hello(l, username@),
                say_with(l, wording::REAUTH_BODY, "n"@, number(expires_minutes as int)),
            ],
            code@,
            wording::SECURITY_HINT,
        ),
        EmailTemplate::SecurityNotice { username, kind, detail } => security_notice(
            ctx,
            username@,
            kind@,
            opt_text(detail),
        ),
    }
}

impl EmailTemplate {
    /// What the message says in the locale of `ctx`.
    #[verifier::rlimit(60)]
    pub fn content(&self, ctx: &RenderContext) -> (r: Content)
        ensures
            r@ == content_of(*self, *ctx),
    {
        let l = ctx.locale;
        match self {
            EmailTemplate::EmailVerificationCode { username, code, expires_minutes } => code_message(
                l,
                wording::VERIFY_SUBJECT,
                wording::VERIFY_HEADING,
                list2(
                    greeting(l, username.as_str()),
                    says_with(l, wording::VERIFY_BODY, "n", number_of(*expires_minutes).as_str()),
                ),
                code,
                wording::VERIFY_NOTE,
            ),
            EmailTemplate::PasswordResetCode { username, code, expires_minutes } => code_message(
                l,
                wording::RESET_SUBJECT,
                wording::RESET_HEADING,
                list2(
                    greeting(l, username.as_str()),
                    says_with(l, wording::RESET_BODY, "n", number_of(*expires_minutes).as_str()),
                ),
                code,
                wording::RESET_NOTE,
            ),
            EmailTemplate::EmailChangeCode { username, code, expires_minutes } => {
                let body = says_with(l, wording::CHANGE_BODY, "u", username.as_str());
                code_message(
                    l,
                    wording::CHANGE_SUBJECT,
                    wording::CHANGE_HEADING,
                    list1(fill_in(body.as_str(), "n", number_of(*expires_minutes).as_str())),
                    code,
                    wording::CHANGE_NOTE,
                )
            },
            EmailTemplate::PasswordChanged { username } => {
                let mut c = noted_message(
                    l,
                    wording::PASSWORD_SUBJECT,
                    wording::PASSWORD_HEADING,
                    list2(greeting(l, username.as_str()), says(l, wording::PASSWORD_BODY)),
                    wording::PASSWORD_NOTE,
                );
                c.cta = Some((says(l, wording::PASSWORD_SIGN_IN), ctx.app_url("/login")));
                c
            },
            EmailTemplate::TwoFactorEnabled { username } => noted_message(
                l,
                wording::TWO_FACTOR_ON_SUBJECT,
                wording::TWO_FACTOR_ON_HEADING,
                list2(
                    says_with(l, wording::TWO_FACTOR_ON_BODY, "u", username.as_str()),
                    says(l, wording::TWO_FACTOR_ON_CODES),
                ),
                wording::TWO_FACTOR_ON_NOTE,
            ),
            EmailTemplate::TwoFactorDisabled { username } => noted_message(
                l,
                wording::TWO_FACTOR_OFF_SUBJECT,
                wording::TWO_FACTOR_OFF_HEADING,
                list2(
                    says_with(l, wording::TWO_FACTOR_OFF_BODY, "u", username.as_str()),
                    says(l, wording::TWO_FACTOR_OFF_ADVICE),
                ),
                wording::TWO_FACTOR_OFF_NOTE,
            ),
            EmailTemplate::EmailChangedNotice { username, new_email_masked } => {
                let body = says_with(l, wording::EMAIL_CHANGED_BODY, "u", username.as_str());
                noted_message(
                    l,
                    wording::EMAIL_CHANGED_SUBJECT,
                    wording::EMAIL_CHANGED_HEADING,
                    list1(fill_in(body.as_str(), "e", new_email_masked.as_str())),
                    wording::EMAIL_CHANGED_NOTE,
                )
            },
            EmailTemplate::AccountDeleted { username } => noted_message(
                l,
                wording::DELETED_SUBJECT,
                wording::DELETED_HEADING,
                list3(
                    greeting(l, username.as_str()),
                    says(l, wording::DELETED_BODY),
                    says(l, wording::DELETED_THANKS),
                ),
                wording::DELETED_NOTE,
            ),
            EmailTemplate::Notification { title, lines, cta_label, cta_path, .. } => {
                let mut c = blocks(title.clone(), title.clone(), copies_of(lines));
                if let Some(path) = cta_path {
                    let label = match cta_label {
                        Some(label) => label.clone(),
                        None => says(l, wording::OPEN_IN_SETLYST),
                    };
                    c.cta = Some((label, ctx.app_url(path.as_str())));
                }
                c
            },
            EmailTemplate::Announcement { title, body, level, cta_label, cta_url } => announcement(
                ctx,
                title,
                body,
                level,
                cta_label,
                cta_url,
            ),
            EmailTemplate::ReleaseNotes { version, title, items, released_on } => {
                let body = says_with(l, wording::RELEASE_BODY, "v", version.as_str());
                let mut c = blocks(
                    says_with(l, wording::RELEASE_SUBJECT, "v", version.as_str()),
                    localized(title, l),
                    list1(fill_in(body.as_str(), "d", l.format_date(*released_on).as_str())),
                );
                c.items = release_items(l, items);
                c.cta = Some((says(l, wording::RELEASE_SEE_ALL), ctx.app_url("/changelog")));
                c
            },
            EmailTemplate::TrialEnding { username, plan_name, ends_at } => {
                let date = l.format_datetime(*ends_at);
                let plan = localized(plan_name, l);
                let body = says_with(l, wording::TRIAL_ENDING_BODY, "p", plan.as_str());
                let mut c = blocks(
                    says(l, wording::TRIAL_ENDING_SUBJECT),
                    says_with(l, wording::TRIAL_ENDING_HEADING, "d", date.as_str()),
                    list3(
                        greeting(l, username.as_str()),
                        fill_in(body.as_str(), "d", date.as_str()),
                        says(l, wording::TRIAL_ENDING_CHOOSE),
                    ),
                );
                c.cta = Some((says(l, wording::SEE_PLANS), ctx.app_url("/pricing")));
                c
            },
            EmailTemplate::SubscriptionChanged { username, kind, plan_name, current_period_end } => {
                let plan = localized(plan_name, l);
                let date = opt_date(l, current_period_end);
                let line = plan_line_of(l, kind.as_str(), &date);
                let mut c = blocks(
                    says(l, wording::SUBSCRIPTION_SUBJECT),
                    says(l, wording::SUBSCRIPTION_HEADING),
                    list2(
                        greeting(l, username.as_str()),
                        fill_in(line.as_str(), "p", plan.as_str()),
                    ),
                );
                c.cta = Some(
                    (says(l, wording::VIEW_SUBSCRIPTION), ctx.app_url("/dashboard/settings")),
                );
                c
            },
            EmailTemplate::SubscriptionConfirmed {
                username,
                plan_name,
                amount_cents,
                currency,
                interval,
                next_charge_at,
                trial_ends_at,
                terms_version,
            } => {
                let plan = localized(plan_name, l);
                let amount = price_text(l, *amount_cents, slice_of(currency), slice_of(interval));
                confirmed(
                    ctx,
                    username.as_str(),
                    plan.as_str(),
                    &amount,
                    &opt_date(l, next_charge_at),
                    &opt_date(l, trial_ends_at),
                    terms_version,
                )
            },
            EmailTemplate::PaidTrialEnding {
                username,
                plan_name,
                amount_cents,
                currency,
                interval,
                charge_at,
            } => {
                let plan = localized(plan_name, l);
                let amount = price_text(l, *amount_cents, slice_of(currency), slice_of(interval));
                first_charge_message(
                    ctx,
                    username.as_str(),
                    plan.as_str(),
                    &amount,
                    l.format_datetime(*charge_at).as_str(),
                )
            },
            EmailTemplate::RenewalReminder {
                username,
                plan_name,
                amount_cents,
                currency,
                renews_at,
            } => {
                let plan = localized(plan_name, l);
                let amount = price_text(l, *amount_cents, slice_of(currency), None);
                renewal_message(
                    ctx,
                    username.as_str(),
                    plan.as_str(),
                    &amount,
                    l.format_datetime(*renews_at).as_str(),
                )
            },
            EmailTemplate::WithdrawalConfirmed {
                username,
                plan_name,
                refunded_cents,
                currency,
                requested_at,
                by_staff,
            } => {
                let plan = localized(plan_name, l);
                withdrawal_message(
                    ctx,
                    username.as_str(),
                    plan.as_str(),
                    *refunded_cents,
                    currency.as_str(),
                    l.format_datetime(*requested_at).as_str(),
                    *by_staff,
                )
            },
            EmailTemplate::PaymentDisputed { username, plan_name } => {
                let plan = localized(plan_name, l);
                blocks(
                    says(l, wording::DISPUTED_SUBJECT),
                    says(l, wording::DISPUTED_HEADING),
                    list3(
                        greeting(l, username.as_str()),
                        says_with(l, wording::DISPUTED_BODY, "p", plan.as_str()),
                        says(l, wording::DISPUTED_SAVED),
                    ),
                )
            },
            EmailTemplate::PriceChange {
                username,
                plan_name,
                interval,
                old_amount_cents,
                new_amount_cents,
                currency,
                effective_at,
            } => {
                let plan = localized(plan_name, l);
                price_change_message(
                    ctx,
                    username.as_str(),
                    plan.as_str(),
                    slice_of(interval),
                    old_amount_cents,
                    *new_amount_cents,
                    slice_of(currency),
                    l.format_datetime(*effective_at).as_str(),
                )
            },
            EmailTemplate::Welcome { username } => {
                let mut c = blocks(
                    says(l, wording::WELCOME_SUBJECT),
                    says_with(l, wording::WELCOME_HEADING, "u", username.as_str()),
                    list2(says(l, wording::WELCOME_BODY), says(l, wording::WELCOME_START)),
                );
                c.cta = Some((says(l, wording::WELCOME_OPEN), ctx.app_url("/dashboard")));
                c
            },
            EmailTemplate::ReauthCode { username, code, expires_minutes } => code_message(
                l,
                wording::REAUTH_SUBJECT,
                wording::REAUTH_HEADING,
                list2(
                    greeting(l, username.as_str()),
                    says_with(l, wording::REAUTH_BODY, "n", number_of(*expires_minutes).as_str()),
                ),
                code,
                wording::SECURITY_HINT,
            ),
            EmailTemplate::SecurityNotice { username, kind, detail } => security_notice_content(
                ctx,
                username.as_str(),
                kind.as_str(),
                slice_of(detail),
            ),
        }
    }
}

} // verus!
