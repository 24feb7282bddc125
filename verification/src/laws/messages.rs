//! What messages say.

use crate::email::content::{
    amount_text, announcement_cta, body_paragraphs, charge_lines, content_of, grouped, hello,
    interval_name, money_text, not_blank, notice_wording, plan_line, price, release_kind,
    security_notice, withdrawal,
};
use crate::email::render::{
    app_path, escaped, footer_of, html_items, html_paragraphs, message_text, subject_line,
    text_items, text_paragraphs, without_controls, FooterView, RenderContext,
};
use crate::email::content::ContentView;
use crate::email::templates::{
    date_text, fill, locale_code, localized_text, moment_text, say, EmailTemplate, FooterReason,
    Locale,
};
use crate::email::wording;
use crate::text::{
    ascii_upper, contains, decimal, is_control, is_space, lemma_replace_passes,
    lemma_squeeze_solid, replace, stands_at, texts, trim, trim_end_char, two_digits,
};
use crate::time::{chrono_date_text, second_of};
use vstd::prelude::*;

verus! {

/// A place to fill in takes the value, and the text round it stays.
pub proof fn places_take_their_value(
    before: Seq<char>,
    key: Seq<char>,
    v: Seq<char>,
    after: Seq<char>,
)
    requires
        !before.contains('{'),
        !after.contains('{'),
    ensures
        fill(before + (seq!['{'] + key + seq!['}']) + after, key, v) == before + v + after,
        fill(before, key, v) == before,
{
    let p = seq!['{'] + key + seq!['}'];
    let none = Seq::<char>::empty();
    assert forall|i: int| 0 <= i < before.len() implies #[trigger] before[i] != p[0] by {
        assert(before.contains(before[i]));
    }
    assert forall|i: int| 0 <= i < after.len() implies #[trigger] after[i] != p[0] by {
        assert(after.contains(after[i]));
    }
    lemma_replace_passes(before, p + after, p, v);
    lemma_replace_passes(after, none, p, v);
    lemma_replace_passes(before, none, p, v);
    assert(before + none =~= before);
    assert(after + none =~= after);
    assert((p + after).subrange(0, p.len() as int) =~= p);
    assert((p + after).skip(p.len() as int) =~= after);
    assert(before + p + after =~= before + (p + after));
    assert(before + (v + after) =~= before + v + after);
    assert(replace(none, p, v) =~= none);
}

/// Users are greeted by their name.
pub proof fn greetings_name_the_user(u: Seq<char>)
    ensures
        hello(Locale::En, u) == "Hello, "@ + u + "."@,
        hello(Locale::Es, u) == "Hola, "@ + u + "."@,
        hello(Locale::PtBr, u) == "Olá, "@ + u + "."@,
{
    reveal_strlit("Hello, {u}.");
    reveal_strlit("Hola, {u}.");
    reveal_strlit("Olá, {u}.");
    reveal_strlit("Hello, ");
    reveal_strlit("Hola, ");
    reveal_strlit("Olá, ");
    reveal_strlit(".");
    reveal_strlit("u");
    let p = seq!['{'] + "u"@ + seq!['}'];
    assert("Hello, {u}."@ =~= "Hello, "@ + p + "."@);
    assert("Hola, {u}."@ =~= "Hola, "@ + p + "."@);
    assert("Olá, {u}."@ =~= "Olá, "@ + p + "."@);
    places_take_their_value("Hello, "@, "u"@, u, "."@);
    places_take_their_value("Hola, "@, "u"@, u, "."@);
    places_take_their_value("Olá, "@, "u"@, u, "."@);
}

/// Up to three digits stand together.
pub proof fn three_digits_stand_together(digits: Seq<char>, sep: char)
    requires
        digits.len() <= 3,
    ensures
        grouped(digits, digits.len() as int, sep) == digits,
{
    reveal_with_fuel(grouped, 4);
    assert(grouped(digits, digits.len() as int, sep) =~= digits);
}

/// Every further three digits follow a separator.
pub proof fn digits_are_grouped_by_three(a: Seq<char>, b: Seq<char>, sep: char)
    requires
        a.len() > 0,
        b.len() == 3,
    ensures
        grouped(a + b, (a + b).len() as int, sep) == grouped(a, a.len() as int, sep) + seq![sep]
            + b,
{
    lemma_grouped_front(a, b, sep, a.len() as int);
    let s = a + b;
    let n = a.len() as int;
    let front = grouped(a, n, sep);
    assert(grouped(s, n + 1, sep) == front.push(sep).push(b[0])) by {
        assert(s.len() - n == 3);
        assert(s[n] == b[0]);
    }
    assert(grouped(s, n + 2, sep) == front.push(sep).push(b[0]).push(b[1])) by {
        assert((s.len() - (n + 1)) % 3 == 2);
        assert(s[n + 1] == b[1]);
    }
    assert(grouped(s, n + 3, sep) == front.push(sep).push(b[0]).push(b[1]).push(b[2])) by {
        assert((s.len() - (n + 2)) % 3 == 1);
        assert(s[n + 2] == b[2]);
    }
    assert(front.push(sep).push(b[0]).push(b[1]).push(b[2]) =~= front + seq![sep] + b);
}

proof fn lemma_grouped_front(a: Seq<char>, b: Seq<char>, sep: char, n: int)
    requires
        b.len() == 3,
        0 <= n <= a.len(),
    ensures
        grouped(a + b, n, sep) == grouped(a, n, sep),
    decreases n,
{
    if n > 0 {
        lemma_grouped_front(a, b, sep, n - 1);
        assert((a + b)[n - 1] == a[n - 1]);
        assert(((a + b).len() - (n - 1)) % 3 == (a.len() - (n - 1)) % 3);
    }
}

/// Amounts have two decimals behind the point of the language, and a minus in
/// front where they are below nothing.
pub proof fn amounts_have_two_decimals(l: Locale, cents: int)
    requires
        cents >= 0,
    ensures
        l == Locale::En ==> amount_text(l, cents) == grouped(
            decimal((cents / 100) as nat),
            decimal((cents / 100) as nat).len() as int,
            ',',
        ) + seq!['.'] + two_digits((cents % 100) as nat),
        l != Locale::En ==> amount_text(l, cents) == grouped(
            decimal((cents / 100) as nat),
            decimal((cents / 100) as nat).len() as int,
            '.',
        ) + seq![','] + two_digits((cents % 100) as nat),
        cents > 0 ==> amount_text(l, -cents) == seq!['-'] + amount_text(l, cents),
{
    let sep = if l == Locale::En {
        ','
    } else {
        '.'
    };
    let point = if l == Locale::En {
        '.'
    } else {
        ','
    };
    let units = decimal((cents / 100) as nat);
    let g = grouped(units, units.len() as int, sep);
    assert(Seq::<char>::empty() + g + seq![point] + two_digits((cents % 100) as nat) =~= g
        + seq![point] + two_digits((cents % 100) as nat));
    if cents > 0 {
        assert(seq!['-'] + g + seq![point] + two_digits((cents % 100) as nat) =~= seq!['-'] + (
        Seq::<char>::empty() + g + seq![point] + two_digits((cents % 100) as nat)));
    }
}

/// Reais have their sign, other currencies their code.
pub proof fn currencies_stand_in_front(l: Locale, cents: int, currency: Seq<char>)
    ensures
        ascii_upper(currency) == "BRL"@ && l == Locale::En ==> money_text(l, cents, currency)
            == "R$"@ + amount_text(l, cents),
        ascii_upper(currency) == "BRL"@ && l != Locale::En ==> money_text(l, cents, currency)
            == "R$ "@ + amount_text(l, cents),
        ascii_upper(currency) != "BRL"@ ==> money_text(l, cents, currency) == ascii_upper(currency)
            + " "@ + amount_text(l, cents),
{
}

/// Prices are by the month or by the year, in reais where nothing else is
/// said, and unknown without an amount.
pub proof fn prices_are_by_the_month_or_year(l: Locale, cents: i64, currency: Seq<char>)
    ensures
        price(l, None, Some(currency), Some("yearly"@)) is None,
        price(l, Some(cents), Some(currency), None) == Some(money_text(l, cents as int, currency)),
        price(l, Some(cents), None, None) == Some(money_text(l, cents as int, "BRL"@)),
        price(Locale::En, Some(cents), Some(currency), Some("yearly"@)) == Some(
            money_text(Locale::En, cents as int, currency) + " per year"@,
        ),
        price(Locale::En, Some(cents), Some(currency), Some("monthly"@)) == Some(
            money_text(Locale::En, cents as int, currency) + " per month"@,
        ),
        interval_name(Locale::En, Some("yearly"@)) == "yearly"@,
        interval_name(Locale::En, Some("monthly"@)) == "monthly"@,
        interval_name(Locale::En, None) == "monthly"@,
{
    reveal_strlit("yearly");
    reveal_strlit("monthly");
    assert("yearly"@.len() != "monthly"@.len());
    reveal_strlit("{v} per year");
    reveal_strlit("{v} per month");
    reveal_strlit(" per year");
    reveal_strlit(" per month");
    reveal_strlit("v");
    let p = seq!['{'] + "v"@ + seq!['}'];
    let none = Seq::<char>::empty();
    let m = money_text(Locale::En, cents as int, currency);
    assert("{v} per year"@ =~= none + p + " per year"@);
    assert("{v} per month"@ =~= none + p + " per month"@);
    places_take_their_value(none, "v"@, m, " per year"@);
    places_take_their_value(none, "v"@, m, " per month"@);
    assert(none + m + " per year"@ =~= m + " per year"@);
    assert(none + m + " per month"@ =~= m + " per month"@);
}

/// A message carries the code that its template carries, and no other message
/// carries one.
pub proof fn only_code_messages_carry_a_code(t: EmailTemplate, ctx: RenderContext)
    ensures
        content_of(t, ctx).code == match t {
            EmailTemplate::EmailVerificationCode { code, .. } => Some(code@),
            EmailTemplate::PasswordResetCode { code, .. } => Some(code@),
            EmailTemplate::EmailChangeCode { code, .. } => Some(code@),
            EmailTemplate::ReauthCode { code, .. } => Some(code@),
            _ => None,
        },
{
}

/// Only release notes list items, one for each, with its kind and its text.
pub proof fn only_release_notes_list_items(t: EmailTemplate, ctx: RenderContext, i: int)
    ensures
        t !is ReleaseNotes ==> content_of(t, ctx).items.len() == 0,
        t matches EmailTemplate::ReleaseNotes { items, .. } ==> content_of(t, ctx).items.len()
            == items@.len() && (0 <= i < items@.len() ==> content_of(t, ctx).items[i]
            == release_kind(ctx.locale, items@[i].kind@) + ": "@ + localized_text(
            items@[i].text@,
            ctx.locale,
        )),
{
}

/// The kinds of changes have their words.
pub proof fn kinds_of_changes_have_their_words(l: Locale, kind: Seq<char>)
    ensures
        release_kind(l, "new"@) == say(l, wording::KIND_NEW),
        release_kind(l, "improved"@) == say(l, wording::KIND_IMPROVED),
        release_kind(l, "fixed"@) == say(l, wording::KIND_FIXED),
        release_kind(l, "security"@) == say(l, wording::KIND_SECURITY),
        kind != "new"@ && kind != "improved"@ && kind != "fixed"@ && kind != "security"@
            ==> release_kind(l, kind) == say(l, wording::KIND_UPDATE),
{
    reveal_strlit("new");
    reveal_strlit("improved");
    reveal_strlit("fixed");
    reveal_strlit("security");
    assert("new"@.len() == 3 && "improved"@.len() == 8 && "fixed"@.len() == 5 && "security"@.len()
        == 8);
    assert("improved"@[0] == 'i' && "security"@[0] == 's');
}

/// Where buttons lead.
pub proof fn buttons_lead_into_the_app(t: EmailTemplate, ctx: RenderContext)
    ensures
        match content_of(t, ctx).cta {
            Some((label, url)) => match t {
                EmailTemplate::PasswordChanged { .. } => url == app_path(ctx, "/login"@),
                EmailTemplate::Welcome { .. } => url == app_path(ctx, "/dashboard"@),
                EmailTemplate::ReleaseNotes { .. } => url == app_path(ctx, "/changelog"@),
                EmailTemplate::TrialEnding { .. } => url == app_path(ctx, "/pricing"@),
                EmailTemplate::SubscriptionChanged { .. } => url == app_path(
                    ctx,
                    "/dashboard/settings"@,
                ),
                EmailTemplate::SubscriptionConfirmed { .. }
                | EmailTemplate::PaidTrialEnding { .. }
                | EmailTemplate::RenewalReminder { .. }
                | EmailTemplate::WithdrawalConfirmed { .. }
                | EmailTemplate::PriceChange { .. } => url == app_path(
                    ctx,
                    "/dashboard/settings#subscription"@,
                ),
                EmailTemplate::SecurityNotice { kind, .. } => kind@ != "email_in_use"@ && url
                    == app_path(ctx, "/dashboard/settings?section=security"@),
                EmailTemplate::Notification { cta_label, cta_path, .. } => cta_path is Some && url
                    == app_path(ctx, cta_path->0@) && (cta_label matches Some(x) ==> label == x@),
                EmailTemplate::Announcement { cta_label, cta_url, .. } => cta_label is Some
                    && cta_url is Some && label == cta_label->0@,
                _ => false,
            },
            None => !(t is PasswordChanged || t is Welcome || t is ReleaseNotes || t is TrialEnding
                || t is SubscriptionChanged || t is SubscriptionConfirmed || t is PaidTrialEnding
                || t is RenewalReminder || t is WithdrawalConfirmed || t is PriceChange) && (t matches EmailTemplate::SecurityNotice {
                kind,
                ..
            } ==> kind@ == "email_in_use"@) && (t matches EmailTemplate::Notification {
                cta_path,
                ..
            } ==> cta_path is None),
        },
{
}

/// An address in the app has the app's base, the language and the path,
/// whether the base ends in a slash or not.
pub proof fn addresses_in_the_app(ctx: RenderContext, path: Seq<char>)
    requires
        ctx.app_base_url@.len() > 0,
    ensures
        ctx.app_base_url@.last() != '/' ==> app_path(ctx, path) == ctx.app_base_url@ + "/"@
            + locale_code(ctx.locale) + path,
        ctx.app_base_url@.last() == '/' ==> app_path(ctx, path) == trim_end_char(
            ctx.app_base_url@.drop_last(),
            '/',
        ) + "/"@ + locale_code(ctx.locale) + path,
{
}

/// Dates are written as the language has them, and a moment is told by its day.
pub proof fn dates_are_written_by_language(day: int, moment: int, l: Locale)
    ensures
        date_text(Locale::En, day) == chrono_date_text(day, "%b %-d, %Y"@),
        date_text(Locale::PtBr, day) == chrono_date_text(day, "%d/%m/%Y"@),
        date_text(Locale::Es, day) == chrono_date_text(day, "%d/%m/%Y"@),
        moment_text(l, moment) == date_text(l, second_of(moment) / 86_400),
{
}

/// An announcement's button leads out of the app only by a secure address.
pub proof fn announcements_lead_to_secure_addresses(
    ctx: RenderContext,
    label: Seq<char>,
    rest: Seq<char>,
    url: Seq<char>,
)
    ensures
        announcement_cta(ctx, Some(label), Some("https://"@ + rest)) == Some(
            (label, "https://"@ + rest),
        ),
        announcement_cta(ctx, Some(label), Some("/"@ + rest)) == Some(
            (label, app_path(ctx, "/"@ + rest)),
        ),
        announcement_cta(ctx, None, Some(url)) is None,
        announcement_cta(ctx, Some(label), None) is None,
        url.len() > 0 && url[0] != '/' && url[0] != 'h' ==> announcement_cta(
            ctx,
            Some(label),
            Some(url),
        ) is None,
{
    reveal_strlit("https://");
    reveal_strlit("/");
    let a = "https://"@ + rest;
    assert(a.subrange(0, 8) =~= "https://"@);
    let b = "/"@ + rest;
    assert(b.subrange(0, 1) =~= "/"@);
    assert(b[0] == '/');
    if b.len() >= 8 {
        assert(b.subrange(0, 8)[0] == '/');
        assert("https://"@[0] == 'h');
    }
    if url.len() > 0 && url[0] != '/' && url[0] != 'h' {
        assert(url.subrange(0, 1)[0] == url[0]);
        assert("/"@[0] == '/');
        if url.len() >= 8 {
            assert(url.subrange(0, 8)[0] == url[0]);
            assert("https://"@[0] == 'h');
        }
    }
}

/// An announcement and a notification say what they were given.
pub proof fn announcements_say_what_they_were_given(t: EmailTemplate, ctx: RenderContext)
    ensures
        t matches EmailTemplate::Announcement { title, body, level, .. } ==> content_of(
            t,
            ctx,
        ).heading == title@ && (level@ != "critical"@ ==> content_of(t, ctx).subject == title@) && (
        level@ == "critical"@ ==> content_of(t, ctx).subject == say(
            ctx.locale,
            wording::IMPORTANT_NOTICE,
        ) + " "@ + title@) && content_of(t, ctx).paragraphs == body_paragraphs(body@),
        t matches EmailTemplate::Notification { title, lines, .. } ==> content_of(t, ctx).subject
            == title@ && content_of(t, ctx).heading == title@ && content_of(t, ctx).paragraphs
            == texts(lines@),
{
}

/// Paragraphs stay in order, trimmed, without the blank ones.
pub proof fn blank_paragraphs_are_left_out(a: Seq<Seq<char>>, b: Seq<Seq<char>>)
    ensures
        not_blank(a + b) == not_blank(a) + not_blank(b),
        forall|p: Seq<char>| #[trigger]
            not_blank(seq![p]) == if trim(p).len() > 0 {
                seq![trim(p)]
            } else {
                seq![]
            },
    decreases b.len(),
{
    if b.len() == 0 {
        assert(a + b =~= a);
        assert(not_blank(a) + not_blank(b) =~= not_blank(a));
    } else {
        assert((a + b).drop_last() =~= a + b.drop_last());
        blank_paragraphs_are_left_out(a, b.drop_last());
        assert(not_blank(a + b) =~= not_blank(a) + not_blank(b));
    }
    assert forall|p: Seq<char>| #[trigger]
        not_blank(seq![p]) == (if trim(p).len() > 0 {
            seq![trim(p)]
        } else {
            seq![]
        }) by {
        assert(seq![p].drop_last() =~= Seq::<Seq<char>>::empty());
        assert(not_blank(Seq::<Seq<char>>::empty()) =~= seq![]);
        assert(Seq::<Seq<char>>::empty().push(trim(p)) =~= seq![trim(p)]);
    }
}

/// A trial's end is told before the next charge.
pub proof fn trials_are_told_before_charges(l: Locale, a: Seq<char>, b: Option<Seq<char>>)
    ensures
        charge_lines(l, Some(a), b) == seq![fill(say(l, wording::CONFIRMED_TRIAL), "d"@, a)],
        charge_lines(l, None, Some(a)) == seq![fill(say(l, wording::CONFIRMED_NEXT), "d"@, a)],
        charge_lines(l, None, None).len() == 0,
{
}

/// A refund is told where there was one.
pub proof fn refunds_are_told(
    ctx: RenderContext,
    u: Seq<char>,
    p: Seq<char>,
    cents: int,
    c: Seq<char>,
    d: Seq<char>,
    by_staff: bool,
)
    ensures
        ({
            let m = withdrawal(ctx, u, p, cents, c, d, by_staff);
            let l = ctx.locale;
            &&& m.paragraphs.len() == 4
            &&& m.paragraphs[0] == hello(l, u)
            &&& cents > 0 ==> m.paragraphs[2] == fill(
                say(l, wording::REFUNDED),
                "v"@,
                money_text(l, cents, c),
            )
            &&& cents <= 0 ==> m.paragraphs[2] == say(l, wording::NOTHING_REFUNDED)
            &&& by_staff ==> m.subject == say(l, wording::ENDED_STAFF_SUBJECT)
            &&& !by_staff ==> m.subject == say(l, wording::ENDED_SUBJECT)
        }),
{
}

/// What happened to a plan is told by its kind.
pub proof fn changes_of_plans_are_told_by_kind(l: Locale, d: Seq<char>, date: Option<Seq<char>>)
    ensures
        plan_line(l, "trial_started"@, Some(d)) == fill(
            say(l, wording::PLAN_TRIAL_STARTED),
            "d"@,
            d,
        ),
        plan_line(l, "expired"@, date) == say(l, wording::PLAN_EXPIRED),
        plan_line(l, "revoked"@, date) == say(l, wording::PLAN_REVOKED),
        plan_line(l, "subscribed"@, Some(d)) == fill(say(l, wording::PLAN_SUBSCRIBED), "d"@, d),
        plan_line(l, "resumed"@, Some(d)) == fill(say(l, wording::PLAN_SUBSCRIBED), "d"@, d),
        plan_line(l, "plan_changed"@, Some(d)) == fill(say(l, wording::PLAN_CHANGED), "d"@, d),
        plan_line(l, "payment_failed"@, date) == say(l, wording::PLAN_PAYMENT_FAILED),
        plan_line(l, "cancel_scheduled"@, Some(d)) == fill(
            say(l, wording::PLAN_CANCEL_SCHEDULED),
            "d"@,
            d,
        ),
        plan_line(l, "canceled"@, date) == say(l, wording::PLAN_CANCELED),
        plan_line(l, "granted"@, Some(d)) == fill(say(l, wording::PLAN_UNTIL), "d"@, d),
        plan_line(l, "granted"@, None) == say(l, wording::PLAN_NOW),
{
    reveal_strlit("trial_started");
    reveal_strlit("expired");
    reveal_strlit("revoked");
    reveal_strlit("subscribed");
    reveal_strlit("resumed");
    reveal_strlit("plan_changed");
    reveal_strlit("payment_failed");
    reveal_strlit("cancel_scheduled");
    reveal_strlit("canceled");
    reveal_strlit("granted");
    assert("trial_started"@.len() == 13 && "expired"@.len() == 7 && "revoked"@.len() == 7
        && "subscribed"@.len() == 10 && "resumed"@.len() == 7 && "plan_changed"@.len() == 12
        && "payment_failed"@.len() == 14 && "cancel_scheduled"@.len() == 16 && "canceled"@.len()
        == 8 && "granted"@.len() == 7);
    assert("expired"@[0] == 'e' && "revoked"@[2] == 'v' && "resumed"@[2] == 's' && "granted"@[0]
        == 'g' && "revoked"@[0] == 'r' && "resumed"@[0] == 'r');
}

/// Notices on the account's security review it, but for the address of
/// somebody else, which has its own note.
pub proof fn security_notices_lead_to_a_review(
    ctx: RenderContext,
    u: Seq<char>,
    kind: Seq<char>,
    detail: Option<Seq<char>>,
)
    ensures
        ({
            let m = security_notice(ctx, u, kind, detail);
            &&& m.cta is None <==> kind == "email_in_use"@
            &&& kind == "email_in_use"@ ==> m.note == Some(
                say(ctx.locale, wording::NOTICE_IN_USE_NOTE),
            )
            &&& kind != "email_in_use"@ ==> m.note == Some(say(ctx.locale, wording::SECURITY_HINT))
            &&& m.subject == say(ctx.locale, notice_wording(kind).0)
            &&& m.heading == say(ctx.locale, notice_wording(kind).1)
        }),
{
}

proof fn lemma_inside(a: Seq<char>, p: Seq<char>, b: Seq<char>)
    ensures
        contains(a + p + b, p),
{
    let s = a + p + b;
    assert(s.subrange(a.len() as int, a.len() as int + p.len()) =~= p);
    assert(stands_at(s, a.len() as int, p));
}

proof fn lemma_contains_more(s: Seq<char>, p: Seq<char>, b: Seq<char>)
    requires
        contains(s, p),
    ensures
        contains(s + b, p),
{
    let i = choose|i: int| stands_at(s, i, p);
    assert((s + b).subrange(i, i + p.len()) =~= s.subrange(i, i + p.len()));
    assert(stands_at(s + b, i, p));
}

/// Every paragraph is in the text and, escaped, in the page; what stood before
/// stays.
pub proof fn every_paragraph_is_written(before: Seq<char>, p: Seq<Seq<char>>, x: Seq<char>)
    ensures
        text_paragraphs(before, p.push(x)) == text_paragraphs(before, p) + x + "\n\n"@,
        text_items(before, p.push(x)) == text_items(before, p) + "- "@ + x + "\n"@,
        contains(html_items(before, p.push(x)), escaped(x)),
        contains(
            html_paragraphs(before, p.push(x)),
            crate::email::render::escaped_lines(x),
        ),
        text_paragraphs(before, seq![]) == before,
        html_paragraphs(before, seq![]) == before,
{
    assert(p.push(x).drop_last() =~= p);
    lemma_inside(
        html_items(before, p) + crate::email::markup::LI_OPEN@,
        escaped(x),
        crate::email::markup::LI_CLOSE@,
    );
    lemma_inside(
        html_paragraphs(before, p) + crate::email::markup::P_OPEN@,
        crate::email::render::escaped_lines(x),
        crate::email::markup::P_CLOSE@,
    );
}

/// The text of a plain message: the heading, the paragraphs, and why it came.
pub proof fn plain_messages_are_heading_paragraphs_and_footer(c: ContentView, f: FooterView)
    requires
        c.code is None,
        c.items.len() == 0,
        c.cta is None,
        c.note is None,
        f.unsubscribe is None,
    ensures
        message_text(c, f) == text_paragraphs(c.heading + "\n\n"@, c.paragraphs) + "--\n"@
            + f.reason + "\n"@ + f.terms.0 + ": "@ + f.terms.1 + "\n"@ + f.privacy.0 + ": "@
            + f.privacy.1 + "\n"@,
{
}

spec fn text_with_code(c: ContentView) -> Seq<char> {
    let paragraphs = text_paragraphs(c.heading + "\n\n"@, c.paragraphs);
    match c.code {
        Some(code) => paragraphs + "    "@ + code + "\n\n"@,
        None => paragraphs,
    }
}

spec fn text_with_items(c: ContentView) -> Seq<char> {
    if c.items.len() > 0 {
        text_items(text_with_code(c), c.items) + "\n"@
    } else {
        text_with_code(c)
    }
}

spec fn text_with_button(c: ContentView) -> Seq<char> {
    match c.cta {
        Some((label, url)) => text_with_items(c) + label + ": "@ + url + "\n\n"@,
        None => text_with_items(c),
    }
}

spec fn text_with_note(c: ContentView) -> Seq<char> {
    match c.note {
        Some(note) => text_with_button(c) + note + "\n\n"@,
        None => text_with_button(c),
    }
}

spec fn text_with_reason(c: ContentView, f: FooterView) -> Seq<char> {
    text_with_note(c) + "--\n"@ + f.reason + "\n"@
}

spec fn text_with_offer(c: ContentView, f: FooterView) -> Seq<char> {
    match f.unsubscribe {
        Some((text, label, url)) => text_with_reason(c, f) + text + " "@ + label + ": "@ + url
            + "\n"@,
        None => text_with_reason(c, f),
    }
}

spec fn text_end(f: FooterView) -> Seq<char> {
    f.terms.0 + ": "@ + f.terms.1 + "\n"@ + f.privacy.0 + ": "@ + f.privacy.1 + "\n"@
}

proof fn lemma_parts(c: ContentView, f: FooterView)
    ensures
        message_text(c, f) == text_with_offer(c, f) + text_end(f),
{
    let t = text_with_offer(c, f);
    assert(t + f.terms.0 + ": "@ + f.terms.1 + "\n"@ + f.privacy.0 + ": "@ + f.privacy.1 + "\n"@
        =~= t + text_end(f));
}

/// Why a message came, the terms and the privacy policy are in the text.
pub proof fn the_foot_is_in_the_text(c: ContentView, f: FooterView)
    ensures
        contains(message_text(c, f), f.reason),
        contains(message_text(c, f), f.terms.0 + ": "@ + f.terms.1),
        contains(message_text(c, f), f.privacy.0 + ": "@ + f.privacy.1),
{
    lemma_parts(c, f);
    let t = text_with_offer(c, f);
    lemma_inside(text_with_note(c) + "--\n"@, f.reason, "\n"@);
    lemma_end(text_with_reason(c, f), t, text_end(f), message_text(c, f), f.unsubscribe, f.reason);
    let terms = f.terms.0 + ": "@ + f.terms.1;
    let privacy = f.privacy.0 + ": "@ + f.privacy.1;
    lemma_inside(t, terms, "\n"@ + privacy + "\n"@);
    assert(t + terms + ("\n"@ + privacy + "\n"@) =~= t + text_end(f));
    lemma_inside(t + terms + "\n"@, privacy, "\n"@);
    assert(t + terms + "\n"@ + privacy + "\n"@ =~= t + text_end(f));
}

/// The way to unsubscribe is in the text.
pub proof fn the_offer_to_unsubscribe_is_in_the_text(c: ContentView, f: FooterView)
    ensures
        f.unsubscribe matches Some((text, label, url)) ==> contains(
            message_text(c, f),
            label + ": "@ + url,
        ),
{
    lemma_parts(c, f);
    if let Some((text, label, url)) = f.unsubscribe {
        let r = text_with_reason(c, f);
        lemma_inside(r + text + " "@, label + ": "@ + url, "\n"@);
        assert(r + text + " "@ + (label + ": "@ + url) + "\n"@ =~= text_with_offer(c, f));
        lemma_contains_more(text_with_offer(c, f), label + ": "@ + url, text_end(f));
    }
}

proof fn lemma_reaches_the_end(c: ContentView, f: FooterView, x: Seq<char>)
    requires
        contains(text_with_note(c), x),
    ensures
        contains(message_text(c, f), x),
{
    lemma_parts(c, f);
    lemma_up(
        text_with_note(c),
        x,
        f,
        text_with_reason(c, f),
        text_with_offer(c, f),
        text_end(f),
        message_text(c, f),
    );
}

/// The note is in the text.
pub proof fn the_note_is_in_the_text(c: ContentView, f: FooterView)
    ensures
        c.note matches Some(note) ==> contains(message_text(c, f), note),
{
    if let Some(n) = c.note {
        lemma_inside(text_with_button(c), n, "\n\n"@);
        lemma_reaches_the_end(c, f, n);
    }
}

/// The button's label and address are in the text.
pub proof fn the_button_is_in_the_text(c: ContentView, f: FooterView)
    ensures
        c.cta matches Some((label, url)) ==> contains(message_text(c, f), label + ": "@ + url),
{
    if let Some((label, url)) = c.cta {
        let x = label + ": "@ + url;
        lemma_inside(text_with_items(c), x, "\n\n"@);
        assert(text_with_items(c) + x + "\n\n"@ =~= text_with_button(c));
        lemma_note(text_with_button(c), x, c.note, text_with_note(c));
        lemma_reaches_the_end(c, f, x);
    }
}

/// The code is in the text.
pub proof fn the_code_is_in_the_text(c: ContentView, f: FooterView)
    ensures
        c.code matches Some(code) ==> contains(message_text(c, f), code),
{
    if let Some(x) = c.code {
        let paragraphs = text_paragraphs(c.heading + "\n\n"@, c.paragraphs);
        lemma_inside(paragraphs + "    "@, x, "\n\n"@);
        lemma_items(text_with_code(c), x, c.items);
        if c.items.len() > 0 {
            lemma_contains_more(text_items(text_with_code(c), c.items), x, "\n"@);
        }
        let t = text_with_items(c);
        if let Some((label, url)) = c.cta {
            lemma_contains_more(t, x, label);
            lemma_contains_more(t + label, x, ": "@);
            lemma_contains_more(t + label + ": "@, x, url);
            lemma_contains_more(t + label + ": "@ + url, x, "\n\n"@);
        }
        lemma_note(text_with_button(c), x, c.note, text_with_note(c));
        lemma_reaches_the_end(c, f, x);
    }
}

proof fn lemma_note(cta: Seq<char>, x: Seq<char>, n: Option<Seq<char>>, note: Seq<char>)
    requires
        contains(cta, x),
        note == (match n {
            Some(t) => cta + t + "\n\n"@,
            None => cta,
        }),
    ensures
        contains(note, x),
{
    if let Some(t) = n {
        lemma_contains_more(cta, x, t);
        lemma_contains_more(cta + t, x, "\n\n"@);
    }
}

proof fn lemma_items(before: Seq<char>, x: Seq<char>, p: Seq<Seq<char>>)
    requires
        contains(before, x),
    ensures
        contains(text_items(before, p), x),
    decreases p.len(),
{
    if p.len() > 0 {
        lemma_items(before, x, p.drop_last());
        let t = text_items(before, p.drop_last());
        lemma_contains_more(t, x, "- "@);
        lemma_contains_more(t + "- "@, x, p.last());
        lemma_contains_more(t + "- "@ + p.last(), x, "\n"@);
    }
}

proof fn lemma_end(
    reason: Seq<char>,
    unsubscribe: Seq<char>,
    end: Seq<char>,
    all: Seq<char>,
    u: Option<(Seq<char>, Seq<char>, Seq<char>)>,
    x: Seq<char>,
)
    requires
        contains(reason, x),
        unsubscribe == (match u {
            Some((text, label, url)) => reason + text + " "@ + label + ": "@ + url + "\n"@,
            None => reason,
        }),
        all == unsubscribe + end,
    ensures
        contains(all, x),
{
    if let Some((text, label, url)) = u {
        lemma_contains_more(reason, x, text);
        lemma_contains_more(reason + text, x, " "@);
        lemma_contains_more(reason + text + " "@, x, label);
        lemma_contains_more(reason + text + " "@ + label, x, ": "@);
        lemma_contains_more(reason + text + " "@ + label + ": "@, x, url);
        lemma_contains_more(reason + text + " "@ + label + ": "@ + url, x, "\n"@);
    }
    lemma_contains_more(unsubscribe, x, end);
}

proof fn lemma_up(
    note: Seq<char>,
    x: Seq<char>,
    f: FooterView,
    reason: Seq<char>,
    unsubscribe: Seq<char>,
    end: Seq<char>,
    all: Seq<char>,
)
    requires
        contains(note, x),
        reason == note + "--\n"@ + f.reason + "\n"@,
        unsubscribe == (match f.unsubscribe {
            Some((text, label, url)) => reason + text + " "@ + label + ": "@ + url + "\n"@,
            None => reason,
        }),
        all == unsubscribe + end,
    ensures
        contains(all, x),
{
    lemma_contains_more(note, x, "--\n"@);
    lemma_contains_more(note + "--\n"@, x, f.reason);
    lemma_contains_more(note + "--\n"@ + f.reason, x, "\n"@);
    lemma_end(reason, unsubscribe, end, all, f.unsubscribe, x);
}

/// A footer says why, offers to unsubscribe where there is an address for it,
/// and leads to the terms and to the privacy policy.
pub proof fn footers_lead_to_the_terms(ctx: RenderContext, reason: FooterReason)
    ensures
        footer_of(ctx, reason).terms.1 == app_path(ctx, "/legal/terms"@),
        footer_of(ctx, reason).privacy.1 == app_path(ctx, "/legal/privacy"@),
        footer_of(ctx, reason).unsubscribe is Some <==> ctx.unsubscribe_url is Some,
        footer_of(ctx, reason).unsubscribe matches Some(u) ==> u.2 == ctx.unsubscribe_url->0@,
{
}

/// A text that holds nothing to escape is escaped to itself, and texts are
/// escaped piece by piece.
pub proof fn harmless_text_is_not_escaped(a: Seq<char>, b: Seq<char>)
    ensures
        escaped(a + b) == escaped(a) + escaped(b),
        !a.contains('&') && !a.contains('<') && !a.contains('>') && !a.contains('"') && !a.contains(
            '\'',
        ) ==> escaped(a) == a,
    decreases a.len() + b.len(),
{
    if b.len() > 0 {
        harmless_text_is_not_escaped(a, b.drop_last());
        assert((a + b).drop_last() =~= a + b.drop_last());
        assert(escaped(a + b) =~= escaped(a) + escaped(b));
    } else {
        assert(a + b =~= a);
        assert(escaped(a) + escaped(b) =~= escaped(a));
        if a.len() > 0 {
            let t = a.drop_last();
            harmless_text_is_not_escaped(t, b);
            assert(a.contains(a.last())) by {
                assert(a[a.len() - 1] == a.last());
            }
            lemma_fewer(a);
            assert(t.push(a.last()) =~= a);
            assert(t + seq![a.last()] =~= a);
        }
    }
}

proof fn lemma_fewer(a: Seq<char>)
    requires
        a.len() > 0,
    ensures
        forall|c: char| #[trigger] a.drop_last().contains(c) ==> a.contains(c),
{
    let t = a.drop_last();
    assert forall|c: char| #[trigger] t.contains(c) implies a.contains(c) by {
        let i = choose|i: int| 0 <= i < t.len() && t[i] == c;
        assert(a[i] == c);
    }
}

/// A short subject of one word is left as it is.
pub proof fn short_subjects_stay(s: Seq<char>)
    requires
        0 < s.len() <= 120,
        forall|i: int| 0 <= i < s.len() ==> !is_space(#[trigger] s[i]) && !is_control(s[i]),
    ensures
        subject_line(s) == s,
{
    assert(without_controls(s) =~= s);
    lemma_squeeze_solid(s);
}

} // verus!
