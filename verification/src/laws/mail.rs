//! What is mailed to whom, in which order and how often.

use crate::email::outbox::{
    is_row_of, mailbox_cap, masked, masked_text, masked_word, name_priority, template_priority,
    OutboxRow, OutgoingEmail,
};
use crate::email::templates::{
    first_text, locale_code, locale_named, localized_text, reason_of, say, template_name,
    unsubscribable, EmailTemplate, FooterReason, Locale,
};
use crate::email::unsubscribe::link_text;
use crate::email::worker::{
    backoff_seconds, consents, follows, step_after, token_in, unsubscribe_header, Delivery, Event,
    Outcome, Step, Write,
};
use crate::json::{text_member, Json, JsonValue};
use crate::models::communication::Category;
use crate::text::{
    contains, cut, ends_with, index_of, index_of_text, lemma_index_of, opt_text, stands_at, trim,
    trim_end_char,
};
use crate::time::shifted;
use vstd::arithmetic::power2::{lemma2_to64, lemma_pow2_unfold};
use vstd::prelude::*;

verus! {

/// Mail to one mailbox is capped by the day: codes of sign-ups and changes at
/// five, codes for an existing account at twenty, copies of notifications at
/// thirty, the rest at ten; announcements and release notes are not.
pub proof fn mailboxes_are_capped_by_the_day(before: Seq<char>, name: Seq<char>)
    ensures
        mailbox_cap("announcement"@) is None,
        mailbox_cap("release_notes"@) is None,
        mailbox_cap("password_reset_code"@) == Some(20i64),
        mailbox_cap("reauth_code"@) == Some(20i64),
        mailbox_cap("notification"@) == Some(30i64),
        before + "_code"@ != "password_reset_code"@ && before + "_code"@ != "reauth_code"@
            ==> mailbox_cap(before + "_code"@) == Some(5i64),
        name != "announcement"@ && name != "release_notes"@ && name != "notification"@
            && !ends_with(name, "_code"@) ==> mailbox_cap(name) == Some(10i64),
{
    reveal_strlit("_code");
    reveal_strlit("announcement");
    reveal_strlit("release_notes");
    reveal_strlit("notification");
    reveal_strlit("password_reset_code");
    reveal_strlit("reauth_code");
    let s = before + "_code"@;
    assert(s.subrange(s.len() - 5, s.len() as int) =~= "_code"@);
    assert(s.last() == 'e');
    assert("announcement"@.last() == 't');
    assert("release_notes"@.last() == 's');
    assert("notification"@.last() == 'n');
    assert("password_reset_code"@.last() == 'e');
    assert("reauth_code"@.last() == 'e');
    assert("password_reset_code"@.subrange(14, 19) =~= "_code"@);
    assert("reauth_code"@.subrange(6, 11) =~= "_code"@);
    assert("password_reset_code"@ =~= "password_reset_code"@.take(14) + "_code"@);
    assert("reauth_code"@ =~= "reauth_code"@.take(6) + "_code"@);
    assert("notification"@.len() != "announcement"@.len() || "notification"@[0] != 'a');
    assert("announcement"@[0] == 'a');
    assert("notification"@.len() != "release_notes"@.len());
    assert("notification"@[0] == 'n');
    assert("reauth_code"@[0] == 'r');
    assert("password_reset_code"@[0] == 'p');
}

/// Codes and security notices go first, bulk mail last.
pub proof fn security_goes_first(t: EmailTemplate)
    ensures
        (t is EmailVerificationCode || t is PasswordResetCode || t is EmailChangeCode
            || t is ReauthCode || t is PasswordChanged || t is TwoFactorEnabled
            || t is TwoFactorDisabled || t is EmailChangedNotice || t is AccountDeleted
            || t is SecurityNotice) ==> template_priority(t) == 0,
        (t is Announcement || t is ReleaseNotes) ==> template_priority(t) == 9,
        t is Welcome ==> template_priority(t) == 3,
        t matches EmailTemplate::Notification { category, .. } ==> template_priority(t) == if category
            == Category::Security {
            0int
        } else {
            5int
        },
{
    reveal_strlit("_code");
    reveal_strlit("email_verification_code");
    reveal_strlit("password_reset_code");
    reveal_strlit("email_change_code");
    reveal_strlit("reauth_code");
    assert("email_verification_code"@.subrange(18, 23) =~= "_code"@);
    assert("password_reset_code"@.subrange(14, 19) =~= "_code"@);
    assert("email_change_code"@.subrange(12, 17) =~= "_code"@);
    assert("reauth_code"@.subrange(6, 11) =~= "_code"@);
    reveal_strlit("announcement");
    reveal_strlit("release_notes");
    reveal_strlit("welcome");
    assert("announcement"@.last() == 't');
    assert("release_notes"@.last() == 's');
    assert("email_verification_code"@.last() == 'e');
    assert("password_reset_code"@.last() == 'e');
    assert("email_change_code"@.last() == 'e');
    assert("reauth_code"@.last() == 'e');
    assert("welcome"@.len() == 7);
    assert("email_verification_code"@.len() == 23);
    assert("password_reset_code"@.len() == 19);
    assert("email_change_code"@.len() == 17);
    assert("reauth_code"@.len() == 11);
    assert("announcement"@.len() == 12);
    assert("release_notes"@.len() == 13);
    reveal_strlit("password_changed");
    reveal_strlit("two_factor_enabled");
    reveal_strlit("two_factor_disabled");
    reveal_strlit("email_changed_notice");
    reveal_strlit("account_deleted");
    reveal_strlit("security_notice");
    assert("password_changed"@.len() == 16);
    assert("two_factor_enabled"@.len() == 18);
    assert("two_factor_disabled"@.len() == 19);
    assert("email_changed_notice"@.len() == 20);
    assert("account_deleted"@.len() == 15);
    assert("security_notice"@.len() == 15);
}

/// A name that speaks of a trial, a subscription or a payment comes before the
/// copies of notifications, and after the codes.
pub proof fn billing_mail_comes_in_between(before: Seq<char>, after: Seq<char>)
    requires
        !ends_with(before + "subscription"@ + after, "_code"@),
        !ends_with(before + "trial"@ + after, "_code"@),
        !ends_with(before + "payment"@ + after, "_code"@),
    ensures
        name_priority(before + "subscription"@ + after) == 3,
        name_priority(before + "trial"@ + after) == 3,
        name_priority(before + "payment"@ + after) == 3,
{
    lemma_holds_word(before, "subscription"@, after, 1);
    lemma_holds_word(before, "trial"@, after, 0);
    lemma_holds_word(before, "payment"@, after, 2);
    lemma_no_other_name(before, after);
}

proof fn lemma_holds_word(before: Seq<char>, word: Seq<char>, after: Seq<char>, i: int)
    requires
        0 <= i < 7,
        crate::email::outbox::ACCOUNT_WORDS@[i]@ == word,
    ensures
        crate::email::outbox::has_account_word(before + word + after),
{
    let s = before + word + after;
    assert(s.subrange(before.len() as int, before.len() as int + word.len()) =~= word);
    assert(stands_at(s, before.len() as int, word));
    assert(contains(s, crate::email::outbox::ACCOUNT_WORDS@[i]@));
}

proof fn lemma_no_other_name(before: Seq<char>, after: Seq<char>)
    ensures
        ({
            let a = before + "subscription"@ + after;
            let b = before + "trial"@ + after;
            let c = before + "payment"@ + after;
            &&& forall|s: Seq<char>|
                #![trigger crate::email::outbox::is_security_name(s)]
                s == a || s == b || s == c ==> !crate::email::outbox::is_security_name(s)
                    && !crate::email::outbox::is_bulk(s) && s != "welcome"@
        }),
{
    reveal_strlit("subscription");
    reveal_strlit("trial");
    reveal_strlit("payment");
    lemma_not_in(before, "subscription"@, after);
    lemma_not_in(before, "trial"@, after);
    lemma_not_in(before, "payment"@, after);
}

proof fn lemma_not_in(before: Seq<char>, word: Seq<char>, after: Seq<char>)
    requires
        word == "subscription"@ || word == "trial"@ || word == "payment"@,
    ensures
        !crate::email::outbox::is_security_name(before + word + after),
        !crate::email::outbox::is_bulk(before + word + after),
        before + word + after != "welcome"@,
{
    let s = before + word + after;
    let k = before.len() as int;
    reveal_strlit("subscription");
    reveal_strlit("trial");
    reveal_strlit("payment");
    assert("subscription"@.len() == 12 && "trial"@.len() == 5 && "payment"@.len() == 7);
    assert("subscription"@[0] == 's' && "subscription"@[1] == 'u' && "subscription"@[2] == 'b');
    assert("trial"@[0] == 't' && "trial"@[1] == 'r' && "trial"@[2] == 'i');
    assert("payment"@[0] == 'p' && "payment"@[1] == 'a' && "payment"@[2] == 'y');
    assert(s[k] == word[0] && s[k + 1] == word[1] && s[k + 2] == word[2]);
    assert(starts_word(s, k) && k + 5 <= s.len());
    lemma_literals();
}

spec fn starts_word(s: Seq<char>, k: int) -> bool {
    ||| s[k] == 's' && s[k + 1] == 'u' && s[k + 2] == 'b'
    ||| s[k] == 't' && s[k + 1] == 'r' && s[k + 2] == 'i'
    ||| s[k] == 'p' && s[k + 1] == 'a' && s[k + 2] == 'y'
}

proof fn lemma_literals()
    ensures
        forall|k: int| 0 <= k && k + 5 <= "password_changed"@.len() ==> !#[trigger] starts_word("password_changed"@, k),
        forall|k: int| 0 <= k && k + 5 <= "two_factor_enabled"@.len() ==> !#[trigger] starts_word("two_factor_enabled"@, k),
        forall|k: int| 0 <= k && k + 5 <= "two_factor_disabled"@.len() ==> !#[trigger] starts_word("two_factor_disabled"@, k),
        forall|k: int| 0 <= k && k + 5 <= "email_changed_notice"@.len() ==> !#[trigger] starts_word("email_changed_notice"@, k),
        forall|k: int| 0 <= k && k + 5 <= "account_deleted"@.len() ==> !#[trigger] starts_word("account_deleted"@, k),
        forall|k: int| 0 <= k && k + 5 <= "security_notice"@.len() ==> !#[trigger] starts_word("security_notice"@, k),
        forall|k: int| 0 <= k && k + 5 <= "announcement"@.len() ==> !#[trigger] starts_word("announcement"@, k),
        forall|k: int| 0 <= k && k + 5 <= "release_notes"@.len() ==> !#[trigger] starts_word("release_notes"@, k),
        forall|k: int| 0 <= k && k + 5 <= "welcome"@.len() ==> !#[trigger] starts_word("welcome"@, k),
{
    reveal_strlit("password_changed");
    reveal_strlit("two_factor_enabled");
    reveal_strlit("two_factor_disabled");
    reveal_strlit("email_changed_notice");
    reveal_strlit("account_deleted");
    reveal_strlit("security_notice");
    reveal_strlit("announcement");
    reveal_strlit("release_notes");
    reveal_strlit("welcome");
}

/// Only mail without a code counts towards the fifty messages of an account.
pub proof fn codes_do_not_count_for_the_account(row: OutboxRow, email: OutgoingEmail)
    requires
        is_row_of(row, email),
    ensures
        email.user_id is None ==> row.account_cap is None,
        ends_with(template_name(email.template), "_code"@) ==> row.account_cap is None,
        email.user_id is Some && !ends_with(template_name(email.template), "_code"@)
            ==> row.account_cap == Some(50i64),
        row.user_id == email.user_id,
        row.locale@ == email.locale@,
        trim(email.to@).len() <= 254 ==> row.to@ == trim(email.to@),
        row.to@.len() <= 254,
{
}

/// A masked address shows its first letter and its domain.
pub proof fn masked_addresses_show_their_first_letter(local: Seq<char>, domain: Seq<char>)
    requires
        !local.contains('@'),
    ensures
        local.len() > 0 ==> masked(local + seq!['@'] + domain) == seq![local[0]] + "***@"@
            + domain,
        local.len() == 0 ==> masked(local + seq!['@'] + domain) == "***@"@ + domain,
        masked(local) == "***"@,
{
    let e = local + seq!['@'] + domain;
    lemma_index_of(e, '@');
    lemma_index_of(local, '@');
    let at = index_of(e, '@');
    assert(e[local.len() as int] == '@');
    if at < local.len() {
        assert(local[at] == '@');
    }
    assert(at == local.len());
    assert(e.take(at) =~= local);
    assert(e.skip(at + 1) =~= domain);
    if local.len() > 0 {
        assert(cut(local, 1) =~= seq![local[0]]);
    } else {
        assert(cut(local, 1) + "***@"@ + domain =~= "***@"@ + domain);
    }
}

/// A text that holds no address stays as it is.
pub proof fn texts_without_addresses_stay(s: Seq<char>)
    requires
        !s.contains('@'),
    ensures
        masked_text(s) == s,
    decreases s.len(),
{
    crate::email::outbox::lemma_word_end(s);
    let n = crate::email::outbox::word_end(s);
    lemma_word_stays(s, n);
    if n < s.len() {
        let t = s.skip(n + 1);
        if t.contains('@') {
            let i = choose|i: int| 0 <= i < t.len() && t[i] == '@';
            assert(s[i + n + 1] == '@');
        }
        texts_without_addresses_stay(s.skip(n + 1));
        assert(s.take(n) + seq![s[n]] + s.skip(n + 1) =~= s);
    } else {
        assert(s.take(s.len() as int) =~= s);
    }
}

proof fn lemma_word_stays(s: Seq<char>, n: int)
    requires
        !s.contains('@'),
        0 <= n <= s.len(),
    ensures
        masked_word(s.take(n)) == s.take(n),
{
    let w = s.take(n);
    let core = crate::email::outbox::core_start(w);
    crate::email::outbox::lemma_core(w);
    crate::email::outbox::lemma_core_end(core);
    lemma_index_of(core, '@');
    if core.contains('@') {
        let i = choose|i: int| 0 <= i < core.len() && core[i] == '@';
        assert(core[i] == w[w.len() - core.len() + i]);
        assert(s[w.len() - core.len() + i] == '@');
    }
}

/// The first wait is half a minute, each further one twice as long, and the
/// longest is 512 minutes.
pub proof fn waits_grow_from_half_a_minute(attempts: int)
    ensures
        attempts <= 1 ==> backoff_seconds(attempts) == 30,
        backoff_seconds(2) == 60,
        backoff_seconds(3) == 120,
        attempts >= 11 ==> backoff_seconds(attempts) == 512 * 60,
        1 <= attempts < 11 ==> backoff_seconds(attempts + 1) == 2 * backoff_seconds(attempts),
{
    lemma2_to64();
    if 1 <= attempts < 11 {
        lemma_pow2_unfold(attempts as nat);
    }
}

/// A message is sent where its template is known, it is wanted and there is a
/// way to send it.
pub proof fn decisions_come_in_order(known: bool, wanted: bool, transport: bool)
    ensures
        step_after(false, None, transport) == Step::Done(Event::Malformed),
        step_after(false, Some(wanted), transport) == Step::Done(Event::Malformed),
        step_after(true, None, transport) == Step::AskConsent,
        step_after(true, Some(false), transport) == Step::Done(Event::OptedOut),
        step_after(true, Some(true), true) == Step::Send,
        step_after(true, Some(true), false) == Step::Done(Event::NoTransport),
{
}

/// What becomes of a message is written down.
pub proof fn outcomes_are_written_down(
    o: Outcome,
    event: Event,
    attempts: int,
    sensitive: bool,
    now: int,
)
    requires
        follows(o, event, attempts, sensitive, now),
    ensures
        event is Accepted ==> o.delivery == Delivery::Sent && (o.write matches Write::Finish {
            status,
            error,
            clear_payload,
        } && status@ == "sent"@ && error is None && clear_payload == sensitive),
        event is OptedOut ==> o.delivery == Delivery::Skipped && (o.write matches Write::Finish {
            status,
            error,
            clear_payload,
        } && status@ == "skipped"@ && opt_text(error) == Some("recipient opted out"@)
            && clear_payload == sensitive),
        event is NoTransport ==> o.delivery == Delivery::Skipped && (o.write matches Write::Finish {
            status,
            error,
            clear_payload,
        } && status@ == "skipped"@ && error is None && clear_payload == sensitive),
        event is Malformed ==> o.delivery == Delivery::Failed && (o.write matches Write::Finish {
            status,
            error,
            clear_payload,
        } && status@ == "failed"@ && opt_text(error) == Some("unknown template"@)
            && clear_payload),
        event is Refused && attempts >= 6 ==> o.delivery == Delivery::Failed && (o.write matches Write::Finish {
            status,
            clear_payload,
            ..
        } && status@ == "failed"@ && clear_payload == sensitive),
        event is Refused && attempts < 6 ==> o.delivery == Delivery::Retrying && (o.write matches Write::Retry {
            scheduled_at,
            ..
        } && scheduled_at@ == shifted(now, backoff_seconds(attempts))),
        event matches Event::Refused(e) ==> (e@.len() <= 1_000 && !e@.contains('@')
            ==> match o.write {
            Write::Finish { error, .. } => opt_text(error) == Some(e@),
            Write::Retry { error, .. } => error@ == e@,
        }),
{
    if let Event::Refused(e) = event {
        if !e@.contains('@') {
            texts_without_addresses_stay(e@);
        }
    }
}

/// Without a stored choice security, account and announcement mail is wanted,
/// and no other; security mail is wanted whatever is stored.
pub proof fn mail_is_wanted_by_its_category(stored: Option<JsonValue>, category: Category)
    ensures
        consents(None, category) <==> category == Category::Security || category
            == Category::Account || category == Category::Announcements,
        consents(stored, Category::Security),
{
}

/// Mail on the account's security, its codes and its charges cannot be
/// unsubscribed from.
pub proof fn necessary_mail_has_no_unsubscribing(t: EmailTemplate)
    requires
        t is EmailVerificationCode || t is PasswordResetCode || t is EmailChangeCode
            || t is ReauthCode || t is PasswordChanged || t is TwoFactorEnabled
            || t is TwoFactorDisabled || t is EmailChangedNotice || t is AccountDeleted
            || t is SecurityNotice || t is Welcome || t is SubscriptionConfirmed
            || t is PaidTrialEnding || t is RenewalReminder || t is WithdrawalConfirmed
            || t is PaymentDisputed || t is PriceChange || (t matches EmailTemplate::Announcement {
            level,
            ..
        } && level@ == "critical"@),
    ensures
        unsubscribable(t) is None,
{
}

/// Notifications, announcements, release notes and trial reminders are
/// unsubscribed from by their category.
pub proof fn other_mail_is_unsubscribed_from_by_category(t: EmailTemplate)
    ensures
        t matches EmailTemplate::Notification { category, .. } ==> unsubscribable(t) == if category
            == Category::Security {
            None
        } else {
            Some(category)
        },
        t matches EmailTemplate::Announcement { level, .. } ==> (level@ != "critical"@
            ==> unsubscribable(t) == Some(Category::Announcements)),
        t is ReleaseNotes ==> unsubscribable(t) == Some(Category::ProductUpdates),
        t is TrialEnding ==> unsubscribable(t) == Some(Category::Account),
        t matches EmailTemplate::SubscriptionChanged { kind, .. } ==> (unsubscribable(t) is None
            <==> kind@ == "subscribed"@ || kind@ == "resumed"@ || kind@ == "plan_changed"@ || kind@
            == "payment_failed"@ || kind@ == "cancel_scheduled"@ || kind@ == "canceled"@),
        t matches EmailTemplate::SubscriptionChanged { .. } ==> unsubscribable(t) is None
            || unsubscribable(t) == Some(Category::Account),
{
    if let EmailTemplate::SubscriptionChanged { kind, .. } = t {
        let k = crate::email::templates::BILLING_NOTICE_KINDS@;
        assert(k[0]@ == "subscribed"@);
        assert(k[1]@ == "resumed"@);
        assert(k[2]@ == "plan_changed"@);
        assert(k[3]@ == "payment_failed"@);
        assert(k[4]@ == "cancel_scheduled"@);
        assert(k[5]@ == "canceled"@);
    }
}

/// The foot of a message says why it came.
pub proof fn footers_say_why_a_message_came(t: EmailTemplate)
    ensures
        (t is EmailVerificationCode || t is EmailChangeCode) ==> reason_of(t)
            == FooterReason::Address,
        (t is PasswordResetCode || t is ReauthCode || t is PasswordChanged || t is TwoFactorEnabled
            || t is TwoFactorDisabled || t is EmailChangedNotice) ==> reason_of(t)
            == FooterReason::Security,
        t is AccountDeleted ==> reason_of(t) == FooterReason::Deleted,
        t is Welcome ==> reason_of(t) == FooterReason::Account,
        t matches EmailTemplate::Announcement { level, .. } ==> (level@ == "critical"@ ==> reason_of(t)
            == FooterReason::Critical),
        t matches EmailTemplate::SecurityNotice { kind, .. } ==> reason_of(t) == if kind@
            == "email_in_use"@ {
            FooterReason::Address
        } else {
            FooterReason::Security
        },
        (t is SubscriptionConfirmed || t is PaidTrialEnding || t is RenewalReminder
            || t is WithdrawalConfirmed || t is PaymentDisputed || t is PriceChange) ==> reason_of(t)
            == FooterReason::Billing,
{
}

/// Locales are read by their codes and by two other names of Portuguese;
/// everything else is English.
pub proof fn locales_are_read_by_their_codes(l: Locale, value: Seq<char>)
    ensures
        locale_named(locale_code(l)) == l,
        locale_named("pt"@) == Locale::PtBr,
        locale_named("pt_BR"@) == Locale::PtBr,
        value != "pt-BR"@ && value != "pt"@ && value != "pt_BR"@ && value != "es"@
            ==> locale_named(value) == Locale::En,
{
    reveal_strlit("en");
    reveal_strlit("es");
    reveal_strlit("pt");
    reveal_strlit("pt-BR");
    reveal_strlit("pt_BR");
    assert("en"@.len() == 2 && "es"@.len() == 2 && "pt"@.len() == 2 && "pt-BR"@.len() == 5
        && "pt_BR"@.len() == 5);
    assert("en"@[1] == 'n' && "es"@[1] == 's' && "pt"@[1] == 't');
}

/// Each locale has its own text of three.
pub proof fn every_locale_has_its_text(t: [&'static str; 3])
    ensures
        say(Locale::En, t) == t@[0]@,
        say(Locale::PtBr, t) == t@[1]@,
        say(Locale::Es, t) == t@[2]@,
{
}

/// A localized text is that of the locale, else the English one, else the
/// first there is.
pub proof fn localized_texts_fall_back(v: Json, l: Locale, s: Seq<char>)
    ensures
        text_member(v, locale_code(l)) matches Some(x) ==> localized_text(v, l) == x,
        text_member(v, locale_code(l)) is None ==> (text_member(v, "en"@) matches Some(x)
            ==> localized_text(v, l) == x),
        localized_text(Json::Text(s), l) == s,
        v matches Json::Object(m) ==> (text_member(v, locale_code(l)) is None && text_member(
            v,
            "en"@,
        ) is None ==> localized_text(v, l) == match first_text(m) {
            Some(x) => x,
            None => seq![],
        }),
{
}

/// The address of the page that ends a subscription is offered with one click
/// where the address of the service is known.
pub proof fn one_click_links_come_first(
    base: Seq<char>,
    locale: Seq<char>,
    token: Seq<char>,
    api: Seq<char>,
)
    requires
        token.len() > 0,
        !token.contains('&'),
        index_of_text(link_text(base, locale, token), "token="@) == link_text(
            base,
            locale,
            token,
        ).len() - token.len() - 6,
    ensures
        unsubscribe_header(link_text(base, locale, token), Some(api)).1,
        unsubscribe_header(link_text(base, locale, token), Some(api)).0 == "<"@ + trim_end_char(
            api,
            '/',
        ) + "/api/v1/public/email/unsubscribe/one-click?token="@ + token + ">, <"@ + link_text(
            base,
            locale,
            token,
        ) + ">"@,
        unsubscribe_header(link_text(base, locale, token), None) == (
            "<"@ + link_text(base, locale, token) + ">"@,
            false,
        ),
{
    let url = link_text(base, locale, token);
    let at = index_of_text(url, "token="@);
    assert(url.skip(at + 6) =~= token);
    lemma_index_of(token, '&');
    assert(token.take(token.len() as int) =~= token);
    assert(token_in(url) == token);
}

/// Without a token, or without the address of the service, there is no one
/// click.
pub proof fn no_token_no_one_click(url: Seq<char>, api: Option<Seq<char>>)
    ensures
        index_of_text(url, "token="@) >= url.len() ==> token_in(url).len() == 0
            && unsubscribe_header(url, api) == ("<"@ + url + ">"@, false),
        unsubscribe_header(url, None) == ("<"@ + url + ">"@, false),
{
}

} // verus!
