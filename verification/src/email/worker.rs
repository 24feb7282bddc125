//! Delivers the e-mail outbox.
//!
//! Each run claims a batch of due messages — highest priority first
//! (`email::priority`: codes and security notices before everything else,
//! bulk mail last) — renders and sends them, and records the outcome:
//!
//! - sent → `sent`;
//! - failed → retried with exponential back-off, up to [`MAX_ATTEMPTS`],
//!   then `failed`;
//! - no SMTP server configured (development) → the message is marked
//!   `skipped`;
//! - the recipient switched that category of e-mail off after the message
//!   was queued → `skipped`.
//!
//! Past the hourly cap of non-security messages, only priority-0 messages
//! (codes, security notices) are claimed; the rest wait for the next hour (an
//! error is logged once an hour).
//!
//! Templates carrying one-time codes have their payload wiped as soon as
//! the message leaves the `pending` state for good. Error texts are stored
//! and logged with every e-mail address in them masked.

use crate::email::content::content_of;
use crate::email::outbox::{mask_emails_in, masked_text};
use crate::email::priority;
use crate::email::render::{
    footer_of, html_of, message_text, subject_line, RenderContext, RenderedEmail,
};
use crate::email::templates::{
    locale_code, locale_named, reason_of, unsubscribable, EmailTemplate, Locale,
};
use crate::email::unsubscribe::{base64_text, link, link_text, token_bytes};
use crate::ids::Uuid;
use crate::json::JsonValue;
use crate::models::communication::{
    default_prefs, effective, Category, CommunicationPreferences,
};
use crate::text::{
    chars, cut, cut_to, end_trimmed_of, find_char, find_text, index_of, index_of_text, opt_str,
    opt_text, piece, trim_end_char,
};
use crate::time::{is_moment, second_of, shifted, NaiveDateTime, SECONDS_PER_HOUR};
use vstd::arithmetic::power2::{lemma2_to64, pow2};
use vstd::prelude::*;

verus! {

/// Delivery attempts before a message is given up on.
pub const MAX_ATTEMPTS: i32 = 6;

/// Messages claimed per run.
pub const BATCH_SIZE: i64 = 25;

/// Messages of one batch in flight at once (each on its own pooled SMTP
/// connection).
pub const SEND_CONCURRENCY: usize = 4;

/// Non-security messages per hour when no configuration is loaded.
pub const DEFAULT_HOURLY_CAP: i64 = 500;

/// A message stuck in `sending` this long (a crashed worker) is retried.
pub const STALE_LOCK_MINUTES: i64 = 10;

/// Longest error text kept.
pub const MAX_ERROR_CHARS: usize = 1000;

// ---------------------------------------------------------------------
// Headers
// ---------------------------------------------------------------------

/// The token in an unsubscribe link; nothing where there is none.
pub open spec fn token_in(web_url: Seq<char>) -> Seq<char> {
    let at = index_of_text(web_url, "token="@);
    if at < web_url.len() {
        let rest = web_url.skip(at + 6);
        rest.take(index_of(rest, '&'))
    } else {
        seq![]
    }
}

/// The address of the web page, in brackets.
pub open spec fn bracketed(web_url: Seq<char>) -> Seq<char> {
    "<"@ + web_url + ">"@
}

/// The `List-Unsubscribe` header of a message, and whether one click is
/// enough.
pub open spec fn unsubscribe_header(web_url: Seq<char>, api: Option<Seq<char>>) -> (Seq<char>, bool) {
    if api is Some && token_in(web_url).len() > 0 {
        (
            "<"@ + trim_end_char(api->0, '/')
                + "/api/v1/public/email/unsubscribe/one-click?token="@ + token_in(web_url)
                + ">, <"@ + web_url + ">"@,
            true,
        )
    } else {
        (bracketed(web_url), false)
    }
}

fn find_token(web_url: &str) -> (r: String)
    ensures
        r@ == token_in(web_url@),
{
    let v = chars(web_url);
    let n = v.len();
    let mark = chars("token=");
    proof {
        reveal_strlit("token=");
        assert(v@.skip(0) =~= web_url@);
    }
    let at = find_text(&v, 0, &mark);
    if at < n {
        let from = at + 6;
        let to = find_char(&v, from, n, '&');
        proof {
            let rest = web_url@.skip(at + 6);
            assert(v@.subrange(from as int, n as int) =~= rest);
            assert(v@.subrange(from as int, to as int) =~= rest.take(to - from));
        }
        piece(&v, from, to)
    } else {
        String::new()
    }
}

/// The `List-Unsubscribe` header value for a message whose footer links
/// to `web_url` (`.../unsubscribe?token=...`): the one-click API endpoint
/// first when the API's public origin is known, then the web page. The
/// second element says whether one-click (RFC 8058) is offered.
pub fn list_unsubscribe(web_url: &str, api_public_url: Option<&str>) -> (r: (String, bool))
    ensures
        (r.0@, r.1) == unsubscribe_header(web_url@, opt_str(api_public_url)),
{
    let token = find_token(web_url);
    if let Some(api) = api_public_url {
        if !token.as_str().is_empty() {
            let mut s = "<".to_string();
            s.append(end_trimmed_of(api, '/').as_str());
            s.append("/api/v1/public/email/unsubscribe/one-click?token=");
            s.append(token.as_str());
            s.append(">, <");
            s.append(web_url);
            s.append(">");
            return (s, true);
        }
    }
    let mut s = "<".to_string();
    s.append(web_url);
    s.append(">");
    (s, false)
}

// ---------------------------------------------------------------------
// Rendering
// ---------------------------------------------------------------------

/// `r` is `template`, rendered in `ctx`.
pub open spec fn is_rendered(r: RenderedEmail, template: EmailTemplate, ctx: RenderContext) -> bool {
    &&& r.subject@ == subject_line(content_of(template, ctx).subject)
    &&& r.html@ == html_of(
        ctx.locale,
        r.subject@,
        content_of(template, ctx),
        footer_of(ctx, reason_of(template)),
    )
    &&& r.text@ == message_text(content_of(template, ctx), footer_of(ctx, reason_of(template)))
    &&& opt_text(r.unsubscribe_url) == opt_text(ctx.unsubscribe_url)
}

/// The unsubscribe link of a message: only where there is an account and a
/// category to switch off.
pub open spec fn unsubscribe_link(
    template: EmailTemplate,
    user_id: Option<Uuid>,
    locale: Locale,
    base: Seq<char>,
    hmac: Seq<u8>,
) -> Option<Seq<char>> {
    match (user_id, unsubscribable(template)) {
        (Some(user), Some(category)) => Some(
            link_text(base, locale_code(locale), base64_text(token_bytes(user, category, hmac))),
        ),
        _ => None,
    }
}

/// `ctx` is what a message to `user_id` is rendered in.
pub open spec fn is_context(
    ctx: RenderContext,
    template: EmailTemplate,
    user_id: Option<Uuid>,
    locale: Seq<char>,
    base: Seq<char>,
    hmac: Seq<u8>,
) -> bool {
    &&& ctx.app_base_url@ == base
    &&& ctx.locale == locale_named(locale)
    &&& opt_text(ctx.unsubscribe_url) == unsubscribe_link(
        template,
        user_id,
        locale_named(locale),
        base,
        hmac,
    )
}

/// Renders `template` for `user_id` in `locale` (with an unsubscribe link
/// where the template has one). `hmac` is that of the token of such a link.
pub fn render_for(
    template: &EmailTemplate,
    user_id: Option<Uuid>,
    locale: &str,
    app_base_url: &str,
    hmac: &Vec<u8>,
) -> (r: RenderedEmail)
    ensures
        exists|ctx: RenderContext|
            is_context(ctx, *template, user_id, locale@, app_base_url@, hmac@)
                && #[trigger] is_rendered(r, *template, ctx),
{
    let locale = Locale::parse(locale);
    let unsubscribe_url = match (user_id, template.unsubscribe_category()) {
        (Some(user_id), Some(category)) => Some(
            link(app_base_url, locale.code(), user_id, category, hmac),
        ),
        _ => None,
    };
    let ctx = RenderContext { app_base_url: app_base_url.to_string(), locale, unsubscribe_url };
    let r = template.render(&ctx);
    assert(is_rendered(r, *template, ctx));
    r
}

// ---------------------------------------------------------------------
// What to send
// ---------------------------------------------------------------------

/// The highest priority number that is claimed: past the hourly cap only
/// codes and security notices go out (a burst of notifications or a sign-up
/// flood must not burn the provider's quota that password resets depend on).
pub fn max_priority(sent_last_hour: i64, cap: i64) -> (r: i16)
    ensures
        r == if sent_last_hour >= cap {
            priority::SECURITY
        } else {
            i16::MAX
        },
{
    if sent_last_hour >= cap {
        priority::SECURITY
    } else {
        i16::MAX
    }
}

/// Message `a` of a batch goes out before message `b`: by priority, then by
/// identifier, and of two alike the one that was claimed first.
pub open spec fn goes_first(keys: Seq<(i16, Uuid)>, a: int, b: int) -> bool {
    ||| keys[a].0 < keys[b].0
    ||| keys[a].0 == keys[b].0 && keys[a].1.0 < keys[b].1.0
    ||| keys[a].0 == keys[b].0 && keys[a].1.0 == keys[b].1.0 && a < b
}

/// The order in which the messages of a batch go out, each with its priority
/// and identifier: their places in the batch.
pub fn claim_order(keys: &Vec<(i16, Uuid)>) -> (r: Vec<usize>)
    ensures
        r@.len() == keys@.len(),
        forall|i: int| 0 <= i < r@.len() ==> #[trigger] r@[i] < keys@.len(),
        forall|i: int, j: int|
            0 <= i < j < r@.len() ==> goes_first(keys@, #[trigger] r@[i] as int, #[trigger] r@[j] as int),
{
    let mut r: Vec<usize> = Vec::new();
    let mut n: usize = 0;
    while n < keys.len()
        invariant
            n <= keys@.len(),
            r@.len() == n,
            forall|i: int| 0 <= i < r@.len() ==> #[trigger] r@[i] < n,
            forall|i: int, j: int|
                0 <= i < j < r@.len() ==> goes_first(
                    keys@,
                    #[trigger] r@[i] as int,
                    #[trigger] r@[j] as int,
                ),
        decreases keys@.len() - n,
    {
        let (priority, id) = keys[n];
        let mut k: usize = 0;
        while k < r.len() && (keys[r[k]].0 < priority || (keys[r[k]].0 == priority
            && keys[r[k]].1.0 <= id.0))
            invariant
                n < keys@.len(),
                r@.len() == n,
                k <= r@.len(),
                (priority, id) == keys@[n as int],
                forall|i: int| 0 <= i < r@.len() ==> #[trigger] r@[i] < n,
                forall|i: int| 0 <= i < k ==> goes_first(keys@, #[trigger] r@[i] as int, n as int),
            decreases r@.len() - k,
        {
            k = k + 1;
        }
        let ghost before = r@;
        r.insert(k, n);
        assert forall|i: int, j: int| 0 <= i < j < r@.len() implies goes_first(
            keys@,
            #[trigger] r@[i] as int,
            #[trigger] r@[j] as int,
        ) by {
            let at = k as int;
            if i != at && j != at {
                assert(r@[i] == before[if i < at { i } else { i - 1 }]);
                assert(r@[j] == before[if j < at { j } else { j - 1 }]);
            } else if i == at {
                assert(r@[j] == before[j - 1]);
                assert(at < before.len());
                assert(goes_first(keys@, n as int, before[at] as int));
                if j - 1 > at {
                    assert(goes_first(keys@, before[at] as int, before[j - 1] as int));
                }
            } else {
                assert(r@[i] == before[i]);
            }
        }
        n = n + 1;
    }
    r
}

/// Whether a message with this priority may be claimed now.
pub open spec fn may_claim(message_priority: int, sent_last_hour: int, cap: int) -> bool {
    message_priority <= if sent_last_hour >= cap {
        priority::SECURITY as int
    } else {
        i16::MAX as int
    }
}

/// Codes and security notices always go out, however much was sent; every
/// other message waits while the cap is reached.
pub proof fn the_cap_never_holds_back_codes(message_priority: i16, sent_last_hour: int, cap: int)
    ensures
        message_priority <= priority::SECURITY ==> may_claim(
            message_priority as int,
            sent_last_hour,
            cap,
        ),
        sent_last_hour < cap ==> may_claim(message_priority as int, sent_last_hour, cap),
        sent_last_hour >= cap && message_priority > priority::SECURITY ==> !may_claim(
            message_priority as int,
            sent_last_hour,
            cap,
        ),
{
}

/// The account and category to ask before a message is sent; none for a
/// message that cannot be unsubscribed from.
pub fn consent_needed(template: &EmailTemplate, user_id: Option<Uuid>) -> (r: Option<
    (Uuid, Category),
>)
    ensures
        r == match (user_id, unsubscribable(*template)) {
            (Some(user), Some(category)) => Some((user, category)),
            _ => None,
        },
{
    match (user_id, template.unsubscribe_category()) {
        (Some(user_id), Some(category)) => Some((user_id, category)),
        _ => None,
    }
}

/// What the stored preferences say of e-mails of a category.
pub open spec fn consents(stored: Option<JsonValue>, category: Category) -> bool {
    match stored {
        Some(v) => effective(v@, category).email,
        None => default_prefs(category).email,
    }
}

/// Whether the recipient still wants this kind of e-mail: a message that
/// can be unsubscribed from is checked again at send time, so switching a
/// category off also stops what was queued before (a large announcement
/// can take a while to go out).
pub fn still_wanted(stored: &Option<JsonValue>, category: Category) -> (r: bool)
    ensures
        r == consents(*stored, category),
{
    let prefs = match stored {
        Some(value) => CommunicationPreferences::from_stored(value),
        None => CommunicationPreferences::default(),
    };
    prefs.get(category).email
}

// ---------------------------------------------------------------------
// What became of it
// ---------------------------------------------------------------------

/// What happened to one claimed message.
#[derive(Debug, Clone, Copy, PartialEq, Eq, Structural)]
pub enum Delivery {
    Sent,
    Skipped,
    Retrying,
    Failed,
}

/// How often the first wait is doubled.
pub open spec fn doublings(attempts: int) -> nat {
    if attempts <= 1 {
        0
    } else if attempts >= 11 {
        10
    } else {
        (attempts - 1) as nat
    }
}

/// Seconds before retry number `attempts`.
pub open spec fn backoff_seconds(attempts: int) -> int {
    (30 * pow2(doublings(attempts))) as int
}

/// Delay before retry number `attempts` (1-based), in seconds: 30 s, 1 min,
/// 2 min...
pub fn backoff(attempts: i32) -> (r: i64)
    ensures
        r == backoff_seconds(attempts as int),
        30 <= r <= 30_720,
{
    proof {
        lemma2_to64();
    }
    let factor: i64 = if attempts <= 1 {
        1
    } else if attempts == 2 {
        2
    } else if attempts == 3 {
        4
    } else if attempts == 4 {
        8
    } else if attempts == 5 {
        16
    } else if attempts == 6 {
        32
    } else if attempts == 7 {
        64
    } else if attempts == 8 {
        128
    } else if attempts == 9 {
        256
    } else if attempts == 10 {
        512
    } else {
        1024
    };
    30 * factor
}

/// Each wait is twice the one before, up to the longest.
pub proof fn waits_double(attempts: int)
    requires
        1 <= attempts < 11,
    ensures
        backoff_seconds(attempts + 1) == 2 * backoff_seconds(attempts),
{
    lemma2_to64();
}

/// What the worker found out about a claimed message.
#[derive(Debug, Clone)]
pub enum Event {
    /// The template is unknown or its payload malformed.
    Malformed,
    /// The recipient opted out after the message was queued.
    OptedOut,
    /// No SMTP server is configured.
    NoTransport,
    /// The server took the message.
    Accepted,
    /// The server refused it.
    Refused(String),
}

/// What the worker does next about a claimed message.
#[derive(Debug, Clone)]
pub enum Step {
    /// Find out whether the recipient still wants the message.
    AskConsent,
    /// Hand the message to the SMTP server.
    Send,
    /// Nothing more: this is what it found out.
    Done(Event),
}

/// The step that follows from what is known so far: whether the template could
/// be read, whether the recipient wants the message (`None` before asking) and
/// whether an SMTP server is configured. A malformed message is given up on
/// first, then one that the recipient opted out of, then one that nothing can
/// send; only the rest is sent.
pub open spec fn step_after(
    template_known: bool,
    wanted: Option<bool>,
    has_transport: bool,
) -> Step {
    if !template_known {
        Step::Done(Event::Malformed)
    } else {
        match wanted {
            None => Step::AskConsent,
            Some(false) => Step::Done(Event::OptedOut),
            Some(true) => if has_transport {
                Step::Send
            } else {
                Step::Done(Event::NoTransport)
            },
        }
    }
}

/// What to do next about a claimed message.
pub fn next_step(template_known: bool, wanted: Option<bool>, has_transport: bool) -> (r: Step)
    ensures
        r == step_after(template_known, wanted, has_transport),
{
    if !template_known {
        return Step::Done(Event::Malformed);
    }
    match wanted {
        None => Step::AskConsent,
        Some(false) => Step::Done(Event::OptedOut),
        Some(true) => if has_transport {
            Step::Send
        } else {
            Step::Done(Event::NoTransport)
        },
    }
}

/// What the server answered.
pub fn sent_event(answer: Result<(), String>) -> (r: Event)
    ensures
        r == match answer {
            Ok(_) => Event::Accepted,
            Err(e) => Event::Refused(e),
        },
{
    match answer {
        Ok(_) => Event::Accepted,
        Err(e) => Event::Refused(e),
    }
}

/// What a claimed message leads to, from what the worker would find out about
/// it; `answer` is the server's, should it be asked.
pub open spec fn event_of(
    template_known: bool,
    wanted: bool,
    has_transport: bool,
    answer: Result<(), String>,
) -> Event {
    match step_after(template_known, Some(wanted), has_transport) {
        Step::Done(event) => event,
        _ => match answer {
            Ok(_) => Event::Accepted,
            Err(e) => Event::Refused(e),
        },
    }
}

/// A message is handed to the server only when its template could be read, the
/// recipient was asked and wants it, and there is a server.
pub proof fn only_wanted_messages_are_sent(
    template_known: bool,
    wanted: Option<bool>,
    has_transport: bool,
)
    ensures
        step_after(template_known, wanted, has_transport) is Send <==> template_known && wanted
            == Some(true) && has_transport,
        step_after(template_known, wanted, has_transport) is AskConsent ==> wanted is None,
{
}

/// What becomes of a message: failed when its template can't be read, else
/// skipped when the recipient opted out, else skipped when there is no server,
/// else sent, or given up on, or put back, as the server answers.
pub proof fn deliveries_follow_the_order_of_decisions(
    o: Outcome,
    template_known: bool,
    wanted: bool,
    has_transport: bool,
    answer: Result<(), String>,
    attempts: int,
    sensitive: bool,
    now: int,
)
    requires
        follows(
            o,
            event_of(template_known, wanted, has_transport, answer),
            attempts,
            sensitive,
            now,
        ),
    ensures
        o.delivery == if !template_known {
            Delivery::Failed
        } else if !wanted || !has_transport {
            Delivery::Skipped
        } else if answer is Ok {
            Delivery::Sent
        } else if attempts >= MAX_ATTEMPTS {
            Delivery::Failed
        } else {
            Delivery::Retrying
        },
        o.delivery == Delivery::Retrying ==> (o.write matches Write::Retry { scheduled_at, error }
            && scheduled_at@ == shifted(now, backoff_seconds(attempts)) && error@
            == kept_error(answer->Err_0@) && error@.len() <= MAX_ERROR_CHARS),
{
}

/// What to write to the outbox.
#[derive(Debug, Clone)]
pub enum Write {
    /// The message leaves the queue with this status, error and, maybe,
    /// without its payload.
    Finish { status: &'static str, error: Option<String>, clear_payload: bool },
    /// The message goes back to the queue until `scheduled_at`.
    Retry { scheduled_at: NaiveDateTime, error: String },
}

/// What became of a message, and what to write.
#[derive(Debug, Clone)]
pub struct Outcome {
    pub delivery: Delivery,
    pub write: Write,
}

/// The error text that is kept: no address shows, and it is not too long.
pub open spec fn kept_error(error: Seq<char>) -> Seq<char> {
    cut(masked_text(error), MAX_ERROR_CHARS as int)
}

/// `o` takes the message off the queue.
pub open spec fn finishes(
    o: Outcome,
    delivery: Delivery,
    status: Seq<char>,
    error: Option<Seq<char>>,
    clear: bool,
) -> bool {
    &&& o.delivery == delivery
    &&& o.write matches Write::Finish { status: s, error: e, clear_payload: c }
    &&& s@ == status
    &&& opt_text(e) == error
    &&& c == clear
}

/// `o` is what follows from `event`, for a message tried `attempts` times.
pub open spec fn follows(
    o: Outcome,
    event: Event,
    attempts: int,
    sensitive: bool,
    now: int,
) -> bool {
    match event {
        Event::Malformed => finishes(
            o,
            Delivery::Failed,
            "failed"@,
            Some("unknown template"@),
            true,
        ),
        Event::OptedOut => finishes(
            o,
            Delivery::Skipped,
            "skipped"@,
            Some("recipient opted out"@),
            sensitive,
        ),
        Event::NoTransport => finishes(o, Delivery::Skipped, "skipped"@, None, sensitive),
        Event::Accepted => finishes(o, Delivery::Sent, "sent"@, None, sensitive),
        Event::Refused(e) => if attempts >= MAX_ATTEMPTS {
            finishes(o, Delivery::Failed, "failed"@, Some(kept_error(e@)), sensitive)
        } else {
            &&& o.delivery == Delivery::Retrying
            &&& o.write matches Write::Retry { scheduled_at, error }
            &&& scheduled_at@ == shifted(now, backoff_seconds(attempts))
            &&& error@ == kept_error(e@)
        },
    }
}

fn finished(
    delivery: Delivery,
    status: &'static str,
    error: Option<String>,
    clear_payload: bool,
) -> (r: Outcome)
    ensures
        finishes(r, delivery, status@, opt_text(error), clear_payload),
{
    Outcome { delivery, write: Write::Finish { status, error, clear_payload } }
}

/// What to do with a claimed message after `event`. `sensitive` says that its
/// template carries a one-time code.
pub fn outcome_of(event: &Event, attempts: i32, sensitive: bool, now: NaiveDateTime) -> (r: Outcome)
    requires
        *event is Refused && attempts < MAX_ATTEMPTS ==> is_moment(
            shifted(now@, backoff_seconds(attempts as int)),
        ),
    ensures
        follows(r, *event, attempts as int, sensitive, now@),
{
    match event {
        Event::Malformed => finished(
            Delivery::Failed,
            "failed",
            Some("unknown template".to_string()),
            true,
        ),
        Event::OptedOut => finished(
            Delivery::Skipped,
            "skipped",
            Some("recipient opted out".to_string()),
            sensitive,
        ),
        Event::NoTransport => finished(Delivery::Skipped, "skipped", None, sensitive),
        Event::Accepted => finished(Delivery::Sent, "sent", None, sensitive),
        Event::Refused(e) => {
            let masked = mask_emails_in(e.as_str());
            let error = cut_to(masked.as_str(), MAX_ERROR_CHARS);
            if attempts >= MAX_ATTEMPTS {
                finished(Delivery::Failed, "failed", Some(error), sensitive)
            } else {
                let wait = backoff(attempts);
                let scheduled_at = now.plus(wait);
                Outcome {
                    delivery: Delivery::Retrying,
                    write: Write::Retry { scheduled_at, error },
                }
            }
        },
    }
}

/// A one-time code never outlives its message: whatever happens, once the
/// message leaves the queue for good its payload is wiped.
pub proof fn codes_are_wiped(o: Outcome, event: Event, attempts: int, now: int)
    requires
        follows(o, event, attempts, true, now),
    ensures
        o.delivery == Delivery::Retrying <==> o.write is Retry,
        o.write matches Write::Finish { clear_payload, .. } ==> clear_payload,
{
}

/// A message that was tried often enough is never tried again.
pub proof fn messages_are_given_up_on(
    o: Outcome,
    event: Event,
    attempts: int,
    sensitive: bool,
    now: int,
)
    requires
        follows(o, event, attempts, sensitive, now),
        attempts >= MAX_ATTEMPTS,
    ensures
        o.delivery != Delivery::Retrying,
        o.write is Finish,
{
}

// ---------------------------------------------------------------------
// Configuration
// ---------------------------------------------------------------------

/// What the SMTP configuration amounts to: `Ok(false)` when there is none,
/// `Err` when it can't be used. `mailer` is what making a mailer of it gave.
pub fn check_smtp_config(mailer: Option<Result<(), String>>) -> (r: Result<bool, String>)
    ensures
        match mailer {
            None => r == Ok::<bool, String>(false),
            Some(Ok(())) => r == Ok::<bool, String>(true),
            Some(Err(e)) => r matches Err(x) && x@ == e@,
        },
{
    match mailer {
        None => Ok(false),
        Some(Ok(())) => Ok(true),
        Some(Err(e)) => Err(e),
    }
}

/// Whether reaching the cap is to be reported: once an hour. `reported` is
/// the hour (as a Unix hour number) it was last reported in.
pub fn reports_cap(now: NaiveDateTime, reported: i64) -> (r: (i64, bool))
    ensures
        r.0 == unix_hour(now@),
        r.1 == (unix_hour(now@) != reported),
{
    let seconds = now.seconds();
    let hour = if seconds >= 0 {
        seconds / SECONDS_PER_HOUR
    } else {
        -((-seconds) / SECONDS_PER_HOUR)
    };
    (hour, hour != reported)
}

/// The Unix hour of a moment, rounded towards 1970.
pub open spec fn unix_hour(now: int) -> int {
    let seconds = second_of(now);
    if seconds >= 0 {
        seconds / 3600
    } else {
        -((-seconds) / 3600)
    }
}

} // verus!
