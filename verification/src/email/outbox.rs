//! The e-mail outbox.
//!
//! Messages are written to `email_outbox` (ideally in the same transaction
//! as the change that caused them) and delivered by the background worker
//! (`email::worker`), so a slow or unavailable SMTP server never blocks or
//! fails a request.

pub use crate::email::priority;
use crate::email::templates::{template_name, EmailTemplate};
use crate::ids::Uuid;
use crate::models::communication::Category;
use crate::models::user::{canonical, canonical_email};
use crate::text::{
    alphanumeric, char_is_alphanumeric, char_is_space, chars, contains, cut, cut_to, ends_with,
    find_char, has, has_suffix, index_of, is_space, lemma_index_of, piece, same, trim, trimmed,
};
use vstd::prelude::*;

verus! {

/// One message to enqueue.
#[derive(Debug, Clone)]
pub struct OutgoingEmail {
    /// The account the message is about (`None` once it no longer exists,
    /// e.g. the goodbye message of a deleted account).
    pub user_id: Option<Uuid>,
    pub to: String,
    pub locale: String,
    pub template: EmailTemplate,
}

/// One-time-code e-mails to the same mailbox (per template) accepted in
/// 24 hours for codes that can go to an *arbitrary* address (sign-up
/// verification, e-mail change), whatever account asked for them: nothing
/// else stops them from being used to flood someone's inbox. Further
/// requests are dropped.
pub const CODE_EMAILS_PER_ADDRESS_PER_DAY: i64 = 5;

/// Codes that only ever go to the account's own registered address
/// (password recovery, re-authentication): the issuer's per-account
/// allowance is what bounds them, so this cap only has to stay above it
/// (below it, a stranger's requests would starve the owner of codes).
pub const ACCOUNT_CODE_EMAILS_PER_ADDRESS_PER_DAY: i64 = 20;

/// Copies of in-app notifications to one mailbox per day.
pub const NOTIFICATION_EMAILS_PER_ADDRESS_PER_DAY: i64 = 30;

/// Everything else (security notices, account and billing messages) to
/// one mailbox, per template, per day. Nobody legitimately gets more than
/// a handful of "your password was changed" messages in a day; a script
/// looping a settings change on an account with someone else's
/// (unverified) address would otherwise send thousands.
pub const OTHER_EMAILS_PER_ADDRESS_PER_DAY: i64 = 10;

/// Non-code messages queued for one account per day, all templates
/// together: a stolen or throw-away session looping a notified action
/// (linking and unlinking Google, toggling a band mate's role...) can't
/// use up the provider's quota or the hourly cap.
pub const EMAILS_PER_ACCOUNT_PER_DAY: i64 = 50;

/// Longest address kept.
pub const MAX_ADDRESS_CHARS: usize = 254;

/// Messages written by one statement.
pub const CHUNK: usize = 500;

/// The words that make an unknown template an account message.
pub const ACCOUNT_WORDS: [&'static str; 7] = [
    "trial",
    "subscription",
    "payment",
    "billing",
    "invoice",
    "refund",
    "withdraw",
];

/// A template carrying a one-time code.
pub open spec fn carries_code(name: Seq<char>) -> bool {
    ends_with(name, "_code"@)
}

/// Mail that is sent to many users at once.
pub open spec fn is_bulk(name: Seq<char>) -> bool {
    name == "announcement"@ || name == "release_notes"@
}

/// How many messages of a template one mailbox may be sent in 24 hours.
pub open spec fn mailbox_cap(name: Seq<char>) -> Option<i64> {
    if is_bulk(name) {
        None
    } else if name == "password_reset_code"@ || name == "reauth_code"@ {
        Some(ACCOUNT_CODE_EMAILS_PER_ADDRESS_PER_DAY)
    } else if carries_code(name) {
        Some(CODE_EMAILS_PER_ADDRESS_PER_DAY)
    } else if name == "notification"@ {
        Some(NOTIFICATION_EMAILS_PER_ADDRESS_PER_DAY)
    } else {
        Some(OTHER_EMAILS_PER_ADDRESS_PER_DAY)
    }
}

/// Templates carrying a one-time code, capped per recipient.
pub fn is_code_template(name: &str) -> (r: bool)
    ensures
        r == carries_code(name@),
{
    has_suffix(name, "_code")
}

/// How many messages of `template` one mailbox may be sent in 24 hours,
/// or `None` for bulk mail (which admins send deliberately).
pub fn recipient_daily_cap(template: &str) -> (r: Option<i64>)
    ensures
        r == mailbox_cap(template@),
{
    if same(template, "announcement") || same(template, "release_notes") {
        None
    } else if same(template, "password_reset_code") || same(template, "reauth_code") {
        Some(ACCOUNT_CODE_EMAILS_PER_ADDRESS_PER_DAY)
    } else if is_code_template(template) {
        Some(CODE_EMAILS_PER_ADDRESS_PER_DAY)
    } else if same(template, "notification") {
        Some(NOTIFICATION_EMAILS_PER_ADDRESS_PER_DAY)
    } else {
        Some(OTHER_EMAILS_PER_ADDRESS_PER_DAY)
    }
}

/// Every template but bulk mail is capped per mailbox, and no cap is zero.
pub proof fn every_template_but_bulk_mail_has_a_cap(name: Seq<char>)
    ensures
        mailbox_cap(name) is None <==> is_bulk(name),
        mailbox_cap(name) matches Some(n) ==> n > 0,
{
}

/// One of [`ACCOUNT_WORDS`] stands in the name.
pub open spec fn has_account_word(name: Seq<char>) -> bool {
    exists|i: int| 0 <= i < 7 && contains(name, #[trigger] ACCOUNT_WORDS@[i]@)
}

fn names_account(name: &str) -> (r: bool)
    ensures
        r == has_account_word(name@),
{
    let mut i: usize = 0;
    while i < 7
        invariant
            i <= 7,
            forall|j: int| 0 <= j < i ==> !contains(name@, #[trigger] ACCOUNT_WORDS@[j]@),
        decreases 7 - i,
    {
        if has(name, ACCOUNT_WORDS[i]) {
            assert(contains(name@, ACCOUNT_WORDS@[i as int]@));
            return true;
        }
        i = i + 1;
    }
    false
}

/// A notice about the security of an account.
pub open spec fn is_security_name(name: Seq<char>) -> bool {
    name == "password_changed"@ || name == "two_factor_enabled"@ || name == "two_factor_disabled"@
        || name == "email_changed_notice"@ || name == "account_deleted"@ || name
        == "security_notice"@
}

/// The priority of the template with this name.
pub open spec fn name_priority(name: Seq<char>) -> i16 {
    if is_security_name(name) {
        priority::SECURITY
    } else if is_bulk(name) {
        priority::BULK
    } else if name == "welcome"@ {
        priority::ACCOUNT
    } else if carries_code(name) {
        priority::SECURITY
    } else if has_account_word(name) {
        priority::ACCOUNT
    } else {
        priority::NORMAL
    }
}

/// The priority of a template: copies of notifications go by their category,
/// the others by their name.
pub open spec fn template_priority(t: EmailTemplate) -> i16 {
    match t {
        EmailTemplate::Notification { category, .. } => if category == Category::Security {
            priority::SECURITY
        } else {
            priority::NORMAL
        },
        _ => name_priority(template_name(t)),
    }
}

/// The outbox priority of `template`. Unknown templates (added later) get
/// a priority from their name: `*_code` are codes, billing words mean an
/// account message, anything else is [`priority::NORMAL`].
pub fn priority_of(template: &EmailTemplate) -> (r: i16)
    ensures
        r == template_priority(*template),
{
    match template {
        EmailTemplate::Notification { category, .. } => match category {
            Category::Security => priority::SECURITY,
            _ => priority::NORMAL,
        },
        _ => priority_of_name(template.name()),
    }
}

pub fn priority_of_name(name: &str) -> (r: i16)
    ensures
        r == name_priority(name@),
{
    if same(name, "password_changed") || same(name, "two_factor_enabled") || same(
        name,
        "two_factor_disabled",
    ) || same(name, "email_changed_notice") || same(name, "account_deleted") || same(
        name,
        "security_notice",
    ) {
        priority::SECURITY
    } else if same(name, "announcement") || same(name, "release_notes") {
        priority::BULK
    } else if same(name, "welcome") {
        priority::ACCOUNT
    } else if is_code_template(name) {
        priority::SECURITY
    } else if names_account(name) {
        priority::ACCOUNT
    } else {
        priority::NORMAL
    }
}

/// A code is never behind any other message, and bulk mail never before.
pub proof fn codes_go_first_and_bulk_mail_last(name: Seq<char>, other: Seq<char>)
    ensures
        carries_code(name) ==> name_priority(name) <= name_priority(other),
        is_bulk(name) ==> name_priority(other) <= name_priority(name),
{
    reveal_strlit("announcement");
    reveal_strlit("release_notes");
    if carries_code(name) {
        reveal_strlit("_code");
        reveal_strlit("welcome");
        let tail = name.subrange(name.len() - 5, name.len() as int);
        assert(tail[4] == name.last());
        assert(tail[0] == name[name.len() - 5]);
        assert("announcement"@.last() == 't');
        assert("release_notes"@.last() == 's');
        assert("welcome"@[2] == 'l');
        assert(!is_bulk(name) && name != "welcome"@);
    }
    if is_bulk(name) {
        reveal_strlit("password_changed");
        reveal_strlit("two_factor_enabled");
        reveal_strlit("two_factor_disabled");
        reveal_strlit("email_changed_notice");
        reveal_strlit("account_deleted");
        reveal_strlit("security_notice");
        assert(name.len() == 12 || name.len() == 13);
        assert(!is_security_name(name));
    }
}

// ---------------------------------------------------------------------
// Queueing
// ---------------------------------------------------------------------

/// What the outbox keeps of a message, besides its payload.
#[derive(Debug, Clone)]
pub struct OutboxRow {
    pub user_id: Option<Uuid>,
    pub to: String,
    /// The mailbox behind the address, by which messages are counted: `+tags`
    /// and Gmail dots don't multiply it.
    pub canonical: String,
    pub template: &'static str,
    pub locale: String,
    pub priority: i16,
    /// Messages of this template that the mailbox may get in a day.
    pub recipient_cap: Option<i64>,
    /// Messages that the account may cause in a day; codes don't count.
    pub account_cap: Option<i64>,
}

/// The address that a message goes to.
pub open spec fn address_of(to: Seq<char>) -> Seq<char> {
    cut(trim(to), MAX_ADDRESS_CHARS as int)
}

/// `row` is what the outbox keeps of `email`.
pub open spec fn is_row_of(row: OutboxRow, email: OutgoingEmail) -> bool {
    let name = template_name(email.template);
    &&& row.user_id == email.user_id
    &&& row.to@ == address_of(email.to@)
    &&& row.canonical@ == canonical(address_of(email.to@))
    &&& row.template@ == name
    &&& row.locale@ == email.locale@
    &&& row.priority == template_priority(email.template)
    &&& row.recipient_cap == mailbox_cap(name)
    &&& row.account_cap == if !carries_code(name) && email.user_id is Some {
        Some(EMAILS_PER_ACCOUNT_PER_DAY)
    } else {
        None
    }
}

/// What the outbox keeps of `email`.
///
/// Every template is capped per recipient mailbox (see
/// [`recipient_daily_cap`]; the mailbox is the canonical form of the
/// address, so `+tags` and Gmail dots don't multiply it), and non-code
/// messages are also capped per account ([`EMAILS_PER_ACCOUNT_PER_DAY`]).
pub fn outbox_row(email: &OutgoingEmail) -> (r: OutboxRow)
    ensures
        is_row_of(r, *email),
{
    let template = email.template.name();
    let to = cut_to(trimmed(email.to.as_str()).as_str(), MAX_ADDRESS_CHARS);
    let canonical = canonical_email(to.as_str());
    let account_cap = if !is_code_template(template) && email.user_id.is_some() {
        Some(EMAILS_PER_ACCOUNT_PER_DAY)
    } else {
        None
    };
    OutboxRow {
        user_id: email.user_id,
        to,
        canonical,
        template,
        locale: email.locale.clone(),
        priority: priority_of(&email.template),
        recipient_cap: recipient_daily_cap(template),
        account_cap,
    }
}

/// The rows of many messages, in their order.
pub fn outbox_rows(emails: &[OutgoingEmail]) -> (r: Vec<OutboxRow>)
    ensures
        r@.len() == emails@.len(),
        forall|i: int| 0 <= i < r@.len() ==> is_row_of(#[trigger] r@[i], emails@[i]),
{
    let mut rows: Vec<OutboxRow> = Vec::new();
    let mut i: usize = 0;
    while i < emails.len()
        invariant
            i <= emails@.len(),
            rows@.len() == i,
            forall|j: int| 0 <= j < i ==> is_row_of(#[trigger] rows@[j], emails@[j]),
        decreases emails@.len() - i,
    {
        rows.push(outbox_row(&emails[i]));
        i = i + 1;
    }
    rows
}

/// The identifier to report for a message: the nil one when it was dropped.
/// Past a cap the message is silently dropped (never reported to the caller,
/// so the answer of a sign-up or recovery request doesn't reveal anything).
pub fn queued_id(id: Uuid, rows_written: u64) -> (r: Uuid)
    ensures
        r == if rows_written == 0 {
            Uuid(0)
        } else {
            id
        },
{
    if rows_written == 0 {
        Uuid(0)
    } else {
        id
    }
}

// ---------------------------------------------------------------------
// Masking
// ---------------------------------------------------------------------

/// An address with only the first letter of its local part.
pub open spec fn masked(email: Seq<char>) -> Seq<char> {
    let at = index_of(email, '@');
    if at < email.len() {
        cut(email.take(at), 1) + "***@"@ + email.skip(at + 1)
    } else {
        "***"@
    }
}

/// Masks an address for display in notices sent elsewhere:
/// `ana.maria@example.com` → `a***@example.com`.
pub fn mask_email(email: &str) -> (r: String)
    ensures
        r@ == masked(email@),
{
    let v = chars(email);
    let n = v.len();
    let at = find_char(&v, 0, n, '@');
    assert(v@.subrange(0, n as int) =~= email@);
    if at < n {
        let local = piece(&v, 0, at);
        let domain = piece(&v, at + 1, n);
        assert(local@ =~= email@.take(at as int));
        assert(domain@ =~= email@.skip(at + 1));
        let mut r = cut_to(local.as_str(), 1);
        r.append("***@");
        r.append(domain.as_str());
        r
    } else {
        "***".to_string()
    }
}

/// Of two addresses with the same first letter and the same domain, the masks
/// are the same: nothing else of an address shows.
pub proof fn masks_show_only_the_first_letter_and_the_domain(a: Seq<char>, b: Seq<char>)
    requires
        index_of(a, '@') < a.len(),
        index_of(b, '@') < b.len(),
        cut(a.take(index_of(a, '@')), 1) == cut(b.take(index_of(b, '@')), 1),
        a.skip(index_of(a, '@') + 1) == b.skip(index_of(b, '@') + 1),
    ensures
        masked(a) == masked(b),
{
}

/// What ends a word: white space, or punctuation that stands around
/// addresses.
pub open spec fn ends_word(c: char) -> bool {
    is_space(c) || c == ',' || c == ';' || c == '<' || c == '>' || c == '(' || c == ')' || c == '"'
        || c == '\''
}

fn char_ends_word(c: char) -> (r: bool)
    ensures
        r == ends_word(c),
{
    char_is_space(c) || c == ',' || c == ';' || c == '<' || c == '>' || c == '(' || c == ')' || c
        == '"' || c == '\''
}

/// `s` without what is neither letter nor number at its start.
pub open spec fn core_start(s: Seq<char>) -> Seq<char>
    decreases s.len(),
{
    if s.len() > 0 && !alphanumeric(s[0]) {
        core_start(s.skip(1))
    } else {
        s
    }
}

/// `s` without what is neither letter nor number at its end.
pub open spec fn core_end(s: Seq<char>) -> Seq<char>
    decreases s.len(),
{
    if s.len() > 0 && !alphanumeric(s.last()) {
        core_end(s.drop_last())
    } else {
        s
    }
}

pub proof fn lemma_core(s: Seq<char>)
    ensures
        core_start(s).len() <= s.len(),
        core_start(s) == s.skip(s.len() - core_start(s).len()),
        forall|i: int|
            0 <= i < s.len() - core_start(s).len() ==> !alphanumeric(#[trigger] s[i]),
        core_start(s).len() > 0 ==> alphanumeric(core_start(s)[0]),
    decreases s.len(),
{
    if s.len() > 0 && !alphanumeric(s[0]) {
        let rest = s.skip(1);
        lemma_core(rest);
        let k = rest.len() - core_start(rest).len();
        assert(rest.skip(k) =~= s.skip(k + 1));
        assert forall|i: int| 0 <= i < k + 1 implies !alphanumeric(#[trigger] s[i]) by {
            if i > 0 {
                assert(rest[i - 1] == s[i]);
            }
        }
    } else {
        assert(s.skip(0) =~= s);
    }
}

pub proof fn lemma_core_end(s: Seq<char>)
    ensures
        core_end(s).len() <= s.len(),
        core_end(s) == s.take(core_end(s).len() as int),
        forall|i: int| core_end(s).len() <= i < s.len() ==> !alphanumeric(#[trigger] s[i]),
    decreases s.len(),
{
    if s.len() > 0 && !alphanumeric(s.last()) {
        let rest = s.drop_last();
        lemma_core_end(rest);
        let k = core_end(rest).len() as int;
        assert(rest.take(k) =~= s.take(k));
        assert forall|i: int| k <= i < s.len() implies !alphanumeric(#[trigger] s[i]) by {
            if i < s.len() - 1 {
                assert(rest[i] == s[i]);
            }
        }
    } else {
        assert(s.take(s.len() as int) =~= s);
    }
}

/// Where the letters and numbers of what follows `from` start and end.
fn core_bounds(v: &Vec<char>, from: usize) -> (r: (usize, usize))
    requires
        from <= v@.len(),
    ensures
        from <= r.0 <= r.1 <= v@.len(),
        core_start(v@.skip(from as int)) == v@.skip(r.0 as int),
        core_end(v@.skip(r.0 as int)) == v@.subrange(r.0 as int, r.1 as int),
{
    let n = v.len();
    let mut a: usize = from;
    while a < n && !char_is_alphanumeric(v[a])
        invariant
            n == v@.len(),
            from <= a <= n,
            core_start(v@.skip(from as int)) == core_start(v@.skip(a as int)),
        decreases n - a,
    {
        assert(v@.skip(a as int).skip(1) =~= v@.skip(a + 1));
        a = a + 1;
    }
    let ghost start = v@.skip(a as int);
    assert(core_start(start) == start);
    let mut b: usize = n;
    assert(v@.subrange(a as int, b as int) =~= start);
    while b > a && !char_is_alphanumeric(v[b - 1])
        invariant
            n == v@.len(),
            a <= b <= n,
            core_end(start) == core_end(v@.subrange(a as int, b as int)),
        decreases b,
    {
        let ghost now = v@.subrange(a as int, b as int);
        assert(now.last() == v@[b - 1]);
        assert(now.drop_last() =~= v@.subrange(a as int, b - 1));
        b = b - 1;
    }
    proof {
        let now = v@.subrange(a as int, b as int);
        if now.len() > 0 {
            assert(now.last() == v@[b - 1]);
        }
        assert(core_end(now) == now);
    }
    (a, b)
}

/// A character of a domain name.
pub open spec fn in_domain(c: char) -> bool {
    alphanumeric(c) || c == '.' || c == '-'
}

/// How far the domain name at the start of `s` reaches.
pub open spec fn domain_end(s: Seq<char>) -> int
    decreases s.len(),
{
    if s.len() == 0 || !in_domain(s[0]) {
        0
    } else {
        1 + domain_end(s.skip(1))
    }
}

pub proof fn lemma_domain_end(s: Seq<char>)
    ensures
        0 <= domain_end(s) <= s.len(),
        forall|i: int| 0 <= i < domain_end(s) ==> in_domain(#[trigger] s[i]),
    decreases s.len(),
{
    if s.len() > 0 && in_domain(s[0]) {
        let rest = s.skip(1);
        lemma_domain_end(rest);
        assert forall|i: int| 0 <= i < domain_end(s) implies in_domain(#[trigger] s[i]) by {
            if i > 0 {
                assert(rest[i - 1] == s[i]);
            }
        }
    }
}

/// How much of what follows the `@` of an address is its domain: none of it
/// when another `@` ends it, since it then is the name of a further address.
pub open spec fn shown_domain(after: Seq<char>) -> int {
    let e = domain_end(after);
    if e < after.len() && after[e] == '@' {
        0
    } else {
        e
    }
}

/// A word with every address in it masked, one behind the other. What is
/// neither letter nor number around the addresses stays.
pub open spec fn masked_word(word: Seq<char>) -> Seq<char>
    decreases word.len(),
{
    let s = core_start(word);
    let at = index_of(s, '@');
    if at >= core_end(s).len() {
        word
    } else {
        proof {
            lemma_core(word);
            lemma_core_end(s);
            lemma_index_of(s, '@');
            lemma_domain_end(s.skip(at + 1));
        }
        let after = s.skip(at + 1);
        let k = shown_domain(after);
        word.take(word.len() - s.len()) + cut(s.take(at), 1) + "***@"@ + after.take(k)
            + masked_word(after.skip(k))
    }
}

/// Where the word at the start of `s` ends.
pub open spec fn word_end(s: Seq<char>) -> int
    decreases s.len(),
{
    if s.len() == 0 || ends_word(s[0]) {
        0
    } else {
        1 + word_end(s.skip(1))
    }
}

pub proof fn lemma_word_end(s: Seq<char>)
    ensures
        0 <= word_end(s) <= s.len(),
    decreases s.len(),
{
    if s.len() > 0 && !ends_word(s[0]) {
        lemma_word_end(s.skip(1));
    }
}

proof fn lemma_word_stops(s: Seq<char>)
    ensures
        word_end(s) < s.len() ==> ends_word(s[word_end(s)]),
    decreases s.len(),
{
    lemma_word_end(s);
    if s.len() > 0 && !ends_word(s[0]) {
        lemma_word_stops(s.skip(1));
        lemma_word_end(s.skip(1));
    }
}

/// A text with every address in it masked, word by word.
pub open spec fn masked_text(s: Seq<char>) -> Seq<char>
    decreases s.len(),
{
    proof {
        lemma_word_end(s);
    }
    let n = word_end(s);
    if n >= s.len() {
        masked_word(s)
    } else {
        masked_word(s.take(n)) + seq![s[n]] + masked_text(s.skip(n + 1))
    }
}

fn find_domain_end(v: &Vec<char>, from: usize) -> (e: usize)
    requires
        from <= v@.len(),
    ensures
        from <= e <= v@.len(),
        e - from == domain_end(v@.skip(from as int)),
{
    let n = v.len();
    let mut e: usize = from;
    while e < n && (char_is_alphanumeric(v[e]) || v[e] == '.' || v[e] == '-')
        invariant
            n == v@.len(),
            from <= e <= n,
            domain_end(v@.skip(from as int)) == e - from + domain_end(v@.skip(e as int)),
        decreases n - e,
    {
        assert(v@.skip(e as int).skip(1) =~= v@.skip(e + 1));
        e = e + 1;
    }
    e
}

fn mask_word(word: &str) -> (r: String)
    ensures
        r@ == masked_word(word@),
{
    let v = chars(word);
    let n = v.len();
    let mut out = String::new();
    let mut from: usize = 0;
    assert(v@.skip(0) =~= word@);
    assert(out@ + masked_word(word@) =~= masked_word(word@));
    loop
        invariant
            v@ == word@,
            n == v@.len(),
            from <= n,
            out@ + masked_word(v@.skip(from as int)) == masked_word(word@),
        decreases n - from,
    {
        let ghost w = v@.skip(from as int);
        let (a, b) = core_bounds(&v, from);
        let ghost s = v@.skip(a as int);
        let at = find_char(&v, a, n, '@');
        assert(v@.subrange(a as int, n as int) =~= s);
        if at >= b {
            let rest = piece(&v, from, n);
            assert(rest@ =~= w);
            out.append(rest.as_str());
            return out;
        }
        let e = find_domain_end(&v, at + 1);
        let end = if e < n && v[e] == '@' {
            at + 1
        } else {
            e
        };
        let before = piece(&v, from, a);
        let name = piece(&v, a, at);
        let domain = piece(&v, at + 1, end);
        let ghost done = out@;
        proof {
            let after = s.skip(at - a + 1);
            assert(after =~= v@.skip(at + 1));
            assert(before@ =~= w.take(w.len() - s.len()));
            assert(name@ =~= s.take(at - a));
            assert(domain@ =~= after.take(end - at - 1));
            assert(after.skip(end - at - 1) =~= v@.skip(end as int));
            assert(masked_word(w) == before@ + cut(name@, 1) + "***@"@ + domain@ + masked_word(
                v@.skip(end as int),
            ));
        }
        out.append(before.as_str());
        out.append(cut_to(name.as_str(), 1).as_str());
        out.append("***@");
        out.append(domain.as_str());
        assert(done + masked_word(w) =~= out@ + masked_word(v@.skip(end as int)));
        from = end;
    }
}

/// Masks every e-mail address inside free text (SMTP error messages often
/// quote the recipient), word by word, with [`mask_email`].
pub fn mask_emails_in(text: &str) -> (r: String)
    ensures
        r@ == masked_text(text@),
{
    let v = chars(text);
    let n = v.len();
    let mut out = String::new();
    let mut from: usize = 0;
    let mut i: usize = 0;
    assert(v@.skip(0) =~= text@);
    assert(out@ + masked_text(text@) =~= masked_text(text@));
    while i < n
        invariant
            v@ == text@,
            n == v@.len(),
            from <= i <= n,
            word_end(v@.skip(from as int)) == i - from + word_end(v@.skip(i as int)),
            out@ + masked_text(v@.skip(from as int)) == masked_text(text@),
        decreases n - i,
    {
        let c = v[i];
        let ghost rest = v@.skip(i as int);
        assert(rest[0] == c);
        if char_ends_word(c) {
            let word = piece(&v, from, i);
            let m = mask_word(word.as_str());
            let ghost before = out@;
            let ghost s = v@.skip(from as int);
            proof {
                assert(word@ =~= s.take(i - from));
                assert(s.skip(i - from + 1) =~= v@.skip(i + 1));
                assert(s[i - from] == c);
            }
            out.append(m.as_str());
            out.push(c);
            proof {
                assert(masked_text(s) == masked_word(s.take(i - from)) + seq![c] + masked_text(
                    v@.skip(i + 1),
                ));
                assert(before + masked_text(s) =~= out@ + masked_text(v@.skip(i + 1)));
            }
            from = i + 1;
        } else {
            assert(rest.skip(1) =~= v@.skip(i + 1));
        }
        i = i + 1;
    }
    let word = piece(&v, from, n);
    proof {
        assert(word@ =~= v@.skip(from as int));
        lemma_word_end(word@);
    }
    let m = mask_word(word.as_str());
    out.append(m.as_str());
    out
}

/// `c` belongs to a word, as a letter or a number.
pub open spec fn is_word_letter(c: char) -> bool {
    alphanumeric(c) && !ends_word(c)
}

proof fn lemma_masked_start(word: Seq<char>)
    ensures
        word.len() == 0 ==> masked_word(word).len() == 0,
        word.len() > 0 ==> masked_word(word).len() > 0 && masked_word(word)[0] == word[0],
{
    let s = core_start(word);
    let at = index_of(s, '@');
    lemma_core(word);
    lemma_core_end(s);
    lemma_index_of(s, '@');
    if at < core_end(s).len() {
        reveal_strlit("***@");
        if at == 0 {
            assert(s[0] == '@');
        }
    }
}

proof fn lemma_masked_word(word: Seq<char>, i: int, j: int)
    requires
        0 < i < j < masked_word(word).len(),
        masked_word(word)[i] == '@',
    ensures
        !(alphanumeric(masked_word(word)[i - 1]) && alphanumeric(masked_word(word)[j])),
    decreases word.len(),
{
    let s = core_start(word);
    let at = index_of(s, '@');
    let p = word.len() - s.len();
    lemma_core(word);
    lemma_core_end(s);
    lemma_index_of(s, '@');
    let r = masked_word(word);
    if at >= core_end(s).len() {
        if i < p {
            assert(!alphanumeric(word[i - 1]));
        } else {
            assert(word[i] == s[i - p]);
            assert(word[j] == s[j - p]);
        }
    } else {
        reveal_strlit("***@");
        let after = s.skip(at + 1);
        lemma_domain_end(after);
        let k = shown_domain(after);
        let rest = after.skip(k);
        let shown = cut(s.take(at), 1);
        let m = masked_word(rest);
        let head = word.take(p) + shown + "***@"@ + after.take(k);
        assert(r =~= head + m);
        let h = head.len() as int;
        let q = p + shown.len();
        if i < p {
            assert(r[i - 1] == word[i - 1]);
        } else if i < q {
            assert(at > 0) by {
                if at == 0 {
                    assert(s[0] == '@');
                }
            }
            assert(r[i] == s[0]);
        } else if i < q + 4 {
            assert(r[i] == "***@"@[i - q]);
            assert(r[i - 1] == "***@"@[i - 1 - q]);
        } else if i < h {
            assert(r[i] == after[i - q - 4]);
            assert(in_domain(after[i - q - 4]));
        } else if i == h {
            lemma_masked_start(rest);
            assert(r[i] == m[0]);
            assert(rest.len() > 0);
            assert(rest[0] == after[k]);
            if k == 0 {
                assert(r[i - 1] == "***@"@[3]);
            }
        } else {
            assert(r[i] == m[i - h] && r[i - 1] == m[i - 1 - h] && r[j] == m[j - h]);
            lemma_masked_word(rest, i - h, j - h);
        }
    }
}

/// Every address in a text is masked: no `@` is left with a letter or a number
/// on either side.
pub proof fn no_address_is_left_in_a_text(text: Seq<char>, i: int)
    requires
        0 < i < masked_text(text).len() - 1,
        masked_text(text)[i] == '@',
    ensures
        !(is_word_letter(masked_text(text)[i - 1]) && is_word_letter(masked_text(text)[i + 1])),
    decreases text.len(),
{
    lemma_word_end(text);
    let n = word_end(text);
    let r = masked_text(text);
    if is_word_letter(r[i - 1]) && is_word_letter(r[i + 1]) {
        if n >= text.len() {
            lemma_masked_word(text, i, i + 1);
        } else {
            lemma_word_stops(text);
            let word = text.take(n);
            let m = masked_word(word);
            let rest = text.skip(n + 1);
            let t = masked_text(rest);
            let h = m.len() as int;
            assert(r =~= m + seq![text[n]] + t);
            assert(r[h] == text[n]);
            if i + 1 < h {
                assert(r[i] == m[i] && r[i - 1] == m[i - 1] && r[i + 1] == m[i + 1]);
                lemma_masked_word(word, i, i + 1);
            } else if i > h + 1 {
                assert(r[i] == t[i - h - 1] && r[i - 1] == t[i - h - 2] && r[i + 1] == t[i - h]);
                no_address_is_left_in_a_text(rest, i - h - 1);
            }
        }
    }
}

} // verus!
