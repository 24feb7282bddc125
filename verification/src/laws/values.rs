//! How the values of imported songs are read.

use crate::import::chordpro::{is_kept_directive, warned, WarningView, KEPT_DIRECTIVES};
use crate::import::values::{capo_of, duration_of, key_parts, plain_key, seconds_of, tempo_of};
use crate::export::options::subtitle_of;
use crate::jobs::{
    ACCESS_RECORD_RETENTION_DAYS, AUDIT_RETENTION_DAYS, NOTIFICATION_RETENTION_DAYS,
    OUTBOX_RETENTION_DAYS, READ_NOTIFICATION_RETENTION_DAYS, UNVERIFIED_RETENTION_DAYS,
};
use crate::laws::exporting::lemma_two_digits;
use crate::models::song::{is_time_signature, TIME_SIGNATURES};
use crate::text::{
    all_digits, ascii_lower, decimal, digits_value, ends_with, index_of, is_digit, is_space,
    lemma_decimal, lemma_index_of, lemma_replace_append, lemma_replace_one, lemma_trim_solid,
    replace, trim, two_digits, upper,
};
use crate::time::{shifted, SECONDS_PER_DAY};
use vstd::prelude::*;

verus! {

proof fn lemma_minutes(m: nat, s: nat)
    requires
        m < 1_000,
        s < 100,
    ensures
        ({
            let v = decimal(m) + seq![':'] + two_digits(s);
            &&& trim(v) == v
            &&& index_of(v, ':') == decimal(m).len()
            &&& v.take(decimal(m).len() as int) == decimal(m)
            &&& v.skip(decimal(m).len() as int + 1) == two_digits(s)
            &&& 1 <= decimal(m).len() <= 3
        }),
{
    lemma_decimal(m);
    lemma_two_digits(s);
    let a = decimal(m);
    let b = two_digits(s);
    let v = a + seq![':'] + b;
    assert forall|i: int| 0 <= i < v.len() implies !is_space(#[trigger] v[i]) by {
        if i < a.len() {
            assert(is_digit(a[i]));
        } else if i > a.len() {
            assert(is_digit(b[i - a.len() - 1]));
        }
    }
    lemma_trim_solid(v);
    lemma_index_of(v, ':');
    assert(v[a.len() as int] == ':');
    let at = index_of(v, ':');
    if at < a.len() {
        assert(is_digit(a[at]));
    }
    assert(v.take(a.len() as int) =~= a);
    assert(v.skip(a.len() as int + 1) =~= b);
}

/// A duration of minutes and seconds is read, up to two hours.
pub proof fn durations_of_minutes_and_seconds_are_read(m: nat, s: nat)
    requires
        m < 1_000,
        s < 100,
    ensures
        duration_of(decimal(m) + seq![':'] + two_digits(s)) == if s < 60 && 1 <= m * 60 + s
            <= 7_200 {
            Some((m * 60 + s) as i32)
        } else {
            None
        },
{
    lemma_minutes(m, s);
    lemma_decimal(m);
    lemma_two_digits(s);
}

/// Seconds behind minutes have two digits.
pub proof fn seconds_have_two_digits(m: Seq<char>, s: Seq<char>)
    requires
        all_digits(m),
        s.len() != 2,
    ensures
        seconds_of(m + seq![':'] + s) is None,
{
    let v = m + seq![':'] + s;
    lemma_index_of(v, ':');
    assert(v[m.len() as int] == ':');
    let at = index_of(v, ':');
    if at < m.len() {
        assert(is_digit(m[at]));
    }
    assert(v.skip(at + 1) =~= s);
}

/// Ten time signatures are known.
pub proof fn ten_time_signatures_are_known(s: Seq<char>)
    ensures
        is_time_signature(s) <==> s == "2/2"@ || s == "2/4"@ || s == "3/4"@ || s == "4/4"@ || s
            == "5/4"@ || s == "6/4"@ || s == "6/8"@ || s == "7/8"@ || s == "9/8"@ || s == "12/8"@,
{
    let t = TIME_SIGNATURES@;
    assert(t[0]@ == "2/2"@ && t[1]@ == "2/4"@ && t[2]@ == "3/4"@ && t[3]@ == "4/4"@ && t[4]@
        == "5/4"@ && t[5]@ == "6/4"@ && t[6]@ == "6/8"@ && t[7]@ == "7/8"@ && t[8]@ == "9/8"@ && t[9]@
        == "12/8"@);
}

/// Sections, tabs, choruses and comments are kept, and no other directive.
pub proof fn sections_and_comments_are_kept(s: Seq<char>)
    ensures
        is_kept_directive(s) <==> s == "start_of_chorus"@ || s == "soc"@ || s == "end_of_chorus"@
            || s == "eoc"@ || s == "start_of_verse"@ || s == "sov"@ || s == "end_of_verse"@ || s
            == "eov"@ || s == "start_of_bridge"@ || s == "sob"@ || s == "end_of_bridge"@ || s
            == "eob"@ || s == "start_of_tab"@ || s == "sot"@ || s == "end_of_tab"@ || s == "eot"@
            || s == "chorus"@ || s == "comment"@ || s == "c"@ || s == "comment_italic"@ || s
            == "ci"@,
{
    let t = KEPT_DIRECTIVES@;
    assert(t[0]@ == "start_of_chorus"@ && t[1]@ == "soc"@ && t[2]@ == "end_of_chorus"@ && t[3]@
        == "eoc"@ && t[4]@ == "start_of_verse"@ && t[5]@ == "sov"@ && t[6]@ == "end_of_verse"@
        && t[7]@ == "eov"@ && t[8]@ == "start_of_bridge"@ && t[9]@ == "sob"@ && t[10]@
        == "end_of_bridge"@ && t[11]@ == "eob"@ && t[12]@ == "start_of_tab"@ && t[13]@ == "sot"@
        && t[14]@ == "end_of_tab"@ && t[15]@ == "eot"@ && t[16]@ == "chorus"@ && t[17]@
        == "comment"@ && t[18]@ == "c"@ && t[19]@ == "comment_italic"@ && t[20]@ == "ci"@);
}

proof fn lemma_plain(s: Seq<char>)
    requires
        forall|i: int|
            0 <= i < s.len() ==> !is_space(#[trigger] s[i]) && s[i] != '♯' && s[i] != '♭',
    ensures
        plain_key(s) == s,
{
    reveal_strlit("♯");
    reveal_strlit("♭");
    reveal_strlit("#");
    reveal_strlit("b");
    lemma_trim_solid(s);
    assert("♯"@ =~= seq!['♯']);
    assert("♭"@ =~= seq!['♭']);
    lemma_same(s, '♯', "#"@);
    lemma_same(s, '♭', "b"@);
}

proof fn lemma_same(s: Seq<char>, c: char, w: Seq<char>)
    requires
        forall|i: int| 0 <= i < s.len() ==> #[trigger] s[i] != c,
    ensures
        replace(s, seq![c], w) == s,
    decreases s.len(),
{
    if s.len() > 0 {
        assert(seq![s[0]] + s.skip(1) =~= s);
        lemma_replace_append(seq![s[0]], s.skip(1), c, w);
        lemma_replace_one(s[0], c, w);
        lemma_same(s.skip(1), c, w);
    }
}

/// A key is its note, in either case, with an optional sharp or flat; without
/// a word it is in major.
pub proof fn keys_are_notes_with_accidentals(note: char)
    requires
        'A' <= note <= 'G' || 'a' <= note <= 'g',
    ensures
        key_parts(seq![note]) == Some((upper(note), None::<char>, false)),
        key_parts(seq![note, '#']) == Some((upper(note), Some('#'), false)),
        key_parts(seq![note, 'b']) == Some((upper(note), Some('b'), false)),
        key_parts(seq![note, 'm']) == Some((upper(note), None::<char>, true)),
        key_parts(seq![note, '#', 'm']) == Some((upper(note), Some('#'), true)),
        key_parts(seq![note, 'b', 'm']) == Some((upper(note), Some('b'), true)),
{
    lemma_key_text(seq![note]);
    lemma_key_text(seq![note, '#']);
    lemma_key_text(seq![note, 'b']);
    lemma_key_text(seq![note, 'm']);
    lemma_key_text(seq![note, '#', 'm']);
    lemma_key_text(seq![note, 'b', 'm']);
    assert('A' <= upper(note) <= 'G');
    let none = Seq::<char>::empty();
    let m = seq!['m'];
    assert(seq![note].skip(1) =~= none);
    assert(seq![note, '#'].skip(2) =~= none);
    assert(seq![note, 'b'].skip(2) =~= none);
    assert(seq![note, 'm'].skip(1) =~= m);
    assert(seq![note, '#', 'm'].skip(2) =~= m);
    assert(seq![note, 'b', 'm'].skip(2) =~= m);
    lemma_trim_solid(none);
    lemma_trim_solid(m);
    crate::laws::music::modes_have_their_words(none);
    crate::laws::music::modes_have_their_words(m);
    reveal_strlit("m");
    assert(crate::text::ascii_lower(none).len() == 0);
    assert(crate::text::ascii_lower(m) =~= "m"@);
}

proof fn lemma_key_text(s: Seq<char>)
    requires
        forall|i: int|
            0 <= i < s.len() ==> 'A' <= #[trigger] s[i] <= 'G' || 'a' <= s[i] <= 'g' || s[i] == '#'
                || s[i] == 'm',
    ensures
        plain_key(s) == s,
{
    lemma_plain(s);
}

/// The printed signs of sharps and flats are read as the typed ones.
pub proof fn printed_accidentals_are_read(note: char, rest: Seq<char>)
    requires
        'A' <= note <= 'G',
        forall|i: int|
            0 <= i < rest.len() ==> !is_space(#[trigger] rest[i]) && rest[i] != '♯' && rest[i]
                != '♭',
    ensures
        plain_key(seq![note, '♯'] + rest) == seq![note, '#'] + rest,
        plain_key(seq![note, '♭'] + rest) == seq![note, 'b'] + rest,
{
    reveal_strlit("♯");
    reveal_strlit("♭");
    reveal_strlit("#");
    reveal_strlit("b");
    assert("♯"@ =~= seq!['♯']);
    assert("♭"@ =~= seq!['♭']);
    assert("#"@ =~= seq!['#']);
    assert("b"@ =~= seq!['b']);
    let s = seq![note, '♯'] + rest;
    let t = seq![note, '♭'] + rest;
    lemma_trim_solid(s);
    lemma_trim_solid(t);
    let n = seq![note];
    // The sharp.
    assert(s =~= n + (seq!['♯'] + rest));
    lemma_replace_append(n, seq!['♯'] + rest, '♯', "#"@);
    lemma_replace_append(seq!['♯'], rest, '♯', "#"@);
    lemma_replace_one('♯', '♯', "#"@);
    lemma_replace_one(note, '♯', "#"@);
    lemma_same(rest, '♯', "#"@);
    let s2 = seq![note, '#'] + rest;
    assert(n + ("#"@ + rest) =~= s2);
    lemma_same(s2, '♭', "b"@);
    // The flat.
    assert(t =~= n + (seq!['♭'] + rest));
    lemma_same(t, '♯', "#"@);
    lemma_replace_append(n, seq!['♭'] + rest, '♭', "b"@);
    lemma_replace_append(seq!['♭'], rest, '♭', "b"@);
    lemma_replace_one('♭', '♭', "b"@);
    lemma_replace_one(note, '♭', "b"@);
    lemma_same(rest, '♭', "b"@);
    assert(n + ("b"@ + rest) =~= seq![note, 'b'] + rest);
}

/// What is read as a number is one: nothing but digits, and within its bounds.
pub proof fn only_numbers_are_read(raw: Seq<char>)
    ensures
        capo_of(raw) matches Some(n) ==> all_digits(trim(raw)) && 0 < trim(raw).len() <= 2 && n
            == digits_value(trim(raw)) && n <= 11,
        tempo_of(raw) matches Some(n) ==> 1 <= n <= 500,
        !ends_with(ascii_lower(trim(raw)), "bpm"@) && tempo_of(raw) is Some ==> all_digits(
            trim(ascii_lower(trim(raw))),
        ) && trim(ascii_lower(trim(raw))).len() <= 3,
        duration_of(raw) matches Some(n) ==> 1 <= n <= 7_200,
        duration_of(raw) is Some && !trim(raw).contains(':') ==> all_digits(trim(raw)) && 0 < trim(
            raw,
        ).len() <= 4,
{
    lemma_index_of(trim(raw), ':');
}

/// A hundred warnings are kept, each with at most eighty characters of detail,
/// and that there were more.
pub proof fn a_hundred_warnings_are_kept(
    w: Seq<WarningView>,
    code: Seq<char>,
    line: Option<int>,
    detail: Seq<char>,
)
    ensures
        w.len() > 100 ==> warned(w, code, line, Some(detail)) == w,
        w.len() == 100 ==> warned(w, code, line, Some(detail)) == w.push(
            WarningView { code: "too_many_warnings"@, line: None, detail: None },
        ),
        w.len() < 100 && detail.len() <= 80 ==> warned(w, code, line, Some(detail)) == w.push(
            WarningView { code, line, detail: Some(detail) },
        ),
        w.len() < 100 && detail.len() > 80 ==> warned(w, code, line, Some(detail)) == w.push(
            WarningView { code, line, detail: Some(detail.take(80)) },
        ),
        w.len() < 100 ==> warned(w, code, line, None) == w.push(
            WarningView { code, line, detail: None },
        ),
{
}

/// A subtitle is trimmed and at most 120 characters long; a blank one is none.
pub proof fn subtitles_are_trimmed(s: Seq<char>)
    ensures
        trim(s).len() == 0 ==> subtitle_of(Some(s)) is None,
        0 < trim(s).len() <= 120 ==> subtitle_of(Some(s)) == Some(trim(s)),
        trim(s).len() > 120 ==> subtitle_of(Some(s)) == Some(trim(s).take(120)),
        subtitle_of(None) is None,
{
}

/// What is kept for how long.
pub proof fn retention_is_by_the_day(now: int)
    ensures
        shifted(now, -(OUTBOX_RETENTION_DAYS * SECONDS_PER_DAY)) == shifted(now, -(30 * 86_400)),
        shifted(now, -(READ_NOTIFICATION_RETENTION_DAYS * SECONDS_PER_DAY)) == shifted(
            now,
            -(180 * 86_400),
        ),
        shifted(now, -(NOTIFICATION_RETENTION_DAYS * SECONDS_PER_DAY)) == shifted(
            now,
            -(365 * 86_400),
        ),
        shifted(now, -(ACCESS_RECORD_RETENTION_DAYS * SECONDS_PER_DAY)) == shifted(
            now,
            -(183 * 86_400),
        ),
        shifted(now, -(AUDIT_RETENTION_DAYS * SECONDS_PER_DAY)) == shifted(
            now,
            -(1_826 * 86_400),
        ),
        shifted(now, -(UNVERIFIED_RETENTION_DAYS * SECONDS_PER_DAY)) == shifted(now, -(7 * 86_400)),
{
}

} // verus!
