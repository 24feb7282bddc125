//! What holds of every imported song.

use crate::export::chords::is_chord_symbol;
use crate::export::lyrics::{enclosed, split_once};
use crate::import::chordpro::{
    clean_from, clean_line, cleaned, collapsed, directive_of, directive_text, empty_draft, is_brace,
    is_kept_directive, kept, lemma_next_bracket, next_bracket, sanitized, song_of, visible, warned,
    with_directive, with_line, with_lines, without_braces, without_last_empty, Cleaning, Draft,
    SongView, WarningView, MAX_ARTIST_CHARS, MAX_TITLE_CHARS, MAX_WARNINGS,
};
use crate::import::values::{capo_of, duration_of, tempo_of};
use crate::models::song::is_time_signature;
use crate::text::{
    is_control, is_space, join, lemma_squeeze_holds, lemma_trim_end, split,
    squeeze, trim, trim_end,
};
use vstd::prelude::*;

verus! {

// ---------------------------------------------------------------------
// Limits
// ---------------------------------------------------------------------

pub open spec fn none_or_text(t: Option<Seq<char>>) -> bool {
    t matches Some(s) ==> s.len() > 0
}

/// Every value read so far is one that a song may have.
pub open spec fn sound(d: Draft) -> bool {
    &&& none_or_text(d.title)
    &&& none_or_text(d.artist)
    &&& none_or_text(d.subtitle)
    &&& d.tempo matches Some(t) ==> 1 <= t <= 500
    &&& d.capo matches Some(c) ==> 0 <= c <= 11
    &&& d.duration matches Some(s) ==> 1 <= s <= 7_200
    &&& d.time_signature matches Some(t) ==> is_time_signature(t)
    &&& d.warnings.len() <= MAX_WARNINGS + 1
}

/// A song whose values are within the limits.
pub open spec fn within_limits(s: SongView) -> bool {
    &&& 0 < s.title.len() <= MAX_TITLE_CHARS
    &&& s.artist_name matches Some(a) ==> 0 < a.len() <= MAX_ARTIST_CHARS
    &&& s.tempo matches Some(t) ==> 1 <= t <= 500
    &&& s.capo matches Some(c) ==> 0 <= c <= 11
    &&& s.duration matches Some(d) ==> 1 <= d <= 7_200
    &&& s.time_signature matches Some(t) ==> is_time_signature(t)
    &&& s.warnings.len() <= MAX_WARNINGS + 1
}

proof fn lemma_cleaning_warns_within_limit(c: Cleaning, v: Seq<char>, i: int, number: int)
    requires
        c.warnings.len() <= MAX_WARNINGS + 1,
    ensures
        clean_from(c, v, i, number).warnings.len() <= MAX_WARNINGS + 1,
    decreases v.len() - i,
{
    if 0 <= i < v.len() {
        let unbalanced = Cleaning {
            warnings: warned(c.warnings, "unbalanced_bracket"@, Some(number), None),
            ..c
        };
        if v[i] == '[' {
            lemma_next_bracket(v, i + 1);
            let close = next_bracket(v, i + 1);
            if close < v.len() && v[close] == ']' {
                let inner = trim(v.subrange(i + 1, close));
                let next = if inner.len() > 0 && is_chord_symbol(inner) {
                    Cleaning { text: c.text + ("["@ + inner + "]"@), ..c }
                } else {
                    Cleaning {
                        warnings: warned(c.warnings, "invalid_chord"@, Some(number), Some(inner)),
                        ..c
                    }
                };
                lemma_cleaning_warns_within_limit(next, v, close + 1, number);
            } else {
                lemma_cleaning_warns_within_limit(unbalanced, v, i + 1, number);
            }
        } else if v[i] == ']' {
            lemma_cleaning_warns_within_limit(unbalanced, v, i + 1, number);
        } else if is_brace(v[i]) {
            lemma_cleaning_warns_within_limit(Cleaning { braces: true, ..c }, v, i + 1, number);
        } else {
            lemma_cleaning_warns_within_limit(
                Cleaning { text: c.text.push(v[i]), ..c },
                v,
                i + 1,
                number,
            );
        }
    }
}

proof fn lemma_values_are_sound(value: Seq<char>)
    ensures
        tempo_of(value) matches Some(t) ==> 1 <= t <= 500,
        capo_of(value) matches Some(c) ==> 0 <= c <= 11,
        duration_of(value) matches Some(s) ==> 1 <= s <= 7_200,
{
}

proof fn lemma_directive_is_sound(d: Draft, name: Seq<char>, value: Seq<char>, number: int)
    requires
        sound(d),
    ensures
        with_directive(d, name, value, number) matches Ok(next) ==> sound(next),
{
    lemma_values_are_sound(value);
}

proof fn lemma_line_is_sound(d: Draft, raw: Seq<char>, number: int)
    requires
        sound(d),
    ensures
        with_line(d, raw, number) matches Ok(next) ==> sound(next),
{
    lemma_cleaning_warns_within_limit(
        Cleaning { text: seq![], warnings: d.warnings, braces: false },
        raw,
        0,
        number,
    );
    if let Some((name, value)) = directive_of(trim(raw)) {
        lemma_directive_is_sound(d, name, value, number);
    }
}

proof fn lemma_lines_are_sound(d: Draft, lines: Seq<Seq<char>>, i: int)
    requires
        sound(d),
    ensures
        with_lines(d, lines, i) matches Ok(end) ==> sound(end),
    decreases lines.len() - i,
{
    if 0 <= i < lines.len() {
        lemma_line_is_sound(d, lines[i], i + 1);
        match with_line(d, lines[i], i + 1) {
            Ok(next) => lemma_lines_are_sound(next, lines, i + 1),
            Err(_) => {},
        }
    }
}

/// Every imported song has a title, and its values are within the limits,
/// whatever the file holds.
pub proof fn imported_songs_are_within_limits(content: Seq<char>, given: Option<Seq<char>>)
    ensures
        song_of(content, given) matches Ok(song) ==> within_limits(song),
{
    if let Ok(text) = sanitized(content) {
        lemma_lines_are_sound(empty_draft(), split(text, '\n'), 0);
    }
}

// ---------------------------------------------------------------------
// Brackets and braces
// ---------------------------------------------------------------------

/// From position `i` on, `s` has no brace, and its brackets come in pairs
/// around chords.
pub open spec fn chords_only(s: Seq<char>, i: int) -> bool
    decreases s.len() - i,
{
    if i < 0 || i >= s.len() {
        true
    } else if s[i] == '[' {
        proof {
            lemma_next_bracket(s, i + 1);
        }
        let close = next_bracket(s, i + 1);
        &&& close < s.len()
        &&& s[close] == ']'
        &&& is_chord_symbol(s.subrange(i + 1, close))
        &&& chords_only(s, close + 1)
    } else {
        s[i] != ']' && !is_brace(s[i]) && chords_only(s, i + 1)
    }
}

proof fn lemma_next_bracket_in(a: Seq<char>, b: Seq<char>, i: int)
    requires
        0 <= i <= a.len(),
    ensures
        next_bracket(a, i) < a.len() ==> next_bracket(a + b, i) == next_bracket(a, i),
    decreases a.len() - i,
{
    if i < a.len() && a[i] != '[' && a[i] != ']' {
        assert((a + b)[i] == a[i]);
        lemma_next_bracket_in(a, b, i + 1);
    } else if i < a.len() {
        assert((a + b)[i] == a[i]);
    }
}

/// Text that is in order, then more text that is in order, is in order.
proof fn lemma_chords_only_joined(a: Seq<char>, b: Seq<char>, i: int)
    requires
        0 <= i <= a.len(),
        chords_only(a, i),
        chords_only(a + b, a.len() as int),
    ensures
        chords_only(a + b, i),
    decreases a.len() - i,
{
    if i < a.len() {
        assert((a + b)[i] == a[i]);
        if a[i] == '[' {
            lemma_next_bracket(a, i + 1);
            let close = next_bracket(a, i + 1);
            lemma_next_bracket_in(a, b, i + 1);
            assert((a + b).subrange(i + 1, close) =~= a.subrange(i + 1, close));
            assert((a + b)[close] == a[close]);
            lemma_chords_only_joined(a, b, close + 1);
        } else {
            lemma_chords_only_joined(a, b, i + 1);
        }
    }
}

proof fn lemma_trim_holds(s: Seq<char>)
    ensures
        forall|j: int|
            0 <= j < trim(s).len() ==> exists|k: int| 0 <= k < s.len() && s[k] == #[trigger] trim(
                s,
            )[j],
{
    let t = crate::text::trim_start(s);
    crate::text::lemma_trim_start(s);
    lemma_trim_end(t);
    assert forall|j: int| 0 <= j < trim(s).len() implies exists|k: int|
        0 <= k < s.len() && s[k] == #[trigger] trim(s)[j] by {
        let from = s.len() - t.len();
        assert(s[from + j] == trim(s)[j]);
    }
}

proof fn lemma_chord_text(text: Seq<char>, inner: Seq<char>)
    requires
        chords_only(text, 0),
        is_chord_symbol(inner),
        forall|j: int| 0 <= j < inner.len() ==> #[trigger] inner[j] != '[' && inner[j] != ']',
    ensures
        chords_only(text + ("["@ + inner + "]"@), 0),
{
    reveal_strlit("[");
    reveal_strlit("]");
    let all = text + ("["@ + inner + "]"@);
    let n = text.len() as int;
    let end = n + 1 + inner.len() as int;
    assert(all[n] == '[');
    assert(all[end] == ']');
    assert(all.len() == end + 1);
    assert forall|j: int| n + 1 <= j < end implies #[trigger] all[j] != '[' && all[j] != ']' by {
        assert(all[j] == inner[j - n - 1]);
    }
    lemma_next_bracket(all, n + 1);
    let close = next_bracket(all, n + 1);
    assert(close == end);
    assert(all.subrange(n + 1, close) =~= inner);
    assert(chords_only(all, end + 1));
    assert(chords_only(all, n));
    lemma_chords_only_joined(text, "["@ + inner + "]"@, 0);
}

proof fn lemma_plain_text(text: Seq<char>, c: char)
    requires
        chords_only(text, 0),
        c != '[' && c != ']' && !is_brace(c),
    ensures
        chords_only(text.push(c), 0),
{
    let all = text + seq![c];
    assert(all =~= text.push(c));
    assert(all[text.len() as int] == c);
    assert(chords_only(all, text.len() as int + 1));
    assert(chords_only(all, text.len() as int));
    lemma_chords_only_joined(text, seq![c], 0);
}

proof fn lemma_cleaning_keeps_chords_only(c: Cleaning, v: Seq<char>, i: int, number: int)
    requires
        chords_only(c.text, 0),
    ensures
        chords_only(clean_from(c, v, i, number).text, 0),
    decreases v.len() - i,
{
    if 0 <= i < v.len() {
        let unbalanced = Cleaning {
            warnings: warned(c.warnings, "unbalanced_bracket"@, Some(number), None),
            ..c
        };
        if v[i] == '[' {
            lemma_next_bracket(v, i + 1);
            let close = next_bracket(v, i + 1);
            if close < v.len() && v[close] == ']' {
                let raw = v.subrange(i + 1, close);
                let inner = trim(raw);
                if inner.len() > 0 && is_chord_symbol(inner) {
                    lemma_trim_holds(raw);
                    assert forall|j: int| 0 <= j < inner.len() implies #[trigger] inner[j] != '['
                        && inner[j] != ']' by {
                        let k = choose|k: int| 0 <= k < raw.len() && raw[k] == inner[j];
                        assert(v[i + 1 + k] == inner[j]);
                    }
                    lemma_chord_text(c.text, inner);
                    lemma_cleaning_keeps_chords_only(
                        Cleaning { text: c.text + ("["@ + inner + "]"@), ..c },
                        v,
                        close + 1,
                        number,
                    );
                } else {
                    lemma_cleaning_keeps_chords_only(
                        Cleaning {
                            warnings: warned(
                                c.warnings,
                                "invalid_chord"@,
                                Some(number),
                                Some(inner),
                            ),
                            ..c
                        },
                        v,
                        close + 1,
                        number,
                    );
                }
            } else {
                lemma_cleaning_keeps_chords_only(unbalanced, v, i + 1, number);
            }
        } else if v[i] == ']' {
            lemma_cleaning_keeps_chords_only(unbalanced, v, i + 1, number);
        } else if is_brace(v[i]) {
            lemma_cleaning_keeps_chords_only(Cleaning { braces: true, ..c }, v, i + 1, number);
        } else {
            lemma_plain_text(c.text, v[i]);
            lemma_cleaning_keeps_chords_only(
                Cleaning { text: c.text.push(v[i]), ..c },
                v,
                i + 1,
                number,
            );
        }
    }
}

proof fn lemma_next_bracket_before(a: Seq<char>, n: int, i: int)
    requires
        0 <= i <= n <= a.len(),
        next_bracket(a, i) < n,
    ensures
        next_bracket(a.take(n), i) == next_bracket(a, i),
    decreases n - i,
{
    lemma_next_bracket(a, i);
    if i < n && a[i] != '[' && a[i] != ']' {
        assert(a.take(n)[i] == a[i]);
        lemma_next_bracket_before(a, n, i + 1);
    } else if i < n {
        assert(a.take(n)[i] == a[i]);
    }
}

/// Blanks at the end of a text may go.
proof fn lemma_blanks_may_go(s: Seq<char>, n: int, i: int)
    requires
        0 <= i,
        0 <= n <= s.len(),
        chords_only(s, i),
        forall|j: int| n <= j < s.len() ==> is_space(#[trigger] s[j]),
    ensures
        chords_only(s.take(n), i),
    decreases s.len() - i,
{
    if i < n {
        assert(s.take(n)[i] == s[i]);
        if s[i] == '[' {
            lemma_next_bracket(s, i + 1);
            let close = next_bracket(s, i + 1);
            assert(s[close] == ']');
            assert(close < n) by {
                if close >= n {
                    assert(is_space(s[close]));
                }
            }
            lemma_next_bracket_before(s, n, i + 1);
            assert(s.take(n).subrange(i + 1, close) =~= s.subrange(i + 1, close));
            assert(s.take(n)[close] == s[close]);
            lemma_blanks_may_go(s, n, close + 1);
        } else {
            lemma_blanks_may_go(s, n, i + 1);
        }
    }
}

/// An imported lyric line holds brackets only in pairs around chords, and no
/// brace: it can be neither a directive nor anything else in brackets.
pub proof fn imported_lines_hold_only_chords_in_brackets(
    line: Seq<char>,
    number: int,
    warnings: Seq<WarningView>,
)
    ensures
        chords_only(clean_line(line, number, warnings).0, 0),
{
    let start = Cleaning { text: seq![], warnings, braces: false };
    lemma_cleaning_keeps_chords_only(start, line, 0, number);
    let text = clean_from(start, line, 0, number).text;
    let n = trim_end(text).len() as int;
    lemma_trim_end(text);
    assert(trim_end(text) =~= text.take(n));
    lemma_trim_end_spaces(text);
    lemma_blanks_may_go(text, n, 0);
}

/// A line of the lyrics of an imported song: text with chords in brackets
/// and no brace, or a directive that is kept.
pub open spec fn is_kept_line(line: Seq<char>) -> bool {
    chords_only(line, 0) || exists|name: Seq<char>, value: Seq<char>|
        is_kept_directive(name) && has_no_brace(value) && line == #[trigger] directive_text(
            name,
            value,
        )
}

pub open spec fn has_no_brace(s: Seq<char>) -> bool {
    forall|i: int| 0 <= i < s.len() ==> !is_brace(#[trigger] s[i])
}

pub open spec fn are_kept_lines(v: Seq<Seq<char>>) -> bool {
    forall|i: int| 0 <= i < v.len() ==> is_kept_line(#[trigger] v[i])
}

proof fn lemma_cleaned_has_no_brace(value: Seq<char>)
    ensures
        has_no_brace(cleaned(value)),
{
    let fine = |c: char| !is_brace(c);
    lemma_squeeze_holds(without_braces(value), fine);
    assert forall|i: int| 0 <= i < cleaned(value).len() implies !is_brace(
        #[trigger] cleaned(value)[i],
    ) by {
        assert(fine(squeeze(without_braces(value))[i]));
    }
}

proof fn lemma_line_is_kept(d: Draft, raw: Seq<char>, number: int)
    requires
        are_kept_lines(d.body),
    ensures
        with_line(d, raw, number) matches Ok(next) ==> are_kept_lines(next.body),
{
    match directive_of(trim(raw)) {
        Some((name, value)) => {
            assert(has_no_brace(value)) by {
                let inner = enclosed(trim(raw), '{', '}')->0;
                lemma_cleaned_has_no_brace(split_once(inner, ':').1);
            }
            if is_kept_directive(name) {
                assert(is_kept_line(directive_text(name, value)));
            }
        },
        None => {
            imported_lines_hold_only_chords_in_brackets(raw, number, d.warnings);
        },
    }
}

proof fn lemma_lines_are_kept(d: Draft, lines: Seq<Seq<char>>, i: int)
    requires
        are_kept_lines(d.body),
    ensures
        with_lines(d, lines, i) matches Ok(end) ==> are_kept_lines(end.body),
    decreases lines.len() - i,
{
    if 0 <= i < lines.len() {
        lemma_line_is_kept(d, lines[i], i + 1);
        match with_line(d, lines[i], i + 1) {
            Ok(next) => lemma_lines_are_kept(next, lines, i + 1),
            Err(_) => {},
        }
    }
}

proof fn lemma_collapsed_is_kept(done: Seq<Seq<char>>, run: int, body: Seq<Seq<char>>)
    requires
        are_kept_lines(done),
        are_kept_lines(body),
    ensures
        are_kept_lines(collapsed(done, run, body)),
    decreases body.len(),
{
    if body.len() > 0 {
        let rest = body.skip(1);
        assert forall|i: int| 0 <= i < rest.len() implies is_kept_line(#[trigger] rest[i]) by {
            assert(rest[i] == body[i + 1]);
        }
        if trim(body[0]).len() == 0 {
            assert(is_kept_line(seq![]));
            lemma_collapsed_is_kept(
                if run + 1 > 2 || done.len() == 0 {
                    done
                } else {
                    done.push(seq![])
                },
                run + 1,
                rest,
            );
        } else {
            lemma_collapsed_is_kept(done.push(body[0]), 0, rest);
        }
    }
}

proof fn lemma_without_last_empty_is_kept(v: Seq<Seq<char>>)
    requires
        are_kept_lines(v),
    ensures
        are_kept_lines(without_last_empty(v)),
    decreases v.len(),
{
    if v.len() > 0 && v.last().len() == 0 {
        lemma_without_last_empty_is_kept(v.drop_last());
    }
}

/// The lyrics of an imported song are made of lines that hold only chords in
/// brackets, and no brace, and of the directives that are kept: anything else
/// is dropped, whatever the file holds.
pub proof fn imported_lyrics_hold_only_chords_and_kept_directives(
    content: Seq<char>,
    given: Option<Seq<char>>,
)
    ensures
        song_of(content, given) matches Ok(song) ==> (song.lyrics matches Some(text) ==> exists|
            lines: Seq<Seq<char>>,
        |
            text == #[trigger] join(lines, "\n"@) && are_kept_lines(lines)),
{
    if let Ok(text) = sanitized(content) {
        let lines = split(text, '\n');
        lemma_lines_are_kept(empty_draft(), lines, 0);
        if let Ok(d) = with_lines(empty_draft(), lines, 0) {
            let v = collapsed(seq![], 0, d.body);
            lemma_collapsed_is_kept(seq![], 0, d.body);
            lemma_without_last_empty_is_kept(v);
            let kept = without_last_empty(v);
            assert(join(kept, "\n"@) == join(kept, "\n"@));
        }
    }
}

proof fn lemma_trim_end_spaces(s: Seq<char>)
    ensures
        forall|j: int| trim_end(s).len() <= j < s.len() ==> is_space(#[trigger] s[j]),
    decreases s.len(),
{
    if s.len() > 0 && is_space(s.last()) {
        lemma_trim_end_spaces(s.drop_last());
        assert forall|j: int| trim_end(s).len() <= j < s.len() implies is_space(
            #[trigger] s[j],
        ) by {
            if j < s.len() - 1 {
                assert(s.drop_last()[j] == s[j]);
            }
        }
    }
}

// ---------------------------------------------------------------------
// Characters
// ---------------------------------------------------------------------

/// A sanitized text holds no invisible character, and no control character
/// but the line feed.
pub proof fn sanitized_text_is_visible(content: Seq<char>)
    ensures
        sanitized(content) matches Ok(text) ==> forall|i: int|
            0 <= i < text.len() ==> #[trigger] text[i] == '\n' || !is_control(text[i])
                && !crate::import::chordpro::invisible(text[i]),
{
    if let Ok(text) = sanitized(content) {
        lemma_visible(
            crate::import::chordpro::composed(crate::import::chordpro::unified(content)),
        );
    }
}

proof fn lemma_visible(s: Seq<char>)
    ensures
        forall|i: int|
            0 <= i < visible(s).len() ==> #[trigger] visible(s)[i] == '\n' || !is_control(
                visible(s)[i],
            ) && !crate::import::chordpro::invisible(visible(s)[i]),
    decreases s.len(),
{
    reveal_strlit("    ");
    if s.len() > 0 {
        lemma_visible(s.drop_last());
        let a = visible(s.drop_last());
        let b = kept(s.last());
        assert forall|i: int| 0 <= i < visible(s).len() implies #[trigger] visible(s)[i] == '\n'
            || !is_control(visible(s)[i]) && !crate::import::chordpro::invisible(visible(s)[i]) by {
            if i < a.len() {
                assert(visible(s)[i] == a[i]);
            } else {
                assert(visible(s)[i] == b[i - a.len()]);
            }
        }
    }
}

// ---------------------------------------------------------------------
// Blank lines
// ---------------------------------------------------------------------

/// A line that says nothing: it holds nothing but white space.
pub open spec fn is_blank(line: Seq<char>) -> bool {
    trim(line).len() == 0
}

/// The lines of the lyrics: the first and the last say something, and no three
/// blank ones follow each other.
pub open spec fn well_spaced(v: Seq<Seq<char>>) -> bool {
    &&& v.len() > 0 ==> !is_blank(v[0]) && !is_blank(v.last())
    &&& forall|i: int|
        0 <= i && i + 2 < v.len() ==> !is_blank(#[trigger] v[i]) || !is_blank(v[i + 1])
            || !is_blank(v[i + 2])
}

/// Every line is empty or says something.
spec fn empty_or_not_blank(v: Seq<Seq<char>>) -> bool {
    forall|i: int| 0 <= i < v.len() ==> (#[trigger] v[i]).len() == 0 || !is_blank(v[i])
}

/// The first line is not empty, and no three empty ones follow each other.
spec fn spaced(v: Seq<Seq<char>>) -> bool {
    &&& v.len() > 0 ==> v[0].len() > 0
    &&& forall|i: int|
        0 <= i && i + 2 < v.len() ==> (#[trigger] v[i]).len() > 0 || v[i + 1].len() > 0 || v[i
            + 2].len() > 0
}

/// The number of empty lines at the end.
spec fn empty_tail(v: Seq<Seq<char>>) -> int
    decreases v.len(),
{
    if v.len() > 0 && v.last().len() == 0 {
        1 + empty_tail(v.drop_last())
    } else {
        0
    }
}

proof fn lemma_collapsed(done: Seq<Seq<char>>, run: int, body: Seq<Seq<char>>)
    requires
        spaced(done),
        run >= 0,
        done.len() > 0 ==> empty_tail(done) == if run > 2 {
            2
        } else {
            run
        },
    ensures
        spaced(collapsed(done, run, body)),
    decreases body.len(),
{
    if body.len() > 0 {
        if trim(body[0]).len() == 0 {
            if run + 1 > 2 || done.len() == 0 {
                lemma_collapsed(done, run + 1, body.skip(1));
            } else {
                let next = done.push(seq![]);
                assert(next.drop_last() =~= done);
                assert(empty_tail(next) == run + 1);
                let n = done.len() as int;
                reveal_with_fuel(empty_tail, 3);
                assert forall|i: int| 0 <= i && i + 2 < next.len() implies (
                #[trigger] next[i]).len() > 0 || next[i + 1].len() > 0 || next[i + 2].len() > 0 by {
                    if i + 2 < n {
                        assert(done[i].len() > 0 || done[i + 1].len() > 0 || done[i + 2].len() > 0);
                    } else {
                        assert(i + 1 == n - 1);
                        assert(done.drop_last().last() == done[n - 2]);
                    }
                }
                lemma_collapsed(next, run + 1, body.skip(1));
            }
        } else {
            let line = body[0];
            assert(line.len() > 0) by {
                if line.len() == 0 {
                    assert(trim(line).len() == 0);
                }
            }
            let next = done.push(line);
            assert forall|i: int| 0 <= i && i + 2 < next.len() implies (#[trigger] next[i]).len()
                > 0 || next[i + 1].len() > 0 || next[i + 2].len() > 0 by {
                if i + 2 < done.len() {
                    assert(done[i].len() > 0 || done[i + 1].len() > 0 || done[i + 2].len() > 0);
                }
            }
            assert(next.len() > 0 ==> next[0].len() > 0);
            lemma_collapsed(next, 0, body.skip(1));
        }
    }
}

proof fn lemma_collapsed_lines(done: Seq<Seq<char>>, run: int, body: Seq<Seq<char>>)
    requires
        empty_or_not_blank(done),
    ensures
        empty_or_not_blank(collapsed(done, run, body)),
    decreases body.len(),
{
    if body.len() > 0 {
        let rest = body.skip(1);
        if !is_blank(body[0]) {
            lemma_collapsed_lines(done.push(body[0]), 0, rest);
        } else if run + 1 > 2 || done.len() == 0 {
            lemma_collapsed_lines(done, run + 1, rest);
        } else {
            lemma_collapsed_lines(done.push(seq![]), run + 1, rest);
        }
    }
}

proof fn lemma_without_last_empty(v: Seq<Seq<char>>)
    ensures
        without_last_empty(v).len() <= v.len(),
        without_last_empty(v) == v.take(without_last_empty(v).len() as int),
        without_last_empty(v).len() > 0 ==> without_last_empty(v).last().len() > 0,
    decreases v.len(),
{
    if v.len() > 0 && v.last().len() == 0 {
        lemma_without_last_empty(v.drop_last());
        let n = without_last_empty(v).len() as int;
        assert(v.drop_last().take(n) =~= v.take(n));
    } else {
        assert(v.take(v.len() as int) =~= v);
    }
}

/// The kept lines neither start nor end with a blank one, and hold at most two
/// blank ones in a row.
pub proof fn imported_lyrics_are_well_spaced(body: Seq<Seq<char>>)
    ensures
        well_spaced(without_last_empty(collapsed(seq![], 0, body))),
{
    let all = collapsed(seq![], 0, body);
    lemma_collapsed(seq![], 0, body);
    lemma_collapsed_lines(seq![], 0, body);
    lemma_without_last_empty(all);
    let v = without_last_empty(all);
    assert forall|i: int| 0 <= i < v.len() && (#[trigger] v[i]).len() > 0 implies !is_blank(
        v[i],
    ) by {
        assert(v[i] == all[i]);
    }
    assert forall|i: int| 0 <= i && i + 2 < v.len() implies !is_blank(#[trigger] v[i])
        || !is_blank(v[i + 1]) || !is_blank(v[i + 2]) by {
        assert(all[i].len() > 0 || all[i + 1].len() > 0 || all[i + 2].len() > 0);
        assert(v[i] == all[i] && v[i + 1] == all[i + 1] && v[i + 2] == all[i + 2]);
    }
    if v.len() > 0 {
        assert(v[0] == all[0]);
        assert(v[v.len() - 1].len() > 0);
    }
}

} // verus!
