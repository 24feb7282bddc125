//! Files that are refused, and what is said of those that are not.

use crate::import::chordpro::{
    clean_from, directive_of, empty_draft, first_long, is_brace, is_directive_name,
    is_kept_directive, lemma_next_bracket, next_bracket, song_in, song_of, warned, with_directive,
    with_line, with_lines, Cleaning, Draft, ErrorView, SongView, WarningView,
};
use crate::import::values::{capo_of, duration_of, key_of, tempo_of};
use crate::laws::importing::{titles_on, value_on};
use crate::text::{cut, occurrences, replace, split, trim};
use vstd::prelude::*;

verus! {

/// A line announces another song: by name, or with a title behind a title.
pub open spec fn announces_another(ls: Seq<Seq<char>>, k: int) -> bool {
    ||| value_on(ls[k], "new_song"@) is Some
    ||| value_on(ls[k], "ns"@) is Some
    ||| (value_on(ls[k], "title"@) is Some || value_on(ls[k], "t"@) is Some) && exists|j: int|
        0 <= j < k && (#[trigger] titles_on(ls)[j]) is Some
}

proof fn lemma_names()
    ensures
        is_directive_name("new_song"@) && is_directive_name("ns"@) && is_directive_name("title"@)
            && is_directive_name("t"@),
        "new_song"@.len() == 8 && "ns"@.len() == 2 && "title"@.len() == 5 && "t"@.len() == 1,
{
    reveal_strlit("new_song");
    reveal_strlit("ns");
    reveal_strlit("title");
    reveal_strlit("t");
}

proof fn lemma_one_line(d: Draft, ls: Seq<Seq<char>>, k: int)
    requires
        0 <= k < ls.len(),
        d.title is Some <==> exists|j: int| 0 <= j < k && (#[trigger] titles_on(ls)[j]) is Some,
    ensures
        announces_another(ls, k) ==> with_line(d, ls[k], k + 1) == Err::<Draft, ErrorView>(
            ErrorView::Invalid { reason: "multiple_songs"@, line: Some(k + 1) },
        ),
        !announces_another(ls, k) ==> with_line(d, ls[k], k + 1) is Ok && (with_line(
            d,
            ls[k],
            k + 1,
        )->Ok_0.title is Some <==> exists|j: int|
            0 <= j < k + 1 && (#[trigger] titles_on(ls)[j]) is Some),
{
    lemma_names();
    let t = titles_on(ls);
    if let Some((name, value)) = directive_of(trim(ls[k])) {
        assert(with_line(d, ls[k], k + 1) == with_directive(d, name, value, k + 1));
        assert(value_on(ls[k], name) == Some(value));
    }
    if !announces_another(ls, k) {
        let next = with_line(d, ls[k], k + 1)->Ok_0;
        if next.title is Some {
            if d.title is Some {
                let j = choose|j: int| 0 <= j < k && (#[trigger] t[j]) is Some;
                assert(t[j] is Some);
            } else {
                assert(t[k] is Some);
            }
        }
        if exists|j: int| 0 <= j < k + 1 && (#[trigger] t[j]) is Some {
            let j = choose|j: int| 0 <= j < k + 1 && (#[trigger] t[j]) is Some;
            if j < k {
                assert(d.title is Some);
            }
            assert(next.title is Some);
        }
    }
}

proof fn lemma_lines(d: Draft, ls: Seq<Seq<char>>, k: int)
    requires
        0 <= k <= ls.len(),
        d.title is Some <==> exists|j: int| 0 <= j < k && (#[trigger] titles_on(ls)[j]) is Some,
    ensures
        (forall|i: int| k <= i < ls.len() ==> !#[trigger] announces_another(ls, i)) ==> with_lines(
            d,
            ls,
            k,
        ) is Ok && (with_lines(d, ls, k)->Ok_0.title is Some <==> exists|j: int|
            0 <= j < ls.len() && (#[trigger] titles_on(ls)[j]) is Some),
        forall|i: int|
            k <= i < ls.len() && #[trigger] announces_another(ls, i) && (forall|j: int|
                k <= j < i ==> !#[trigger] announces_another(ls, j)) ==> with_lines(d, ls, k)
                == Err::<Draft, ErrorView>(
                ErrorView::Invalid { reason: "multiple_songs"@, line: Some(i + 1) },
            ),
    decreases ls.len() - k,
{
    if k < ls.len() {
        lemma_one_line(d, ls, k);
        if !announces_another(ls, k) {
            lemma_lines(with_line(d, ls[k], k + 1)->Ok_0, ls, k + 1);
        } else {
            assert forall|i: int|
                k <= i < ls.len() && #[trigger] announces_another(ls, i) && (forall|j: int|
                    k <= j < i ==> !#[trigger] announces_another(ls, j)) implies with_lines(
                d,
                ls,
                k,
            ) == Err::<Draft, ErrorView>(
                ErrorView::Invalid { reason: "multiple_songs"@, line: Some(i + 1) },
            ) by {
                assert(i == k) by {
                    if i > k {
                        assert(!announces_another(ls, k));
                    }
                }
            }
        }
    }
}

proof fn lemma_long(ls: Seq<Seq<char>>, i: int)
    requires
        0 <= i <= ls.len(),
    ensures
        i <= first_long(ls, i) <= ls.len(),
        first_long(ls, i) < ls.len() ==> ls[first_long(ls, i)].len() > 500,
        forall|k: int| i <= k < first_long(ls, i) ==> (#[trigger] ls[k]).len() <= 500,
    decreases ls.len() - i,
{
    if i < ls.len() && ls[i].len() <= 500 {
        lemma_long(ls, i + 1);
    }
}

/// A text of at most 3,000 lines of at most 500 characters that holds one song
/// is imported when a title is given, in it or with it, and refused for want of
/// one otherwise.
pub proof fn one_song_with_a_title_is_imported(text: Seq<char>, given: Option<Seq<char>>)
    requires
        split(text, '\n').len() <= 3_000,
        forall|i: int|
            0 <= i < split(text, '\n').len() ==> (#[trigger] split(text, '\n')[i]).len() <= 500,
        forall|i: int|
            0 <= i < split(text, '\n').len() ==> !#[trigger] announces_another(
                split(text, '\n'),
                i,
            ),
    ensures
        ({
            let titled = exists|j: int|
                0 <= j < split(text, '\n').len() && (#[trigger] titles_on(split(text, '\n'))[j]) is Some;
            let named = given is Some && crate::import::chordpro::cleaned(given->0).len() > 0;
            if titled || named {
                song_in(text, given) is Ok
            } else {
                song_in(text, given) == Err::<SongView, ErrorView>(
                    ErrorView::Invalid { reason: "missing_title"@, line: None },
                )
            }
        }),
{
    let ls = split(text, '\n');
    lemma_long(ls, 0);
    let long = first_long(ls, 0);
    if long < ls.len() {
        assert(ls[long].len() <= 500);
    }
    lemma_lines(empty_draft(), ls, 0);
}

/// A file with two songs is refused, with the line where the second starts; one
/// with too many lines, or with a line that is too long, is refused before that.
pub proof fn two_songs_long_lines_and_long_files_are_refused(
    text: Seq<char>,
    given: Option<Seq<char>>,
    k: int,
)
    requires
        0 <= k < split(text, '\n').len(),
    ensures
        ({
            let ls = split(text, '\n');
            &&& ls.len() > 3_000 ==> song_in(text, given) == Err::<SongView, ErrorView>(
                ErrorView::Invalid { reason: "too_many_lines"@, line: Some(3_001) },
            )
            &&& ls.len() <= 3_000 && ls[k].len() > 500 && (forall|i: int|
                0 <= i < k ==> (#[trigger] ls[i]).len() <= 500) ==> song_in(text, given) == Err::<
                SongView,
                ErrorView,
            >(ErrorView::Invalid { reason: "line_too_long"@, line: Some(k + 1) })
            &&& ls.len() <= 3_000 && (forall|i: int|
                0 <= i < ls.len() ==> (#[trigger] ls[i]).len() <= 500) && announces_another(ls, k)
                && (forall|i: int| 0 <= i < k ==> !#[trigger] announces_another(ls, i)) ==> song_in(
                text,
                given,
            ) == Err::<SongView, ErrorView>(
                ErrorView::Invalid { reason: "multiple_songs"@, line: Some(k + 1) },
            )
        }),
{
    let ls = split(text, '\n');
    lemma_long(ls, 0);
    let long = first_long(ls, 0);
    if ls[k].len() > 500 && (forall|i: int| 0 <= i < k ==> (#[trigger] ls[i]).len() <= 500) {
        assert(long == k);
    }
    if forall|i: int| 0 <= i < ls.len() ==> (#[trigger] ls[i]).len() <= 500 {
        if long < ls.len() {
            assert(ls[long].len() <= 500);
        }
    }
    lemma_lines(empty_draft(), ls, 0);
}

/// A file of more than 65,536 bytes is refused, and so is one that holds a NUL,
/// with the line that holds the first.
pub proof fn large_files_and_nul_characters_are_refused(
    content: Seq<char>,
    given: Option<Seq<char>>,
    i: int,
)
    requires
        0 <= i < content.len(),
    ensures
        vstd::utf8::encode_utf8(content).len() > 65_536 ==> song_of(content, given) == Err::<
            SongView,
            ErrorView,
        >(ErrorView::TooLarge),
        vstd::utf8::encode_utf8(content).len() <= 65_536 && content[i] == '\0' && (forall|j: int|
            0 <= j < i ==> #[trigger] content[j] != '\0') ==> song_of(content, given) == Err::<
            SongView,
            ErrorView,
        >(
            ErrorView::Invalid {
                reason: "nul_character"@,
                line: Some(occurrences(content.take(i), '\n') as int + 1),
            },
        ),
{
    crate::text::lemma_index_of(content, '\0');
    if content[i] == '\0' {
        assert(content.contains('\0'));
    }
}

// ---------------------------------------------------------------------
// Warnings
// ---------------------------------------------------------------------

/// `more` is `w` with warnings of line `number` behind it, within the limit.
pub open spec fn only_adds(w: Seq<WarningView>, more: Seq<WarningView>, number: int) -> bool {
    &&& w.len() <= more.len()
    &&& forall|i: int| 0 <= i < w.len() ==> more[i] == #[trigger] w[i]
    &&& forall|i: int|
        w.len() <= i < more.len() ==> (#[trigger] more[i]).line == Some(number) || i == 100
            && more[i].code == "too_many_warnings"@
}

proof fn lemma_adds_more(
    a: Seq<WarningView>,
    b: Seq<WarningView>,
    code: Seq<char>,
    detail: Option<Seq<char>>,
    number: int,
)
    requires
        only_adds(a, b, number),
    ensures
        only_adds(a, warned(b, code, Some(number), detail), number),
{
    let c = warned(b, code, Some(number), detail);
    assert forall|i: int| a.len() <= i < c.len() implies (#[trigger] c[i]).line == Some(number) || i
        == 100 && c[i].code == "too_many_warnings"@ by {
        if i < b.len() {
            assert(c[i] == b[i]);
        }
    }
    assert forall|i: int| 0 <= i < a.len() implies c[i] == #[trigger] a[i] by {
        assert(c[i] == b[i]);
    }
}

proof fn lemma_cleaning_adds(
    a: Seq<WarningView>,
    c: Cleaning,
    v: Seq<char>,
    i: int,
    number: int,
)
    requires
        only_adds(a, c.warnings, number),
    ensures
        only_adds(a, clean_from(c, v, i, number).warnings, number),
    decreases v.len() - i,
{
    if 0 <= i < v.len() {
        lemma_adds_more(a, c.warnings, "unbalanced_bracket"@, None, number);
        let unbalanced = Cleaning {
            warnings: warned(c.warnings, "unbalanced_bracket"@, Some(number), None),
            ..c
        };
        if v[i] == '[' {
            lemma_next_bracket(v, i + 1);
            let close = next_bracket(v, i + 1);
            if close < v.len() && v[close] == ']' {
                let inner = trim(v.subrange(i + 1, close));
                lemma_adds_more(a, c.warnings, "invalid_chord"@, Some(inner), number);
                let next = if inner.len() > 0 && crate::export::chords::is_chord_symbol(inner) {
                    Cleaning { text: c.text + ("["@ + inner + "]"@), ..c }
                } else {
                    Cleaning {
                        warnings: warned(c.warnings, "invalid_chord"@, Some(number), Some(inner)),
                        ..c
                    }
                };
                lemma_cleaning_adds(a, next, v, close + 1, number);
            } else {
                lemma_cleaning_adds(a, unbalanced, v, i + 1, number);
            }
        } else if v[i] == ']' {
            lemma_cleaning_adds(a, unbalanced, v, i + 1, number);
        } else if is_brace(v[i]) {
            lemma_cleaning_adds(a, Cleaning { braces: true, ..c }, v, i + 1, number);
        } else {
            lemma_cleaning_adds(a, Cleaning { text: c.text.push(v[i]), ..c }, v, i + 1, number);
        }
    }
}

/// Reading a line takes no warning back, and every warning that it adds names
/// that line, but for the one that says that there are too many.
pub proof fn warnings_name_their_line(d: Draft, raw: Seq<char>, number: int)
    ensures
        with_line(d, raw, number) matches Ok(next) ==> only_adds(
            d.warnings,
            next.warnings,
            number,
        ),
{
    let a = d.warnings;
    match directive_of(trim(raw)) {
        Some((name, value)) => {
            let time = replace(value, " "@, ""@);
            lemma_adds_more(a, a, "directive_dropped"@, Some(name), number);
            lemma_adds_more(a, a, "duplicate_directive"@, Some(name), number);
            lemma_adds_more(a, a, "invalid_key"@, Some(value), number);
            lemma_adds_more(a, a, "invalid_tempo"@, Some(value), number);
            lemma_adds_more(a, a, "invalid_capo"@, Some(value), number);
            lemma_adds_more(a, a, "invalid_duration"@, Some(value), number);
            lemma_adds_more(a, a, "invalid_time"@, Some(time), number);
            lemma_adds_more(a, a, "album_dropped"@, Some(value), number);
        },
        None => {
            let start = Cleaning { text: seq![], warnings: a, braces: false };
            lemma_cleaning_adds(a, start, raw, 0, number);
            let c = clean_from(start, raw, 0, number);
            lemma_adds_more(a, c.warnings, "braces_removed"@, None, number);
        },
    }
}

/// The warning that a directive earns, when it earns one.
pub open spec fn earns(d: Draft, name: Seq<char>, value: Seq<char>) -> Option<
    (Seq<char>, Seq<char>),
> {
    if name == "artist"@ && d.artist is Some {
        Some(("duplicate_directive"@, name))
    } else if name == "key"@ && key_of(value) is None {
        Some(("invalid_key"@, value))
    } else if name == "key"@ && d.tonality is Some {
        Some(("duplicate_directive"@, name))
    } else if name == "tempo"@ && tempo_of(value) is None {
        Some(("invalid_tempo"@, value))
    } else if name == "tempo"@ && d.tempo is Some {
        Some(("duplicate_directive"@, name))
    } else if name == "capo"@ && capo_of(value) is None {
        Some(("invalid_capo"@, value))
    } else if name == "capo"@ && d.capo is Some {
        Some(("duplicate_directive"@, name))
    } else if name == "duration"@ && duration_of(value) is None {
        Some(("invalid_duration"@, value))
    } else if name == "duration"@ && d.duration is Some {
        Some(("duplicate_directive"@, name))
    } else if name == "album"@ {
        Some(("album_dropped"@, value))
    } else {
        None
    }
}

proof fn lemma_detail_names()
    ensures
        is_directive_name("artist"@) && is_directive_name("key"@) && is_directive_name("tempo"@)
            && is_directive_name("capo"@) && is_directive_name("duration"@) && is_directive_name(
            "album"@,
        ) && is_directive_name("subtitle"@) && is_directive_name("st"@),
        "artist"@.len() == 6 && "key"@.len() == 3 && "tempo"@.len() == 5 && "capo"@.len() == 4
            && "duration"@.len() == 8 && "album"@.len() == 5 && "subtitle"@.len() == 8 && "st"@.len()
            == 2 && "time"@.len() == 4,
        "tempo"@ != "title"@ && "album"@ != "title"@ && "album"@ != "tempo"@,
        "duration"@ != "new_song"@ && "duration"@ != "subtitle"@,
{
    reveal_strlit("artist");
    reveal_strlit("key");
    reveal_strlit("tempo");
    reveal_strlit("capo");
    reveal_strlit("duration");
    reveal_strlit("album");
    reveal_strlit("subtitle");
    reveal_strlit("st");
    reveal_strlit("time");
    reveal_strlit("title");
    reveal_strlit("new_song");
    assert("tempo"@[1] != "title"@[1]);
    assert("album"@[0] != "title"@[0]);
    assert("album"@[0] != "tempo"@[0]);
    assert("duration"@[0] != "new_song"@[0]);
    assert("duration"@[0] != "subtitle"@[0]);
}

/// A detail that cannot be read, or that comes twice, is left out with a
/// warning; so are an album, and any directive that is not known.
pub proof fn what_is_left_out_is_said(d: Draft, name: Seq<char>, value: Seq<char>, number: int)
    requires
        d.warnings.len() < 100,
    ensures
        earns(d, name, value) matches Some((code, detail)) ==> with_directive(
            d,
            name,
            value,
            number,
        ) == Ok::<Draft, ErrorView>(
            Draft {
                warnings: d.warnings.push(
                    WarningView { code, line: Some(number), detail: Some(cut(detail, 80)) },
                ),
                ..d
            },
        ),
        !is_directive_name(name) ==> with_directive(d, name, value, number) == Ok::<
            Draft,
            ErrorView,
        >(
            Draft {
                warnings: d.warnings.push(
                    WarningView {
                        code: "directive_dropped"@,
                        line: Some(number),
                        detail: Some(cut(name, 80)),
                    },
                ),
                ..d
            },
        ),
        with_directive(d, name, value, number) matches Ok(next) && next.warnings == d.warnings
            && !is_kept_directive(name) ==> {
            ||| name == "title"@ || name == "t"@ || name == "subtitle"@ || name == "st"@
            ||| name == "artist"@ || name == "key"@ || name == "tempo"@ || name == "capo"@
            ||| name == "duration"@ || name == "time"@
        },
{
    lemma_names();
    lemma_detail_names();
}

} // verus!
