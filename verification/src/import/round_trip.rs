//! Importing what was exported.

use crate::export::chordpro::{
    metadata, minutes_and_seconds, song_text, value_chars, with_directive as exported_directive,
    with_some, written_value,
};
use crate::import::chordpro::{
    clean_from, clean_line, collapsed, directive_of, empty_draft, finished, first_long,
    is_directive_name, is_name_char, kept, lyrics_of, sanitized, song_in, song_of, unified,
    visible, with_directive, with_line, with_lines, without_braces, without_last_empty, Cleaning,
    Draft, ErrorView, SongView,
};
use crate::import::values::{capo_of, duration_of, tempo_of};
use crate::models::song::SongExport;
use crate::text::{
    all_digits, ascii_lower, decimal, digits_value, ends_with, index_of, is_ascii_text, is_digit,
    is_space, join, lemma_decimal, lemma_index_of, lemma_join_holds, lemma_join_push,
    lemma_replace_passes, lemma_split_join, lemma_squeeze_blank, lemma_squeeze_solid,
    lemma_trim_solid, number, opt_text, replace, squeeze, trim, trim_end, trim_start, two_digits,
};
use vstd::prelude::*;

verus! {

/// A printable character of ASCII.
pub open spec fn is_printable(c: char) -> bool {
    ' ' <= c <= '~'
}

/// A text of one line that a directive can carry as it is: printable ASCII
/// without braces, its words joined by single blanks, 1 to 255 characters.
pub open spec fn is_plain_value(s: Seq<char>) -> bool {
    &&& 0 < s.len() <= 255
    &&& squeeze(s) == s
    &&& forall|i: int|
        0 <= i < s.len() ==> is_printable(#[trigger] s[i]) && s[i] != '{' && s[i] != '}'
}

/// A song that is all metadata, and that a directive can carry as it is.
pub open spec fn is_plain_song(s: SongExport) -> bool {
    &&& is_plain_value(s.title@)
    &&& s.artist_name matches Some(a) ==> is_plain_value(a@)
    &&& s.tempo matches Some(n) ==> 1 <= n <= 500
    &&& s.capo matches Some(n) ==> 0 <= n <= 11
    &&& s.duration matches Some(n) ==> 1 <= n <= 7_200
    &&& s.tonality is None
    &&& s.time_signature is None
    &&& s.energy is None
    &&& s.lyrics is None
}

// ---------------------------------------------------------------------
// One directive
// ---------------------------------------------------------------------

spec fn directive_line(name: Seq<char>, value: Seq<char>) -> Seq<char> {
    "{"@ + name + ": "@ + value + "}"@
}

proof fn lemma_written(value: Seq<char>)
    requires
        is_plain_value(value),
    ensures
        written_value(value) == value,
{
    assert(value_chars(value) =~= value);
}

proof fn lemma_directive(name: Seq<char>, value: Seq<char>)
    requires
        is_directive_name(name),
        is_plain_value(value),
    ensures
        directive_of(trim(directive_line(name, value))) == Some((name, value)),
{
    reveal_strlit("{");
    reveal_strlit(": ");
    reveal_strlit("}");
    let line = directive_line(name, value);
    assert(line[0] == '{');
    assert(line.last() == '}');
    assert(trim_start(line) == line);
    assert(trim(line) == line);
    let inner = name + ": "@ + value;
    assert(line.subrange(1, line.len() - 1) =~= inner);
    lemma_index_of(inner, ':');
    let i = index_of(inner, ':');
    assert(inner[name.len() as int] == ':');
    assert(i == name.len()) by {
        if i < name.len() {
            assert(inner[i] == name[i]);
            assert(is_name_char(name[i]));
        }
    }
    assert(inner.take(i) =~= name);
    let rest = seq![' '] + value;
    assert(inner.skip(i + 1) =~= rest);
    assert forall|k: int| 0 <= k < name.len() implies !is_space(#[trigger] name[k]) by {
        assert(is_name_char(name[k]));
    }
    lemma_trim_solid(name);
    assert(ascii_lower(name) =~= name) by {
        assert forall|k: int| 0 <= k < name.len() implies ascii_lower(name)[k] == name[k] by {
            assert(is_name_char(name[k]));
        }
    }
    assert(without_braces(rest) =~= rest) by {
        assert forall|k: int| 0 <= k < rest.len() implies without_braces(rest)[k] == rest[k] by {
            if k > 0 {
                assert(rest[k] == value[k - 1]);
            }
        }
    }
    lemma_squeeze_blank(value);
}

proof fn lemma_with_lines_push(d: Draft, ls: Seq<Seq<char>>, l: Seq<char>, i: int)
    requires
        0 <= i <= ls.len(),
    ensures
        with_lines(d, ls.push(l), i) == match with_lines(d, ls, i) {
            Ok(x) => with_line(x, l, (ls.len() + 1) as int),
            Err(e) => Err(e),
        },
    decreases ls.len() - i,
{
    let all = ls.push(l);
    if i < ls.len() {
        assert(all[i] == ls[i]);
        match with_line(d, ls[i], i + 1) {
            Ok(next) => lemma_with_lines_push(next, ls, l, i + 1),
            Err(_) => {},
        }
    } else {
        assert(all[i] == l);
        match with_line(d, l, i + 1) {
            Ok(next) => {
                assert(with_lines(next, all, i + 1) == Ok::<Draft, ErrorView>(next));
            },
            Err(_) => {},
        }
    }
}

/// Lines that are read as they are written.
spec fn are_plain(ls: Seq<Seq<char>>) -> bool {
    &&& forall|i: int| 0 <= i < ls.len() ==> (#[trigger] ls[i]).len() <= 300
    &&& forall|i: int, j: int|
        0 <= i < ls.len() && 0 <= j < ls[i].len() ==> is_printable(#[trigger] ls[i][j])
}

/// The lines so far, what was written of them and what was read of them.
spec fn agrees(out: Seq<char>, ls: Seq<Seq<char>>, d: Draft) -> bool {
    &&& out == join(ls.push(seq![]), seq!['\n'])
    &&& with_lines(empty_draft(), ls, 0) == Ok::<Draft, ErrorView>(d)
    &&& are_plain(ls)
}

proof fn lemma_line_text(out: Seq<char>, ls: Seq<Seq<char>>, name: Seq<char>, value: Seq<char>)
    requires
        out == join(ls.push(seq![]), seq!['\n']),
        is_plain_value(value),
    ensures
        exported_directive(out, name, value) == join(
            ls.push(directive_line(name, value)).push(seq![]),
            seq!['\n'],
        ),
{
    reveal_strlit("}");
    reveal_strlit("}\n");
    let l = directive_line(name, value);
    let none: Seq<char> = seq![];
    let sep = seq!['\n'];
    lemma_written(value);
    lemma_join_push(ls, none, sep);
    lemma_join_push(ls, l, sep);
    lemma_join_push(ls.push(l), none, sep);
    assert(join(ls.push(l), sep) =~= out + l);
    assert("}\n"@ =~= "}"@ + sep);
    assert(exported_directive(out, name, value) =~= out + l + sep);
    assert(join(ls.push(l).push(none), sep) =~= out + l + sep);
}

proof fn lemma_line_plain(ls: Seq<Seq<char>>, name: Seq<char>, value: Seq<char>)
    requires
        are_plain(ls),
        is_directive_name(name),
        name.len() <= 20,
        is_plain_value(value),
    ensures
        are_plain(ls.push(directive_line(name, value))),
{
    reveal_strlit("{");
    reveal_strlit(": ");
    reveal_strlit("}");
    let l = directive_line(name, value);
    let all = ls.push(l);
    let n = name.len() as int;
    assert(l.len() == n + value.len() + 4);
    assert forall|j: int| 0 <= j < l.len() implies is_printable(#[trigger] l[j]) by {
        if j == 0 {
            assert(l[j] == "{"@[0]);
        } else if j < 1 + n {
            assert(l[j] == name[j - 1]);
            assert(is_name_char(name[j - 1]));
        } else if j < 3 + n {
            assert(l[j] == ": "@[j - 1 - n]);
        } else if j < 3 + n + value.len() {
            assert(l[j] == value[j - 3 - n]);
        } else {
            assert(l[j] == "}"@[0]);
        }
    }
    assert forall|i: int| 0 <= i < all.len() implies (#[trigger] all[i]).len() <= 300 by {
        if i < ls.len() {
            assert(all[i] == ls[i]);
        }
    }
    assert forall|i: int, j: int| 0 <= i < all.len() && 0 <= j < all[i].len() implies is_printable(
        #[trigger] all[i][j],
    ) by {
        if i < ls.len() {
            assert(all[i][j] == ls[i][j]);
        } else {
            assert(all[i][j] == l[j]);
        }
    }
}

proof fn lemma_line(
    out: Seq<char>,
    ls: Seq<Seq<char>>,
    d: Draft,
    name: Seq<char>,
    value: Seq<char>,
    next: Draft,
)
    requires
        agrees(out, ls, d),
        is_directive_name(name),
        name.len() <= 20,
        is_plain_value(value),
        with_directive(d, name, value, (ls.len() + 1) as int) == Ok::<Draft, ErrorView>(next),
    ensures
        agrees(
            exported_directive(out, name, value),
            ls.push(directive_line(name, value)),
            next,
        ),
{
    lemma_directive(name, value);
    lemma_with_lines_push(empty_draft(), ls, directive_line(name, value), 0);
    lemma_line_text(out, ls, name, value);
    lemma_line_plain(ls, name, value);
}

// ---------------------------------------------------------------------
// The values
// ---------------------------------------------------------------------

proof fn lemma_plain_digits(s: Seq<char>)
    requires
        0 < s.len() <= 20,
        all_digits(s),
    ensures
        is_plain_value(s),
        trim(s) == s,
        ascii_lower(s) == s,
{
    assert forall|i: int| 0 <= i < s.len() implies !is_space(#[trigger] s[i]) by {
        assert(is_digit(s[i]));
    }
    lemma_squeeze_solid(s);
    lemma_trim_solid(s);
    assert forall|i: int| 0 <= i < s.len() implies is_printable(#[trigger] s[i]) && s[i] != '{'
        && s[i] != '}' by {
        assert(is_digit(s[i]));
    }
    assert(ascii_lower(s) =~= s) by {
        assert forall|i: int| 0 <= i < s.len() implies ascii_lower(s)[i] == s[i] by {
            assert(is_digit(s[i]));
        }
    }
}

proof fn lemma_tempo(n: i32)
    requires
        1 <= n <= 500,
    ensures
        is_plain_value(number(n as int)),
        tempo_of(number(n as int)) == Some(n),
{
    let s = decimal(n as nat);
    lemma_decimal(n as nat);
    lemma_plain_digits(s);
    reveal_strlit("bpm");
    let suffix = "bpm"@;
    if ends_with(s, suffix) {
        assert(s.subrange(s.len() - 3, s.len() as int)[0] == suffix[0]);
        assert(is_digit(s[s.len() - 3]));
    }
}

proof fn lemma_capo(n: i16)
    requires
        0 <= n <= 11,
    ensures
        is_plain_value(number(n as int)),
        capo_of(number(n as int)) == Some(n),
{
    lemma_decimal(n as nat);
    lemma_plain_digits(decimal(n as nat));
}

proof fn lemma_two_digits(n: nat)
    requires
        n < 60,
    ensures
        two_digits(n).len() == 2,
        all_digits(two_digits(n)),
        digits_value(two_digits(n)) == n,
{
    lemma_decimal(n);
    if n < 10 {
        let s = two_digits(n);
        let d = decimal(n);
        assert(s.drop_last() =~= seq!['0']);
        assert(seq!['0'].drop_last() =~= seq![]);
        assert(digits_value(seq!['0'].drop_last()) == 0);
        assert(seq!['0'].last() == '0');
        assert(digits_value(seq!['0']) == 0);
        assert(d.drop_last() =~= seq![]);
        assert(digits_value(d.drop_last()) == 0);
        assert(s.last() == d.last());
        assert forall|i: int| 0 <= i < s.len() implies is_digit(#[trigger] s[i]) by {
            if i > 0 {
                assert(s[i] == d[i - 1]);
            }
        }
    }
}

proof fn lemma_duration(n: i32)
    requires
        1 <= n <= 7_200,
    ensures
        is_plain_value(minutes_and_seconds(n as int)),
        duration_of(minutes_and_seconds(n as int)) == Some(n),
{
    reveal_strlit(":");
    let m = decimal((n as int / 60) as nat);
    let t = two_digits((n as int % 60) as nat);
    let s = m + ":"@ + t;
    lemma_decimal((n as int / 60) as nat);
    lemma_two_digits((n as int % 60) as nat);
    let k = m.len() as int;
    assert forall|i: int| 0 <= i < s.len() implies is_digit(#[trigger] s[i]) || s[i] == ':' by {
        if i < k {
            assert(s[i] == m[i]);
        } else if i > k {
            assert(s[i] == t[i - k - 1]);
        }
    }
    assert forall|i: int| 0 <= i < s.len() implies !is_space(#[trigger] s[i]) by {
        assert(is_digit(s[i]) || s[i] == ':');
    }
    lemma_squeeze_solid(s);
    lemma_trim_solid(s);
    assert forall|i: int| 0 <= i < s.len() implies is_printable(#[trigger] s[i]) && s[i] != '{'
        && s[i] != '}' by {
        assert(is_digit(s[i]) || s[i] == ':');
    }
    lemma_index_of(s, ':');
    let c = index_of(s, ':');
    assert(s[k] == ':');
    assert(c == k) by {
        if c < k {
            assert(s[c] == m[c]);
            assert(is_digit(m[c]));
        }
    }
    assert(s.take(c) =~= m);
    assert(s.skip(c + 1) =~= t);
    assert(n == (n as int / 60) * 60 + n as int % 60);
}

// ---------------------------------------------------------------------
// The whole file
// ---------------------------------------------------------------------

proof fn lemma_visible(s: Seq<char>)
    requires
        forall|i: int| 0 <= i < s.len() ==> is_printable(#[trigger] s[i]) || s[i] == '\n',
    ensures
        visible(s) == s,
    decreases s.len(),
{
    if s.len() > 0 {
        lemma_visible(s.drop_last());
        assert(is_printable(s[s.len() - 1]) || s[s.len() - 1] == '\n');
        assert(kept(s.last()) =~= seq![s.last()]);
        assert(s.drop_last() + seq![s.last()] =~= s);
    }
}

proof fn lemma_sanitized(s: Seq<char>)
    requires
        forall|i: int| 0 <= i < s.len() ==> is_printable(#[trigger] s[i]) || s[i] == '\n',
    ensures
        sanitized(s) == Ok::<Seq<char>, ErrorView>(s),
        is_ascii_text(s),
{
    reveal_strlit("\r\n");
    reveal_strlit("\r");
    let none: Seq<char> = seq![];
    assert forall|i: int| 0 <= i < s.len() implies #[trigger] s[i] != '\r' by {
        assert(is_printable(s[i]) || s[i] == '\n');
    }
    lemma_replace_passes(s, none, "\r\n"@, "\n"@);
    lemma_replace_passes(s, none, "\r"@, "\n"@);
    assert(s + none =~= s);
    assert(replace(none, "\r\n"@, "\n"@) =~= none);
    assert(replace(none, "\r"@, "\n"@) =~= none);
    assert(unified(s) == s);
    assert forall|i: int| 0 <= i < s.len() implies #[trigger] s[i] <= '\u{7F}' by {
        assert(is_printable(s[i]) || s[i] == '\n');
    }
    assert(!s.contains('\0')) by {
        if s.contains('\0') {
            let i = choose|i: int| 0 <= i < s.len() && s[i] == '\0';
            assert(is_printable(s[i]) || s[i] == '\n');
        }
    }
    lemma_visible(s);
}

proof fn lemma_join_len(v: Seq<Seq<char>>)
    requires
        forall|i: int| 0 <= i < v.len() ==> (#[trigger] v[i]).len() <= 300,
    ensures
        join(v, seq!['\n']).len() <= 301 * v.len(),
    decreases v.len(),
{
    if v.len() > 0 {
        assert(v[v.len() - 1].len() <= 300);
        lemma_join_len(v.drop_last());
    }
}

proof fn lemma_no_long(v: Seq<Seq<char>>, i: int)
    requires
        0 <= i <= v.len(),
        forall|i: int| 0 <= i < v.len() ==> (#[trigger] v[i]).len() <= 300,
    ensures
        first_long(v, i) == v.len(),
    decreases v.len() - i,
{
    if i < v.len() {
        assert(v[i].len() <= 300);
        lemma_no_long(v, i + 1);
    }
}

proof fn lemma_clean_plain(c: Cleaning, v: Seq<char>, i: int, number: int)
    requires
        0 <= i <= v.len(),
        forall|k: int|
            0 <= k < v.len() ==> #[trigger] v[k] != '[' && v[k] != ']' && v[k] != '{' && v[k]
                != '}',
    ensures
        clean_from(c, v, i, number) == (Cleaning { text: c.text + v.skip(i), ..c }),
    decreases v.len() - i,
{
    if i < v.len() {
        let next = Cleaning { text: c.text.push(v[i]), ..c };
        lemma_clean_plain(next, v, i + 1, number);
        assert(c.text.push(v[i]) + v.skip(i + 1) =~= c.text + v.skip(i));
    } else {
        assert(c.text + v.skip(i) =~= c.text);
    }
}

proof fn lemma_lyric_line(d: Draft, line: Seq<char>, number: int)
    requires
        forall|k: int|
            0 <= k < line.len() ==> #[trigger] line[k] != '[' && line[k] != ']' && line[k] != '{'
                && line[k] != '}',
        line.len() > 0 ==> !is_space(line[0]) && !is_space(line.last()),
    ensures
        with_line(d, line, number) == Ok::<Draft, ErrorView>(
            Draft { body: d.body.push(line), ..d },
        ),
{
    assert(trim_start(line) == line);
    assert(trim_end(line) == line);
    if line.len() > 0 {
        assert(line[0] != '{');
    }
    assert(directive_of(trim(line)) is None);
    let none: Seq<char> = seq![];
    let start = Cleaning { text: none, warnings: d.warnings, braces: false };
    lemma_clean_plain(start, line, 0, number);
    assert(none + line.skip(0) =~= line);
    assert(clean_line(line, number, d.warnings) == (line, d.warnings));
}

proof fn lemma_lyrics(note: Seq<char>)
    requires
        note.len() > 0,
        trim(note) == note,
    ensures
        lyrics_of(seq![seq![], note, seq![]]) == Some(note),
{
    let none: Seq<char> = seq![];
    let body: Seq<Seq<char>> = seq![none, note, none];
    let start: Seq<Seq<char>> = seq![];
    let one: Seq<Seq<char>> = seq![note];
    assert(trim(none) =~= none);
    let b1 = body.skip(1);
    let b2 = b1.skip(1);
    let b3 = b2.skip(1);
    assert(body[0] == none && b1[0] == note && b2[0] == none);
    assert(b3.len() == 0);
    assert(start.push(note) =~= one);
    let both = one.push(none);
    assert(collapsed(both, 1, b3) == both);
    assert(collapsed(one, 0, b2) == both);
    assert(collapsed(start, 1, b1) == both);
    assert(collapsed(start, 0, body) == both);
    assert(both.drop_last() =~= one);
    assert(both.last() == none);
    assert(without_last_empty(one) == one);
    assert(without_last_empty(both) == one);
    assert(join(one, "\n"@) == note);
}

proof fn lemma_names()
    ensures
        is_directive_name("title"@) && "title"@.len() == 5,
        is_directive_name("artist"@) && "artist"@.len() == 6,
        is_directive_name("tempo"@) && "tempo"@.len() == 5,
        is_directive_name("capo"@) && "capo"@.len() == 4,
        is_directive_name("duration"@) && "duration"@.len() == 8,
        "new_song"@.len() == 8 && "ns"@.len() == 2 && "t"@.len() == 1,
        "subtitle"@.len() == 8 && "st"@.len() == 2 && "key"@.len() == 3,
        "tempo"@ != "title"@,
        "duration"@ != "new_song"@,
        "duration"@ != "subtitle"@,
{
    reveal_strlit("title");
    reveal_strlit("artist");
    reveal_strlit("tempo");
    reveal_strlit("capo");
    reveal_strlit("duration");
    reveal_strlit("new_song");
    reveal_strlit("ns");
    reveal_strlit("t");
    reveal_strlit("subtitle");
    reveal_strlit("st");
    reveal_strlit("key");
    assert("tempo"@[1] != "title"@[1]);
    assert("duration"@[0] != "new_song"@[0]);
    assert("duration"@[0] != "subtitle"@[0]);
}

/// What an import gives of a song that was exported without lyrics.
pub open spec fn imported_back(s: SongExport) -> SongView {
    SongView {
        title: s.title@,
        artist_name: opt_text(s.artist_name),
        tonality: None,
        tempo: s.tempo,
        time_signature: None,
        capo: s.capo,
        duration: s.duration,
        lyrics: Some("# No lyrics provided."@),
        warnings: seq![],
    }
}

proof fn lemma_metadata(s: SongExport) -> (r: (Seq<Seq<char>>, Draft))
    requires
        is_plain_song(s),
    ensures
        agrees(metadata(s), r.0, r.1),
        r.0.len() <= 5,
        r.1 == (Draft {
            title: Some(s.title@),
            artist: opt_text(s.artist_name),
            tempo: s.tempo,
            capo: s.capo,
            duration: s.duration,
            ..empty_draft()
        }),
{
    lemma_names();
    let out: Seq<char> = seq![];
    let ls: Seq<Seq<char>> = seq![];
    let d = empty_draft();
    lemma_join_push(ls, seq![], seq!['\n']);
    assert(agrees(out, ls, d));
    let d1 = Draft { title: Some(s.title@), ..d };
    lemma_line(out, ls, d, "title"@, s.title@, d1);
    let out1 = exported_directive(out, "title"@, s.title@);
    let ls1 = ls.push(directive_line("title"@, s.title@));
    let out2 = with_some(out1, "artist"@, opt_text(s.artist_name));
    let d2 = Draft { artist: opt_text(s.artist_name), ..d1 };
    let ls2 = match s.artist_name {
        Some(a) => {
            lemma_line(out1, ls1, d1, "artist"@, a@, d2);
            ls1.push(directive_line("artist"@, a@))
        },
        None => ls1,
    };
    assert(agrees(out2, ls2, d2));
    let d3 = Draft { tempo: s.tempo, ..d2 };
    let ls3 = match s.tempo {
        Some(n) => {
            lemma_tempo(n);
            lemma_line(out2, ls2, d2, "tempo"@, number(n as int), d3);
            ls2.push(directive_line("tempo"@, number(n as int)))
        },
        None => ls2,
    };
    let out3 = match s.tempo {
        Some(n) => exported_directive(out2, "tempo"@, number(n as int)),
        None => out2,
    };
    assert(agrees(out3, ls3, d3));
    let d4 = Draft { capo: s.capo, ..d3 };
    let ls4 = match s.capo {
        Some(n) => {
            lemma_capo(n);
            lemma_line(out3, ls3, d3, "capo"@, number(n as int), d4);
            ls3.push(directive_line("capo"@, number(n as int)))
        },
        None => ls3,
    };
    let out4 = match s.capo {
        Some(n) => exported_directive(out3, "capo"@, number(n as int)),
        None => out3,
    };
    assert(agrees(out4, ls4, d4));
    let d5 = Draft { duration: s.duration, ..d4 };
    let ls5 = match s.duration {
        Some(n) => {
            lemma_duration(n);
            lemma_line(out4, ls4, d4, "duration"@, minutes_and_seconds(n as int), d5);
            ls4.push(directive_line("duration"@, minutes_and_seconds(n as int)))
        },
        None => ls4,
    };
    let out5 = match s.duration {
        Some(n) => exported_directive(out4, "duration"@, minutes_and_seconds(n as int)),
        None => out4,
    };
    assert(agrees(out5, ls5, d5));
    assert(metadata(s) == out5);
    (ls5, d5)
}

/// Importing an exported song gives its title, artist, tempo, capo and duration
/// back, without a warning.
pub proof fn exported_songs_are_imported_back(s: SongExport)
    requires
        is_plain_song(s),
    ensures
        song_of(song_text(s), None) == Ok::<SongView, ErrorView>(imported_back(s)),
{
    reveal_strlit("\n");
    reveal_strlit("# No lyrics provided.");
    assert("\n"@ =~= seq!['\n']);
    let note = "# No lyrics provided."@;
    let none: Seq<char> = seq![];
    let sep = seq!['\n'];
    let text = song_text(s);
    let (ls, d) = lemma_metadata(s);
    let v1 = ls.push(none);
    let v2 = v1.push(note);
    let all = v2.push(none);
    lemma_join_push(v1, note, sep);
    lemma_join_push(v2, none, sep);
    assert(text =~= join(all, sep));
    let fine = |c: char| is_printable(c) || c == '\n';
    assert forall|i: int| 0 <= i < all.len() implies (#[trigger] all[i]).len() <= 300 by {
        if i < ls.len() {
            assert(all[i] == ls[i]);
        }
    }
    assert forall|i: int, j: int| 0 <= i < all.len() && 0 <= j < all[i].len() implies fine(
        #[trigger] all[i][j],
    ) && all[i][j] != '\n' by {
        if i < ls.len() {
            assert(is_printable(ls[i][j]));
        }
    }
    assert forall|i: int| 0 <= i < all.len() implies !(#[trigger] all[i]).contains('\n') by {
        if all[i].contains('\n') {
            let j = choose|j: int| 0 <= j < all[i].len() && all[i][j] == '\n';
            assert(all[i][j] != '\n');
        }
    }
    lemma_join_holds(all, sep, fine);
    assert forall|i: int| 0 <= i < text.len() implies is_printable(#[trigger] text[i]) || text[i]
        == '\n' by {
        assert(fine(text[i]));
    }
    lemma_sanitized(text);
    lemma_join_len(all);
    lemma_no_long(all, 0);
    lemma_split_join(all, '\n');
    assert(vstd::utf8::is_ascii_chars(text)) by {
        assert forall|i: int| 0 <= i < text.len() implies #[trigger] text[i] <= '\u{7F}' by {}
    }
    vstd::utf8::is_ascii_chars_encode_utf8(text);
    let d1 = Draft { body: d.body.push(none), ..d };
    let d2 = Draft { body: d1.body.push(note), ..d };
    let d3 = Draft { body: d2.body.push(none), ..d };
    lemma_with_lines_push(empty_draft(), ls, none, 0);
    lemma_with_lines_push(empty_draft(), v1, note, 0);
    lemma_with_lines_push(empty_draft(), v2, none, 0);
    lemma_lyric_line(d, none, (ls.len() + 1) as int);
    lemma_lyric_line(d1, note, (v1.len() + 1) as int);
    lemma_lyric_line(d2, none, (v2.len() + 1) as int);
    assert(with_lines(empty_draft(), all, 0) == Ok::<Draft, ErrorView>(d3));
    assert(d3.body =~= seq![none, note, none]);
    assert(trim_start(note) == note);
    assert(trim(note) == note);
    lemma_lyrics(note);
    assert(song_in(text, None) == finished(d3, None));
}

} // verus!
