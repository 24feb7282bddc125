//! The lyrics of imported songs.

use crate::export::chords::is_chord_symbol;
use crate::import::chordpro::{
    clean_from, clean_line, collapsed, directive_of, directive_text, empty_draft, is_brace,
    is_directive_name, is_kept_directive, lemma_next_bracket, next_bracket, song_in, warned,
    with_line, with_lines, without_last_empty, Cleaning, Draft, WarningView, KEPT_DIRECTIVES,
};
use crate::import::laws::is_blank;
use crate::text::{join, split, trim, trim_end};
use vstd::prelude::*;

verus! {

// ---------------------------------------------------------------------
// One line
// ---------------------------------------------------------------------

/// The text that is kept of a lyric line.
pub open spec fn kept_text(line: Seq<char>) -> Seq<char> {
    clean_line(line, 0, seq![]).0
}

/// The text that is kept of a lyric line, with the blanks at its end.
pub open spec fn untrimmed_text(line: Seq<char>) -> Seq<char> {
    clean_from(Cleaning { text: seq![], warnings: seq![], braces: false }, line, 0, 0).text
}

proof fn lemma_text_alone(c: Cleaning, d: Cleaning, v: Seq<char>, i: int, number: int, other: int)
    ensures
        exists|t: Seq<char>|
            clean_from(c, v, i, number).text == c.text + t && clean_from(d, v, i, other).text
                == #[trigger] (d.text + t),
    decreases v.len() - i,
{
    let none: Seq<char> = seq![];
    if i < 0 || i >= v.len() {
        assert(c.text + none =~= c.text);
        assert(d.text + none =~= d.text);
    } else {
        let uc = Cleaning {
            warnings: warned(c.warnings, "unbalanced_bracket"@, Some(number), None),
            ..c
        };
        let ud = Cleaning {
            warnings: warned(d.warnings, "unbalanced_bracket"@, Some(other), None),
            ..d
        };
        if v[i] == '[' {
            lemma_next_bracket(v, i + 1);
            let close = next_bracket(v, i + 1);
            if close < v.len() && v[close] == ']' {
                let inner = trim(v.subrange(i + 1, close));
                let chord = "["@ + inner + "]"@;
                if inner.len() > 0 && is_chord_symbol(inner) {
                    let nc = Cleaning { text: c.text + chord, ..c };
                    let nd = Cleaning { text: d.text + chord, ..d };
                    lemma_text_alone(nc, nd, v, close + 1, number, other);
                    let t = choose|t: Seq<char>|
                        clean_from(nc, v, close + 1, number).text == nc.text + t && clean_from(
                            nd,
                            v,
                            close + 1,
                            other,
                        ).text == #[trigger] (nd.text + t);
                    assert(nc.text + t =~= c.text + (chord + t));
                    assert(nd.text + t =~= d.text + (chord + t));
                } else {
                    let nc = Cleaning {
                        warnings: warned(c.warnings, "invalid_chord"@, Some(number), Some(inner)),
                        ..c
                    };
                    let nd = Cleaning {
                        warnings: warned(d.warnings, "invalid_chord"@, Some(other), Some(inner)),
                        ..d
                    };
                    lemma_text_alone(nc, nd, v, close + 1, number, other);
                }
            } else {
                lemma_text_alone(uc, ud, v, i + 1, number, other);
            }
        } else if v[i] == ']' {
            lemma_text_alone(uc, ud, v, i + 1, number, other);
        } else if is_brace(v[i]) {
            lemma_text_alone(
                Cleaning { braces: true, ..c },
                Cleaning { braces: true, ..d },
                v,
                i + 1,
                number,
                other,
            );
        } else {
            let nc = Cleaning { text: c.text.push(v[i]), ..c };
            let nd = Cleaning { text: d.text.push(v[i]), ..d };
            lemma_text_alone(nc, nd, v, i + 1, number, other);
            let t = choose|t: Seq<char>|
                clean_from(nc, v, i + 1, number).text == nc.text + t && clean_from(
                    nd,
                    v,
                    i + 1,
                    other,
                ).text == #[trigger] (nd.text + t);
            assert(nc.text + t =~= c.text + (seq![v[i]] + t));
            assert(nd.text + t =~= d.text + (seq![v[i]] + t));
        }
    }
}

/// Which text is kept of a line depends on nothing but the line.
pub proof fn kept_text_depends_on_the_line_alone(
    line: Seq<char>,
    number: int,
    warnings: Seq<WarningView>,
)
    ensures
        clean_line(line, number, warnings).0 == kept_text(line),
{
    let c = Cleaning { text: seq![], warnings, braces: false };
    let d = Cleaning { text: seq![], warnings: seq![], braces: false };
    lemma_text_alone(c, d, line, 0, number, 0);
}

proof fn lemma_next_bracket_shift(a: Seq<char>, b: Seq<char>, i: int)
    requires
        0 <= i <= b.len(),
    ensures
        next_bracket(a + b, a.len() + i) == a.len() + next_bracket(b, i),
    decreases b.len() - i,
{
    let s = a + b;
    if i < b.len() {
        assert(s[a.len() + i] == b[i]);
        if b[i] != '[' && b[i] != ']' {
            lemma_next_bracket_shift(a, b, i + 1);
        }
    }
}

proof fn lemma_clean_shift(c: Cleaning, a: Seq<char>, b: Seq<char>, i: int, number: int)
    requires
        0 <= i <= b.len(),
    ensures
        clean_from(c, a + b, a.len() + i, number) == clean_from(c, b, i, number),
    decreases b.len() - i,
{
    let s = a + b;
    if i < b.len() {
        assert(s[a.len() + i] == b[i]);
        let unbalanced = Cleaning {
            warnings: warned(c.warnings, "unbalanced_bracket"@, Some(number), None),
            ..c
        };
        if b[i] == '[' {
            lemma_next_bracket_shift(a, b, i + 1);
            lemma_next_bracket(b, i + 1);
            let close = next_bracket(b, i + 1);
            if close < b.len() && b[close] == ']' {
                assert(s[a.len() + close] == b[close]);
                assert(s.subrange(a.len() + i + 1, a.len() + close) =~= b.subrange(i + 1, close));
                let inner = trim(b.subrange(i + 1, close));
                let next = if inner.len() > 0 && is_chord_symbol(inner) {
                    Cleaning { text: c.text + ("["@ + inner + "]"@), ..c }
                } else {
                    Cleaning {
                        warnings: warned(c.warnings, "invalid_chord"@, Some(number), Some(inner)),
                        ..c
                    }
                };
                lemma_clean_shift(next, a, b, close + 1, number);
            } else {
                if close < b.len() {
                    assert(s[a.len() + close] == b[close]);
                }
                lemma_clean_shift(unbalanced, a, b, i + 1, number);
            }
        } else if b[i] == ']' {
            lemma_clean_shift(unbalanced, a, b, i + 1, number);
        } else if is_brace(b[i]) {
            lemma_clean_shift(Cleaning { braces: true, ..c }, a, b, i + 1, number);
        } else {
            lemma_clean_shift(Cleaning { text: c.text.push(b[i]), ..c }, a, b, i + 1, number);
        }
    }
}

/// Plain text: no bracket and no brace.
pub open spec fn is_plain_text(s: Seq<char>) -> bool {
    forall|i: int| 0 <= i < s.len() ==> #[trigger] s[i] != '[' && s[i] != ']' && !is_brace(s[i])
}

proof fn lemma_clean_plain(c: Cleaning, a: Seq<char>, b: Seq<char>, i: int, number: int)
    requires
        is_plain_text(a),
        0 <= i <= a.len(),
    ensures
        clean_from(c, a + b, i, number) == clean_from(
            Cleaning { text: c.text + a.skip(i), ..c },
            a + b,
            a.len() as int,
            number,
        ),
    decreases a.len() - i,
{
    if i < a.len() {
        assert((a + b)[i] == a[i]);
        let next = Cleaning { text: c.text.push(a[i]), ..c };
        lemma_clean_plain(next, a, b, i + 1, number);
        assert(next.text + a.skip(i + 1) =~= c.text + a.skip(i));
    } else {
        assert(c.text + a.skip(i) =~= c.text);
    }
}

/// A lyric line is kept from bracket to bracket: plain text stays as it is, a
/// chord in brackets stays without the blanks around it, and anything else in
/// brackets goes, with its brackets.
pub proof fn imported_lines_are_kept_bracket_by_bracket(
    before: Seq<char>,
    inner: Seq<char>,
    behind: Seq<char>,
)
    requires
        is_plain_text(before),
        !inner.contains('['),
        !inner.contains(']'),
    ensures
        untrimmed_text(before) == before,
        untrimmed_text(before + (seq!['['] + inner + seq![']'] + behind)) == if trim(inner).len() > 0
            && is_chord_symbol(trim(inner)) {
            before + seq!['['] + trim(inner) + seq![']'] + untrimmed_text(behind)
        } else {
            before + untrimmed_text(behind)
        },
        forall|l: Seq<char>| kept_text(l) == trim_end(#[trigger] untrimmed_text(l)),
{
    reveal_strlit("[");
    reveal_strlit("]");
    assert("["@ =~= seq!['[']);
    assert("]"@ =~= seq![']']);
    let none: Seq<char> = seq![];
    let c = Cleaning { text: none, warnings: seq![], braces: false };
    lemma_clean_plain(c, before, none, 0, 0);
    assert(before + none =~= before);
    assert(none + before.skip(0) =~= before);
    let rest = seq!['['] + inner + seq![']'] + behind;
    let line = before + rest;
    lemma_clean_plain(c, before, rest, 0, 0);
    let d = Cleaning { text: before, ..c };
    lemma_clean_shift(d, before, rest, 0, 0);
    let m = inner.len() as int;
    lemma_next_bracket(rest, 1);
    let close = next_bracket(rest, 1);
    assert(rest[0] == '[');
    assert(rest[m + 1] == ']');
    assert(close == m + 1) by {
        if close < m + 1 {
            assert(rest[close] == inner[close - 1]);
        }
    }
    assert(rest.subrange(1, close) =~= inner);
    let t = trim(inner);
    let fine = t.len() > 0 && is_chord_symbol(t);
    let next = if fine {
        Cleaning { text: before + ("["@ + t + "]"@), ..d }
    } else {
        Cleaning { warnings: warned(d.warnings, "invalid_chord"@, Some(0), Some(t)), ..d }
    };
    let front = seq!['['] + inner + seq![']'];
    assert(rest =~= front + behind);
    lemma_clean_shift(next, front, behind, 0, 0);
    lemma_text_alone(next, c, behind, 0, 0, 0);
    let x = choose|x: Seq<char>|
        clean_from(next, behind, 0, 0).text == next.text + x && clean_from(c, behind, 0, 0).text
            == #[trigger] (c.text + x);
    assert(c.text + x =~= x);
    assert(untrimmed_text(behind) == x);
    assert(untrimmed_text(line) == next.text + x);
    if fine {
        assert(next.text + x =~= before + seq!['['] + t + seq![']'] + x);
    }
}

/// A brace, or a bracket without its pair, is left out of a lyric line, and
/// nothing else with it.
pub proof fn stray_brackets_and_braces_go_alone(before: Seq<char>, c: char, behind: Seq<char>)
    requires
        is_plain_text(before),
        is_brace(c) || c == ']' || c == '[' && !behind.contains(']'),
    ensures
        untrimmed_text(before + (seq![c] + behind)) == before + untrimmed_text(behind),
{
    let none: Seq<char> = seq![];
    let start = Cleaning { text: none, warnings: seq![], braces: false };
    let rest = seq![c] + behind;
    lemma_clean_plain(start, before, rest, 0, 0);
    assert(none + before.skip(0) =~= before);
    let d = Cleaning { text: before, ..start };
    lemma_clean_shift(d, before, rest, 0, 0);
    assert(rest[0] == c);
    let next = if is_brace(c) {
        Cleaning { braces: true, ..d }
    } else {
        Cleaning { warnings: warned(d.warnings, "unbalanced_bracket"@, Some(0), None), ..d }
    };
    if c == '[' {
        lemma_next_bracket(rest, 1);
        let close = next_bracket(rest, 1);
        if close < rest.len() && rest[close] == ']' {
            assert(behind[close - 1] == ']');
        }
    }
    assert(clean_from(d, rest, 0, 0) == clean_from(next, rest, 1, 0));
    assert(rest =~= seq![c] + behind);
    lemma_clean_shift(next, seq![c], behind, 0, 0);
    lemma_text_alone(next, start, behind, 0, 0, 0);
    let x = choose|x: Seq<char>|
        clean_from(next, behind, 0, 0).text == next.text + x && clean_from(start, behind, 0, 0).text
            == #[trigger] (start.text + x);
    assert(start.text + x =~= x);
}

// ---------------------------------------------------------------------
// All lines
// ---------------------------------------------------------------------

/// The line of the lyrics that a line of the file becomes, when it becomes one:
/// a directive that is kept, or what is kept of a lyric line.
pub open spec fn lyric_on(line: Seq<char>) -> Option<Seq<char>> {
    match directive_of(trim(line)) {
        Some((name, value)) => if is_kept_directive(name) {
            Some(directive_text(name, value))
        } else {
            None
        },
        None => Some(kept_text(line)),
    }
}

pub open spec fn lyrics_on(ls: Seq<Seq<char>>) -> Seq<Seq<char>>
    decreases ls.len(),
{
    if ls.len() == 0 {
        seq![]
    } else {
        match lyric_on(ls.last()) {
            Some(l) => lyrics_on(ls.drop_last()).push(l),
            None => lyrics_on(ls.drop_last()),
        }
    }
}

/// A name that is kept starts with none of the names of the details.
spec fn is_section_name(name: Seq<char>) -> bool {
    &&& is_directive_name(name)
    &&& name[0] == 's' && (name.len() == 3 || name.len() >= 12) || name[0] == 'e' || name[0] == 'c'
        && name.len() != 4
}

proof fn lemma_section_names()
    ensures
        forall|i: int| 0 <= i < 21 ==> is_section_name(#[trigger] KEPT_DIRECTIVES@[i]@),
{
    reveal_strlit("start_of_chorus");
    reveal_strlit("soc");
    reveal_strlit("end_of_chorus");
    reveal_strlit("eoc");
    reveal_strlit("start_of_verse");
    reveal_strlit("sov");
    reveal_strlit("end_of_verse");
    reveal_strlit("eov");
    reveal_strlit("start_of_bridge");
    reveal_strlit("sob");
    reveal_strlit("end_of_bridge");
    reveal_strlit("eob");
    reveal_strlit("start_of_tab");
    reveal_strlit("sot");
    reveal_strlit("end_of_tab");
    reveal_strlit("eot");
    reveal_strlit("chorus");
    reveal_strlit("comment");
    reveal_strlit("c");
    reveal_strlit("comment_italic");
    reveal_strlit("ci");
    assert(is_section_name("start_of_chorus"@));
    assert(is_section_name("soc"@));
    assert(is_section_name("end_of_chorus"@));
    assert(is_section_name("eoc"@));
    assert(is_section_name("start_of_verse"@));
    assert(is_section_name("sov"@));
    assert(is_section_name("end_of_verse"@));
    assert(is_section_name("eov"@));
    assert(is_section_name("start_of_bridge"@));
    assert(is_section_name("sob"@));
    assert(is_section_name("end_of_bridge"@));
    assert(is_section_name("eob"@));
    assert(is_section_name("start_of_tab"@));
    assert(is_section_name("sot"@));
    assert(is_section_name("end_of_tab"@));
    assert(is_section_name("eot"@));
    assert(is_section_name("chorus"@));
    assert(is_section_name("comment"@));
    assert(is_section_name("c"@));
    assert(is_section_name("comment_italic"@));
    assert(is_section_name("ci"@));
    assert forall|i: int| 0 <= i < 21 implies is_section_name(#[trigger] KEPT_DIRECTIVES@[i]@) by {
        assert(i == 0 || i == 1 || i == 2 || i == 3 || i == 4 || i == 5 || i == 6 || i == 7 || i
            == 8 || i == 9 || i == 10 || i == 11 || i == 12 || i == 13 || i == 14 || i == 15 || i
            == 16 || i == 17 || i == 18 || i == 19 || i == 20);
    }
}

proof fn lemma_kept_name(name: Seq<char>)
    ensures
        is_kept_directive(name) ==> is_directive_name(name) && name != "new_song"@ && name != "ns"@
            && name != "title"@ && name != "t"@ && name != "subtitle"@ && name != "st"@ && name
            != "artist"@ && name != "key"@ && name != "tempo"@ && name != "capo"@ && name
            != "duration"@ && name != "time"@ && name != "album"@,
{
    lemma_section_names();
    reveal_strlit("new_song");
    reveal_strlit("ns");
    reveal_strlit("title");
    reveal_strlit("t");
    reveal_strlit("subtitle");
    reveal_strlit("st");
    reveal_strlit("artist");
    reveal_strlit("key");
    reveal_strlit("tempo");
    reveal_strlit("capo");
    reveal_strlit("duration");
    reveal_strlit("time");
    reveal_strlit("album");
    if is_kept_directive(name) {
        assert(is_section_name(name));
        assert("new_song"@[0] == 'n' && "ns"@[0] == 'n' && "title"@[0] == 't' && "t"@[0] == 't'
            && "artist"@[0] == 'a' && "key"@[0] == 'k' && "tempo"@[0] == 't' && "duration"@[0]
            == 'd' && "time"@[0] == 't' && "album"@[0] == 'a' && "subtitle"@[0] == 's' && "st"@[0]
            == 's' && "capo"@[0] == 'c');
        assert("subtitle"@.len() == 8 && "st"@.len() == 2 && "capo"@.len() == 4);
    }
}

proof fn lemma_body_line(d: Draft, raw: Seq<char>, number: int)
    ensures
        with_line(d, raw, number) matches Ok(next) ==> next.body == match lyric_on(raw) {
            Some(l) => d.body.push(l),
            None => d.body,
        },
{
    kept_text_depends_on_the_line_alone(raw, number, d.warnings);
    if let Some((name, value)) = directive_of(trim(raw)) {
        lemma_kept_name(name);
    }
}

proof fn lemma_body(d: Draft, ls: Seq<Seq<char>>, i: int)
    requires
        0 <= i <= ls.len(),
        d.body == lyrics_on(ls.take(i)),
    ensures
        with_lines(d, ls, i) matches Ok(end) ==> end.body == lyrics_on(ls),
    decreases ls.len() - i,
{
    if i < ls.len() {
        lemma_body_line(d, ls[i], i + 1);
        assert(ls.take(i + 1).drop_last() =~= ls.take(i));
        assert(ls.take(i + 1).last() == ls[i]);
        match with_line(d, ls[i], i + 1) {
            Ok(next) => lemma_body(next, ls, i + 1),
            Err(_) => {},
        }
    } else {
        assert(ls.take(i) =~= ls);
    }
}

/// The lyrics of an imported song are its lyric lines and the directives that
/// are kept, in the order of the file, tidied up: nothing that is said in them
/// gets lost, and no detail of the song is said in them.
pub proof fn imported_lyrics_are_the_lines_of_the_file(text: Seq<char>, given: Option<Seq<char>>)
    ensures
        song_in(text, given) matches Ok(song) ==> {
            let v = tidied(lyrics_on(split(text, '\n')));
            song.lyrics == if v.len() == 0 {
                None
            } else {
                Some(join(v, "\n"@))
            }
        },
{
    let ls = split(text, '\n');
    let none: Seq<Seq<char>> = seq![];
    assert(ls.take(0) =~= none);
    assert(lyrics_on(none) =~= none);
    lemma_body(empty_draft(), ls, 0);
}

/// The lines of the lyrics, without the blank ones that are too many.
pub open spec fn tidied(body: Seq<Seq<char>>) -> Seq<Seq<char>> {
    without_last_empty(collapsed(seq![], 0, body))
}

proof fn lemma_collapsed_behind(
    p: Seq<Seq<char>>,
    q: Seq<Seq<char>>,
    run: int,
    other: int,
    body: Seq<Seq<char>>,
)
    requires
        q.len() > 0 && run == other || q.len() == 0 && body.len() > 0 && !is_blank(body[0]),
    ensures
        collapsed(p + q, run, body) == p + collapsed(q, other, body),
    decreases body.len(),
{
    if body.len() > 0 {
        let none: Seq<char> = seq![];
        if is_blank(body[0]) {
            assert((p + q).push(none) =~= p + q.push(none));
            lemma_collapsed_behind(p, q, run + 1, other + 1, body.skip(1));
            lemma_collapsed_behind(p, q.push(none), run + 1, other + 1, body.skip(1));
        } else {
            assert((p + q).push(body[0]) =~= p + q.push(body[0]));
            lemma_collapsed_behind(p, q.push(body[0]), 0, 0, body.skip(1));
        }
    }
}

proof fn lemma_collapsed_both(
    done: Seq<Seq<char>>,
    run: int,
    a: Seq<Seq<char>>,
    rest: Seq<Seq<char>>,
)
    requires
        a.len() > 0,
        !is_blank(a.last()),
    ensures
        collapsed(done, run, a + rest) == collapsed(collapsed(done, run, a), 0, rest),
        collapsed(done, run, a).len() > 0,
        collapsed(done, run, a).last() == a.last(),
    decreases a.len(),
{
    let all = a + rest;
    assert(all[0] == a[0]);
    assert(all.skip(1) =~= a.skip(1) + rest);
    let none: Seq<char> = seq![];
    if a.len() == 1 {
        assert(a.skip(1) + rest =~= rest);
        let next = done.push(a[0]);
        assert(collapsed(next, 0, a.skip(1)) == next);
    } else {
        assert(a.skip(1).last() == a.last());
        if is_blank(a[0]) {
            lemma_collapsed_both(done, run + 1, a.skip(1), rest);
            lemma_collapsed_both(done.push(none), run + 1, a.skip(1), rest);
        } else {
            lemma_collapsed_both(done.push(a[0]), 0, a.skip(1), rest);
        }
    }
}

/// As many empty lines as are kept of `n` blank ones.
pub open spec fn room(n: nat) -> Seq<Seq<char>> {
    Seq::new(
        if n > 2 {
            2
        } else {
            n
        },
        |i: int| seq![],
    )
}

proof fn lemma_collapsed_blanks(
    done: Seq<Seq<char>>,
    run: int,
    blanks: Seq<Seq<char>>,
    rest: Seq<Seq<char>>,
)
    requires
        done.len() > 0,
        run >= 0,
        forall|i: int| 0 <= i < blanks.len() ==> is_blank(#[trigger] blanks[i]),
    ensures
        ({
            let left: nat = if run >= 2 {
                0
            } else if run + blanks.len() > 2 {
                (2 - run) as nat
            } else {
                blanks.len()
            };
            collapsed(done, run, blanks + rest) == collapsed(
                done + Seq::new(left, |i: int| Seq::<char>::empty()),
                run + blanks.len(),
                rest,
            )
        }),
    decreases blanks.len(),
{
    let none: Seq<char> = seq![];
    if blanks.len() == 0 {
        assert(blanks + rest =~= rest);
        assert(done + Seq::new(0, |i: int| Seq::<char>::empty()) =~= done);
    } else {
        let all = blanks + rest;
        assert(all[0] == blanks[0]);
        let more = blanks.skip(1);
        assert(all.skip(1) =~= more + rest);
        assert forall|i: int| 0 <= i < more.len() implies is_blank(#[trigger] more[i]) by {
            assert(more[i] == blanks[i + 1]);
        }
        assert(is_blank(blanks[0]));
        let left: nat = if run >= 2 {
            0
        } else if run + blanks.len() > 2 {
            (2 - run) as nat
        } else {
            blanks.len()
        };
        if run + 1 > 2 {
            lemma_collapsed_blanks(done, run + 1, more, rest);
        } else {
            lemma_collapsed_blanks(done.push(none), run + 1, more, rest);
            assert(done.push(none) + Seq::new(
                (left - 1) as nat,
                |i: int| Seq::<char>::empty(),
            ) =~= done + Seq::new(left, |i: int| Seq::<char>::empty()));
        }
    }
}

proof fn lemma_last_empty_behind(p: Seq<Seq<char>>, t: Seq<Seq<char>>)
    ensures
        without_last_empty(p + t) == if without_last_empty(t).len() > 0 {
            p + without_last_empty(t)
        } else {
            without_last_empty(p)
        },
    decreases t.len(),
{
    if t.len() == 0 {
        assert(p + t =~= p);
    } else {
        assert((p + t).last() == t.last());
        if t.last().len() == 0 {
            assert((p + t).drop_last() =~= p + t.drop_last());
            lemma_last_empty_behind(p, t.drop_last());
        }
    }
}

proof fn lemma_blank_is_empty(line: Seq<char>)
    ensures
        line.len() == 0 ==> is_blank(line),
{
    if line.len() == 0 {
        assert(trim(line) =~= line);
    }
}

/// Of blank lines between two lines, up to two are kept; what stands before
/// them and behind them is tidied up on its own. Blank lines at the start and at
/// the end go, and a line that says something stays as it is.
pub proof fn lines_stay_and_blank_lines_are_at_most_two(
    a: Seq<Seq<char>>,
    blanks: Seq<Seq<char>>,
    b: Seq<Seq<char>>,
    line: Seq<char>,
)
    requires
        a.len() > 0,
        !is_blank(a.last()),
        b.len() > 0,
        !is_blank(b[0]),
        forall|i: int| 0 <= i < blanks.len() ==> is_blank(#[trigger] blanks[i]),
    ensures
        tidied(a + (blanks + b)) == tidied(a) + room(blanks.len()) + tidied(b),
        tidied(a + blanks) == tidied(a),
        tidied(blanks + b) == tidied(b),
        !is_blank(line) ==> tidied(seq![line]) == seq![line],
{
    let none: Seq<Seq<char>> = seq![];
    lemma_collapsed_both(none, 0, a, blanks + b);
    lemma_collapsed_both(none, 0, a, blanks);
    let d = collapsed(none, 0, a);
    lemma_blank_is_empty(a.last());
    assert(tidied(a) == d);
    lemma_collapsed_blanks(d, 0, blanks, b);
    lemma_collapsed_blanks(d, 0, blanks, none);
    assert(blanks + none =~= blanks);
    let e = room(blanks.len());
    let left: nat = if blanks.len() > 2 {
        2
    } else {
        blanks.len()
    };
    assert(Seq::new(left, |i: int| Seq::<char>::empty()) =~= e);
    assert(collapsed(none, 0, a + blanks) == d + e);
    lemma_empties_go(d, e);
    assert((d + e) + none =~= d + e);
    lemma_collapsed_behind(d + e, none, blanks.len() as int, 0, b);
    let t = collapsed(none, 0, b);
    assert(collapsed(none, 0, a + (blanks + b)) == d + e + t);
    lemma_first_kept(b);
    lemma_last_empty_behind(d + e, t);
    lemma_leading_blanks(blanks, b, 0);
    if !is_blank(line) {
        lemma_blank_is_empty(line);
        let one = seq![line];
        assert(one.skip(1) =~= none);
        assert(none.push(line) =~= one);
        assert(collapsed(none.push(line), 0, one.skip(1)) == one);
    }
}

proof fn lemma_empties_go(d: Seq<Seq<char>>, e: Seq<Seq<char>>)
    requires
        d.len() > 0,
        d.last().len() > 0,
        forall|i: int| 0 <= i < e.len() ==> (#[trigger] e[i]).len() == 0,
    ensures
        without_last_empty(d + e) == d,
    decreases e.len(),
{
    if e.len() == 0 {
        assert(d + e =~= d);
    } else {
        assert((d + e).last() == e[e.len() - 1]);
        assert((d + e).drop_last() =~= d + e.drop_last());
        lemma_empties_go(d, e.drop_last());
    }
}

proof fn lemma_grows(done: Seq<Seq<char>>, run: int, body: Seq<Seq<char>>)
    ensures
        collapsed(done, run, body).len() >= done.len(),
        collapsed(done, run, body).take(done.len() as int) == done,
    decreases body.len(),
{
    let none: Seq<char> = seq![];
    if body.len() > 0 {
        if is_blank(body[0]) {
            if run + 1 > 2 || done.len() == 0 {
                lemma_grows(done, run + 1, body.skip(1));
            } else {
                lemma_grows(done.push(none), run + 1, body.skip(1));
                assert(collapsed(done, run, body).take(done.len() as int) =~= done.push(none).take(
                    done.len() as int,
                ));
                assert(done.push(none).take(done.len() as int) =~= done);
            }
        } else {
            lemma_grows(done.push(body[0]), 0, body.skip(1));
            assert(collapsed(done, run, body).take(done.len() as int) =~= done.push(body[0]).take(
                done.len() as int,
            ));
            assert(done.push(body[0]).take(done.len() as int) =~= done);
        }
    } else {
        assert(done.take(done.len() as int) =~= done);
    }
}

proof fn lemma_first_kept(b: Seq<Seq<char>>)
    requires
        b.len() > 0,
        !is_blank(b[0]),
    ensures
        tidied(b).len() > 0,
{
    let none: Seq<Seq<char>> = seq![];
    let one = none.push(b[0]);
    lemma_grows(one, 0, b.skip(1));
    let t = collapsed(none, 0, b);
    assert(t == collapsed(one, 0, b.skip(1)));
    assert(t.take(1)[0] == b[0]);
    assert(t[0] == b[0]);
    lemma_blank_is_empty(b[0]);
    lemma_not_all_empty(t);
}

proof fn lemma_not_all_empty(t: Seq<Seq<char>>)
    requires
        t.len() > 0,
        t[0].len() > 0,
    ensures
        without_last_empty(t).len() > 0,
    decreases t.len(),
{
    if t.last().len() == 0 {
        assert(t.drop_last()[0] == t[0]);
        lemma_not_all_empty(t.drop_last());
    }
}

proof fn lemma_leading_blanks(blanks: Seq<Seq<char>>, b: Seq<Seq<char>>, run: int)
    requires
        b.len() > 0,
        !is_blank(b[0]),
        forall|i: int| 0 <= i < blanks.len() ==> is_blank(#[trigger] blanks[i]),
    ensures
        collapsed(seq![], run, blanks + b) == collapsed(seq![], 0, b),
    decreases blanks.len(),
{
    let none: Seq<Seq<char>> = seq![];
    if blanks.len() == 0 {
        assert(blanks + b =~= b);
        assert(collapsed(none, run, b) == collapsed(none.push(b[0]), 0, b.skip(1)));
    } else {
        let all = blanks + b;
        let more = blanks.skip(1);
        assert(all[0] == blanks[0]);
        assert(is_blank(blanks[0]));
        assert(all.skip(1) =~= more + b);
        assert forall|i: int| 0 <= i < more.len() implies is_blank(#[trigger] more[i]) by {
            assert(more[i] == blanks[i + 1]);
        }
        lemma_leading_blanks(more, b, run + 1);
    }
}

} // verus!
