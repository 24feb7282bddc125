//! Lyrics as they are printed.

use crate::export::chords::{
    add_text, bracketed_text, chords_of, inline_from, inline_segments, is_chord_line,
    is_chord_symbol, lyric_text, merged, SegmentView,
};
use crate::export::lyrics::{
    bracket_heading, directive_parts, directive_view, lemma_steps_keep_blanks_apart,
    step, steps_from, takes_chords, without_last_blanks, LyricView, Step,
};
use crate::export::options::{ChordMode, PdfLocale};
use crate::text::{index_of, lemma_index_of, trim, words};
use vstd::prelude::*;

verus! {

// ---------------------------------------------------------------------
// Inline chords
// ---------------------------------------------------------------------

proof fn lemma_nothing()
    ensures
        lyric_text(seq![]) == Seq::<char>::empty(),
        bracketed_text(seq![]) == Seq::<char>::empty(),
        chords_of(seq![]) == Seq::<Seq<char>>::empty(),
{
}

proof fn lemma_segment_added(s: Seq<SegmentView>, one: SegmentView)
    ensures
        lyric_text(s.push(one)) == lyric_text(s) + one.1,
        bracketed_text(s.push(one)) == bracketed_text(s) + (match one.0 {
            Some(chord) => "["@ + chord + "]"@,
            None => seq![],
        }) + one.1,
        chords_of(s.push(one)) == match one.0 {
            Some(chord) => chords_of(s).push(chord),
            None => chords_of(s),
        },
{
    assert(s.push(one).drop_last() =~= s);
}

proof fn lemma_text_added(s: Seq<SegmentView>, text: Seq<char>)
    requires
        s.len() > 0,
    ensures
        lyric_text(add_text(s, text)) == lyric_text(s) + text,
        bracketed_text(add_text(s, text)) == bracketed_text(s) + text,
        chords_of(add_text(s, text)) == chords_of(s),
        add_text(s, text).len() == s.len(),
{
    let t = add_text(s, text);
    assert(t.drop_last() =~= s.drop_last());
    assert(lyric_text(t) =~= lyric_text(s) + text);
    assert(bracketed_text(t) =~= bracketed_text(s) + text);
}

/// What is read of a line says the same behind other segments.
proof fn lemma_inline_behind(s: Seq<SegmentView>, rest: Seq<char>)
    requires
        s.len() > 0,
    ensures
        ({
            let alone = inline_from(seq![(None, seq![])], rest);
            let all = inline_from(s, rest);
            &&& lyric_text(all) == lyric_text(s) + lyric_text(alone)
            &&& bracketed_text(all) == bracketed_text(s) + bracketed_text(alone)
            &&& chords_of(all) == chords_of(s) + chords_of(alone)
        }),
    decreases rest.len(),
{
    let empty: SegmentView = (None, seq![]);
    let start = seq![empty];
    lemma_nothing();
    assert(start.drop_last() =~= seq![]);
    assert(lyric_text(start) =~= seq![]);
    assert(bracketed_text(start) =~= seq![]);
    assert(chords_of(start) =~= seq![]);
    lemma_index_of(rest, '[');
    let open = index_of(rest, '[');
    lemma_index_of(rest.skip(open), ']');
    let close = open + index_of(rest.skip(open), ']');
    lemma_text_added(s, rest.take(open));
    lemma_text_added(start, rest.take(open));
    if open == rest.len() || close == rest.len() {
        lemma_text_added(s, rest);
        lemma_text_added(start, rest);
        assert(lyric_text(inline_from(s, rest)) =~= lyric_text(s) + lyric_text(
            inline_from(start, rest),
        ));
        assert(bracketed_text(inline_from(s, rest)) =~= bracketed_text(s) + bracketed_text(
            inline_from(start, rest),
        ));
        assert(chords_of(s) + chords_of(inline_from(start, rest)) =~= chords_of(s));
    } else {
        let inner = rest.subrange(open + 1, close);
        let whole = rest.subrange(open, close + 1);
        let a = add_text(s, rest.take(open));
        let b = add_text(start, rest.take(open));
        let chord: SegmentView = (Some(trim(inner)), seq![]);
        lemma_segment_added(a, chord);
        lemma_segment_added(b, chord);
        lemma_text_added(a, whole);
        lemma_text_added(b, whole);
        let (na, nb) = if is_chord_symbol(inner) {
            (a.push(chord), b.push(chord))
        } else {
            (add_text(a, whole), add_text(b, whole))
        };
        let tail = rest.skip(close + 1);
        lemma_inline_behind(na, tail);
        lemma_inline_behind(nb, tail);
        let alone = inline_from(start, tail);
        assert(lyric_text(s) + (lyric_text(nb) + lyric_text(alone)) =~= lyric_text(na)
            + lyric_text(alone));
        assert(bracketed_text(s) + (bracketed_text(nb) + bracketed_text(alone))
            =~= bracketed_text(na) + bracketed_text(alone));
        assert(chords_of(s) + (chords_of(nb) + chords_of(alone)) =~= chords_of(na) + chords_of(
            alone,
        ));
    }
}

proof fn lemma_first_dropped(line: Seq<char>)
    ensures
        ({
            let s = inline_from(seq![(None, seq![])], line);
            &&& lyric_text(inline_segments(line)) == lyric_text(s)
            &&& bracketed_text(inline_segments(line)) == bracketed_text(s)
            &&& chords_of(inline_segments(line)) == chords_of(s)
        }),
{
    let s = inline_from(seq![(None, seq![])], line);
    if s.len() > 1 && s[0].0 is None && s[0].1.len() == 0 {
        lemma_skip_empty(s);
    }
}

proof fn lemma_skip_empty(s: Seq<SegmentView>)
    requires
        s.len() >= 1,
        s[0].0 is None,
        s[0].1.len() == 0,
    ensures
        lyric_text(s.skip(1)) == lyric_text(s),
        bracketed_text(s.skip(1)) == bracketed_text(s),
        chords_of(s.skip(1)) == chords_of(s),
    decreases s.len(),
{
    if s.len() > 1 {
        lemma_skip_empty(s.drop_last());
        assert(s.skip(1).drop_last() =~= s.drop_last().skip(1));
        assert(s.skip(1).last() == s.last());
    } else {
        let none: Seq<SegmentView> = seq![];
        lemma_nothing();
        assert(s.skip(1) =~= none);
        assert(s.drop_last() =~= none);
        assert(lyric_text(s) =~= seq![]);
        assert(bracketed_text(s) =~= seq![]);
    }
}

/// A line is read from bracket to bracket. Text in brackets that is a chord is
/// taken out of the lyric and becomes a chord there; any other text in brackets
/// stays lyric text, as does all that stands outside.
pub proof fn inline_chords_are_read_bracket_by_bracket(
    before: Seq<char>,
    inner: Seq<char>,
    behind: Seq<char>,
)
    requires
        !before.contains('['),
        !inner.contains(']'),
    ensures
        ({
            let line = before + seq!['['] + inner + seq![']'] + behind;
            let s = inline_segments(line);
            let rest = inline_segments(behind);
            if is_chord_symbol(inner) {
                &&& lyric_text(s) == before + lyric_text(rest)
                &&& chords_of(s) == seq![trim(inner)] + chords_of(rest)
                &&& bracketed_text(s) == before + seq!['['] + trim(inner) + seq![']']
                    + bracketed_text(rest)
            } else {
                &&& lyric_text(s) == before + seq!['['] + inner + seq![']'] + lyric_text(rest)
                &&& chords_of(s) == chords_of(rest)
                &&& bracketed_text(s) == before + seq!['['] + inner + seq![']'] + bracketed_text(
                    rest,
                )
            }
        }),
{
    reveal_strlit("[");
    reveal_strlit("]");
    assert("["@ =~= seq!['[']);
    assert("]"@ =~= seq![']']);
    let line = before + seq!['['] + inner + seq![']'] + behind;
    let empty: SegmentView = (None, seq![]);
    let start = seq![empty];
    lemma_nothing();
    assert(start.drop_last() =~= seq![]);
    assert(lyric_text(start) =~= seq![]);
    assert(bracketed_text(start) =~= seq![]);
    assert(chords_of(start) =~= seq![]);
    let n = before.len() as int;
    let m = inner.len() as int;
    lemma_index_of(line, '[');
    let open = index_of(line, '[');
    assert(line[n] == '[');
    assert(open == n) by {
        if open < n {
            assert(line[open] == before[open]);
        }
    }
    let tail = line.skip(open);
    lemma_index_of(tail, ']');
    let k = index_of(tail, ']');
    assert(tail[m + 1] == ']');
    assert(k == m + 1) by {
        if k < m + 1 {
            assert(tail[k] == ']');
            if k > 0 {
                assert(tail[k] == inner[k - 1]);
            }
        }
    }
    let close = open + k;
    assert(line.subrange(open + 1, close) =~= inner);
    assert(line.take(open) =~= before);
    assert(line.skip(close + 1) =~= behind);
    let whole = line.subrange(open, close + 1);
    assert(whole =~= seq!['['] + inner + seq![']']);
    let a = add_text(start, before);
    lemma_text_added(start, before);
    let chord: SegmentView = (Some(trim(inner)), seq![]);
    lemma_segment_added(a, chord);
    lemma_text_added(a, whole);
    let next = if is_chord_symbol(inner) {
        a.push(chord)
    } else {
        add_text(a, whole)
    };
    assert(inline_from(start, line) == inline_from(next, behind));
    lemma_inline_behind(next, behind);
    lemma_first_dropped(line);
    lemma_first_dropped(behind);
    let rest = inline_segments(behind);
    if is_chord_symbol(inner) {
        assert(lyric_text(next) =~= before);
        assert(bracketed_text(next) + bracketed_text(rest) =~= before + seq!['['] + trim(inner)
            + seq![']'] + bracketed_text(rest));
        assert(chords_of(next) =~= seq![trim(inner)]);
    } else {
        assert(lyric_text(next) + lyric_text(rest) =~= before + seq!['['] + inner + seq![']']
            + lyric_text(rest));
        assert(bracketed_text(next) + bracketed_text(rest) =~= before + seq!['['] + inner + seq![
            ']',
        ] + bracketed_text(rest));
        assert(chords_of(next) + chords_of(rest) =~= chords_of(rest));
    }
}

/// A line without a pair of brackets is lyric text as it is, without a chord.
pub proof fn lines_without_brackets_are_lyrics(line: Seq<char>)
    requires
        !line.contains('[') || !line.contains(']'),
    ensures
        inline_segments(line) == seq![(None::<Seq<char>>, line)],
{
    let empty: SegmentView = (None, seq![]);
    let start = seq![empty];
    lemma_index_of(line, '[');
    let open = index_of(line, '[');
    lemma_index_of(line.skip(open), ']');
    let k = index_of(line.skip(open), ']');
    if open < line.len() {
        assert(line[open] == '[');
        assert(line.contains('['));
        if k < line.skip(open).len() {
            assert(line[open + k] == ']');
            assert(line.contains(']'));
        }
    }
    assert(Seq::<char>::empty() + line =~= line);
    assert(add_text(start, line) =~= seq![(None::<Seq<char>>, line)]);
}

// ---------------------------------------------------------------------
// One line
// ---------------------------------------------------------------------

/// A line that is none of a blank line, a remark, a directive, a heading in
/// brackets or a line of chords is lyrics: with its chords above them, with its
/// chords in brackets, or without them.
pub proof fn lyrics_are_printed_in_their_mode(
    line: Seq<char>,
    next: Option<Seq<char>>,
    locale: PdfLocale,
)
    requires
        trim(line).len() > 0,
        trim(line)[0] != '#',
        trim(line)[0] != '{',
        bracket_heading(trim(line)) is None,
        !is_chord_line(trim(line)),
    ensures
        step(line, next, ChordMode::Above, locale) == Step::Line(
            LyricView::Segments(inline_segments(line)),
        ),
        step(line, next, ChordMode::Inline, locale) == Step::Line(
            LyricView::Segments(
                seq![(None::<Seq<char>>, bracketed_text(inline_segments(line)))],
            ),
        ),
        step(line, next, ChordMode::Hide, locale) == Step::Line(
            LyricView::Segments(seq![(None::<Seq<char>>, lyric_text(inline_segments(line)))]),
        ),
{
    crate::text::lemma_trim_twice(line);
    assert(directive_parts(trim(line)) is None);
}

/// A line of chords over a line of lyrics is printed with it, as one: above it,
/// or in brackets; when chords are hidden it is left out.
pub proof fn chord_lines_go_with_the_lyrics_below(
    line: Seq<char>,
    next: Option<Seq<char>>,
    locale: PdfLocale,
)
    requires
        is_chord_line(trim(line)),
        trim(line).len() > 0,
        trim(line)[0] != '#',
        trim(line)[0] != '{',
        bracket_heading(trim(line)) is None,
    ensures
        step(line, next, ChordMode::Hide, locale) == Step::Skip,
        next is Some && takes_chords(next->0) ==> step(line, next, ChordMode::Above, locale)
            == Step::Pair(LyricView::Segments(merged(line, next->0))) && step(
            line,
            next,
            ChordMode::Inline,
            locale,
        ) == Step::Pair(
            LyricView::Segments(seq![(None::<Seq<char>>, bracketed_text(merged(line, next->0)))]),
        ),
        next is None || !takes_chords(next->0) ==> {
            &&& step(line, next, ChordMode::Inline, locale) == Step::Line(
                LyricView::Segments(seq![(None::<Seq<char>>, trim(line))]),
            )
            &&& step(line, next, ChordMode::Above, locale) matches Step::Line(
                LyricView::Segments(s),
            ) && chords_of(s) == words(trim(line)) && trim(lyric_text(s)).len() == 0
        },
{
    crate::text::lemma_trim_twice(line);
    assert(directive_parts(trim(line)) is None);
    let w = words(trim(line));
    let s = crate::export::lyrics::lone_chords(trim(line));
    lemma_lone(s, w);
}

proof fn lemma_lone(s: Seq<SegmentView>, w: Seq<Seq<char>>)
    requires
        s.len() == w.len(),
        forall|i: int| 0 <= i < s.len() ==> #[trigger] s[i] == (Some(w[i]), "    "@),
    ensures
        chords_of(s) == w,
        forall|i: int| 0 <= i < lyric_text(s).len() ==> #[trigger] lyric_text(s)[i] == ' ',
        trim(lyric_text(s)).len() == 0,
    decreases s.len(),
{
    reveal_strlit("    ");
    if s.len() > 0 {
        lemma_lone(s.drop_last(), w.drop_last());
        assert(s.last() == (Some(w.last()), "    "@));
        assert(w.drop_last().push(w.last()) =~= w);
        let a = lyric_text(s.drop_last());
        assert forall|i: int| 0 <= i < lyric_text(s).len() implies #[trigger] lyric_text(s)[i]
            == ' ' by {
            if i < a.len() {
                assert(lyric_text(s)[i] == a[i]);
            }
        }
    } else {
        assert(chords_of(s) =~= w);
    }
    let t = lyric_text(s);
    crate::text::lemma_trim_start(t);
    let u = crate::text::trim_start(t);
    if u.len() > 0 {
        assert(u[0] == t[t.len() - u.len()]);
    }
}

/// A remark is not printed; a line of blanks is a blank line; a name in brackets
/// that is no chord is a heading, in every mode.
pub proof fn remarks_blanks_and_headings(
    line: Seq<char>,
    next: Option<Seq<char>>,
    mode: ChordMode,
    locale: PdfLocale,
)
    ensures
        trim(line).len() == 0 ==> step(line, next, mode, locale) == Step::Blank,
        trim(line).len() > 0 && trim(line)[0] == '#' ==> step(line, next, mode, locale)
            == Step::Skip,
        trim(line).len() >= 2 && trim(line)[0] == '[' && trim(line).last() == ']' && !trim(
            line,
        ).subrange(1, trim(line).len() - 1).contains('[') && !is_chord_symbol(
            trim(line).subrange(1, trim(line).len() - 1),
        ) ==> step(line, next, mode, locale) == Step::Line(
            LyricView::Heading(trim(trim(line).subrange(1, trim(line).len() - 1))),
        ),
{
    crate::text::lemma_trim_twice(line);
}

/// What a section is called where its directive gives no name.
pub open spec fn section_words(locale: PdfLocale) -> (Seq<char>, Seq<char>, Seq<char>) {
    match locale {
        PdfLocale::En => ("Chorus"@, "Verse"@, "Bridge"@),
        PdfLocale::PtBr => ("Refrão"@, "Verso"@, "Ponte"@),
        PdfLocale::Es => ("Estribillo"@, "Verso"@, "Puente"@),
    }
}

/// A heading with its own words, where there are any, or those of its section.
pub open spec fn titled(value: Seq<char>, word: Seq<char>) -> LyricView {
    LyricView::Heading(
        if value.len() > 0 {
            value
        } else {
            word
        },
    )
}

/// A section starts with its name, or with the word for it in the language of
/// the sheet; comments are printed unless they are empty; no other directive
/// is printed.
pub proof fn directives_print_sections_and_comments(
    name: Seq<char>,
    value: Seq<char>,
    locale: PdfLocale,
)
    ensures
        ({
            let v = directive_view(name, value, locale);
            let (chorus, verse, bridge) = section_words(locale);
            let comment = if value.len() > 0 {
                Some(LyricView::Comment(value))
            } else {
                None
            };
            &&& name == "soc"@ || name == "start_of_chorus"@ || name == "chorus"@ ==> v == Some(
                titled(value, chorus),
            )
            &&& name == "sov"@ || name == "start_of_verse"@ ==> v == Some(
                titled(value, verse),
            )
            &&& name == "sob"@ || name == "start_of_bridge"@ ==> v == Some(
                titled(value, bridge),
            )
            &&& name == "c"@ || name == "comment"@ || name == "ci"@ || name == "comment_italic"@
                || name == "cb"@ || name == "comment_box"@ || name == "highlight"@ ==> v == comment
            &&& v is Some ==> v->0 is Heading || v == comment
        }),
{
    reveal_strlit("c");
    reveal_strlit("comment");
    reveal_strlit("ci");
    reveal_strlit("comment_italic");
    reveal_strlit("cb");
    reveal_strlit("comment_box");
    reveal_strlit("highlight");
    reveal_strlit("soc");
    reveal_strlit("start_of_chorus");
    reveal_strlit("chorus");
    reveal_strlit("sov");
    reveal_strlit("start_of_verse");
    reveal_strlit("sob");
    reveal_strlit("start_of_bridge");
    assert("soc"@[0] == 's' && "sov"@[2] == 'v' && "sob"@[2] == 'b' && "soc"@[2] == 'c');
    assert("start_of_verse"@[0] == 's' && "comment_italic"@[0] == 'c');
    assert("start_of_chorus"@.len() == 15 && "start_of_bridge"@.len() == 15);
    assert("start_of_chorus"@[9] == 'c' && "start_of_bridge"@[9] == 'b');
    assert("chorus"@.len() == 6);
    assert("start_of_verse"@ != "comment_italic"@);
    assert("start_of_chorus"@ != "start_of_bridge"@);
    assert("soc"@ != "sov"@ && "soc"@ != "sob"@ && "sov"@ != "sob"@);
    assert("c"@.len() == 1 && "comment"@.len() == 7 && "ci"@.len() == 2 && "cb"@.len() == 2
        && "comment_italic"@.len() == 14 && "comment_box"@.len() == 11 && "highlight"@.len() == 9);
    assert("soc"@.len() == 3 && "sov"@.len() == 3 && "sob"@.len() == 3 && "start_of_verse"@.len()
        == 14);
}

// ---------------------------------------------------------------------
// All lines
// ---------------------------------------------------------------------

/// The printed lines that say something.
pub open spec fn saying(v: Seq<LyricView>) -> Seq<LyricView>
    decreases v.len(),
{
    if v.len() == 0 {
        seq![]
    } else if v.last() == LyricView::Blank {
        saying(v.drop_last())
    } else {
        saying(v.drop_last()).push(v.last())
    }
}

proof fn lemma_saying_push(v: Seq<LyricView>, l: LyricView)
    ensures
        saying(v.push(l)) == if l == LyricView::Blank {
            saying(v)
        } else {
            saying(v).push(l)
        },
{
    assert(v.push(l).drop_last() =~= v);
}

proof fn lemma_said_line(
    out: Seq<LyricView>,
    l: LyricView,
    ls: Seq<Seq<char>>,
    i: int,
    mode: ChordMode,
    locale: PdfLocale,
)
    ensures
        saying(steps_from(out.push(l), ls, i, mode, locale)) == saying(out) + saying(
            steps_from(seq![].push(l), ls, i, mode, locale),
        ),
    decreases ls.len() - i, 1int,
{
    let none: Seq<LyricView> = seq![];
    assert(saying(none) =~= none);
    lemma_saying_push(out, l);
    lemma_saying_push(none, l);
    lemma_saying_behind(out.push(l), ls, i, mode, locale);
    lemma_saying_behind(none.push(l), ls, i, mode, locale);
    let rest = saying(steps_from(none, ls, i, mode, locale));
    assert(saying(out.push(l)) + rest =~= saying(out) + (saying(none.push(l)) + rest));
}

proof fn lemma_saying_behind(
    out: Seq<LyricView>,
    ls: Seq<Seq<char>>,
    i: int,
    mode: ChordMode,
    locale: PdfLocale,
)
    ensures
        saying(steps_from(out, ls, i, mode, locale)) == saying(out) + saying(
            steps_from(seq![], ls, i, mode, locale),
        ),
    decreases ls.len() - i, 0int,
{
    let none: Seq<LyricView> = seq![];
    assert(saying(none) =~= none);
    if i < 0 || i >= ls.len() {
        assert(saying(out) + saying(none) =~= saying(out));
    } else {
        let next = if i + 1 < ls.len() {
            Some(ls[i + 1])
        } else {
            None
        };
        match step(ls[i], next, mode, locale) {
            Step::Skip => {
                lemma_saying_behind(out, ls, i + 1, mode, locale);
            },
            Step::Blank => {
                lemma_saying_push(out, LyricView::Blank);
                lemma_saying_behind(out, ls, i + 1, mode, locale);
                lemma_saying_behind(out.push(LyricView::Blank), ls, i + 1, mode, locale);
            },
            Step::Line(l) => {
                lemma_said_line(out, l, ls, i + 1, mode, locale);
            },
            Step::Pair(l) => {
                lemma_said_line(out, l, ls, i + 2, mode, locale);
            },
        }
    }
}

/// What the lines from `i` on say.
pub open spec fn said_from(
    ls: Seq<Seq<char>>,
    i: int,
    mode: ChordMode,
    locale: PdfLocale,
) -> Seq<LyricView> {
    saying(steps_from(seq![], ls, i, mode, locale))
}

/// Lines are printed in their order, and none is lost: what the lines from some
/// line on say is what that line says, then what the lines below it say. A line
/// of chords that goes with the line below it is printed with it.
pub proof fn lines_are_printed_in_their_order(
    ls: Seq<Seq<char>>,
    i: int,
    mode: ChordMode,
    locale: PdfLocale,
)
    requires
        0 <= i < ls.len(),
    ensures
        ({
            let next = if i + 1 < ls.len() {
                Some(ls[i + 1])
            } else {
                None
            };
            match step(ls[i], next, mode, locale) {
                Step::Skip => said_from(ls, i, mode, locale) == said_from(ls, i + 1, mode, locale),
                Step::Blank => said_from(ls, i, mode, locale) == said_from(ls, i + 1, mode, locale),
                Step::Line(l) => l != LyricView::Blank ==> said_from(ls, i, mode, locale) == seq![l]
                    + said_from(ls, i + 1, mode, locale),
                Step::Pair(l) => l != LyricView::Blank ==> said_from(ls, i, mode, locale) == seq![l]
                    + said_from(ls, i + 2, mode, locale),
            }
        }),
        said_from(ls, ls.len() as int, mode, locale).len() == 0,
{
    let none: Seq<LyricView> = seq![];
    let next = if i + 1 < ls.len() {
        Some(ls[i + 1])
    } else {
        None
    };
    match step(ls[i], next, mode, locale) {
        Step::Line(l) => {
            lemma_saying_behind(none.push(l), ls, i + 1, mode, locale);
            lemma_saying_push(none, l);
            assert(none.push(l) =~= seq![l]);
        },
        Step::Pair(l) => {
            lemma_saying_behind(none.push(l), ls, i + 2, mode, locale);
            lemma_saying_push(none, l);
            assert(none.push(l) =~= seq![l]);
        },
        _ => {},
    }
}

/// The lines as they are printed.
pub open spec fn printed(ls: Seq<Seq<char>>, mode: ChordMode, locale: PdfLocale) -> Seq<LyricView> {
    without_last_blanks(steps_from(seq![], ls, 0, mode, locale))
}

proof fn lemma_steps_behind_blank(
    p: Seq<LyricView>,
    q: Seq<LyricView>,
    a: Seq<Seq<char>>,
    b: Seq<Seq<char>>,
    i: int,
    mode: ChordMode,
    locale: PdfLocale,
)
    requires
        p.len() == 0 || p.last() == LyricView::Blank,
        0 <= i,
    ensures
        steps_from(p + q, a + b, a.len() + i, mode, locale) == p + steps_from(
            q,
            b,
            i,
            mode,
            locale,
        ),
    decreases b.len() - i,
{
    let all = a + b;
    let k = a.len() + i;
    if i < b.len() {
        assert(all[k] == b[i]);
        let next = if i + 1 < b.len() {
            Some(b[i + 1])
        } else {
            None
        };
        if i + 1 < b.len() {
            assert(all[k + 1] == b[i + 1]);
        }
        match step(b[i], next, mode, locale) {
            Step::Skip => {
                lemma_steps_behind_blank(p, q, a, b, i + 1, mode, locale);
            },
            Step::Blank => {
                if q.len() > 0 {
                    assert((p + q).last() == q.last());
                } else {
                    assert(p + q =~= p);
                }
                assert((p + q).push(LyricView::Blank) =~= p + q.push(LyricView::Blank));
                lemma_steps_behind_blank(p, q, a, b, i + 1, mode, locale);
                lemma_steps_behind_blank(p, q.push(LyricView::Blank), a, b, i + 1, mode, locale);
            },
            Step::Line(l) => {
                assert((p + q).push(l) =~= p + q.push(l));
                lemma_steps_behind_blank(p, q.push(l), a, b, i + 1, mode, locale);
            },
            Step::Pair(l) => {
                assert((p + q).push(l) =~= p + q.push(l));
                lemma_steps_behind_blank(p, q.push(l), a, b, i + 2, mode, locale);
            },
        }
    }
}

proof fn lemma_steps_up_to_blank(
    out: Seq<LyricView>,
    a: Seq<Seq<char>>,
    blank: Seq<char>,
    b: Seq<Seq<char>>,
    i: int,
    mode: ChordMode,
    locale: PdfLocale,
)
    requires
        trim(blank).len() == 0,
        0 <= i <= a.len(),
    ensures
        steps_from(out, a + seq![blank] + b, i, mode, locale) == steps_from(
            steps_from(out, a, i, mode, locale),
            a + seq![blank] + b,
            a.len() as int,
            mode,
            locale,
        ),
    decreases a.len() - i,
{
    let all = a + seq![blank] + b;
    if i < a.len() {
        assert(all[i] == a[i]);
        let next = if i + 1 < a.len() {
            Some(a[i + 1])
        } else {
            None
        };
        assert(all[i + 1] == if i + 1 < a.len() {
            a[i + 1]
        } else {
            blank
        });
        assert(step(all[i], Some(all[i + 1]), mode, locale) == step(a[i], next, mode, locale));
        match step(a[i], next, mode, locale) {
            Step::Skip => {
                lemma_steps_up_to_blank(out, a, blank, b, i + 1, mode, locale);
            },
            Step::Blank => {
                lemma_steps_up_to_blank(out, a, blank, b, i + 1, mode, locale);
                lemma_steps_up_to_blank(
                    out.push(LyricView::Blank),
                    a,
                    blank,
                    b,
                    i + 1,
                    mode,
                    locale,
                );
            },
            Step::Line(l) => {
                lemma_steps_up_to_blank(out.push(l), a, blank, b, i + 1, mode, locale);
            },
            Step::Pair(l) => {
                lemma_steps_up_to_blank(out.push(l), a, blank, b, i + 2, mode, locale);
            },
        }
    }
}

proof fn lemma_last_blanks_behind(p: Seq<LyricView>, t: Seq<LyricView>)
    ensures
        without_last_blanks(p + t) == if without_last_blanks(t).len() > 0 {
            p + without_last_blanks(t)
        } else {
            without_last_blanks(p)
        },
    decreases t.len(),
{
    if t.len() == 0 {
        assert(p + t =~= p);
    } else {
        assert((p + t).last() == t.last());
        if t.last() == LyricView::Blank {
            assert((p + t).drop_last() =~= p + t.drop_last());
            lemma_last_blanks_behind(p, t.drop_last());
        }
    }
}

/// Stanzas stay apart: lines, a blank line and more lines are printed as the
/// first, one blank line, and the others.
pub proof fn stanzas_stay_apart(
    a: Seq<Seq<char>>,
    blank: Seq<char>,
    b: Seq<Seq<char>>,
    mode: ChordMode,
    locale: PdfLocale,
)
    requires
        trim(blank).len() == 0,
    ensures
        printed(a + seq![blank] + b, mode, locale) == if printed(a, mode, locale).len() == 0 {
            printed(b, mode, locale)
        } else if printed(b, mode, locale).len() == 0 {
            printed(a, mode, locale)
        } else {
            printed(a, mode, locale) + seq![LyricView::Blank] + printed(b, mode, locale)
        },
{
    let none: Seq<LyricView> = seq![];
    let all = a + seq![blank] + b;
    let front = a + seq![blank];
    let n = a.len() as int;
    let out = steps_from(none, a, 0, mode, locale);
    lemma_steps_up_to_blank(none, a, blank, b, 0, mode, locale);
    assert(all[n] == blank);
    lemma_steps_keep_blanks_apart(none, a, 0, mode, locale);
    let p = before_stanza(out);
    lemma_blank_line(out, all, n, mode, locale);
    assert(all =~= front + b);
    assert(p + none =~= p);
    lemma_steps_behind_blank(p, none, front, b, 0, mode, locale);
    let t = steps_from(none, b, 0, mode, locale);
    lemma_last_blanks_behind(p, t);
    lemma_before_stanza(out);
    if out.len() == 0 {
        assert(none + without_last_blanks(t) =~= without_last_blanks(t));
    }
}

/// `out` with a blank line at its end, unless it is empty or has one.
spec fn before_stanza(out: Seq<LyricView>) -> Seq<LyricView> {
    if out.len() > 0 && out.last() != LyricView::Blank {
        out.push(LyricView::Blank)
    } else {
        out
    }
}

proof fn lemma_blank_line(
    out: Seq<LyricView>,
    all: Seq<Seq<char>>,
    n: int,
    mode: ChordMode,
    locale: PdfLocale,
)
    requires
        0 <= n < all.len(),
        trim(all[n]).len() == 0,
    ensures
        steps_from(out, all, n, mode, locale) == steps_from(
            before_stanza(out),
            all,
            n + 1,
            mode,
            locale,
        ),
{
}

proof fn lemma_before_stanza(out: Seq<LyricView>)
    requires
        crate::export::lyrics::blanks_apart(out),
    ensures
        without_last_blanks(before_stanza(out)) == without_last_blanks(out),
        out.len() == 0 <==> without_last_blanks(out).len() == 0,
        out.len() > 0 ==> before_stanza(out) == without_last_blanks(out) + seq![LyricView::Blank],
        out.len() == 0 ==> before_stanza(out) == out,
        out.len() > 0 ==> before_stanza(out).last() == LyricView::Blank,
{
    let shown = without_last_blanks(out);
    let p = before_stanza(out);
    if out.len() > 0 {
        if out.last() == LyricView::Blank {
            let m = out.len() - 1;
            assert(out[m] == LyricView::Blank);
            assert(m > 0 && out[m - 1] != LyricView::Blank);
            assert(out.drop_last().last() == out[m - 1]);
            assert(without_last_blanks(out.drop_last()) == out.drop_last());
            assert(shown == out.drop_last());
            assert(p =~= shown + seq![LyricView::Blank]);
        } else {
            assert(shown == out);
            assert(p =~= shown + seq![LyricView::Blank]);
            assert(p.drop_last() =~= out);
        }
    }
}

} // verus!
