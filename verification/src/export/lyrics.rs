//! Lyrics as printable lines.

use crate::export::chords::{
    bracketed_text, inline_chords, inline_segments, is_chord, is_chord_line, is_chord_only_line,
    is_chord_symbol, lemma_segments_push, lyric_text, merge_chord_line, merged, parse_inline_chords, segment, segments,
    strip_chords, ChordSegment, SegmentView,
};
use crate::export::options::{labels_of, ChordMode, PdfLocale};
use crate::text::{
    chars, end_trimmed, find_char, has_char, in_lower_case, index_of, lemma_index_of, lemma_texts_push,
    lemma_trim_twice, lines, lines_of, lower_case, piece, same, texts, trim, trim_end, trimmed, words, words_of,
};
use vstd::prelude::*;

verus! {

#[derive(Debug, Clone, PartialEq)]
pub enum LyricLine {
    Heading(String),
    Comment(String),
    Segments(Vec<ChordSegment>),
    Blank,
}

/// What a lyric line says.
pub ghost enum LyricView {
    Heading(Seq<char>),
    Comment(Seq<char>),
    Segments(Seq<SegmentView>),
    Blank,
}

impl View for LyricLine {
    type V = LyricView;

    open spec fn view(&self) -> LyricView {
        match self {
            LyricLine::Heading(t) => LyricView::Heading(t@),
            LyricLine::Comment(t) => LyricView::Comment(t@),
            LyricLine::Segments(s) => LyricView::Segments(segments(s@)),
            LyricLine::Blank => LyricView::Blank,
        }
    }
}

pub open spec fn lyric_views(v: Seq<LyricLine>) -> Seq<LyricView> {
    Seq::new(v.len(), |i: int| v[i]@)
}

// ---------------------------------------------------------------------
// Directives
// ---------------------------------------------------------------------

/// The first position of `c`, or the length when there is none, splits a text
/// in what stands before it and what stands behind it.
pub open spec fn split_once(s: Seq<char>, c: char) -> (Seq<char>, Seq<char>) {
    let i = index_of(s, c);
    if i < s.len() {
        (s.take(i), s.skip(i + 1))
    } else {
        (s, seq![])
    }
}

/// What stands between `open` and `close`, when the text starts with the one
/// and ends with the other.
pub open spec fn enclosed(s: Seq<char>, open: char, close: char) -> Option<Seq<char>> {
    if s.len() >= 2 && s[0] == open && s.last() == close {
        Some(s.subrange(1, s.len() - 1))
    } else {
        None
    }
}

/// The name and the value of a `{name: value}` line.
pub open spec fn directive_parts(line: Seq<char>) -> Option<(Seq<char>, Seq<char>)> {
    match enclosed(trim(line), '{', '}') {
        Some(inner) => {
            let (name, value) = split_once(inner, ':');
            Some((lower_case(trim(name)), trim(value)))
        },
        None => None,
    }
}

/// What stands between `open` and `close`.
pub fn inside(s: &str, open: char, close: char) -> (r: Option<String>)
    ensures
        match r {
            Some(t) => enclosed(s@, open, close) == Some(t@),
            None => enclosed(s@, open, close) is None,
        },
{
    let v = chars(s);
    let n = v.len();
    if n >= 2 && v[0] == open && v[n - 1] == close {
        Some(piece(&v, 1, n - 1))
    } else {
        None
    }
}

/// The name (in lower case) and the value of a `{name: value}` line.
pub fn directive(line: &str) -> (r: Option<(String, String)>)
    ensures
        match r {
            Some(p) => directive_parts(line@) == Some((p.0@, p.1@)),
            None => directive_parts(line@) is None,
        },
{
    let t = trimmed(line);
    match inside(t.as_str(), '{', '}') {
        Some(inner) => {
            let v = chars(inner.as_str());
            let n = v.len();
            let i = find_char(&v, 0, n, ':');
            assert(v@.subrange(0, n as int) =~= inner@);
            let name = piece(&v, 0, i);
            assert(name@ =~= inner@.take(i as int));
            let value = if i < n {
                piece(&v, i + 1, n)
            } else {
                String::new()
            };
            proof {
                lemma_index_of(inner@, ':');
                assert(inner@.take(n as int) =~= inner@);
                if i < n {
                    assert(value@ =~= inner@.skip(i + 1));
                } else {
                    assert(value@ =~= seq![]);
                }
            }
            let name = trimmed(name.as_str());
            let name = in_lower_case(name.as_str());
            Some((name, trimmed(value.as_str())))
        },
        None => None,
    }
}

pub open spec fn is_comment_name(name: Seq<char>) -> bool {
    name == "c"@ || name == "comment"@ || name == "ci"@ || name == "comment_italic"@ || name
        == "cb"@ || name == "comment_box"@ || name == "highlight"@
}

pub open spec fn or_default(value: Seq<char>, default: Seq<char>) -> Seq<char> {
    if value.len() == 0 {
        default
    } else {
        value
    }
}

/// What a directive prints: a comment, or the heading of a section.
pub open spec fn directive_view(name: Seq<char>, value: Seq<char>, locale: PdfLocale) -> Option<
    LyricView,
> {
    let labels = labels_of(locale);
    if is_comment_name(name) && value.len() > 0 {
        Some(LyricView::Comment(value))
    } else if name == "soc"@ || name == "start_of_chorus"@ || name == "chorus"@ {
        Some(LyricView::Heading(or_default(value, labels.chorus@)))
    } else if name == "sov"@ || name == "start_of_verse"@ {
        Some(LyricView::Heading(or_default(value, labels.verse@)))
    } else if name == "sob"@ || name == "start_of_bridge"@ {
        Some(LyricView::Heading(or_default(value, labels.bridge@)))
    } else {
        None
    }
}

fn value_or(value: &str, default: &str) -> (r: String)
    ensures
        r@ == or_default(value@, default@),
{
    if value.is_empty() {
        default.to_string()
    } else {
        value.to_string()
    }
}

/// What a directive prints, given its name in lower case and its value.
pub fn directive_line(name: &str, value: &str, locale: PdfLocale) -> (r: Option<LyricLine>)
    ensures
        match r {
            Some(l) => directive_view(name@, value@, locale) == Some(l@),
            None => directive_view(name@, value@, locale) is None,
        },
{
    let labels = locale.labels();
    let comment = same(name, "c") || same(name, "comment") || same(name, "ci") || same(
        name,
        "comment_italic",
    ) || same(name, "cb") || same(name, "comment_box") || same(name, "highlight");
    if comment && !value.is_empty() {
        return Some(LyricLine::Comment(value.to_string()));
    }
    if same(name, "soc") || same(name, "start_of_chorus") || same(name, "chorus") {
        return Some(LyricLine::Heading(value_or(value, labels.chorus)));
    }
    if same(name, "sov") || same(name, "start_of_verse") {
        return Some(LyricLine::Heading(value_or(value, labels.verse)));
    }
    if same(name, "sob") || same(name, "start_of_bridge") {
        return Some(LyricLine::Heading(value_or(value, labels.bridge)));
    }
    None
}

// ---------------------------------------------------------------------
// Lines
// ---------------------------------------------------------------------

/// The segments of a line as the chord mode prints them.
pub open spec fn in_mode(s: Seq<SegmentView>, mode: ChordMode) -> LyricView {
    match mode {
        ChordMode::Above => LyricView::Segments(s),
        ChordMode::Inline => LyricView::Segments(seq![(None, bracketed_text(s))]),
        ChordMode::Hide => LyricView::Segments(seq![(None, lyric_text(s))]),
    }
}

/// `[Chorus]`-style heading: a whole line in brackets that isn't a chord.
pub open spec fn bracket_heading(line: Seq<char>) -> Option<Seq<char>> {
    match enclosed(line, '[', ']') {
        Some(inner) => if !inner.contains('[') && !is_chord_symbol(inner) {
            Some(trim(inner))
        } else {
            None
        },
        None => None,
    }
}

/// A line that a chord line above it belongs to.
pub open spec fn takes_chords(line: Seq<char>) -> bool {
    let t = trim(line);
    t.len() > 0 && t[0] != '{' && t[0] != '#' && t[0] != '[' && !is_chord_line(t)
}

/// The chords of a chord line that stands alone, each with room behind it.
pub open spec fn lone_chords(line: Seq<char>) -> Seq<SegmentView> {
    let w = words(line);
    Seq::new(w.len(), |i: int| (Some(w[i]), "    "@))
}

/// What a line of lyrics becomes.
pub ghost enum Step {
    /// Nothing is printed.
    Skip,
    /// A blank line, unless one was just printed.
    Blank,
    /// One printed line.
    Line(LyricView),
    /// One printed line, from this line and the next.
    Pair(LyricView),
}

/// What becomes of `line`, which is not blank at its end, when `next` is the
/// line below it.
pub open spec fn step(
    line: Seq<char>,
    next: Option<Seq<char>>,
    mode: ChordMode,
    locale: PdfLocale,
) -> Step {
    let t = trim(line);
    if t.len() == 0 {
        Step::Blank
    } else if t[0] == '#' {
        Step::Skip
    } else if directive_parts(t) is Some {
        let (name, value) = directive_parts(t).unwrap();
        match directive_view(name, value, locale) {
            Some(l) => Step::Line(l),
            None => Step::Skip,
        }
    } else if bracket_heading(t) is Some {
        Step::Line(LyricView::Heading(bracket_heading(t)->0))
    } else if is_chord_line(t) {
        if mode == ChordMode::Hide {
            Step::Skip
        } else if next is Some && takes_chords(next->0) {
            Step::Pair(in_mode(merged(line, next->0), mode))
        } else if mode == ChordMode::Above {
            Step::Line(LyricView::Segments(lone_chords(t)))
        } else {
            Step::Line(LyricView::Segments(seq![(None, t)]))
        }
    } else {
        Step::Line(in_mode(inline_segments(line), mode))
    }
}

/// `out`, then what the lines from `i` on become.
pub open spec fn steps_from(
    out: Seq<LyricView>,
    lines: Seq<Seq<char>>,
    i: int,
    mode: ChordMode,
    locale: PdfLocale,
) -> Seq<LyricView>
    decreases lines.len() - i,
{
    if i < 0 || i >= lines.len() {
        out
    } else {
        let next = if i + 1 < lines.len() {
            Some(lines[i + 1])
        } else {
            None
        };
        match step(lines[i], next, mode, locale) {
            Step::Skip => steps_from(out, lines, i + 1, mode, locale),
            Step::Blank => if out.len() > 0 && out.last() != LyricView::Blank {
                steps_from(out.push(LyricView::Blank), lines, i + 1, mode, locale)
            } else {
                steps_from(out, lines, i + 1, mode, locale)
            },
            Step::Line(l) => steps_from(out.push(l), lines, i + 1, mode, locale),
            Step::Pair(l) => steps_from(out.push(l), lines, i + 2, mode, locale),
        }
    }
}

/// The lines of a text without the blanks at their ends.
pub open spec fn clean_lines(raw: Seq<char>) -> Seq<Seq<char>> {
    let l = lines(raw);
    Seq::new(l.len(), |i: int| trim_end(l[i]))
}

/// `v` without the blank lines at its end.
pub open spec fn without_last_blanks(v: Seq<LyricView>) -> Seq<LyricView>
    decreases v.len(),
{
    if v.len() > 0 && v.last() == LyricView::Blank {
        without_last_blanks(v.drop_last())
    } else {
        v
    }
}

/// The printable lines of raw lyrics.
pub open spec fn printable(raw: Seq<char>, mode: ChordMode, locale: PdfLocale) -> Seq<LyricView> {
    without_last_blanks(steps_from(seq![], clean_lines(raw), 0, mode, locale))
}

fn segments_in_mode(v: Vec<ChordSegment>, mode: ChordMode) -> (r: LyricLine)
    ensures
        r@ == in_mode(segments(v@), mode),
{
    match mode {
        ChordMode::Above => LyricLine::Segments(v),
        ChordMode::Inline => LyricLine::Segments(inline_chords(&v)),
        ChordMode::Hide => LyricLine::Segments(strip_chords(&v)),
    }
}

fn heading_of(line: &str) -> (r: Option<String>)
    ensures
        match r {
            Some(t) => bracket_heading(line@) == Some(t@),
            None => bracket_heading(line@) is None,
        },
{
    match inside(line, '[', ']') {
        Some(inner) => {
            if !has_char(inner.as_str(), '[') && !is_chord(inner.as_str()) {
                Some(trimmed(inner.as_str()))
            } else {
                None
            }
        },
        None => None,
    }
}

fn is_lyric_below(line: &str) -> (r: bool)
    ensures
        r == takes_chords(line@),
{
    let t = trimmed(line);
    let v = chars(t.as_str());
    v.len() > 0 && v[0] != '{' && v[0] != '#' && v[0] != '[' && !is_chord_only_line(t.as_str())
}

fn alone(line: &str) -> (r: Vec<ChordSegment>)
    ensures
        segments(r@) == lone_chords(line@),
{
    let w = words_of(line);
    let ghost all = texts(w@);
    let mut r: Vec<ChordSegment> = Vec::new();
    let mut i: usize = 0;
    while i < w.len()
        invariant
            all == texts(w@),
            all == words(line@),
            i <= w@.len(),
            segments(r@) =~= lone_chords(line@).take(i as int),
        decreases w@.len() - i,
    {
        let s: ChordSegment = (Some(w[i].clone()), "    ".to_string());
        assert(segment(s) == (Some(all[i as int]), "    "@));
        proof {
            lemma_segments_push(r@, s);
        }
        r.push(s);
        assert(segments(r@) =~= lone_chords(line@).take(i + 1));
        i = i + 1;
    }
    r
}

enum Made {
    Skip,
    Blank,
    Line(LyricLine),
    Pair(LyricLine),
}

spec fn made(m: Made) -> Step {
    match m {
        Made::Skip => Step::Skip,
        Made::Blank => Step::Blank,
        Made::Line(l) => Step::Line(l@),
        Made::Pair(l) => Step::Pair(l@),
    }
}

fn take_step(line: &str, next: Option<&str>, mode: ChordMode, locale: PdfLocale) -> (r: Made)
    ensures
        made(r) == step(line@, crate::text::opt_str(next), mode, locale),
{
    let t = trimmed(line);
    let v = chars(t.as_str());
    if v.len() == 0 {
        return Made::Blank;
    }
    if v[0] == '#' {
        return Made::Skip;
    }
    if let Some(parts) = directive(t.as_str()) {
        return match directive_line(parts.0.as_str(), parts.1.as_str(), locale) {
            Some(l) => Made::Line(l),
            None => Made::Skip,
        };
    }
    if let Some(text) = heading_of(t.as_str()) {
        return Made::Line(LyricLine::Heading(text));
    }
    if is_chord_only_line(t.as_str()) {
        if mode == ChordMode::Hide {
            return Made::Skip;
        }
        if let Some(n) = next {
            if is_lyric_below(n) {
                return Made::Pair(segments_in_mode(merge_chord_line(line, n), mode));
            }
        }
        if mode == ChordMode::Above {
            return Made::Line(LyricLine::Segments(alone(t.as_str())));
        }
        let mut one: Vec<ChordSegment> = Vec::new();
        let s: ChordSegment = (None, t);
        assert(segment(s) == (None::<Seq<char>>, t@));
        one.push(s);
        assert(segments(one@) =~= seq![(None, t@)]);
        return Made::Line(LyricLine::Segments(one));
    }
    Made::Line(segments_in_mode(parse_inline_chords(line), mode))
}

proof fn lemma_views_push(v: Seq<LyricLine>, l: LyricLine)
    ensures
        lyric_views(v.push(l)) == lyric_views(v).push(l@),
{
    assert(lyric_views(v.push(l)) =~= lyric_views(v).push(l@));
}

fn ends_blank(v: &Vec<LyricLine>) -> (r: bool)
    ensures
        r == (v@.len() > 0 && lyric_views(v@).last() == LyricView::Blank),
{
    v.len() > 0 && matches!(v[v.len() - 1], LyricLine::Blank)
}

fn trimmed_lines(raw: &str) -> (r: Vec<String>)
    ensures
        texts(r@) == clean_lines(raw@),
{
    let l = lines_of(raw);
    let ghost all = texts(l@);
    let mut r: Vec<String> = Vec::new();
    let mut i: usize = 0;
    while i < l.len()
        invariant
            all == texts(l@),
            all == lines(raw@),
            i <= l@.len(),
            texts(r@) =~= clean_lines(raw@).take(i as int),
        decreases l@.len() - i,
    {
        let t = end_trimmed(l[i].as_str());
        assert(t@ == trim_end(all[i as int]));
        proof {
            lemma_texts_push(r@, t);
        }
        r.push(t);
        assert(texts(r@) =~= clean_lines(raw@).take(i + 1));
        i = i + 1;
    }
    r
}

/// Turns raw lyrics (ChordPro, Ultimate-Guitar headings or the
/// chords-above-lyrics layout) into printable lines.
pub fn parse_lyrics(raw: &str, mode: ChordMode, locale: PdfLocale) -> (r: Vec<LyricLine>)
    ensures
        lyric_views(r@) == printable(raw@, mode, locale),
{
    let all = trimmed_lines(raw);
    let ghost seen = texts(all@);
    let mut out: Vec<LyricLine> = Vec::new();
    let mut i: usize = 0;
    let n = all.len();
    assert(lyric_views(out@) =~= seq![]);
    while i < n
        invariant
            n == all@.len(),
            seen == texts(all@),
            i <= n,
            steps_from(seq![], seen, 0, mode, locale) == steps_from(
                lyric_views(out@),
                seen,
                i as int,
                mode,
                locale,
            ),
        decreases n - i,
    {
        let next: Option<&str> = if i < n - 1 {
            Some(all[i + 1].as_str())
        } else {
            None
        };
        proof {
            crate::text::lemma_texts_len(all@);
            assert(seen[i as int] == all@[i as int]@);
            if i < n - 1 {
                assert(seen[i + 1] == all@[i + 1]@);
            }
        }
        match take_step(all[i].as_str(), next, mode, locale) {
            Made::Skip => {
                i = i + 1;
            },
            Made::Blank => {
                if out.len() > 0 && !ends_blank(&out) {
                    proof {
                        lemma_views_push(out@, LyricLine::Blank);
                    }
                    out.push(LyricLine::Blank);
                }
                i = i + 1;
            },
            Made::Line(l) => {
                proof {
                    lemma_views_push(out@, l);
                }
                out.push(l);
                i = i + 1;
            },
            Made::Pair(l) => {
                proof {
                    lemma_views_push(out@, l);
                }
                out.push(l);
                i = i + 2;
            },
        }
    }
    while ends_blank(&out)
        invariant
            printable(raw@, mode, locale) == without_last_blanks(lyric_views(out@)),
        decreases out@.len(),
    {
        let ghost before = out@;
        let _ = out.pop();
        assert(lyric_views(out@) =~= lyric_views(before).drop_last());
    }
    out
}

// ---------------------------------------------------------------------
// Laws of printed lyrics
// ---------------------------------------------------------------------

/// A printed line without a chord of its own: whatever it says is one text.
pub open spec fn is_one_text(l: LyricView) -> bool {
    l matches LyricView::Segments(s) ==> s.len() == 1 && s[0].0 is None
}

/// No line of `v` has a chord of its own.
pub open spec fn all_one_text(v: Seq<LyricView>) -> bool {
    forall|k: int| 0 <= k < v.len() ==> is_one_text(#[trigger] v[k])
}

/// No blank line comes first or follows another.
pub open spec fn blanks_apart(v: Seq<LyricView>) -> bool {
    forall|i: int|
        0 <= i < v.len() && #[trigger] v[i] == LyricView::Blank ==> i > 0 && v[i - 1]
            != LyricView::Blank
}

proof fn lemma_steps_are_one_text(
    out: Seq<LyricView>,
    lines: Seq<Seq<char>>,
    i: int,
    mode: ChordMode,
    locale: PdfLocale,
)
    requires
        mode != ChordMode::Above,
        all_one_text(out),
    ensures
        all_one_text(steps_from(out, lines, i, mode, locale)),
    decreases lines.len() - i,
{
    if 0 <= i < lines.len() {
        let next = if i + 1 < lines.len() {
            Some(lines[i + 1])
        } else {
            None
        };
        match step(lines[i], next, mode, locale) {
            Step::Skip => lemma_steps_are_one_text(out, lines, i + 1, mode, locale),
            Step::Blank => {
                if out.len() > 0 && out.last() != LyricView::Blank {
                    lemma_steps_are_one_text(
                        out.push(LyricView::Blank),
                        lines,
                        i + 1,
                        mode,
                        locale,
                    );
                } else {
                    lemma_steps_are_one_text(out, lines, i + 1, mode, locale);
                }
            },
            Step::Line(l) => lemma_steps_are_one_text(out.push(l), lines, i + 1, mode, locale),
            Step::Pair(l) => lemma_steps_are_one_text(out.push(l), lines, i + 2, mode, locale),
        }
    }
}

pub proof fn lemma_steps_keep_blanks_apart(
    out: Seq<LyricView>,
    lines: Seq<Seq<char>>,
    i: int,
    mode: ChordMode,
    locale: PdfLocale,
)
    requires
        blanks_apart(out),
    ensures
        blanks_apart(steps_from(out, lines, i, mode, locale)),
    decreases lines.len() - i,
{
    if 0 <= i < lines.len() {
        let next = if i + 1 < lines.len() {
            Some(lines[i + 1])
        } else {
            None
        };
        match step(lines[i], next, mode, locale) {
            Step::Skip => lemma_steps_keep_blanks_apart(out, lines, i + 1, mode, locale),
            Step::Blank => {
                if out.len() > 0 && out.last() != LyricView::Blank {
                    lemma_steps_keep_blanks_apart(
                        out.push(LyricView::Blank),
                        lines,
                        i + 1,
                        mode,
                        locale,
                    );
                } else {
                    lemma_steps_keep_blanks_apart(out, lines, i + 1, mode, locale);
                }
            },
            Step::Line(l) => lemma_steps_keep_blanks_apart(out.push(l), lines, i + 1, mode, locale),
            Step::Pair(l) => lemma_steps_keep_blanks_apart(out.push(l), lines, i + 2, mode, locale),
        }
    }
}

proof fn lemma_without_last_blanks(v: Seq<LyricView>)
    ensures
        without_last_blanks(v).len() <= v.len(),
        without_last_blanks(v) == v.take(without_last_blanks(v).len() as int),
        without_last_blanks(v).len() > 0 ==> without_last_blanks(v).last() != LyricView::Blank,
    decreases v.len(),
{
    if v.len() > 0 && v.last() == LyricView::Blank {
        lemma_without_last_blanks(v.drop_last());
        let n = without_last_blanks(v).len() as int;
        assert(v.drop_last().take(n) =~= v.take(n));
    } else {
        assert(v.take(v.len() as int) =~= v);
    }
}

/// Unless chords are printed above the lyrics, every printed line is one text
/// without chords of its own.
pub proof fn only_the_above_mode_prints_chords_apart(
    raw: Seq<char>,
    mode: ChordMode,
    locale: PdfLocale,
)
    requires
        mode != ChordMode::Above,
    ensures
        all_one_text(printable(raw, mode, locale)),
{
    let v = steps_from(seq![], clean_lines(raw), 0, mode, locale);
    lemma_steps_are_one_text(seq![], clean_lines(raw), 0, mode, locale);
    lemma_without_last_blanks(v);
    let r = printable(raw, mode, locale);
    assert forall|k: int| 0 <= k < r.len() implies is_one_text(#[trigger] r[k]) by {
        assert(r[k] == v[k]);
    }
}

/// The headings and the comments among the lines, in their order.
pub open spec fn titles(v: Seq<LyricView>) -> Seq<LyricView>
    decreases v.len(),
{
    if v.len() == 0 {
        seq![]
    } else if v.last() is Heading || v.last() is Comment {
        titles(v.drop_last()).push(v.last())
    } else {
        titles(v.drop_last())
    }
}

/// The heading or the comment that a line is.
spec fn title_of(line: Seq<char>, locale: PdfLocale) -> Seq<LyricView> {
    let t = trim(line);
    if t.len() == 0 || t[0] == '#' {
        seq![]
    } else if directive_parts(t) is Some {
        let (name, value) = directive_parts(t).unwrap();
        match directive_view(name, value, locale) {
            Some(l) => seq![l],
            None => seq![],
        }
    } else if bracket_heading(t) is Some {
        seq![LyricView::Heading(bracket_heading(t)->0)]
    } else {
        seq![]
    }
}

spec fn titles_from(lines: Seq<Seq<char>>, i: int, locale: PdfLocale) -> Seq<LyricView>
    decreases lines.len() - i,
{
    if i < 0 || i >= lines.len() {
        seq![]
    } else {
        title_of(lines[i], locale) + titles_from(lines, i + 1, locale)
    }
}

proof fn lemma_titles_push(v: Seq<LyricView>, l: LyricView)
    ensures
        titles(v.push(l)) == if l is Heading || l is Comment {
            titles(v).push(l)
        } else {
            titles(v)
        },
{
    assert(v.push(l).drop_last() =~= v);
}

proof fn lemma_steps_keep_titles(
    out: Seq<LyricView>,
    lines: Seq<Seq<char>>,
    i: int,
    mode: ChordMode,
    locale: PdfLocale,
)
    requires
        i >= 0,
    ensures
        titles(steps_from(out, lines, i, mode, locale)) == titles(out) + titles_from(
            lines,
            i,
            locale,
        ),
    decreases lines.len() - i,
{
    if i < lines.len() {
        let next = if i + 1 < lines.len() {
            Some(lines[i + 1])
        } else {
            None
        };
        let rest = titles_from(lines, i + 1, locale);
        match step(lines[i], next, mode, locale) {
            Step::Skip => {
                lemma_steps_keep_titles(out, lines, i + 1, mode, locale);
                assert(title_of(lines[i], locale) + rest =~= rest);
            },
            Step::Blank => {
                lemma_titles_push(out, LyricView::Blank);
                assert(title_of(lines[i], locale) + rest =~= rest);
                if out.len() > 0 && out.last() != LyricView::Blank {
                    lemma_steps_keep_titles(
                        out.push(LyricView::Blank),
                        lines,
                        i + 1,
                        mode,
                        locale,
                    );
                } else {
                    lemma_steps_keep_titles(out, lines, i + 1, mode, locale);
                }
            },
            Step::Line(l) => {
                lemma_titles_push(out, l);
                lemma_steps_keep_titles(out.push(l), lines, i + 1, mode, locale);
                if l is Heading || l is Comment {
                    assert(title_of(lines[i], locale) =~= seq![l]);
                    assert(titles(out).push(l) + rest =~= titles(out) + (seq![l] + rest));
                } else {
                    assert(title_of(lines[i], locale) + rest =~= rest);
                }
            },
            Step::Pair(l) => {
                lemma_titles_push(out, l);
                lemma_steps_keep_titles(out.push(l), lines, i + 2, mode, locale);
                lemma_trim_twice(lines[i + 1]);
                let below = titles_from(lines, i + 2, locale);
                assert(title_of(lines[i + 1], locale) =~= seq![]);
                assert(title_of(lines[i + 1], locale) + below =~= below);
                assert(title_of(lines[i], locale) =~= seq![]);
                assert(title_of(lines[i], locale) + rest =~= rest);
            },
        }
    } else {
        assert(titles(out) + titles_from(lines, i, locale) =~= titles(out));
    }
}

proof fn lemma_titles_without_last_blanks(v: Seq<LyricView>)
    ensures
        titles(without_last_blanks(v)) == titles(v),
    decreases v.len(),
{
    if v.len() > 0 && v.last() == LyricView::Blank {
        lemma_titles_without_last_blanks(v.drop_last());
    }
}

/// Headings and comments are the same in every chord mode.
pub proof fn headings_and_comments_are_the_same_in_every_mode(
    raw: Seq<char>,
    a: ChordMode,
    b: ChordMode,
    locale: PdfLocale,
)
    ensures
        titles(printable(raw, a, locale)) == titles(printable(raw, b, locale)),
{
    let lines = clean_lines(raw);
    lemma_steps_keep_titles(seq![], lines, 0, a, locale);
    lemma_steps_keep_titles(seq![], lines, 0, b, locale);
    lemma_titles_without_last_blanks(steps_from(seq![], lines, 0, a, locale));
    lemma_titles_without_last_blanks(steps_from(seq![], lines, 0, b, locale));
}

/// Printed lyrics neither start nor end with a blank line, and never hold two
/// in a row.
pub proof fn blank_lines_only_separate(raw: Seq<char>, mode: ChordMode, locale: PdfLocale)
    ensures
        blanks_apart(printable(raw, mode, locale)),
        printable(raw, mode, locale).len() > 0 ==> printable(raw, mode, locale).last()
            != LyricView::Blank,
{
    let v = steps_from(seq![], clean_lines(raw), 0, mode, locale);
    lemma_steps_keep_blanks_apart(seq![], clean_lines(raw), 0, mode, locale);
    lemma_without_last_blanks(v);
    let r = printable(raw, mode, locale);
    assert forall|i: int| 0 <= i < r.len() && #[trigger] r[i] == LyricView::Blank implies i > 0
        && r[i - 1] != LyricView::Blank by {
        assert(v[i] == LyricView::Blank);
        assert(r[i - 1] == v[i - 1]);
    }
}

// ---------------------------------------------------------------------
// Stanzas
// ---------------------------------------------------------------------

/// Stanzas longer than this are split when laid out in two columns, so a
/// table row always fits on a page.
pub const MAX_STANZA_LINES: usize = 24;

/// `done`, then the stanzas of `current` and the lines that follow it.
pub open spec fn stanzas_from(
    done: Seq<Seq<LyricView>>,
    current: Seq<LyricView>,
    lines: Seq<LyricView>,
) -> Seq<Seq<LyricView>>
    decreases lines.len(),
{
    if lines.len() == 0 {
        if current.len() > 0 {
            done.push(current)
        } else {
            done
        }
    } else if lines[0] == LyricView::Blank {
        if current.len() > 0 {
            stanzas_from(done.push(current), seq![], lines.skip(1))
        } else {
            stanzas_from(done, seq![], lines.skip(1))
        }
    } else if current.len() >= MAX_STANZA_LINES {
        stanzas_from(done.push(current), seq![lines[0]], lines.skip(1))
    } else {
        stanzas_from(done, current.push(lines[0]), lines.skip(1))
    }
}

/// The lines, cut at the blank ones and after the longest run allowed.
pub open spec fn stanzas_of(lines: Seq<LyricView>) -> Seq<Seq<LyricView>> {
    stanzas_from(seq![], seq![], lines)
}

pub open spec fn stanza_views(v: Seq<Vec<LyricLine>>) -> Seq<Seq<LyricView>> {
    Seq::new(v.len(), |i: int| lyric_views(v[i]@))
}

/// Splits lyric lines into stanzas (separated by blank lines).
pub fn stanzas(lines: Vec<LyricLine>) -> (r: Vec<Vec<LyricLine>>)
    ensures
        stanza_views(r@) == stanzas_of(lyric_views(lines@)),
{
    let ghost all = lyric_views(lines@);
    let mut done: Vec<Vec<LyricLine>> = Vec::new();
    let mut current: Vec<LyricLine> = Vec::new();
    assert(all.skip(0) =~= all);
    assert(stanza_views(done@) =~= seq![]);
    assert(lyric_views(current@) =~= seq![]);
    for line in it: lines
        invariant
            it.seq() == lines@,
            all == lyric_views(lines@),
            stanzas_of(all) == stanzas_from(
                stanza_views(done@),
                lyric_views(current@),
                all.skip(it.index() as int),
            ),
    {
        let ghost rest = all.skip(it.index() as int);
        assert(rest[0] == line@);
        assert(rest.skip(1) =~= all.skip(it.index() + 1));
        let ghost before = done@;
        let ghost held = current;
        match line {
            LyricLine::Blank => {
                if current.len() > 0 {
                    done.push(current);
                    current = Vec::new();
                    assert(stanza_views(done@) =~= stanza_views(before).push(lyric_views(held@)));
                }
                assert(lyric_views(current@) =~= seq![]);
            },
            _ => {
                if current.len() >= MAX_STANZA_LINES {
                    done.push(current);
                    current = Vec::new();
                    assert(stanza_views(done@) =~= stanza_views(before).push(lyric_views(held@)));
                    assert(lyric_views(current@) =~= seq![]);
                    assert(lyric_views(current@).push(line@) =~= seq![line@]);
                }
                proof {
                    lemma_views_push(current@, line);
                }
                current.push(line);
            },
        }
    }
    assert(all.skip(all.len() as int) =~= seq![]);
    if current.len() > 0 {
        let ghost before = done@;
        let ghost held = current;
        done.push(current);
        assert(stanza_views(done@) =~= stanza_views(before).push(lyric_views(held@)));
    }
    done
}

/// The lines of all stanzas, one stanza after the other.
pub open spec fn all_lines(s: Seq<Seq<LyricView>>) -> Seq<LyricView>
    decreases s.len(),
{
    if s.len() == 0 {
        seq![]
    } else {
        all_lines(s.drop_last()) + s.last()
    }
}

/// The lines that are not blank.
pub open spec fn spoken(v: Seq<LyricView>) -> Seq<LyricView>
    decreases v.len(),
{
    if v.len() == 0 {
        seq![]
    } else if v[0] == LyricView::Blank {
        spoken(v.skip(1))
    } else {
        seq![v[0]] + spoken(v.skip(1))
    }
}

/// A stanza holds from one line to the longest run allowed.
pub open spec fn stanza_fits(s: Seq<LyricView>) -> bool {
    0 < s.len() <= MAX_STANZA_LINES
}

proof fn lemma_stanzas(done: Seq<Seq<LyricView>>, current: Seq<LyricView>, lines: Seq<LyricView>)
    requires
        forall|i: int| 0 <= i < done.len() ==> stanza_fits(#[trigger] done[i]),
        current.len() <= MAX_STANZA_LINES,
    ensures
        forall|i: int|
            0 <= i < stanzas_from(done, current, lines).len() ==> stanza_fits(
                #[trigger] stanzas_from(done, current, lines)[i],
            ),
        all_lines(stanzas_from(done, current, lines)) == all_lines(done) + current + spoken(lines),
    decreases lines.len(),
{
    assert(done.push(current).drop_last() =~= done);
    assert(all_lines(done.push(current)) == all_lines(done) + current);
    if lines.len() == 0 {
        assert(all_lines(done) + current + Seq::<LyricView>::empty() =~= all_lines(done) + current);
        if current.len() == 0 {
            assert(all_lines(done) + current =~= all_lines(done));
        }
    } else if lines[0] == LyricView::Blank {
        if current.len() > 0 {
            lemma_stanzas(done.push(current), seq![], lines.skip(1));
            assert(all_lines(done) + current + Seq::<LyricView>::empty() + spoken(lines)
                =~= all_lines(done) + current + spoken(lines));
        } else {
            lemma_stanzas(done, seq![], lines.skip(1));
            assert(all_lines(done) + current + spoken(lines) =~= all_lines(done)
                + Seq::<LyricView>::empty() + spoken(lines));
        }
    } else if current.len() >= MAX_STANZA_LINES {
        lemma_stanzas(done.push(current), seq![lines[0]], lines.skip(1));
        assert(all_lines(done) + current + seq![lines[0]] + spoken(lines.skip(1)) =~= all_lines(
            done,
        ) + current + spoken(lines));
    } else {
        lemma_stanzas(done, current.push(lines[0]), lines.skip(1));
        assert(all_lines(done) + current.push(lines[0]) + spoken(lines.skip(1)) =~= all_lines(done)
            + current + spoken(lines));
    }
}

/// Splitting into stanzas loses no line but the blank ones, keeps their order,
/// and gives stanzas that fit on a page.
pub proof fn stanzas_hold_every_line(lines: Seq<LyricView>)
    ensures
        all_lines(stanzas_of(lines)) == spoken(lines),
        forall|i: int|
            0 <= i < stanzas_of(lines).len() ==> stanza_fits(#[trigger] stanzas_of(lines)[i]),
{
    lemma_stanzas(seq![], seq![], lines);
    assert(Seq::<LyricView>::empty() + Seq::<LyricView>::empty() + spoken(lines) =~= spoken(lines));
}

} // verus!
