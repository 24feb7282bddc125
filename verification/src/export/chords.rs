//! Chord symbols, and the chords of a lyric line.

use crate::text::{
    all_digits, ascii_lower, char_is_digit, char_is_space, chars, find_char, index_of, is_digit,
    is_space, last_index_of, lemma_index_of, lowered, matches_at, only_digits, piece, same,
    starts_with, texts, trim, trimmed, word_len, words, words_of,
};
use vstd::prelude::*;

verus! {

/// What may follow the note of a chord, besides digits and `/`.
pub const QUALITY_TOKENS: [&'static str; 16] = [
    "maj",
    "min",
    "dim",
    "aug",
    "sus",
    "add",
    "m",
    "M",
    "°",
    "ø",
    "+",
    "-",
    "#",
    "b",
    "(",
    ")",
];

/// What follows a note (`A` to `G`, with an optional `#` or `b`) at the start
/// of `s`, when there is one.
pub open spec fn after_note(s: Seq<char>) -> Option<Seq<char>> {
    if s.len() == 0 || !('A' <= s[0] <= 'G') {
        None
    } else if s.len() > 1 && (s[1] == '#' || s[1] == 'b') {
        Some(s.skip(2))
    } else {
        Some(s.skip(1))
    }
}

/// The length of the first of the quality tokens, from the `k`-th on, that
/// `s` starts with; 0 when there is none.
pub open spec fn quality_len(s: Seq<char>, k: int) -> int
    decreases 16 - k,
{
    if k < 0 || k >= 16 {
        0
    } else if starts_with(s, QUALITY_TOKENS@[k]@) {
        QUALITY_TOKENS@[k]@.len() as int
    } else {
        quality_len(s, k + 1)
    }
}

/// `s` is made of digits, `/` and quality tokens, read from left to right.
pub open spec fn is_quality(s: Seq<char>) -> bool
    decreases s.len(),
{
    if s.len() == 0 {
        true
    } else if is_digit(s[0]) || s[0] == '/' {
        is_quality(s.skip(1))
    } else if 0 < quality_len(s, 0) <= s.len() {
        is_quality(s.skip(quality_len(s, 0)))
    } else {
        false
    }
}

/// `s` is a note and nothing more.
pub open spec fn is_bare_note(s: Seq<char>) -> bool {
    after_note(s) matches Some(rest) && rest.len() == 0
}

/// A note with its qualities.
pub open spec fn is_plain_chord(s: Seq<char>) -> bool {
    after_note(s) matches Some(rest) && is_quality(rest)
}

/// `s` is a chord symbol: `N.C.`, or a note with its qualities and,
/// behind the last `/`, an optional bass note. Digits behind a `/` are no
/// bass (`C6/9`).
pub open spec fn is_chord_symbol(s: Seq<char>) -> bool {
    let t = trim(s);
    let slash = last_index_of(t, '/');
    let bass = t.skip(slash + 1);
    if ascii_lower(t) == "n.c."@ || ascii_lower(t) == "nc"@ {
        true
    } else if slash >= 0 && bass.len() > 0 && !all_digits(bass) {
        is_bare_note(bass) && is_plain_chord(t.take(slash))
    } else {
        is_plain_chord(t)
    }
}

/// What follows a note at the start of `s`.
pub fn is_note(s: &str) -> (r: Option<String>)
    ensures
        match r {
            Some(rest) => after_note(s@) == Some(rest@),
            None => after_note(s@) is None,
        },
{
    let v = chars(s);
    if v.len() == 0 || v[0] < 'A' || v[0] > 'G' {
        return None;
    }
    let from: usize = if v.len() > 1 && (v[1] == '#' || v[1] == 'b') {
        2
    } else {
        1
    };
    let r = piece(&v, from, v.len());
    assert(r@ =~= s@.skip(from as int));
    Some(r)
}

fn quality_at(v: &Vec<char>, i: usize) -> (n: usize)
    requires
        i <= v@.len(),
    ensures
        n == quality_len(v@.skip(i as int), 0),
        i + n <= v@.len(),
{
    let ghost s = v@.skip(i as int);
    let mut k: usize = 0;
    while k < 16
        invariant
            i <= v@.len(),
            s == v@.skip(i as int),
            k <= 16,
            quality_len(s, 0) == quality_len(s, k as int),
        decreases 16 - k,
    {
        let q = chars(QUALITY_TOKENS[k]);
        let found = matches_at(v, i, &q);
        proof {
            if i + q@.len() <= v@.len() {
                assert(v@.subrange(i as int, i + q@.len()) =~= s.subrange(0, q@.len() as int));
            }
        }
        if found {
            return q.len();
        }
        k = k + 1;
    }
    0
}

fn quality(s: &str) -> (r: bool)
    ensures
        r == is_quality(s@),
{
    let v = chars(s);
    let mut i: usize = 0;
    assert(v@.skip(0) =~= s@);
    while i < v.len()
        invariant
            i <= v@.len(),
            is_quality(s@) == is_quality(v@.skip(i as int)),
        decreases v@.len() - i,
    {
        let ghost rest = v@.skip(i as int);
        if char_is_digit(v[i]) || v[i] == '/' {
            assert(rest.skip(1) =~= v@.skip(i + 1));
            i = i + 1;
        } else {
            let n = quality_at(&v, i);
            if n == 0 {
                return false;
            }
            assert(rest.skip(n as int) =~= v@.skip(i + n));
            i = i + n;
        }
    }
    true
}

fn plain_chord(s: &str) -> (r: bool)
    ensures
        r == is_plain_chord(s@),
{
    match is_note(s) {
        Some(rest) => quality(rest.as_str()),
        None => false,
    }
}

/// The last `c` in `v`.
pub fn find_last(v: &Vec<char>, c: char) -> (r: Option<usize>)
    ensures
        match r {
            Some(i) => i == last_index_of(v@, c) && i < v@.len(),
            None => last_index_of(v@, c) == -1,
        },
{
    let mut i: usize = v.len();
    assert(v@.take(i as int) =~= v@);
    while i > 0
        invariant
            i <= v@.len(),
            last_index_of(v@, c) == last_index_of(v@.take(i as int), c),
        decreases i,
    {
        assert(v@.take(i as int).drop_last() =~= v@.take(i - 1));
        if v[i - 1] == c {
            return Some(i - 1);
        }
        i = i - 1;
    }
    None
}

/// `true` for chord symbols like `G`, `F#m7`, `Bbmaj7`, `Asus4`, `D/F#`,
/// `C7(9)`, `N.C.`. Deliberately strict so lyric words ("And", "Come")
/// aren't mistaken for chords.
pub fn is_chord(token: &str) -> (r: bool)
    ensures
        r == is_chord_symbol(token@),
{
    let t = trimmed(token);
    let low = lowered(t.as_str());
    if same(low.as_str(), "n.c.") || same(low.as_str(), "nc") {
        return true;
    }
    let v = chars(t.as_str());
    let n = v.len();
    if let Some(i) = find_last(&v, '/') {
        let bass = piece(&v, i + 1, n);
        assert(bass@ =~= t@.skip(i + 1));
        if !bass.as_str().is_empty() && !only_digits(bass.as_str()) {
            let main = piece(&v, 0, i);
            assert(main@ =~= t@.take(i as int));
            return match is_note(bass.as_str()) {
                Some(rest) => rest.as_str().is_empty() && plain_chord(main.as_str()),
                None => false,
            };
        }
    }
    plain_chord(t.as_str())
}

// ---------------------------------------------------------------------
// Chord-only lines
// ---------------------------------------------------------------------

pub open spec fn is_paren(c: char) -> bool {
    c == '(' || c == ')'
}

/// `s` without the parentheses at its start.
pub open spec fn trim_parens_start(s: Seq<char>) -> Seq<char>
    decreases s.len(),
{
    if s.len() > 0 && is_paren(s[0]) {
        trim_parens_start(s.skip(1))
    } else {
        s
    }
}

/// `s` without the parentheses at its end.
pub open spec fn trim_parens_end(s: Seq<char>) -> Seq<char>
    decreases s.len(),
{
    if s.len() > 0 && is_paren(s.last()) {
        trim_parens_end(s.drop_last())
    } else {
        s
    }
}

/// `s` without the parentheses around it.
pub open spec fn trim_parens(s: Seq<char>) -> Seq<char> {
    trim_parens_end(trim_parens_start(s))
}

/// `s` without the parentheses around it.
pub fn without_parens(s: &str) -> (r: String)
    ensures
        r@ == trim_parens(s@),
{
    let v = chars(s);
    let mut i: usize = 0;
    let n = v.len();
    assert(v@.subrange(0, n as int) =~= v@);
    while i < n && (v[i] == '(' || v[i] == ')')
        invariant
            n == v@.len(),
            i <= n,
            trim_parens_start(v@) == trim_parens_start(v@.subrange(i as int, n as int)),
        decreases n - i,
    {
        assert(v@.subrange(i as int, n as int).skip(1) =~= v@.subrange(i + 1, n as int));
        i = i + 1;
    }
    let mut j: usize = n;
    while j > i && (v[j - 1] == '(' || v[j - 1] == ')')
        invariant
            n == v@.len(),
            i <= j <= n,
            trim_parens_end(v@.subrange(i as int, n as int)) == trim_parens_end(
                v@.subrange(i as int, j as int),
            ),
        decreases j,
    {
        assert(v@.subrange(i as int, j as int).drop_last() =~= v@.subrange(i as int, j - 1));
        j = j - 1;
    }
    piece(&v, i, j)
}

/// A repeat mark: `x` before or after digits.
pub open spec fn is_repeat(s: Seq<char>) -> bool {
    let n = if s.len() > 0 && s[0] == 'x' {
        s.skip(1)
    } else {
        s.drop_last()
    };
    s.len() > 0 && (s[0] == 'x' || s.last() == 'x') && n.len() > 0 && all_digits(n)
}

/// A neutral token allowed on a chord-only line (bar lines, repeats).
pub open spec fn is_filler(s: Seq<char>) -> bool {
    s == "|"@ || s == "||"@ || s == "-"@ || s == "/"@ || s == "%"@ || is_repeat(s)
}

/// A line of chords and fillers, with at least one chord.
pub open spec fn is_chord_line(s: Seq<char>) -> bool {
    let w = words(s);
    &&& forall|i: int|
        0 <= i < w.len() ==> is_chord_symbol(trim_parens(#[trigger] w[i])) || is_filler(
            trim_parens(w[i]),
        )
    &&& exists|i: int| 0 <= i < w.len() && is_chord_symbol(trim_parens(#[trigger] w[i]))
}

pub fn is_chord_line_filler(token: &str) -> (r: bool)
    ensures
        r == is_filler(token@),
{
    if same(token, "|") || same(token, "||") || same(token, "-") || same(token, "/") || same(
        token,
        "%",
    ) {
        return true;
    }
    let v = chars(token);
    if v.len() == 0 {
        return false;
    }
    if v[0] == 'x' {
        let n = piece(&v, 1, v.len());
        assert(n@ =~= token@.skip(1));
        !n.as_str().is_empty() && only_digits(n.as_str())
    } else if v[v.len() - 1] == 'x' {
        let n = piece(&v, 0, v.len() - 1);
        assert(n@ =~= token@.drop_last());
        !n.as_str().is_empty() && only_digits(n.as_str())
    } else {
        false
    }
}

pub fn is_chord_only_line(line: &str) -> (r: bool)
    ensures
        r == is_chord_line(line@),
{
    let w = words_of(line);
    let ghost all = texts(w@);
    let mut has_chord = false;
    let mut i: usize = 0;
    while i < w.len()
        invariant
            all == texts(w@),
            all == words(line@),
            i <= w@.len(),
            forall|j: int|
                0 <= j < i ==> is_chord_symbol(trim_parens(#[trigger] all[j])) || is_filler(
                    trim_parens(all[j]),
                ),
            has_chord == (exists|j: int|
                0 <= j < i && is_chord_symbol(trim_parens(#[trigger] all[j]))),
        decreases w@.len() - i,
    {
        let token = without_parens(w[i].as_str());
        assert(token@ == trim_parens(all[i as int]));
        if is_chord(token.as_str()) {
            has_chord = true;
            assert(0 <= i < i + 1 && is_chord_symbol(trim_parens(all[i as int])));
        } else if !is_chord_line_filler(token.as_str()) {
            assert(!is_chord_symbol(trim_parens(all[i as int])));
            return false;
        }
        i = i + 1;
    }
    has_chord
}

// ---------------------------------------------------------------------
// Segments
// ---------------------------------------------------------------------

/// One segment of a lyric line: an optional chord that starts at this
/// point, followed by the lyric text up to the next chord.
pub type ChordSegment = (Option<String>, String);

/// What a segment says.
pub type SegmentView = (Option<Seq<char>>, Seq<char>);

pub open spec fn segment(s: ChordSegment) -> SegmentView {
    (
        match s.0 {
            Some(c) => Some(c@),
            None => None,
        },
        s.1@,
    )
}

pub open spec fn segments(v: Seq<ChordSegment>) -> Seq<SegmentView> {
    Seq::new(v.len(), |i: int| segment(v[i]))
}

/// The segments with `text` added to the last one.
pub open spec fn add_text(s: Seq<SegmentView>, text: Seq<char>) -> Seq<SegmentView> {
    s.drop_last().push((s.last().0, s.last().1 + text))
}

/// The segments `s` and those of the rest of a line: a bracketed chord starts
/// a new segment, any other text goes to the last one.
pub open spec fn inline_from(s: Seq<SegmentView>, rest: Seq<char>) -> Seq<SegmentView>
    decreases rest.len(),
{
    proof {
        lemma_index_of(rest, '[');
        lemma_index_of(rest.skip(index_of(rest, '[')), ']');
    }
    let open = index_of(rest, '[');
    let close = open + index_of(rest.skip(open), ']');
    if open == rest.len() || close == rest.len() {
        add_text(s, rest)
    } else {
        let inner = rest.subrange(open + 1, close);
        let before = add_text(s, rest.take(open));
        let next = if is_chord_symbol(inner) {
            before.push((Some(trim(inner)), seq![]))
        } else {
            add_text(before, rest.subrange(open, close + 1))
        };
        inline_from(next, rest.skip(close + 1))
    }
}

/// The segments of a line with inline chords; no empty segment before the
/// first chord.
pub open spec fn inline_segments(line: Seq<char>) -> Seq<SegmentView> {
    let s = inline_from(seq![(None, seq![])], line);
    if s.len() > 1 && s[0].0 is None && s[0].1.len() == 0 {
        s.skip(1)
    } else {
        s
    }
}

pub proof fn lemma_segments_push(v: Seq<ChordSegment>, s: ChordSegment)
    ensures
        segments(v.push(s)) == segments(v).push(segment(s)),
{
    assert(segments(v.push(s)) =~= segments(v).push(segment(s)));
}

/// Adds `text` to the last segment.
fn push_text(v: &mut Vec<ChordSegment>, text: &str)
    requires
        old(v)@.len() > 0,
    ensures
        final(v)@.len() == old(v)@.len(),
        segments(final(v)@) == add_text(segments(old(v)@), text@),
{
    let ghost before = v@;
    match v.pop() {
        Some(last) => {
            let chord = last.0;
            let mut t = last.1;
            t.append(text);
            let s = (chord, t);
            proof {
                assert(segments(v@) =~= segments(before).drop_last());
                lemma_segments_push(v@, s);
            }
            v.push(s);
        },
        None => {},
    }
}

/// Splits `[G]Hello [C]world` into `[(Some(G), "Hello "), (Some(C), "world")]`.
/// Bracketed text that isn't a chord is kept as lyric text.
pub fn parse_inline_chords(line: &str) -> (r: Vec<ChordSegment>)
    ensures
        segments(r@) == inline_segments(line@),
        r@.len() > 0,
{
    let v = chars(line);
    let n = v.len();
    let mut out: Vec<ChordSegment> = Vec::new();
    out.push((None, String::new()));
    let mut from: usize = 0;
    assert(v@.subrange(0, n as int) =~= line@);
    assert(segments(out@) =~= seq![(None, seq![])]);
    loop
        invariant_except_break
            inline_from(seq![(None, seq![])], line@) == inline_from(
                segments(out@),
                v@.subrange(from as int, n as int),
            ),
        invariant
            n == v@.len(),
            from <= n,
            out@.len() > 0,
        ensures
            segments(out@) == inline_from(seq![(None, seq![])], line@),
        decreases n - from,
    {
        let ghost rest = v@.subrange(from as int, n as int);
        let open = find_char(&v, from, n, '[');
        proof {
            assert(rest.skip(open - from) =~= v@.subrange(open as int, n as int));
        }
        let close = find_char(&v, open, n, ']');
        if open == n || close == n {
            let t = piece(&v, from, n);
            push_text(&mut out, t.as_str());
            break;
        }
        let t = piece(&v, from, open);
        assert(t@ =~= rest.take(open - from));
        push_text(&mut out, t.as_str());
        assert(open < close);
        let inner = piece(&v, open + 1, close);
        assert(inner@ =~= rest.subrange(open - from + 1, close - from));
        if is_chord(inner.as_str()) {
            let s = (Some(trimmed(inner.as_str())), String::new());
            proof {
                lemma_segments_push(out@, s);
                assert(s.1@ =~= seq![]);
            }
            out.push(s);
        } else {
            let kept = piece(&v, open, close + 1);
            assert(kept@ =~= rest.subrange(open - from, close - from + 1));
            push_text(&mut out, kept.as_str());
        }
        assert(v@.subrange(close + 1, n as int) =~= rest.skip(close - from + 1));
        from = close + 1;
    }
    let ghost all = segments(out@);
    if out.len() > 1 && out[0].0.is_none() && out[0].1.as_str().is_empty() {
        let first = out.remove(0);
        assert(segments(out@) =~= all.skip(1));
    }
    out
}

// ---------------------------------------------------------------------
// Chords above lyrics
// ---------------------------------------------------------------------

/// The chords of a chord line from column `i` on, each with its column.
/// Parentheses around a chord are dropped; what is no chord is left out.
pub open spec fn chord_columns(s: Seq<char>, i: int) -> Seq<(int, Seq<char>)>
    decreases s.len() - i,
{
    if i < 0 || i >= s.len() {
        seq![]
    } else if is_space(s[i]) {
        chord_columns(s, i + 1)
    } else {
        proof {
            crate::text::lemma_word_len(s.skip(i));
        }
        let n = word_len(s.skip(i));
        let token = trim_parens(s.subrange(i, i + n));
        let rest = chord_columns(s, i + n);
        if is_chord_symbol(token) {
            seq![(i, token)] + rest
        } else {
            rest
        }
    }
}

/// Where a chord at `column` falls on a lyric of `len` characters, when the
/// lyric is already used up to `cursor`.
pub open spec fn placed(column: int, len: int, cursor: int) -> int {
    let c = if column < len {
        column
    } else {
        len
    };
    if c > cursor {
        c
    } else {
        cursor
    }
}

/// The lyric from `cursor` on, cut at the columns of the chords: `done` and
/// the segments that follow it.
pub open spec fn merge_from(
    done: Seq<SegmentView>,
    cursor: int,
    chords: Seq<(int, Seq<char>)>,
    lyric: Seq<char>,
) -> Seq<SegmentView>
    decreases chords.len(),
{
    if chords.len() == 0 {
        let tail = lyric.skip(cursor);
        if done.len() == 0 {
            seq![(None, tail)]
        } else {
            add_text(done, tail)
        }
    } else {
        let column = placed(chords[0].0, lyric.len() as int, cursor);
        let text = lyric.subrange(cursor, column);
        let before = if done.len() > 0 {
            add_text(done, text)
        } else if text.len() > 0 {
            seq![(None, text)]
        } else {
            seq![]
        };
        merge_from(before.push((Some(chords[0].1), seq![])), column, chords.skip(1), lyric)
    }
}

/// A chord line and the lyric line below it, merged by column.
pub open spec fn merged(chords: Seq<char>, lyric: Seq<char>) -> Seq<SegmentView> {
    merge_from(seq![], 0, chord_columns(chords, 0), lyric)
}

/// The chords of a chord line with their columns.
pub open spec fn columns(v: Seq<(usize, String)>) -> Seq<(int, Seq<char>)> {
    Seq::new(v.len(), |i: int| (v[i].0 as int, v[i].1@))
}

fn chord_positions(line: &str) -> (r: Vec<(usize, String)>)
    ensures
        columns(r@) == chord_columns(line@, 0),
{
    let v = chars(line);
    let n = v.len();
    let mut r: Vec<(usize, String)> = Vec::new();
    let mut i: usize = 0;
    assert(columns(r@) + chord_columns(v@, 0) =~= chord_columns(v@, 0));
    while i < n
        invariant
            n == v@.len(),
            i <= n,
            columns(r@) + chord_columns(v@, i as int) == chord_columns(v@, 0),
        decreases n - i,
    {
        if char_is_space(v[i]) {
            i = i + 1;
        } else {
            let start = i;
            let ghost s = v@.skip(start as int);
            assert(v@.skip(i as int) =~= s);
            while i < n && !char_is_space(v[i])
                invariant
                    n == v@.len(),
                    start <= i <= n,
                    s == v@.skip(start as int),
                    word_len(s) == i - start + word_len(v@.skip(i as int)),
                decreases n - i,
            {
                assert(v@.skip(i as int).skip(1) =~= v@.skip(i + 1));
                i = i + 1;
            }
            proof {
                crate::text::lemma_word_len(s);
                assert(word_len(s) == i - start);
            }
            let token = without_parens(piece(&v, start, i).as_str());
            let ghost before = columns(r@);
            if is_chord(token.as_str()) {
                r.push((start, token));
                assert(columns(r@) =~= before.push((start as int, token@)));
                assert(before.push((start as int, token@)) + chord_columns(v@, i as int) =~= before
                    + (seq![(start as int, token@)] + chord_columns(v@, i as int)));
            }
        }
    }
    assert(columns(r@) + chord_columns(v@, n as int) =~= columns(r@));
    r
}

/// Merges a chords-above line into the lyric line below it, by column.
pub fn merge_chord_line(chords: &str, lyric: &str) -> (r: Vec<ChordSegment>)
    ensures
        segments(r@) == merged(chords@, lyric@),
        r@.len() > 0,
{
    let text = chars(lyric);
    let n = text.len();
    let positions = chord_positions(chords);
    let ghost all = columns(positions@);
    let mut out: Vec<ChordSegment> = Vec::new();
    let mut cursor: usize = 0;
    let mut k: usize = 0;
    assert(all.skip(0) =~= all);
    assert(segments(out@) =~= seq![]);
    while k < positions.len()
        invariant
            all == columns(positions@),
            text@ == lyric@,
            n == text@.len(),
            cursor <= n,
            k <= positions@.len(),
            merged(chords@, lyric@) == merge_from(
                segments(out@),
                cursor as int,
                all.skip(k as int),
                lyric@,
            ),
        decreases positions@.len() - k,
    {
        let ghost rest = all.skip(k as int);
        assert(rest[0] == all[k as int]);
        assert(rest.skip(1) =~= all.skip(k + 1));
        let column = positions[k].0;
        let low = if column < n {
            column
        } else {
            n
        };
        let at = if low > cursor {
            low
        } else {
            cursor
        };
        let t = piece(&text, cursor, at);
        if out.len() > 0 {
            push_text(&mut out, t.as_str());
        } else if !t.as_str().is_empty() {
            let s: ChordSegment = (None, t);
            proof {
                lemma_segments_push(out@, s);
                assert(segments(out@).push(segment(s)) =~= seq![(None, t@)]);
            }
            out.push(s);
        }
        let s: ChordSegment = (Some(positions[k].1.clone()), String::new());
        proof {
            if out@.len() == 0 {
                assert(segments(out@) =~= seq![]);
            }
            lemma_segments_push(out@, s);
            assert(s.1@ =~= seq![]);
        }
        out.push(s);
        cursor = at;
        k = k + 1;
    }
    assert(all.skip(k as int) =~= seq![]);
    let tail = piece(&text, cursor, n);
    assert(tail@ =~= lyric@.skip(cursor as int));
    if out.len() > 0 {
        push_text(&mut out, tail.as_str());
    } else {
        let s: ChordSegment = (None, tail);
        proof {
            lemma_segments_push(out@, s);
            assert(segments(out@).push(segment(s)) =~= seq![(None, tail@)]);
        }
        out.push(s);
    }
    out
}

// ---------------------------------------------------------------------
// Chord modes
// ---------------------------------------------------------------------

/// The lyric text of the segments.
pub open spec fn lyric_text(s: Seq<SegmentView>) -> Seq<char>
    decreases s.len(),
{
    if s.len() == 0 {
        seq![]
    } else {
        lyric_text(s.drop_last()) + s.last().1
    }
}

/// The segments as text with the chords in brackets.
pub open spec fn bracketed_text(s: Seq<SegmentView>) -> Seq<char>
    decreases s.len(),
{
    if s.len() == 0 {
        seq![]
    } else {
        bracketed_text(s.drop_last()) + (match s.last().0 {
            Some(chord) => "["@ + chord + "]"@,
            None => seq![],
        }) + s.last().1
    }
}

/// The lyric alone, in one segment.
pub fn strip_chords(v: &Vec<ChordSegment>) -> (r: Vec<ChordSegment>)
    ensures
        segments(r@) == seq![(None::<Seq<char>>, lyric_text(segments(v@)))],
{
    let ghost all = segments(v@);
    let mut t = String::new();
    let mut i: usize = 0;
    assert(all.take(0) =~= seq![]);
    assert(t@ =~= seq![]);
    while i < v.len()
        invariant
            all == segments(v@),
            i <= v@.len(),
            t@ == lyric_text(all.take(i as int)),
        decreases v@.len() - i,
    {
        t.append(v[i].1.as_str());
        assert(all.take(i + 1).drop_last() =~= all.take(i as int));
        assert(all.take(i + 1).last() == all[i as int]);
        i = i + 1;
    }
    assert(all.take(i as int) =~= all);
    let mut r: Vec<ChordSegment> = Vec::new();
    r.push((None, t));
    assert(segments(r@) =~= seq![(None::<Seq<char>>, lyric_text(segments(v@)))]);
    r
}

/// The lyric with the chords in brackets, in one segment.
pub fn inline_chords(v: &Vec<ChordSegment>) -> (r: Vec<ChordSegment>)
    ensures
        segments(r@) == seq![(None::<Seq<char>>, bracketed_text(segments(v@)))],
{
    let ghost all = segments(v@);
    let mut t = String::new();
    let mut i: usize = 0;
    assert(all.take(0) =~= seq![]);
    assert(t@ =~= seq![]);
    while i < v.len()
        invariant
            all == segments(v@),
            i <= v@.len(),
            t@ == bracketed_text(all.take(i as int)),
        decreases v@.len() - i,
    {
        let ghost before = t@;
        assert(all.take(i + 1).drop_last() =~= all.take(i as int));
        assert(all.take(i + 1).last() == all[i as int]);
        if let Some(chord) = &v[i].0 {
            t.append("[");
            t.append(chord.as_str());
            t.append("]");
            assert(t@ =~= before + ("["@ + chord@ + "]"@));
        }
        t.append(v[i].1.as_str());
        proof {
            assert(before + Seq::<char>::empty() =~= before);
        }
        i = i + 1;
    }
    assert(all.take(i as int) =~= all);
    let mut r: Vec<ChordSegment> = Vec::new();
    r.push((None, t));
    assert(segments(r@) =~= seq![(None::<Seq<char>>, bracketed_text(segments(v@)))]);
    r
}

// ---------------------------------------------------------------------
// Nothing gets lost
// ---------------------------------------------------------------------

/// The chords of the segments, in their order.
pub open spec fn chords_of(s: Seq<SegmentView>) -> Seq<Seq<char>>
    decreases s.len(),
{
    if s.len() == 0 {
        seq![]
    } else {
        match s.last().0 {
            Some(chord) => chords_of(s.drop_last()).push(chord),
            None => chords_of(s.drop_last()),
        }
    }
}

/// The chords alone, without their columns.
pub open spec fn names(chords: Seq<(int, Seq<char>)>) -> Seq<Seq<char>> {
    Seq::new(chords.len(), |i: int| chords[i].1)
}

proof fn lemma_added_text(s: Seq<SegmentView>, text: Seq<char>)
    requires
        s.len() > 0,
    ensures
        lyric_text(add_text(s, text)) == lyric_text(s) + text,
        chords_of(add_text(s, text)) == chords_of(s),
{
    let t = add_text(s, text);
    assert(t.drop_last() =~= s.drop_last());
    assert(lyric_text(t) =~= lyric_text(s) + text);
}

proof fn lemma_added_segment(s: Seq<SegmentView>, one: SegmentView)
    ensures
        lyric_text(s.push(one)) == lyric_text(s) + one.1,
        chords_of(s.push(one)) == match one.0 {
            Some(chord) => chords_of(s).push(chord),
            None => chords_of(s),
        },
{
    assert(s.push(one).drop_last() =~= s);
}

proof fn lemma_merge_keeps(
    done: Seq<SegmentView>,
    cursor: int,
    chords: Seq<(int, Seq<char>)>,
    lyric: Seq<char>,
)
    requires
        0 <= cursor <= lyric.len(),
        lyric_text(done) == lyric.take(cursor),
    ensures
        lyric_text(merge_from(done, cursor, chords, lyric)) == lyric,
        chords_of(merge_from(done, cursor, chords, lyric)) == chords_of(done) + names(chords),
    decreases chords.len(),
{
    let none: Seq<SegmentView> = seq![];
    if chords.len() == 0 {
        let tail = lyric.skip(cursor);
        assert(lyric.take(cursor) + tail =~= lyric);
        assert(chords_of(done) + names(chords) =~= chords_of(done));
        if done.len() == 0 {
            lemma_added_segment(none, (None, tail));
            assert(none.push((None, tail)) =~= seq![(None::<Seq<char>>, tail)]);
            assert(done =~= none);
        } else {
            lemma_added_text(done, tail);
        }
    } else {
        let column = placed(chords[0].0, lyric.len() as int, cursor);
        let text = lyric.subrange(cursor, column);
        assert(lyric.take(cursor) + text =~= lyric.take(column));
        let before = if done.len() > 0 {
            add_text(done, text)
        } else if text.len() > 0 {
            seq![(None, text)]
        } else {
            seq![]
        };
        if done.len() > 0 {
            lemma_added_text(done, text);
        } else {
            assert(done =~= none);
            if text.len() > 0 {
                lemma_added_segment(none, (None, text));
                assert(none.push((None, text)) =~= seq![(None::<Seq<char>>, text)]);
            }
        }
        assert(lyric_text(before) =~= lyric.take(column));
        assert(chords_of(before) =~= chords_of(done));
        let chord = (Some(chords[0].1), Seq::<char>::empty());
        lemma_added_segment(before, chord);
        assert(lyric_text(before) + Seq::<char>::empty() =~= lyric.take(column));
        lemma_merge_keeps(before.push(chord), column, chords.skip(1), lyric);
        assert(chords_of(done).push(chords[0].1) + names(chords.skip(1)) =~= chords_of(done)
            + names(chords));
    }
}

/// Merging a chord line into the lyric line below it loses nothing: the lyric
/// stays as it is, and every chord is there, in its order.
pub proof fn merging_keeps_lyric_and_chords(chords: Seq<char>, lyric: Seq<char>)
    ensures
        lyric_text(merged(chords, lyric)) == lyric,
        chords_of(merged(chords, lyric)) == names(chord_columns(chords, 0)),
{
    let none: Seq<SegmentView> = seq![];
    assert(lyric_text(none) =~= lyric.take(0));
    lemma_merge_keeps(none, 0, chord_columns(chords, 0), lyric);
    assert(chords_of(none) + names(chord_columns(chords, 0)) =~= names(chord_columns(chords, 0)));
}

} // verus!
