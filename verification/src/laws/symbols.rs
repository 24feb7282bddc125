//! Chord symbols, lines of chords, and what is printed of a song's details.

use crate::export::chordpro::value_chars;
use crate::export::chords::{
    is_chord_line, is_chord_symbol, is_filler, is_plain_chord, is_quality, is_repeat, quality_len,
    trim_parens, trim_parens_end, trim_parens_start, QUALITY_TOKENS,
};
use crate::export::lyrics::{bracket_heading, enclosed, is_comment_name, or_default};
use crate::export::options::{labels_of, PdfLocale};
use crate::export::pages::{capo_text, footer_size, labelled_text};
use crate::export::sheet::{hashed, key_text, scaled, tempo_text};
use crate::import::chordpro::{directive_text, invisible, kept, unified, without_braces};
use crate::models::tonality::Tonality;
use crate::text::{
    all_digits, is_control, is_digit, lemma_replace_append, lemma_replace_one, number, replace,
    starts_with, trim, words,
};
use vstd::prelude::*;

verus! {

proof fn lemma_token(k: int)
    requires
        0 <= k < 16,
    ensures
        0 < QUALITY_TOKENS@[k]@.len(),
        k < 6 ==> QUALITY_TOKENS@[k]@.len() == 3,
        k >= 6 ==> QUALITY_TOKENS@[k]@.len() == 1,
        ({
            let c = QUALITY_TOKENS@[k]@[0];
            c == 'm' || c == 'd' || c == 'a' || c == 's' || c == 'M' || c == '°' || c == 'ø' || c
                == '+' || c == '-' || c == '#' || c == 'b' || c == '(' || c == ')'
        }),
{
    reveal_strlit("maj");
    reveal_strlit("min");
    reveal_strlit("dim");
    reveal_strlit("aug");
    reveal_strlit("sus");
    reveal_strlit("add");
    reveal_strlit("m");
    reveal_strlit("M");
    reveal_strlit("°");
    reveal_strlit("ø");
    reveal_strlit("+");
    reveal_strlit("-");
    reveal_strlit("#");
    reveal_strlit("b");
    reveal_strlit("(");
    reveal_strlit(")");
    assert(k == 0 || k == 1 || k == 2 || k == 3 || k == 4 || k == 5 || k == 6 || k == 7 || k == 8
        || k == 9 || k == 10 || k == 11 || k == 12 || k == 13 || k == 14 || k == 15);
}

/// No quality of a chord starts with this character.
pub open spec fn starts_no_quality(c: char) -> bool {
    !is_digit(c) && c != '/' && c != 'm' && c != 'd' && c != 'a' && c != 's' && c != 'M' && c
        != '°' && c != 'ø' && c != '+' && c != '-' && c != '#' && c != 'b' && c != '(' && c != ')'
}

proof fn lemma_no_quality(s: Seq<char>, k: int)
    requires
        s.len() > 0,
        starts_no_quality(s[0]),
        0 <= k,
    ensures
        quality_len(s, k) == 0,
    decreases 16 - k,
{
    if k < 16 {
        lemma_token(k);
        let t = QUALITY_TOKENS@[k]@;
        if starts_with(s, t) {
            assert(s.subrange(0, t.len() as int)[0] == s[0]);
        }
        lemma_no_quality(s, k + 1);
    }
}

/// Words are no chords: behind the note nothing but qualities, digits and
/// slashes may stand.
pub proof fn words_are_no_chords(note: char, c: char, rest: Seq<char>)
    requires
        starts_no_quality(c),
    ensures
        !is_plain_chord(seq![note, c] + rest),
        !is_quality(seq![c] + rest),
{
    let s = seq![note, c] + rest;
    let t = seq![c] + rest;
    assert(t[0] == c);
    lemma_no_quality(t, 0);
    assert(s[0] == note && s[1] == c);
    assert(s.skip(1) =~= t);
}

proof fn lemma_found(s: Seq<char>, from: int, k: int)
    requires
        0 <= from <= k < 16,
        starts_with(s, QUALITY_TOKENS@[k]@),
        forall|j: int| from <= j < k ==> !starts_with(s, #[trigger] QUALITY_TOKENS@[j]@),
    ensures
        quality_len(s, from) == QUALITY_TOKENS@[k]@.len(),
    decreases k - from,
{
    if from < k {
        assert(!starts_with(s, QUALITY_TOKENS@[from]@));
        lemma_found(s, from + 1, k);
    }
}

/// Qualities follow one another: one of three letters before any other stays a
/// quality.
pub proof fn qualities_follow_one_another(rest: Seq<char>)
    requires
        is_quality(rest),
    ensures
        is_quality("maj"@ + rest),
        is_quality("min"@ + rest),
        is_quality("dim"@ + rest),
        is_quality("aug"@ + rest),
        is_quality("sus"@ + rest),
        is_quality("add"@ + rest),
{
    lemma_long(0, rest);
    lemma_long(1, rest);
    lemma_long(2, rest);
    lemma_long(3, rest);
    lemma_long(4, rest);
    lemma_long(5, rest);
}

proof fn lemma_long(k: int, rest: Seq<char>)
    requires
        0 <= k < 6,
        is_quality(rest),
    ensures
        is_quality(QUALITY_TOKENS@[k]@ + rest),
{
    lemma_token(k);
    let t = QUALITY_TOKENS@[k]@;
    let s = t + rest;
    assert(s.subrange(0, 3) =~= t);
    assert(s.skip(3) =~= rest);
    assert(s[0] == t[0]);
    assert forall|j: int| 0 <= j < k implies !starts_with(s, #[trigger] QUALITY_TOKENS@[j]@) by {
        lemma_token(j);
        lemma_long_tokens_differ(j, k);
        if starts_with(s, QUALITY_TOKENS@[j]@) {
            assert(s.subrange(0, 3) =~= QUALITY_TOKENS@[j]@);
        }
    }
    lemma_found(s, 0, k);
}

proof fn lemma_long_tokens_differ(j: int, k: int)
    requires
        0 <= j < k < 6,
    ensures
        QUALITY_TOKENS@[j]@ != QUALITY_TOKENS@[k]@,
{
    reveal_strlit("maj");
    reveal_strlit("min");
    reveal_strlit("dim");
    reveal_strlit("aug");
    reveal_strlit("sus");
    reveal_strlit("add");
    assert("maj"@[0] == 'm' && "maj"@[1] == 'a');
    assert("min"@[0] == 'm' && "min"@[1] == 'i');
    assert("dim"@[0] == 'd');
    assert("aug"@[0] == 'a' && "aug"@[1] == 'u');
    assert("sus"@[0] == 's');
    assert("add"@[0] == 'a' && "add"@[1] == 'd');
    assert(k == 1 || k == 2 || k == 3 || k == 4 || k == 5);
    assert(j == 0 || j == 1 || j == 2 || j == 3 || j == 4);
}

/// Signs follow one another, too: an augmented or altered chord, and what
/// stands in brackets.
pub proof fn signs_follow_one_another(rest: Seq<char>)
    requires
        is_quality(rest),
    ensures
        is_quality(seq!['+'] + rest),
        is_quality(seq!['-'] + rest),
        is_quality(seq!['#'] + rest),
        is_quality(seq!['b'] + rest),
        is_quality(seq!['('] + rest),
        is_quality(seq![')'] + rest),
        is_quality(seq!['°'] + rest),
        is_quality(seq!['ø'] + rest),
        is_quality(seq!['M'] + rest),
        is_quality(seq!['/'] + rest),
{
    lemma_sign('M', 7, rest);
    lemma_sign('°', 8, rest);
    lemma_sign('ø', 9, rest);
    lemma_sign('+', 10, rest);
    lemma_sign('-', 11, rest);
    lemma_sign('#', 12, rest);
    lemma_sign('b', 13, rest);
    lemma_sign('(', 14, rest);
    lemma_sign(')', 15, rest);
    let s = seq!['/'] + rest;
    assert(s[0] == '/');
    assert(s.skip(1) =~= rest);
}

spec fn first_of(k: int) -> char {
    if k == 0 || k == 1 || k == 6 {
        'm'
    } else if k == 2 {
        'd'
    } else if k == 3 || k == 5 {
        'a'
    } else if k == 4 {
        's'
    } else if k == 7 {
        'M'
    } else if k == 8 {
        '°'
    } else if k == 9 {
        'ø'
    } else if k == 10 {
        '+'
    } else if k == 11 {
        '-'
    } else if k == 12 {
        '#'
    } else if k == 13 {
        'b'
    } else if k == 14 {
        '('
    } else {
        ')'
    }
}

proof fn lemma_first(k: int)
    requires
        0 <= k < 16,
    ensures
        QUALITY_TOKENS@[k]@[0] == first_of(k),
{
    reveal_strlit("maj");
    reveal_strlit("min");
    reveal_strlit("dim");
    reveal_strlit("aug");
    reveal_strlit("sus");
    reveal_strlit("add");
    reveal_strlit("m");
    reveal_strlit("M");
    reveal_strlit("°");
    reveal_strlit("ø");
    reveal_strlit("+");
    reveal_strlit("-");
    reveal_strlit("#");
    reveal_strlit("b");
    reveal_strlit("(");
    reveal_strlit(")");
    assert(k == 0 || k == 1 || k == 2 || k == 3 || k == 4 || k == 5 || k == 6 || k == 7 || k == 8
        || k == 9 || k == 10 || k == 11 || k == 12 || k == 13 || k == 14 || k == 15);
}

proof fn lemma_sign(c: char, k: int, rest: Seq<char>)
    requires
        7 <= k < 16,
        c == first_of(k),
        is_quality(rest),
    ensures
        is_quality(seq![c] + rest),
{
    let s = seq![c] + rest;
    lemma_token(k);
    lemma_first(k);
    let t = QUALITY_TOKENS@[k]@;
    assert(t =~= seq![c]);
    assert(s.subrange(0, 1) =~= t);
    assert(s.skip(1) =~= rest);
    assert(s[0] == c);
    assert forall|j: int| 0 <= j < k implies !starts_with(s, #[trigger] QUALITY_TOKENS@[j]@) by {
        lemma_token(j);
        lemma_first(j);
        let u = QUALITY_TOKENS@[j]@;
        if starts_with(s, u) {
            assert(s.subrange(0, u.len() as int)[0] == s[0]);
        }
    }
    lemma_found(s, 0, k);
}

/// Bars, dashes and repeats stand between chords.
pub proof fn bars_and_repeats_stand_between_chords(n: Seq<char>)
    requires
        n.len() > 0,
        all_digits(n),
    ensures
        is_filler("|"@),
        is_filler("||"@),
        is_filler("-"@),
        is_filler("/"@),
        is_filler("%"@),
        is_filler(seq!['x'] + n),
        is_filler(n.push('x')),
        !is_filler(n),
{
    let a = seq!['x'] + n;
    assert(a[0] == 'x');
    assert(a.skip(1) =~= n);
    let b = n.push('x');
    assert(b.last() == 'x');
    assert(b.drop_last() =~= n);
    assert(is_digit(n[0]) && is_digit(n[n.len() - 1]));
    assert(b[0] == n[0]);
    reveal_strlit("|");
    reveal_strlit("||");
    reveal_strlit("-");
    reveal_strlit("/");
    reveal_strlit("%");
    assert("|"@[0] == '|' && "||"@[0] == '|' && "-"@[0] == '-' && "/"@[0] == '/' && "%"@[0] == '%');
    assert(!is_repeat(n));
}

/// A line of chords holds a chord, and each of its words is one or stands
/// between chords; brackets round a word do not matter.
pub proof fn chord_lines_hold_a_chord(s: Seq<char>, i: int)
    requires
        is_chord_line(s),
        0 <= i < words(s).len(),
    ensures
        words(s).len() > 0,
        is_chord_symbol(trim_parens(words(s)[i])) || is_filler(trim_parens(words(s)[i])),
        exists|k: int| 0 <= k < words(s).len() && is_chord_symbol(trim_parens(#[trigger] words(s)[k])),
{
}

/// Chords with nothing but bars, dashes and repeats between them are a line of
/// chords.
pub proof fn chords_and_bars_are_a_chord_line(s: Seq<char>, k: int)
    requires
        0 <= k < words(s).len(),
        is_chord_symbol(trim_parens(words(s)[k])),
        forall|i: int|
            0 <= i < words(s).len() && !is_chord_symbol(trim_parens(#[trigger] words(s)[i]))
                ==> is_filler(trim_parens(words(s)[i])),
    ensures
        is_chord_line(s),
{
}

/// A line that holds a word which is no chord, bar or repeat is no line of
/// chords.
pub proof fn lyrics_are_no_chord_line(s: Seq<char>, k: int)
    requires
        0 <= k < words(s).len(),
        !is_chord_symbol(trim_parens(words(s)[k])),
        !is_filler(trim_parens(words(s)[k])),
    ensures
        !is_chord_line(s),
{
}

/// A directive is its name in braces, with its value where it has one.
pub proof fn directives_are_names_in_braces(name: Seq<char>, value: Seq<char>)
    ensures
        value.len() == 0 ==> directive_text(name, value) == "{"@ + name + "}"@,
        value.len() > 0 ==> directive_text(name, value) == "{"@ + name + ": "@ + value + "}"@,
{
}

/// Brackets round a word are taken off.
pub proof fn brackets_round_a_word_are_taken_off(w: Seq<char>)
    requires
        w.len() > 0,
        w[0] != '(' && w[0] != ')',
        w.last() != '(' && w.last() != ')',
    ensures
        trim_parens(w) == w,
        trim_parens(seq!['('] + w + seq![')']) == w,
{
    let s = seq!['('] + w + seq![')'];
    assert(s[0] == '(');
    assert(s.skip(1) =~= w.push(')'));
    assert(w.push(')')[0] == w[0]);
    assert(trim_parens_start(w.push(')')) == w.push(')'));
    assert(trim_parens_start(s) == w.push(')'));
    assert(w.push(')').drop_last() =~= w);
    assert(w.push(')').last() == ')');
    assert(trim_parens_end(w.push(')')) == trim_parens_end(w));
}

/// Only comments are told as comments.
pub proof fn seven_names_are_comments(name: Seq<char>)
    ensures
        is_comment_name(name) <==> name == "c"@ || name == "comment"@ || name == "ci"@ || name
            == "comment_italic"@ || name == "cb"@ || name == "comment_box"@ || name
            == "highlight"@,
{
}

/// What stands between two signs is found there.
pub proof fn what_stands_between_two_signs(inner: Seq<char>, open: char, close: char)
    ensures
        enclosed(seq![open] + inner + seq![close], open, close) == Some(inner),
        inner.len() > 0 && inner[0] != open ==> enclosed(inner, open, close) is None,
        inner.len() > 0 && inner.last() != close ==> enclosed(inner, open, close) is None,
        inner.len() > 0 ==> or_default(inner, seq![open]) == inner,
        or_default(seq![], inner) == inner,
{
    let s = seq![open] + inner + seq![close];
    assert(s[0] == open && s.last() == close);
    assert(s.subrange(1, s.len() - 1) =~= inner);
}

/// The key, the tempo and the capo are printed with their words.
pub proof fn details_are_printed_with_their_words(
    k: Option<Tonality>,
    n: Option<i32>,
    capo: Option<i16>,
    label: Seq<char>,
    t: Seq<char>,
    l: PdfLocale,
)
    ensures
        k is None ==> key_text(k, l) is None,
        k matches Some(x) ==> key_text(k, l) == Some(
            labels_of(l).key@ + ": "@ + crate::models::tonality::tonality_name(x),
        ),
        n is None ==> tempo_text(n) is None,
        n matches Some(x) ==> tempo_text(n) == Some(number(x as int) + " BPM"@),
        capo is None ==> capo_text(capo, l) is None,
        capo matches Some(x) ==> capo_text(capo, l) == if x > 0 {
            Some(labels_of(l).capo@ + ": "@ + number(x as int))
        } else {
            None
        },
        labelled_text(label, Some(t)) == Some(label + ": "@ + t),
        labelled_text(label, None) is None,
        labels_of(PdfLocale::En).key@ == "Key"@,
        labels_of(PdfLocale::En).capo@ == "Capo"@,
        labels_of(PdfLocale::En).tuning@ == "Tuning"@,
        labels_of(PdfLocale::En).time_signature@ == "Time"@,
        labels_of(PdfLocale::PtBr).key@ == "Tom"@,
        labels_of(PdfLocale::PtBr).capo@ == "Capotraste"@,
{
}

/// Every tag has its own sign.
pub proof fn tags_have_their_sign(tags: Seq<Seq<char>>, i: int)
    requires
        0 <= i < tags.len(),
    ensures
        hashed(tags).len() == tags.len(),
        hashed(tags)[i] == "#"@ + tags[i],
{
}

/// Sizes grow with the scale, are rounded to the nearest point, and stay
/// between six and seventy-two.
pub proof fn sizes_are_rounded_and_bounded(tenths: int, percent: int)
    requires
        0 <= tenths,
        0 <= percent,
    ensures
        6 <= scaled(tenths, percent) <= 72,
        6_000 <= tenths * percent <= 72_000 ==> -500 <= scaled(tenths, percent) * 1_000 - tenths
            * percent <= 500,
        tenths * percent < 5_500 ==> scaled(tenths, percent) == 6,
        tenths * percent >= 72_000 ==> scaled(tenths, percent) == 72,
{
}

/// The foot is eight points high at full scale, and between six and twelve.
pub proof fn feet_are_eight_points_high(scale: int)
    ensures
        footer_size(100) == 8,
        6 <= footer_size(scale) <= 12,
        75 <= scale <= 150 ==> -50 <= footer_size(scale) * 100 - 8 * scale <= 50,
{
}

/// In a value of a directive braces and control characters are blanks, and
/// everything else stays.
pub proof fn values_hold_no_braces(s: Seq<char>, i: int)
    requires
        0 <= i < s.len(),
    ensures
        value_chars(s).len() == s.len(),
        s[i] == '{' || s[i] == '}' || is_control(s[i]) ==> value_chars(s)[i] == ' ',
        s[i] != '{' && s[i] != '}' && !is_control(s[i]) ==> value_chars(s)[i] == s[i],
        s[i] == '{' || s[i] == '}' ==> without_braces(s)[i] == ' ',
        s[i] != '{' && s[i] != '}' ==> without_braces(s)[i] == s[i],
        without_braces(s).len() == s.len(),
{
}

/// What cannot be seen is left out, a tab becomes blanks, and everything else
/// is kept.
pub proof fn what_can_be_seen_is_kept(c: char)
    ensures
        kept('\n') == seq!['\n'],
        c != '\n' && c != '\t' && is_control(c) ==> kept(c).len() == 0,
        ' ' <= c <= '~' ==> kept(c) == seq![c],
        forall|i: int| 0 <= i < kept('\t').len() ==> #[trigger] kept('\t')[i] == ' ',
        kept('\t').len() > 0,
{
    reveal_strlit("    ");
}

/// Characters without width and marks of direction cannot be seen.
pub proof fn marks_of_direction_cannot_be_seen(c: char)
    ensures
        c == '\u{200B}' || c == '\u{200C}' || c == '\u{200D}' || c == '\u{200E}' || c == '\u{200F}'
            || c == '\u{202A}' || c == '\u{202E}' || c == '\u{2066}' || c == '\u{2069}' || c
            == '\u{FEFF}' ==> invisible(c) && kept(c).len() == 0,
        invisible(c) ==> ('\u{200B}' <= c <= '\u{200F}') || ('\u{202A}' <= c <= '\u{202E}') || (
        '\u{2066}' <= c <= '\u{2069}') || c == '\u{FEFF}',
        '\u{200B}' <= c <= '\u{200F}' || '\u{202A}' <= c <= '\u{202E}' || '\u{2066}' <= c
            <= '\u{2069}' ==> invisible(c),
        '\u{A0}' <= c < '\u{2000}' && !is_control(c) ==> kept(c) == seq![c],
{
}

/// A whole line in brackets is a heading, unless it is a chord or holds another
/// bracket.
pub proof fn lines_in_brackets_are_headings(inner: Seq<char>)
    ensures
        ({
            let line = seq!['['] + inner + seq![']'];
            &&& is_chord_symbol(inner) ==> bracket_heading(line) is None
            &&& inner.contains('[') ==> bracket_heading(line) is None
            &&& !is_chord_symbol(inner) && !inner.contains('[') ==> bracket_heading(line) == Some(
                trim(inner),
            )
        }),
        inner.len() > 0 && inner[0] != '[' ==> bracket_heading(inner) is None,
{
    what_stands_between_two_signs(inner, '[', ']');
}

/// Lines end in one way, and a text that has no other ends stays.
pub proof fn lines_end_in_one_way(s: Seq<char>)
    ensures
        !unified(s).contains('\r'),
        !s.contains('\r') ==> unified(s) == s,
{
    reveal_strlit("\r\n");
    reveal_strlit("\n");
    reveal_strlit("\r");
    assert("\r"@ =~= seq!['\r']);
    assert("\n"@ =~= seq!['\n']);
    assert("\r\n"@ =~= seq!['\r', '\n']);
    let t = replace(s, "\r\n"@, "\n"@);
    lemma_gone(t, '\r', "\n"@);
    if !s.contains('\r') {
        lemma_stays(s, "\r\n"@, "\n"@);
        lemma_stays(s, "\r"@, "\n"@);
    }
}

proof fn lemma_gone(s: Seq<char>, c: char, w: Seq<char>)
    requires
        !w.contains(c),
    ensures
        !replace(s, seq![c], w).contains(c),
    decreases s.len(),
{
    if s.len() > 0 {
        let a = seq![s[0]];
        let b = s.skip(1);
        assert(a + b =~= s);
        lemma_replace_append(a, b, c, w);
        lemma_replace_one(s[0], c, w);
        lemma_gone(b, c, w);
        let x = replace(a, seq![c], w);
        let y = replace(b, seq![c], w);
        if (x + y).contains(c) {
            let i = choose|i: int| 0 <= i < (x + y).len() && (x + y)[i] == c;
            if i < x.len() {
                assert(x[i] == c);
                if s[0] == c {
                    assert(w.contains(c));
                }
            } else {
                assert(y[i - x.len()] == c);
            }
        }
    } else {
        assert(replace(s, seq![c], w) =~= s);
    }
}

proof fn lemma_stays(s: Seq<char>, p: Seq<char>, w: Seq<char>)
    requires
        p.len() > 0,
        !s.contains(p[0]),
    ensures
        replace(s, p, w) == s,
    decreases s.len(),
{
    if s.len() >= p.len() {
        assert(s.contains(s[0]));
        if starts_with(s, p) {
            assert(s.subrange(0, p.len() as int)[0] == s[0]);
        }
        let b = s.skip(1);
        if b.contains(p[0]) {
            let i = choose|i: int| 0 <= i < b.len() && b[i] == p[0];
            assert(s[i + 1] == p[0]);
        }
        lemma_stays(b, p, w);
        assert(seq![s[0]] + b =~= s);
    }
}

} // verus!
