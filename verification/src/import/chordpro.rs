//! ChordPro import: a strict parser.
//!
//! The file comes from anywhere (another app, a website, a hand edit), so
//! it is treated as hostile input:
//!
//! - at most [`MAX_CONTENT_BYTES`] bytes, at most [`MAX_LINES`] lines and
//!   [`MAX_LINE_CHARS`] characters per line (`too_many_lines` /
//!   `line_too_long`);
//! - NUL bytes are refused (`nul_character`); CRLF/CR become LF, the text
//!   is NFC-normalized, the BOM, zero-width and bidirectional override
//!   characters are removed, tabs become spaces and every other control
//!   character is dropped;
//! - only a whitelist of directives survives: metadata (`title`, `artist`,
//!   `key`, `tempo`, `time`, `capo`, `duration`, `subtitle`) is extracted
//!   and validated, section and comment directives are kept verbatim in
//!   the lyrics, anything else (`image`, `define`, `x_*`...) is dropped
//!   with a warning;
//! - bracketed text must be a chord; anything else in brackets is removed
//!   with a warning;
//! - one song per file (`multiple_songs`), and a title is required
//!   (`missing_title`) unless the caller supplies one.
//!
//! Nothing is ever interpreted as markup: HTML or script in a lyric stays
//! inert text.

use crate::export::chords::{is_chord, is_chord_symbol};
use crate::export::lyrics::{enclosed, inside, split_once};
use crate::import::values::{
    capo_of, duration_of, key_of, parse_capo, parse_duration, parse_key, parse_tempo, tempo_of,
};
use crate::models::song::{is_time_signature, time_signature_known};
use crate::models::tonality::Tonality;
use crate::text::{
    ascii_lower, char_is_control, char_is_digit, char_is_lower, chars, count_char, cut, cut_to,
    end_trimmed, find_char, index_of, is_ascii_text, is_control, is_digit, is_lower, join, joined,
    lemma_index_of, lemma_texts_push, lowered, occurrences, opt_str, opt_text, piece, replace,
    replaced, same, split, split_at, squeeze, squeezed, texts, trim, trim_end, trimmed,
};
use vstd::prelude::*;

verus! {

pub const MAX_CONTENT_BYTES: usize = 65_536;

pub const MAX_LINES: usize = 3_000;

pub const MAX_LINE_CHARS: usize = 500;

pub const MAX_WARNINGS: usize = 100;

pub const MAX_TITLE_CHARS: usize = 255;

pub const MAX_ARTIST_CHARS: usize = 255;

/// The longest detail of a warning, in characters.
pub const MAX_DETAIL_CHARS: usize = 80;

/// What a tab becomes.
pub const TAB: &'static str = "    ";

/// Why a file was refused.
#[derive(Debug, Clone, Copy, PartialEq, Eq)]
pub enum ChordProError {
    /// Over [`MAX_CONTENT_BYTES`].
    TooLarge,
    /// `reason` is a stable code (`nul_character`, `too_many_lines`,
    /// `line_too_long`, `multiple_songs`, `missing_title`); `line` is
    /// 1-based.
    Invalid { reason: &'static str, line: Option<usize> },
}

/// What an error says.
pub ghost enum ErrorView {
    TooLarge,
    Invalid { reason: Seq<char>, line: Option<int> },
}

pub open spec fn line_number(line: Option<usize>) -> Option<int> {
    match line {
        Some(n) => Some(n as int),
        None => None,
    }
}

impl View for ChordProError {
    type V = ErrorView;

    open spec fn view(&self) -> ErrorView {
        match self {
            ChordProError::TooLarge => ErrorView::TooLarge,
            ChordProError::Invalid { reason, line } => ErrorView::Invalid {
                reason: reason@,
                line: line_number(*line),
            },
        }
    }
}

/// Something that was changed or dropped while importing.
#[derive(Debug, Clone, PartialEq, Eq)]
pub struct ImportWarning {
    /// `directive_dropped`, `album_dropped`, `invalid_chord`,
    /// `unbalanced_bracket`, `braces_removed`, `invalid_key`,
    /// `invalid_tempo`, `invalid_time`, `invalid_capo`,
    /// `invalid_duration`, `title_truncated`, `artist_truncated`,
    /// `duplicate_directive`, `too_many_warnings`.
    pub code: &'static str,
    /// 1-based line in the (normalized) file.
    pub line: Option<usize>,
    pub detail: Option<String>,
}

/// What a warning says.
pub ghost struct WarningView {
    pub code: Seq<char>,
    pub line: Option<int>,
    pub detail: Option<Seq<char>>,
}

impl View for ImportWarning {
    type V = WarningView;

    open spec fn view(&self) -> WarningView {
        WarningView {
            code: self.code@,
            line: line_number(self.line),
            detail: opt_text(self.detail),
        }
    }
}

pub open spec fn warning_views(v: Seq<ImportWarning>) -> Seq<WarningView> {
    Seq::new(v.len(), |i: int| v[i]@)
}

/// The parsed song.
#[derive(Debug, Clone, PartialEq, Default)]
pub struct ParsedChordPro {
    pub title: String,
    pub artist_name: Option<String>,
    pub tonality: Option<Tonality>,
    pub tempo: Option<i32>,
    pub time_signature: Option<String>,
    pub capo: Option<i16>,
    /// Seconds.
    pub duration: Option<i32>,
    /// The sanitized body (lyrics, chords, kept directives).
    pub lyrics: Option<String>,
    pub warnings: Vec<ImportWarning>,
}

/// What a parsed song says.
pub ghost struct SongView {
    pub title: Seq<char>,
    pub artist_name: Option<Seq<char>>,
    pub tonality: Option<Tonality>,
    pub tempo: Option<i32>,
    pub time_signature: Option<Seq<char>>,
    pub capo: Option<i16>,
    pub duration: Option<i32>,
    pub lyrics: Option<Seq<char>>,
    pub warnings: Seq<WarningView>,
}

impl View for ParsedChordPro {
    type V = SongView;

    open spec fn view(&self) -> SongView {
        SongView {
            title: self.title@,
            artist_name: opt_text(self.artist_name),
            tonality: self.tonality,
            tempo: self.tempo,
            time_signature: opt_text(self.time_signature),
            capo: self.capo,
            duration: self.duration,
            lyrics: opt_text(self.lyrics),
            warnings: warning_views(self.warnings@),
        }
    }
}

// ---------------------------------------------------------------------
// Warnings
// ---------------------------------------------------------------------

/// The warnings with one more, which is counted only up to the limit.
pub open spec fn warned(
    w: Seq<WarningView>,
    code: Seq<char>,
    line: Option<int>,
    detail: Option<Seq<char>>,
) -> Seq<WarningView> {
    if w.len() < MAX_WARNINGS {
        w.push(
            WarningView {
                code,
                line,
                detail: match detail {
                    Some(d) => Some(cut(d, MAX_DETAIL_CHARS as int)),
                    None => None,
                },
            },
        )
    } else if w.len() == MAX_WARNINGS {
        w.push(WarningView { code: "too_many_warnings"@, line: None, detail: None })
    } else {
        w
    }
}

fn warn(
    w: &mut Vec<ImportWarning>,
    code: &'static str,
    line: Option<usize>,
    detail: Option<&str>,
)
    ensures
        warning_views(final(w)@) == warned(
            warning_views(old(w)@),
            code@,
            line_number(line),
            opt_str(detail),
        ),
{
    let ghost before = warning_views(w@);
    if w.len() < MAX_WARNINGS {
        let detail = match detail {
            Some(d) => Some(cut_to(d, MAX_DETAIL_CHARS)),
            None => None,
        };
        let one = ImportWarning { code, line, detail };
        w.push(one);
        assert(warning_views(w@) =~= before.push(one@));
    } else if w.len() == MAX_WARNINGS {
        let one = ImportWarning { code: "too_many_warnings", line: None, detail: None };
        w.push(one);
        assert(warning_views(w@) =~= before.push(one@));
    }
}

// ---------------------------------------------------------------------
// Characters
// ---------------------------------------------------------------------

/// Zero-width and bidirectional formatting characters (and the BOM).
pub open spec fn invisible(c: char) -> bool {
    ||| '\u{200B}' <= c <= '\u{200F}'
    ||| '\u{202A}' <= c <= '\u{202E}'
    ||| '\u{2066}' <= c <= '\u{2069}'
    ||| c == '\u{FEFF}'
}

pub fn is_invisible(c: char) -> (r: bool)
    ensures
        r == invisible(c),
{
    ('\u{200B}' <= c && c <= '\u{200F}') || ('\u{202A}' <= c && c <= '\u{202E}') || ('\u{2066}'
        <= c && c <= '\u{2069}') || c == '\u{FEFF}'
}

/// What is kept of a character.
pub open spec fn kept(c: char) -> Seq<char> {
    if c == '\n' {
        seq!['\n']
    } else if c == '\t' {
        TAB@
    } else if is_control(c) || invisible(c) {
        seq![]
    } else {
        seq![c]
    }
}

/// What is kept of a text.
pub open spec fn visible(s: Seq<char>) -> Seq<char>
    decreases s.len(),
{
    if s.len() == 0 {
        seq![]
    } else {
        visible(s.drop_last()) + kept(s.last())
    }
}

/// Line ends as single line feeds.
pub open spec fn unified(s: Seq<char>) -> Seq<char> {
    replace(replace(s, "\r\n"@, "\n"@), "\r"@, "\n"@)
}

/// What the `nfc` adapter of `unicode-normalization` makes of a text that is
/// not all ASCII.
pub uninterp spec fn nfc_text(s: Seq<char>) -> Seq<char>;

/// `s` in Normalization Form C.
pub open spec fn composed(s: Seq<char>) -> Seq<char> {
    if is_ascii_text(s) {
        s
    } else {
        nfc_text(s)
    }
}

/// `unicode_normalization::UnicodeNormalization::nfc`: the text in
/// Normalization Form C. ASCII text is in that form already; of any other text
/// the result is a function of the text.
#[verifier::external_body]
fn nfc(s: &str) -> (r: String)
    ensures
        is_ascii_text(s@) ==> r@ == s@,
        !is_ascii_text(s@) ==> r@ == nfc_text(s@),
{
    unicode_normalization::UnicodeNormalization::nfc(s).collect()
}

fn only_visible(s: &str) -> (r: String)
    ensures
        r@ == visible(s@),
{
    let v = chars(s);
    let mut r = String::new();
    let mut i: usize = 0;
    assert(v@.take(0) =~= seq![]);
    assert(r@ =~= seq![]);
    while i < v.len()
        invariant
            i <= v@.len(),
            r@ == visible(v@.take(i as int)),
        decreases v@.len() - i,
    {
        assert(v@.take(i + 1).drop_last() =~= v@.take(i as int));
        assert(v@.take(i + 1).last() == v@[i as int]);
        let ghost before = r@;
        let c = v[i];
        if c == '\n' {
            r.push('\n');
            assert(r@ =~= before + seq!['\n']);
        } else if c == '\t' {
            r.append(TAB);
        } else if char_is_control(c) || is_invisible(c) {
            assert(r@ =~= before + seq![]);
        } else {
            r.push(c);
            assert(r@ =~= before + seq![c]);
        }
        i = i + 1;
    }
    assert(v@.take(i as int) =~= s@);
    r
}

/// Line endings, Unicode form and invisible/control characters.
pub open spec fn sanitized(content: Seq<char>) -> Result<Seq<char>, ErrorView> {
    if content.contains('\0') {
        Err(
            ErrorView::Invalid {
                reason: "nul_character"@,
                line: Some(
                    occurrences(content.take(index_of(content, '\0')), '\n') as int + 1,
                ),
            },
        )
    } else {
        Ok(visible(composed(unified(content))))
    }
}

/// Normalizes line endings, Unicode form and invisible/control characters.
pub fn sanitize(content: &str) -> (r: Result<String, ChordProError>)
    ensures
        match r {
            Ok(t) => sanitized(content@) == Ok::<Seq<char>, ErrorView>(t@),
            Err(e) => sanitized(content@) == Err::<Seq<char>, ErrorView>(e@),
        },
{
    proof {
        reveal_strlit("\r\n");
        reveal_strlit("\r");
    }
    let v = chars(content);
    let n = v.len();
    let at = find_char(&v, 0, n, '\0');
    proof {
        assert(v@.subrange(0, n as int) =~= content@);
        lemma_index_of(content@, '\0');
    }
    if at < n {
        assert(content@[at as int] == '\0');
        let line = count_char(&v, at, '\n') + 1;
        return Err(ChordProError::Invalid { reason: "nul_character", line: Some(line) });
    }
    let text = replaced(content, "\r\n", "\n");
    let text = replaced(text.as_str(), "\r", "\n");
    let text = nfc(text.as_str());
    Ok(only_visible(text.as_str()))
}

// ---------------------------------------------------------------------
// Directives
// ---------------------------------------------------------------------

pub open spec fn is_brace(c: char) -> bool {
    c == '{' || c == '}'
}

/// `s` with its braces as spaces.
pub open spec fn without_braces(s: Seq<char>) -> Seq<char> {
    Seq::new(
        s.len(),
        |i: int|
            if is_brace(s[i]) {
                ' '
            } else {
                s[i]
            },
    )
}

/// A directive value without braces, its blanks collapsed.
pub open spec fn cleaned(value: Seq<char>) -> Seq<char> {
    squeeze(without_braces(value))
}

/// Removes braces and collapses whitespace in a directive value.
pub fn clean_value(value: &str) -> (r: String)
    ensures
        r@ == cleaned(value@),
{
    let v = chars(value);
    let mut t = String::new();
    let mut i: usize = 0;
    while i < v.len()
        invariant
            i <= v@.len(),
            t@ =~= without_braces(v@).take(i as int),
        decreases v@.len() - i,
    {
        let c = v[i];
        t.push(
            if c == '{' || c == '}' {
                ' '
            } else {
                c
            },
        );
        i = i + 1;
    }
    assert(t@ =~= without_braces(value@));
    squeezed(t.as_str())
}

/// The name and the value of a line that is a whole directive.
pub open spec fn directive_of(line: Seq<char>) -> Option<(Seq<char>, Seq<char>)> {
    match enclosed(line, '{', '}') {
        Some(inner) => {
            let (name, value) = split_once(inner, ':');
            Some((ascii_lower(trim(name)), cleaned(value)))
        },
        None => None,
    }
}

/// `{name}` or `{name: value}` (also `{name:value}`). `None` for lines
/// that aren't a whole directive.
pub fn parse_directive(line: &str) -> (r: Option<(String, String)>)
    ensures
        match r {
            Some(p) => directive_of(line@) == Some((p.0@, p.1@)),
            None => directive_of(line@) is None,
        },
{
    match inside(line, '{', '}') {
        Some(inner) => {
            let v = chars(inner.as_str());
            let n = v.len();
            let i = find_char(&v, 0, n, ':');
            assert(v@.subrange(0, n as int) =~= inner@);
            let name = piece(&v, 0, i);
            assert(name@ =~= inner@.take(i as int));
            let value = if i < n {
                piece(&v, i + 1, n)
            } else {
                String::new()
            };
            proof {
                lemma_index_of(inner@, ':');
                assert(inner@.take(n as int) =~= inner@);
                if i < n {
                    assert(value@ =~= inner@.skip(i + 1));
                } else {
                    assert(value@ =~= seq![]);
                }
            }
            let name = trimmed(name.as_str());
            Some((lowered(name.as_str()), clean_value(value.as_str())))
        },
        None => None,
    }
}

/// The directives that are kept in the lyrics.
pub const KEPT_DIRECTIVES: [&'static str; 21] = [
    "start_of_chorus",
    "soc",
    "end_of_chorus",
    "eoc",
    "start_of_verse",
    "sov",
    "end_of_verse",
    "eov",
    "start_of_bridge",
    "sob",
    "end_of_bridge",
    "eob",
    "start_of_tab",
    "sot",
    "end_of_tab",
    "eot",
    "chorus",
    "comment",
    "c",
    "comment_italic",
    "ci",
];

pub open spec fn is_kept_directive(name: Seq<char>) -> bool {
    exists|i: int| 0 <= i < 21 && #[trigger] KEPT_DIRECTIVES@[i]@ == name
}

fn kept_directive(name: &str) -> (r: bool)
    ensures
        r == is_kept_directive(name@),
{
    let mut i: usize = 0;
    while i < 21
        invariant
            i <= 21,
            forall|j: int| 0 <= j < i ==> #[trigger] KEPT_DIRECTIVES@[j]@ != name@,
        decreases 21 - i,
    {
        if same(KEPT_DIRECTIVES[i], name) {
            assert(KEPT_DIRECTIVES@[i as int]@ == name@);
            return true;
        }
        i = i + 1;
    }
    false
}

pub open spec fn is_name_char(c: char) -> bool {
    is_lower(c) || is_digit(c) || c == '_'
}

/// A name that a directive can have.
pub open spec fn is_directive_name(name: Seq<char>) -> bool {
    name.len() > 0 && forall|i: int| 0 <= i < name.len() ==> is_name_char(#[trigger] name[i])
}

fn proper_name(name: &str) -> (r: bool)
    ensures
        r == is_directive_name(name@),
{
    let v = chars(name);
    let mut i: usize = 0;
    while i < v.len()
        invariant
            v@ == name@,
            i <= v@.len(),
            forall|j: int| 0 <= j < i ==> is_name_char(#[trigger] name@[j]),
        decreases v@.len() - i,
    {
        let c = v[i];
        if !(char_is_lower(c) || char_is_digit(c) || c == '_') {
            assert(!is_name_char(name@[i as int]));
            return false;
        }
        i = i + 1;
    }
    v.len() > 0
}

// ---------------------------------------------------------------------
// Lyric lines
// ---------------------------------------------------------------------

/// The first bracket from position `i` on, or the length.
pub open spec fn next_bracket(v: Seq<char>, i: int) -> int
    decreases v.len() - i,
{
    if i < 0 || i >= v.len() {
        v.len() as int
    } else if v[i] == '[' || v[i] == ']' {
        i
    } else {
        next_bracket(v, i + 1)
    }
}

/// What has been read of a lyric line: the text that is kept, the warnings,
/// and whether a brace was removed.
pub ghost struct Cleaning {
    pub text: Seq<char>,
    pub warnings: Seq<WarningView>,
    pub braces: bool,
}

/// What the rest of line `number`, from position `i` on, adds to `c`.
pub open spec fn clean_from(c: Cleaning, v: Seq<char>, i: int, number: int) -> Cleaning
    decreases v.len() - i,
{
    if i < 0 || i >= v.len() {
        c
    } else if v[i] == '[' {
        proof {
            lemma_next_bracket(v, i + 1);
        }
        let close = next_bracket(v, i + 1);
        if close < v.len() && v[close] == ']' {
            let inner = trim(v.subrange(i + 1, close));
            let next = if inner.len() > 0 && is_chord_symbol(inner) {
                Cleaning { text: c.text + ("["@ + inner + "]"@), ..c }
            } else {
                Cleaning {
                    warnings: warned(c.warnings, "invalid_chord"@, Some(number), Some(inner)),
                    ..c
                }
            };
            clean_from(next, v, close + 1, number)
        } else {
            let next = Cleaning {
                warnings: warned(c.warnings, "unbalanced_bracket"@, Some(number), None),
                ..c
            };
            clean_from(next, v, i + 1, number)
        }
    } else if v[i] == ']' {
        let next = Cleaning {
            warnings: warned(c.warnings, "unbalanced_bracket"@, Some(number), None),
            ..c
        };
        clean_from(next, v, i + 1, number)
    } else if is_brace(v[i]) {
        clean_from(Cleaning { braces: true, ..c }, v, i + 1, number)
    } else {
        clean_from(Cleaning { text: c.text.push(v[i]), ..c }, v, i + 1, number)
    }
}

pub proof fn lemma_next_bracket(v: Seq<char>, i: int)
    requires
        0 <= i <= v.len(),
    ensures
        i <= next_bracket(v, i) <= v.len(),
        next_bracket(v, i) < v.len() ==> v[next_bracket(v, i)] == '[' || v[next_bracket(v, i)]
            == ']',
        forall|j: int| i <= j < next_bracket(v, i) ==> #[trigger] v[j] != '[' && v[j] != ']',
    decreases v.len() - i,
{
    if i < v.len() && v[i] != '[' && v[i] != ']' {
        lemma_next_bracket(v, i + 1);
    }
}

/// The kept text of a lyric line, and the warnings after it.
pub open spec fn clean_line(line: Seq<char>, number: int, warnings: Seq<WarningView>) -> (
    Seq<char>,
    Seq<WarningView>,
) {
    let c = clean_from(Cleaning { text: seq![], warnings, braces: false }, line, 0, number);
    (
        trim_end(c.text),
        if c.braces {
            warned(c.warnings, "braces_removed"@, Some(number), None)
        } else {
            c.warnings
        },
    )
}

fn find_bracket(v: &Vec<char>, from: usize) -> (r: usize)
    requires
        from <= v@.len(),
    ensures
        r == next_bracket(v@, from as int),
        from <= r <= v@.len(),
{
    let n = v.len();
    let mut i: usize = from;
    while i < n && v[i] != '[' && v[i] != ']'
        invariant
            n == v@.len(),
            from <= i <= n,
            next_bracket(v@, from as int) == next_bracket(v@, i as int),
        decreases n - i,
    {
        i = i + 1;
    }
    i
}

/// Keeps valid `[chord]` brackets, removes everything else in brackets,
/// stray brackets and braces.
pub fn clean_lyric_line(line: &str, number: usize, warnings: &mut Vec<ImportWarning>) -> (r: String)
    ensures
        (r@, warning_views(final(warnings)@)) == clean_line(
            line@,
            number as int,
            warning_views(old(warnings)@),
        ),
{
    let v = chars(line);
    let n = v.len();
    let mut out = String::new();
    let mut braces = false;
    let mut i: usize = 0;
    let ghost start = Cleaning {
        text: seq![],
        warnings: warning_views(warnings@),
        braces: false,
    };
    assert(out@ =~= seq![]);
    while i < n
        invariant
            v@ == line@,
            n == v@.len(),
            i <= n,
            clean_from(start, line@, 0, number as int) == clean_from(
                Cleaning { text: out@, warnings: warning_views(warnings@), braces },
                line@,
                i as int,
                number as int,
            ),
        decreases n - i,
    {
        let c = v[i];
        if c == '[' {
            let close = find_bracket(&v, i + 1);
            if close < n && v[close] == ']' {
                let inner = trimmed(piece(&v, i + 1, close).as_str());
                if !inner.as_str().is_empty() && is_chord(inner.as_str()) {
                    let ghost before = out@;
                    out.append("[");
                    out.append(inner.as_str());
                    out.append("]");
                    assert(out@ =~= before + ("["@ + inner@ + "]"@));
                } else {
                    warn(warnings, "invalid_chord", Some(number), Some(inner.as_str()));
                }
                i = close + 1;
            } else {
                warn(warnings, "unbalanced_bracket", Some(number), None);
                i = i + 1;
            }
        } else if c == ']' {
            warn(warnings, "unbalanced_bracket", Some(number), None);
            i = i + 1;
        } else if c == '{' || c == '}' {
            braces = true;
            i = i + 1;
        } else {
            out.push(c);
            i = i + 1;
        }
    }
    if braces {
        warn(warnings, "braces_removed", Some(number), None);
    }
    end_trimmed(out.as_str())
}

// ---------------------------------------------------------------------
// The song
// ---------------------------------------------------------------------

/// What has been read of a file.
pub ghost struct Draft {
    pub title: Option<Seq<char>>,
    pub artist: Option<Seq<char>>,
    pub subtitle: Option<Seq<char>>,
    pub tonality: Option<Tonality>,
    pub tempo: Option<i32>,
    pub time_signature: Option<Seq<char>>,
    pub capo: Option<i16>,
    pub duration: Option<i32>,
    pub body: Seq<Seq<char>>,
    pub warnings: Seq<WarningView>,
}

/// Nothing read yet.
pub open spec fn empty_draft() -> Draft {
    Draft {
        title: None,
        artist: None,
        subtitle: None,
        tonality: None,
        tempo: None,
        time_signature: None,
        capo: None,
        duration: None,
        body: seq![],
        warnings: seq![],
    }
}

/// The draft with a warning on line `number`.
pub open spec fn noted(d: Draft, code: Seq<char>, number: int, detail: Seq<char>) -> Draft {
    Draft { warnings: warned(d.warnings, code, Some(number), Some(detail)), ..d }
}

pub open spec fn if_any(value: Seq<char>) -> Option<Seq<char>> {
    if value.len() == 0 {
        None
    } else {
        Some(value)
    }
}

pub open spec fn refused(reason: Seq<char>, line: Option<int>) -> ErrorView {
    ErrorView::Invalid { reason, line }
}

/// A directive as it is kept in the lyrics.
pub open spec fn directive_text(name: Seq<char>, value: Seq<char>) -> Seq<char> {
    if value.len() == 0 {
        "{"@ + name + "}"@
    } else {
        "{"@ + name + ": "@ + value + "}"@
    }
}

/// The draft after the directive on line `number`.
pub open spec fn with_directive(d: Draft, name: Seq<char>, value: Seq<char>, number: int) -> Result<
    Draft,
    ErrorView,
> {
    if !is_directive_name(name) {
        Ok(noted(d, "directive_dropped"@, number, name))
    } else if name == "new_song"@ || name == "ns"@ {
        Err(refused("multiple_songs"@, Some(number)))
    } else if name == "title"@ || name == "t"@ {
        if d.title is Some {
            Err(refused("multiple_songs"@, Some(number)))
        } else {
            Ok(Draft { title: if_any(value), ..d })
        }
    } else if name == "subtitle"@ || name == "st"@ {
        if d.subtitle is None {
            Ok(Draft { subtitle: if_any(value), ..d })
        } else {
            Ok(d)
        }
    } else if name == "artist"@ {
        if d.artist is Some {
            Ok(noted(d, "duplicate_directive"@, number, name))
        } else {
            Ok(Draft { artist: if_any(value), ..d })
        }
    } else if name == "key"@ {
        match key_of(value) {
            Some(x) => if d.tonality is None {
                Ok(Draft { tonality: Some(x), ..d })
            } else {
                Ok(noted(d, "duplicate_directive"@, number, name))
            },
            None => Ok(noted(d, "invalid_key"@, number, value)),
        }
    } else if name == "tempo"@ {
        match tempo_of(value) {
            Some(x) => if d.tempo is None {
                Ok(Draft { tempo: Some(x), ..d })
            } else {
                Ok(noted(d, "duplicate_directive"@, number, name))
            },
            None => Ok(noted(d, "invalid_tempo"@, number, value)),
        }
    } else if name == "capo"@ {
        match capo_of(value) {
            Some(x) => if d.capo is None {
                Ok(Draft { capo: Some(x), ..d })
            } else {
                Ok(noted(d, "duplicate_directive"@, number, name))
            },
            None => Ok(noted(d, "invalid_capo"@, number, value)),
        }
    } else if name == "duration"@ {
        match duration_of(value) {
            Some(x) => if d.duration is None {
                Ok(Draft { duration: Some(x), ..d })
            } else {
                Ok(noted(d, "duplicate_directive"@, number, name))
            },
            None => Ok(noted(d, "invalid_duration"@, number, value)),
        }
    } else if name == "time"@ {
        let time = replace(value, " "@, ""@);
        if !is_time_signature(time) {
            Ok(noted(d, "invalid_time"@, number, time))
        } else if d.time_signature is None {
            Ok(Draft { time_signature: Some(time), ..d })
        } else {
            Ok(noted(d, "duplicate_directive"@, number, name))
        }
    } else if name == "album"@ {
        Ok(noted(d, "album_dropped"@, number, value))
    } else if is_kept_directive(name) {
        Ok(Draft { body: d.body.push(directive_text(name, value)), ..d })
    } else {
        Ok(noted(d, "directive_dropped"@, number, name))
    }
}

/// The draft after line `number`.
pub open spec fn with_line(d: Draft, raw: Seq<char>, number: int) -> Result<Draft, ErrorView> {
    match directive_of(trim(raw)) {
        Some((name, value)) => with_directive(d, name, value, number),
        None => {
            let (text, warnings) = clean_line(raw, number, d.warnings);
            Ok(Draft { body: d.body.push(text), warnings, ..d })
        },
    }
}

/// The draft after the lines from `i` on.
pub open spec fn with_lines(d: Draft, lines: Seq<Seq<char>>, i: int) -> Result<Draft, ErrorView>
    decreases lines.len() - i,
{
    if i < 0 || i >= lines.len() {
        Ok(d)
    } else {
        match with_line(d, lines[i], i + 1) {
            Ok(next) => with_lines(next, lines, i + 1),
            Err(e) => Err(e),
        }
    }
}

/// `done`, then the rest of the body: no blank line first, and at most two in
/// a row. `run` counts the blank lines just read.
pub open spec fn collapsed(done: Seq<Seq<char>>, run: int, body: Seq<Seq<char>>) -> Seq<Seq<char>>
    decreases body.len(),
{
    if body.len() == 0 {
        done
    } else if trim(body[0]).len() == 0 {
        if run + 1 > 2 || done.len() == 0 {
            collapsed(done, run + 1, body.skip(1))
        } else {
            collapsed(done.push(seq![]), run + 1, body.skip(1))
        }
    } else {
        collapsed(done.push(body[0]), 0, body.skip(1))
    }
}

/// `v` without the empty lines at its end.
pub open spec fn without_last_empty(v: Seq<Seq<char>>) -> Seq<Seq<char>>
    decreases v.len(),
{
    if v.len() > 0 && v.last().len() == 0 {
        without_last_empty(v.drop_last())
    } else {
        v
    }
}

/// The lyrics of a body; none when every line is blank.
pub open spec fn lyrics_of(body: Seq<Seq<char>>) -> Option<Seq<char>> {
    let v = without_last_empty(collapsed(seq![], 0, body));
    if v.len() == 0 {
        None
    } else {
        Some(join(v, "\n"@))
    }
}

/// The title that wins: the given one, unless nothing is left of it, or the
/// file's.
pub open spec fn title_of(given: Option<Seq<char>>, file: Option<Seq<char>>) -> Option<Seq<char>> {
    match given {
        Some(t) => if cleaned(t).len() > 0 {
            Some(cleaned(t))
        } else {
            file
        },
        None => file,
    }
}

/// The song of a draft.
pub open spec fn finished(d: Draft, given: Option<Seq<char>>) -> Result<SongView, ErrorView> {
    match title_of(given, d.title) {
        None => Err(refused("missing_title"@, None)),
        Some(title) => {
            let w = if title.len() > MAX_TITLE_CHARS {
                warned(d.warnings, "title_truncated"@, None, None)
            } else {
                d.warnings
            };
            let artist = if d.artist is Some {
                d.artist
            } else {
                d.subtitle
            };
            let w2 = if artist is Some && artist->0.len() > MAX_ARTIST_CHARS {
                warned(w, "artist_truncated"@, None, None)
            } else {
                w
            };
            Ok(
                SongView {
                    title: cut(title, MAX_TITLE_CHARS as int),
                    artist_name: match artist {
                        Some(a) => Some(cut(a, MAX_ARTIST_CHARS as int)),
                        None => None,
                    },
                    tonality: d.tonality,
                    tempo: d.tempo,
                    time_signature: d.time_signature,
                    capo: d.capo,
                    duration: d.duration,
                    lyrics: lyrics_of(d.body),
                    warnings: w2,
                },
            )
        },
    }
}

/// The first line longer than allowed, or the number of lines.
pub open spec fn first_long(lines: Seq<Seq<char>>, i: int) -> int
    decreases lines.len() - i,
{
    if i < 0 || i >= lines.len() || lines[i].len() > MAX_LINE_CHARS {
        i
    } else {
        first_long(lines, i + 1)
    }
}

/// The song in a sanitized text.
pub open spec fn song_in(text: Seq<char>, given: Option<Seq<char>>) -> Result<SongView, ErrorView> {
    let lines = split(text, '\n');
    let long = first_long(lines, 0);
    if lines.len() > MAX_LINES {
        Err(refused("too_many_lines"@, Some(MAX_LINES + 1)))
    } else if long < lines.len() {
        Err(refused("line_too_long"@, Some(long + 1)))
    } else {
        match with_lines(empty_draft(), lines, 0) {
            Ok(d) => finished(d, given),
            Err(e) => Err(e),
        }
    }
}

/// The song in a file.
pub open spec fn song_of(content: Seq<char>, given: Option<Seq<char>>) -> Result<
    SongView,
    ErrorView,
> {
    if vstd::utf8::encode_utf8(content).len() > MAX_CONTENT_BYTES {
        Err(ErrorView::TooLarge)
    } else {
        match sanitized(content) {
            Ok(text) => song_in(text, given),
            Err(e) => Err(e),
        }
    }
}

struct Reading {
    title: Option<String>,
    artist: Option<String>,
    subtitle: Option<String>,
    tonality: Option<Tonality>,
    tempo: Option<i32>,
    time_signature: Option<String>,
    capo: Option<i16>,
    duration: Option<i32>,
    body: Vec<String>,
    warnings: Vec<ImportWarning>,
}

fn unless_empty(value: &str) -> (r: Option<String>)
    ensures
        opt_text(r) == if_any(value@),
{
    if value.is_empty() {
        None
    } else {
        Some(value.to_string())
    }
}

impl Reading {
    spec fn draft(self) -> Draft {
        Draft {
            title: opt_text(self.title),
            artist: opt_text(self.artist),
            subtitle: opt_text(self.subtitle),
            tonality: self.tonality,
            tempo: self.tempo,
            time_signature: opt_text(self.time_signature),
            capo: self.capo,
            duration: self.duration,
            body: texts(self.body@),
            warnings: warning_views(self.warnings@),
        }
    }

    fn take_directive(&mut self, name: &str, value: &str, number: usize) -> (r: Result<
        (),
        ChordProError,
    >)
        ensures
            match r {
                Ok(_) => with_directive(old(self).draft(), name@, value@, number as int) == Ok::<
                    Draft,
                    ErrorView,
                >(final(self).draft()),
                Err(e) => with_directive(old(self).draft(), name@, value@, number as int) == Err::<
                    Draft,
                    ErrorView,
                >(e@),
            },
    {
        let ghost before = self.draft();
        if !proper_name(name) {
            warn(&mut self.warnings, "directive_dropped", Some(number), Some(name));
            return Ok(());
        }
        if same(name, "new_song") || same(name, "ns") {
            return Err(
                ChordProError::Invalid { reason: "multiple_songs", line: Some(number) },
            );
        }
        if same(name, "title") || same(name, "t") {
            if self.title.is_some() {
                return Err(
                    ChordProError::Invalid { reason: "multiple_songs", line: Some(number) },
                );
            }
            self.title = unless_empty(value);
            return Ok(());
        }
        if same(name, "subtitle") || same(name, "st") {
            if self.subtitle.is_none() {
                self.subtitle = unless_empty(value);
            }
            return Ok(());
        }
        if same(name, "artist") {
            if self.artist.is_some() {
                warn(&mut self.warnings, "duplicate_directive", Some(number), Some(name));
            } else {
                self.artist = unless_empty(value);
            }
            return Ok(());
        }
        if same(name, "key") {
            match parse_key(value) {
                Some(x) => {
                    if self.tonality.is_none() {
                        self.tonality = Some(x);
                    } else {
                        warn(&mut self.warnings, "duplicate_directive", Some(number), Some(name));
                    }
                },
                None => {
                    warn(&mut self.warnings, "invalid_key", Some(number), Some(value));
                },
            }
            return Ok(());
        }
        if same(name, "tempo") {
            match parse_tempo(value) {
                Some(x) => {
                    if self.tempo.is_none() {
                        self.tempo = Some(x);
                    } else {
                        warn(&mut self.warnings, "duplicate_directive", Some(number), Some(name));
                    }
                },
                None => {
                    warn(&mut self.warnings, "invalid_tempo", Some(number), Some(value));
                },
            }
            return Ok(());
        }
        if same(name, "capo") {
            match parse_capo(value) {
                Some(x) => {
                    if self.capo.is_none() {
                        self.capo = Some(x);
                    } else {
                        warn(&mut self.warnings, "duplicate_directive", Some(number), Some(name));
                    }
                },
                None => {
                    warn(&mut self.warnings, "invalid_capo", Some(number), Some(value));
                },
            }
            return Ok(());
        }
        if same(name, "duration") {
            match parse_duration(value) {
                Some(x) => {
                    if self.duration.is_none() {
                        self.duration = Some(x);
                    } else {
                        warn(&mut self.warnings, "duplicate_directive", Some(number), Some(name));
                    }
                },
                None => {
                    warn(&mut self.warnings, "invalid_duration", Some(number), Some(value));
                },
            }
            return Ok(());
        }
        if same(name, "time") {
            proof {
                reveal_strlit(" ");
            }
            let time = replaced(value, " ", "");
            if !time_signature_known(time.as_str()) {
                warn(&mut self.warnings, "invalid_time", Some(number), Some(time.as_str()));
            } else if self.time_signature.is_none() {
                self.time_signature = Some(time);
            } else {
                warn(&mut self.warnings, "duplicate_directive", Some(number), Some(name));
            }
            return Ok(());
        }
        if same(name, "album") {
            warn(&mut self.warnings, "album_dropped", Some(number), Some(value));
            return Ok(());
        }
        if kept_directive(name) {
            let mut text = "{".to_string();
            text.append(name);
            if !value.is_empty() {
                text.append(": ");
                text.append(value);
            }
            text.append("}");
            proof {
                lemma_texts_push(self.body@, text);
            }
            self.body.push(text);
            return Ok(());
        }
        warn(&mut self.warnings, "directive_dropped", Some(number), Some(name));
        Ok(())
    }

    fn take_line(&mut self, raw: &str, number: usize) -> (r: Result<(), ChordProError>)
        ensures
            match r {
                Ok(_) => with_line(old(self).draft(), raw@, number as int) == Ok::<
                    Draft,
                    ErrorView,
                >(final(self).draft()),
                Err(e) => with_line(old(self).draft(), raw@, number as int) == Err::<
                    Draft,
                    ErrorView,
                >(e@),
            },
    {
        let line = trimmed(raw);
        match parse_directive(line.as_str()) {
            Some(p) => self.take_directive(p.0.as_str(), p.1.as_str(), number),
            None => {
                let text = clean_lyric_line(raw, number, &mut self.warnings);
                proof {
                    lemma_texts_push(self.body@, text);
                }
                self.body.push(text);
                Ok(())
            },
        }
    }
}

fn compact_lyrics(body: &Vec<String>) -> (r: Option<String>)
    ensures
        opt_text(r) == lyrics_of(texts(body@)),
{
    let ghost all = texts(body@);
    let mut lyrics: Vec<String> = Vec::new();
    let mut run: usize = 0;
    let mut i: usize = 0;
    assert(all.skip(0) =~= all);
    assert(texts(lyrics@) =~= seq![]);
    while i < body.len()
        invariant
            all == texts(body@),
            i <= body@.len(),
            run <= i,
            collapsed(seq![], 0, all) == collapsed(texts(lyrics@), run as int, all.skip(i as int)),
        decreases body@.len() - i,
    {
        let ghost rest = all.skip(i as int);
        assert(rest[0] == body@[i as int]@);
        assert(rest.skip(1) =~= all.skip(i + 1));
        let t = trimmed(body[i].as_str());
        if t.as_str().is_empty() {
            run = run + 1;
            if run > 2 || lyrics.len() == 0 {
            } else {
                let e = String::new();
                proof {
                    lemma_texts_push(lyrics@, e);
                    assert(e@ =~= seq![]);
                }
                lyrics.push(e);
            }
        } else {
            run = 0;
            let l = body[i].clone();
            proof {
                lemma_texts_push(lyrics@, l);
            }
            lyrics.push(l);
        }
        i = i + 1;
    }
    assert(all.skip(i as int) =~= seq![]);
    while lyrics.len() > 0 && lyrics[lyrics.len() - 1].as_str().is_empty()
        invariant
            without_last_empty(collapsed(seq![], 0, all)) == without_last_empty(texts(lyrics@)),
        decreases lyrics@.len(),
    {
        let ghost before = lyrics@;
        let _ = lyrics.pop();
        assert(texts(lyrics@) =~= texts(before).drop_last());
    }
    if lyrics.len() == 0 {
        None
    } else {
        Some(joined(&lyrics, "\n"))
    }
}

/// The song in a text without invisible or control characters, whose lines
/// end in line feeds.
pub fn parse_normalized(text: &str, title_override: Option<&str>) -> (r: Result<
    ParsedChordPro,
    ChordProError,
>)
    ensures
        match r {
            Ok(song) => song_in(text@, opt_str(title_override)) == Ok::<SongView, ErrorView>(song@),
            Err(e) => song_in(text@, opt_str(title_override)) == Err::<SongView, ErrorView>(e@),
        },
{
    let lines = split_at(text, '\n');
    let ghost all = texts(lines@);
    let n = lines.len();
    if n > MAX_LINES {
        return Err(
            ChordProError::Invalid { reason: "too_many_lines", line: Some(MAX_LINES + 1) },
        );
    }
    let mut i: usize = 0;
    while i < n
        invariant
            all == texts(lines@),
            n == lines@.len(),
            n <= MAX_LINES,
            i <= n,
            all == split(text@, '\n'),
            first_long(all, 0) == first_long(all, i as int),
        decreases n - i,
    {
        assert(all[i as int] == lines@[i as int]@);
        if chars(lines[i].as_str()).len() > MAX_LINE_CHARS {
            return Err(ChordProError::Invalid { reason: "line_too_long", line: Some(i + 1) });
        }
        i = i + 1;
    }
    let mut reading = Reading {
        title: None,
        artist: None,
        subtitle: None,
        tonality: None,
        tempo: None,
        time_signature: None,
        capo: None,
        duration: None,
        body: Vec::new(),
        warnings: Vec::new(),
    };
    proof {
        assert(texts(reading.body@) =~= seq![]);
        assert(warning_views(reading.warnings@) =~= seq![]);
    }
    let mut k: usize = 0;
    while k < n
        invariant
            all == texts(lines@),
            n == lines@.len(),
            n <= MAX_LINES,
            k <= n,
            all == split(text@, '\n'),
            first_long(all, 0) == n,
            with_lines(empty_draft(), all, 0) == with_lines(reading.draft(), all, k as int),
        decreases n - k,
    {
        assert(all[k as int] == lines@[k as int]@);
        match reading.take_line(lines[k].as_str(), k + 1) {
            Ok(_) => {},
            Err(e) => {
                return Err(e);
            },
        }
        k = k + 1;
    }
    let ghost d = reading.draft();
    let mut warnings = reading.warnings;
    let given = match title_override {
        Some(t) => unless_empty(clean_value(t).as_str()),
        None => None,
    };
    let title = match given {
        Some(t) => Some(t),
        None => reading.title,
    };
    let title = match title {
        Some(t) => t,
        None => {
            return Err(ChordProError::Invalid { reason: "missing_title", line: None });
        },
    };
    assert(title_of(opt_str(title_override), d.title) == Some(title@));
    if chars(title.as_str()).len() > MAX_TITLE_CHARS {
        warn(&mut warnings, "title_truncated", None, None);
    }
    let artist = match reading.artist {
        Some(a) => Some(a),
        None => reading.subtitle,
    };
    let artist_name = match artist {
        Some(a) => {
            if chars(a.as_str()).len() > MAX_ARTIST_CHARS {
                warn(&mut warnings, "artist_truncated", None, None);
            }
            Some(cut_to(a.as_str(), MAX_ARTIST_CHARS))
        },
        None => None,
    };
    Ok(
        ParsedChordPro {
            title: cut_to(title.as_str(), MAX_TITLE_CHARS),
            artist_name,
            tonality: reading.tonality,
            tempo: reading.tempo,
            time_signature: reading.time_signature,
            capo: reading.capo,
            duration: reading.duration,
            lyrics: compact_lyrics(&reading.body),
            warnings,
        },
    )
}

/// Parses one ChordPro song. `title_override` (trimmed, non-empty) wins
/// over the file's `{title}`.
pub fn parse(content: &str, title_override: Option<&str>) -> (r: Result<
    ParsedChordPro,
    ChordProError,
>)
    ensures
        match r {
            Ok(song) => song_of(content@, opt_str(title_override)) == Ok::<SongView, ErrorView>(
                song@,
            ),
            Err(e) => song_of(content@, opt_str(title_override)) == Err::<SongView, ErrorView>(e@),
        },
{
    if content.as_bytes().len() > MAX_CONTENT_BYTES {
        return Err(ChordProError::TooLarge);
    }
    match sanitize(content) {
        Ok(text) => parse_normalized(text.as_str(), title_override),
        Err(e) => Err(e),
    }
}

} // verus!
