//! What a printed sheet holds: the header, the running order and the songbook
//! of a setlist, or a single song, as blocks to be drawn one after the other.

use crate::export::chords::{segments, ChordSegment, SegmentView};
use crate::export::options::{labels_of, PdfExportOptions, PdfLocale};
use crate::models::page::clamped;
use crate::models::setlist::SetlistItem;
use crate::models::song::SongWithArtist;
use crate::models::tonality::{tonality_name, Tonality};
use crate::text::{
    decimal, decimal_of, in_upper_case, join, joined, lemma_texts_push, number, number_of,
    opt_text, texts, two_digits, two_digits_of, upper_case,
};
use vstd::prelude::*;

verus! {

// ---------------------------------------------------------------------
// Blocks
// ---------------------------------------------------------------------

#[derive(Debug, Clone, Copy, PartialEq, Eq, Structural)]
pub struct Rgb {
    pub red: u8,
    pub green: u8,
    pub blue: u8,
}

/// How a text is printed.
#[derive(Debug, Clone, Copy, PartialEq, Eq, Structural)]
pub struct TextStyle {
    /// In points.
    pub size: u8,
    pub bold: bool,
    pub italic: bool,
    pub color: Option<Rgb>,
}

#[derive(Debug, Clone, Copy, PartialEq, Eq, Structural)]
pub enum Align {
    Left,
    Center,
}

/// A text in one style.
#[derive(Debug, PartialEq)]
pub struct Span {
    pub text: String,
    pub style: TextStyle,
}

/// One thing to draw.
#[derive(Debug, PartialEq)]
pub enum Block {
    /// A paragraph; a padded one has a little room above and below.
    Paragraph { spans: Vec<Span>, align: Align, padded: bool },
    /// Room, in tenths of a line.
    Space { tenths: u8 },
    /// A thin line across the page.
    Rule { color: Rgb },
    PageBreak,
    /// A lyric line with its chords above it.
    Lyric { segments: Vec<ChordSegment>, lyric: TextStyle, chord: TextStyle },
}

/// Two columns side by side.
#[derive(Debug, PartialEq)]
pub struct Row {
    pub left: Vec<Block>,
    pub right: Option<Vec<Block>>,
}

/// A part of a sheet.
#[derive(Debug, PartialEq)]
pub enum Part {
    One(Block),
    Columns(Vec<Row>),
}

pub ghost struct SpanView {
    pub text: Seq<char>,
    pub style: TextStyle,
}

pub ghost enum BlockView {
    Paragraph { spans: Seq<SpanView>, align: Align, padded: bool },
    Space { tenths: u8 },
    Rule { color: Rgb },
    PageBreak,
    Lyric { segments: Seq<SegmentView>, lyric: TextStyle, chord: TextStyle },
}

pub ghost struct RowView {
    pub left: Seq<BlockView>,
    pub right: Option<Seq<BlockView>>,
}

pub ghost enum PartView {
    One(BlockView),
    Columns(Seq<RowView>),
}

impl View for Span {
    type V = SpanView;

    open spec fn view(&self) -> SpanView {
        SpanView { text: self.text@, style: self.style }
    }
}

pub open spec fn spans(v: Seq<Span>) -> Seq<SpanView> {
    Seq::new(v.len(), |i: int| v[i]@)
}

impl View for Block {
    type V = BlockView;

    open spec fn view(&self) -> BlockView {
        match self {
            Block::Paragraph { spans: s, align, padded } => BlockView::Paragraph {
                spans: spans(s@),
                align: *align,
                padded: *padded,
            },
            Block::Space { tenths } => BlockView::Space { tenths: *tenths },
            Block::Rule { color } => BlockView::Rule { color: *color },
            Block::PageBreak => BlockView::PageBreak,
            Block::Lyric { segments: s, lyric, chord } => BlockView::Lyric {
                segments: segments(s@),
                lyric: *lyric,
                chord: *chord,
            },
        }
    }
}

pub open spec fn blocks(v: Seq<Block>) -> Seq<BlockView> {
    Seq::new(v.len(), |i: int| v[i]@)
}

impl View for Row {
    type V = RowView;

    open spec fn view(&self) -> RowView {
        RowView {
            left: blocks(self.left@),
            right: match self.right {
                Some(r) => Some(blocks(r@)),
                None => None,
            },
        }
    }
}

pub open spec fn rows(v: Seq<Row>) -> Seq<RowView> {
    Seq::new(v.len(), |i: int| v[i]@)
}

impl View for Part {
    type V = PartView;

    open spec fn view(&self) -> PartView {
        match self {
            Part::One(b) => PartView::One(b@),
            Part::Columns(r) => PartView::Columns(rows(r@)),
        }
    }
}

pub open spec fn parts(v: Seq<Part>) -> Seq<PartView> {
    Seq::new(v.len(), |i: int| v[i]@)
}

/// The blocks as parts.
pub open spec fn ones(v: Seq<BlockView>) -> Seq<PartView> {
    Seq::new(v.len(), |i: int| PartView::One(v[i]))
}

pub(crate) fn push_block(v: &mut Vec<Block>, b: Block)
    ensures
        blocks(final(v)@) == blocks(old(v)@).push(b@),
{
    let ghost before = v@;
    v.push(b);
    assert(blocks(v@) =~= blocks(before).push(b@));
}

pub(crate) fn append_blocks(v: &mut Vec<Part>, more: Vec<Block>)
    ensures
        parts(final(v)@) == parts(old(v)@) + ones(blocks(more@)),
{
    let ghost start = parts(v@);
    let ghost wanted = ones(blocks(more@));
    assert(start + wanted.take(0) =~= start);
    for b in it: more
        invariant
            it.seq() == more@,
            wanted == ones(blocks(more@)),
            parts(v@) =~= start + wanted.take(it.index() as int),
    {
        let ghost before = v@;
        let p = Part::One(b);
        assert(p@ == wanted[it.index() as int]);
        v.push(p);
        assert(parts(v@) =~= parts(before).push(p@));
    }
    assert(wanted.take(wanted.len() as int) =~= wanted);
}

// ---------------------------------------------------------------------
// Styles
// ---------------------------------------------------------------------

/// A text size of `tenths` tenths of a point at `percent` percent: whole
/// points, from 6 to 72.
pub open spec fn scaled(tenths: int, percent: int) -> u8 {
    clamped((tenths * percent + 500) / 1_000, 6, 72) as u8
}

pub open spec fn rgb(red: u8, green: u8, blue: u8) -> Rgb {
    Rgb { red, green, blue }
}

/// Plain text.
pub open spec fn text_style(tenths: int, percent: int) -> TextStyle {
    TextStyle { size: scaled(tenths, percent), bold: false, italic: false, color: None }
}

/// Text in grey.
pub open spec fn muted_style(tenths: int, percent: int) -> TextStyle {
    TextStyle { color: Some(rgb(95, 95, 95)), ..text_style(tenths, percent) }
}

pub open spec fn bold(s: TextStyle) -> TextStyle {
    TextStyle { bold: true, ..s }
}

pub open spec fn italic(s: TextStyle) -> TextStyle {
    TextStyle { italic: true, ..s }
}

pub open spec fn colored(s: TextStyle, color: Rgb) -> TextStyle {
    TextStyle { color: Some(color), ..s }
}

/// The sizes of the texts of a sheet.
pub struct Styles {
    pub percent: u16,
}

impl Styles {
    pub fn text(&self, tenths: u16) -> (r: TextStyle)
        requires
            tenths <= 1_000,
        ensures
            r == text_style(tenths as int, self.percent as int),
    {
        let t: u32 = tenths as u32;
        let p: u32 = self.percent as u32;
        assert(t * p <= 65_535_000) by (nonlinear_arith)
            requires
                t <= 1_000,
                p <= 65_535,
        ;
        let n = (t * p + 500) / 1_000;
        let size: u8 = if n < 6 {
            6
        } else if n > 72 {
            72
        } else {
            n as u8
        };
        TextStyle { size, bold: false, italic: false, color: None }
    }

    pub fn muted(&self, tenths: u16) -> (r: TextStyle)
        requires
            tenths <= 1_000,
        ensures
            r == muted_style(tenths as int, self.percent as int),
    {
        in_color(self.text(tenths), 95, 95, 95)
    }
}

pub(crate) fn in_bold(s: TextStyle) -> (r: TextStyle)
    ensures
        r == bold(s),
{
    TextStyle { bold: true, ..s }
}

pub(crate) fn in_italic(s: TextStyle) -> (r: TextStyle)
    ensures
        r == italic(s),
{
    TextStyle { italic: true, ..s }
}

pub(crate) fn in_color(s: TextStyle, red: u8, green: u8, blue: u8) -> (r: TextStyle)
    ensures
        r == colored(s, rgb(red, green, blue)),
{
    TextStyle { color: Some(Rgb { red, green, blue }), ..s }
}

/// A paragraph of one text.
pub open spec fn line_block(text: Seq<char>, style: TextStyle, align: Align) -> BlockView {
    BlockView::Paragraph { spans: seq![SpanView { text, style }], align, padded: false }
}

pub(crate) fn line(text: String, style: TextStyle, align: Align) -> (r: Block)
    ensures
        r@ == line_block(text@, style, align),
{
    let mut v: Vec<Span> = Vec::new();
    v.push(Span { text, style });
    assert(spans(v@) =~= seq![SpanView { text: text@, style }]);
    Block::Paragraph { spans: v, align, padded: false }
}

pub open spec fn space(tenths: u8) -> BlockView {
    BlockView::Space { tenths }
}

pub open spec fn rule(red: u8, green: u8, blue: u8) -> BlockView {
    BlockView::Rule { color: rgb(red, green, blue) }
}

pub(crate) fn rule_of(red: u8, green: u8, blue: u8) -> (r: Block)
    ensures
        r@ == rule(red, green, blue),
{
    Block::Rule { color: Rgb { red, green, blue } }
}

// ---------------------------------------------------------------------
// Texts
// ---------------------------------------------------------------------

/// Between the pieces of a line.
pub const DOT: &'static str = "  ·  ";

/// Between the pieces of the header.
pub const WIDE_DOT: &'static str = "   ·   ";

/// A duration in hours and minutes, or in minutes and seconds; a negative one
/// counts as none.
pub open spec fn duration_text(total_secs: int) -> Seq<char> {
    let s = if total_secs < 0 {
        0
    } else {
        total_secs
    };
    if s / 3_600 > 0 {
        decimal((s / 3_600) as nat) + "h "@ + two_digits(((s % 3_600) / 60) as nat) + "m"@
    } else {
        decimal(((s % 3_600) / 60) as nat) + ":"@ + two_digits((s % 60) as nat)
    }
}

pub fn format_duration(total_secs: i32) -> (r: String)
    ensures
        r@ == duration_text(total_secs as int),
{
    let s: u64 = if total_secs < 0 {
        0
    } else {
        total_secs as u64
    };
    let hours = s / 3_600;
    let minutes = (s % 3_600) / 60;
    if hours > 0 {
        let mut r = decimal_of(hours);
        r.append("h ");
        r.append(two_digits_of(minutes).as_str());
        r.append("m");
        r
    } else {
        let mut r = decimal_of(minutes);
        r.append(":");
        r.append(two_digits_of(s % 60).as_str());
        r
    }
}

/// The name of a key.
pub fn format_tonality(t: &Tonality) -> (r: String)
    ensures
        r@ == tonality_name(*t),
{
    t.name()
}

/// A title as printed.
pub open spec fn cased(title: Seq<char>, uppercase: bool) -> Seq<char> {
    if uppercase {
        upper_case(title)
    } else {
        title
    }
}

pub(crate) fn in_case(title: &str, uppercase: bool) -> (r: String)
    ensures
        r@ == cased(title@, uppercase),
{
    if uppercase {
        in_upper_case(title)
    } else {
        title.to_string()
    }
}

/// The title of a song, with its number where numbers are shown.
pub open spec fn title_text(song: SongWithArtist, number: int, options: PdfExportOptions) -> Seq<
    char,
> {
    let title = cased(song.title@, options.uppercase_titles);
    if options.show_numbers {
        decimal(number as nat) + ". "@ + title
    } else {
        title
    }
}

pub fn song_title_text(song: &SongWithArtist, number: usize, options: &PdfExportOptions) -> (r:
    String)
    ensures
        r@ == title_text(*song, number as int, *options),
{
    let title = in_case(song.title.as_str(), options.uppercase_titles);
    if options.show_numbers {
        let mut r = decimal_of(number as u64);
        r.append(". ");
        r.append(title.as_str());
        r
    } else {
        title
    }
}

/// `v` with one more text, when it is shown and there is one.
pub open spec fn with_text(v: Seq<Seq<char>>, shown: bool, t: Option<Seq<char>>) -> Seq<Seq<char>> {
    if shown && t is Some {
        v.push(t->0)
    } else {
        v
    }
}

pub(crate) fn push_text(v: &mut Vec<String>, shown: bool, t: Option<String>)
    ensures
        texts(final(v)@) == with_text(texts(old(v)@), shown, opt_text(t)),
{
    if shown {
        if let Some(s) = t {
            proof {
                lemma_texts_push(v@, s);
            }
            v.push(s);
        }
    }
}

pub open spec fn labelled(label: Seq<char>, value: Seq<char>) -> Seq<char> {
    label + ": "@ + value
}

pub(crate) fn with_label(label: &str, value: &str) -> (r: String)
    ensures
        r@ == labelled(label@, value@),
{
    let mut r = label.to_string();
    r.append(": ");
    r.append(value);
    r
}

/// The key, with its label.
pub open spec fn key_text(t: Option<Tonality>, locale: PdfLocale) -> Option<Seq<char>> {
    match t {
        Some(k) => Some(labelled(labels_of(locale).key@, tonality_name(k))),
        None => None,
    }
}

/// The tempo, with its unit.
pub open spec fn tempo_text(t: Option<i32>) -> Option<Seq<char>> {
    match t {
        Some(n) => Some(number(n as int) + " BPM"@),
        None => None,
    }
}

pub(crate) fn key_of(t: &Option<Tonality>, locale: PdfLocale) -> (r: Option<String>)
    ensures
        opt_text(r) == key_text(*t, locale),
{
    match t {
        Some(k) => Some(with_label(locale.labels().key, format_tonality(k).as_str())),
        None => None,
    }
}

pub(crate) fn tempo_of(t: Option<i32>) -> (r: Option<String>)
    ensures
        opt_text(r) == tempo_text(t),
{
    match t {
        Some(n) => {
            let mut s = number_of(n as i64);
            s.append(" BPM");
            Some(s)
        },
        None => None,
    }
}

pub open spec fn hashed(tags: Seq<Seq<char>>) -> Seq<Seq<char>> {
    Seq::new(tags.len(), |i: int| "#"@ + tags[i])
}

/// The tags, each behind a `#`.
pub open spec fn tags_text(tags: Seq<Seq<char>>) -> Option<Seq<char>> {
    if tags.len() == 0 {
        None
    } else {
        Some(join(hashed(tags), " "@))
    }
}

fn tags_of(tags: &Vec<String>) -> (r: Option<String>)
    ensures
        opt_text(r) == tags_text(texts(tags@)),
{
    if tags.len() == 0 {
        return None;
    }
    let ghost all = texts(tags@);
    let mut v: Vec<String> = Vec::new();
    let mut i: usize = 0;
    while i < tags.len()
        invariant
            all == texts(tags@),
            i <= tags@.len(),
            texts(v@) =~= hashed(all).take(i as int),
        decreases tags@.len() - i,
    {
        let mut t = "#".to_string();
        t.append(tags[i].as_str());
        proof {
            lemma_texts_push(v@, t);
            assert(t@ == "#"@ + all[i as int]);
        }
        v.push(t);
        assert(texts(v@) =~= hashed(all).take(i + 1));
        i = i + 1;
    }
    assert(hashed(all).take(i as int) =~= hashed(all));
    Some(joined(&v, " "))
}

/// What is shown of a song besides its title.
pub open spec fn meta_parts(song: SongWithArtist, options: PdfExportOptions) -> Seq<Seq<char>> {
    let v = with_text(seq![], options.show_artist, Some(song.artist_name@));
    let v = with_text(v, options.show_key, key_text(song.tonality, options.locale));
    let v = with_text(v, options.show_bpm, tempo_text(song.tempo));
    let v = with_text(
        v,
        options.show_song_duration,
        match song.duration {
            Some(d) => Some(duration_text(d as int)),
            None => None,
        },
    );
    with_text(v, options.show_tags, tags_text(texts(song.tags@)))
}

pub fn song_meta_parts(song: &SongWithArtist, options: &PdfExportOptions) -> (r: Vec<String>)
    ensures
        texts(r@) == meta_parts(*song, *options),
{
    let mut v: Vec<String> = Vec::new();
    assert(texts(v@) =~= seq![]);
    push_text(&mut v, options.show_artist, Some(song.artist_name.clone()));
    push_text(&mut v, options.show_key, key_of(&song.tonality, options.locale));
    push_text(&mut v, options.show_bpm, tempo_of(song.tempo));
    push_text(
        &mut v,
        options.show_song_duration,
        match song.duration {
            Some(d) => Some(format_duration(d)),
            None => None,
        },
    );
    push_text(&mut v, options.show_tags, tags_of(&song.tags));
    v
}

// ---------------------------------------------------------------------
// The running order
// ---------------------------------------------------------------------

/// What a break says.
pub open spec fn break_text(label: Option<Seq<char>>, minutes: Option<i32>, locale: PdfLocale) -> Seq<
    char,
> {
    let name = match label {
        Some(l) => l,
        None => labels_of(locale).break_label@,
    };
    match minutes {
        Some(m) => "— "@ + name + " ("@ + number(m as int) + " min) —"@,
        None => "— "@ + name + " —"@,
    }
}

fn break_line(label: &Option<String>, minutes: Option<i32>, locale: PdfLocale) -> (r: String)
    ensures
        r@ == break_text(opt_text(*label), minutes, locale),
{
    let mut r = "— ".to_string();
    match label {
        Some(l) => {
            r.append(l.as_str());
        },
        None => {
            r.append(locale.labels().break_label);
        },
    }
    match minutes {
        Some(m) => {
            r.append(" (");
            r.append(number_of(m as i64).as_str());
            r.append(" min) —");
        },
        None => {
            r.append(" —");
        },
    }
    r
}

/// A song of the running order.
pub open spec fn song_entry(song: SongWithArtist, number: int, options: PdfExportOptions) -> Seq<
    BlockView,
> {
    let meta = meta_parts(song, options);
    let scale = options.font_scale as int;
    let title = title_text(song, number, options);
    if options.compact {
        let head = SpanView { text: title, style: bold(text_style(120, scale)) };
        seq![
            BlockView::Paragraph {
                spans: if meta.len() == 0 {
                    seq![head]
                } else {
                    seq![
                        head,
                        SpanView {
                            text: "   "@ + join(meta, DOT@),
                            style: muted_style(100, scale),
                        },
                    ]
                },
                align: Align::Left,
                padded: true,
            },
        ]
    } else {
        let head = seq![line_block(title, bold(text_style(160, scale)), Align::Left)];
        let all = if meta.len() == 0 {
            head
        } else {
            head.push(line_block(join(meta, DOT@), muted_style(110, scale), Align::Left))
        };
        all.push(space(6))
    }
}

/// One entry of the running order; none for what is not shown.
pub open spec fn entry(item: SetlistItem, number: int, options: PdfExportOptions) -> Option<
    Seq<BlockView>,
> {
    let scale = options.font_scale as int;
    match item {
        SetlistItem::Song { song, .. } => Some(song_entry(song, number, options)),
        SetlistItem::Block { name, .. } => if !options.show_blocks {
            None
        } else {
            Some(
                seq![
                    space(
                        if options.compact {
                            4
                        } else {
                            8
                        },
                    ),
                    line_block(
                        cased(name@, options.uppercase_titles),
                        colored(
                            bold(
                                text_style(
                                    if options.compact {
                                        115
                                    } else {
                                        140
                                    },
                                    scale,
                                ),
                            ),
                            rgb(40, 40, 40),
                        ),
                        Align::Left,
                    ),
                    rule(200, 200, 200),
                ],
            )
        },
        SetlistItem::Break { label, duration_minutes, .. } => if !options.show_breaks {
            None
        } else {
            Some(
                seq![
                    line_block(
                        break_text(opt_text(label), duration_minutes, options.locale),
                        colored(
                            italic(
                                text_style(
                                    if options.compact {
                                        100
                                    } else {
                                        120
                                    },
                                    scale,
                                ),
                            ),
                            rgb(120, 120, 120),
                        ),
                        Align::Left,
                    ),
                    space(
                        if options.compact {
                            3
                        } else {
                            6
                        },
                    ),
                ],
            )
        },
    }
}

fn song_blocks(song: &SongWithArtist, number: usize, options: &PdfExportOptions) -> (r: Vec<Block>)
    ensures
        blocks(r@) == song_entry(*song, number as int, *options),
{
    let styles = Styles { percent: options.font_scale };
    let meta = song_meta_parts(song, options);
    let title = song_title_text(song, number, options);
    let mut out: Vec<Block> = Vec::new();
    assert(blocks(out@) =~= seq![]);
    if options.compact {
        let mut s: Vec<Span> = Vec::new();
        let head = Span { text: title, style: in_bold(styles.text(120)) };
        s.push(head);
        assert(spans(s@) =~= seq![head@]);
        if meta.len() > 0 {
            let mut t = "   ".to_string();
            t.append(joined(&meta, DOT).as_str());
            let tail = Span { text: t, style: styles.muted(100) };
            s.push(tail);
            assert(spans(s@) =~= seq![head@, tail@]);
        }
        let b = Block::Paragraph { spans: s, align: Align::Left, padded: true };
        push_block(&mut out, b);
        assert(blocks(out@) =~= seq![b@]);
    } else {
        let head = line(title, in_bold(styles.text(160)), Align::Left);
        push_block(&mut out, head);
        assert(blocks(out@) =~= seq![head@]);
        if meta.len() > 0 {
            push_block(&mut out, line(joined(&meta, DOT), styles.muted(110), Align::Left));
        }
        push_block(&mut out, Block::Space { tenths: 6 });
    }
    out
}

/// One entry of the running order; none for what is not shown.
pub fn running_order_entry(item: &SetlistItem, number: usize, options: &PdfExportOptions) -> (r:
    Option<Vec<Block>>)
    ensures
        match r {
            Some(v) => entry(*item, number as int, *options) == Some(blocks(v@)),
            None => entry(*item, number as int, *options) is None,
        },
{
    let styles = Styles { percent: options.font_scale };
    match item {
        SetlistItem::Song { song, .. } => Some(song_blocks(song, number, options)),
        SetlistItem::Block { name, .. } => {
            if !options.show_blocks {
                return None;
            }
            let mut out: Vec<Block> = Vec::new();
            let a = Block::Space {
                tenths: if options.compact {
                    4
                } else {
                    8
                },
            };
            let b = line(
                in_case(name.as_str(), options.uppercase_titles),
                in_color(
                    in_bold(
                        styles.text(
                            if options.compact {
                                115
                            } else {
                                140
                            },
                        ),
                    ),
                    40,
                    40,
                    40,
                ),
                Align::Left,
            );
            let c = rule_of(200, 200, 200);
            out.push(a);
            out.push(b);
            out.push(c);
            assert(blocks(out@) =~= seq![a@, b@, c@]);
            Some(out)
        },
        SetlistItem::Break { label, duration_minutes, .. } => {
            if !options.show_breaks {
                return None;
            }
            let mut out: Vec<Block> = Vec::new();
            let a = line(
                break_line(label, *duration_minutes, options.locale),
                in_color(
                    in_italic(
                        styles.text(
                            if options.compact {
                                100
                            } else {
                                120
                            },
                        ),
                    ),
                    120,
                    120,
                    120,
                ),
                Align::Left,
            );
            let b = Block::Space {
                tenths: if options.compact {
                    3
                } else {
                    6
                },
            };
            out.push(a);
            out.push(b);
            assert(blocks(out@) =~= seq![a@, b@]);
            Some(out)
        },
    }
}

/// How many of the items are songs.
pub open spec fn song_count(items: Seq<SetlistItem>) -> nat
    decreases items.len(),
{
    if items.len() == 0 {
        0
    } else {
        song_count(items.drop_last()) + if items.last() is Song {
            1nat
        } else {
            0nat
        }
    }
}

/// The entries that are shown, each song with its number.
pub open spec fn entries(items: Seq<SetlistItem>, options: PdfExportOptions) -> Seq<Seq<BlockView>>
    decreases items.len(),
{
    if items.len() == 0 {
        seq![]
    } else {
        let before = entries(items.drop_last(), options);
        match entry(items.last(), song_count(items) as int, options) {
            Some(e) => before.push(e),
            None => before,
        }
    }
}

/// The entries in two columns: down the left one, then the right one.
pub open spec fn two_columns(v: Seq<Seq<BlockView>>) -> Seq<RowView> {
    let n = (v.len() + 1) / 2;
    Seq::new(
        n as nat,
        |i: int|
            RowView {
                left: v[i],
                right: if n + i < v.len() {
                    Some(v[n + i])
                } else {
                    None
                },
            },
    )
}

/// The blocks of the entries, one entry after the other.
pub open spec fn in_line(v: Seq<Seq<BlockView>>) -> Seq<PartView>
    decreases v.len(),
{
    if v.len() == 0 {
        seq![]
    } else {
        in_line(v.drop_last()) + ones(v.last())
    }
}

/// The running order.
pub open spec fn running_order(items: Seq<SetlistItem>, options: PdfExportOptions) -> Seq<PartView> {
    let v = entries(items, options);
    if options.columns == 2 && v.len() > 1 {
        seq![PartView::Columns(two_columns(v))]
    } else {
        in_line(v)
    }
}

pub open spec fn block_lists(v: Seq<Vec<Block>>) -> Seq<Seq<BlockView>> {
    Seq::new(v.len(), |i: int| blocks(v[i]@))
}

fn shown_entries(items: &[SetlistItem], options: &PdfExportOptions) -> (r: Vec<Vec<Block>>)
    ensures
        block_lists(r@) == entries(items@, *options),
{
    let mut out: Vec<Vec<Block>> = Vec::new();
    let mut number: usize = 0;
    let mut i: usize = 0;
    assert(items@.take(0) =~= seq![]);
    assert(block_lists(out@) =~= seq![]);
    while i < items.len()
        invariant
            i <= items@.len(),
            number <= i,
            number == song_count(items@.take(i as int)),
            block_lists(out@) == entries(items@.take(i as int), *options),
        decreases items@.len() - i,
    {
        assert(items@.take(i + 1).drop_last() =~= items@.take(i as int));
        assert(items@.take(i + 1).last() == items@[i as int]);
        if let SetlistItem::Song { .. } = &items[i] {
            number = number + 1;
        }
        let ghost before = out@;
        if let Some(e) = running_order_entry(&items[i], number, options) {
            out.push(e);
            assert(block_lists(out@) =~= block_lists(before).push(blocks(e@)));
        }
        i = i + 1;
    }
    assert(items@.take(i as int) =~= items@);
    out
}

fn side_by_side(v: Vec<Vec<Block>>) -> (r: Vec<Row>)
    ensures
        rows(r@) == two_columns(block_lists(v@)),
{
    let ghost all = block_lists(v@);
    let total = v.len();
    let n = total / 2 + total % 2;
    let mut left = v;
    let mut right = left.split_off(n);
    let ghost l = left@;
    let ghost r0 = right@;
    assert(n == (all.len() + 1) / 2);
    assert forall|i: int| 0 <= i < n implies blocks(#[trigger] l[i]@) == all[i] by {}
    assert forall|i: int| 0 <= i < r0.len() implies blocks(#[trigger] r0[i]@) == all[n + i] by {}
    let mut backwards: Vec<Vec<Block>> = Vec::new();
    while right.len() > 0
        invariant
            right@ =~= r0.take(right@.len() as int),
            right@.len() + backwards@.len() == r0.len(),
            right@.len() <= r0.len(),
            forall|j: int|
                0 <= j < backwards@.len() ==> #[trigger] backwards@[j] == r0[r0.len() - 1 - j],
        decreases right@.len(),
    {
        match right.pop() {
            Some(x) => {
                backwards.push(x);
            },
            None => {},
        }
    }
    let mut out: Vec<Row> = Vec::new();
    for x in it: left
        invariant
            it.seq() == l,
            l.len() == n,
            r0.len() <= n,
            all.len() == n + r0.len(),
            n == (all.len() + 1) / 2,
            forall|i: int| 0 <= i < n ==> blocks(#[trigger] l[i]@) == all[i],
            forall|i: int| 0 <= i < r0.len() ==> blocks(#[trigger] r0[i]@) == all[n + i],
            backwards@.len() == if it.index() <= r0.len() {
                r0.len() - it.index()
            } else {
                0
            },
            forall|j: int|
                0 <= j < backwards@.len() ==> #[trigger] backwards@[j] == r0[r0.len() - 1 - j],
            rows(out@) =~= two_columns(all).take(it.index() as int),
    {
        let ghost k = it.index() as int;
        assert(x == l[k]);
        let right = backwards.pop();
        let row = Row { left: x, right };
        let ghost before = out@;
        out.push(row);
        assert(rows(out@) =~= rows(before).push(row@));
        assert(row@ == two_columns(all)[k]);
    }
    assert(rows(out@) =~= two_columns(all));
    out
}

fn one_by_one(v: Vec<Vec<Block>>) -> (r: Vec<Part>)
    ensures
        parts(r@) == in_line(block_lists(v@)),
{
    let ghost all = block_lists(v@);
    let mut out: Vec<Part> = Vec::new();
    assert(all.take(0) =~= seq![]);
    assert(parts(out@) =~= seq![]);
    for x in it: v
        invariant
            it.seq() == v@,
            all == block_lists(v@),
            parts(out@) == in_line(all.take(it.index() as int)),
    {
        let ghost k = it.index() as int;
        assert(all.take(k + 1).drop_last() =~= all.take(k));
        assert(all.take(k + 1).last() == blocks(x@));
        append_blocks(&mut out, x);
    }
    assert(all.take(all.len() as int) =~= all);
    out
}

/// The running order: one column, or two that are read down the left one, then
/// the right one.
pub fn push_running_order(items: &[SetlistItem], options: &PdfExportOptions) -> (r: Vec<Part>)
    ensures
        parts(r@) == running_order(items@, *options),
{
    let v = shown_entries(items, options);
    if options.columns == 2 && v.len() > 1 {
        let mut out: Vec<Part> = Vec::new();
        let p = Part::Columns(side_by_side(v));
        out.push(p);
        assert(parts(out@) =~= seq![p@]);
        out
    } else {
        one_by_one(v)
    }
}

} // verus!
