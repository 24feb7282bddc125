//! Whole sheets: a setlist with its songbook, and a single song.

use crate::export::lyrics::{
    lyric_views, parse_lyrics, printable, stanza_views, stanzas, stanzas_of, LyricLine, LyricView,
};
use crate::export::options::{
    labels_of, margin_mm, Orientation, PaperFormat, PdfExportOptions, PdfLocale, SongPdfOptions,
};
use crate::export::sheet::{
    append_blocks, blocks, bold, cased, colored, duration_text, entries, format_duration, in_bold, in_case,
    in_color, in_italic, italic, key_of, key_text, labelled, line, line_block, meta_parts,
    muted_style, ones,
    parts, push_block, push_running_order, push_text, rgb, rows, rule, rule_of, running_order,
    song_count, song_entry, song_title_text, space, tempo_of, tempo_text, text_style, title_text, with_label,
    with_text, Align, Block, BlockView, Part, PartView, Rgb, Row, RowView, Styles, TextStyle, DOT,
    WIDE_DOT,
};
use crate::models::page::clamped;
use crate::models::setlist::SetlistItem;
use crate::models::song::SongWithArtist;
use crate::text::{
    decimal, decimal_of, join, joined, lines, lines_of, number, number_of, opt_str, opt_text,
    slice_of, texts, trim, trimmed,
};
use crate::time::{chrono_date_text, is_date_pattern, NaiveDate};
use vstd::prelude::*;

verus! {

/// Everything the exporter needs to know about the setlist.
pub struct SetlistPdfData<'a> {
    pub title: &'a str,
    pub description: Option<&'a str>,
    pub band_name: Option<&'a str>,
    pub total_duration_secs: i32,
    pub items: &'a [SetlistItem],
}

/// Font files every PDF needs (the Inter family, in `<assets>/fonts`).
pub const REQUIRED_FONT_FILES: [&'static str; 4] = [
    "Inter-Regular.ttf",
    "Inter-Bold.ttf",
    "Inter-Italic.ttf",
    "Inter-BoldItalic.ttf",
];

// ---------------------------------------------------------------------
// The header
// ---------------------------------------------------------------------

/// The number of songs and the length of the show.
pub open spec fn duration_line(songs: nat, total_secs: int, locale: PdfLocale) -> Seq<char> {
    let labels = labels_of(locale);
    decimal(songs) + " "@ + labels.songs@ + "  ·  "@ + labels.estimated_duration@ + ": "@ + if total_secs
        > 0 {
        duration_text(total_secs)
    } else {
        labels.not_calculated@
    }
}

/// The day of the export; `day` counts from 1970-01-01.
pub open spec fn date_line(day: int, locale: PdfLocale) -> Seq<char> {
    let labels = labels_of(locale);
    labels.exported_on@ + " "@ + chrono_date_text(day, labels.date_format@)
}

/// What the line under the title says.
pub open spec fn info_parts(data: SetlistPdfData, options: PdfExportOptions, day: int) -> Seq<
    Seq<char>,
> {
    let v = with_text(seq![], options.show_band_name, opt_str(data.band_name));
    let v = with_text(
        v,
        options.show_total_duration,
        Some(
            duration_line(
                song_count(data.items@),
                data.total_duration_secs as int,
                options.locale,
            ),
        ),
    );
    with_text(v, options.show_date, Some(date_line(day, options.locale)))
}

/// A text that says something, without the blanks around it.
pub open spec fn said(t: Option<Seq<char>>) -> Option<Seq<char>> {
    match t {
        Some(s) => if trim(s).len() > 0 {
            Some(trim(s))
        } else {
            None
        },
        None => None,
    }
}

/// Each line of a text as a paragraph.
pub open spec fn line_blocks(v: Seq<Seq<char>>, style: TextStyle, align: Align) -> Seq<BlockView> {
    Seq::new(v.len(), |i: int| line_block(v[i], style, align))
}

/// The title and the subtitle.
pub open spec fn header_top(data: SetlistPdfData, options: PdfExportOptions) -> Seq<BlockView> {
    let scale = options.font_scale as int;
    let v: Seq<BlockView> = if options.show_title {
        seq![
            line_block(
                cased(data.title@, options.uppercase_titles),
                bold(
                    text_style(
                        if options.compact {
                            200
                        } else {
                            240
                        },
                        scale,
                    ),
                ),
                Align::Center,
            ),
        ]
    } else {
        seq![]
    };
    match opt_text(options.subtitle) {
        Some(s) => v.push(line_block(s, text_style(130, scale), Align::Center)),
        None => v,
    }
}

/// The header: what is shown of the setlist, and a rule below it where there
/// is anything.
pub open spec fn header(data: SetlistPdfData, options: PdfExportOptions, day: int) -> Seq<BlockView> {
    let scale = options.font_scale as int;
    let top = header_top(data, options);
    let info = info_parts(data, options, day);
    let v = if info.len() > 0 {
        top.push(line_block(join(info, WIDE_DOT@), muted_style(105, scale), Align::Center))
    } else {
        top
    };
    let description = said(opt_str(data.description));
    let w = if options.show_description && description is Some {
        v.push(space(4)) + line_blocks(
            lines(description->0),
            italic(muted_style(105, scale)),
            Align::Center,
        )
    } else {
        v
    };
    if w.len() > 0 {
        w.push(space(5)).push(rule(210, 210, 210)).push(
            space(
                if options.compact {
                    3
                } else {
                    8
                },
            ),
        )
    } else {
        w
    }
}

fn count_songs(items: &[SetlistItem]) -> (n: usize)
    ensures
        n == song_count(items@),
{
    let mut n: usize = 0;
    let mut i: usize = 0;
    assert(items@.take(0) =~= seq![]);
    while i < items.len()
        invariant
            i <= items@.len(),
            n <= i,
            n == song_count(items@.take(i as int)),
        decreases items@.len() - i,
    {
        assert(items@.take(i + 1).drop_last() =~= items@.take(i as int));
        assert(items@.take(i + 1).last() == items@[i as int]);
        if let SetlistItem::Song { .. } = &items[i] {
            n = n + 1;
        }
        i = i + 1;
    }
    assert(items@.take(i as int) =~= items@);
    n
}

fn text_said(t: Option<&str>) -> (r: Option<String>)
    ensures
        opt_text(r) == said(opt_str(t)),
{
    match t {
        Some(s) => {
            let u = trimmed(s);
            if u.as_str().is_empty() {
                None
            } else {
                Some(u)
            }
        },
        None => None,
    }
}

fn push_lines(v: &mut Vec<Block>, text: &str, style: TextStyle, align: Align)
    ensures
        blocks(final(v)@) == blocks(old(v)@) + line_blocks(lines(text@), style, align),
{
    let all = lines_of(text);
    let ghost start = blocks(v@);
    let ghost wanted = line_blocks(lines(text@), style, align);
    let mut i: usize = 0;
    assert(start + wanted.take(0) =~= start);
    while i < all.len()
        invariant
            texts(all@) == lines(text@),
            wanted == line_blocks(lines(text@), style, align),
            i <= all@.len(),
            blocks(v@) =~= start + wanted.take(i as int),
        decreases all@.len() - i,
    {
        let l = all[i].clone();
        assert(texts(all@)[i as int] == l@);
        push_block(v, line(l, style, align));
        i = i + 1;
    }
    assert(wanted.take(i as int) =~= wanted);
}

fn title_lines(data: &SetlistPdfData, options: &PdfExportOptions) -> (r: Vec<Block>)
    ensures
        blocks(r@) == header_top(*data, *options),
{
    let styles = Styles { percent: options.font_scale };
    let mut out: Vec<Block> = Vec::new();
    assert(blocks(out@) =~= seq![]);
    if options.show_title {
        let b = line(
            in_case(data.title, options.uppercase_titles),
            in_bold(
                styles.text(
                    if options.compact {
                        200
                    } else {
                        240
                    },
                ),
            ),
            Align::Center,
        );
        push_block(&mut out, b);
        assert(blocks(out@) =~= seq![b@]);
    }
    if let Some(s) = &options.subtitle {
        push_block(&mut out, line(s.clone(), styles.text(130), Align::Center));
    }
    out
}

fn info_texts(data: &SetlistPdfData, options: &PdfExportOptions, today: &NaiveDate) -> (r: Vec<String>)
    ensures
        texts(r@) == info_parts(*data, *options, today@),
{
    let labels = options.locale.labels();
    let mut info: Vec<String> = Vec::new();
    assert(texts(info@) =~= seq![]);
    push_text(
        &mut info,
        options.show_band_name,
        match data.band_name {
            Some(b) => Some(b.to_string()),
            None => None,
        },
    );
    let mut duration = decimal_of(count_songs(data.items) as u64);
    duration.append(" ");
    duration.append(labels.songs);
    duration.append("  ·  ");
    duration.append(labels.estimated_duration);
    duration.append(": ");
    if data.total_duration_secs > 0 {
        duration.append(format_duration(data.total_duration_secs).as_str());
    } else {
        duration.append(labels.not_calculated);
    }
    push_text(&mut info, options.show_total_duration, Some(duration));
    let mut date = labels.exported_on.to_string();
    date.append(" ");
    assert(is_date_pattern(labels.date_format@));
    date.append(today.format(labels.date_format).as_str());
    push_text(&mut info, options.show_date, Some(date));
    info
}

/// The header of a setlist, exported on the day `today`.
pub fn push_header(data: &SetlistPdfData, options: &PdfExportOptions, today: &NaiveDate) -> (r: Vec<
    Block,
>)
    ensures
        blocks(r@) == header(*data, *options, today@),
{
    let styles = Styles { percent: options.font_scale };
    let mut out = title_lines(data, options);
    let info = info_texts(data, options, today);
    if info.len() > 0 {
        push_block(&mut out, line(joined(&info, WIDE_DOT), styles.muted(105), Align::Center));
    }
    if options.show_description {
        if let Some(d) = text_said(data.description) {
            push_block(&mut out, Block::Space { tenths: 4 });
            push_lines(&mut out, d.as_str(), in_italic(styles.muted(105)), Align::Center);
        }
    }
    if out.len() > 0 {
        push_block(&mut out, Block::Space { tenths: 5 });
        push_block(&mut out, rule_of(210, 210, 210));
        push_block(
            &mut out,
            Block::Space {
                tenths: if options.compact {
                    3
                } else {
                    8
                },
            },
        );
    }
    out
}

// ---------------------------------------------------------------------
// Lyrics
// ---------------------------------------------------------------------

/// The blocks of a lyric line.
pub open spec fn lyric_blocks(
    l: LyricView,
    scale: int,
    lyric: TextStyle,
    chord: TextStyle,
) -> Seq<BlockView> {
    match l {
        LyricView::Blank => seq![space(5)],
        LyricView::Heading(t) => seq![
            space(3),
            line_block(t, bold(text_style(110, scale)), Align::Left),
        ],
        LyricView::Comment(t) => seq![
            line_block(t, italic(muted_style(105, scale)), Align::Left),
        ],
        LyricView::Segments(s) => seq![BlockView::Lyric { segments: s, lyric, chord }],
    }
}

/// The blocks of the lyric lines, one line after the other.
pub open spec fn all_lyric_blocks(
    v: Seq<LyricView>,
    scale: int,
    lyric: TextStyle,
    chord: TextStyle,
) -> Seq<BlockView>
    decreases v.len(),
{
    if v.len() == 0 {
        seq![]
    } else {
        all_lyric_blocks(v.drop_last(), scale, lyric, chord) + lyric_blocks(
            v.last(),
            scale,
            lyric,
            chord,
        )
    }
}

/// Appends printable lyric lines.
pub fn push_lyric_lines(
    out: &mut Vec<Block>,
    lyrics: Vec<LyricLine>,
    font_scale: u16,
    lyric: TextStyle,
    chord: TextStyle,
)
    ensures
        blocks(final(out)@) == blocks(old(out)@) + all_lyric_blocks(
            lyric_views(lyrics@),
            font_scale as int,
            lyric,
            chord,
        ),
{
    let styles = Styles { percent: font_scale };
    let ghost start = blocks(out@);
    let ghost all = lyric_views(lyrics@);
    let ghost scale = font_scale as int;
    assert(all.take(0) =~= seq![]);
    assert(start + Seq::<BlockView>::empty() =~= start);
    for l in it: lyrics
        invariant
            it.seq() == lyrics@,
            all == lyric_views(lyrics@),
            scale == font_scale,
            styles.percent == font_scale,
            blocks(out@) == start + all_lyric_blocks(
                all.take(it.index() as int),
                scale,
                lyric,
                chord,
            ),
    {
        let ghost k = it.index() as int;
        let ghost before = blocks(out@);
        assert(all.take(k + 1).drop_last() =~= all.take(k));
        assert(all.take(k + 1).last() == l@);
        match l {
            LyricLine::Blank => {
                push_block(out, Block::Space { tenths: 5 });
            },
            LyricLine::Heading(t) => {
                push_block(out, Block::Space { tenths: 3 });
                push_block(out, line(t, in_bold(styles.text(110)), Align::Left));
            },
            LyricLine::Comment(t) => {
                push_block(out, line(t, in_italic(styles.muted(105)), Align::Left));
            },
            LyricLine::Segments(s) => {
                push_block(out, Block::Lyric { segments: s, lyric, chord });
            },
        }
        assert(blocks(out@) =~= before + lyric_blocks(l@, scale, lyric, chord));
        assert(blocks(out@) =~= start + (all_lyric_blocks(all.take(k), scale, lyric, chord)
            + lyric_blocks(l@, scale, lyric, chord)));
    }
    assert(all.take(all.len() as int) =~= all);
}

// ---------------------------------------------------------------------
// The songbook
// ---------------------------------------------------------------------

/// The blue of chords.
pub open spec fn chord_blue() -> Rgb {
    rgb(30, 90, 170)
}

/// The printable lyrics of a song.
pub open spec fn lyrics_of(song: SongWithArtist, options: PdfExportOptions) -> Seq<LyricView> {
    match opt_text(song.lyrics) {
        Some(l) => printable(l, options.chords, options.locale),
        None => seq![],
    }
}

/// The songs of a setlist, in their order.
pub open spec fn songs_of(items: Seq<SetlistItem>) -> Seq<SongWithArtist>
    decreases items.len(),
{
    if items.len() == 0 {
        seq![]
    } else {
        match items.last() {
            SetlistItem::Song { song, .. } => songs_of(items.drop_last()).push(song),
            _ => songs_of(items.drop_last()),
        }
    }
}

/// What parts a song of the songbook from the one before it.
pub open spec fn before_song(index: int, options: PdfExportOptions) -> Seq<BlockView> {
    if index == 0 {
        seq![]
    } else if options.page_break_per_song {
        seq![BlockView::PageBreak]
    } else {
        seq![space(10), rule(220, 220, 220)]
    }
}

/// The line under the title of a song of the songbook.
pub open spec fn book_meta(song: SongWithArtist, locale: PdfLocale) -> Seq<Seq<char>> {
    let v = with_text(seq![song.artist_name@], true, key_text(song.tonality, locale));
    with_text(v, true, tempo_text(song.tempo))
}

/// A song of the songbook.
pub open spec fn book_song(song: SongWithArtist, index: int, options: PdfExportOptions) -> Seq<
    BlockView,
> {
    let scale = options.font_scale as int;
    let head = before_song(index, options).push(
        line_block(title_text(song, index + 1, options), bold(text_style(150, scale)), Align::Left),
    ).push(
        line_block(
            join(book_meta(song, options.locale), DOT@),
            muted_style(100, scale),
            Align::Left,
        ),
    ).push(space(5));
    let lyrics = lyrics_of(song, options);
    if lyrics.len() == 0 {
        head.push(
            line_block(
                labels_of(options.locale).no_lyrics@,
                italic(muted_style(105, scale)),
                Align::Left,
            ),
        )
    } else {
        head + all_lyric_blocks(
            lyrics,
            scale,
            text_style(
                if options.compact {
                    100
                } else {
                    115
                },
                scale,
            ),
            colored(
                bold(
                    text_style(
                        if options.compact {
                            90
                        } else {
                            105
                        },
                        scale,
                    ),
                ),
                chord_blue(),
            ),
        )
    }
}

/// The songs of the songbook, one after the other.
pub open spec fn book_songs(songs: Seq<SongWithArtist>, options: PdfExportOptions) -> Seq<BlockView>
    decreases songs.len(),
{
    if songs.len() == 0 {
        seq![]
    } else {
        book_songs(songs.drop_last(), options) + book_song(
            songs.last(),
            songs.len() - 1,
            options,
        )
    }
}

/// The songbook; nothing when there is no song.
pub open spec fn songbook(items: Seq<SetlistItem>, options: PdfExportOptions) -> Seq<BlockView> {
    let songs = songs_of(items);
    if songs.len() == 0 {
        seq![]
    } else {
        seq![
            BlockView::PageBreak,
            line_block(
                labels_of(options.locale).lyrics@,
                bold(text_style(180, options.font_scale as int)),
                Align::Center,
            ),
            space(8),
        ] + book_songs(songs, options)
    }
}

fn push_book_song(
    out: &mut Vec<Block>,
    song: &SongWithArtist,
    index: usize,
    options: &PdfExportOptions,
)
    requires
        index < usize::MAX,
    ensures
        blocks(final(out)@) == blocks(old(out)@) + book_song(*song, index as int, *options),
{
    let styles = Styles { percent: options.font_scale };
    let ghost start = blocks(out@);
    let ghost scale = options.font_scale as int;
    if index > 0 {
        if options.page_break_per_song {
            push_block(out, Block::PageBreak);
        } else {
            push_block(out, Block::Space { tenths: 10 });
            push_block(out, rule_of(220, 220, 220));
        }
    }
    assert(blocks(out@) =~= start + before_song(index as int, *options));
    push_block(
        out,
        line(
            song_title_text(song, index + 1, options),
            in_bold(styles.text(150)),
            Align::Left,
        ),
    );
    let mut meta: Vec<String> = Vec::new();
    meta.push(song.artist_name.clone());
    assert(texts(meta@) =~= seq![song.artist_name@]);
    push_text(&mut meta, true, key_of(&song.tonality, options.locale));
    push_text(&mut meta, true, tempo_of(song.tempo));
    push_block(out, line(joined(&meta, DOT), styles.muted(100), Align::Left));
    push_block(out, Block::Space { tenths: 5 });
    let ghost head = before_song(index as int, *options).push(
        line_block(
            title_text(*song, index + 1, *options),
            bold(text_style(150, scale)),
            Align::Left,
        ),
    ).push(
        line_block(
            join(book_meta(*song, options.locale), DOT@),
            muted_style(100, scale),
            Align::Left,
        ),
    ).push(space(5));
    assert(blocks(out@) =~= start + head);
    let lyrics = match slice_of(&song.lyrics) {
        Some(l) => parse_lyrics(l, options.chords, options.locale),
        None => Vec::new(),
    };
    assert(lyric_views(lyrics@) =~= lyrics_of(*song, *options));
    if lyrics.len() == 0 {
        let b = line(
            options.locale.labels().no_lyrics.to_string(),
            in_italic(styles.muted(105)),
            Align::Left,
        );
        push_block(out, b);
        assert(blocks(out@) =~= start + head.push(b@));
    } else {
        let lyric = styles.text(
            if options.compact {
                100
            } else {
                115
            },
        );
        let chord = in_color(
            in_bold(
                styles.text(
                    if options.compact {
                        90
                    } else {
                        105
                    },
                ),
            ),
            30,
            90,
            170,
        );
        let ghost body = all_lyric_blocks(lyric_views(lyrics@), scale, lyric, chord);
        push_lyric_lines(out, lyrics, options.font_scale, lyric, chord);
        assert(blocks(out@) =~= start + (head + body));
    }
}

/// The songbook: every song of the setlist with its lyrics.
pub fn push_songbook(items: &[SetlistItem], options: &PdfExportOptions) -> (r: Vec<Block>)
    ensures
        blocks(r@) == songbook(items@, *options),
{
    let styles = Styles { percent: options.font_scale };
    let mut out: Vec<Block> = Vec::new();
    let mut index: usize = 0;
    let mut i: usize = 0;
    let ghost top = seq![
        BlockView::PageBreak,
        line_block(
            labels_of(options.locale).lyrics@,
            bold(text_style(180, options.font_scale as int)),
            Align::Center,
        ),
        space(8),
    ];
    assert(items@.take(0) =~= seq![]);
    assert(blocks(out@) =~= seq![]);
    while i < items.len()
        invariant
            i <= items@.len(),
            index <= i,
            styles.percent == options.font_scale,
            index == songs_of(items@.take(i as int)).len(),
            top == seq![
                BlockView::PageBreak,
                line_block(
                    labels_of(options.locale).lyrics@,
                    bold(text_style(180, options.font_scale as int)),
                    Align::Center,
                ),
                space(8),
            ],
            blocks(out@) == songbook(items@.take(i as int), *options),
        decreases items@.len() - i,
    {
        assert(items@.take(i + 1).drop_last() =~= items@.take(i as int));
        assert(items@.take(i + 1).last() == items@[i as int]);
        if let SetlistItem::Song { song, .. } = &items[i] {
            let ghost before = songs_of(items@.take(i as int));
            let ghost after = before.push(*song);
            assert(after.drop_last() =~= before);
            if index == 0 {
                let b = line(
                    options.locale.labels().lyrics.to_string(),
                    in_bold(styles.text(180)),
                    Align::Center,
                );
                push_block(&mut out, Block::PageBreak);
                push_block(&mut out, b);
                push_block(&mut out, Block::Space { tenths: 8 });
                assert(blocks(out@) =~= top + book_songs(before, *options));
            }
            let ghost held = blocks(out@);
            assert(held == top + book_songs(before, *options));
            push_book_song(&mut out, song, index, options);
            assert(blocks(out@) =~= top + book_songs(after, *options));
            index = index + 1;
        }
        i = i + 1;
    }
    assert(items@.take(i as int) =~= items@);
    out
}

// ---------------------------------------------------------------------
// A single song
// ---------------------------------------------------------------------

/// The capo, where there is one.
pub open spec fn capo_text(capo: Option<i16>, locale: PdfLocale) -> Option<Seq<char>> {
    match capo {
        Some(c) => if c > 0 {
            Some(labelled(labels_of(locale).capo@, number(c as int)))
        } else {
            None
        },
        None => None,
    }
}

/// A text with its label.
pub open spec fn labelled_text(label: Seq<char>, t: Option<Seq<char>>) -> Option<Seq<char>> {
    match t {
        Some(s) => Some(labelled(label, s)),
        None => None,
    }
}

/// The line under the title of a song sheet.
pub open spec fn sheet_meta(song: SongWithArtist, options: SongPdfOptions) -> Seq<Seq<char>> {
    let labels = labels_of(options.locale);
    let v = with_text(seq![], options.show_key, key_text(song.tonality, options.locale));
    let v = with_text(v, options.show_capo, capo_text(song.capo, options.locale));
    let v = with_text(v, options.show_bpm, tempo_text(song.tempo));
    let v = with_text(
        v,
        options.show_time_signature,
        labelled_text(labels.time_signature@, opt_text(song.time_signature)),
    );
    with_text(v, options.show_tuning, labelled_text(labels.tuning@, opt_text(song.tuning)))
}

/// The head of a song sheet: the title, the artist and the metadata, the notes
/// where they are shown, and a rule.
pub open spec fn sheet_head(song: SongWithArtist, options: SongPdfOptions) -> Seq<BlockView> {
    let scale = options.font_scale as int;
    let v = seq![
        line_block(
            cased(song.title@, options.uppercase_titles),
            bold(text_style(220, scale)),
            Align::Left,
        ),
    ];
    let v = if options.show_artist {
        v.push(line_block(song.artist_name@, muted_style(130, scale), Align::Left))
    } else {
        v
    };
    let meta = sheet_meta(song, options);
    let v = if meta.len() > 0 {
        v.push(line_block(join(meta, DOT@), muted_style(110, scale), Align::Left))
    } else {
        v
    };
    let notes = said(opt_text(song.performance_notes));
    let v = if options.show_notes && notes is Some {
        v.push(space(4)).push(
            line_block(
                labels_of(options.locale).notes@ + ":"@,
                bold(text_style(105, scale)),
                Align::Left,
            ),
        ) + line_blocks(lines(notes->0), italic(muted_style(105, scale)), Align::Left)
    } else {
        v
    };
    v.push(space(5)).push(rule(210, 210, 210)).push(space(6))
}

/// The printable lyrics of a song sheet.
pub open spec fn sheet_lyrics(song: SongWithArtist, options: SongPdfOptions) -> Seq<LyricView> {
    match opt_text(song.lyrics) {
        Some(l) => printable(l, options.chords, options.locale),
        None => seq![],
    }
}

pub open spec fn sheet_lyric_style(options: SongPdfOptions) -> TextStyle {
    text_style(120, options.font_scale as int)
}

pub open spec fn sheet_chord_style(options: SongPdfOptions) -> TextStyle {
    colored(bold(text_style(110, options.font_scale as int)), chord_blue())
}

/// A stanza in its column, with room below it.
pub open spec fn stanza_blocks(stanza: Seq<LyricView>, options: SongPdfOptions) -> Seq<BlockView> {
    all_lyric_blocks(
        stanza,
        options.font_scale as int,
        sheet_lyric_style(options),
        sheet_chord_style(options),
    ).push(space(6))
}

/// The stanzas side by side, two in a row, read left to right.
pub open spec fn stanza_rows(v: Seq<Seq<LyricView>>, options: SongPdfOptions) -> Seq<RowView> {
    Seq::new(
        ((v.len() + 1) / 2) as nat,
        |i: int|
            RowView {
                left: stanza_blocks(v[2 * i], options),
                right: if 2 * i + 1 < v.len() {
                    Some(stanza_blocks(v[2 * i + 1], options))
                } else {
                    None
                },
            },
    )
}

/// A song sheet.
pub open spec fn song_sheet(song: SongWithArtist, options: SongPdfOptions) -> Seq<PartView> {
    let head = ones(sheet_head(song, options));
    let lyrics = sheet_lyrics(song, options);
    if lyrics.len() == 0 {
        head + ones(
            seq![
                line_block(
                    labels_of(options.locale).no_lyrics@,
                    italic(muted_style(110, options.font_scale as int)),
                    Align::Left,
                ),
            ],
        )
    } else if options.columns == 2 {
        head.push(PartView::Columns(stanza_rows(stanzas_of(lyrics), options)))
    } else {
        head + ones(
            all_lyric_blocks(
                lyrics,
                options.font_scale as int,
                sheet_lyric_style(options),
                sheet_chord_style(options),
            ),
        )
    }
}

fn meta_of_sheet(song: &SongWithArtist, options: &SongPdfOptions) -> (r: Vec<String>)
    ensures
        texts(r@) == sheet_meta(*song, *options),
{
    let labels = options.locale.labels();
    let mut v: Vec<String> = Vec::new();
    assert(texts(v@) =~= seq![]);
    push_text(&mut v, options.show_key, key_of(&song.tonality, options.locale));
    push_text(
        &mut v,
        options.show_capo,
        match song.capo {
            Some(c) => if c > 0 {
                Some(with_label(labels.capo, number_of(c as i64).as_str()))
            } else {
                None
            },
            None => None,
        },
    );
    push_text(&mut v, options.show_bpm, tempo_of(song.tempo));
    push_text(
        &mut v,
        options.show_time_signature,
        match &song.time_signature {
            Some(t) => Some(with_label(labels.time_signature, t.as_str())),
            None => None,
        },
    );
    push_text(
        &mut v,
        options.show_tuning,
        match &song.tuning {
            Some(t) => Some(with_label(labels.tuning, t.as_str())),
            None => None,
        },
    );
    v
}

fn head_of_sheet(song: &SongWithArtist, options: &SongPdfOptions) -> (r: Vec<Block>)
    ensures
        blocks(r@) == sheet_head(*song, *options),
{
    let styles = Styles { percent: options.font_scale };
    let mut out: Vec<Block> = Vec::new();
    let title = line(
        in_case(song.title.as_str(), options.uppercase_titles),
        in_bold(styles.text(220)),
        Align::Left,
    );
    assert(blocks(out@) =~= seq![]);
    push_block(&mut out, title);
    assert(blocks(out@) =~= seq![title@]);
    if options.show_artist {
        push_block(
            &mut out,
            line(song.artist_name.clone(), styles.muted(130), Align::Left),
        );
    }
    let meta = meta_of_sheet(song, options);
    if meta.len() > 0 {
        push_block(&mut out, line(joined(&meta, DOT), styles.muted(110), Align::Left));
    }
    if options.show_notes {
        if let Some(notes) = text_said(slice_of(&song.performance_notes)) {
            push_block(&mut out, Block::Space { tenths: 4 });
            let mut label = options.locale.labels().notes.to_string();
            label.append(":");
            push_block(&mut out, line(label, in_bold(styles.text(105)), Align::Left));
            push_lines(&mut out, notes.as_str(), in_italic(styles.muted(105)), Align::Left);
        }
    }
    push_block(&mut out, Block::Space { tenths: 5 });
    push_block(&mut out, rule_of(210, 210, 210));
    push_block(&mut out, Block::Space { tenths: 6 });
    out
}

fn blocks_of_stanza(stanza: Vec<LyricLine>, options: &SongPdfOptions) -> (r: Vec<Block>)
    ensures
        blocks(r@) == stanza_blocks(lyric_views(stanza@), *options),
{
    let styles = Styles { percent: options.font_scale };
    let lyric = styles.text(120);
    let chord = in_color(in_bold(styles.text(110)), 30, 90, 170);
    let mut out: Vec<Block> = Vec::new();
    let ghost body = all_lyric_blocks(
        lyric_views(stanza@),
        options.font_scale as int,
        lyric,
        chord,
    );
    assert(blocks(out@) =~= seq![]);
    push_lyric_lines(&mut out, stanza, options.font_scale, lyric, chord);
    assert(blocks(out@) =~= body);
    push_block(&mut out, Block::Space { tenths: 6 });
    out
}

fn rows_of_stanzas(v: Vec<Vec<LyricLine>>, options: &SongPdfOptions) -> (r: Vec<Row>)
    ensures
        rows(r@) == stanza_rows(stanza_views(v@), *options),
{
    let ghost all = stanza_views(v@);
    let ghost wanted = stanza_rows(all, *options);
    let n = v.len();
    let mut out: Vec<Row> = Vec::new();
    let mut pending: Option<Vec<Block>> = None;
    for stanza in it: v
        invariant
            it.seq() == v@,
            all == stanza_views(v@),
            wanted == stanza_rows(all, *options),
            rows(out@) =~= wanted.take(it.index() as int / 2),
            match pending {
                Some(b) => it.index() % 2 == 1 && blocks(b@) == stanza_blocks(
                    all[it.index() - 1],
                    *options,
                ),
                None => it.index() % 2 == 0,
            },
    {
        let ghost k = it.index() as int;
        assert(all[k] == lyric_views(stanza@));
        let b = blocks_of_stanza(stanza, options);
        match pending {
            Some(left) => {
                let row = Row { left, right: Some(b) };
                assert(row@ == wanted[k / 2]);
                let ghost before = out@;
                out.push(row);
                assert(rows(out@) =~= rows(before).push(row@));
                pending = None;
            },
            None => {
                pending = Some(b);
            },
        }
    }
    if let Some(left) = pending {
        let row = Row { left, right: None };
        let ghost before = out@;
        assert(row@ == wanted[all.len() as int / 2]);
        out.push(row);
        assert(rows(out@) =~= rows(before).push(row@));
    }
    assert(rows(out@) =~= wanted);
    out
}

/// A single song with its metadata and lyrics.
pub fn plan_song(song: &SongWithArtist, options: &SongPdfOptions) -> (r: Vec<Part>)
    ensures
        parts(r@) == song_sheet(*song, *options),
{
    let styles = Styles { percent: options.font_scale };
    let mut out: Vec<Part> = Vec::new();
    let ghost head = ones(sheet_head(*song, *options));
    assert(parts(out@) =~= seq![]);
    append_blocks(&mut out, head_of_sheet(song, options));
    assert(parts(out@) =~= head);
    let lyrics = match slice_of(&song.lyrics) {
        Some(l) => parse_lyrics(l, options.chords, options.locale),
        None => Vec::new(),
    };
    assert(lyric_views(lyrics@) =~= sheet_lyrics(*song, *options));
    if lyrics.len() == 0 {
        let mut v: Vec<Block> = Vec::new();
        let b = line(
            options.locale.labels().no_lyrics.to_string(),
            in_italic(styles.muted(110)),
            Align::Left,
        );
        v.push(b);
        assert(blocks(v@) =~= seq![b@]);
        append_blocks(&mut out, v);
    } else if options.columns == 2 {
        let ghost before = out@;
        let p = Part::Columns(rows_of_stanzas(stanzas(lyrics), options));
        out.push(p);
        assert(parts(out@) =~= parts(before).push(p@));
    } else {
        let lyric = styles.text(120);
        let chord = in_color(in_bold(styles.text(110)), 30, 90, 170);
        let mut v: Vec<Block> = Vec::new();
        let ghost body = all_lyric_blocks(
            lyric_views(lyrics@),
            options.font_scale as int,
            lyric,
            chord,
        );
        assert(blocks(v@) =~= seq![]);
        push_lyric_lines(&mut v, lyrics, options.font_scale, lyric, chord);
        assert(blocks(v@) =~= body);
        append_blocks(&mut out, v);
    }
    out
}

/// A setlist: the header, the running order and, where it is asked for, the
/// songbook.
pub open spec fn setlist_sheet(data: SetlistPdfData, options: PdfExportOptions, day: int) -> Seq<
    PartView,
> {
    let v = ones(header(data, options, day)) + running_order(data.items@, options);
    if options.include_lyrics {
        v + ones(songbook(data.items@, options))
    } else {
        v
    }
}

/// A setlist, exported on the day `today`.
pub fn plan_setlist(data: &SetlistPdfData, options: &PdfExportOptions, today: &NaiveDate) -> (r:
    Vec<Part>)
    ensures
        parts(r@) == setlist_sheet(*data, *options, today@),
{
    let mut out: Vec<Part> = Vec::new();
    let ghost top = ones(header(*data, *options, today@));
    assert(parts(out@) =~= seq![]);
    append_blocks(&mut out, push_header(data, options, today));
    assert(parts(out@) =~= top);
    let mut order = push_running_order(data.items, options);
    let ghost more = parts(order@);
    let ghost a = out@;
    let ghost b = order@;
    out.append(&mut order);
    assert(parts(out@) =~= parts(a) + parts(b));
    if options.include_lyrics {
        append_blocks(&mut out, push_songbook(data.items, options));
    }
    out
}

// ---------------------------------------------------------------------
// Pages
// ---------------------------------------------------------------------

/// The page that every block is drawn on.
#[derive(Debug, Clone, PartialEq)]
pub struct PageSetup {
    pub title: String,
    /// In percent of the height of a line.
    pub line_spacing: u8,
    pub paper: PaperFormat,
    pub orientation: Orientation,
    pub margin_mm: u8,
    pub watermark: bool,
    pub page_numbers: bool,
    /// In points.
    pub footer_size: u8,
    pub page_label: &'static str,
    pub credit: &'static str,
}

/// The size of the footer: 8 points, scaled, from 6 to 12.
pub open spec fn footer_size(font_scale: int) -> int {
    clamped((8 * font_scale + 50) / 100, 6, 12)
}

fn footer_size_of(font_scale: u16) -> (r: u8)
    ensures
        r == footer_size(font_scale as int),
{
    let n = (8 * font_scale as u32 + 50) / 100;
    if n < 6 {
        6
    } else if n > 12 {
        12
    } else {
        n as u8
    }
}

/// `p` is the page of a setlist.
pub open spec fn is_setlist_page(p: PageSetup, title: Seq<char>, o: PdfExportOptions) -> bool {
    &&& p.title@ == "Setlist - "@ + title
    &&& p.line_spacing == if o.compact {
        110
    } else {
        125int
    }
    &&& p.paper == o.paper
    &&& p.orientation == o.orientation
    &&& p.margin_mm == margin_mm(o.margins)
    &&& p.watermark == o.watermark
    &&& p.page_numbers == o.page_numbers
    &&& p.footer_size == footer_size(o.font_scale as int)
    &&& p.page_label == labels_of(o.locale).page
    &&& p.credit == labels_of(o.locale).generated_with
}

/// `p` is the page of a song.
pub open spec fn is_song_page(p: PageSetup, song: SongWithArtist, o: SongPdfOptions) -> bool {
    &&& p.title@ == song.title@ + " - "@ + song.artist_name@
    &&& p.line_spacing == 125
    &&& p.paper == o.paper
    &&& p.orientation == o.orientation
    &&& p.margin_mm == margin_mm(o.margins)
    &&& p.watermark == o.watermark
    &&& p.page_numbers == o.page_numbers
    &&& p.footer_size == footer_size(o.font_scale as int)
    &&& p.page_label == labels_of(o.locale).page
    &&& p.credit == labels_of(o.locale).generated_with
}

impl PageSetup {
    /// The page of a setlist.
    pub fn for_setlist(title: &str, options: &PdfExportOptions) -> (r: Self)
        ensures
            is_setlist_page(r, title@, *options),
    {
        let labels = options.locale.labels();
        let mut name = "Setlist - ".to_string();
        name.append(title);
        PageSetup {
            title: name,
            line_spacing: if options.compact {
                110
            } else {
                125
            },
            paper: options.paper,
            orientation: options.orientation,
            margin_mm: options.margins.mm(),
            watermark: options.watermark,
            page_numbers: options.page_numbers,
            footer_size: footer_size_of(options.font_scale),
            page_label: labels.page,
            credit: labels.generated_with,
        }
    }

    /// The page of a song.
    pub fn for_song(song: &SongWithArtist, options: &SongPdfOptions) -> (r: Self)
        ensures
            is_song_page(r, *song, *options),
    {
        let labels = options.locale.labels();
        let mut name = song.title.clone();
        name.append(" - ");
        name.append(song.artist_name.as_str());
        PageSetup {
            title: name,
            line_spacing: 125,
            paper: options.paper,
            orientation: options.orientation,
            margin_mm: options.margins.mm(),
            watermark: options.watermark,
            page_numbers: options.page_numbers,
            footer_size: footer_size_of(options.font_scale),
            page_label: labels.page,
            credit: labels.generated_with,
        }
    }

    /// The page number in the footer.
    pub fn page_text(&self, page: u64) -> (r: String)
        ensures
            r@ == self.page_label@ + " "@ + decimal(page as nat),
    {
        let mut r = self.page_label.to_string();
        r.append(" ");
        r.append(decimal_of(page).as_str());
        r
    }
}

/// The two songs differ at most in what a running order does not show: their
/// lyrics and notes, and who keeps them.
pub open spec fn shown_alike(a: SongWithArtist, b: SongWithArtist) -> bool {
    &&& a.title@ == b.title@
    &&& a.artist_name@ == b.artist_name@
    &&& a.tonality == b.tonality
    &&& a.tempo == b.tempo
    &&& a.duration == b.duration
    &&& texts(a.tags@) == texts(b.tags@)
}

/// The two items are the same, or songs that a running order shows alike.
pub open spec fn items_alike(a: SetlistItem, b: SetlistItem) -> bool {
    match (a, b) {
        (SetlistItem::Song { song: x, .. }, SetlistItem::Song { song: y, .. }) => shown_alike(x, y),
        _ => a == b,
    }
}

proof fn lemma_entries_alike(a: Seq<SetlistItem>, b: Seq<SetlistItem>, options: PdfExportOptions)
    requires
        a.len() == b.len(),
        forall|i: int| 0 <= i < a.len() ==> items_alike(#[trigger] a[i], b[i]),
    ensures
        entries(a, options) == entries(b, options),
        song_count(a) == song_count(b),
    decreases a.len(),
{
    if a.len() > 0 {
        let n = a.len() - 1;
        assert(items_alike(a[n], b[n]));
        assert forall|i: int| 0 <= i < n implies items_alike(
            #[trigger] a.drop_last()[i],
            b.drop_last()[i],
        ) by {
            assert(items_alike(a[i], b[i]));
        }
        lemma_entries_alike(a.drop_last(), b.drop_last(), options);
        assert(song_count(a) == song_count(b));
        match (a[n], b[n]) {
            (SetlistItem::Song { song: x, .. }, SetlistItem::Song { song: y, .. }) => {
                assert(meta_parts(x, options) == meta_parts(y, options));
                let number = song_count(a) as int;
                assert(title_text(x, number, options) == title_text(y, number, options));
                assert(song_entry(x, number, options) == song_entry(y, number, options));
            },
            _ => {},
        }
    }
}

/// Without the songbook, whoever holds the sheet gets the running order, never
/// the lyrics: two setlists that differ only in their songs' lyrics and notes
/// print the same.
pub proof fn running_orders_never_show_lyrics(
    a: SetlistPdfData,
    b: SetlistPdfData,
    options: PdfExportOptions,
    day: int,
)
    requires
        !options.include_lyrics,
        a.title@ == b.title@,
        opt_str(a.description) == opt_str(b.description),
        opt_str(a.band_name) == opt_str(b.band_name),
        a.total_duration_secs == b.total_duration_secs,
        a.items@.len() == b.items@.len(),
        forall|i: int| 0 <= i < a.items@.len() ==> items_alike(#[trigger] a.items@[i], b.items@[i]),
    ensures
        setlist_sheet(a, options, day) == setlist_sheet(b, options, day),
{
    lemma_entries_alike(a.items@, b.items@, options);
    assert(info_parts(a, options, day) == info_parts(b, options, day));
    assert(header_top(a, options) == header_top(b, options));
}

} // verus!
