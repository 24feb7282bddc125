//! Printed sheets.

use crate::export::chords::SegmentView;
use crate::export::lyrics::{printable, LyricView};
use crate::export::options::{labels_of, PdfExportOptions, PdfLocale};
use crate::export::pages::{
    all_lyric_blocks, book_meta, book_song, book_songs, duration_line, header, info_parts,
    line_blocks, lyric_blocks, said, setlist_sheet, songbook, songs_of, SetlistPdfData,
};
use crate::export::sheet::{
    break_text, cased, duration_text, entries, entry, in_line, meta_parts, ones, running_order,
    song_count, song_entry, title_text, two_columns, BlockView, PartView, TextStyle,
};
use crate::laws::exporting::lemma_two_digits;
use crate::models::setlist::SetlistItem;
use crate::models::song::SongWithArtist;
use crate::models::tonality::tonality_name;
use crate::text::{
    all_digits, decimal, digits_value, join, lemma_decimal, lines, number, opt_str, opt_text, texts,
    two_digits, upper_case,
};
use vstd::prelude::*;

verus! {

/// The options with no detail of a song shown.
pub open spec fn without_details(o: PdfExportOptions) -> PdfExportOptions {
    PdfExportOptions {
        show_artist: false,
        show_key: false,
        show_bpm: false,
        show_song_duration: false,
        show_tags: false,
        ..o
    }
}

/// The words for a key in each language.
pub open spec fn key_label(locale: PdfLocale) -> Seq<char> {
    match locale {
        PdfLocale::En => "Key: "@,
        PdfLocale::PtBr => "Tom: "@,
        PdfLocale::Es => "Tono: "@,
    }
}

proof fn lemma_key_label(locale: PdfLocale)
    ensures
        labels_of(locale).key@ + ": "@ == key_label(locale),
{
    reveal_strlit("Key");
    reveal_strlit("Tom");
    reveal_strlit("Tono");
    reveal_strlit("Key: ");
    reveal_strlit("Tom: ");
    reveal_strlit("Tono: ");
    reveal_strlit(": ");
    assert(labels_of(locale).key@ + ": "@ =~= key_label(locale));
}

/// Every option shows the detail that it is for, and no other: the artist, the
/// key with its label where the song has one, the tempo with its unit, the
/// duration, the tags.
pub proof fn every_option_shows_its_own_detail(song: SongWithArtist, o: PdfExportOptions)
    ensures
        meta_parts(song, without_details(o)).len() == 0,
        meta_parts(song, PdfExportOptions { show_artist: true, ..without_details(o) }) == seq![
            song.artist_name@,
        ],
        meta_parts(song, PdfExportOptions { show_key: true, ..without_details(o) })
            == match song.tonality {
            Some(k) => seq![key_label(o.locale) + tonality_name(k)],
            None => seq![],
        },
        meta_parts(song, PdfExportOptions { show_bpm: true, ..without_details(o) })
            == match song.tempo {
            Some(n) => seq![number(n as int) + " BPM"@],
            None => seq![],
        },
        meta_parts(song, PdfExportOptions { show_song_duration: true, ..without_details(o) }).len()
            == if song.duration is Some {
            1int
        } else {
            0int
        },
        meta_parts(song, PdfExportOptions { show_tags: true, ..without_details(o) }).len() == if song.tags@.len()
            > 0 {
            1int
        } else {
            0int
        },
{
    lemma_key_label(o.locale);
    if let Some(k) = song.tonality {
        assert(labels_of(o.locale).key@ + ": "@ + tonality_name(k) == key_label(o.locale)
            + tonality_name(k));
    }
    assert(texts(song.tags@).len() == song.tags@.len());
    assert(Seq::<Seq<char>>::empty().push(song.artist_name@) =~= seq![song.artist_name@]);
    if let Some(k) = song.tonality {
        let t = key_label(o.locale) + tonality_name(k);
        assert(Seq::<Seq<char>>::empty().push(t) =~= seq![t]);
    }
    if let Some(n) = song.tempo {
        let t = number(n as int) + " BPM"@;
        assert(Seq::<Seq<char>>::empty().push(t) =~= seq![t]);
    }
}

/// The details that are shown are those that each option shows alone, one after
/// the other: no option changes what another shows.
pub proof fn details_do_not_depend_on_each_other(song: SongWithArtist, o: PdfExportOptions)
    ensures
        meta_parts(song, o) == meta_parts(
            song,
            PdfExportOptions { show_artist: o.show_artist, ..without_details(o) },
        ) + meta_parts(song, PdfExportOptions { show_key: o.show_key, ..without_details(o) })
            + meta_parts(song, PdfExportOptions { show_bpm: o.show_bpm, ..without_details(o) })
            + meta_parts(
            song,
            PdfExportOptions { show_song_duration: o.show_song_duration, ..without_details(o) },
        ) + meta_parts(song, PdfExportOptions { show_tags: o.show_tags, ..without_details(o) }),
{
    assert(meta_parts(song, o) =~= meta_parts(
        song,
        PdfExportOptions { show_artist: o.show_artist, ..without_details(o) },
    ) + meta_parts(song, PdfExportOptions { show_key: o.show_key, ..without_details(o) })
        + meta_parts(song, PdfExportOptions { show_bpm: o.show_bpm, ..without_details(o) })
        + meta_parts(
        song,
        PdfExportOptions { show_song_duration: o.show_song_duration, ..without_details(o) },
    ) + meta_parts(song, PdfExportOptions { show_tags: o.show_tags, ..without_details(o) }));
}

// ---------------------------------------------------------------------
// What is told
// ---------------------------------------------------------------------

/// The texts of a paragraph.
pub open spec fn told_by(b: BlockView) -> Seq<Seq<char>> {
    match b {
        BlockView::Paragraph { spans, .. } => Seq::new(spans.len(), |i: int| spans[i].text),
        _ => seq![],
    }
}

/// The texts of the paragraphs, one after the other.
pub open spec fn told(v: Seq<BlockView>) -> Seq<Seq<char>>
    decreases v.len(),
{
    if v.len() == 0 {
        seq![]
    } else {
        told(v.drop_last()) + told_by(v.last())
    }
}

/// The lyric lines, one after the other.
pub open spec fn sung(v: Seq<BlockView>) -> Seq<Seq<SegmentView>>
    decreases v.len(),
{
    if v.len() == 0 {
        seq![]
    } else {
        match v.last() {
            BlockView::Lyric { segments, .. } => sung(v.drop_last()).push(segments),
            _ => sung(v.drop_last()),
        }
    }
}

proof fn lemma_told_push(v: Seq<BlockView>, b: BlockView)
    ensures
        told(v.push(b)) == told(v) + told_by(b),
        sung(v.push(b)) == match b {
            BlockView::Lyric { segments, .. } => sung(v).push(segments),
            _ => sung(v),
        },
{
    assert(v.push(b).drop_last() =~= v);
}

proof fn lemma_told_both(a: Seq<BlockView>, b: Seq<BlockView>)
    ensures
        told(a + b) == told(a) + told(b),
        sung(a + b) == sung(a) + sung(b),
    decreases b.len(),
{
    if b.len() == 0 {
        assert(a + b =~= a);
        assert(told(a) + told(b) =~= told(a));
        assert(sung(a) + sung(b) =~= sung(a));
    } else {
        lemma_told_both(a, b.drop_last());
        assert((a + b).drop_last() =~= a + b.drop_last());
        assert((a + b).last() == b.last());
        assert(told(a) + (told(b.drop_last()) + told_by(b.last())) =~= told(a) + told(b.drop_last())
            + told_by(b.last()));
        if let BlockView::Lyric { segments, .. } = b.last() {
            assert((sung(a) + sung(b.drop_last())).push(segments) =~= sung(a) + sung(
                b.drop_last(),
            ).push(segments));
        }
    }
}

proof fn lemma_told_one(b: BlockView)
    ensures
        told(seq![b]) == told_by(b),
        sung(seq![b]) == match b {
            BlockView::Lyric { segments, .. } => seq![segments],
            _ => seq![],
        },
{
    let none: Seq<BlockView> = seq![];
    lemma_told_push(none, b);
    assert(none.push(b) =~= seq![b]);
    assert(told(none) + told_by(b) =~= told_by(b));
    if let BlockView::Lyric { segments, .. } = b {
        assert(sung(none).push(segments) =~= seq![segments]);
    }
}

/// A song of the running order tells its title, and its details where there
/// are any, with dots between them.
pub proof fn songs_tell_their_title_and_details(
    song: SongWithArtist,
    number: int,
    o: PdfExportOptions,
)
    ensures
        ({
            let meta = meta_parts(song, o);
            let title = title_text(song, number, o);
            let details = join(meta, "  ·  "@);
            told(song_entry(song, number, o)) == if meta.len() == 0 {
                seq![title]
            } else if o.compact {
                seq![title, "   "@ + details]
            } else {
                seq![title, details]
            }
        }),
        sung(song_entry(song, number, o)).len() == 0,
{
    let e = song_entry(song, number, o);
    let meta = meta_parts(song, o);
    let title = title_text(song, number, o);
    if o.compact {
        lemma_told_one(e[0]);
        assert(e =~= seq![e[0]]);
        if meta.len() == 0 {
            assert(told(e) =~= seq![title]);
        } else {
            assert(told(e) =~= seq![title, "   "@ + join(meta, "  ·  "@)]);
        }
    } else {
        lemma_told_one(e[0]);
        let head = seq![e[0]];
        assert(told(head) =~= seq![title]);
        if meta.len() == 0 {
            assert(e =~= head.push(e[1]));
            lemma_told_push(head, e[1]);
            assert(told(e) =~= seq![title]);
        } else {
            let two = head.push(e[1]);
            assert(e =~= two.push(e[2]));
            lemma_told_push(head, e[1]);
            lemma_told_push(two, e[2]);
            assert(told(e) =~= seq![title, join(meta, "  ·  "@)]);
        }
    }
}

/// A title is printed behind its number where numbers are shown, and in capitals
/// where they are asked for.
pub proof fn titles_have_their_number(song: SongWithArtist, number: nat, o: PdfExportOptions)
    ensures
        ({
            let title = if o.uppercase_titles {
                upper_case(song.title@)
            } else {
                song.title@
            };
            title_text(song, number as int, o) == if o.show_numbers {
                decimal(number) + ". "@ + title
            } else {
                title
            }
        }),
{
}

/// The name of a break where it has none of its own.
pub open spec fn break_word(locale: PdfLocale) -> Seq<char> {
    match locale {
        PdfLocale::En => "Break"@,
        _ => "Pausa"@,
    }
}

/// A block tells its name and a break its label and minutes, where blocks and
/// breaks are shown; where they are not, nothing stands for them. A song is
/// always there.
pub proof fn blocks_and_breaks_are_shown_on_demand(
    item: SetlistItem,
    number: int,
    o: PdfExportOptions,
)
    ensures
        item is Song ==> entry(item, number, o) == Some(song_entry(item->song, number, o)),
        item matches SetlistItem::Block { name, .. } ==> match entry(item, number, o) {
            Some(e) => o.show_blocks && told(e) == seq![
                if o.uppercase_titles {
                    upper_case(name@)
                } else {
                    name@
                },
            ],
            None => !o.show_blocks,
        },
        item matches SetlistItem::Break { label, duration_minutes, .. } ==> match entry(
            item,
            number,
            o,
        ) {
            Some(e) => {
                let word = match label {
                    Some(l) => l@,
                    None => break_word(o.locale),
                };
                o.show_breaks && told(e) == seq![
                    match duration_minutes {
                        Some(m) => "— "@ + word + " ("@ + number_text(m) + " min) —"@,
                        None => "— "@ + word + " —"@,
                    },
                ]
            },
            None => !o.show_breaks,
        },
{
    match item {
        SetlistItem::Block { name, .. } => {
            if let Some(e) = entry(item, number, o) {
                let a = seq![e[0]];
                let b = a.push(e[1]);
                assert(e =~= b.push(e[2]));
                lemma_told_one(e[0]);
                lemma_told_push(a, e[1]);
                lemma_told_push(b, e[2]);
                assert(told(e) =~= seq![cased(name@, o.uppercase_titles)]);
            }
        },
        SetlistItem::Break { label, duration_minutes, .. } => {
            if let Some(e) = entry(item, number, o) {
                let a = seq![e[0]];
                assert(e =~= a.push(e[1]));
                lemma_told_one(e[0]);
                lemma_told_push(a, e[1]);
                assert(told(e) =~= seq![
                    break_text(opt_text(label), duration_minutes, o.locale),
                ]);
            }
        },
        _ => {},
    }
}

pub open spec fn number_text(n: i32) -> Seq<char> {
    number(n as int)
}

/// Songs are numbered in their order, from one: the next song has the number of
/// songs before it, and one. Blocks and breaks have no number.
pub proof fn songs_are_numbered_in_their_order(
    items: Seq<SetlistItem>,
    item: SetlistItem,
    o: PdfExportOptions,
)
    ensures
        song_count(items) == songs_of(items).len(),
        songs_of(items.push(item)) == match item {
            SetlistItem::Song { song, .. } => songs_of(items).push(song),
            _ => songs_of(items),
        },
        item is Song ==> entries(items.push(item), o) == entries(items, o).push(
            song_entry(item->song, songs_of(items).len() as int + 1, o),
        ),
        item !is Song && entry(item, 0, o) is None ==> entries(items.push(item), o) == entries(
            items,
            o,
        ),
        item !is Song && entry(item, 0, o) is Some ==> entries(items.push(item), o) == entries(
            items,
            o,
        ).push(entry(item, 0, o)->0),
        entries(seq![], o).len() == 0,
        songs_of(seq![]).len() == 0,
{
    lemma_counted(items);
    lemma_counted(items.push(item));
    assert(items.push(item).drop_last() =~= items);
}

proof fn lemma_counted(items: Seq<SetlistItem>)
    ensures
        song_count(items) == songs_of(items).len(),
    decreases items.len(),
{
    if items.len() > 0 {
        lemma_counted(items.drop_last());
    }
}

/// Two columns hold every entry, down the left one and then down the right one,
/// and are as long as each other, or the left one is one entry longer.
pub proof fn columns_are_read_left_then_right(v: Seq<Seq<BlockView>>)
    ensures
        ({
            let r = two_columns(v);
            &&& 2 * r.len() == v.len() || 2 * r.len() == v.len() + 1
            &&& forall|i: int| 0 <= i < r.len() ==> (#[trigger] r[i]).left == v[i]
            &&& forall|i: int|
                0 <= i < r.len() ==> ((#[trigger] r[i]).right is Some <==> r.len() + i < v.len())
            &&& forall|i: int|
                0 <= i < r.len() && r.len() + i < v.len() ==> (#[trigger] r[i]).right == Some(
                    v[r.len() + i],
                )
        }),
{
}

/// The running order has two columns where they are asked for and there is more
/// than one entry; otherwise its entries follow each other.
pub proof fn running_orders_follow_their_entries(
    items: Seq<SetlistItem>,
    o: PdfExportOptions,
    a: Seq<Seq<BlockView>>,
    e: Seq<BlockView>,
)
    ensures
        o.columns == 2 && entries(items, o).len() > 1 ==> running_order(items, o) == seq![
            PartView::Columns(two_columns(entries(items, o))),
        ],
        o.columns != 2 || entries(items, o).len() <= 1 ==> running_order(items, o) == in_line(
            entries(items, o),
        ),
        in_line(a.push(e)) == in_line(a) + ones(e),
        in_line(seq![]).len() == 0,
        ones(e).len() == e.len(),
        forall|i: int| 0 <= i < e.len() ==> #[trigger] ones(e)[i] == PartView::One(e[i]),
{
    assert(a.push(e).drop_last() =~= a);
}

/// A whole sheet is its header, its running order and, where lyrics are asked
/// for, its songbook.
pub proof fn lyrics_are_printed_on_demand(data: SetlistPdfData, o: PdfExportOptions, day: int)
    ensures
        o.include_lyrics ==> setlist_sheet(data, o, day) == ones(header(data, o, day))
            + running_order(data.items@, o) + ones(songbook(data.items@, o)),
        !o.include_lyrics ==> setlist_sheet(data, o, day) == ones(header(data, o, day))
            + running_order(data.items@, o),
{
}

/// The header tells the title, the subtitle, what is known of the show and its
/// description, each where it is asked for and there is one.
pub proof fn headers_tell_what_is_asked_for(data: SetlistPdfData, o: PdfExportOptions, day: int)
    ensures
        ({
            let title = if o.show_title {
                seq![
                    if o.uppercase_titles {
                        upper_case(data.title@)
                    } else {
                        data.title@
                    },
                ]
            } else {
                seq![]
            };
            let subtitle = match opt_text(o.subtitle) {
                Some(t) => seq![t],
                None => seq![],
            };
            let info = if info_parts(data, o, day).len() > 0 {
                seq![join(info_parts(data, o, day), "   ·   "@)]
            } else {
                seq![]
            };
            let description = if o.show_description && said(opt_str(data.description)) is Some {
                lines(said(opt_str(data.description))->0)
            } else {
                seq![]
            };
            told(header(data, o, day)) == title + subtitle + info + description
        }),
{
    let none: Seq<BlockView> = seq![];
    let top = crate::export::pages::header_top(data, o);
    let h0: Seq<BlockView> = if o.show_title {
        seq![top[0]]
    } else {
        seq![]
    };
    let title = if o.show_title {
        seq![cased(data.title@, o.uppercase_titles)]
    } else {
        seq![]
    };
    if o.show_title {
        lemma_told_one(top[0]);
        assert(told(h0) =~= title);
    } else {
        assert(told(h0) =~= title);
    }
    let subtitle = match opt_text(o.subtitle) {
        Some(t) => seq![t],
        None => seq![],
    };
    if opt_text(o.subtitle) is Some {
        assert(top =~= h0.push(top.last()));
        lemma_told_push(h0, top.last());
        assert(told_by(top.last()) =~= subtitle);
    } else {
        assert(top =~= h0);
    }
    assert(told(top) =~= title + subtitle);
    let info = info_parts(data, o, day);
    let scale = o.font_scale as int;
    let line = crate::export::sheet::line_block(
        join(info, "   ·   "@),
        crate::export::sheet::muted_style(105, scale),
        crate::export::sheet::Align::Center,
    );
    let v = if info.len() > 0 {
        top.push(line)
    } else {
        top
    };
    lemma_told_push(top, line);
    let told_info = if info.len() > 0 {
        seq![join(info, "   ·   "@)]
    } else {
        seq![]
    };
    assert(told_by(line) =~= seq![join(info, "   ·   "@)]);
    assert(told(v) =~= title + subtitle + told_info);
    let d = said(opt_str(data.description));
    let space = crate::export::sheet::space(4);
    let shown = o.show_description && d is Some;
    let more = line_blocks(
        lines(d->0),
        crate::export::sheet::italic(crate::export::sheet::muted_style(105, scale)),
        crate::export::sheet::Align::Center,
    );
    lemma_told_push(v, space);
    lemma_told_both(v.push(space), more);
    lemma_told_lines(
        lines(d->0),
        crate::export::sheet::italic(crate::export::sheet::muted_style(105, scale)),
        crate::export::sheet::Align::Center,
    );
    let w = if shown {
        v.push(space) + more
    } else {
        v
    };
    let description = if shown {
        lines(d->0)
    } else {
        seq![]
    };
    assert(told_by(space) =~= seq![]);
    assert(told(w) =~= title + subtitle + told_info + description);
    let s5 = crate::export::sheet::space(5);
    let r = crate::export::sheet::rule(210, 210, 210);
    let last = crate::export::sheet::space(
        if o.compact {
            3
        } else {
            8
        },
    );
    lemma_told_push(w, s5);
    lemma_told_push(w.push(s5), r);
    lemma_told_push(w.push(s5).push(r), last);
    assert(told_by(s5) =~= seq![]);
    assert(told_by(r) =~= seq![]);
    assert(told_by(last) =~= seq![]);
    assert(told(w.push(s5).push(r).push(last)) =~= told(w));
    assert(told(header(data, o, day)) == told(w));
}

proof fn lemma_told_lines(v: Seq<Seq<char>>, style: TextStyle, align: crate::export::sheet::Align)
    ensures
        told(line_blocks(v, style, align)) == v,
    decreases v.len(),
{
    let b = line_blocks(v, style, align);
    if v.len() > 0 {
        lemma_told_lines(v.drop_last(), style, align);
        assert(b.drop_last() =~= line_blocks(v.drop_last(), style, align));
        assert(told_by(b.last()) =~= seq![v.last()]);
        assert(v.drop_last() + seq![v.last()] =~= v);
    } else {
        assert(told(b) =~= v);
    }
}

/// The options with nothing of the show told in the header.
pub open spec fn without_info(o: PdfExportOptions) -> PdfExportOptions {
    PdfExportOptions { show_band_name: false, show_total_duration: false, show_date: false, ..o }
}

/// What is told of the show: the band, the number of songs with the length, and
/// the day, each with its own option.
pub proof fn shows_are_told_by_their_options(data: SetlistPdfData, o: PdfExportOptions, day: int)
    ensures
        info_parts(data, without_info(o), day).len() == 0,
        info_parts(data, PdfExportOptions { show_band_name: true, ..without_info(o) }, day)
            == match opt_str(data.band_name) {
            Some(b) => seq![b],
            None => seq![],
        },
        info_parts(data, PdfExportOptions { show_total_duration: true, ..without_info(o) }, day)
            == seq![
            duration_line(
                songs_of(data.items@).len(),
                data.total_duration_secs as int,
                o.locale,
            ),
        ],
        info_parts(data, PdfExportOptions { show_date: true, ..without_info(o) }, day) == seq![
            labels_of(o.locale).exported_on@ + " "@ + crate::time::chrono_date_text(
                day,
                labels_of(o.locale).date_format@,
            ),
        ],
{
    lemma_counted(data.items@);
    let none: Seq<Seq<char>> = seq![];
    if let Some(b) = opt_str(data.band_name) {
        assert(none.push(b) =~= seq![b]);
    }
    let d = duration_line(song_count(data.items@), data.total_duration_secs as int, o.locale);
    assert(none.push(d) =~= seq![d]);
    let t = crate::export::pages::date_line(day, o.locale);
    assert(none.push(t) =~= seq![t]);
}

/// What is told of the show by several options is what each tells alone: first
/// the band, then the length, then the day.
pub proof fn shows_are_told_in_order(data: SetlistPdfData, o: PdfExportOptions, day: int)
    ensures
        ({
            let band = match opt_str(data.band_name) {
                Some(b) => if o.show_band_name {
                    seq![b]
                } else {
                    seq![]
                },
                None => seq![],
            };
            let count = if o.show_band_name && opt_str(data.band_name) is Some {
                1int
            } else {
                0int
            } + if o.show_total_duration {
                1int
            } else {
                0int
            } + if o.show_date {
                1int
            } else {
                0int
            };
            &&& info_parts(data, o, day).len() == count
            &&& info_parts(data, o, day).take(band.len() as int) == band
            &&& o.show_date ==> info_parts(data, o, day).last() == labels_of(
                o.locale,
            ).exported_on@ + " "@ + crate::time::chrono_date_text(
                day,
                labels_of(o.locale).date_format@,
            )
        }),
{
    let band = match opt_str(data.band_name) {
        Some(b) => if o.show_band_name {
            seq![b]
        } else {
            seq![]
        },
        None => seq![],
    };
    assert(info_parts(data, o, day).take(band.len() as int) =~= band);
}

/// The number of songs and the length of the show, where it is known.
pub proof fn lengths_are_told_where_known(songs: nat, total_secs: int)
    ensures
        duration_line(songs, total_secs, PdfLocale::En) == decimal(songs)
            + " songs  ·  Estimated duration: "@ + if total_secs > 0 {
            duration_text(total_secs)
        } else {
            "Not calculated"@
        },
{
    reveal_strlit(" ");
    reveal_strlit("songs");
    reveal_strlit("  ·  ");
    reveal_strlit("Estimated duration");
    reveal_strlit(": ");
    reveal_strlit(" songs  ·  Estimated duration: ");
    let t = if total_secs > 0 {
        duration_text(total_secs)
    } else {
        "Not calculated"@
    };
    assert(" "@ + "songs"@ + "  ·  "@ + "Estimated duration"@ + ": "@
        =~= " songs  ·  Estimated duration: "@);
    assert(decimal(songs) + " "@ + "songs"@ + "  ·  "@ + "Estimated duration"@ + ": "@ + t
        =~= decimal(songs) + (" "@ + "songs"@ + "  ·  "@ + "Estimated duration"@ + ": "@) + t);
}

/// A length is told in minutes and seconds below an hour, and in hours and
/// minutes from there on.
pub proof fn lengths_are_told_in_hours_or_minutes(secs: int)
    requires
        secs >= 0,
    ensures
        secs < 3_600 ==> exists|m: Seq<char>, s: Seq<char>|
            duration_text(secs) == #[trigger] (m + ":"@ + s) && all_digits(m) && all_digits(s)
                && s.len() == 2 && digits_value(s) < 60 && digits_value(m) * 60 + digits_value(s)
                == secs,
        secs >= 3_600 ==> exists|h: Seq<char>, m: Seq<char>|
            duration_text(secs) == #[trigger] (h + "h "@ + m + "m"@) && all_digits(h) && all_digits(
                m,
            ) && m.len() == 2 && digits_value(m) < 60 && digits_value(h) * 3_600 + digits_value(m)
                * 60 <= secs < digits_value(h) * 3_600 + digits_value(m) * 60 + 60,
{
    let h = decimal((secs / 3_600) as nat);
    let minutes = ((secs % 3_600) / 60) as nat;
    lemma_decimal((secs / 3_600) as nat);
    lemma_decimal(minutes);
    lemma_two_digits(minutes);
    lemma_two_digits((secs % 60) as nat);
    if secs < 3_600 {
        let m = decimal(minutes);
        let s = two_digits((secs % 60) as nat);
        assert(duration_text(secs) == m + ":"@ + s);
        assert(digits_value(m) * 60 + digits_value(s) == secs);
    } else {
        let m = two_digits(minutes);
        assert(duration_text(secs) == h + "h "@ + m + "m"@);
    }
}

// ---------------------------------------------------------------------
// Lyrics
// ---------------------------------------------------------------------

/// The headings and comments among printed lines.
pub open spec fn titles_in(v: Seq<LyricView>) -> Seq<Seq<char>>
    decreases v.len(),
{
    if v.len() == 0 {
        seq![]
    } else {
        match v.last() {
            LyricView::Heading(t) => titles_in(v.drop_last()).push(t),
            LyricView::Comment(t) => titles_in(v.drop_last()).push(t),
            _ => titles_in(v.drop_last()),
        }
    }
}

/// The lyric lines among printed lines.
pub open spec fn lines_in(v: Seq<LyricView>) -> Seq<Seq<SegmentView>>
    decreases v.len(),
{
    if v.len() == 0 {
        seq![]
    } else {
        match v.last() {
            LyricView::Segments(s) => lines_in(v.drop_last()).push(s),
            _ => lines_in(v.drop_last()),
        }
    }
}

/// Printed lyrics hold every heading, comment and lyric line, in their order.
pub proof fn every_lyric_line_is_drawn(
    v: Seq<LyricView>,
    scale: int,
    lyric: TextStyle,
    chord: TextStyle,
)
    ensures
        told(all_lyric_blocks(v, scale, lyric, chord)) == titles_in(v),
        sung(all_lyric_blocks(v, scale, lyric, chord)) == lines_in(v),
    decreases v.len(),
{
    let none: Seq<BlockView> = seq![];
    if v.len() == 0 {
        assert(told(none) =~= seq![]);
        assert(sung(none) =~= seq![]);
        assert(all_lyric_blocks(v, scale, lyric, chord) =~= none);
    } else {
        every_lyric_line_is_drawn(v.drop_last(), scale, lyric, chord);
        let a = all_lyric_blocks(v.drop_last(), scale, lyric, chord);
        let b = lyric_blocks(v.last(), scale, lyric, chord);
        lemma_told_both(a, b);
        lemma_told_one(b[0]);
        match v.last() {
            LyricView::Heading(t) => {
                let one = seq![b[0]];
                assert(b =~= one.push(b[1]));
                lemma_told_push(one, b[1]);
                assert(told(b) =~= seq![t]);
                assert(sung(b) =~= seq![]);
            },
            LyricView::Comment(t) => {
                assert(b =~= seq![b[0]]);
                assert(told(b) =~= seq![t]);
                assert(sung(b) =~= seq![]);
            },
            LyricView::Segments(s) => {
                assert(b =~= seq![b[0]]);
                assert(told(b) =~= seq![]);
                assert(sung(b) =~= seq![s]);
            },
            LyricView::Blank => {
                assert(b =~= seq![b[0]]);
                assert(told(b) =~= seq![]);
                assert(sung(b) =~= seq![]);
            },
        }
        assert(told(a + b) =~= titles_in(v));
        assert(sung(a + b) =~= lines_in(v));
    }
}

/// What stands for the lyrics of a song that has none.
pub open spec fn no_lyrics_words(locale: PdfLocale) -> Seq<char> {
    match locale {
        PdfLocale::En => "No lyrics yet."@,
        PdfLocale::PtBr => "Sem letra cadastrada."@,
        PdfLocale::Es => "Sin letra registrada."@,
    }
}

/// A song of the songbook tells its title with its number, its artist, key and
/// tempo, and its lyrics, in the chord mode and the language of the sheet; a song
/// without lyrics says so.
pub proof fn songbooks_hold_the_lyrics(song: SongWithArtist, index: int, o: PdfExportOptions)
    requires
        index >= 0,
    ensures
        ({
            let lyrics = match opt_text(song.lyrics) {
                Some(l) => printable(l, o.chords, o.locale),
                None => seq![],
            };
            let head = seq![
                title_text(song, index + 1, o),
                join(book_meta(song, o.locale), "  ·  "@),
            ];
            &&& told(book_song(song, index, o)) == head + if lyrics.len() == 0 {
                seq![no_lyrics_words(o.locale)]
            } else {
                titles_in(lyrics)
            }
            &&& sung(book_song(song, index, o)) == lines_in(lyrics)
        }),
{
    let scale = o.font_scale as int;
    let lyrics = crate::export::pages::lyrics_of(song, o);
    let b = book_song(song, index, o);
    let first = crate::export::pages::before_song(index, o);
    let title = crate::export::sheet::line_block(
        title_text(song, index + 1, o),
        crate::export::sheet::bold(crate::export::sheet::text_style(150, scale)),
        crate::export::sheet::Align::Left,
    );
    let meta = crate::export::sheet::line_block(
        join(book_meta(song, o.locale), "  ·  "@),
        crate::export::sheet::muted_style(100, scale),
        crate::export::sheet::Align::Left,
    );
    let room = crate::export::sheet::space(5);
    lemma_quiet(first);
    lemma_told_push(first, title);
    lemma_told_push(first.push(title), meta);
    lemma_told_push(first.push(title).push(meta), room);
    let head = first.push(title).push(meta).push(room);
    let said_head = seq![
        title_text(song, index + 1, o),
        join(book_meta(song, o.locale), "  ·  "@),
    ];
    assert(told_by(room) =~= seq![]);
    assert(told_by(title) =~= seq![title_text(song, index + 1, o)]);
    assert(told_by(meta) =~= seq![join(book_meta(song, o.locale), "  ·  "@)]);
    assert(told(head) =~= said_head);
    assert(sung(head) =~= seq![]);
    if lyrics.len() == 0 {
        assert(b =~= head.push(b.last()));
        lemma_told_push(head, b.last());
        assert(told_by(b.last()) =~= seq![no_lyrics_words(o.locale)]);
        assert(lines_in(lyrics) =~= seq![]);
    } else {
        let style = crate::export::sheet::text_style(
            if o.compact {
                100
            } else {
                115
            },
            scale,
        );
        let chord = crate::export::sheet::colored(
            crate::export::sheet::bold(
                crate::export::sheet::text_style(
                    if o.compact {
                        90
                    } else {
                        105
                    },
                    scale,
                ),
            ),
            crate::export::pages::chord_blue(),
        );
        let body = all_lyric_blocks(lyrics, scale, style, chord);
        lemma_told_both(head, body);
        every_lyric_line_is_drawn(lyrics, scale, style, chord);
        assert(b == head + body);
        assert(sung(head) + lines_in(lyrics) =~= lines_in(lyrics));
    }
}

proof fn lemma_quiet(v: Seq<BlockView>)
    requires
        forall|i: int|
            0 <= i < v.len() ==> !((#[trigger] v[i]) is Paragraph) && !(v[i] is Lyric),
    ensures
        told(v) == Seq::<Seq<char>>::empty(),
        sung(v) == Seq::<Seq<SegmentView>>::empty(),
    decreases v.len(),
{
    if v.len() > 0 {
        assert(!(v[v.len() - 1] is Paragraph) && !(v[v.len() - 1] is Lyric));
        assert forall|i: int| 0 <= i < v.drop_last().len() implies !((
        #[trigger] v.drop_last()[i]) is Paragraph) && !(v.drop_last()[i] is Lyric) by {
            assert(v.drop_last()[i] == v[i]);
        }
        lemma_quiet(v.drop_last());
        assert(told(v) =~= seq![]);
    } else {
        assert(told(v) =~= seq![]);
    }
}

/// The songbook holds every song of the setlist, in its order; from the second
/// on each starts a page where that is asked for.
pub proof fn songbooks_hold_every_song(
    songs: Seq<SongWithArtist>,
    song: SongWithArtist,
    items: Seq<SetlistItem>,
    o: PdfExportOptions,
)
    ensures
        book_songs(songs.push(song), o) == book_songs(songs, o) + book_song(
            song,
            songs.len() as int,
            o,
        ),
        book_songs(seq![], o).len() == 0,
        songs_of(items).len() == 0 ==> songbook(items, o).len() == 0,
        songs_of(items).len() > 0 ==> exists|front: Seq<BlockView>|
            songbook(items, o) == #[trigger] (front + book_songs(songs_of(items), o)) && told(front)
                == seq![labels_of(o.locale).lyrics@] && front[0] == BlockView::PageBreak,
        o.page_break_per_song && songs.len() > 0 ==> book_song(song, songs.len() as int, o)[0]
            == BlockView::PageBreak,
        !o.page_break_per_song || songs.len() == 0 ==> book_song(song, songs.len() as int, o)[0]
            != BlockView::PageBreak,
{
    assert(songs.push(song).drop_last() =~= songs);
    if songs_of(items).len() > 0 {
        let all = songbook(items, o);
        let front = all.take(3);
        assert(all =~= front + book_songs(songs_of(items), o));
        let one = seq![front[0]];
        let two = one.push(front[1]);
        assert(front =~= two.push(front[2]));
        lemma_told_one(front[0]);
        lemma_told_push(one, front[1]);
        lemma_told_push(two, front[2]);
        assert(told(front) =~= seq![labels_of(o.locale).lyrics@]);
    }
}

/// In the songbook a song tells its artist, and its key and tempo where it has
/// them.
pub proof fn songbooks_tell_artist_key_and_tempo(song: SongWithArtist, locale: PdfLocale)
    ensures
        book_meta(song, locale) == seq![song.artist_name@] + (match song.tonality {
            Some(k) => seq![key_label(locale) + tonality_name(k)],
            None => seq![],
        }) + (match song.tempo {
            Some(n) => seq![number(n as int) + " BPM"@],
            None => seq![],
        }),
{
    lemma_key_label(locale);
    assert(book_meta(song, locale) =~= seq![song.artist_name@] + (match song.tonality {
        Some(k) => seq![key_label(locale) + tonality_name(k)],
        None => seq![],
    }) + (match song.tempo {
        Some(n) => seq![number(n as int) + " BPM"@],
        None => seq![],
    }));
}

} // verus!
