//! Sheets of a single song, and the options of sheets.

use crate::export::lyrics::{printable, LyricView};
use crate::export::options::{
    asked_by, labels_of, song_options, ExportQuery, MarginSize, PdfExportOptions, PdfLocale,
    SongExportQuery, SongPdfOptions,
};
use crate::export::pages::{
    sheet_chord_style, sheet_head, sheet_lyric_style, sheet_meta, song_sheet, stanza_rows,
};
use crate::export::sheet::{
    bold, cased, line_block, muted_style, ones, text_style, Align, PartView,
};
use crate::laws::sheets::key_label;
use crate::models::song::SongWithArtist;
use crate::models::tonality::tonality_name;
use crate::text::{join, lines, number, opt_text, trim};
use vstd::prelude::*;

verus! {

/// The options with no detail of the song shown.
pub open spec fn bare(o: SongPdfOptions) -> SongPdfOptions {
    SongPdfOptions {
        show_key: false,
        show_capo: false,
        show_bpm: false,
        show_time_signature: false,
        show_tuning: false,
        ..o
    }
}

proof fn lemma_words(locale: PdfLocale)
    ensures
        labels_of(locale).key@ + ": "@ == key_label(locale),
{
    reveal_strlit("Key");
    reveal_strlit("Tom");
    reveal_strlit("Tono");
    reveal_strlit("Key: ");
    reveal_strlit("Tom: ");
    reveal_strlit("Tono: ");
    reveal_strlit(": ");
    assert(labels_of(locale).key@ + ": "@ =~= key_label(locale));
}

/// On the sheet of a song every option shows the detail that it is for, with
/// its label, where the song has one; a capo on no fret is none.
pub proof fn song_sheets_show_what_is_asked_for(song: SongWithArtist, o: SongPdfOptions)
    ensures
        sheet_meta(song, bare(o)).len() == 0,
        sheet_meta(song, SongPdfOptions { show_key: true, ..bare(o) }) == match song.tonality {
            Some(k) => seq![key_label(o.locale) + tonality_name(k)],
            None => seq![],
        },
        sheet_meta(song, SongPdfOptions { show_bpm: true, ..bare(o) }) == match song.tempo {
            Some(n) => seq![number(n as int) + " BPM"@],
            None => seq![],
        },
{
    lemma_words(o.locale);
    let none: Seq<Seq<char>> = seq![];
    if let Some(k) = song.tonality {
        let t = key_label(o.locale) + tonality_name(k);
        assert(none.push(t) =~= seq![t]);
    }
    if let Some(n) = song.tempo {
        let t = number(n as int) + " BPM"@;
        assert(none.push(t) =~= seq![t]);
    }
}

/// The capo, the time signature and the tuning, likewise.
pub proof fn song_sheets_show_capo_time_and_tuning(song: SongWithArtist, o: SongPdfOptions)
    ensures
        sheet_meta(song, SongPdfOptions { show_capo: true, ..bare(o) }) == match song.capo {
            Some(n) => if n > 0 {
                seq![labels_of(o.locale).capo@ + ": "@ + number(n as int)]
            } else {
                seq![]
            },
            None => seq![],
        },
        sheet_meta(song, SongPdfOptions { show_time_signature: true, ..bare(o) })
            == match opt_text(song.time_signature) {
            Some(t) => seq![labels_of(o.locale).time_signature@ + ": "@ + t],
            None => seq![],
        },
        sheet_meta(song, SongPdfOptions { show_tuning: true, ..bare(o) }) == match opt_text(
            song.tuning,
        ) {
            Some(t) => seq![labels_of(o.locale).tuning@ + ": "@ + t],
            None => seq![],
        },
{
    let none: Seq<Seq<char>> = seq![];
    if let Some(n) = song.capo {
        let t = labels_of(o.locale).capo@ + ": "@ + number(n as int);
        assert(none.push(t) =~= seq![t]);
    }
    if let Some(s) = opt_text(song.time_signature) {
        let t = labels_of(o.locale).time_signature@ + ": "@ + s;
        assert(none.push(t) =~= seq![t]);
    }
    if let Some(s) = opt_text(song.tuning) {
        let t = labels_of(o.locale).tuning@ + ": "@ + s;
        assert(none.push(t) =~= seq![t]);
    }
}

/// How many lines the notes of a song take on its sheet.
pub open spec fn lines_of_notes(song: SongWithArtist, o: SongPdfOptions) -> int {
    match song.performance_notes {
        Some(n) => if o.show_notes && trim(n@).len() > 0 {
            lines(trim(n@)).len() as int + 2
        } else {
            0
        },
        None => 0,
    }
}

/// The head of a song sheet tells the title, then the artist and the details
/// where they are shown, then the notes where they are.
pub proof fn song_sheets_tell_title_artist_and_notes(song: SongWithArtist, o: SongPdfOptions)
    ensures
        ({
            let head = sheet_head(song, o);
            let scale = o.font_scale as int;
            let artist: int = if o.show_artist {
                1
            } else {
                0
            };
            let meta: int = if sheet_meta(song, o).len() > 0 {
                1
            } else {
                0
            };
            &&& head.len() == 4 + artist + meta + lines_of_notes(song, o)
            &&& head[0] == line_block(
                cased(song.title@, o.uppercase_titles),
                bold(text_style(220, scale)),
                Align::Left,
            )
            &&& o.show_artist ==> head[1] == line_block(
                song.artist_name@,
                muted_style(130, scale),
                Align::Left,
            )
            &&& meta == 1 ==> head[1 + artist] == line_block(
                join(sheet_meta(song, o), "  ·  "@),
                muted_style(110, scale),
                Align::Left,
            )
            &&& lines_of_notes(song, o) > 0 ==> head[2 + artist + meta] == line_block(
                labels_of(o.locale).notes@ + ":"@,
                bold(text_style(105, scale)),
                Align::Left,
            )
        }),
{
}

/// The sheet of a song prints its lyrics in the chord mode and the language
/// that are asked for, in columns of stanzas where two columns are asked for.
pub proof fn song_sheets_print_the_lyrics(song: SongWithArtist, o: SongPdfOptions)
    ensures
        ({
            let lyrics = match opt_text(song.lyrics) {
                Some(l) => printable(l, o.chords, o.locale),
                None => seq![],
            };
            let head = ones(sheet_head(song, o));
            &&& lyrics.len() > 0 && o.columns == 2 ==> song_sheet(song, o) == head.push(
                PartView::Columns(stanza_rows(crate::export::lyrics::stanzas_of(lyrics), o)),
            )
            &&& lyrics.len() > 0 && o.columns != 2 ==> song_sheet(song, o) == head + ones(
                crate::export::pages::all_lyric_blocks(
                    lyrics,
                    o.font_scale as int,
                    sheet_lyric_style(o),
                    sheet_chord_style(o),
                ),
            )
            &&& lyrics.len() == 0 ==> song_sheet(song, o).len() == head.len() + 1
        }),
{
}

/// Stanzas fill the rows from left to right.
pub proof fn stanzas_fill_rows_from_left_to_right(v: Seq<Seq<LyricView>>, o: SongPdfOptions)
    ensures
        ({
            let r = stanza_rows(v, o);
            &&& 2 * r.len() == v.len() || 2 * r.len() == v.len() + 1
            &&& forall|i: int|
                0 <= i < r.len() ==> (#[trigger] r[i]).left
                    == crate::export::pages::stanza_blocks(v[2 * i], o)
            &&& forall|i: int|
                0 <= i < r.len() && 2 * i + 1 < v.len() ==> (#[trigger] r[i]).right == Some(
                    crate::export::pages::stanza_blocks(v[2 * i + 1], o),
                )
            &&& v.len() % 2 == 1 ==> r.last().right is None
        }),
{
}

/// Every switch of an export is the one that was asked for; the columns are one
/// or two, the text size from 60 to 200 percent, and the subtitle at most 120
/// characters that say something.
pub proof fn exports_are_as_asked_for(o: PdfExportOptions, q: ExportQuery)
    requires
        asked_by(o, q),
    ensures
        o.show_title == q.show_title && o.show_description == q.show_description
            && o.show_band_name == q.show_band_name && o.show_date == q.show_date
            && o.show_total_duration == q.show_total_duration && o.show_numbers == q.show_numbers,
        o.show_artist == q.show_artist && o.show_key == q.show_key && o.show_bpm == q.show_bpm
            && o.show_song_duration == q.show_song_duration && o.show_tags == q.show_tags,
        o.show_blocks == q.show_blocks && o.show_breaks == q.show_breaks && o.include_lyrics
            == q.include_lyrics && o.chords == q.chords && o.page_break_per_song
            == q.page_break_per_song,
        o.compact == q.compact && o.uppercase_titles == q.uppercase_titles && o.watermark
            == q.watermark && o.page_numbers == q.page_numbers && o.paper == q.paper
            && o.orientation == q.orientation && o.margins == q.margins && o.locale == q.lang,
        q.columns <= 1 ==> o.columns == 1,
        q.columns >= 2 ==> o.columns == 2,
        60 <= q.font_scale <= 200 ==> o.font_scale == q.font_scale,
        q.font_scale < 60 ==> o.font_scale == 60,
        q.font_scale > 200 ==> o.font_scale == 200,
        opt_text(o.subtitle) == match opt_text(q.subtitle) {
            Some(t) => if trim(t).len() == 0 {
                None
            } else if trim(t).len() <= 120 {
                Some(trim(t))
            } else {
                Some(trim(t).take(120))
            },
            None => None,
        },
{
}

/// The same of the sheet of a song.
pub proof fn song_exports_are_as_asked_for(q: SongExportQuery)
    ensures
        ({
            let o = song_options(q);
            &&& o.show_artist == q.show_artist && o.show_key == q.show_key && o.show_capo
                == q.show_capo && o.show_bpm == q.show_bpm
            &&& o.show_time_signature == q.show_time_signature && o.show_tuning == q.show_tuning
                && o.show_notes == q.show_notes && o.chords == q.chord_mode
            &&& o.uppercase_titles == q.uppercase_titles && o.watermark == q.watermark
                && o.page_numbers == q.page_numbers && o.paper == q.paper && o.orientation
                == q.orientation && o.margins == q.margins && o.locale == q.lang
            &&& q.columns <= 1 ==> o.columns == 1
            &&& q.columns >= 2 ==> o.columns == 2
            &&& 60 <= q.font_scale <= 200 ==> o.font_scale == q.font_scale
            &&& q.font_scale < 60 ==> o.font_scale == 60
            &&& q.font_scale > 200 ==> o.font_scale == 200
        }),
{
}

/// An export is advanced when it has two columns, lyrics, no watermark, or
/// margins of its own.
pub proof fn advanced_exports(o: PdfExportOptions, s: SongPdfOptions)
    ensures
        o.advanced() <==> !(o.columns != 2 && !o.include_lyrics && o.watermark && o.margins
            == MarginSize::Normal),
        s.advanced() <==> !(s.columns != 2 && s.watermark && s.margins == MarginSize::Normal),
{
}

} // verus!
