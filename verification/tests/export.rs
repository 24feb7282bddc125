use setlyst::errors::codes;
use setlyst::export::chordpro::{directive_value, embeddable_lyrics, render_song, render_songs};
use setlyst::export::chords::{
    inline_chords, is_chord, is_chord_only_line, merge_chord_line, parse_inline_chords,
    strip_chords,
};
use setlyst::export::filenames::{
    chordpro_filename, content_disposition, pdf_filename, slug_filename,
};
use setlyst::export::layout::{lay_out, rows_needed, wrapped_text, Widths};
use setlyst::export::limiter::{ensure_pdf_fits, service_busy, MAX_PDF_ITEMS};
use setlyst::export::lyrics::{parse_lyrics, stanzas, LyricLine};
use setlyst::export::options::{
    ChordMode, ExportQuery, MarginSize, Orientation, PaperFormat, PdfExportOptions, PdfLocale,
    SongExportQuery, SongPdfOptions,
};
use setlyst::export::pages::{plan_setlist, plan_song, PageSetup, SetlistPdfData};
use setlyst::export::sheet::{format_duration, format_tonality, Block, Part};
use setlyst::ids::Uuid;
use setlyst::models::link::Links;
use setlyst::models::setlist::SetlistItem;
use setlyst::models::song::{SongExport, SongWithArtist};
use setlyst::models::tonality::Tonality;
use setlyst::time::{NaiveDate, NaiveDateTime};

fn exported() -> SongExport {
    SongExport {
        title: "Garota {de} Ipanema".to_string(),
        artist_name: Some("Tom\nJobim".to_string()),
        tonality: Some("F".to_string()),
        tempo: Some(128),
        lyrics: Some("[F]Olha que coisa\n{new_song}\n{title: injected}".to_string()),
        time_signature: Some("4/4".to_string()),
        capo: Some(2),
        duration: Some(185),
        energy: Some(3),
    }
}

#[test]
fn renders_every_directive_safely() {
    let text = render_song(&exported());
    assert!(text.starts_with("{title: Garota de Ipanema}\n"));
    assert!(text.contains("{artist: Tom Jobim}\n"));
    assert!(text.contains("{key: F}\n{tempo: 128}\n{time: 4/4}\n{capo: 2}\n"));
    assert!(text.contains("{duration: 3:05}\n{meta: energy 3}\n"));
    assert!(!text.contains("{new_song}"));
    assert!(text.contains("[F]Olha que coisa"));
}

#[test]
fn several_songs_are_separated() {
    let text = render_songs(&[exported(), exported()]);
    assert_eq!(text.matches("{new_song}").count(), 1);
    assert_eq!(setlyst::export::chordpro::format_duration(4_500), "75:00");
    assert_eq!(chordpro_filename("Garota de Ipanema"), "song-garota-de-ipanema.cho");
}

#[test]
fn exports_are_joined_by_the_separator() {
    let two = [exported(), exported()];
    let three = [exported(), exported(), exported()];
    assert_eq!(render_songs(&[]), "");
    assert_eq!(render_songs(&[exported()]), render_song(&exported()));
    assert_eq!(
        render_songs(&three),
        format!("{}\n{{new_song}}\n\n{}", render_songs(&two), render_song(&exported()))
    );
    assert_eq!(render_songs(&three).lines().filter(|l| *l == "{new_song}").count(), 2);
}

#[test]
fn directive_values_stay_on_one_line() {
    assert_eq!(directive_value("a}\n{b:  c"), "a b: c");
    assert!(!embeddable_lyrics("x\n{ns}\ny").contains("{ns}"));
}

fn song(title: &str, lyrics: Option<&str>) -> SongWithArtist {
    let now = NaiveDateTime::parse("2026-01-01T00:00:00").unwrap();
    SongWithArtist {
        id: Uuid::new_v4(),
        title: title.to_string(),
        artist_id: Uuid::new_v4(),
        artist_name: "Artista Ção".to_string(),
        user_id: Uuid::new_v4(),
        band_id: None,
        forked_from: None,
        tempo: Some(120),
        lyrics: lyrics.map(str::to_string),
        tonality: Some(Tonality::FSharpM),
        genre: None,
        duration: Some(215),
        energy: Some(4),
        time_signature: Some("6/8".to_string()),
        capo: Some(2),
        tuning: Some("Drop D".to_string()),
        performance_notes: Some("Entrada suave\nSolo no final".to_string()),
        links: Links::default(),
        tags: vec!["balada".to_string()],
        updated_by: None,
        updated_by_username: None,
        source_synced_at: None,
        created_at: now,
        updated_at: now,
    }
}

fn sized(lyrics: usize) -> SetlistItem {
    let mut song = song("t", None);
    song.performance_notes = None;
    song.lyrics = Some("x".repeat(lyrics));
    SetlistItem::Song { position: 1, song }
}

#[test]
fn oversized_pdfs_are_refused_up_front() {
    let items: Vec<SetlistItem> = (0..MAX_PDF_ITEMS).map(|_| sized(10)).collect();
    assert!(ensure_pdf_fits(&items, true).is_ok());

    let too_many: Vec<SetlistItem> = (0..=MAX_PDF_ITEMS).map(|_| sized(0)).collect();
    let err = ensure_pdf_fits(&too_many, false).unwrap_err();
    assert_eq!(err.code(), codes::PDF_TOO_LARGE);

    let heavy: Vec<SetlistItem> = (0..6).map(|_| sized(50_000)).collect();
    assert_eq!(
        ensure_pdf_fits(&heavy, true).unwrap_err().code(),
        codes::PDF_TOO_LARGE
    );
    // Without the songbook the lyrics don't matter.
    assert!(ensure_pdf_fits(&heavy, false).is_ok());
}

fn lettered(n: usize) -> SetlistItem {
    let lyrics = "é".repeat(n);
    let mut item = sized(0);
    if let SetlistItem::Song { song, .. } = &mut item {
        song.lyrics = Some(lyrics);
        song.performance_notes = None;
    }
    item
}

#[test]
fn songbooks_are_measured_in_characters() {
    assert!(ensure_pdf_fits(&[lettered(200_000)], true).is_ok());
    assert!(ensure_pdf_fits(&[lettered(250_000)], true).is_ok());
    assert_eq!(
        ensure_pdf_fits(&[lettered(250_001)], true).unwrap_err().code(),
        codes::PDF_TOO_LARGE
    );
    assert!(ensure_pdf_fits(&[lettered(250_000), lettered(1)], true).is_err());
}

#[test]
fn busy_renderers_say_when_to_retry() {
    let now = NaiveDateTime::parse("2026-01-01T00:00:00").unwrap();
    let answer = service_busy().into_response(&now);
    assert_eq!(answer.status, 503);
    assert_eq!(answer.code, codes::SERVICE_BUSY);
    assert_eq!(answer.retry_after, Some(10));
}

#[test]
fn options_are_clamped() {
    let options = PdfExportOptions::from(ExportQuery {
        columns: 7,
        font_scale: 10,
        ..ExportQuery::default()
    });
    assert_eq!(options.columns, 2);
    assert_eq!(options.font_scale, 60);
    let defaults = PdfExportOptions::default();
    assert!(defaults.show_title && defaults.show_blocks && defaults.watermark);
    assert!(!defaults.include_lyrics);
}

#[test]
fn subtitles_are_trimmed_and_cut() {
    let options = PdfExportOptions::from(ExportQuery {
        subtitle: Some(format!("  {}  ", "a".repeat(130))),
        font_scale: 5_000,
        columns: 0,
        ..ExportQuery::default()
    });
    assert_eq!(options.subtitle.map(|s| s.len()), Some(120));
    assert_eq!(options.font_scale, 200);
    assert_eq!(options.columns, 1);
    let blank = PdfExportOptions::from(ExportQuery {
        subtitle: Some("   ".to_string()),
        ..ExportQuery::default()
    });
    assert_eq!(blank.subtitle, None);
}

#[test]
fn chord_detection() {
    for chord in [
        "G", "F#m7", "Bbmaj7", "Asus4", "D/F#", "C7(9)", "Em", "N.C.", "Cadd9", "G7/B", "A°",
    ] {
        assert!(is_chord(chord), "{chord} should be a chord");
    }
    for word in ["And", "Come", "Hello", "Amor", "Da", "Be", "Go", "H7", ""] {
        assert!(!is_chord(word), "{word} should not be a chord");
    }
}

#[test]
fn chord_lines_hold_only_chords() {
    assert!(is_chord_only_line("G  D  Em  C"));
    assert!(is_chord_only_line("| G | C |"));
    assert!(!is_chord_only_line("G is for Go"));
    assert!(!is_chord_only_line(""));
}

#[test]
fn inline_chords_are_split_into_segments() {
    assert_eq!(
        parse_inline_chords("[G]Olá [C]mundo"),
        vec![
            (Some("G".to_string()), "Olá ".to_string()),
            (Some("C".to_string()), "mundo".to_string())
        ]
    );
    assert_eq!(
        parse_inline_chords("Sem acordes [x2]"),
        vec![(None, "Sem acordes [x2]".to_string())]
    );
}

#[test]
fn chords_above_lyrics_are_merged_by_column() {
    let merged = merge_chord_line("G       D", "Hello my friend");
    assert_eq!(
        merged,
        vec![
            (Some("G".to_string()), "Hello my".to_string()),
            (Some("D".to_string()), " friend".to_string())
        ]
    );
    assert_eq!(strip_chords(&merged), vec![(None, "Hello my friend".to_string())]);
    assert_eq!(inline_chords(&merged), vec![(None, "[G]Hello my[D] friend".to_string())]);
}

#[test]
fn lyrics_modes() {
    let raw = "{soc}\n[Refrão]\nG     C\nLá lá lá\n{eoc}";
    let hidden = parse_lyrics(raw, ChordMode::Hide, PdfLocale::PtBr);
    assert_eq!(
        hidden,
        vec![
            LyricLine::Heading("Refrão".to_string()),
            LyricLine::Heading("Refrão".to_string()),
            LyricLine::Segments(vec![(None, "Lá lá lá".to_string())]),
        ]
    );
    let inline = parse_lyrics("[G]Lá", ChordMode::Inline, PdfLocale::En);
    assert_eq!(
        inline,
        vec![LyricLine::Segments(vec![(None, "[G]Lá".to_string())])]
    );
}

#[test]
fn headings_and_comments_are_printed_in_every_mode() {
    let raw = "{soc}\n[Verso]\nG     C\n[G]Lá lá\n{c: 2x}\n{eoc}\nfim\n";
    let titles = |mode: ChordMode| {
        let mut lines = parse_lyrics(raw, mode, PdfLocale::En);
        lines.retain(|l| matches!(l, LyricLine::Heading(_) | LyricLine::Comment(_)));
        lines
    };
    let expected = vec![
        LyricLine::Heading("Chorus".to_string()),
        LyricLine::Heading("Verso".to_string()),
        LyricLine::Comment("2x".to_string()),
    ];
    assert_eq!(titles(ChordMode::Above), expected);
    assert_eq!(titles(ChordMode::Inline), expected);
    assert_eq!(titles(ChordMode::Hide), expected);
}

#[test]
fn stanzas_are_split_at_blank_lines() {
    let lines = parse_lyrics("a\nb\n\nc", ChordMode::Above, PdfLocale::En);
    let parts = stanzas(lines);
    assert_eq!(parts.len(), 2);
    assert_eq!(parts[1], vec![LyricLine::Segments(vec![(None, "c".to_string())])]);
}

#[test]
fn filenames_are_safe_and_utf8_aware() {
    assert_eq!(pdf_filename("Show de Sábado!"), "setlist-show-de-sábado.pdf");
    assert_eq!(pdf_filename("///"), "setlist.pdf");
    assert_eq!(slug_filename("song", "Ação!", "cho"), "song-ação.cho");
    let header = content_disposition("setlist-canções.pdf");
    assert!(header.contains("filename=\"setlist-can__es.pdf\""));
    assert!(header.contains("filename*=UTF-8''setlist-can%C3%A7%C3%B5es.pdf"));
    assert!(header.is_ascii());
}

#[test]
fn advanced_options_are_classified() {
    let basic = PdfExportOptions::from(ExportQuery {
        compact: true,
        font_scale: 150,
        paper: PaperFormat::Letter,
        orientation: Orientation::Landscape,
        show_artist: true,
        chords: ChordMode::Inline,
        ..ExportQuery::default()
    });
    assert!(!basic.is_advanced());
    for query in [
        ExportQuery { columns: 2, ..ExportQuery::default() },
        ExportQuery { include_lyrics: true, ..ExportQuery::default() },
        ExportQuery { watermark: false, ..ExportQuery::default() },
        ExportQuery { margins: MarginSize::Narrow, ..ExportQuery::default() },
    ] {
        let options = PdfExportOptions::from(query);
        assert!(options.is_advanced(), "{options:?}");
        assert!(!options.to_basic().is_advanced());
    }
    assert!(!SongPdfOptions::default().is_advanced());
    let song_advanced =
        SongPdfOptions::from(SongExportQuery { columns: 2, ..SongExportQuery::default() });
    assert!(song_advanced.is_advanced());
}

#[test]
fn durations() {
    assert_eq!(format_duration(215), "3:35");
    assert_eq!(format_duration(5_400), "1h 30m");
    assert_eq!(format_duration(-5), "0:00");
}

#[test]
fn keys_are_printed_with_their_accidentals() {
    assert_eq!(format_tonality(&Tonality::FSharpM), "F#m");
    assert_eq!(format_tonality(&Tonality::Bb), "Bb");
}

fn words(parts: &[Part]) -> String {
    let mut all = String::new();
    for part in parts {
        let blocks: Vec<&Block> = match part {
            Part::One(b) => vec![b],
            Part::Columns(rows) => rows
                .iter()
                .flat_map(|r| r.left.iter().chain(r.right.iter().flatten()))
                .collect(),
        };
        for block in blocks {
            match block {
                Block::Paragraph { spans, .. } => {
                    for span in spans {
                        all.push_str(&span.text);
                    }
                }
                Block::Lyric { segments, .. } => {
                    for (_, text) in segments {
                        all.push_str(text);
                    }
                }
                _ => {}
            }
            all.push('\n');
        }
    }
    all
}

#[test]
fn setlists_are_planned_before_they_are_drawn() {
    let items = vec![
        SetlistItem::Block { position: 1, id: Uuid(1), name: "Abertura".to_string() },
        SetlistItem::Song { position: 2, song: song("Canção", Some("[G]Olá")) },
        SetlistItem::Break { position: 3, id: Uuid(2), label: None, duration_minutes: Some(15) },
    ];
    let data = SetlistPdfData {
        title: "Show de Sábado",
        description: None,
        band_name: Some("Os Testes"),
        total_duration_secs: 5_400,
        items: &items,
    };
    let today = NaiveDate::parse("2026-10-01").unwrap();
    let plain = words(&plan_setlist(&data, &PdfExportOptions::default(), &today));
    assert!(plain.contains("Show de Sábado"));
    assert!(plain.contains("Canção"));
    assert!(!plain.contains("Olá"));
    let book = PdfExportOptions::from(ExportQuery {
        include_lyrics: true,
        columns: 2,
        show_date: true,
        ..ExportQuery::default()
    });
    let full = words(&plan_setlist(&data, &book, &today));
    assert!(full.contains("Olá"));
    assert!(full.contains("2026"));
}

#[test]
fn songs_are_planned_before_they_are_drawn() {
    let sheet = words(&plan_song(&song("Canção", Some("[G]Olá")), &SongPdfOptions::default()));
    assert!(sheet.contains("Canção"));
    assert!(sheet.contains("Artista Ção"));
    assert!(sheet.contains("Olá"));
    let setup = PageSetup::for_song(&song("Canção", None), &SongPdfOptions::default());
    assert!(setup.page_text(1).contains('1'));
}

#[test]
fn chords_above_a_line_never_overlap() {
    let line = vec![
        (Some("Cmaj7".to_string()), "a".to_string()),
        (Some("G".to_string()), "b".to_string()),
    ];
    let widths = vec![Widths { chord: 50, text: 10 }, Widths { chord: 10, text: 10 }];
    let placed = lay_out(&line, &widths, 5);
    assert_eq!(placed.starts.len(), 2);
    assert!(placed.starts[1] >= placed.starts[0] + 55);
    assert_eq!(rows_needed(&line), (true, true));
    assert_eq!(wrapped_text(&line), "[Cmaj7]a[G]b");
}
