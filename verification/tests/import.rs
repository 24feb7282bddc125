use setlyst::export::chordpro::render_song;
use setlyst::import::chordpro::{
    clean_value, parse, parse_directive, sanitize, ChordProError, ParsedChordPro, MAX_ARTIST_CHARS,
    MAX_CONTENT_BYTES, MAX_LINES, MAX_LINE_CHARS, MAX_TITLE_CHARS, MAX_WARNINGS,
};
use setlyst::import::values::{parse_capo, parse_duration, parse_key, parse_tempo};
use setlyst::models::song::SongExport;
use setlyst::models::tonality::Tonality;

fn codes(parsed: &ParsedChordPro) -> Vec<&'static str> {
    parsed.warnings.iter().map(|w| w.code).collect()
}

#[test]
fn parses_a_complete_song() {
    let parsed = parse(
        "{title: Garota de Ipanema}\n{artist: Tom Jobim}\n{key: F}\n{tempo: 128}\n{time: 4/4}\n{capo: 2}\n{duration: 3:05}\n\n{start_of_verse: Verso 1}\n[F]Olha que coisa mais [G7]linda\n{end_of_verse}\n{c: x2}\n",
        None,
    )
    .unwrap();
    assert_eq!(parsed.title, "Garota de Ipanema");
    assert_eq!(parsed.artist_name.as_deref(), Some("Tom Jobim"));
    assert_eq!(parsed.tonality, Some(Tonality::F));
    assert_eq!(parsed.tempo, Some(128));
    assert_eq!(parsed.time_signature.as_deref(), Some("4/4"));
    assert_eq!(parsed.capo, Some(2));
    assert_eq!(parsed.duration, Some(185));
    assert_eq!(
        parsed.lyrics.as_deref(),
        Some(
            "{start_of_verse: Verso 1}\n[F]Olha que coisa mais [G7]linda\n{end_of_verse}\n{c: x2}"
        )
    );
    assert!(parsed.warnings.is_empty(), "{:?}", parsed.warnings);
}

#[test]
fn imported_lyrics_start_and_end_with_text() {
    let parsed = parse("{t: X}\n\n \n\nfirst\n\n\n\n\nlast \n\n \n", None).unwrap();
    assert_eq!(parsed.lyrics.as_deref(), Some("first\n\n\nlast"));
}

#[test]
fn short_directive_names_and_overrides() {
    let parsed = parse(
        "{t:Old}\n{st: Artist From Subtitle}\nLa la",
        Some("  New  "),
    )
    .unwrap();
    assert_eq!(parsed.title, "New");
    assert_eq!(parsed.artist_name.as_deref(), Some("Artist From Subtitle"));
    let parsed = parse("{t:Old}\nLa", Some("   ")).unwrap();
    assert_eq!(parsed.title, "Old");
}

#[test]
fn refuses_what_it_cannot_import() {
    assert_eq!(
        parse(&"a".repeat(MAX_CONTENT_BYTES + 1), None),
        Err(ChordProError::TooLarge)
    );
    assert_eq!(
        parse("{title: X}\nfine\n\0evil", None),
        Err(ChordProError::Invalid {
            reason: "nul_character",
            line: Some(3)
        })
    );
    let long = format!("{{title: X}}\n{}", "a".repeat(MAX_LINE_CHARS + 1));
    assert_eq!(
        parse(&long, None),
        Err(ChordProError::Invalid {
            reason: "line_too_long",
            line: Some(2)
        })
    );
    let many = format!("{{title: X}}\n{}", "a\n".repeat(MAX_LINES));
    assert!(matches!(
        parse(&many, None),
        Err(ChordProError::Invalid {
            reason: "too_many_lines",
            ..
        })
    ));
    assert_eq!(
        parse("{title: A}\nx\n{new_song}\n{title: B}", None),
        Err(ChordProError::Invalid {
            reason: "multiple_songs",
            line: Some(3)
        })
    );
    assert_eq!(
        parse("{title: A}\nx\n{title: B}", None),
        Err(ChordProError::Invalid {
            reason: "multiple_songs",
            line: Some(3)
        })
    );
    assert_eq!(
        parse("[G]no title here", None),
        Err(ChordProError::Invalid {
            reason: "missing_title",
            line: None
        })
    );
    assert!(parse("{title:   }", None).is_err());
}

#[test]
fn drops_unknown_directives_and_bad_chords() {
    let parsed = parse(
        "{title: X}\n{image: src=http://evil/x.png}\n{define: G base-fret 1 frets 3 2 0 0 0 3}\n{x_custom: 1}\n{meta: foo}\n{album: Y}\n{title-guitar: Z}\n[G]ok [Hello]world [C\n] stray",
        None,
    )
    .unwrap();
    let codes = codes(&parsed);
    assert_eq!(
        codes.iter().filter(|c| **c == "directive_dropped").count(),
        5
    );
    assert!(codes.contains(&"album_dropped"));
    assert!(codes.contains(&"invalid_chord"));
    assert!(codes.contains(&"unbalanced_bracket"));
    let lyrics = parsed.lyrics.unwrap();
    assert!(lyrics.starts_with("[G]ok world C"), "{lyrics}");
    assert!(!lyrics.contains("image"));
    assert!(!lyrics.contains("Hello"));
}

#[test]
fn invalid_metadata_becomes_warnings() {
    let parsed = parse(
        "{title: X}\n{key: H}\n{tempo: fast}\n{tempo: 999}\n{time: 11/8}\n{capo: 12}\n{duration: 9:99}\n{duration: 99999}",
        None,
    )
    .unwrap();
    assert_eq!(parsed.tonality, None);
    assert_eq!(parsed.tempo, None);
    assert_eq!(parsed.time_signature, None);
    assert_eq!(parsed.capo, None);
    assert_eq!(parsed.duration, None);
    let codes = codes(&parsed);
    for code in [
        "invalid_key",
        "invalid_tempo",
        "invalid_time",
        "invalid_capo",
        "invalid_duration",
    ] {
        assert!(codes.contains(&code), "{code}");
    }
}

#[test]
fn keys_are_normalized() {
    for (raw, key) in [
        ("Am", Tonality::Am),
        ("A minor", Tonality::Am),
        ("A min", Tonality::Am),
        ("a-", Tonality::Am),
        ("F♯m", Tonality::FSharpM),
        ("B♭", Tonality::Bb),
        ("bb", Tonality::Bb),
        ("C major", Tonality::C),
        ("Ebm", Tonality::Ebm),
    ] {
        assert_eq!(parse_key(raw), Some(key), "{raw}");
    }
    for raw in ["H", "", "Amaj7", "X#", "C##"] {
        assert_eq!(parse_key(raw), None, "{raw}");
    }
    assert_eq!(parse_tempo("120 BPM"), Some(120));
    assert_eq!(parse_duration("185"), Some(185));
    assert_eq!(parse_duration("120:00"), Some(7_200));
    assert_eq!(parse_duration("120:01"), None);
    assert_eq!(parse_duration("-5"), None);
    assert_eq!(parse_capo("0"), Some(0));
}

#[test]
fn normalizes_text_and_strips_invisible_characters() {
    let content = "\u{FEFF}{title: Cafe\u{0301}}\r\n{artist: A\u{202E}B\u{200B}C}\rLine\twith tab\u{0007}\r\n\u{2066}hidden\u{2069}";
    let parsed = parse(content, None).unwrap();
    assert_eq!(parsed.title, "Café");
    assert_eq!(parsed.title.chars().count(), 4);
    assert_eq!(parsed.artist_name.as_deref(), Some("ABC"));
    assert_eq!(parsed.lyrics.as_deref(), Some("Line    with tab\nhidden"));
}

#[test]
fn markup_stays_inert_text() {
    let parsed = parse(
        "{title: <script>alert(1)</script>}\n<img src=x onerror=alert(1)>\n{c: <b>bold</b>}\n{comment: {nested}}",
        None,
    )
    .unwrap();
    assert_eq!(parsed.title, "<script>alert(1)</script>");
    let lyrics = parsed.lyrics.unwrap();
    assert!(lyrics.contains("<img src=x onerror=alert(1)>"));
    assert!(lyrics.contains("{c: <b>bold</b>}"));
    assert!(lyrics.contains("{comment: nested}"));
}

#[test]
fn braces_in_lyrics_are_removed_and_lengths_are_capped() {
    let parsed = parse(
        &format!(
            "{{title: {}}}\n{{artist: {}}}\nhello {{world\n{{unclosed: x",
            "t".repeat(300),
            "a".repeat(300)
        ),
        None,
    );
    // A 300-character directive line is still within the line limit.
    let parsed = parsed.unwrap();
    assert_eq!(parsed.title.chars().count(), MAX_TITLE_CHARS);
    assert_eq!(
        parsed.artist_name.as_deref().map(|a| a.chars().count()),
        Some(MAX_ARTIST_CHARS)
    );
    let codes = codes(&parsed);
    assert!(codes.contains(&"title_truncated"));
    assert!(codes.contains(&"artist_truncated"));
    assert!(codes.contains(&"braces_removed"));
    assert_eq!(parsed.lyrics.as_deref(), Some("hello world\nunclosed: x"));
}

#[test]
fn warnings_are_bounded() {
    let content = format!("{{title: X}}\n{}", "[nope] \n".repeat(500));
    let parsed = parse(&content, None).unwrap();
    assert_eq!(parsed.warnings.len(), MAX_WARNINGS + 1);
    assert_eq!(parsed.warnings.last().unwrap().code, "too_many_warnings");
}

#[test]
fn empty_bodies_have_no_lyrics() {
    let parsed = parse("{title: X}\n\n\n", None).unwrap();
    assert_eq!(parsed.lyrics, None);
    let parsed = parse("{title: X}\n\n\na\n\n\n\n\nb\n\n", None).unwrap();
    assert_eq!(parsed.lyrics.as_deref(), Some("a\n\n\nb"));
}

#[test]
fn imported_text_is_visible_and_well_spaced() {
    assert_eq!(sanitize("a\r\nb\rc\u{200B}"), Ok("a\nb\nc".to_string()));
    assert_eq!(clean_value("  a {b}\tc  "), "a b c");
    assert_eq!(
        parse_directive("{ Title : x }"),
        Some(("title".to_string(), "x".to_string()))
    );
    assert_eq!(parse_directive("plain"), None);
}

#[test]
fn tempo_and_capo_are_bounded() {
    assert_eq!(parse_tempo("500"), Some(500));
    assert_eq!(parse_tempo("0"), None);
    assert_eq!(parse_capo("11"), Some(11));
    assert_eq!(parse_capo("12"), None);
    assert_eq!(parse_duration("3:05"), Some(185));
    assert_eq!(parse_duration("3:60"), None);
}

#[test]
fn exported_songs_come_back() {
    for (artist, tempo, capo, duration) in [
        (Some("Tom Jobim"), Some(128), Some(0), Some(185)),
        (None, None, None, None),
        (Some("A: [b]"), Some(500), Some(11), Some(7_200)),
        (None, Some(1), None, Some(1)),
    ] {
        let song = SongExport {
            title: "Garota de Ipanema: a song".to_string(),
            artist_name: artist.map(str::to_string),
            tonality: None,
            tempo,
            lyrics: None,
            time_signature: None,
            capo,
            duration,
            energy: None,
        };
        let parsed = parse(&render_song(&song), None).unwrap();
        assert_eq!(parsed.title, song.title);
        assert_eq!(parsed.artist_name, song.artist_name);
        assert_eq!(parsed.tempo, song.tempo);
        assert_eq!(parsed.capo, song.capo);
        assert_eq!(parsed.duration, song.duration);
        assert_eq!(parsed.lyrics.as_deref(), Some("# No lyrics provided."));
        assert!(parsed.warnings.is_empty());
    }
}
