//! What an export shows, and how: the options of setlist and song sheets.

use crate::models::page::clamped;
use crate::text::{cut, cut_to, opt_text, trim, trimmed};
use vstd::prelude::*;
use vstd::std_specs::convert::FromSpecImpl;

verus! {

/// How chords inside lyrics are printed.
#[derive(Debug, Clone, Copy, PartialEq, Eq, Structural)]
pub enum ChordMode {
    /// Lyrics only.
    Hide,
    /// Chords inline, in brackets: `[G]Hello`.
    Inline,
    /// Chords aligned above the syllable they fall on.
    Above,
}

#[derive(Debug, Clone, Copy, PartialEq, Eq, Structural)]
pub enum PaperFormat {
    A4,
    Letter,
    Legal,
}

#[derive(Debug, Clone, Copy, PartialEq, Eq, Structural)]
pub enum Orientation {
    Portrait,
    Landscape,
}

#[derive(Debug, Clone, Copy, PartialEq, Eq, Structural)]
pub enum MarginSize {
    Narrow,
    Normal,
    Wide,
}

#[derive(Debug, Clone, Copy, PartialEq, Eq, Structural)]
pub enum PdfLocale {
    En,
    PtBr,
    Es,
}

impl Default for ChordMode {
    fn default() -> (r: Self)
        ensures
            r == ChordMode::Above,
    {
        ChordMode::Above
    }
}

impl Default for PaperFormat {
    fn default() -> (r: Self)
        ensures
            r == PaperFormat::A4,
    {
        PaperFormat::A4
    }
}

impl Default for Orientation {
    fn default() -> (r: Self)
        ensures
            r == Orientation::Portrait,
    {
        Orientation::Portrait
    }
}

impl Default for MarginSize {
    fn default() -> (r: Self)
        ensures
            r == MarginSize::Normal,
    {
        MarginSize::Normal
    }
}

impl Default for PdfLocale {
    fn default() -> (r: Self)
        ensures
            r == PdfLocale::En,
    {
        PdfLocale::En
    }
}

/// The margin on every side of a page, in millimetres.
pub open spec fn margin_mm(m: MarginSize) -> int {
    match m {
        MarginSize::Narrow => 8,
        MarginSize::Normal => 15,
        MarginSize::Wide => 22,
    }
}

impl MarginSize {
    /// The margin on every side of a page, in millimetres.
    pub fn mm(self) -> (r: u8)
        ensures
            r == margin_mm(self),
    {
        match self {
            MarginSize::Narrow => 8,
            MarginSize::Normal => 15,
            MarginSize::Wide => 22,
        }
    }
}

/// The fixed words of a sheet.
#[derive(Debug, Clone, Copy)]
pub struct PdfLabels {
    pub estimated_duration: &'static str,
    pub not_calculated: &'static str,
    pub key: &'static str,
    pub break_label: &'static str,
    pub page: &'static str,
    pub generated_with: &'static str,
    pub songs: &'static str,
    pub lyrics: &'static str,
    pub no_lyrics: &'static str,
    pub exported_on: &'static str,
    pub chorus: &'static str,
    pub verse: &'static str,
    pub bridge: &'static str,
    pub date_format: &'static str,
    pub capo: &'static str,
    pub tuning: &'static str,
    pub time_signature: &'static str,
    pub notes: &'static str,
}

/// The words of each language.
pub open spec fn labels_of(locale: PdfLocale) -> PdfLabels {
    match locale {
        PdfLocale::PtBr => PdfLabels {
            estimated_duration: "Duração estimada",
            not_calculated: "Não calculada",
            key: "Tom",
            break_label: "Pausa",
            page: "Página",
            generated_with: "Gerado com Setlyst",
            songs: "músicas",
            lyrics: "Letras e cifras",
            no_lyrics: "Sem letra cadastrada.",
            exported_on: "Exportado em",
            chorus: "Refrão",
            verse: "Verso",
            bridge: "Ponte",
            date_format: "%d/%m/%Y",
            capo: "Capotraste",
            tuning: "Afinação",
            time_signature: "Compasso",
            notes: "Observações",
        },
        PdfLocale::En => PdfLabels {
            estimated_duration: "Estimated duration",
            not_calculated: "Not calculated",
            key: "Key",
            break_label: "Break",
            page: "Page",
            generated_with: "Made with Setlyst",
            songs: "songs",
            lyrics: "Lyrics & chords",
            no_lyrics: "No lyrics yet.",
            exported_on: "Exported on",
            chorus: "Chorus",
            verse: "Verse",
            bridge: "Bridge",
            date_format: "%Y-%m-%d",
            capo: "Capo",
            tuning: "Tuning",
            time_signature: "Time",
            notes: "Performance notes",
        },
        PdfLocale::Es => PdfLabels {
            estimated_duration: "Duración estimada",
            not_calculated: "No calculada",
            key: "Tono",
            break_label: "Pausa",
            page: "Página",
            generated_with: "Hecho con Setlyst",
            songs: "canciones",
            lyrics: "Letras y acordes",
            no_lyrics: "Sin letra registrada.",
            exported_on: "Exportado el",
            chorus: "Estribillo",
            verse: "Verso",
            bridge: "Puente",
            date_format: "%d/%m/%Y",
            capo: "Cejilla",
            tuning: "Afinación",
            time_signature: "Compás",
            notes: "Notas",
        },
    }
}

impl PdfLocale {
    pub fn labels(&self) -> (r: PdfLabels)
        ensures
            r == labels_of(*self),
    {
        match self {
            PdfLocale::PtBr => PdfLabels {
                estimated_duration: "Duração estimada",
                not_calculated: "Não calculada",
                key: "Tom",
                break_label: "Pausa",
                page: "Página",
                generated_with: "Gerado com Setlyst",
                songs: "músicas",
                lyrics: "Letras e cifras",
                no_lyrics: "Sem letra cadastrada.",
                exported_on: "Exportado em",
                chorus: "Refrão",
                verse: "Verso",
                bridge: "Ponte",
                date_format: "%d/%m/%Y",
                capo: "Capotraste",
                tuning: "Afinação",
                time_signature: "Compasso",
                notes: "Observações",
            },
            PdfLocale::En => PdfLabels {
                estimated_duration: "Estimated duration",
                not_calculated: "Not calculated",
                key: "Key",
                break_label: "Break",
                page: "Page",
                generated_with: "Made with Setlyst",
                songs: "songs",
                lyrics: "Lyrics & chords",
                no_lyrics: "No lyrics yet.",
                exported_on: "Exported on",
                chorus: "Chorus",
                verse: "Verse",
                bridge: "Bridge",
                date_format: "%Y-%m-%d",
                capo: "Capo",
                tuning: "Tuning",
                time_signature: "Time",
                notes: "Performance notes",
            },
            PdfLocale::Es => PdfLabels {
                estimated_duration: "Duración estimada",
                not_calculated: "No calculada",
                key: "Tono",
                break_label: "Pausa",
                page: "Página",
                generated_with: "Hecho con Setlyst",
                songs: "canciones",
                lyrics: "Letras y acordes",
                no_lyrics: "Sin letra registrada.",
                exported_on: "Exportado el",
                chorus: "Estribillo",
                verse: "Verso",
                bridge: "Puente",
                date_format: "%d/%m/%Y",
                capo: "Cejilla",
                tuning: "Afinación",
                time_signature: "Compás",
                notes: "Notas",
            },
        }
    }
}

// ---------------------------------------------------------------------
// Setlists
// ---------------------------------------------------------------------

/// The longest line under a title, in characters.
pub const MAX_SUBTITLE_LENGTH: usize = 120;

/// What may be asked of a setlist export. The defaults give a clean,
/// single-column stage sheet.
#[derive(Debug)]
pub struct ExportQuery {
    /// Print the setlist title as a heading.
    pub show_title: bool,
    /// Optional line under the title (event, venue, date...). Max 120 chars.
    pub subtitle: Option<String>,
    /// Print the setlist description under the title.
    pub show_description: bool,
    /// Print the band name (band setlists only).
    pub show_band_name: bool,
    /// Print the export date in the header.
    pub show_date: bool,
    pub show_total_duration: bool,
    /// Number the songs (1., 2., ...).
    pub show_numbers: bool,
    pub show_artist: bool,
    pub show_key: bool,
    pub show_bpm: bool,
    /// Each song's own duration.
    pub show_song_duration: bool,
    pub show_tags: bool,
    pub show_blocks: bool,
    pub show_breaks: bool,
    /// Append a songbook with every song's lyrics after the running order.
    pub include_lyrics: bool,
    /// How chords are printed in the songbook.
    pub chords: ChordMode,
    /// Start every song of the songbook on a new page.
    pub page_break_per_song: bool,
    /// Tighter spacing, one line per song.
    pub compact: bool,
    /// 1 or 2 columns for the running order.
    pub columns: u8,
    /// Text size, in percent of the default (60–200).
    pub font_scale: u16,
    pub uppercase_titles: bool,
    /// Faint Setlyst watermark and footer credit.
    pub watermark: bool,
    pub page_numbers: bool,
    pub paper: PaperFormat,
    pub orientation: Orientation,
    pub margins: MarginSize,
    pub lang: PdfLocale,
}

/// Normalized, clamped export options.
#[derive(Debug, Clone)]
pub struct PdfExportOptions {
    pub show_title: bool,
    pub subtitle: Option<String>,
    pub show_description: bool,
    pub show_band_name: bool,
    pub show_date: bool,
    pub show_total_duration: bool,
    pub show_numbers: bool,
    pub show_artist: bool,
    pub show_key: bool,
    pub show_bpm: bool,
    pub show_song_duration: bool,
    pub show_tags: bool,
    pub show_blocks: bool,
    pub show_breaks: bool,
    pub include_lyrics: bool,
    pub chords: ChordMode,
    pub page_break_per_song: bool,
    pub compact: bool,
    pub columns: u8,
    pub font_scale: u16,
    pub uppercase_titles: bool,
    pub watermark: bool,
    pub page_numbers: bool,
    pub paper: PaperFormat,
    pub orientation: Orientation,
    pub margins: MarginSize,
    pub locale: PdfLocale,
}

/// A subtitle, trimmed and cut; none when nothing is left.
pub open spec fn subtitle_of(s: Option<Seq<char>>) -> Option<Seq<char>> {
    match s {
        Some(t) => if trim(t).len() == 0 {
            None
        } else {
            Some(cut(trim(t), MAX_SUBTITLE_LENGTH as int))
        },
        None => None,
    }
}

fn subtitle(s: Option<String>) -> (r: Option<String>)
    ensures
        opt_text(r) == subtitle_of(opt_text(s)),
{
    match s {
        Some(t) => {
            let u = trimmed(t.as_str());
            if u.as_str().is_empty() {
                None
            } else {
                Some(cut_to(u.as_str(), MAX_SUBTITLE_LENGTH))
            }
        },
        None => None,
    }
}

fn one_or_two(n: u8) -> (r: u8)
    ensures
        r == clamped(n as int, 1, 2),
{
    if n < 1 {
        1
    } else if n > 2 {
        2
    } else {
        n
    }
}

fn text_size(n: u16) -> (r: u16)
    ensures
        r == clamped(n as int, 60, 200),
{
    if n < 60 {
        60
    } else if n > 200 {
        200
    } else {
        n
    }
}

/// `o` are the options that `q` asks for: the subtitle cut, one or two
/// columns, a text size from 60 to 200 percent, everything else as asked.
pub open spec fn asked_by(o: PdfExportOptions, q: ExportQuery) -> bool {
    &&& o.show_title == q.show_title
    &&& opt_text(o.subtitle) == subtitle_of(opt_text(q.subtitle))
    &&& o.show_description == q.show_description
    &&& o.show_band_name == q.show_band_name
    &&& o.show_date == q.show_date
    &&& o.show_total_duration == q.show_total_duration
    &&& o.show_numbers == q.show_numbers
    &&& o.show_artist == q.show_artist
    &&& o.show_key == q.show_key
    &&& o.show_bpm == q.show_bpm
    &&& o.show_song_duration == q.show_song_duration
    &&& o.show_tags == q.show_tags
    &&& o.show_blocks == q.show_blocks
    &&& o.show_breaks == q.show_breaks
    &&& o.include_lyrics == q.include_lyrics
    &&& o.chords == q.chords
    &&& o.page_break_per_song == q.page_break_per_song
    &&& o.compact == q.compact
    &&& o.columns == clamped(q.columns as int, 1, 2)
    &&& o.font_scale == clamped(q.font_scale as int, 60, 200)
    &&& o.uppercase_titles == q.uppercase_titles
    &&& o.watermark == q.watermark
    &&& o.page_numbers == q.page_numbers
    &&& o.paper == q.paper
    &&& o.orientation == q.orientation
    &&& o.margins == q.margins
    &&& o.locale == q.lang
}

impl From<ExportQuery> for PdfExportOptions {
    fn from(query: ExportQuery) -> (r: Self)
        ensures
            asked_by(r, query),
    {
        PdfExportOptions {
            show_title: query.show_title,
            subtitle: subtitle(query.subtitle),
            show_description: query.show_description,
            show_band_name: query.show_band_name,
            show_date: query.show_date,
            show_total_duration: query.show_total_duration,
            show_numbers: query.show_numbers,
            show_artist: query.show_artist,
            show_key: query.show_key,
            show_bpm: query.show_bpm,
            show_song_duration: query.show_song_duration,
            show_tags: query.show_tags,
            show_blocks: query.show_blocks,
            show_breaks: query.show_breaks,
            include_lyrics: query.include_lyrics,
            chords: query.chords,
            page_break_per_song: query.page_break_per_song,
            compact: query.compact,
            columns: one_or_two(query.columns),
            font_scale: text_size(query.font_scale),
            uppercase_titles: query.uppercase_titles,
            watermark: query.watermark,
            page_numbers: query.page_numbers,
            paper: query.paper,
            orientation: query.orientation,
            margins: query.margins,
            locale: query.lang,
        }
    }
}

impl FromSpecImpl<ExportQuery> for PdfExportOptions {
    /// Texts are told apart by more than what they say, so the result is
    /// stated by `asked_by` alone.
    open spec fn obeys_from_spec() -> bool {
        false
    }

    open spec fn from_spec(query: ExportQuery) -> Self {
        arbitrary()
    }
}

/// Nothing asked: the title, numbers, blocks and breaks, one column, the
/// watermark and page numbers.
pub open spec fn plain_query(q: ExportQuery) -> bool {
    &&& q.show_title
    &&& q.subtitle is None
    &&& !q.show_description
    &&& !q.show_band_name
    &&& !q.show_date
    &&& !q.show_total_duration
    &&& q.show_numbers
    &&& !q.show_artist
    &&& !q.show_key
    &&& !q.show_bpm
    &&& !q.show_song_duration
    &&& !q.show_tags
    &&& q.show_blocks
    &&& q.show_breaks
    &&& !q.include_lyrics
    &&& q.chords == ChordMode::Above
    &&& !q.page_break_per_song
    &&& !q.compact
    &&& q.columns == 1
    &&& q.font_scale == 100
    &&& !q.uppercase_titles
    &&& q.watermark
    &&& q.page_numbers
    &&& q.paper == PaperFormat::A4
    &&& q.orientation == Orientation::Portrait
    &&& q.margins == MarginSize::Normal
    &&& q.lang == PdfLocale::En
}

impl Default for ExportQuery {
    fn default() -> (r: Self)
        ensures
            plain_query(r),
    {
        ExportQuery {
            show_title: true,
            subtitle: None,
            show_description: false,
            show_band_name: false,
            show_date: false,
            show_total_duration: false,
            show_numbers: true,
            show_artist: false,
            show_key: false,
            show_bpm: false,
            show_song_duration: false,
            show_tags: false,
            show_blocks: true,
            show_breaks: true,
            include_lyrics: false,
            chords: ChordMode::Above,
            page_break_per_song: false,
            compact: false,
            columns: 1,
            font_scale: 100,
            uppercase_titles: false,
            watermark: true,
            page_numbers: true,
            paper: PaperFormat::A4,
            orientation: Orientation::Portrait,
            margins: MarginSize::Normal,
            lang: PdfLocale::En,
        }
    }
}

impl Default for PdfExportOptions {
    fn default() -> (r: Self)
        ensures
            exists|q: ExportQuery| plain_query(q) && #[trigger] asked_by(r, q),
    {
        let q = ExportQuery::default();
        PdfExportOptions::from(q)
    }
}

impl PdfExportOptions {
    /// What `is_advanced` answers.
    pub open spec fn advanced(self) -> bool {
        self.columns == 2 || self.include_lyrics || !self.watermark || self.margins
            != MarginSize::Normal
    }

    /// Options that need the `advanced_pdf` plan feature: two columns, the
    /// songbook (`include_lyrics`), no watermark, or non-default margins.
    /// Everything else (what to show, compact layout, text size, paper,
    /// orientation, chord mode, language, page numbers) is basic.
    pub fn is_advanced(&self) -> (r: bool)
        ensures
            r == self.advanced(),
    {
        self.columns == 2 || self.include_lyrics || !self.watermark || self.margins
            != MarginSize::Normal
    }

    /// The same options with every advanced one reset to its default.
    pub fn to_basic(self) -> (r: Self)
        ensures
            !r.advanced(),
            r.show_title == self.show_title,
            opt_text(r.subtitle) == opt_text(self.subtitle),
            r.show_description == self.show_description,
            r.show_band_name == self.show_band_name,
            r.show_date == self.show_date,
            r.show_total_duration == self.show_total_duration,
            r.show_numbers == self.show_numbers,
            r.show_artist == self.show_artist,
            r.show_key == self.show_key,
            r.show_bpm == self.show_bpm,
            r.show_song_duration == self.show_song_duration,
            r.show_tags == self.show_tags,
            r.show_blocks == self.show_blocks,
            r.show_breaks == self.show_breaks,
            !r.include_lyrics,
            r.chords == self.chords,
            !r.page_break_per_song,
            r.compact == self.compact,
            r.columns == 1,
            r.font_scale == self.font_scale,
            r.uppercase_titles == self.uppercase_titles,
            r.watermark,
            r.page_numbers == self.page_numbers,
            r.paper == self.paper,
            r.orientation == self.orientation,
            r.margins == MarginSize::Normal,
            r.locale == self.locale,
    {
        PdfExportOptions {
            show_title: self.show_title,
            subtitle: self.subtitle,
            show_description: self.show_description,
            show_band_name: self.show_band_name,
            show_date: self.show_date,
            show_total_duration: self.show_total_duration,
            show_numbers: self.show_numbers,
            show_artist: self.show_artist,
            show_key: self.show_key,
            show_bpm: self.show_bpm,
            show_song_duration: self.show_song_duration,
            show_tags: self.show_tags,
            show_blocks: self.show_blocks,
            show_breaks: self.show_breaks,
            include_lyrics: false,
            chords: self.chords,
            page_break_per_song: false,
            compact: self.compact,
            columns: 1,
            font_scale: self.font_scale,
            uppercase_titles: self.uppercase_titles,
            watermark: true,
            page_numbers: self.page_numbers,
            paper: self.paper,
            orientation: self.orientation,
            margins: MarginSize::Normal,
            locale: self.locale,
        }
    }

    /// The options a public share link may use: never the songbook, nor
    /// anything that only shapes it. Whoever holds the link gets the
    /// running order, never the lyrics (they may be someone's copyrighted
    /// or unpublished work).
    pub fn for_public_share(self) -> (r: Self)
        ensures
            r.show_title == self.show_title,
            opt_text(r.subtitle) == opt_text(self.subtitle),
            r.show_description == self.show_description,
            r.show_band_name == self.show_band_name,
            r.show_date == self.show_date,
            r.show_total_duration == self.show_total_duration,
            r.show_numbers == self.show_numbers,
            r.show_artist == self.show_artist,
            r.show_key == self.show_key,
            r.show_bpm == self.show_bpm,
            r.show_song_duration == self.show_song_duration,
            r.show_tags == self.show_tags,
            r.show_blocks == self.show_blocks,
            r.show_breaks == self.show_breaks,
            !r.include_lyrics,
            r.chords == ChordMode::Hide,
            !r.page_break_per_song,
            r.compact == self.compact,
            r.columns == self.columns,
            r.font_scale == self.font_scale,
            r.uppercase_titles == self.uppercase_titles,
            r.watermark == self.watermark,
            r.page_numbers == self.page_numbers,
            r.paper == self.paper,
            r.orientation == self.orientation,
            r.margins == self.margins,
            r.locale == self.locale,
    {
        PdfExportOptions {
            show_title: self.show_title,
            subtitle: self.subtitle,
            show_description: self.show_description,
            show_band_name: self.show_band_name,
            show_date: self.show_date,
            show_total_duration: self.show_total_duration,
            show_numbers: self.show_numbers,
            show_artist: self.show_artist,
            show_key: self.show_key,
            show_bpm: self.show_bpm,
            show_song_duration: self.show_song_duration,
            show_tags: self.show_tags,
            show_blocks: self.show_blocks,
            show_breaks: self.show_breaks,
            include_lyrics: false,
            chords: ChordMode::Hide,
            page_break_per_song: false,
            compact: self.compact,
            columns: self.columns,
            font_scale: self.font_scale,
            uppercase_titles: self.uppercase_titles,
            watermark: self.watermark,
            page_numbers: self.page_numbers,
            paper: self.paper,
            orientation: self.orientation,
            margins: self.margins,
            locale: self.locale,
        }
    }
}

/// Options are clamped, whatever is asked for.
pub proof fn options_are_clamped(o: PdfExportOptions, q: ExportQuery)
    requires
        asked_by(o, q),
    ensures
        1 <= o.columns <= 2,
        60 <= o.font_scale <= 200,
        opt_text(o.subtitle) matches Some(s) ==> 1 <= s.len() <= MAX_SUBTITLE_LENGTH,
{
}

// ---------------------------------------------------------------------
// Songs
// ---------------------------------------------------------------------

/// What may be asked of a song sheet. The defaults give a one-column sheet
/// with chords above the lyrics and every piece of metadata shown.
#[derive(Debug, Clone, Copy)]
pub struct SongExportQuery {
    pub show_artist: bool,
    pub show_key: bool,
    pub show_capo: bool,
    pub show_bpm: bool,
    pub show_time_signature: bool,
    pub show_tuning: bool,
    /// Print the performance notes under the header.
    pub show_notes: bool,
    /// How chords are printed (`chords` is accepted as an alias).
    pub chord_mode: ChordMode,
    /// 1 or 2 columns for the lyrics.
    pub columns: u8,
    /// Text size, in percent of the default (60–200).
    pub font_scale: u16,
    pub uppercase_titles: bool,
    /// Faint Setlyst watermark and footer credit.
    pub watermark: bool,
    pub page_numbers: bool,
    pub paper: PaperFormat,
    pub orientation: Orientation,
    pub margins: MarginSize,
    pub lang: PdfLocale,
}

/// Normalized, clamped song-sheet options.
#[derive(Debug, Clone, Copy)]
pub struct SongPdfOptions {
    pub show_artist: bool,
    pub show_key: bool,
    pub show_capo: bool,
    pub show_bpm: bool,
    pub show_time_signature: bool,
    pub show_tuning: bool,
    pub show_notes: bool,
    pub chords: ChordMode,
    pub columns: u8,
    pub font_scale: u16,
    pub uppercase_titles: bool,
    pub watermark: bool,
    pub page_numbers: bool,
    pub paper: PaperFormat,
    pub orientation: Orientation,
    pub margins: MarginSize,
    pub locale: PdfLocale,
}

/// The options that `q` asks for.
pub open spec fn song_options(q: SongExportQuery) -> SongPdfOptions {
    SongPdfOptions {
        show_artist: q.show_artist,
        show_key: q.show_key,
        show_capo: q.show_capo,
        show_bpm: q.show_bpm,
        show_time_signature: q.show_time_signature,
        show_tuning: q.show_tuning,
        show_notes: q.show_notes,
        chords: q.chord_mode,
        columns: clamped(q.columns as int, 1, 2) as u8,
        font_scale: clamped(q.font_scale as int, 60, 200) as u16,
        uppercase_titles: q.uppercase_titles,
        watermark: q.watermark,
        page_numbers: q.page_numbers,
        paper: q.paper,
        orientation: q.orientation,
        margins: q.margins,
        locale: q.lang,
    }
}

impl From<SongExportQuery> for SongPdfOptions {
    fn from(query: SongExportQuery) -> (r: Self) {
        SongPdfOptions {
            show_artist: query.show_artist,
            show_key: query.show_key,
            show_capo: query.show_capo,
            show_bpm: query.show_bpm,
            show_time_signature: query.show_time_signature,
            show_tuning: query.show_tuning,
            show_notes: query.show_notes,
            chords: query.chord_mode,
            columns: one_or_two(query.columns),
            font_scale: text_size(query.font_scale),
            uppercase_titles: query.uppercase_titles,
            watermark: query.watermark,
            page_numbers: query.page_numbers,
            paper: query.paper,
            orientation: query.orientation,
            margins: query.margins,
            locale: query.lang,
        }
    }
}

impl FromSpecImpl<SongExportQuery> for SongPdfOptions {
    open spec fn obeys_from_spec() -> bool {
        true
    }

    open spec fn from_spec(query: SongExportQuery) -> Self {
        song_options(query)
    }
}

/// Nothing asked: everything shown but the notes.
pub open spec fn plain_song_query() -> SongExportQuery {
    SongExportQuery {
        show_artist: true,
        show_key: true,
        show_capo: true,
        show_bpm: true,
        show_time_signature: true,
        show_tuning: true,
        show_notes: false,
        chord_mode: ChordMode::Above,
        columns: 1,
        font_scale: 100,
        uppercase_titles: false,
        watermark: true,
        page_numbers: true,
        paper: PaperFormat::A4,
        orientation: Orientation::Portrait,
        margins: MarginSize::Normal,
        lang: PdfLocale::En,
    }
}

impl Default for SongExportQuery {
    fn default() -> (r: Self)
        ensures
            r == plain_song_query(),
    {
        SongExportQuery {
            show_artist: true,
            show_key: true,
            show_capo: true,
            show_bpm: true,
            show_time_signature: true,
            show_tuning: true,
            show_notes: false,
            chord_mode: ChordMode::Above,
            columns: 1,
            font_scale: 100,
            uppercase_titles: false,
            watermark: true,
            page_numbers: true,
            paper: PaperFormat::A4,
            orientation: Orientation::Portrait,
            margins: MarginSize::Normal,
            lang: PdfLocale::En,
        }
    }
}

impl Default for SongPdfOptions {
    fn default() -> (r: Self)
        ensures
            r == song_options(plain_song_query()),
    {
        SongPdfOptions::from(SongExportQuery::default())
    }
}

impl SongPdfOptions {
    /// What `is_advanced` answers.
    pub open spec fn advanced(self) -> bool {
        self.columns == 2 || !self.watermark || self.margins != MarginSize::Normal
    }

    /// Options that need the `advanced_pdf` plan feature: two columns, no
    /// watermark, or non-default margins (see
    /// [`PdfExportOptions::is_advanced`]).
    pub fn is_advanced(&self) -> (r: bool)
        ensures
            r == self.advanced(),
    {
        self.columns == 2 || !self.watermark || self.margins != MarginSize::Normal
    }
}

} // verus!
