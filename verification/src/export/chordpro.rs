//! ChordPro export (`.cho`), one song or a whole library.

use crate::models::song::SongExport;
use crate::text::{
    ascii_lower, char_is_control, chars, cut, cut_to, decimal, decimal_of, index_of, is_control,
    is_lower, is_space, join, joined, lemma_index_of, lemma_join_both, lemma_lines,
    lemma_split_both, lemma_split_join, lemma_squeeze_holds, lemma_texts_push, lemma_trim_solid,
    lines, lines_of, lowered, number, number_of, opt_text, piece, same, slice_of, split, squeeze,
    squeezed, start_trimmed_of, texts, trim, trim_start, trim_start_char, trimmed, two_digits,
    two_digits_of,
};
use vstd::prelude::*;

verus! {

/// Longest directive value written.
pub const MAX_DIRECTIVE_VALUE: usize = 255;

/// What stands for a character in a directive value.
pub open spec fn value_char(c: char) -> char {
    if is_control(c) || c == '{' || c == '}' {
        ' '
    } else {
        c
    }
}

pub open spec fn value_chars(s: Seq<char>) -> Seq<char> {
    Seq::new(s.len(), |i: int| value_char(s[i]))
}

/// A value as it is written in a directive.
pub open spec fn written_value(value: Seq<char>) -> Seq<char> {
    cut(squeeze(value_chars(value)), MAX_DIRECTIVE_VALUE as int)
}

/// A directive value that can't break out of its `{name: value}` braces
/// or span lines.
pub fn directive_value(value: &str) -> (r: String)
    ensures
        r@ == written_value(value@),
{
    let v = chars(value);
    let mut t = String::new();
    let mut i: usize = 0;
    while i < v.len()
        invariant
            i <= v@.len(),
            t@ =~= value_chars(v@).take(i as int),
        decreases v@.len() - i,
    {
        let c = v[i];
        t.push(
            if char_is_control(c) || c == '{' || c == '}' {
                ' '
            } else {
                c
            },
        );
        i = i + 1;
    }
    assert(t@ =~= value_chars(value@));
    let s = squeezed(t.as_str());
    cut_to(s.as_str(), MAX_DIRECTIVE_VALUE)
}

/// A duration as minutes and seconds; a negative one counts as none.
pub open spec fn minutes_and_seconds(seconds: int) -> Seq<char> {
    let s = if seconds < 0 {
        0
    } else {
        seconds
    };
    decimal((s / 60) as nat) + ":"@ + two_digits((s % 60) as nat)
}

/// `m:ss` (hours roll into minutes: `75:00`).
pub fn format_duration(seconds: i32) -> (r: String)
    ensures
        r@ == minutes_and_seconds(seconds as int),
{
    let s: u64 = if seconds < 0 {
        0
    } else {
        seconds as u64
    };
    let mut r = decimal_of(s / 60);
    r.append(":");
    r.append(two_digits_of(s % 60).as_str());
    r
}

// ---------------------------------------------------------------------
// Lyrics
// ---------------------------------------------------------------------

/// Where a directive name ends: at the first `:` or `}`.
pub open spec fn name_end(s: Seq<char>, i: int) -> int
    decreases s.len() - i,
{
    if i < 0 || i >= s.len() || s[i] == ':' || s[i] == '}' {
        i
    } else {
        name_end(s, i + 1)
    }
}

/// The name of the directive that a line may be.
pub open spec fn named(line: Seq<char>) -> Seq<char> {
    let inner = trim_start_char(trim(line), '{');
    ascii_lower(trim(inner.take(name_end(inner, 0))))
}

/// A line that starts a new song.
pub open spec fn starts_song(line: Seq<char>) -> bool {
    let t = trim(line);
    t.len() > 0 && t[0] == '{' && (named(line) == "new_song"@ || named(line) == "ns"@)
}

/// The lines that start no song.
pub open spec fn within_song(v: Seq<Seq<char>>) -> Seq<Seq<char>>
    decreases v.len(),
{
    if v.len() == 0 {
        seq![]
    } else if starts_song(v.last()) {
        within_song(v.drop_last())
    } else {
        within_song(v.drop_last()).push(v.last())
    }
}

/// The lyrics without the lines that start a song.
pub open spec fn embedded(lyrics: Seq<char>) -> Seq<char> {
    join(within_song(lines(lyrics)), "\n"@)
}

fn song_start(line: &str) -> (r: bool)
    ensures
        r == starts_song(line@),
{
    let t = trimmed(line);
    let v = chars(t.as_str());
    if v.len() == 0 || v[0] != '{' {
        return false;
    }
    let inner = start_trimmed_of(t.as_str(), '{');
    let w = chars(inner.as_str());
    let n = w.len();
    let mut i: usize = 0;
    while i < n && w[i] != ':' && w[i] != '}'
        invariant
            w@ == inner@,
            n == w@.len(),
            i <= n,
            name_end(inner@, 0) == name_end(inner@, i as int),
        decreases n - i,
    {
        i = i + 1;
    }
    let name = piece(&w, 0, i);
    assert(name@ =~= inner@.take(i as int));
    let name = trimmed(name.as_str());
    let name = lowered(name.as_str());
    same(name.as_str(), "new_song") || same(name.as_str(), "ns")
}

/// Lyrics safe to embed in a multi-song file: a stored chart can't start a
/// new song of its own.
pub fn embeddable_lyrics(lyrics: &str) -> (r: String)
    ensures
        r@ == embedded(lyrics@),
{
    let all = lines_of(lyrics);
    let ghost seen = texts(all@);
    let mut kept: Vec<String> = Vec::new();
    let mut i: usize = 0;
    assert(seen.take(0) =~= seq![]);
    assert(texts(kept@) =~= seq![]);
    while i < all.len()
        invariant
            seen == texts(all@),
            i <= all@.len(),
            texts(kept@) == within_song(seen.take(i as int)),
        decreases all@.len() - i,
    {
        assert(seen.take(i + 1).drop_last() =~= seen.take(i as int));
        assert(seen.take(i + 1).last() == all@[i as int]@);
        if !song_start(all[i].as_str()) {
            let l = all[i].clone();
            proof {
                lemma_texts_push(kept@, l);
            }
            kept.push(l);
        }
        i = i + 1;
    }
    assert(seen.take(i as int) =~= seen);
    joined(&kept, "\n")
}

// ---------------------------------------------------------------------
// Songs
// ---------------------------------------------------------------------

/// `out` with a directive, unless nothing is left of its value.
pub open spec fn with_directive(out: Seq<char>, name: Seq<char>, value: Seq<char>) -> Seq<char> {
    let v = written_value(value);
    if v.len() == 0 {
        out
    } else {
        out + "{"@ + name + ": "@ + v + "}\n"@
    }
}

/// `out` with a directive, where there is a value.
pub open spec fn with_some(out: Seq<char>, name: Seq<char>, value: Option<Seq<char>>) -> Seq<char> {
    match value {
        Some(v) => with_directive(out, name, v),
        None => out,
    }
}

/// The metadata of a song.
pub open spec fn metadata(song: SongExport) -> Seq<char> {
    let out = with_directive(seq![], "title"@, song.title@);
    let out = with_some(out, "artist"@, opt_text(song.artist_name));
    let out = with_some(out, "key"@, opt_text(song.tonality));
    let out = with_some(
        out,
        "tempo"@,
        match song.tempo {
            Some(n) => Some(number(n as int)),
            None => None,
        },
    );
    let out = with_some(out, "time"@, opt_text(song.time_signature));
    let out = with_some(
        out,
        "capo"@,
        match song.capo {
            Some(n) => Some(number(n as int)),
            None => None,
        },
    );
    let out = with_some(
        out,
        "duration"@,
        match song.duration {
            Some(n) => Some(minutes_and_seconds(n as int)),
            None => None,
        },
    );
    with_some(
        out,
        "meta"@,
        match song.energy {
            Some(n) => Some("energy "@ + number(n as int)),
            None => None,
        },
    )
}

/// The lyrics of a song, or a note that there are none.
pub open spec fn lyrics_part(lyrics: Option<Seq<char>>) -> Seq<char> {
    match lyrics {
        Some(l) => if trim(l).len() > 0 {
            embedded(l)
        } else {
            "# No lyrics provided."@
        },
        None => "# No lyrics provided."@,
    }
}

/// A song as ChordPro.
pub open spec fn song_text(song: SongExport) -> Seq<char> {
    metadata(song) + "\n"@ + lyrics_part(opt_text(song.lyrics)) + "\n"@
}

pub open spec fn song_texts(v: Seq<SongExport>) -> Seq<Seq<char>> {
    Seq::new(v.len(), |i: int| song_text(v[i]))
}

/// Several songs as one file.
pub open spec fn songs_text(v: Seq<SongExport>) -> Seq<char> {
    join(song_texts(v), "\n{new_song}\n\n"@)
}

fn push_directive(out: &mut String, name: &str, value: &str)
    ensures
        final(out)@ == with_directive(old(out)@, name@, value@),
{
    let v = directive_value(value);
    if !v.as_str().is_empty() {
        out.append("{");
        out.append(name);
        out.append(": ");
        out.append(v.as_str());
        out.append("}\n");
    }
}

/// One song as ChordPro: metadata directives, a blank line, the lyrics.
pub fn render_song(song: &SongExport) -> (r: String)
    ensures
        r@ == song_text(*song),
{
    let mut out = String::new();
    assert(out@ =~= seq![]);
    push_directive(&mut out, "title", song.title.as_str());
    if let Some(artist) = &song.artist_name {
        push_directive(&mut out, "artist", artist.as_str());
    }
    if let Some(key) = &song.tonality {
        push_directive(&mut out, "key", key.as_str());
    }
    if let Some(tempo) = song.tempo {
        push_directive(&mut out, "tempo", number_of(tempo as i64).as_str());
    }
    if let Some(time) = &song.time_signature {
        push_directive(&mut out, "time", time.as_str());
    }
    if let Some(capo) = song.capo {
        push_directive(&mut out, "capo", number_of(capo as i64).as_str());
    }
    if let Some(duration) = song.duration {
        push_directive(&mut out, "duration", format_duration(duration).as_str());
    }
    if let Some(energy) = song.energy {
        let mut value = "energy ".to_string();
        value.append(number_of(energy as i64).as_str());
        push_directive(&mut out, "meta", value.as_str());
    }
    assert(out@ == metadata(*song));
    out.append("\n");
    let lyrics = match slice_of(&song.lyrics) {
        Some(l) => {
            let t = trimmed(l);
            if !t.as_str().is_empty() {
                embeddable_lyrics(l)
            } else {
                "# No lyrics provided.".to_string()
            }
        },
        None => "# No lyrics provided.".to_string(),
    };
    out.append(lyrics.as_str());
    out.append("\n");
    out
}

/// Several songs in one file, separated by `{new_song}`.
pub fn render_songs(songs: &[SongExport]) -> (r: String)
    ensures
        r@ == songs_text(songs@),
{
    let mut all: Vec<String> = Vec::new();
    let mut i: usize = 0;
    while i < songs.len()
        invariant
            i <= songs@.len(),
            texts(all@) =~= song_texts(songs@).take(i as int),
        decreases songs@.len() - i,
    {
        let t = render_song(&songs[i]);
        proof {
            lemma_texts_push(all@, t);
        }
        all.push(t);
        assert(texts(all@) =~= song_texts(songs@).take(i + 1));
        i = i + 1;
    }
    assert(texts(all@) =~= song_texts(songs@));
    joined(&all, "\n{new_song}\n\n")
}

// ---------------------------------------------------------------------
// Laws
// ---------------------------------------------------------------------

/// A character that can stand in a directive value.
pub open spec fn is_value_char(c: char) -> bool {
    !is_control(c) && c != '{' && c != '}'
}

/// Whatever a song says, its directive values hold no brace, no line end and
/// no other control character, and are bounded.
pub proof fn directive_values_stay_inside_their_braces(value: Seq<char>)
    ensures
        written_value(value).len() <= MAX_DIRECTIVE_VALUE,
        forall|i: int|
            0 <= i < written_value(value).len() ==> is_value_char(
                #[trigger] written_value(value)[i],
            ),
{
    let fine = |c: char| is_value_char(c);
    let v = value_chars(value);
    assert forall|i: int| 0 <= i < v.len() implies fine(#[trigger] v[i]) by {}
    lemma_squeeze_holds(v, fine);
    let s = squeeze(v);
    assert forall|i: int| 0 <= i < written_value(value).len() implies is_value_char(
        #[trigger] written_value(value)[i],
    ) by {
        assert(written_value(value)[i] == s[i]);
        assert(fine(s[i]));
    }
}

proof fn lemma_within_song(v: Seq<Seq<char>>)
    requires
        forall|i: int| 0 <= i < v.len() ==> !(#[trigger] v[i]).contains('\n'),
    ensures
        forall|i: int|
            0 <= i < within_song(v).len() ==> !starts_song(#[trigger] within_song(v)[i])
                && !within_song(v)[i].contains('\n'),
    decreases v.len(),
{
    if v.len() > 0 {
        lemma_within_song(v.drop_last());
        let before = within_song(v.drop_last());
        assert(!v[v.len() - 1].contains('\n'));
        assert forall|i: int| 0 <= i < within_song(v).len() implies !starts_song(
            #[trigger] within_song(v)[i],
        ) && !within_song(v)[i].contains('\n') by {
            if i < before.len() {
                assert(within_song(v)[i] == before[i]);
            }
        }
    }
}

/// A stored chart can't start a new song of its own: no line of the embedded
/// lyrics does.
pub proof fn embedded_lyrics_start_no_song(lyrics: Seq<char>)
    ensures
        forall|i: int|
            0 <= i < split(embedded(lyrics), '\n').len() ==> !starts_song(
                #[trigger] split(embedded(lyrics), '\n')[i],
            ),
{
    reveal_strlit("\n");
    assert("\n"@ =~= seq!['\n']);
    lemma_lines(lyrics);
    let v = within_song(lines(lyrics));
    lemma_within_song(lines(lyrics));
    if v.len() > 0 {
        lemma_split_join(v, '\n');
    } else {
        let e = embedded(lyrics);
        assert(e =~= seq![]);
        assert(split(e, '\n') =~= seq![e]);
        assert(trim(e).len() == 0);
    }
}

/// No line starts a song.
spec fn start_no_song(v: Seq<Seq<char>>) -> bool {
    forall|i: int| 0 <= i < v.len() ==> !starts_song(#[trigger] v[i])
}

proof fn lemma_one_line(line: Seq<char>)
    requires
        !line.contains('\n'),
    ensures
        split(line, '\n') == seq![line],
{
    lemma_index_of(line, '\n');
    let i = index_of(line, '\n');
    if i < line.len() {
        assert(line[i] == '\n');
    }
    assert(split(line, '\n') =~= seq![line]);
}

proof fn lemma_empty_line()
    ensures
        split(seq![], '\n') == seq![Seq::<char>::empty()],
        !starts_song(seq![]),
{
    let none: Seq<char> = seq![];
    lemma_one_line(none);
    assert(trim(none).len() == 0);
}

proof fn lemma_name_end(s: Seq<char>, i: int, n: int)
    requires
        0 <= i <= n < s.len(),
        s[n] == ':' || s[n] == '}',
        forall|k: int| i <= k < n ==> #[trigger] s[k] != ':' && s[k] != '}',
    ensures
        name_end(s, i) == n,
    decreases n - i,
{
    if i < n {
        lemma_name_end(s, i + 1, n);
    }
}

/// A name of lower-case letters that starts no song.
spec fn is_quiet_name(name: Seq<char>) -> bool {
    &&& name.len() > 2
    &&& forall|i: int| 0 <= i < name.len() ==> is_lower(#[trigger] name[i])
}

proof fn lemma_quiet_line(name: Seq<char>, value: Seq<char>)
    requires
        is_quiet_name(name),
    ensures
        !starts_song("{"@ + name + ": "@ + value + "}"@),
{
    reveal_strlit("{");
    reveal_strlit(": ");
    reveal_strlit("}");
    reveal_strlit("new_song");
    reveal_strlit("ns");
    let line = "{"@ + name + ": "@ + value + "}"@;
    assert(line[0] == '{');
    assert(line.last() == '}');
    assert(trim_start(line) == line);
    assert(trim(line) == line);
    let inner = name + ": "@ + value + "}"@;
    assert(line.skip(1) =~= inner);
    assert(inner[0] == name[0]);
    assert(is_lower(name[0]));
    assert(trim_start_char(inner, '{') == inner);
    assert(trim_start_char(line, '{') == inner);
    let n = name.len() as int;
    assert(inner[n] == ':');
    assert forall|k: int| 0 <= k < n implies #[trigger] inner[k] != ':' && inner[k] != '}' by {
        assert(inner[k] == name[k]);
        assert(is_lower(name[k]));
    }
    lemma_name_end(inner, 0, n);
    assert(inner.take(n) =~= name);
    assert forall|k: int| 0 <= k < n implies !is_space(#[trigger] name[k]) by {
        assert(is_lower(name[k]));
    }
    lemma_trim_solid(name);
    assert(ascii_lower(name) =~= name) by {
        assert forall|k: int| 0 <= k < n implies ascii_lower(name)[k] == name[k] by {
            assert(is_lower(name[k]));
        }
    }
    if name == "new_song"@ {
        assert(is_lower(name[3]));
    }
}

/// `out` ends with a line end, and no line of it starts a song.
spec fn is_quiet(out: Seq<char>) -> bool {
    &&& out.len() == 0 || out.last() == '\n'
    &&& start_no_song(split(out, '\n'))
}

proof fn lemma_quiet_directive(out: Seq<char>, name: Seq<char>, value: Seq<char>)
    requires
        is_quiet(out),
        is_quiet_name(name),
    ensures
        is_quiet(with_directive(out, name, value)),
{
    let v = written_value(value);
    if v.len() > 0 {
        reveal_strlit("{");
        reveal_strlit(": ");
        reveal_strlit("}");
        reveal_strlit("}\n");
        let none: Seq<char> = seq![];
        let l = "{"@ + name + ": "@ + v + "}"@;
        let n = name.len() as int;
        directive_values_stay_inside_their_braces(value);
        assert(!l.contains('\n')) by {
            if l.contains('\n') {
                let j = choose|j: int| 0 <= j < l.len() && l[j] == '\n';
                if 1 <= j < 1 + n {
                    assert(l[j] == name[j - 1]);
                    assert(is_lower(name[j - 1]));
                } else if 3 + n <= j < 3 + n + v.len() {
                    assert(l[j] == v[j - 3 - n]);
                    assert(is_value_char(v[j - 3 - n]));
                }
            }
        }
        lemma_quiet_line(name, v);
        lemma_one_line(l);
        lemma_empty_line();
        lemma_split_both(l, none, '\n');
        let ended = l + seq!['\n'];
        assert(ended + none =~= ended);
        assert(split(ended, '\n') =~= seq![l, none]);
        let whole = with_directive(out, name, value);
        assert("}\n"@ =~= "}"@ + seq!['\n']);
        assert(whole =~= out + ended);
        if out.len() == 0 {
            assert(whole =~= ended);
        } else {
            let o = out.drop_last();
            assert(out =~= o + seq!['\n'] + none);
            lemma_split_both(o, none, '\n');
            assert(whole =~= o + seq!['\n'] + ended);
            lemma_split_both(o, ended, '\n');
            let a = split(o, '\n');
            assert(split(out, '\n') =~= a.push(none));
            assert forall|i: int| 0 <= i < split(whole, '\n').len() implies !starts_song(
                #[trigger] split(whole, '\n')[i],
            ) by {
                if i < a.len() {
                    assert(split(out, '\n')[i] == a[i]);
                }
            }
        }
    }
}

proof fn lemma_names_are_quiet()
    ensures
        is_quiet_name("title"@),
        is_quiet_name("artist"@),
        is_quiet_name("key"@),
        is_quiet_name("tempo"@),
        is_quiet_name("time"@),
        is_quiet_name("capo"@),
        is_quiet_name("duration"@),
        is_quiet_name("meta"@),
{
    reveal_strlit("title");
    reveal_strlit("artist");
    reveal_strlit("key");
    reveal_strlit("tempo");
    reveal_strlit("time");
    reveal_strlit("capo");
    reveal_strlit("duration");
    reveal_strlit("meta");
}

proof fn lemma_quiet_some(out: Seq<char>, name: Seq<char>, value: Option<Seq<char>>)
    requires
        is_quiet(out),
        is_quiet_name(name),
    ensures
        is_quiet(with_some(out, name, value)),
{
    if let Some(v) = value {
        lemma_quiet_directive(out, name, v);
    }
}

proof fn lemma_quiet_metadata(song: SongExport)
    ensures
        is_quiet(metadata(song)),
{
    lemma_names_are_quiet();
    lemma_empty_line();
    let tempo = match song.tempo {
        Some(n) => Some(number(n as int)),
        None => None,
    };
    let capo = match song.capo {
        Some(n) => Some(number(n as int)),
        None => None,
    };
    let duration = match song.duration {
        Some(n) => Some(minutes_and_seconds(n as int)),
        None => None,
    };
    let energy = match song.energy {
        Some(n) => Some("energy "@ + number(n as int)),
        None => None,
    };
    let out: Seq<char> = seq![];
    lemma_quiet_directive(out, "title"@, song.title@);
    let out = with_directive(out, "title"@, song.title@);
    lemma_quiet_some(out, "artist"@, opt_text(song.artist_name));
    let out = with_some(out, "artist"@, opt_text(song.artist_name));
    lemma_quiet_some(out, "key"@, opt_text(song.tonality));
    let out = with_some(out, "key"@, opt_text(song.tonality));
    lemma_quiet_some(out, "tempo"@, tempo);
    let out = with_some(out, "tempo"@, tempo);
    lemma_quiet_some(out, "time"@, opt_text(song.time_signature));
    let out = with_some(out, "time"@, opt_text(song.time_signature));
    lemma_quiet_some(out, "capo"@, capo);
    let out = with_some(out, "capo"@, capo);
    lemma_quiet_some(out, "duration"@, duration);
    let out = with_some(out, "duration"@, duration);
    lemma_quiet_some(out, "meta"@, energy);
}

/// No line of an exported song starts another song.
pub proof fn songs_start_no_other_song(song: SongExport)
    ensures
        forall|i: int|
            0 <= i < split(song_text(song), '\n').len() ==> !starts_song(
                #[trigger] split(song_text(song), '\n')[i],
            ),
{
    reveal_strlit("\n");
    reveal_strlit("# No lyrics provided.");
    assert("\n"@ =~= seq!['\n']);
    let none: Seq<char> = seq![];
    let m = metadata(song);
    let l = lyrics_part(opt_text(song.lyrics));
    lemma_quiet_metadata(song);
    lemma_empty_line();
    let note = "# No lyrics provided."@;
    lemma_one_line(note);
    assert(trim_start(note) == note);
    assert(!starts_song(note));
    if let Some(t) = opt_text(song.lyrics) {
        embedded_lyrics_start_no_song(t);
    }
    assert(start_no_song(split(l, '\n')));
    let ended = l + seq!['\n'] + none;
    lemma_split_both(l, none, '\n');
    lemma_split_both(m, ended, '\n');
    assert(song_text(song) =~= m + seq!['\n'] + ended);
}

/// How many of the lines are as asked for.
pub open spec fn count_lines(v: Seq<Seq<char>>, wanted: spec_fn(Seq<char>) -> bool) -> nat
    decreases v.len(),
{
    if v.len() == 0 {
        0
    } else {
        count_lines(v.drop_last(), wanted) + if wanted(v.last()) {
            1nat
        } else {
            0nat
        }
    }
}

proof fn lemma_count_both(a: Seq<Seq<char>>, b: Seq<Seq<char>>, wanted: spec_fn(Seq<char>) -> bool)
    ensures
        count_lines(a + b, wanted) == count_lines(a, wanted) + count_lines(b, wanted),
    decreases b.len(),
{
    if b.len() == 0 {
        assert(a + b =~= a);
    } else {
        lemma_count_both(a, b.drop_last(), wanted);
        assert((a + b).drop_last() =~= a + b.drop_last());
    }
}

proof fn lemma_count_none(v: Seq<Seq<char>>, wanted: spec_fn(Seq<char>) -> bool)
    requires
        start_no_song(v),
        forall|l: Seq<char>| #[trigger] wanted(l) ==> starts_song(l),
    ensures
        count_lines(v, wanted) == 0,
    decreases v.len(),
{
    if v.len() > 0 {
        assert(!starts_song(v[v.len() - 1]));
        assert forall|i: int| 0 <= i < v.drop_last().len() implies !starts_song(
            #[trigger] v.drop_last()[i],
        ) by {
            assert(v.drop_last()[i] == v[i]);
        }
        lemma_count_none(v.drop_last(), wanted);
    }
}

/// Two lists of songs exported together are the two exports with the separator
/// between them; a song alone is exported as it is, and no song as nothing.
pub proof fn songs_are_separated(a: Seq<SongExport>, b: Seq<SongExport>, song: SongExport)
    ensures
        a.len() > 0 && b.len() > 0 ==> songs_text(a + b) == songs_text(a) + "\n{new_song}\n\n"@
            + songs_text(b),
        songs_text(seq![song]) == song_text(song),
        songs_text(seq![]) == Seq::<char>::empty(),
{
    if a.len() > 0 && b.len() > 0 {
        assert(song_texts(a + b) =~= song_texts(a) + song_texts(b));
        lemma_join_both(song_texts(a), song_texts(b), "\n{new_song}\n\n"@);
    }
    assert(song_texts(seq![song]) =~= seq![song_text(song)]);
    assert(song_texts(seq![]) =~= seq![]);
}

proof fn lemma_separator()
    ensures
        starts_song("{new_song}"@),
        split("{new_song}"@, '\n') == seq!["{new_song}"@],
{
    reveal_strlit("{new_song}");
    reveal_strlit("new_song");
    let line = "{new_song}"@;
    assert(line[0] == '{');
    assert(line.last() == '}');
    assert(trim_start(line) == line);
    assert(trim(line) == line);
    let inner = line.skip(1);
    assert(inner[0] == 'n');
    assert(trim_start_char(inner, '{') == inner);
    assert(trim_start_char(line, '{') == inner);
    lemma_name_end(inner, 0, 8);
    let name = inner.take(8);
    assert(name =~= "new_song"@);
    lemma_trim_solid(name);
    assert(ascii_lower(name) =~= name);
    assert(!line.contains('\n'));
    lemma_one_line(line);
}

proof fn lemma_starts(v: Seq<SongExport>, wanted: spec_fn(Seq<char>) -> bool)
    requires
        v.len() > 0,
        forall|l: Seq<char>| #[trigger] wanted(l) ==> starts_song(l),
        wanted("{new_song}"@),
    ensures
        count_lines(split(songs_text(v), '\n'), wanted) == v.len() - 1,
    decreases v.len(),
{
    let last = v.last();
    songs_start_no_other_song(last);
    lemma_count_none(split(song_text(last), '\n'), wanted);
    songs_are_separated(v.drop_last(), seq![last], last);
    if v.len() == 1 {
        assert(v =~= seq![last]);
    } else {
        let a = v.drop_last();
        assert(v =~= a + seq![last]);
        lemma_starts(a, wanted);
        reveal_strlit("\n{new_song}\n\n");
        reveal_strlit("{new_song}");
        let none: Seq<char> = seq![];
        let sep = seq!['\n'];
        let mark = "{new_song}"@;
        let s = song_text(last);
        let t2 = none + sep + s;
        let t1 = mark + sep + t2;
        lemma_split_both(none, s, '\n');
        lemma_split_both(mark, t2, '\n');
        lemma_split_both(songs_text(a), t1, '\n');
        assert("\n{new_song}\n\n"@ =~= sep + mark + sep + none + sep);
        assert(songs_text(v) =~= songs_text(a) + sep + t1);
        lemma_separator();
        lemma_empty_line();
        let one = seq![mark];
        let blank = seq![none];
        lemma_count_none(blank, wanted);
        assert(one.drop_last() =~= seq![]);
        assert(count_lines(one.drop_last(), wanted) == 0);
        assert(one.last() == mark);
        assert(count_lines(one, wanted) == 1);
        lemma_count_both(blank, split(s, '\n'), wanted);
        lemma_count_both(one, split(t2, '\n'), wanted);
        lemma_count_both(split(songs_text(a), '\n'), split(t1, '\n'), wanted);
    }
}

/// A file of several songs has one `{new_song}` line less than it has songs,
/// and no other line of it starts a song.
pub proof fn every_song_but_the_first_is_announced(v: Seq<SongExport>)
    requires
        v.len() > 0,
    ensures
        count_lines(split(songs_text(v), '\n'), |l: Seq<char>| l == "{new_song}"@) == v.len() - 1,
        count_lines(split(songs_text(v), '\n'), |l: Seq<char>| starts_song(l)) == v.len() - 1,
{
    lemma_separator();
    lemma_starts(v, |l: Seq<char>| l == "{new_song}"@);
    lemma_starts(v, |l: Seq<char>| starts_song(l));
}

} // verus!
