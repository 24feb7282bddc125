//! Songs as ChordPro.

use crate::export::chordpro::{
    embedded, lyrics_part, metadata, minutes_and_seconds, name_end, named, song_text, starts_song,
    with_some, within_song, written_value,
};
use crate::models::song::SongExport;
use crate::text::{
    all_digits, digits_value, lemma_decimal, number, decimal, two_digits, is_digit, ascii_lower,
    is_space, join, lemma_lines, lemma_split_join, lines, opt_text, split, trim, trim_end,
    trim_start, trim_start_char,
};
use vstd::prelude::*;

verus! {

/// Lines are embedded one by one: those of two charts that follow each other
/// are those of the first, then those of the second, and a line alone stays as
/// it is unless it starts a song.
pub proof fn lines_are_embedded_one_by_one(a: Seq<Seq<char>>, b: Seq<Seq<char>>, line: Seq<char>)
    ensures
        within_song(a + b) == within_song(a) + within_song(b),
        !starts_song(line) ==> within_song(seq![line]) == seq![line],
        starts_song(line) ==> within_song(seq![line]).len() == 0,
        within_song(seq![]).len() == 0,
    decreases b.len(),
{
    let none: Seq<Seq<char>> = seq![];
    let one = seq![line];
    assert(one.drop_last() =~= none);
    assert(within_song(none) =~= none);
    assert(none.push(line) =~= one);
    if b.len() == 0 {
        assert(a + b =~= a);
        assert(within_song(a) + within_song(b) =~= within_song(a));
    } else {
        lines_are_embedded_one_by_one(a, b.drop_last(), line);
        assert((a + b).drop_last() =~= a + b.drop_last());
        assert((a + b).last() == b.last());
        if !starts_song(b.last()) {
            assert(within_song(a) + within_song(b) =~= (within_song(a) + within_song(
                b.drop_last(),
            )).push(b.last()));
        }
    }
}

proof fn lemma_all_kept(v: Seq<Seq<char>>)
    requires
        forall|i: int| 0 <= i < v.len() ==> !starts_song(#[trigger] v[i]),
    ensures
        within_song(v) == v,
    decreases v.len(),
{
    if v.len() > 0 {
        assert(!starts_song(v[v.len() - 1]));
        assert forall|i: int| 0 <= i < v.drop_last().len() implies !starts_song(
            #[trigger] v.drop_last()[i],
        ) by {
            assert(v.drop_last()[i] == v[i]);
        }
        lemma_all_kept(v.drop_last());
        assert(v.drop_last().push(v.last()) =~= v);
    } else {
        assert(within_song(v) =~= v);
    }
}

/// Lyrics none of whose lines starts a song are exported line by line as they
/// are, blank lines with them.
pub proof fn lyrics_of_one_song_are_exported_as_they_are(lyrics: Seq<char>)
    requires
        forall|i: int| 0 <= i < lines(lyrics).len() ==> !starts_song(#[trigger] lines(lyrics)[i]),
    ensures
        lines(lyrics).len() > 0 ==> split(embedded(lyrics), '\n') == lines(lyrics),
        embedded(lyrics) == join(lines(lyrics), "\n"@),
        forall|song: SongExport|
            #![trigger song_text(song)]
            opt_text(song.lyrics) == Some(lyrics) && trim(lyrics).len() > 0 ==> exists|
                head: Seq<char>,
            |
                song_text(song) == #[trigger] (head + "\n"@) + join(lines(lyrics), "\n"@) + "\n"@,
{
    reveal_strlit("\n");
    assert("\n"@ =~= seq!['\n']);
    let v = lines(lyrics);
    lemma_all_kept(v);
    lemma_lines(lyrics);
    if v.len() > 0 {
        lemma_split_join(v, '\n');
    }
    assert forall|song: SongExport|
        #![trigger song_text(song)]
        opt_text(song.lyrics) == Some(lyrics) && trim(lyrics).len() > 0 implies exists|
        head: Seq<char>,
    |
        song_text(song) == #[trigger] (head + "\n"@) + join(lines(lyrics), "\n"@) + "\n"@ by {
        let head = crate::export::chordpro::metadata(song);
        assert(song_text(song) == (head + "\n"@) + join(lines(lyrics), "\n"@) + "\n"@);
    }
}

/// A song without lyrics, or with blank ones, says so.
pub proof fn songs_without_lyrics_say_so(lyrics: Option<Seq<char>>)
    requires
        lyrics matches Some(l) ==> forall|i: int| 0 <= i < l.len() ==> is_space(#[trigger] l[i]),
    ensures
        lyrics_part(lyrics) == "# No lyrics provided."@,
{
    if let Some(l) = lyrics {
        crate::text::lemma_trim_start(l);
        let t = trim_start(l);
        if t.len() > 0 {
            assert(t[0] == l[l.len() - t.len()]);
            assert(is_space(l[l.len() - t.len()]));
        }
    }
}

proof fn lemma_name_ends(s: Seq<char>, i: int, n: int)
    requires
        0 <= i <= n < s.len(),
        s[n] == ':' || s[n] == '}',
        forall|k: int| i <= k < n ==> #[trigger] s[k] != ':' && s[k] != '}',
    ensures
        name_end(s, i) == n,
    decreases n - i,
{
    if i < n {
        lemma_name_ends(s, i + 1, n);
    }
}

/// A line in braces starts a song when the name that stands before its first
/// `:` or `}` is `new_song` or `ns`, in any letter case; a line that does not
/// start with a brace starts none.
pub proof fn new_song_directives_start_songs(line: Seq<char>, name: Seq<char>, rest: Seq<char>)
    requires
        forall|k: int| 0 <= k < name.len() ==> #[trigger] name[k] != ':' && name[k] != '}',
        name.len() > 0 ==> name[0] != '{',
        rest.len() > 0,
        rest[0] == ':' || rest[0] == '}',
        !is_space(rest.last()),
        line == seq!['{'] + name + rest,
    ensures
        starts_song(line) <==> ascii_lower(trim(name)) == "new_song"@ || ascii_lower(trim(name))
            == "ns"@,
        forall|l: Seq<char>| #[trigger] trim(l).len() == 0 || trim(l)[0] != '{' ==> !starts_song(l),
{
    let inner = name + rest;
    assert(line[0] == '{');
    assert(line.last() == rest.last());
    assert(trim_start(line) == line);
    assert(trim_end(line) == line);
    assert(line.skip(1) =~= inner);
    assert(inner[0] != '{') by {
        if name.len() > 0 {
            assert(inner[0] == name[0]);
        } else {
            assert(inner[0] == rest[0]);
        }
    }
    assert(trim_start_char(inner, '{') == inner);
    assert(trim_start_char(line, '{') == inner);
    let n = name.len() as int;
    assert(inner[n] == rest[0]);
    assert forall|k: int| 0 <= k < n implies #[trigger] inner[k] != ':' && inner[k] != '}' by {
        assert(inner[k] == name[k]);
    }
    lemma_name_ends(inner, 0, n);
    assert(inner.take(n) =~= name);
    assert(named(line) == ascii_lower(trim(name)));
}

// ---------------------------------------------------------------------
// Details
// ---------------------------------------------------------------------

/// The line of a detail; nothing where nothing is left of its value.
pub open spec fn detail_line(name: Seq<char>, value: Seq<char>) -> Seq<char> {
    if written_value(value).len() == 0 {
        seq![]
    } else {
        "{"@ + name + ": "@ + written_value(value) + "}\n"@
    }
}

/// `with` is `without` and one more line.
pub open spec fn adds_line(without: Seq<char>, with: Seq<char>, line: Seq<char>) -> bool {
    exists|a: Seq<char>, b: Seq<char>| without == a + b && with == #[trigger] (a + line + b)
}

spec fn chunk(name: Seq<char>, value: Option<Seq<char>>) -> Seq<char> {
    match value {
        Some(v) => detail_line(name, v),
        None => seq![],
    }
}

proof fn lemma_chunk(out: Seq<char>, name: Seq<char>, value: Option<Seq<char>>)
    ensures
        with_some(out, name, value) == out + chunk(name, value),
{
    assert(with_some(out, name, value) =~= out + chunk(name, value));
}

spec fn tempo_value(song: SongExport) -> Option<Seq<char>> {
    match song.tempo {
        Some(n) => Some(number(n as int)),
        None => None,
    }
}

spec fn capo_value(song: SongExport) -> Option<Seq<char>> {
    match song.capo {
        Some(n) => Some(number(n as int)),
        None => None,
    }
}

spec fn duration_value(song: SongExport) -> Option<Seq<char>> {
    match song.duration {
        Some(n) => Some(minutes_and_seconds(n as int)),
        None => None,
    }
}

spec fn energy_value(song: SongExport) -> Option<Seq<char>> {
    match song.energy {
        Some(n) => Some("energy "@ + number(n as int)),
        None => None,
    }
}

spec fn chunks(song: SongExport) -> Seq<Seq<char>> {
    seq![
        detail_line("title"@, song.title@),
        chunk("artist"@, opt_text(song.artist_name)),
        chunk("key"@, opt_text(song.tonality)),
        chunk("tempo"@, tempo_value(song)),
        chunk("time"@, opt_text(song.time_signature)),
        chunk("capo"@, capo_value(song)),
        chunk("duration"@, duration_value(song)),
        chunk("meta"@, energy_value(song)),
    ]
}

spec fn flat(v: Seq<Seq<char>>) -> Seq<char>
    decreases v.len(),
{
    if v.len() == 0 {
        seq![]
    } else {
        flat(v.drop_last()) + v.last()
    }
}

proof fn lemma_flat_take(v: Seq<Seq<char>>, k: int)
    requires
        0 <= k < v.len(),
    ensures
        flat(v.take(k + 1)) == flat(v.take(k)) + v[k],
{
    assert(v.take(k + 1).drop_last() =~= v.take(k));
}

proof fn lemma_metadata(song: SongExport)
    ensures
        metadata(song) == flat(chunks(song)),
{
    let none: Seq<char> = seq![];
    let v = chunks(song);
    lemma_flat_take(v, 0);
    lemma_flat_take(v, 1);
    lemma_flat_take(v, 2);
    lemma_flat_take(v, 3);
    lemma_flat_take(v, 4);
    lemma_flat_take(v, 5);
    lemma_flat_take(v, 6);
    lemma_flat_take(v, 7);
    assert(v.take(0) =~= seq![]);
    assert(flat(v.take(0)) =~= none);
    lemma_chunk(none, "title"@, Some(song.title@));
    assert(none + v[0] =~= v[0]);
    lemma_chunk(flat(v.take(1)), "artist"@, opt_text(song.artist_name));
    lemma_chunk(flat(v.take(2)), "key"@, opt_text(song.tonality));
    lemma_chunk(flat(v.take(3)), "tempo"@, tempo_value(song));
    lemma_chunk(flat(v.take(4)), "time"@, opt_text(song.time_signature));
    lemma_chunk(flat(v.take(5)), "capo"@, capo_value(song));
    lemma_chunk(flat(v.take(6)), "duration"@, duration_value(song));
    lemma_chunk(flat(v.take(7)), "meta"@, energy_value(song));
    assert(v.take(8) =~= v);
}

proof fn lemma_gap(v: Seq<Seq<char>>, w: Seq<Seq<char>>, k: int)
    requires
        0 <= k < v.len(),
        w == v.update(k, Seq::<char>::empty()),
    ensures
        adds_line(flat(w), flat(v), v[k]),
    decreases v.len(),
{
    let none: Seq<char> = seq![];
    if k == v.len() - 1 {
        let a = flat(v.drop_last());
        assert(w.drop_last() =~= v.drop_last());
        assert(flat(w) =~= a + none);
        assert(flat(v) =~= a + v[k] + none);
    } else {
        assert(w.drop_last() =~= v.drop_last().update(k, none));
        lemma_gap(v.drop_last(), w.drop_last(), k);
        let (a, b) = choose|a: Seq<char>, b: Seq<char>|
            flat(w.drop_last()) == a + b && flat(v.drop_last()) == #[trigger] (a + v[k] + b);
        let c = b + v.last();
        assert(flat(w) =~= a + c);
        assert(flat(v) =~= a + v[k] + c);
    }
}

proof fn lemma_without(song: SongExport, other: SongExport, k: int)
    requires
        0 <= k < 8,
        chunks(other) == chunks(song).update(k, Seq::<char>::empty()),
    ensures
        adds_line(metadata(other), metadata(song), chunks(song)[k]),
{
    lemma_metadata(song);
    lemma_metadata(other);
    lemma_gap(chunks(song), chunks(other), k);
}

/// In an exported song the artist is written in a line of its own, which is all that
/// it adds.
pub proof fn artists_add_their_own_line(song: SongExport)
    ensures
        song.artist_name matches Some(v) ==> adds_line(
            metadata(SongExport { artist_name: None, ..song }),
            metadata(song),
            detail_line("artist"@, v@),
        ),
{
    if song.artist_name is Some {
        let w = SongExport { artist_name: None, ..song };
        assert(chunks(w) =~= chunks(song).update(1, Seq::<char>::empty()));
        lemma_without(song, w, 1);
    }
}

/// In an exported song the key is written in a line of its own, which is all that
/// it adds.
pub proof fn keys_add_their_own_line(song: SongExport)
    ensures
        song.tonality matches Some(v) ==> adds_line(
            metadata(SongExport { tonality: None, ..song }),
            metadata(song),
            detail_line("key"@, v@),
        ),
{
    if song.tonality is Some {
        let w = SongExport { tonality: None, ..song };
        assert(chunks(w) =~= chunks(song).update(2, Seq::<char>::empty()));
        lemma_without(song, w, 2);
    }
}

/// In an exported song the tempo is written in a line of its own, which is all that
/// it adds.
pub proof fn tempos_add_their_own_line(song: SongExport)
    ensures
        song.tempo matches Some(v) ==> adds_line(
            metadata(SongExport { tempo: None, ..song }),
            metadata(song),
            detail_line("tempo"@, number(v as int)),
        ),
{
    if song.tempo is Some {
        let w = SongExport { tempo: None, ..song };
        assert(chunks(w) =~= chunks(song).update(3, Seq::<char>::empty()));
        lemma_without(song, w, 3);
    }
}

/// In an exported song the time signature is written in a line of its own, which is all that
/// it adds.
pub proof fn time_signatures_add_their_own_line(song: SongExport)
    ensures
        song.time_signature matches Some(v) ==> adds_line(
            metadata(SongExport { time_signature: None, ..song }),
            metadata(song),
            detail_line("time"@, v@),
        ),
{
    if song.time_signature is Some {
        let w = SongExport { time_signature: None, ..song };
        assert(chunks(w) =~= chunks(song).update(4, Seq::<char>::empty()));
        lemma_without(song, w, 4);
    }
}

/// In an exported song the capo is written in a line of its own, which is all that
/// it adds.
pub proof fn capos_add_their_own_line(song: SongExport)
    ensures
        song.capo matches Some(v) ==> adds_line(
            metadata(SongExport { capo: None, ..song }),
            metadata(song),
            detail_line("capo"@, number(v as int)),
        ),
{
    if song.capo is Some {
        let w = SongExport { capo: None, ..song };
        assert(chunks(w) =~= chunks(song).update(5, Seq::<char>::empty()));
        lemma_without(song, w, 5);
    }
}

/// In an exported song the duration is written in a line of its own, which is all that
/// it adds.
pub proof fn durations_add_their_own_line(song: SongExport)
    ensures
        song.duration matches Some(v) ==> adds_line(
            metadata(SongExport { duration: None, ..song }),
            metadata(song),
            detail_line("duration"@, minutes_and_seconds(v as int)),
        ),
{
    if song.duration is Some {
        let w = SongExport { duration: None, ..song };
        assert(chunks(w) =~= chunks(song).update(6, Seq::<char>::empty()));
        lemma_without(song, w, 6);
    }
}

/// In an exported song the energy is written in a line of its own, which is all that
/// it adds.
pub proof fn energies_add_their_own_line(song: SongExport)
    ensures
        song.energy matches Some(v) ==> adds_line(
            metadata(SongExport { energy: None, ..song }),
            metadata(song),
            detail_line("meta"@, "energy "@ + number(v as int)),
        ),
{
    if song.energy is Some {
        let w = SongExport { energy: None, ..song };
        assert(chunks(w) =~= chunks(song).update(7, Seq::<char>::empty()));
        lemma_without(song, w, 7);
    }
}

/// A song that is all title is exported as the line of its title.
pub proof fn titles_alone_are_one_line(song: SongExport)
    requires
        song.artist_name is None && song.tonality is None && song.tempo is None
            && song.time_signature is None && song.capo is None && song.duration is None
            && song.energy is None,
    ensures
        metadata(song) == detail_line("title"@, song.title@),
{
    let none: Seq<char> = seq![];
    lemma_chunk(none, "title"@, Some(song.title@));
    let t = detail_line("title"@, song.title@);
    assert(none + t =~= t);
}

/// A duration is written as whole minutes and the seconds that are left, in two
/// digits.
pub proof fn durations_are_minutes_and_seconds(seconds: int)
    requires
        seconds >= 0,
    ensures
        exists|m: Seq<char>, s: Seq<char>|
            minutes_and_seconds(seconds) == #[trigger] (m + ":"@ + s) && all_digits(m)
                && all_digits(s) && s.len() == 2 && digits_value(s) < 60 && digits_value(m) * 60
                + digits_value(s) == seconds,
{
    let m = decimal((seconds / 60) as nat);
    let s = two_digits((seconds % 60) as nat);
    lemma_decimal((seconds / 60) as nat);
    lemma_two_digits((seconds % 60) as nat);
    assert(minutes_and_seconds(seconds) == m + ":"@ + s);
}

pub proof fn lemma_two_digits(n: nat)
    requires
        n < 100,
    ensures
        two_digits(n).len() == 2,
        all_digits(two_digits(n)),
        digits_value(two_digits(n)) == n,
{
    lemma_decimal(n);
    let s = two_digits(n);
    let d = decimal(n);
    if n < 10 {
        assert(s.drop_last() =~= seq!['0']);
        assert(seq!['0'].drop_last() =~= seq![]);
        assert(digits_value(seq!['0'].drop_last()) == 0);
        assert(seq!['0'].last() == '0');
        assert(digits_value(seq!['0']) == 0);
        assert(d.drop_last() =~= seq![]);
        assert(digits_value(d.drop_last()) == 0);
        assert(s.last() == d.last());
        assert forall|i: int| 0 <= i < s.len() implies is_digit(#[trigger] s[i]) by {
            if i > 0 {
                assert(s[i] == d[i - 1]);
            }
        }
    } else {
        assert(decimal(n / 10).len() == 1);
    }
}

} // verus!
