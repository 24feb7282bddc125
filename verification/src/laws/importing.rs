//! Songs that were imported.

use crate::import::chordpro::{
    cleaned, directive_of, empty_draft, is_directive_name, song_in, with_directive, with_line,
    with_lines, Draft,
};
use crate::import::values::{capo_of, duration_of, key_of, tempo_of};
use crate::models::song::is_time_signature;
use crate::models::tonality::Tonality;
use crate::text::{cut, replace, split, trim};
use vstd::prelude::*;

verus! {

/// The value of the directive of that name, on a line that is one.
pub open spec fn value_on(line: Seq<char>, name: Seq<char>) -> Option<Seq<char>> {
    match directive_of(trim(line)) {
        Some((n, v)) => if n == name {
            Some(v)
        } else {
            None
        },
        None => None,
    }
}

/// The text that a line gives, when it is a directive of that name with one.
pub open spec fn text_on(line: Seq<char>, name: Seq<char>) -> Option<Seq<char>> {
    match value_on(line, name) {
        Some(v) => if v.len() > 0 {
            Some(v)
        } else {
            None
        },
        None => None,
    }
}

pub open spec fn titles_on(ls: Seq<Seq<char>>) -> Seq<Option<Seq<char>>> {
    Seq::new(
        ls.len(),
        |i: int|
            match text_on(ls[i], "title"@) {
                Some(t) => Some(t),
                None => text_on(ls[i], "t"@),
            },
    )
}

pub open spec fn subtitles_on(ls: Seq<Seq<char>>) -> Seq<Option<Seq<char>>> {
    Seq::new(
        ls.len(),
        |i: int|
            match text_on(ls[i], "subtitle"@) {
                Some(t) => Some(t),
                None => text_on(ls[i], "st"@),
            },
    )
}

pub open spec fn artists_on(ls: Seq<Seq<char>>) -> Seq<Option<Seq<char>>> {
    Seq::new(ls.len(), |i: int| text_on(ls[i], "artist"@))
}

pub open spec fn keys_on(ls: Seq<Seq<char>>) -> Seq<Option<Tonality>> {
    Seq::new(
        ls.len(),
        |i: int|
            match value_on(ls[i], "key"@) {
                Some(v) => key_of(v),
                None => None,
            },
    )
}

pub open spec fn tempos_on(ls: Seq<Seq<char>>) -> Seq<Option<i32>> {
    Seq::new(
        ls.len(),
        |i: int|
            match value_on(ls[i], "tempo"@) {
                Some(v) => tempo_of(v),
                None => None,
            },
    )
}

pub open spec fn capos_on(ls: Seq<Seq<char>>) -> Seq<Option<i16>> {
    Seq::new(
        ls.len(),
        |i: int|
            match value_on(ls[i], "capo"@) {
                Some(v) => capo_of(v),
                None => None,
            },
    )
}

pub open spec fn durations_on(ls: Seq<Seq<char>>) -> Seq<Option<i32>> {
    Seq::new(
        ls.len(),
        |i: int|
            match value_on(ls[i], "duration"@) {
                Some(v) => duration_of(v),
                None => None,
            },
    )
}

pub open spec fn times_on(ls: Seq<Seq<char>>) -> Seq<Option<Seq<char>>> {
    Seq::new(
        ls.len(),
        |i: int|
            match value_on(ls[i], "time"@) {
                Some(v) => {
                    let t = replace(v, " "@, ""@);
                    if is_time_signature(t) {
                        Some(t)
                    } else {
                        None
                    }
                },
                None => None,
            },
    )
}

/// The first value that is given, from position `i` on.
pub open spec fn first_given<T>(v: Seq<Option<T>>, i: int) -> Option<T>
    decreases v.len() - i,
{
    if i < 0 || i >= v.len() {
        None
    } else if v[i] is Some {
        v[i]
    } else {
        first_given(v, i + 1)
    }
}

pub open spec fn or_else<T>(a: Option<T>, b: Option<T>) -> Option<T> {
    if a is Some {
        a
    } else {
        b
    }
}

proof fn lemma_names()
    ensures
        is_directive_name("title"@) && is_directive_name("t"@) && is_directive_name("subtitle"@)
            && is_directive_name("st"@) && is_directive_name("artist"@) && is_directive_name(
            "key"@,
        ) && is_directive_name("tempo"@) && is_directive_name("capo"@) && is_directive_name(
            "duration"@,
        ) && is_directive_name("time"@),
        "title"@.len() == 5 && "t"@.len() == 1 && "subtitle"@.len() == 8 && "st"@.len() == 2
            && "artist"@.len() == 6 && "key"@.len() == 3 && "tempo"@.len() == 5 && "capo"@.len() == 4
            && "duration"@.len() == 8 && "time"@.len() == 4 && "new_song"@.len() == 8
            && "ns"@.len() == 2,
        "tempo"@ != "title"@,
        "st"@ != "ns"@,
        "subtitle"@ != "new_song"@,
        "duration"@ != "new_song"@,
        "duration"@ != "subtitle"@,
        "time"@ != "capo"@,
{
    reveal_strlit("title");
    reveal_strlit("t");
    reveal_strlit("subtitle");
    reveal_strlit("st");
    reveal_strlit("artist");
    reveal_strlit("key");
    reveal_strlit("tempo");
    reveal_strlit("capo");
    reveal_strlit("duration");
    reveal_strlit("time");
    reveal_strlit("new_song");
    reveal_strlit("ns");
    assert("tempo"@[1] != "title"@[1]);
    assert("st"@[0] != "ns"@[0]);
    assert("subtitle"@[0] != "new_song"@[0]);
    assert("duration"@[0] != "new_song"@[0]);
    assert("duration"@[0] != "subtitle"@[0]);
    assert("time"@[0] != "capo"@[0]);
}

proof fn lemma_one_line(d: Draft, ls: Seq<Seq<char>>, i: int)
    requires
        0 <= i < ls.len(),
        with_line(d, ls[i], i + 1) is Ok,
    ensures
        ({
            let next = with_line(d, ls[i], i + 1)->Ok_0;
            &&& next.title == or_else(d.title, titles_on(ls)[i])
            &&& next.subtitle == or_else(d.subtitle, subtitles_on(ls)[i])
            &&& next.artist == or_else(d.artist, artists_on(ls)[i])
            &&& next.tonality == or_else(d.tonality, keys_on(ls)[i])
            &&& next.tempo == or_else(d.tempo, tempos_on(ls)[i])
            &&& next.capo == or_else(d.capo, capos_on(ls)[i])
            &&& next.duration == or_else(d.duration, durations_on(ls)[i])
            &&& next.time_signature == or_else(d.time_signature, times_on(ls)[i])
        }),
{
    lemma_names();
    match directive_of(trim(ls[i])) {
        Some((name, value)) => {
            assert(with_line(d, ls[i], i + 1) == with_directive(d, name, value, i + 1));
        },
        None => {},
    }
}

proof fn lemma_first(d: Draft, ls: Seq<Seq<char>>, i: int)
    requires
        0 <= i,
        with_lines(d, ls, i) is Ok,
    ensures
        ({
            let end = with_lines(d, ls, i)->Ok_0;
            &&& end.title == or_else(d.title, first_given(titles_on(ls), i))
            &&& end.subtitle == or_else(d.subtitle, first_given(subtitles_on(ls), i))
            &&& end.artist == or_else(d.artist, first_given(artists_on(ls), i))
            &&& end.tonality == or_else(d.tonality, first_given(keys_on(ls), i))
            &&& end.tempo == or_else(d.tempo, first_given(tempos_on(ls), i))
            &&& end.capo == or_else(d.capo, first_given(capos_on(ls), i))
            &&& end.duration == or_else(d.duration, first_given(durations_on(ls), i))
            &&& end.time_signature == or_else(d.time_signature, first_given(times_on(ls), i))
        }),
    decreases ls.len() - i,
{
    if i < ls.len() {
        lemma_one_line(d, ls, i);
        lemma_first(with_line(d, ls[i], i + 1)->Ok_0, ls, i + 1);
    }
}

/// Every detail of an imported song is the first that the file gives. The
/// artist is the one of `{artist}`; a `{subtitle}` only counts where no artist
/// is given. A title that the caller gives comes before the file's.
pub proof fn imported_details_are_the_first_given(text: Seq<char>, given: Option<Seq<char>>)
    requires
        song_in(text, given) is Ok,
    ensures
        ({
            let song = song_in(text, given)->Ok_0;
            let ls = split(text, '\n');
            let title = first_given(titles_on(ls), 0);
            let artist = or_else(
                first_given(artists_on(ls), 0),
                first_given(subtitles_on(ls), 0),
            );
            &&& song.title == cut(
                if given is Some && cleaned(given->0).len() > 0 {
                    cleaned(given->0)
                } else {
                    title->0
                },
                255,
            )
            &&& given is None || cleaned(given->0).len() == 0 ==> title is Some
            &&& song.artist_name is Some <==> artist is Some
            &&& artist is Some ==> song.artist_name->0 == cut(artist->0, 255)
            &&& song.tonality == first_given(keys_on(ls), 0)
            &&& song.tempo == first_given(tempos_on(ls), 0)
            &&& song.capo == first_given(capos_on(ls), 0)
            &&& song.duration == first_given(durations_on(ls), 0)
            &&& song.time_signature == first_given(times_on(ls), 0)
        }),
{
    lemma_first(empty_draft(), split(text, '\n'), 0);
}

} // verus!
