//! Chord symbols, keys and numbers.

use crate::export::chords::{
    is_bare_note, is_chord_symbol, is_plain_chord, is_quality, quality_len, QUALITY_TOKENS,
};
use crate::import::values::{
    capo_of, duration_of, is_key_of, key_of, key_parts, minor_word, plain_key, tempo_of,
};
use crate::models::tonality::{
    tonalities_are_told_apart_by_their_parts, tonality_name, tonality_parts, Tonality,
};
use crate::text::{
    all_digits, ascii_lower, decimal, ends_with, index_of, is_digit, is_space, last_index_of,
    lemma_decimal, lemma_index_of, lemma_replace_passes, lemma_trim_solid, lemma_trim_twice,
    replace, trim,
};
use vstd::prelude::*;

verus! {

// ---------------------------------------------------------------------
// Chords
// ---------------------------------------------------------------------

proof fn lemma_tokens()
    ensures
        forall|k: int, i: int|
            0 <= k < 16 && 0 <= i < QUALITY_TOKENS@[k]@.len() ==> !is_digit(
                #[trigger] QUALITY_TOKENS@[k]@[i],
            ),
        forall|k: int| 0 <= k < 16 ==> (#[trigger] QUALITY_TOKENS@[k]@).len() > 0,
        QUALITY_TOKENS@[6]@ == seq!['m'],
        forall|k: int| 0 <= k < 6 ==> (#[trigger] QUALITY_TOKENS@[k]@).len() == 3,
{
    reveal_strlit("maj");
    reveal_strlit("min");
    reveal_strlit("dim");
    reveal_strlit("aug");
    reveal_strlit("sus");
    reveal_strlit("add");
    reveal_strlit("m");
    reveal_strlit("M");
    reveal_strlit("°");
    reveal_strlit("ø");
    reveal_strlit("+");
    reveal_strlit("-");
    reveal_strlit("#");
    reveal_strlit("b");
    reveal_strlit("(");
    reveal_strlit(")");
    assert(QUALITY_TOKENS@[6]@ =~= seq!['m']);
    assert forall|k: int| 0 <= k < 16 implies {
        &&& (#[trigger] QUALITY_TOKENS@[k]@).len() > 0
        &&& k < 6 ==> QUALITY_TOKENS@[k]@.len() == 3
        &&& forall|i: int| 0 <= i < QUALITY_TOKENS@[k]@.len() ==> !is_digit(
            #[trigger] QUALITY_TOKENS@[k]@[i],
        )
    } by {
        assert(k == 0 || k == 1 || k == 2 || k == 3 || k == 4 || k == 5 || k == 6 || k == 7 || k
            == 8 || k == 9 || k == 10 || k == 11 || k == 12 || k == 13 || k == 14 || k == 15);
    }
}

proof fn lemma_quality_len(a: Seq<char>, c: char, k: int)
    requires
        is_digit(c),
        0 <= k,
        a.len() > 0,
    ensures
        quality_len(a.push(c), k) == quality_len(a, k),
    decreases 16 - k,
{
    lemma_tokens();
    if k < 16 {
        let t = QUALITY_TOKENS@[k]@;
        let s = a.push(c);
        if t.len() <= a.len() {
            assert(s.subrange(0, t.len() as int) =~= a.subrange(0, t.len() as int));
        } else if t.len() == s.len() {
            assert(s.subrange(0, t.len() as int) =~= s);
            if s == t {
                assert(t[t.len() - 1] == c);
                assert(!is_digit(QUALITY_TOKENS@[k]@[t.len() - 1]));
            }
        }
        lemma_quality_len(a, c, k + 1);
    }
}

proof fn lemma_quality_digit(a: Seq<char>, c: char)
    requires
        is_quality(a),
        is_digit(c),
    ensures
        is_quality(a.push(c)),
    decreases a.len(),
{
    let s = a.push(c);
    if a.len() == 0 {
        assert(s[0] == c);
        assert(s.skip(1) =~= seq![]);
        assert(is_quality(s.skip(1)));
    } else {
        assert(s[0] == a[0]);
        if is_digit(a[0]) || a[0] == '/' {
            assert(s.skip(1) =~= a.skip(1).push(c));
            lemma_quality_digit(a.skip(1), c);
        } else {
            let n = quality_len(a, 0);
            lemma_quality_len(a, c, 0);
            assert(s.skip(n) =~= a.skip(n).push(c));
            lemma_quality_digit(a.skip(n), c);
        }
    }
}

/// A note is a chord, in major and, with an `m`, in minor.
pub proof fn notes_are_chords(note: char, accidental: Option<char>)
    requires
        'A' <= note <= 'G',
        accidental matches Some(c) ==> c == '#' || c == 'b',
    ensures
        ({
            let n = seq![note] + (match accidental {
                Some(c) => seq![c],
                None => seq![],
            });
            is_bare_note(n) && is_chord_symbol(n) && is_chord_symbol(n.push('m'))
                && is_plain_chord(n) && is_plain_chord(n.push('m'))
        }),
{
    let n = seq![note] + (match accidental {
        Some(c) => seq![c],
        None => seq![],
    });
    let none: Seq<char> = seq![];
    let m = n.push('m');
    assert(n[0] == note);
    if accidental is Some {
        assert(n[1] == accidental->0);
        assert(n.skip(2) =~= none);
        assert(m[1] == accidental->0);
        assert(m.skip(2) =~= seq!['m']);
    } else {
        assert(n.skip(1) =~= none);
        assert(m[1] == 'm');
        assert(m.skip(1) =~= seq!['m']);
    }
    assert(m[0] == note);
    lemma_minor();
    assert(is_quality(none));
    lemma_solid_chord(n);
    lemma_solid_chord(m);
}

proof fn lemma_minor()
    ensures
        is_quality(seq!['m']),
{
    lemma_tokens();
    let s = seq!['m'];
    let none: Seq<char> = seq![];
    lemma_shorter(s, 0);
    assert(s.subrange(0, 1) =~= s);
    assert(quality_len(s, 6) == 1);
    assert(s.skip(1) =~= none);
    assert(is_quality(none));
}

proof fn lemma_shorter(s: Seq<char>, k: int)
    requires
        s.len() == 1,
        0 <= k <= 6,
    ensures
        quality_len(s, k) == quality_len(s, 6),
    decreases 6 - k,
{
    lemma_tokens();
    if k < 6 {
        assert(QUALITY_TOKENS@[k]@.len() == 3);
        lemma_shorter(s, k + 1);
    }
}

/// No blank and no slash: a chord when it is a plain one.
proof fn lemma_solid_chord(s: Seq<char>)
    requires
        is_plain_chord(s),
        forall|i: int| 0 <= i < s.len() ==> !is_space(#[trigger] s[i]) && s[i] != '/',
    ensures
        is_chord_symbol(s),
{
    lemma_trim_solid(s);
    lemma_no_slash(s);
}

proof fn lemma_no_slash(s: Seq<char>)
    requires
        forall|i: int| 0 <= i < s.len() ==> #[trigger] s[i] != '/',
    ensures
        last_index_of(s, '/') == -1,
    decreases s.len(),
{
    if s.len() > 0 {
        assert(s[s.len() - 1] != '/');
        assert forall|i: int| 0 <= i < s.drop_last().len() implies #[trigger] s.drop_last()[i]
            != '/' by {
            assert(s.drop_last()[i] == s[i]);
        }
        lemma_no_slash(s.drop_last());
    }
}

/// A plain chord stays one with a digit behind it.
pub proof fn digits_extend_chords(s: Seq<char>, c: char)
    requires
        is_plain_chord(s),
        is_digit(c),
    ensures
        is_plain_chord(s.push(c)),
{
    let t = s.push(c);
    assert(t[0] == s[0]);
    if s.len() > 1 && (s[1] == '#' || s[1] == 'b') {
        assert(t[1] == s[1]);
        assert(t.skip(2) =~= s.skip(2).push(c));
        lemma_quality_digit(s.skip(2), c);
    } else {
        assert(t.skip(1) =~= s.skip(1).push(c));
        if s.len() > 1 {
            assert(t[1] == s[1]);
        }
        lemma_quality_digit(s.skip(1), c);
    }
}

/// A plain chord over a bass note is a chord.
pub proof fn chords_may_have_a_bass(chord: Seq<char>, bass: Seq<char>)
    requires
        is_plain_chord(chord),
        is_bare_note(bass),
        forall|i: int| 0 <= i < chord.len() ==> !is_space(#[trigger] chord[i]),
    ensures
        is_chord_symbol(chord + seq!['/'] + bass),
{
    let s = chord + seq!['/'] + bass;
    let n = chord.len() as int;
    assert forall|i: int| 0 <= i < bass.len() implies #[trigger] bass[i] != '/' && !is_space(bass[i])
        && !is_digit(bass[i]) by {
        if bass.len() > 1 && (bass[1] == '#' || bass[1] == 'b') {
            assert(bass.skip(2).len() == bass.len() - 2);
        } else {
            assert(bass.skip(1).len() == bass.len() - 1);
        }
    }
    assert forall|i: int| 0 <= i < s.len() implies !is_space(#[trigger] s[i]) by {
        if i < n {
            assert(s[i] == chord[i]);
        } else if i > n {
            assert(s[i] == bass[i - n - 1]);
        }
    }
    lemma_trim_solid(s);
    lemma_last_slash(chord, bass);
    assert(s.skip(n + 1) =~= bass);
    assert(s.take(n) =~= chord);
    assert(!is_digit(bass[0]));
}

proof fn lemma_last_slash(a: Seq<char>, b: Seq<char>)
    requires
        forall|i: int| 0 <= i < b.len() ==> #[trigger] b[i] != '/',
    ensures
        last_index_of(a + seq!['/'] + b, '/') == a.len(),
    decreases b.len(),
{
    let s = a + seq!['/'] + b;
    if b.len() == 0 {
        assert(s.last() == '/');
    } else {
        assert(s.last() == b[b.len() - 1]);
        assert(s.drop_last() =~= a + seq!['/'] + b.drop_last());
        assert forall|i: int| 0 <= i < b.drop_last().len() implies #[trigger] b.drop_last()[i]
            != '/' by {
            assert(b.drop_last()[i] == b[i]);
        }
        lemma_last_slash(a, b.drop_last());
    }
}

/// A chord starts with a note, unless it says that there is none; blanks around
/// it do not matter.
pub proof fn chords_start_with_a_note(s: Seq<char>)
    ensures
        is_chord_symbol(s) <==> is_chord_symbol(trim(s)),
        is_chord_symbol(s) ==> trim(s).len() > 0 && ('A' <= trim(s)[0] <= 'G' || ascii_lower(trim(s))
            == "n.c."@ || ascii_lower(trim(s)) == "nc"@),
        ascii_lower(trim(s)) == "n.c."@ || ascii_lower(trim(s)) == "nc"@ ==> is_chord_symbol(s),
{
    reveal_strlit("n.c.");
    reveal_strlit("nc");
    lemma_trim_twice(s);
    let t = trim(s);
    let slash = last_index_of(t, '/');
    lemma_last_index(t);
    assert(ascii_lower(t).len() == t.len());
    assert("n.c."@.len() == 4 && "nc"@.len() == 2);
    if slash >= 0 && is_plain_chord(t.take(slash)) {
        assert(t.take(slash).len() > 0);
        assert(t.take(slash)[0] == t[0]);
    }
}

proof fn lemma_last_index(s: Seq<char>)
    ensures
        -1 <= last_index_of(s, '/') < s.len() || s.len() == 0 && last_index_of(s, '/') == -1,
    decreases s.len(),
{
    if s.len() > 0 {
        lemma_last_index(s.drop_last());
    }
}

// ---------------------------------------------------------------------
// Keys
// ---------------------------------------------------------------------

/// The name of a key is read back as that key.
pub proof fn names_of_keys_are_read_back(t: Tonality)
    ensures
        key_of(tonality_name(t)) == Some(t),
{
    reveal_strlit("♯");
    reveal_strlit("♭");
    reveal_strlit("");
    reveal_strlit("m");
    reveal_strlit("maj");
    reveal_strlit("major");
    reveal_strlit("dur");
    let (note, accidental, minor) = tonality_parts(t);
    assert('A' <= note <= 'G');
    assert(accidental matches Some(c) ==> c == '#' || c == 'b');
    let s = tonality_name(t);
    let none: Seq<char> = seq![];
    assert(s[0] == note);
    assert forall|i: int| 0 <= i < s.len() implies !is_space(#[trigger] s[i]) && s[i] != '♯' && s[i]
        != '♭' by {}
    lemma_trim_solid(s);
    lemma_replace_passes(s, none, "♯"@, "#"@);
    lemma_replace_passes(s, none, "♭"@, "b"@);
    assert(s + none =~= s);
    assert(replace(none, "♯"@, "#"@) =~= none);
    assert(replace(none, "♭"@, "b"@) =~= none);
    assert(plain_key(s) == s);
    let marked = s.len() > 1 && (s[1] == '#' || s[1] == 'b');
    let q = s.skip(
        if marked {
            2
        } else {
            1
        },
    );
    if accidental is Some {
        assert(s[1] == accidental->0);
    } else if minor {
        assert(s[1] == 'm');
    }
    if minor {
        assert(q =~= seq!['m']);
        assert(ascii_lower(q) =~= "m"@);
    } else {
        assert(q =~= none);
        assert(ascii_lower(q) =~= ""@);
    }
    assert forall|i: int| 0 <= i < q.len() implies !is_space(#[trigger] q[i]) by {}
    lemma_trim_solid(q);
    assert(key_parts(s) == Some(tonality_parts(t)));
    let k = key_of(s);
    assert(is_key_of(Some(t), s));
    assert(is_key_of(k, s));
    match k {
        Some(o) => {
            tonalities_are_told_apart_by_their_parts(o, t);
        },
        None => {
            assert(key_parts(s) != Some(tonality_parts(t)));
        },
    }
}

/// The words for minor and for major, in any letter case.
pub proof fn modes_have_their_words(quality: Seq<char>)
    ensures
        ({
            let q = ascii_lower(quality);
            &&& minor_word(quality) == Some(true) <==> q == "m"@ || q == "min"@ || q == "minor"@ || q
                == "moll"@ || q == "-"@
            &&& minor_word(quality) == Some(false) <==> q.len() == 0 || q == "maj"@ || q == "major"@
                || q == "dur"@
        }),
{
    reveal_strlit("");
    reveal_strlit("m");
    reveal_strlit("min");
    reveal_strlit("minor");
    reveal_strlit("moll");
    reveal_strlit("-");
    reveal_strlit("maj");
    reveal_strlit("major");
    reveal_strlit("dur");
    let q = ascii_lower(quality);
    if q.len() == 0 {
        assert(q =~= ""@);
    }
    assert("min"@[1] != "maj"@[1]);
    assert("min"@[0] != "dur"@[0]);
    assert("minor"@[1] != "major"@[1]);
    assert("min"@ != "maj"@ && "min"@ != "dur"@ && "minor"@ != "major"@);
    assert("m"@.len() == 1 && "-"@.len() == 1 && "moll"@.len() == 4 && ""@.len() == 0 && "min"@.len()
        == 3 && "minor"@.len() == 5 && "maj"@.len() == 3 && "major"@.len() == 5 && "dur"@.len()
        == 3);
}

// ---------------------------------------------------------------------
// Numbers
// ---------------------------------------------------------------------

proof fn lemma_digits_solid(s: Seq<char>)
    requires
        all_digits(s),
    ensures
        trim(s) == s,
        ascii_lower(s) == s,
{
    assert forall|i: int| 0 <= i < s.len() implies !is_space(#[trigger] s[i]) by {
        assert(is_digit(s[i]));
    }
    lemma_trim_solid(s);
    assert forall|i: int| 0 <= i < s.len() implies ascii_lower(s)[i] == s[i] by {
        assert(is_digit(s[i]));
    }
    assert(ascii_lower(s) =~= s);
}

/// A tempo is read with and without its unit, from 1 to 500.
pub proof fn tempos_are_read(n: nat)
    ensures
        tempo_of(decimal(n)) == if 1 <= n <= 500 {
            Some(n as i32)
        } else {
            None
        },
        tempo_of(decimal(n) + " BPM"@) == tempo_of(decimal(n)),
{
    reveal_strlit("bpm");
    reveal_strlit(" BPM");
    let s = decimal(n);
    lemma_decimal(n);
    lemma_digits_solid(s);
    if ends_with(s, "bpm"@) {
        assert(s.subrange(s.len() - 3, s.len() as int)[0] == "bpm"@[0]);
        assert(is_digit(s[s.len() - 3]));
    }
    let u = s + " BPM"@;
    let k = s.len() as int;
    assert(u[0] == s[0]);
    assert(is_digit(s[0]));
    assert(u.last() == 'M');
    assert(crate::text::trim_start(u) == u);
    assert(trim(u) == u);
    let low = ascii_lower(u);
    assert forall|i: int| 0 <= i < k implies low[i] == s[i] by {
        assert(u[i] == s[i]);
        assert(is_digit(s[i]));
    }
    assert(low.subrange(low.len() - 3, low.len() as int) =~= "bpm"@);
    let front = low.take(low.len() - 3);
    assert(front =~= s + seq![' ']);
    assert(front.last() == ' ');
    assert(front[0] == s[0]);
    assert(crate::text::trim_start(front) == front);
    assert(front.drop_last() =~= s);
    assert(is_digit(s[k - 1]));
    assert(crate::text::trim_end(s) == s);
    assert(trim(front) == s);
}

/// A capo is read from fret 0 to fret 11.
pub proof fn capos_are_read(n: nat)
    ensures
        capo_of(decimal(n)) == if n <= 11 {
            Some(n as i16)
        } else {
            None
        },
{
    lemma_decimal(n);
    lemma_digits_solid(decimal(n));
}

/// A duration in plain seconds is read from one second to two hours.
pub proof fn durations_in_seconds_are_read(n: nat)
    ensures
        duration_of(decimal(n)) == if 1 <= n <= 7_200 {
            Some(n as i32)
        } else {
            None
        },
{
    let s = decimal(n);
    lemma_decimal(n);
    lemma_digits_solid(s);
    lemma_index_of(s, ':');
    let i = index_of(s, ':');
    if i < s.len() {
        assert(is_digit(s[i]));
    }
    if 1_000 <= n < 10_000 {
        lemma_decimal(n / 10);
        assert(s.len() == 4);
    }
}

} // verus!
