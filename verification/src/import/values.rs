//! The values of metadata directives: keys, tempos, capos and durations.

use crate::models::tonality::{tonality_parts, Tonality};
use crate::text::{
    all_digits, ascii_lower, chars, digits_value, ends_with, find_char, has_suffix, index_of,
    lemma_index_of, lowered, only_digits, piece, replace, replaced, same, trim, trimmed, upper,
    char_upper, is_digit,
};
use vstd::prelude::*;

verus! {

// ---------------------------------------------------------------------
// Keys
// ---------------------------------------------------------------------

/// `raw` without blanks around it and with plain accidentals.
pub open spec fn plain_key(raw: Seq<char>) -> Seq<char> {
    replace(replace(trim(raw), "♯"@, "#"@), "♭"@, "b"@)
}

/// The words that make a key minor, or leave it major.
pub open spec fn minor_word(quality: Seq<char>) -> Option<bool> {
    let q = ascii_lower(quality);
    if q == ""@ || q == "maj"@ || q == "major"@ || q == "dur"@ {
        Some(false)
    } else if q == "m"@ || q == "min"@ || q == "minor"@ || q == "-"@ || q == "moll"@ {
        Some(true)
    } else {
        None
    }
}

/// The note, the accidental and the mode that a free-form key names.
pub open spec fn key_parts(raw: Seq<char>) -> Option<(char, Option<char>, bool)> {
    let value = plain_key(raw);
    if value.len() == 0 || !('A' <= upper(value[0]) <= 'G') {
        None
    } else {
        let marked = value.len() > 1 && (value[1] == '#' || value[1] == 'b');
        let accidental = if marked {
            Some(value[1])
        } else {
            None
        };
        let quality = trim(
            value.skip(
                if marked {
                    2
                } else {
                    1
                },
            ),
        );
        match minor_word(quality) {
            Some(minor) => Some((upper(value[0]), accidental, minor)),
            None => None,
        }
    }
}

/// `r` is the key that the text names; none when no key has that name.
pub open spec fn is_key_of(r: Option<Tonality>, raw: Seq<char>) -> bool {
    match r {
        Some(t) => key_parts(raw) == Some(tonality_parts(t)),
        None => forall|t: Tonality| key_parts(raw) != Some(#[trigger] tonality_parts(t)),
    }
}

/// The key that a text names.
pub open spec fn key_of(raw: Seq<char>) -> Option<Tonality> {
    choose|r: Option<Tonality>| is_key_of(r, raw)
}

proof fn lemma_key_of(r: Option<Tonality>, raw: Seq<char>)
    requires
        is_key_of(r, raw),
    ensures
        key_of(raw) == r,
{
    let k = key_of(raw);
    assert(is_key_of(k, raw));
    match (k, r) {
        (Some(a), Some(b)) => {
            crate::models::tonality::tonalities_are_told_apart_by_their_parts(a, b);
        },
        (Some(a), None) => {
            assert(key_parts(raw) == Some(tonality_parts(a)));
        },
        (None, Some(b)) => {
            assert(key_parts(raw) == Some(tonality_parts(b)));
        },
        (None, None) => {},
    }
}

/// Maps a free-form key ("A minor", "F♯m", "bb") to a [`Tonality`].
pub fn parse_key(raw: &str) -> (r: Option<Tonality>)
    ensures
        is_key_of(r, raw@),
        r == key_of(raw@),
{
    proof {
        reveal_strlit("♯");
        reveal_strlit("♭");
        reveal_strlit("");
    }
    let t = trimmed(raw);
    let value = replaced(t.as_str(), "♯", "#");
    let value = replaced(value.as_str(), "♭", "b");
    let v = chars(value.as_str());
    let n = v.len();
    if n == 0 {
        proof {
            lemma_key_of(None, raw@);
        }
        return None;
    }
    let root = char_upper(v[0]);
    if root < 'A' || root > 'G' {
        proof {
            lemma_key_of(None, raw@);
        }
        return None;
    }
    let marked = n > 1 && (v[1] == '#' || v[1] == 'b');
    let accidental = if marked {
        Some(v[1])
    } else {
        None
    };
    let from: usize = if marked {
        2
    } else {
        1
    };
    let rest = piece(&v, from, n);
    assert(rest@ =~= value@.skip(from as int));
    let quality = trimmed(rest.as_str());
    let q = lowered(quality.as_str());
    let q = q.as_str();
    let minor = if same(q, "") || same(q, "maj") || same(q, "major") || same(q, "dur") {
        false
    } else if same(q, "m") || same(q, "min") || same(q, "minor") || same(q, "-") || same(q, "moll") {
        true
    } else {
        proof {
            lemma_key_of(None, raw@);
        }
        return None;
    };
    assert(key_parts(raw@) == Some((root, accidental, minor)));
    let r = Tonality::from_parts(root, accidental, minor);
    proof {
        lemma_key_of(r, raw@);
    }
    r
}

// ---------------------------------------------------------------------
// Numbers
// ---------------------------------------------------------------------

/// `s` is a number of at most `max` digits.
pub open spec fn is_number(s: Seq<char>, max: int) -> bool {
    0 < s.len() <= max && all_digits(s)
}

/// The number that `s` writes, which has at most four digits.
fn number_in(s: &str, max: usize) -> (r: Option<u32>)
    requires
        max <= 4,
    ensures
        match r {
            Some(n) => is_number(s@, max as int) && n == digits_value(s@) && n <= 9_999,
            None => !is_number(s@, max as int),
        },
{
    let v = chars(s);
    if v.len() == 0 || v.len() > max || !only_digits(s) {
        return None;
    }
    let mut n: u32 = 0;
    let mut i: usize = 0;
    assert(v@.take(0) =~= seq![]);
    while i < v.len()
        invariant
            v@ == s@,
            all_digits(s@),
            i <= v@.len() <= 4,
            n == digits_value(v@.take(i as int)),
            i == 0 ==> n == 0,
            i == 1 ==> n <= 9,
            i == 2 ==> n <= 99,
            i == 3 ==> n <= 999,
            i == 4 ==> n <= 9_999,
        decreases v@.len() - i,
    {
        assert(v@.take(i + 1).drop_last() =~= v@.take(i as int));
        assert(v@.take(i + 1).last() == v@[i as int]);
        let c = v[i];
        assert(is_digit(c));
        n = n * 10 + (c as u32 - '0' as u32);
        i = i + 1;
    }
    assert(v@.take(i as int) =~= s@);
    Some(n)
}

/// A tempo of 1 to 500 beats per minute, with or without its unit.
pub open spec fn tempo_of(raw: Seq<char>) -> Option<i32> {
    let low = ascii_lower(trim(raw));
    let number = trim(
        if ends_with(low, "bpm"@) {
            low.take(low.len() - 3)
        } else {
            low
        },
    );
    if is_number(number, 3) && 1 <= digits_value(number) <= 500 {
        Some(digits_value(number) as i32)
    } else {
        None
    }
}

pub fn parse_tempo(raw: &str) -> (r: Option<i32>)
    ensures
        r == tempo_of(raw@),
{
    proof {
        reveal_strlit("bpm");
    }
    let t = trimmed(raw);
    let low = lowered(t.as_str());
    let number = if has_suffix(low.as_str(), "bpm") {
        let v = chars(low.as_str());
        let n = piece(&v, 0, v.len() - 3);
        assert(n@ =~= low@.take(low@.len() - 3));
        trimmed(n.as_str())
    } else {
        trimmed(low.as_str())
    };
    match number_in(number.as_str(), 3) {
        Some(n) => {
            if 1 <= n && n <= 500 {
                Some(n as i32)
            } else {
                None
            }
        },
        None => None,
    }
}

/// A capo on fret 0 to 11.
pub open spec fn capo_of(raw: Seq<char>) -> Option<i16> {
    let number = trim(raw);
    if is_number(number, 2) && digits_value(number) <= 11 {
        Some(digits_value(number) as i16)
    } else {
        None
    }
}

pub fn parse_capo(raw: &str) -> (r: Option<i16>)
    ensures
        r == capo_of(raw@),
{
    let number = trimmed(raw);
    match number_in(number.as_str(), 2) {
        Some(n) => {
            if n <= 11 {
                Some(n as i16)
            } else {
                None
            }
        },
        None => None,
    }
}

/// The seconds in `m:ss` or in a plain number.
pub open spec fn seconds_of(value: Seq<char>) -> Option<int> {
    let colon = index_of(value, ':');
    let minutes = value.take(colon);
    let seconds = value.skip(colon + 1);
    if colon < value.len() {
        if is_number(minutes, 4) && is_number(seconds, 2) && seconds.len() == 2 && digits_value(
            seconds,
        ) < 60 {
            Some((digits_value(minutes) * 60 + digits_value(seconds)) as int)
        } else {
            None
        }
    } else if is_number(value, 4) {
        Some(digits_value(value) as int)
    } else {
        None
    }
}

/// A duration of 1 second to 2 hours.
pub open spec fn duration_of(raw: Seq<char>) -> Option<i32> {
    match seconds_of(trim(raw)) {
        Some(s) => if 1 <= s <= 7_200 {
            Some(s as i32)
        } else {
            None
        },
        None => None,
    }
}

fn whole_seconds(value: &str) -> (r: Option<u32>)
    ensures
        match r {
            Some(n) => seconds_of(value@) == Some(n as int),
            None => seconds_of(value@) is None,
        },
{
    let v = chars(value);
    let n = v.len();
    let colon = find_char(&v, 0, n, ':');
    assert(v@.subrange(0, n as int) =~= value@);
    proof {
        lemma_index_of(value@, ':');
    }
    if colon < n {
        let minutes = piece(&v, 0, colon);
        assert(minutes@ =~= value@.take(colon as int));
        let seconds = piece(&v, colon + 1, n);
        assert(seconds@ =~= value@.skip(colon + 1));
        if n - (colon + 1) != 2 {
            return None;
        }
        match (number_in(minutes.as_str(), 4), number_in(seconds.as_str(), 2)) {
            (Some(m), Some(s)) => {
                if s < 60 {
                    Some(m * 60 + s)
                } else {
                    None
                }
            },
            _ => None,
        }
    } else {
        number_in(value, 4)
    }
}

/// `m:ss` or plain seconds, 1 second to 2 hours.
pub fn parse_duration(raw: &str) -> (r: Option<i32>)
    ensures
        r == duration_of(raw@),
{
    let value = trimmed(raw);
    match whole_seconds(value.as_str()) {
        Some(s) => {
            if 1 <= s && s <= 7_200 {
                Some(s as i32)
            } else {
                None
            }
        },
        None => None,
    }
}

} // verus!
