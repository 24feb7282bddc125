//! Chords and lyrics.

use crate::export::chords::{
    add_text, chord_columns, is_chord_symbol, lyric_text, merge_from, merged, placed, trim_parens,
    SegmentView,
};
use crate::text::{is_space, lemma_word_len, word_len};
use vstd::prelude::*;

verus! {

/// The characters from `i` to `j` are a word of `s`: they stand between blanks
/// or the ends of the line, and hold none.
pub open spec fn is_word_at(s: Seq<char>, i: int, j: int) -> bool {
    &&& 0 <= i < j <= s.len()
    &&& i == 0 || is_space(s[i - 1])
    &&& j == s.len() || is_space(s[j])
    &&& forall|k: int| i <= k < j ==> !is_space(#[trigger] s[k])
}

/// The word from `i` to `j` is a chord.
pub open spec fn is_chord_at(s: Seq<char>, i: int, j: int) -> bool {
    is_word_at(s, i, j) && is_chord_symbol(trim_parens(s.subrange(i, j)))
}

/// `e` is a chord of the line, with the column that it starts at.
pub open spec fn is_column_of(s: Seq<char>, e: (int, Seq<char>)) -> bool {
    exists|j: int| #[trigger] is_chord_at(s, e.0, j) && e.1 == trim_parens(s.subrange(e.0, j))
}

proof fn lemma_word_end(s: Seq<char>, i: int, j: int)
    requires
        is_word_at(s, i, j),
    ensures
        word_len(s.skip(i)) == j - i,
{
    let t = s.skip(i);
    lemma_word_len(t);
    let n = word_len(t);
    if n < j - i {
        assert(is_space(t[n]));
        assert(!is_space(s[i + n]));
    } else if n > j - i {
        assert(!is_space(t[j - i]));
        assert(is_space(s[j]));
    }
}

proof fn lemma_columns(s: Seq<char>, from: int)
    requires
        0 <= from,
        from == 0 || from >= s.len() || is_space(s[from - 1]) || is_space(s[from]),
    ensures
        forall|k: int|
            0 <= k < chord_columns(s, from).len() ==> {
                &&& is_column_of(s, #[trigger] chord_columns(s, from)[k])
                &&& chord_columns(s, from)[k].0 >= from
            },
        forall|k: int, l: int|
            0 <= k < l < chord_columns(s, from).len() ==> (#[trigger] chord_columns(s, from)[k]).0
                < (#[trigger] chord_columns(s, from)[l]).0,
        forall|i: int, j: int|
            from <= i && #[trigger] is_chord_at(s, i, j) ==> chord_columns(s, from).contains(
                (i, trim_parens(s.subrange(i, j))),
            ),
    decreases s.len() - from,
{
    let all = chord_columns(s, from);
    if from < s.len() {
        if is_space(s[from]) {
            lemma_columns(s, from + 1);
            assert(all == chord_columns(s, from + 1));
            assert forall|k: int| 0 <= k < all.len() implies is_column_of(s, #[trigger] all[k])
                && all[k].0 >= from by {
                assert(chord_columns(s, from + 1)[k].0 >= from + 1);
            }
            assert forall|i: int, j: int|
                from <= i && #[trigger] is_chord_at(s, i, j) implies all.contains(
                (i, trim_parens(s.subrange(i, j))),
            ) by {
                assert(i != from) by {
                    if i == from {
                        assert(!is_space(s[i]));
                    }
                }
            }
        } else {
            let t = s.skip(from);
            lemma_word_len(t);
            let n = word_len(t);
            assert(t[0] == s[from]);
            assert forall|k: int| from <= k < from + n implies !is_space(#[trigger] s[k]) by {
                assert(t[k - from] == s[k]);
            }
            if n < t.len() {
                assert(t[n] == s[from + n]);
            }
            assert(is_word_at(s, from, from + n));
            lemma_columns(s, from + n);
            let token = trim_parens(s.subrange(from, from + n));
            let rest = chord_columns(s, from + n);
            assert(is_chord_symbol(token) ==> is_chord_at(s, from, from + n));
            assert forall|k: int| 0 <= k < all.len() implies is_column_of(s, #[trigger] all[k])
                && all[k].0 >= from by {
                if is_chord_symbol(token) {
                    if k > 0 {
                        assert(all[k] == rest[k - 1]);
                    } else {
                        assert(all[k] == (from, token));
                        assert(is_chord_at(s, all[k].0, from + n));
                    }
                } else {
                    assert(all[k] == rest[k]);
                }
            }
            assert forall|k: int, l: int| 0 <= k < l < all.len() implies (#[trigger] all[k]).0
                < (#[trigger] all[l]).0 by {
                if is_chord_symbol(token) {
                    assert(all[l] == rest[l - 1]);
                    if k > 0 {
                        assert(all[k] == rest[k - 1]);
                    }
                }
            }
            assert forall|i: int, j: int|
                from <= i && #[trigger] is_chord_at(s, i, j) implies all.contains(
                (i, trim_parens(s.subrange(i, j))),
            ) by {
                if i == from {
                    lemma_word_end(s, i, j);
                    assert(all[0] == (i, trim_parens(s.subrange(i, j))));
                } else {
                    assert(i >= from + n) by {
                        if i < from + n {
                            assert(!is_space(s[i - 1]));
                        }
                    }
                    let e = (i, trim_parens(s.subrange(i, j)));
                    let k = choose|k: int| 0 <= k < rest.len() && rest[k] == e;
                    if is_chord_symbol(token) {
                        assert(all[k + 1] == e);
                    } else {
                        assert(all[k] == e);
                    }
                }
            }
        }
    }
}

/// The chords of a chord line are the words of it that are chords, without the
/// parentheses around them: each once, from left to right, with the column
/// that its word starts at.
pub proof fn every_chord_word_has_its_column(s: Seq<char>, i: int, j: int)
    ensures
        is_chord_at(s, i, j) ==> chord_columns(s, 0).contains(
            (i, trim_parens(s.subrange(i, j))),
        ),
        forall|k: int|
            0 <= k < chord_columns(s, 0).len() ==> is_column_of(
                s,
                #[trigger] chord_columns(s, 0)[k],
            ),
        forall|k: int, l: int|
            0 <= k < l < chord_columns(s, 0).len() ==> (#[trigger] chord_columns(s, 0)[k]).0 < (
            #[trigger] chord_columns(s, 0)[l]).0,
{
    lemma_columns(s, 0);
}

/// `column`, or the end of the lyric when that comes first.
pub open spec fn column_within(column: int, lyric: Seq<char>) -> int {
    if column <= lyric.len() {
        column
    } else {
        lyric.len() as int
    }
}

proof fn lemma_text_added(s: Seq<SegmentView>, text: Seq<char>)
    requires
        s.len() > 0,
    ensures
        lyric_text(add_text(s, text)) == lyric_text(s) + text,
        add_text(s, text).len() == s.len(),
        add_text(s, text).drop_last() == s.drop_last(),
        add_text(s, text).last().0 == s.last().0,
{
    assert(add_text(s, text).drop_last() =~= s.drop_last());
    assert(lyric_text(add_text(s, text)) =~= lyric_text(s) + text);
}

proof fn lemma_merge_places(
    done: Seq<SegmentView>,
    cursor: int,
    chords: Seq<(int, Seq<char>)>,
    lyric: Seq<char>,
)
    requires
        0 <= cursor <= lyric.len(),
        lyric_text(done) == lyric.take(cursor),
        forall|k: int| 0 <= k < chords.len() ==> column_within((#[trigger] chords[k]).0, lyric)
            >= cursor,
        forall|k: int, l: int|
            0 <= k < l < chords.len() ==> (#[trigger] chords[k]).0 < (#[trigger] chords[l]).0,
    ensures
        ({
            let m = merge_from(done, cursor, chords, lyric);
            let first = m.len() - chords.len();
            &&& m.len() > 0
            &&& first >= 0
            &&& done.len() > 0 ==> first == done.len() && m.take(done.len() - 1)
                == done.drop_last() && m[done.len() - 1].0 == done.last().0
            &&& done.len() == 0 ==> first == if chords.len() == 0 || column_within(
                chords[0].0,
                lyric,
            ) > cursor {
                1int
            } else {
                0int
            }
            &&& done.len() == 0 && first == 1 ==> m[0].0 is None
            &&& forall|k: int|
                0 <= k < chords.len() ==> {
                    &&& (#[trigger] m[first + k]).0 == Some(chords[k].1)
                    &&& lyric_text(m.take(first + k)) == lyric.take(
                        column_within(chords[k].0, lyric),
                    )
                }
        }),
    decreases chords.len(),
{
    let m = merge_from(done, cursor, chords, lyric);
    let none: Seq<SegmentView> = seq![];
    if chords.len() == 0 {
        let tail = lyric.skip(cursor);
        if done.len() > 0 {
            lemma_text_added(done, tail);
            assert(m.take(done.len() - 1) =~= m.drop_last());
            assert(m[done.len() - 1] == m.last());
        }
    } else {
        let column = placed(chords[0].0, lyric.len() as int, cursor);
        assert(column == column_within(chords[0].0, lyric));
        let text = lyric.subrange(cursor, column);
        assert(lyric.take(cursor) + text =~= lyric.take(column));
        let before = if done.len() > 0 {
            add_text(done, text)
        } else if text.len() > 0 {
            seq![(None, text)]
        } else {
            seq![]
        };
        if done.len() > 0 {
            lemma_text_added(done, text);
        } else {
            assert(done =~= none);
            if text.len() > 0 {
                assert(before.drop_last() =~= none);
                assert(lyric_text(before) =~= text);
                assert(lyric_text(none) + text =~= text);
            } else {
                assert(before =~= none);
            }
        }
        assert(lyric_text(before) =~= lyric.take(column));
        let chord = (Some(chords[0].1), Seq::<char>::empty());
        let next = before.push(chord);
        assert(next.drop_last() =~= before);
        assert(lyric_text(next) =~= lyric.take(column));
        let rest = chords.skip(1);
        assert forall|k: int| 0 <= k < rest.len() implies column_within((#[trigger] rest[k]).0, lyric)
            >= column by {
            assert(rest[k] == chords[k + 1]);
            assert(chords[0].0 < chords[k + 1].0);
        }
        assert forall|k: int, l: int| 0 <= k < l < rest.len() implies (#[trigger] rest[k]).0 < (
        #[trigger] rest[l]).0 by {
            assert(rest[k] == chords[k + 1] && rest[l] == chords[l + 1]);
        }
        lemma_merge_places(next, column, rest, lyric);
        let first = m.len() - chords.len();
        assert(first == before.len());
        assert(m.take(before.len() as int) =~= before);
        assert forall|k: int| 0 <= k < chords.len() implies (#[trigger] m[first + k]).0 == Some(
            chords[k].1,
        ) && lyric_text(m.take(first + k)) == lyric.take(column_within(chords[k].0, lyric)) by {
            if k > 0 {
                assert(rest[k - 1] == chords[k]);
                assert(m[first + k] == m[next.len() + (k - 1)]);
            }
        }
        if done.len() > 0 {
            assert(m.take(done.len() - 1) =~= before.take(done.len() - 1));
            assert(before.take(done.len() - 1) =~= before.drop_last());
            assert(m[done.len() - 1] == before[done.len() - 1]);
        }
        if before.len() > 0 {
            assert(m[0] == before[0]);
        }
    }
}

/// Merged lines: every chord stands over the column that it was written at, or
/// at the end of the lyric when that comes first. In front of the first chord
/// stands no segment, or one without a chord.
pub proof fn chords_stand_over_their_columns(chords: Seq<char>, lyric: Seq<char>)
    ensures
        ({
            let m = merged(chords, lyric);
            let c = chord_columns(chords, 0);
            let first = m.len() - c.len();
            &&& first == 0 || first == 1 && m[0].0 is None
            &&& first == 1 <==> c.len() == 0 || column_within(c[0].0, lyric) > 0
            &&& forall|k: int|
                0 <= k < c.len() ==> {
                    &&& (#[trigger] m[first + k]).0 == Some(c[k].1)
                    &&& lyric_text(m.take(first + k)) == lyric.take(column_within(c[k].0, lyric))
                }
        }),
{
    let none: Seq<SegmentView> = seq![];
    let c = chord_columns(chords, 0);
    lemma_columns(chords, 0);
    assert(lyric_text(none) =~= lyric.take(0));
    assert forall|k: int| 0 <= k < c.len() implies column_within((#[trigger] c[k]).0, lyric) >= 0 by {
        assert(c[k].0 >= 0);
    }
    lemma_merge_places(none, 0, c, lyric);
}

/// The lyric up to a chord is the lyric up to the column where the chord line
/// has it.
pub proof fn the_lyric_before_a_chord_ends_at_its_column(
    chords: Seq<char>,
    lyric: Seq<char>,
    i: int,
    j: int,
)
    requires
        is_chord_at(chords, i, j),
    ensures
        exists|k: int|
            0 <= k < merged(chords, lyric).len() && (#[trigger] merged(chords, lyric)[k]).0 == Some(
                trim_parens(chords.subrange(i, j)),
            ) && lyric_text(merged(chords, lyric).take(k)) == lyric.take(column_within(i, lyric)),
{
    let c = chord_columns(chords, 0);
    every_chord_word_has_its_column(chords, i, j);
    chords_stand_over_their_columns(chords, lyric);
    let e = (i, trim_parens(chords.subrange(i, j)));
    let n = choose|n: int| 0 <= n < c.len() && c[n] == e;
    let m = merged(chords, lyric);
    let first = m.len() - c.len();
    assert(m[first + n].0 == Some(c[n].1));
}

} // verus!
