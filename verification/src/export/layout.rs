//! Where chords stand above a lyric line.

use crate::export::chords::{bracketed_text, inline_chords, segments, ChordSegment, SegmentView};
use crate::text::{trim, trimmed};
use vstd::prelude::*;

verus! {

/// How wide a segment prints, in nanometres: its chord (0 where it has none)
/// and its text.
#[derive(Debug, Clone, Copy, PartialEq, Eq, Structural)]
pub struct Widths {
    pub chord: u32,
    pub text: u32,
}

/// Where the pieces of a line stand, in nanometres from its start.
pub ghost struct Placing {
    /// The start of each segment.
    pub starts: Seq<int>,
    /// The end of the text so far.
    pub text_end: int,
    /// The end of the last chord, with a space behind it.
    pub chord_end: int,
}

/// Each chord starts where its lyric segment starts, but never overlaps the
/// previous chord.
pub open spec fn place(s: Seq<SegmentView>, w: Seq<Widths>, space: int) -> Placing
    decreases s.len(),
{
    if s.len() == 0 {
        Placing { starts: seq![], text_end: 0, chord_end: 0 }
    } else {
        let n = s.len() - 1;
        let p = place(s.drop_last(), w, space);
        let with_chord = s[n].0 is Some;
        let start = if with_chord && p.text_end < p.chord_end {
            p.chord_end
        } else {
            p.text_end
        };
        Placing {
            starts: p.starts.push(start),
            text_end: start + w[n].text,
            chord_end: if with_chord {
                start + w[n].chord + space
            } else {
                p.chord_end
            },
        }
    }
}

/// The width of the whole line.
pub open spec fn total_width(p: Placing) -> int {
    if p.text_end > p.chord_end {
        p.text_end
    } else {
        p.chord_end
    }
}

/// A line laid out.
#[derive(Debug, Clone, PartialEq)]
pub struct Layout {
    /// The start of each segment, in nanometres.
    pub starts: Vec<u128>,
    /// In nanometres.
    pub width: u128,
}

pub open spec fn starts_of(v: Seq<u128>) -> Seq<int> {
    Seq::new(v.len(), |i: int| v[i] as int)
}

/// Lays a lyric line out: `widths` are those of its segments, and `space` that
/// of a blank behind a chord.
pub fn lay_out(line: &Vec<ChordSegment>, widths: &Vec<Widths>, space: u32) -> (r: Layout)
    requires
        widths@.len() == line@.len(),
    ensures
        starts_of(r.starts@) == place(segments(line@), widths@, space as int).starts,
        r.width == total_width(place(segments(line@), widths@, space as int)),
{
    let ghost all = segments(line@);
    let ghost w = widths@;
    let mut starts: Vec<u128> = Vec::new();
    let mut text_end: u128 = 0;
    let mut chord_end: u128 = 0;
    let mut i: usize = 0;
    assert(all.take(0) =~= seq![]);
    while i < line.len()
        invariant
            all == segments(line@),
            w == widths@,
            w.len() == line@.len(),
            i <= line@.len(),
            text_end <= i * 0x2_0000_0000,
            chord_end <= i * 0x2_0000_0000,
            starts_of(starts@) =~= place(all.take(i as int), w, space as int).starts,
            text_end == place(all.take(i as int), w, space as int).text_end,
            chord_end == place(all.take(i as int), w, space as int).chord_end,
        decreases line@.len() - i,
    {
        proof {
            assert(all.take(i + 1).drop_last() =~= all.take(i as int));
            assert(all.take(i + 1)[i as int] == all[i as int]);
            assert(i * 0x2_0000_0000 <= 0x1_0000_0000_0000_0000 * 0x2_0000_0000);
        }
        let with_chord = line[i].0.is_some();
        let start = if with_chord && text_end < chord_end {
            chord_end
        } else {
            text_end
        };
        let ghost before = starts@;
        starts.push(start);
        assert(starts_of(starts@) =~= starts_of(before).push(start as int));
        text_end = start + widths[i].text as u128;
        if with_chord {
            chord_end = start + widths[i].chord as u128 + space as u128;
        }
        i = i + 1;
    }
    assert(all.take(i as int) =~= all);
    Layout {
        starts,
        width: if text_end > chord_end {
            text_end
        } else {
            chord_end
        },
    }
}

/// Whether any segment has a chord.
pub open spec fn any_chord(s: Seq<SegmentView>) -> bool {
    exists|i: int| 0 <= i < s.len() && (#[trigger] s[i]).0 is Some
}

/// Whether any segment has text that says something.
pub open spec fn any_text(s: Seq<SegmentView>) -> bool {
    exists|i: int| 0 <= i < s.len() && trim((#[trigger] s[i]).1).len() > 0
}

/// Which of its two rows a line needs: the chords above, and the text (always
/// where there is no chord).
pub fn rows_needed(line: &Vec<ChordSegment>) -> (r: (bool, bool))
    ensures
        r.0 == any_chord(segments(line@)),
        r.1 == (any_text(segments(line@)) || !any_chord(segments(line@))),
{
    let ghost all = segments(line@);
    let mut chord = false;
    let mut text = false;
    let mut i: usize = 0;
    while i < line.len()
        invariant
            all == segments(line@),
            i <= line@.len(),
            chord == (exists|j: int| 0 <= j < i && (#[trigger] all[j]).0 is Some),
            text == (exists|j: int| 0 <= j < i && trim((#[trigger] all[j]).1).len() > 0),
        decreases line@.len() - i,
    {
        assert(all[i as int].1 == line@[i as int].1@);
        if line[i].0.is_some() {
            chord = true;
            assert(all[i as int].0 is Some);
        }
        let t = trimmed(line[i].1.as_str());
        if !t.as_str().is_empty() {
            text = true;
            assert(trim(all[i as int].1).len() > 0);
        }
        i = i + 1;
    }
    (chord, text || !chord)
}

/// A line too wide for the page, as text with its chords in brackets.
pub fn wrapped_text(line: &Vec<ChordSegment>) -> (r: String)
    ensures
        r@ == bracketed_text(segments(line@)),
{
    let mut one = inline_chords(line);
    let ghost all = segments(one@);
    let ghost held = one@;
    assert(all.len() == 1);
    match one.pop() {
        Some(s) => {
            assert(s == held[0]);
            assert(all[0].1 == s.1@);
            s.1
        },
        None => String::new(),
    }
}

proof fn lemma_place(s: Seq<SegmentView>, w: Seq<Widths>, space: int)
    requires
        space >= 0,
        w.len() >= s.len(),
    ensures
        place(s, w, space).starts.len() == s.len(),
        place(s, w, space).text_end >= 0,
        place(s, w, space).chord_end >= 0,
        forall|i: int|
            0 <= i < s.len() && s[i].0 is Some ==> #[trigger] place(s, w, space).starts[i]
                + w[i].chord + space <= place(s, w, space).chord_end,
        forall|i: int|
            0 <= i < s.len() ==> #[trigger] place(s, w, space).starts[i] + w[i].text <= place(
                s,
                w,
                space,
            ).text_end,
    decreases s.len(),
{
    if s.len() > 0 {
        let n = s.len() - 1;
        let before = s.drop_last();
        lemma_place(before, w, space);
        let p = place(before, w, space);
        let q = place(s, w, space);
        assert forall|i: int| 0 <= i < s.len() && s[i].0 is Some implies #[trigger] q.starts[i]
            + w[i].chord + space <= q.chord_end by {
            if i < n {
                assert(q.starts[i] == p.starts[i]);
                assert(before[i] == s[i]);
            }
        }
        assert forall|i: int| 0 <= i < s.len() implies #[trigger] q.starts[i] + w[i].text
            <= q.text_end by {
            if i < n {
                assert(q.starts[i] == p.starts[i]);
            }
        }
    }
}

/// No two chords overlap: each ends, with a space behind it, before the next
/// one starts.
pub proof fn chords_never_overlap(s: Seq<SegmentView>, w: Seq<Widths>, space: int, i: int, j: int)
    requires
        space >= 0,
        w.len() >= s.len(),
        0 <= i < j < s.len(),
        s[i].0 is Some,
        s[j].0 is Some,
    ensures
        place(s, w, space).starts[i] + w[i].chord + space <= place(s, w, space).starts[j],
    decreases s.len(),
{
    let before = s.drop_last();
    let p = place(before, w, space);
    let q = place(s, w, space);
    lemma_place(before, w, space);
    assert(before[i] == s[i]);
    if j < s.len() - 1 {
        assert(before[j] == s[j]);
        chords_never_overlap(before, w, space, i, j);
        assert(q.starts[i] == p.starts[i] && q.starts[j] == p.starts[j]);
    } else {
        assert(q.starts[i] == p.starts[i]);
        assert(p.starts[i] + w[i].chord + space <= p.chord_end);
    }
}

} // verus!
