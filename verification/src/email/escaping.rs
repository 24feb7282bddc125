//! What escaping for HTML keeps: the laws of [`escape_html`].
//!
//! [`escape_html`]: crate::email::render::escape_html

use crate::email::render::{escape, escaped};
use crate::text::{lemma_replace_passes, replace, stands_at, starts_with};
use vstd::prelude::*;

verus! {

/// Escaping goes through a concatenation.
pub proof fn escaping_goes_through_concatenation(a: Seq<char>, b: Seq<char>)
    ensures
        escaped(a + b) == escaped(a) + escaped(b),
    decreases b.len(),
{
    if b.len() == 0 {
        assert(a + b =~= a);
        assert(escaped(a) + escaped(b) =~= escaped(a));
    } else {
        escaping_goes_through_concatenation(a, b.drop_last());
        assert((a + b).drop_last() =~= a + b.drop_last());
        assert((a + b).last() == b.last());
        assert(escaped(a + b) =~= escaped(a) + escaped(b));
    }
}

/// One of the five entities that escaping writes stands in `t` at `i`.
pub open spec fn entity_at(t: Seq<char>, i: int) -> bool {
    ||| stands_at(t, i, "&amp;"@)
    ||| stands_at(t, i, "&lt;"@)
    ||| stands_at(t, i, "&gt;"@)
    ||| stands_at(t, i, "&quot;"@)
    ||| stands_at(t, i, "&#39;"@)
}

proof fn lemma_entity_extends(t: Seq<char>, u: Seq<char>, i: int)
    requires
        entity_at(t, i),
    ensures
        entity_at(t + u, i),
{
    let s = t + u;
    let a = "&amp;"@;
    let b = "&lt;"@;
    let c = "&gt;"@;
    let d = "&quot;"@;
    let e = "&#39;"@;
    if stands_at(t, i, a) {
        assert(s.subrange(i, i + a.len()) =~= t.subrange(i, i + a.len()));
    } else if stands_at(t, i, b) {
        assert(s.subrange(i, i + b.len()) =~= t.subrange(i, i + b.len()));
    } else if stands_at(t, i, c) {
        assert(s.subrange(i, i + c.len()) =~= t.subrange(i, i + c.len()));
    } else if stands_at(t, i, d) {
        assert(s.subrange(i, i + d.len()) =~= t.subrange(i, i + d.len()));
    } else {
        assert(s.subrange(i, i + e.len()) =~= t.subrange(i, i + e.len()));
    }
}

/// Every ampersand of an escaped text begins an entity.
pub proof fn ampersands_begin_entities(s: Seq<char>, i: int)
    requires
        0 <= i < escaped(s).len(),
        escaped(s)[i] == '&',
    ensures
        entity_at(escaped(s), i),
    decreases s.len(),
{
    reveal_strlit("&amp;");
    reveal_strlit("&lt;");
    reveal_strlit("&gt;");
    reveal_strlit("&quot;");
    reveal_strlit("&#39;");
    let a = escaped(s.drop_last());
    let e = escape(s.last());
    if i < a.len() {
        ampersands_begin_entities(s.drop_last(), i);
        lemma_entity_extends(a, e, i);
    } else {
        assert(escaped(s)[i] == e[i - a.len()]);
        assert(i == a.len());
        assert(escaped(s).subrange(i, i + e.len()) =~= e);
    }
}

/// The entities in a text, read as the characters that they stand for, that
/// of the ampersand last.
pub open spec fn unescaped(t: Seq<char>) -> Seq<char> {
    let t = replace(t, "&lt;"@, seq!['<']);
    let t = replace(t, "&gt;"@, seq!['>']);
    let t = replace(t, "&quot;"@, seq!['"']);
    let t = replace(t, "&#39;"@, seq!['\'']);
    replace(t, "&amp;"@, seq!['&'])
}

/// The character that is read at step `k`, counted down to one.
spec fn read_at(k: int) -> char {
    if k == 5 {
        '<'
    } else if k == 4 {
        '>'
    } else if k == 3 {
        '"'
    } else if k == 2 {
        '\''
    } else {
        '&'
    }
}

/// How `c` is written before step `k` of the reading.
spec fn written(c: char, k: int) -> Seq<char> {
    if c == '&' && k >= 1 || c == '\'' && k >= 2 || c == '"' && k >= 3 || c == '>' && k >= 4 || c
        == '<' && k >= 5 {
        escape(c)
    } else {
        seq![c]
    }
}

spec fn all_written(s: Seq<char>, k: int) -> Seq<char>
    decreases s.len(),
{
    if s.len() == 0 {
        seq![]
    } else {
        written(s[0], k) + all_written(s.skip(1), k)
    }
}

proof fn lemma_one_step(s: Seq<char>, k: int)
    requires
        1 <= k <= 5,
    ensures
        replace(all_written(s, k), escape(read_at(k)), seq![read_at(k)]) == all_written(s, k - 1),
    decreases s.len(),
{
    reveal_strlit("&amp;");
    reveal_strlit("&lt;");
    reveal_strlit("&gt;");
    reveal_strlit("&quot;");
    reveal_strlit("&#39;");
    let p = escape(read_at(k));
    let w = seq![read_at(k)];
    if s.len() > 0 {
        let c = s[0];
        let q = written(c, k);
        let y = all_written(s.skip(1), k);
        let t = q + y;
        lemma_one_step(s.skip(1), k);
        if c == read_at(k) {
            assert(t.subrange(0, p.len() as int) =~= p);
            assert(starts_with(t, p));
            assert(t.skip(p.len() as int) =~= y);
        } else {
            assert(written(c, k - 1) == q);
            if q.len() == 1 {
                lemma_replace_passes(q, y, p, w);
            } else {
                if t.len() >= p.len() {
                    assert(t.subrange(0, p.len() as int)[1] == q[1]);
                    assert(!starts_with(t, p));
                }
                lemma_replace_passes(q.skip(1), y, p, w);
                assert(t.skip(1) =~= q.skip(1) + y);
                assert(replace(t, p, w) =~= q + replace(y, p, w));
            }
        }
    }
}

proof fn lemma_first_and_last(s: Seq<char>)
    ensures
        all_written(s, 5) == escaped(s),
        all_written(s, 0) == s,
    decreases s.len(),
{
    if s.len() > 0 {
        let rest = s.skip(1);
        lemma_first_and_last(rest);
        assert(s =~= seq![s[0]] + rest);
        escaping_goes_through_concatenation(seq![s[0]], rest);
        let one = seq![s[0]];
        assert(one.drop_last() =~= seq![]);
        assert(escaped(one.drop_last()) =~= seq![]);
        assert(escaped(one) =~= escape(s[0]));
        assert(written(s[0], 5) == escape(s[0]));
    }
}

/// Reading the entities of an escaped text gives the text back.
pub proof fn escaping_is_undone(s: Seq<char>)
    ensures
        unescaped(escaped(s)) == s,
{
    lemma_first_and_last(s);
    lemma_one_step(s, 5);
    lemma_one_step(s, 4);
    lemma_one_step(s, 3);
    lemma_one_step(s, 2);
    lemma_one_step(s, 1);
}

} // verus!
