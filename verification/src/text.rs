//! Text: what the string operations of the library mean, over sequences of
//! characters, and the operations themselves.

use vstd::prelude::*;
use vstd::utf8::{encode_utf8, encode_utf8_decode_utf8};

verus! {

/// Appending a character to a `String`. `String::push` adds the character at
/// the end and keeps what stood before it.
pub assume_specification[ String::push ](s: &mut String, c: char)
    ensures
        final(s)@ == old(s)@.push(c),
;

/// Texts with the same UTF-8 hold the same characters.
pub proof fn lemma_same_utf8(a: Seq<char>, b: Seq<char>)
    ensures
        encode_utf8(a) == encode_utf8(b) <==> a == b,
{
    encode_utf8_decode_utf8(a);
    encode_utf8_decode_utf8(b);
}

/// Whether two texts hold the same characters.
pub fn same(a: &str, b: &str) -> (r: bool)
    ensures
        r == (a@ == b@),
{
    proof {
        lemma_same_utf8(a@, b@);
    }
    let x = a.as_bytes();
    let y = b.as_bytes();
    let n = x.len();
    if y.len() != n {
        return false;
    }
    let mut i: usize = 0;
    while i < n
        invariant
            x@ == encode_utf8(a@),
            y@ == encode_utf8(b@),
            n == x@.len(),
            n == y@.len(),
            i <= n,
            forall|j: int| 0 <= j < i ==> #[trigger] x@[j] == y@[j],
        decreases n - i,
    {
        if x[i] != y[i] {
            assert(x@[i as int] != y@[i as int]);
            return false;
        }
        i = i + 1;
    }
    assert(x@ =~= y@);
    true
}

/// Whether two runs of bytes are the same. All of them are looked at, however
/// early the first difference stands: the time that the comparison takes tells
/// nothing of where that is.
pub fn same_in_constant_time(a: &[u8], b: &[u8]) -> (r: bool)
    ensures
        r == (a@ == b@),
{
    let n = a.len();
    if b.len() != n {
        return false;
    }
    let mut difference: u8 = 0;
    let mut i: usize = 0;
    assert(a@.take(0) =~= b@.take(0));
    while i < n
        invariant
            n == a@.len(),
            n == b@.len(),
            i <= n,
            difference == 0 <==> a@.take(i as int) == b@.take(i as int),
        decreases n - i,
    {
        let d = difference;
        let x = a[i];
        let y = b[i];
        assert((d | (x ^ y)) == 0 <==> d == 0 && x == y) by (bit_vector);
        proof {
            assert(a@.take(i + 1) =~= a@.take(i as int).push(x));
            assert(b@.take(i + 1) =~= b@.take(i as int).push(y));
            if a@.take(i + 1) == b@.take(i + 1) {
                assert(a@.take(i + 1).last() == b@.take(i + 1).last());
                assert(a@.take(i + 1).drop_last() =~= a@.take(i as int));
                assert(b@.take(i + 1).drop_last() =~= b@.take(i as int));
            }
        }
        difference = d | (x ^ y);
        i = i + 1;
    }
    assert(a@.take(n as int) =~= a@);
    assert(b@.take(n as int) =~= b@);
    difference == 0
}

// ---------------------------------------------------------------------
// Characters
// ---------------------------------------------------------------------

/// The characters with the Unicode `White_Space` property.
pub open spec fn is_space(c: char) -> bool {
    ||| '\u{9}' <= c <= '\u{D}'
    ||| c == ' '
    ||| c == '\u{85}'
    ||| c == '\u{A0}'
    ||| c == '\u{1680}'
    ||| '\u{2000}' <= c <= '\u{200A}'
    ||| c == '\u{2028}'
    ||| c == '\u{2029}'
    ||| c == '\u{202F}'
    ||| c == '\u{205F}'
    ||| c == '\u{3000}'
}

/// The control characters (Unicode category `Cc`).
pub open spec fn is_control(c: char) -> bool {
    c <= '\u{1F}' || '\u{7F}' <= c <= '\u{9F}'
}

pub open spec fn is_digit(c: char) -> bool {
    '0' <= c <= '9'
}

pub open spec fn is_lower(c: char) -> bool {
    'a' <= c <= 'z'
}

pub open spec fn is_upper(c: char) -> bool {
    'A' <= c <= 'Z'
}

/// ASCII letters and digits.
pub open spec fn is_alnum(c: char) -> bool {
    is_digit(c) || is_lower(c) || is_upper(c)
}

pub fn char_is_space(c: char) -> (r: bool)
    ensures
        r == is_space(c),
{
    ('\u{9}' <= c && c <= '\u{D}') || c == ' ' || c == '\u{85}' || c == '\u{A0}' || c == '\u{1680}' || (
    '\u{2000}' <= c && c <= '\u{200A}') || c == '\u{2028}' || c == '\u{2029}' || c == '\u{202F}' || c
        == '\u{205F}' || c == '\u{3000}'
}

pub fn char_is_control(c: char) -> (r: bool)
    ensures
        r == is_control(c),
{
    c <= '\u{1F}' || ('\u{7F}' <= c && c <= '\u{9F}')
}

pub fn char_is_digit(c: char) -> (r: bool)
    ensures
        r == is_digit(c),
{
    '0' <= c && c <= '9'
}

pub fn char_is_lower(c: char) -> (r: bool)
    ensures
        r == is_lower(c),
{
    'a' <= c && c <= 'z'
}

pub fn char_is_upper(c: char) -> (r: bool)
    ensures
        r == is_upper(c),
{
    'A' <= c && c <= 'Z'
}

pub fn char_is_alnum(c: char) -> (r: bool)
    ensures
        r == is_alnum(c),
{
    char_is_digit(c) || char_is_lower(c) || char_is_upper(c)
}

// ---------------------------------------------------------------------
// Between strings and vectors of characters
// ---------------------------------------------------------------------

/// The characters of `s`, in order.
pub fn chars(s: &str) -> (v: Vec<char>)
    ensures
        v@ == s@,
{
    let mut v: Vec<char> = Vec::new();
    for c in it: s.chars()
        invariant
            v@ =~= s@.take(it.index() as int),
            it.seq() == s@,
    {
        v.push(c);
    }
    v
}

/// The string made of `v[from..to]`.
pub fn piece(v: &Vec<char>, from: usize, to: usize) -> (r: String)
    requires
        from <= to <= v@.len(),
    ensures
        r@ == v@.subrange(from as int, to as int),
{
    let mut r = String::new();
    let mut i: usize = from;
    while i < to
        invariant
            from <= i <= to <= v@.len(),
            r@ =~= v@.subrange(from as int, i as int),
        decreases to - i,
    {
        r.push(v[i]);
        i = i + 1;
    }
    r
}

/// The string made of all of `v`.
pub fn text_of(v: &Vec<char>) -> (r: String)
    ensures
        r@ == v@,
{
    let r = piece(v, 0, v.len());
    assert(v@.subrange(0, v@.len() as int) =~= v@);
    r
}

/// The contents of a vector of strings.
pub open spec fn texts(v: Seq<String>) -> Seq<Seq<char>> {
    Seq::new(v.len(), |i: int| v[i]@)
}

/// What an optional string holds.
pub open spec fn opt_text(o: Option<String>) -> Option<Seq<char>> {
    match o {
        Some(s) => Some(s@),
        None => None,
    }
}

/// What an optional string slice holds.
pub open spec fn opt_str(o: Option<&str>) -> Option<Seq<char>> {
    match o {
        Some(s) => Some(s@),
        None => None,
    }
}

pub proof fn lemma_texts_push(v: Seq<String>, s: String)
    ensures
        texts(v.push(s)) == texts(v).push(s@),
{
    assert(texts(v.push(s)) =~= texts(v).push(s@));
}

pub broadcast proof fn lemma_texts_len(v: Seq<String>)
    ensures
        #[trigger] texts(v).len() == v.len(),
{
}

// ---------------------------------------------------------------------
// Trimming
// ---------------------------------------------------------------------

/// `s` without its leading white space.
pub open spec fn trim_start(s: Seq<char>) -> Seq<char>
    decreases s.len(),
{
    if s.len() > 0 && is_space(s[0]) {
        trim_start(s.skip(1))
    } else {
        s
    }
}

/// `s` without its trailing white space.
pub open spec fn trim_end(s: Seq<char>) -> Seq<char>
    decreases s.len(),
{
    if s.len() > 0 && is_space(s.last()) {
        trim_end(s.drop_last())
    } else {
        s
    }
}

/// `s` without the white space around it.
pub open spec fn trim(s: Seq<char>) -> Seq<char> {
    trim_end(trim_start(s))
}

/// `s` without the `c`s at its end.
pub open spec fn trim_end_char(s: Seq<char>, c: char) -> Seq<char>
    decreases s.len(),
{
    if s.len() > 0 && s.last() == c {
        trim_end_char(s.drop_last(), c)
    } else {
        s
    }
}

/// `s` without the `c`s at its start.
pub open spec fn trim_start_char(s: Seq<char>, c: char) -> Seq<char>
    decreases s.len(),
{
    if s.len() > 0 && s[0] == c {
        trim_start_char(s.skip(1), c)
    } else {
        s
    }
}

/// Where the leading white space of `v[from..to]` ends.
pub fn trim_start_at(v: &Vec<char>, from: usize, to: usize) -> (i: usize)
    requires
        from <= to <= v@.len(),
    ensures
        from <= i <= to,
        trim_start(v@.subrange(from as int, to as int)) == v@.subrange(i as int, to as int),
        i < to ==> !is_space(v@[i as int]),
{
    let mut i: usize = from;
    while i < to && char_is_space(v[i])
        invariant
            from <= i <= to <= v@.len(),
            trim_start(v@.subrange(from as int, to as int)) == trim_start(
                v@.subrange(i as int, to as int),
            ),
        decreases to - i,
    {
        assert(v@.subrange(i as int, to as int).skip(1) =~= v@.subrange(i + 1, to as int));
        i = i + 1;
    }
    i
}

/// Where the trailing white space of `v[from..to]` starts.
pub fn trim_end_at(v: &Vec<char>, from: usize, to: usize) -> (i: usize)
    requires
        from <= to <= v@.len(),
    ensures
        from <= i <= to,
        trim_end(v@.subrange(from as int, to as int)) == v@.subrange(from as int, i as int),
        i > from ==> !is_space(v@[i - 1]),
{
    let mut i: usize = to;
    while i > from && char_is_space(v[i - 1])
        invariant
            from <= i <= to <= v@.len(),
            trim_end(v@.subrange(from as int, to as int)) == trim_end(
                v@.subrange(from as int, i as int),
            ),
        decreases i,
    {
        assert(v@.subrange(from as int, i as int).drop_last() =~= v@.subrange(from as int, i - 1));
        i = i - 1;
    }
    i
}

/// `str::trim`.
pub fn trimmed(s: &str) -> (r: String)
    ensures
        r@ == trim(s@),
{
    let v = chars(s);
    assert(v@.subrange(0, v@.len() as int) =~= v@);
    let a = trim_start_at(&v, 0, v.len());
    let b = trim_end_at(&v, a, v.len());
    piece(&v, a, b)
}

/// `str::trim_end`.
pub fn end_trimmed(s: &str) -> (r: String)
    ensures
        r@ == trim_end(s@),
{
    let v = chars(s);
    assert(v@.subrange(0, v@.len() as int) =~= v@);
    let b = trim_end_at(&v, 0, v.len());
    piece(&v, 0, b)
}

/// `str::trim_end_matches` with one character.
pub fn end_trimmed_of(s: &str, c: char) -> (r: String)
    ensures
        r@ == trim_end_char(s@, c),
{
    let v = chars(s);
    let mut i: usize = v.len();
    assert(v@.subrange(0, i as int) =~= v@);
    while i > 0 && v[i - 1] == c
        invariant
            i <= v@.len(),
            trim_end_char(v@, c) == trim_end_char(v@.subrange(0, i as int), c),
        decreases i,
    {
        assert(v@.subrange(0, i as int).drop_last() =~= v@.subrange(0, i - 1));
        i = i - 1;
    }
    piece(&v, 0, i)
}

/// `str::trim_start_matches` with one character.
pub fn start_trimmed_of(s: &str, c: char) -> (r: String)
    ensures
        r@ == trim_start_char(s@, c),
{
    let v = chars(s);
    let mut i: usize = 0;
    assert(v@.subrange(0, v@.len() as int) =~= v@);
    while i < v.len() && v[i] == c
        invariant
            i <= v@.len(),
            trim_start_char(v@, c) == trim_start_char(v@.subrange(i as int, v@.len() as int), c),
        decreases v@.len() - i,
    {
        assert(v@.subrange(i as int, v@.len() as int).skip(1) =~= v@.subrange(
            i + 1,
            v@.len() as int,
        ));
        i = i + 1;
    }
    piece(&v, i, v.len())
}

// ---------------------------------------------------------------------
// Searching
// ---------------------------------------------------------------------

/// The index of the first `c` in `s`, or the length of `s` when there is none.
pub open spec fn index_of(s: Seq<char>, c: char) -> int
    decreases s.len(),
{
    if s.len() == 0 || s[0] == c {
        0
    } else {
        1 + index_of(s.skip(1), c)
    }
}

/// The index of the last `c` in `s`, or -1 when there is none.
pub open spec fn last_index_of(s: Seq<char>, c: char) -> int
    decreases s.len(),
{
    if s.len() == 0 {
        -1
    } else if s.last() == c {
        s.len() - 1
    } else {
        last_index_of(s.drop_last(), c)
    }
}

/// `p` stands in `s` at index `i`.
pub open spec fn stands_at(s: Seq<char>, i: int, p: Seq<char>) -> bool {
    0 <= i && i + p.len() <= s.len() && s.subrange(i, i + p.len()) == p
}

pub open spec fn starts_with(s: Seq<char>, p: Seq<char>) -> bool {
    stands_at(s, 0, p)
}

pub open spec fn ends_with(s: Seq<char>, p: Seq<char>) -> bool {
    stands_at(s, s.len() - p.len(), p)
}

/// `p` stands somewhere in `s`.
pub open spec fn contains(s: Seq<char>, p: Seq<char>) -> bool {
    exists|i: int| stands_at(s, i, p)
}

pub proof fn lemma_index_of(s: Seq<char>, c: char)
    ensures
        0 <= index_of(s, c) <= s.len(),
        index_of(s, c) < s.len() ==> s[index_of(s, c)] == c,
        forall|i: int| 0 <= i < index_of(s, c) ==> s[i] != c,
        (index_of(s, c) < s.len()) == s.contains(c),
    decreases s.len(),
{
    if s.len() > 0 && s[0] != c {
        lemma_index_of(s.skip(1), c);
        let k = index_of(s.skip(1), c);
        assert forall|i: int| 0 <= i < 1 + k implies s[i] != c by {
            if i > 0 {
                assert(s[i] == s.skip(1)[i - 1]);
            }
        }
        if s.contains(c) {
            let j = choose|j: int| 0 <= j < s.len() && s[j] == c;
            assert(s.skip(1)[j - 1] == c);
        }
    }
}

/// The first `c` of `v[from..to]`, or `to`.
pub fn find_char(v: &Vec<char>, from: usize, to: usize, c: char) -> (i: usize)
    requires
        from <= to <= v@.len(),
    ensures
        from <= i <= to,
        i - from == index_of(v@.subrange(from as int, to as int), c),
        i < to ==> v@[i as int] == c,
        forall|j: int| from <= j < i ==> v@[j] != c,
{
    let mut i: usize = from;
    while i < to && v[i] != c
        invariant
            from <= i <= to <= v@.len(),
            index_of(v@.subrange(from as int, to as int), c) == i - from + index_of(
                v@.subrange(i as int, to as int),
                c,
            ),
            forall|j: int| from <= j < i ==> v@[j] != c,
        decreases to - i,
    {
        assert(v@.subrange(i as int, to as int).skip(1) =~= v@.subrange(i + 1, to as int));
        i = i + 1;
    }
    i
}

/// Whether `p` stands in `v` at `i`.
pub fn matches_at(v: &Vec<char>, i: usize, p: &Vec<char>) -> (r: bool)
    requires
        i <= v@.len(),
    ensures
        r == stands_at(v@, i as int, p@),
{
    let n = v.len();
    if n - i < p.len() {
        return false;
    }
    let mut k: usize = 0;
    while k < p.len()
        invariant
            i + p@.len() <= v@.len() <= usize::MAX,
            k <= p@.len(),
            forall|j: int| 0 <= j < k ==> v@[i + j] == p@[j],
        decreases p@.len() - k,
    {
        if v[i + k] != p[k] {
            assert(v@.subrange(i as int, i + p@.len())[k as int] != p@[k as int]);
            return false;
        }
        k = k + 1;
    }
    assert(v@.subrange(i as int, i + p@.len()) =~= p@);
    true
}

/// `str::starts_with`.
pub fn has_prefix(s: &str, p: &str) -> (r: bool)
    ensures
        r == starts_with(s@, p@),
{
    let v = chars(s);
    let w = chars(p);
    matches_at(&v, 0, &w)
}

/// `str::ends_with`.
pub fn has_suffix(s: &str, p: &str) -> (r: bool)
    ensures
        r == ends_with(s@, p@),
{
    let v = chars(s);
    let w = chars(p);
    if w.len() > v.len() {
        return false;
    }
    matches_at(&v, v.len() - w.len(), &w)
}

/// `str::contains` with a string.
pub fn has(s: &str, p: &str) -> (r: bool)
    ensures
        r == contains(s@, p@),
{
    let v = chars(s);
    let w = chars(p);
    let mut i: usize = 0;
    while i <= v.len()
        invariant
            i <= v@.len() + 1,
            v@ == s@,
            w@ == p@,
            forall|j: int| 0 <= j < i ==> !stands_at(s@, j, p@),
        decreases v@.len() + 1 - i,
    {
        if matches_at(&v, i, &w) {
            return true;
        }
        if i == v.len() {
            assert forall|j: int| !stands_at(s@, j, p@) by {
                if 0 <= j && j <= i {
                }
            }
            return false;
        }
        i = i + 1;
    }
    false
}

/// `str::contains` with a character.
pub fn has_char(s: &str, c: char) -> (r: bool)
    ensures
        r == s@.contains(c),
{
    let v = chars(s);
    let i = find_char(&v, 0, v.len(), c);
    proof {
        assert(v@.subrange(0, v@.len() as int) =~= v@);
        lemma_index_of(s@, c);
    }
    i < v.len()
}

// ---------------------------------------------------------------------
// Splitting and joining
// ---------------------------------------------------------------------

/// The pieces of `s` between the `sep`s; one more piece than `sep`s.
pub open spec fn split(s: Seq<char>, sep: char) -> Seq<Seq<char>>
    decreases s.len(),
{
    proof {
        lemma_index_of(s, sep);
    }
    let i = index_of(s, sep);
    if i == s.len() {
        seq![s]
    } else {
        seq![s.take(i)] + split(s.skip(i + 1), sep)
    }
}

/// The words of `s`: its longest stretches without white space.
pub open spec fn words(s: Seq<char>) -> Seq<Seq<char>>
    decreases s.len(),
{
    proof {
        lemma_trim_start(s);
        lemma_word_len(trim_start(s));
    }
    let t = trim_start(s);
    if t.len() == 0 {
        seq![]
    } else {
        seq![t.take(word_len(t))] + words(t.skip(word_len(t)))
    }
}

/// How many characters stand before the first white space of `s`.
pub open spec fn word_len(s: Seq<char>) -> int
    decreases s.len(),
{
    if s.len() == 0 || is_space(s[0]) {
        0
    } else {
        1 + word_len(s.skip(1))
    }
}

/// The pieces with `sep` between each two of them.
pub open spec fn join(pieces: Seq<Seq<char>>, sep: Seq<char>) -> Seq<char>
    decreases pieces.len(),
{
    if pieces.len() == 0 {
        seq![]
    } else if pieces.len() == 1 {
        pieces[0]
    } else {
        join(pieces.drop_last(), sep) + sep + pieces.last()
    }
}

/// The words of `s` with one blank between each two: no white space at the
/// ends, and none but single blanks inside.
pub open spec fn squeeze(s: Seq<char>) -> Seq<char> {
    join(words(s), seq![' '])
}

/// One line of a text without the `\r` that belongs to its line ending.
pub open spec fn strip_cr(line: Seq<char>) -> Seq<char> {
    if line.len() > 0 && line.last() == '\r' {
        line.drop_last()
    } else {
        line
    }
}

/// The lines of a text, as ended by `\n` or `\r\n`; a line ending at the
/// very end starts no further line.
pub open spec fn lines(s: Seq<char>) -> Seq<Seq<char>> {
    let p = split(s, '\n');
    let ended = p.drop_last().map_values(|l: Seq<char>| strip_cr(l));
    if p.last().len() == 0 {
        ended
    } else {
        ended.push(p.last())
    }
}

pub proof fn lemma_word_len(s: Seq<char>)
    ensures
        0 <= word_len(s) <= s.len(),
        word_len(s) < s.len() ==> is_space(s[word_len(s)]),
        forall|i: int| 0 <= i < word_len(s) ==> !is_space(#[trigger] s[i]),
        s.len() > 0 && !is_space(s[0]) ==> word_len(s) > 0,
    decreases s.len(),
{
    if s.len() > 0 && !is_space(s[0]) {
        lemma_word_len(s.skip(1));
        assert forall|i: int| 0 <= i < word_len(s) implies !is_space(#[trigger] s[i]) by {
            if i > 0 {
                assert(s[i] == s.skip(1)[i - 1]);
            }
        }
    }
}

pub proof fn lemma_trim_start(s: Seq<char>)
    ensures
        trim_start(s).len() <= s.len(),
        trim_start(s) == s.skip(s.len() - trim_start(s).len()),
        trim_start(s).len() > 0 ==> !is_space(trim_start(s)[0]),
    decreases s.len(),
{
    if s.len() > 0 && is_space(s[0]) {
        lemma_trim_start(s.skip(1));
        assert(s.skip(1).skip(s.skip(1).len() - trim_start(s).len()) =~= s.skip(
            s.len() - trim_start(s).len(),
        ));
    } else {
        assert(s.skip(0) =~= s);
    }
}

pub proof fn lemma_trim_end(s: Seq<char>)
    ensures
        trim_end(s).len() <= s.len(),
        trim_end(s) == s.take(trim_end(s).len() as int),
        trim_end(s).len() > 0 ==> !is_space(trim_end(s).last()),
    decreases s.len(),
{
    if s.len() > 0 && is_space(s.last()) {
        lemma_trim_end(s.drop_last());
        assert(s.drop_last().take(trim_end(s).len() as int) =~= s.take(trim_end(s).len() as int));
    } else {
        assert(s.take(s.len() as int) =~= s);
    }
}

/// Trimming what was trimmed changes nothing.
pub proof fn lemma_trim_twice(s: Seq<char>)
    ensures
        trim(trim(s)) == trim(s),
{
    let a = trim_start(s);
    let t = trim_end(a);
    lemma_trim_start(s);
    lemma_trim_end(a);
    if t.len() > 0 {
        assert(t[0] == a[0]);
    }
}

/// There is nothing to trim where there is no white space.
pub proof fn lemma_trim_solid(s: Seq<char>)
    requires
        forall|i: int| 0 <= i < s.len() ==> !is_space(#[trigger] s[i]),
    ensures
        trim(s) == s,
{
    if s.len() > 0 {
        assert(!is_space(s[0]));
        assert(!is_space(s[s.len() - 1]));
    }
}

/// A text has at least one piece.
pub proof fn lemma_split_len(s: Seq<char>, sep: char)
    ensures
        split(s, sep).len() >= 1,
    decreases s.len(),
{
    lemma_index_of(s, sep);
    if index_of(s, sep) < s.len() {
        lemma_split_len(s.skip(index_of(s, sep) + 1), sep);
    }
}

/// `str::split` with one character.
pub fn split_at(s: &str, sep: char) -> (r: Vec<String>)
    ensures
        texts(r@) == split(s@, sep),
        r@.len() >= 1,
{
    let v = chars(s);
    let n = v.len();
    let mut r: Vec<String> = Vec::new();
    let mut from: usize = 0;
    assert(v@.subrange(0, n as int) =~= s@);
    assert(texts(r@) + split(s@, sep) =~= split(s@, sep));
    loop
        invariant_except_break
            texts(r@) + split(v@.subrange(from as int, n as int), sep) == split(s@, sep),
        invariant
            n == v@.len(),
            from <= n,
        ensures
            texts(r@) == split(s@, sep),
            r@.len() >= 1,
        decreases n - from,
    {
        let i = find_char(&v, from, n, sep);
        let ghost rest = v@.subrange(from as int, n as int);
        let ghost before = r@;
        let p = piece(&v, from, i);
        r.push(p);
        proof {
            lemma_index_of(rest, sep);
            lemma_texts_push(before, p);
            assert(p@ =~= rest.take(i - from));
        }
        if i == n {
            assert(p@ =~= rest);
            assert(texts(r@) =~= texts(before) + split(rest, sep));
            break;
        }
        assert(v@.subrange(i + 1, n as int) =~= rest.skip(i - from + 1));
        assert(texts(r@) + split(rest.skip(i - from + 1), sep) =~= texts(before) + split(rest, sep));
        from = i + 1;
    }
    r
}

/// `str::split_whitespace`.
pub fn words_of(s: &str) -> (r: Vec<String>)
    ensures
        texts(r@) == words(s@),
{
    let v = chars(s);
    let n = v.len();
    let mut r: Vec<String> = Vec::new();
    let mut from: usize = 0;
    assert(v@.subrange(0, n as int) =~= s@);
    assert(texts(r@) + words(s@) =~= words(s@));
    loop
        invariant_except_break
            texts(r@) + words(v@.subrange(from as int, n as int)) == words(s@),
        invariant
            n == v@.len(),
            from <= n,
        ensures
            texts(r@) == words(s@),
        decreases n - from,
    {
        let ghost rest = v@.subrange(from as int, n as int);
        let a = trim_start_at(&v, from, n);
        proof {
            lemma_trim_start(rest);
            lemma_word_len(trim_start(rest));
        }
        let ghost t = v@.subrange(a as int, n as int);
        if a == n {
            assert(texts(r@) + words(rest) =~= texts(r@));
            break;
        }
        let mut b: usize = a;
        while b < n && !char_is_space(v[b])
            invariant
                a <= b <= n == v@.len(),
                word_len(v@.subrange(a as int, n as int)) == b - a + word_len(
                    v@.subrange(b as int, n as int),
                ),
            decreases n - b,
        {
            assert(v@.subrange(b as int, n as int).skip(1) =~= v@.subrange(b + 1, n as int));
            b = b + 1;
        }
        let ghost before = r@;
        let p = piece(&v, a, b);
        r.push(p);
        proof {
            lemma_texts_push(before, p);
            assert(p@ =~= t.take(b - a));
            assert(v@.subrange(b as int, n as int) =~= t.skip(b - a));
            assert(texts(r@) + words(t.skip(b - a)) =~= texts(before) + words(rest));
        }
        from = b;
    }
    r
}

/// The strings with `sep` between each two.
pub fn joined(v: &Vec<String>, sep: &str) -> (r: String)
    ensures
        r@ == join(texts(v@), sep@),
{
    let mut r = String::new();
    let mut i: usize = 0;
    assert(texts(v@.take(0)) =~= seq![]);
    while i < v.len()
        invariant
            i <= v@.len(),
            r@ == join(texts(v@.take(i as int)), sep@),
        decreases v@.len() - i,
    {
        let ghost pre = texts(v@.take(i as int));
        let ghost post = texts(v@.take(i + 1));
        if i > 0 {
            r.append(sep);
        }
        r.append(v[i].as_str());
        proof {
            assert(post.drop_last() =~= pre);
            assert(post.last() == v@[i as int]@);
            if i == 0 {
                assert(r@ =~= v@[0]@);
            }
        }
        i = i + 1;
    }
    assert(v@.take(i as int) =~= v@);
    r
}

/// The words of `s` with one blank between each two.
pub fn squeezed(s: &str) -> (r: String)
    ensures
        r@ == squeeze(s@),
{
    let w = words_of(s);
    let r = joined(&w, " ");
    proof {
        reveal_strlit(" ");
        assert(" "@ =~= seq![' ']);
    }
    r
}

/// `str::lines`.
pub fn lines_of(s: &str) -> (r: Vec<String>)
    ensures
        texts(r@) == lines(s@),
{
    let p = split_at(s, '\n');
    let n = p.len() - 1;
    let mut r: Vec<String> = Vec::new();
    let mut i: usize = 0;
    let ghost ended = texts(p@).drop_last().map_values(|l: Seq<char>| strip_cr(l));
    while i < n
        invariant
            n + 1 == p@.len(),
            i <= n,
            ended == texts(p@).drop_last().map_values(|l: Seq<char>| strip_cr(l)),
            texts(r@) =~= ended.take(i as int),
        decreases n - i,
    {
        let line = chars(p[i].as_str());
        let ghost before = r@;
        let cut = if line.len() > 0 && line[line.len() - 1] == '\r' {
            piece(&line, 0, line.len() - 1)
        } else {
            text_of(&line)
        };
        proof {
            if line@.len() > 0 && line@.last() == '\r' {
                assert(cut@ =~= line@.drop_last());
            }
            assert(cut@ == strip_cr(texts(p@).drop_last()[i as int]));
        }
        r.push(cut);
        proof {
            lemma_texts_push(before, cut);
        }
        i = i + 1;
    }
    assert(texts(r@) =~= ended);
    let last = p[n].clone();
    if !last.as_str().is_empty() {
        let ghost before = r@;
        r.push(last);
        proof {
            lemma_texts_push(before, last);
        }
    }
    r
}

// ---------------------------------------------------------------------
// Replacing
// ---------------------------------------------------------------------

/// `s` with every `p`, found from left to right, replaced by `w`.
pub open spec fn replace(s: Seq<char>, p: Seq<char>, w: Seq<char>) -> Seq<char>
    decreases s.len(),
{
    if p.len() == 0 || s.len() < p.len() {
        s
    } else if starts_with(s, p) {
        w + replace(s.skip(p.len() as int), p, w)
    } else {
        seq![s[0]] + replace(s.skip(1), p, w)
    }
}

/// `str::replace` with a pattern that is not empty.
pub fn replaced(s: &str, p: &str, w: &str) -> (r: String)
    requires
        p@.len() > 0,
    ensures
        r@ == replace(s@, p@, w@),
{
    let v = chars(s);
    let q = chars(p);
    let n = v.len();
    let mut r = String::new();
    let mut i: usize = 0;
    assert(v@.subrange(0, n as int) =~= s@);
    assert(r@ + replace(s@, p@, w@) =~= replace(s@, p@, w@));
    while i < n
        invariant
            q@ == p@,
            p@.len() > 0,
            n == v@.len(),
            i <= n,
            r@ + replace(v@.subrange(i as int, n as int), p@, w@) == replace(s@, p@, w@),
        decreases n - i,
    {
        let ghost rest = v@.subrange(i as int, n as int);
        let ghost before = r@;
        if matches_at(&v, i, &q) {
            r.append(w);
            proof {
                assert(v@.subrange(i as int, i + p@.len()) =~= rest.subrange(0, p@.len() as int));
                assert(v@.subrange(i + p@.len(), n as int) =~= rest.skip(p@.len() as int));
                assert(before + w@ + replace(rest.skip(p@.len() as int), p@, w@) =~= before
                    + replace(rest, p@, w@));
            }
            i = i + q.len();
        } else {
            r.push(v[i]);
            proof {
                if starts_with(rest, p@) {
                    assert(v@.subrange(i as int, i + p@.len()) =~= rest.subrange(
                        0,
                        p@.len() as int,
                    ));
                }
                assert(v@.subrange(i + 1, n as int) =~= rest.skip(1));
                if rest.len() < p@.len() {
                    assert(rest.skip(1).len() < p@.len());
                    assert(before.push(rest[0]) + rest.skip(1) =~= before + rest);
                } else {
                    assert(before.push(rest[0]) + replace(rest.skip(1), p@, w@) =~= before
                        + replace(rest, p@, w@));
                }
            }
            i = i + 1;
        }
    }
    assert(r@ + replace(v@.subrange(n as int, n as int), p@, w@) =~= r@);
    r
}

/// The first `n` characters of `s`, or all of it.
pub open spec fn cut(s: Seq<char>, n: int) -> Seq<char> {
    if s.len() > n {
        s.take(n)
    } else {
        s
    }
}

/// The first `n` characters of `s`, or all of it.
pub fn cut_to(s: &str, n: usize) -> (r: String)
    ensures
        r@ == cut(s@, n as int),
{
    let v = chars(s);
    if v.len() > n {
        let r = piece(&v, 0, n);
        assert(r@ =~= s@.take(n as int));
        r
    } else {
        s.to_string()
    }
}

/// How often `c` occurs in `s`.
pub open spec fn occurrences(s: Seq<char>, c: char) -> nat
    decreases s.len(),
{
    if s.len() == 0 {
        0
    } else {
        occurrences(s.drop_last(), c) + if s.last() == c {
            1nat
        } else {
            0nat
        }
    }
}

/// How often `c` occurs among the first `to` characters.
pub fn count_char(v: &Vec<char>, to: usize, c: char) -> (n: usize)
    requires
        to <= v@.len(),
    ensures
        n == occurrences(v@.take(to as int), c),
        n <= to,
{
    let mut n: usize = 0;
    let mut i: usize = 0;
    while i < to
        invariant
            i <= to <= v@.len(),
            n <= i,
            n == occurrences(v@.take(i as int), c),
        decreases to - i,
    {
        assert(v@.take(i + 1).drop_last() =~= v@.take(i as int));
        assert(v@.take(i + 1).last() == v@[i as int]);
        if v[i] == c {
            n = n + 1;
        }
        i = i + 1;
    }
    n
}

// ---------------------------------------------------------------------
// Letter case
// ---------------------------------------------------------------------

pub open spec fn lower(c: char) -> char {
    if is_upper(c) {
        (c as u8 + 32) as char
    } else {
        c
    }
}

pub open spec fn upper(c: char) -> char {
    if is_lower(c) {
        (c as u8 - 32) as char
    } else {
        c
    }
}

/// `s` with its ASCII letters in lower case.
pub open spec fn ascii_lower(s: Seq<char>) -> Seq<char> {
    Seq::new(s.len(), |i: int| lower(s[i]))
}

/// `s` with its ASCII letters in upper case.
pub open spec fn ascii_upper(s: Seq<char>) -> Seq<char> {
    Seq::new(s.len(), |i: int| upper(s[i]))
}

pub fn char_lower(c: char) -> (r: char)
    ensures
        r == lower(c),
{
    if char_is_upper(c) {
        (c as u8 + 32) as char
    } else {
        c
    }
}

pub fn char_upper(c: char) -> (r: char)
    ensures
        r == upper(c),
{
    if char_is_lower(c) {
        (c as u8 - 32) as char
    } else {
        c
    }
}

pub open spec fn is_ascii_text(s: Seq<char>) -> bool {
    forall|i: int| 0 <= i < s.len() ==> #[trigger] s[i] <= '\u{7F}'
}

/// What `str::to_lowercase` makes of a text that is not all ASCII.
pub uninterp spec fn unicode_lowercase(s: Seq<char>) -> Seq<char>;

/// What `str::to_uppercase` makes of a text that is not all ASCII.
pub uninterp spec fn unicode_uppercase(s: Seq<char>) -> Seq<char>;

/// What `char::is_alphanumeric` says of a character outside ASCII.
pub uninterp spec fn unicode_alphanumeric(c: char) -> bool;

/// `s` in lower case.
pub open spec fn lower_case(s: Seq<char>) -> Seq<char> {
    if is_ascii_text(s) {
        ascii_lower(s)
    } else {
        unicode_lowercase(s)
    }
}

/// `s` in upper case.
pub open spec fn upper_case(s: Seq<char>) -> Seq<char> {
    if is_ascii_text(s) {
        ascii_upper(s)
    } else {
        unicode_uppercase(s)
    }
}

/// A letter or a number, of any script.
pub open spec fn alphanumeric(c: char) -> bool {
    if c <= '\u{7F}' {
        is_alnum(c)
    } else {
        unicode_alphanumeric(c)
    }
}

/// `str::to_lowercase`: the text in lower case, by the rules of Unicode. ASCII
/// text goes letter by letter; of any other text the result is a function of
/// the text.
#[verifier::external_body]
pub(crate) fn in_lower_case(s: &str) -> (r: String)
    ensures
        is_ascii_text(s@) ==> r@ == ascii_lower(s@),
        !is_ascii_text(s@) ==> r@ == unicode_lowercase(s@),
{
    s.to_lowercase()
}

/// `str::to_uppercase`: the text in upper case, by the rules of Unicode. ASCII
/// text goes letter by letter; of any other text the result is a function of
/// the text.
#[verifier::external_body]
pub(crate) fn in_upper_case(s: &str) -> (r: String)
    ensures
        is_ascii_text(s@) ==> r@ == ascii_upper(s@),
        !is_ascii_text(s@) ==> r@ == unicode_uppercase(s@),
{
    s.to_uppercase()
}

/// `char::is_alphanumeric`: whether the character is a letter or a number of
/// any script. In ASCII these are the letters and the digits; of any other
/// character the answer is a function of the character.
#[verifier::external_body]
pub(crate) fn char_is_alphanumeric(c: char) -> (r: bool)
    ensures
        c <= '\u{7F}' ==> r == is_alnum(c),
        c > '\u{7F}' ==> r == unicode_alphanumeric(c),
{
    c.is_alphanumeric()
}

/// `str::to_ascii_lowercase`.
pub fn lowered(s: &str) -> (r: String)
    ensures
        r@ == ascii_lower(s@),
{
    let v = chars(s);
    let mut r = String::new();
    let mut i: usize = 0;
    while i < v.len()
        invariant
            i <= v@.len(),
            r@ =~= ascii_lower(v@).take(i as int),
        decreases v@.len() - i,
    {
        r.push(char_lower(v[i]));
        i = i + 1;
    }
    assert(r@ =~= ascii_lower(s@));
    r
}

/// `str::to_ascii_uppercase`.
pub fn uppered(s: &str) -> (r: String)
    ensures
        r@ == ascii_upper(s@),
{
    let v = chars(s);
    let mut r = String::new();
    let mut i: usize = 0;
    while i < v.len()
        invariant
            i <= v@.len(),
            r@ =~= ascii_upper(v@).take(i as int),
        decreases v@.len() - i,
    {
        r.push(char_upper(v[i]));
        i = i + 1;
    }
    assert(r@ =~= ascii_upper(s@));
    r
}

// ---------------------------------------------------------------------
// Numbers
// ---------------------------------------------------------------------

pub open spec fn digit(d: nat) -> char {
    (('0' as u8) + d) as char
}

/// The decimal digits of `n`, without leading zeros.
pub open spec fn decimal(n: nat) -> Seq<char>
    decreases n,
{
    if n < 10 {
        seq![digit(n)]
    } else {
        decimal(n / 10).push(digit(n % 10))
    }
}

/// The decimal writing of an integer.
pub open spec fn number(n: int) -> Seq<char> {
    if n < 0 {
        seq!['-'] + decimal((-n) as nat)
    } else {
        decimal(n as nat)
    }
}

/// At least two decimal digits.
pub open spec fn two_digits(n: nat) -> Seq<char> {
    if n < 10 {
        seq!['0'] + decimal(n)
    } else {
        decimal(n)
    }
}

/// The value of the decimal digits of `s`.
pub open spec fn digits_value(s: Seq<char>) -> nat
    decreases s.len(),
{
    if s.len() == 0 {
        0
    } else {
        (digits_value(s.drop_last()) * 10 + (s.last() as int - '0' as int)) as nat
    }
}

pub open spec fn all_digits(s: Seq<char>) -> bool {
    forall|i: int| 0 <= i < s.len() ==> is_digit(#[trigger] s[i])
}

pub fn decimal_of(n: u64) -> (r: String)
    ensures
        r@ == decimal(n as nat),
{
    let mut digits: Vec<char> = Vec::new();
    let mut m: u64 = n;
    // the digits of `n` below those of `m`, last one first
    loop
        invariant_except_break
            decimal(n as nat) == decimal(m as nat) + digits@.reverse(),
        ensures
            decimal(n as nat) == digits@.reverse(),
        decreases m,
    {
        let d = (m % 10) as u8;
        let c = (48 + d) as char;
        let ghost before = digits@;
        digits.push(c);
        proof {
            assert(c == digit((m % 10) as nat));
            assert(digits@.reverse() =~= seq![c] + before.reverse());
        }
        if m < 10 {
            assert(decimal(m as nat) + before.reverse() =~= digits@.reverse());
            break;
        }
        proof {
            assert(decimal(m as nat) =~= decimal((m / 10) as nat).push(c));
            assert(decimal((m / 10) as nat).push(c) + before.reverse() =~= decimal((m / 10) as nat)
                + digits@.reverse());
        }
        m = m / 10;
    }
    let mut r = String::new();
    let mut i: usize = digits.len();
    assert(digits@.skip(i as int).reverse() =~= seq![]);
    while i > 0
        invariant
            i <= digits@.len(),
            r@ =~= digits@.skip(i as int).reverse(),
        decreases i,
    {
        i = i - 1;
        r.push(digits[i]);
    }
    assert(digits@.skip(0) =~= digits@);
    r
}

pub fn number_of(n: i64) -> (r: String)
    ensures
        r@ == number(n as int),
{
    if n < 0 {
        let mut r = String::new();
        r.push('-');
        let m: u64 = if n == i64::MIN {
            9_223_372_036_854_775_808
        } else {
            (-n) as u64
        };
        r.append(decimal_of(m).as_str());
        assert(r@ =~= number(n as int));
        r
    } else {
        decimal_of(n as u64)
    }
}

pub fn two_digits_of(n: u64) -> (r: String)
    ensures
        r@ == two_digits(n as nat),
{
    if n < 10 {
        let mut r = String::new();
        r.push('0');
        r.append(decimal_of(n).as_str());
        assert(r@ =~= two_digits(n as nat));
        r
    } else {
        decimal_of(n)
    }
}

/// Whether every character of `s` is a decimal digit.
pub fn only_digits(s: &str) -> (r: bool)
    ensures
        r == all_digits(s@),
{
    let v = chars(s);
    let mut i: usize = 0;
    while i < v.len()
        invariant
            v@ == s@,
            i <= v@.len(),
            forall|j: int| 0 <= j < i ==> is_digit(#[trigger] s@[j]),
        decreases v@.len() - i,
    {
        if !char_is_digit(v[i]) {
            assert(!is_digit(s@[i as int]));
            return false;
        }
        i = i + 1;
    }
    true
}

// ---------------------------------------------------------------------
// Searching and splitting by a string
// ---------------------------------------------------------------------

/// The index of the first `p` (not empty) in `s`, or the length of `s` when
/// there is none.
pub open spec fn index_of_text(s: Seq<char>, p: Seq<char>) -> int
    decreases s.len(),
{
    if s.len() < p.len() || s.len() == 0 {
        s.len() as int
    } else if starts_with(s, p) {
        0
    } else {
        1 + index_of_text(s.skip(1), p)
    }
}

/// The pieces of `s` between the `p`s, found from left to right.
pub open spec fn split_by(s: Seq<char>, p: Seq<char>) -> Seq<Seq<char>>
    decreases s.len(),
{
    proof {
        lemma_index_of_text(s, p);
    }
    let i = index_of_text(s, p);
    if i == s.len() || p.len() == 0 {
        seq![s]
    } else {
        seq![s.take(i)] + split_by(s.skip(i + p.len()), p)
    }
}

pub proof fn lemma_index_of_text(s: Seq<char>, p: Seq<char>)
    ensures
        0 <= index_of_text(s, p) <= s.len(),
        index_of_text(s, p) < s.len() ==> stands_at(s, index_of_text(s, p), p),
        forall|i: int|
            0 <= i < index_of_text(s, p) && p.len() > 0 ==> !(#[trigger] stands_at(s, i, p)),
    decreases s.len(),
{
    if s.len() >= p.len() && s.len() > 0 && !starts_with(s, p) {
        lemma_index_of_text(s.skip(1), p);
        let k = index_of_text(s.skip(1), p);
        if k < s.skip(1).len() {
            assert(s.skip(1).subrange(k, k + p.len()) =~= s.subrange(k + 1, k + 1 + p.len()));
        }
        assert forall|i: int| 0 <= i < 1 + k && p.len() > 0 implies !(#[trigger] stands_at(s, i, p)) by {
            if i > 0 && stands_at(s, i, p) {
                assert(s.skip(1).subrange(i - 1, i - 1 + p.len()) =~= s.subrange(i, i + p.len()));
                assert(stands_at(s.skip(1), i - 1, p));
            }
        }
    }
}

/// The first `p` of `v[from..]`, or the length of `v`.
pub fn find_text(v: &Vec<char>, from: usize, p: &Vec<char>) -> (i: usize)
    requires
        from <= v@.len(),
        p@.len() > 0,
    ensures
        from <= i <= v@.len(),
        i - from == index_of_text(v@.skip(from as int), p@),
        i < v@.len() ==> i + p@.len() <= v@.len(),
{
    let mut i: usize = from;
    let n = v.len();
    while i < n && n - i >= p.len()
        invariant
            n == v@.len(),
            from <= i <= n,
            p@.len() > 0,
            index_of_text(v@.skip(from as int), p@) == i - from + index_of_text(
                v@.skip(i as int),
                p@,
            ),
        decreases n - i,
    {
        let ghost rest = v@.skip(i as int);
        proof {
            assert(rest.skip(1) =~= v@.skip(i + 1));
        }
        if matches_at(v, i, p) {
            assert(v@.subrange(i as int, i + p@.len()) =~= rest.subrange(0, p@.len() as int));
            return i;
        }
        proof {
            if starts_with(rest, p@) {
                assert(v@.subrange(i as int, i + p@.len()) =~= rest.subrange(0, p@.len() as int));
            }
        }
        i = i + 1;
    }
    n
}

/// `str::split` with a string that is not empty.
pub fn pieces_by(s: &str, p: &str) -> (r: Vec<String>)
    requires
        p@.len() > 0,
    ensures
        texts(r@) == split_by(s@, p@),
        r@.len() >= 1,
{
    let v = chars(s);
    let q = chars(p);
    let n = v.len();
    let mut r: Vec<String> = Vec::new();
    let mut from: usize = 0;
    assert(v@.skip(0) =~= s@);
    assert(texts(r@) + split_by(s@, p@) =~= split_by(s@, p@));
    loop
        invariant_except_break
            texts(r@) + split_by(v@.skip(from as int), p@) == split_by(s@, p@),
        invariant
            n == v@.len(),
            q@ == p@,
            p@.len() > 0,
            from <= n,
        ensures
            texts(r@) == split_by(s@, p@),
            r@.len() >= 1,
        decreases n - from,
    {
        let i = find_text(&v, from, &q);
        let ghost rest = v@.skip(from as int);
        let ghost before = r@;
        let t = piece(&v, from, i);
        r.push(t);
        proof {
            lemma_index_of_text(rest, p@);
            lemma_texts_push(before, t);
            assert(t@ =~= rest.take(i - from));
        }
        if i == n {
            assert(t@ =~= rest);
            assert(texts(r@) =~= texts(before) + split_by(rest, p@));
            break;
        }
        assert(v@.skip(i + p@.len()) =~= rest.skip(i - from + p@.len()));
        assert(texts(r@) + split_by(rest.skip(i - from + p@.len()), p@) =~= texts(before)
            + split_by(rest, p@));
        from = i + q.len();
    }
    r
}

// ---------------------------------------------------------------------
// Optional strings and short lists
// ---------------------------------------------------------------------

/// `Option::as_deref`.
pub fn slice_of(o: &Option<String>) -> (r: Option<&str>)
    ensures
        opt_str(r) == opt_text(*o),
        r is Some == o is Some,
{
    match o {
        Some(s) => Some(s.as_str()),
        None => None,
    }
}

/// An equal optional string.
pub fn copy_of(o: &Option<String>) -> (r: Option<String>)
    ensures
        r == *o,
{
    match o {
        Some(s) => Some(s.clone()),
        None => None,
    }
}

/// Equal strings in the same order.
pub fn copies_of(v: &Vec<String>) -> (r: Vec<String>)
    ensures
        r@ == v@,
        texts(r@) == texts(v@),
{
    let mut r: Vec<String> = Vec::new();
    let mut i: usize = 0;
    while i < v.len()
        invariant
            i <= v@.len(),
            r@ =~= v@.take(i as int),
        decreases v@.len() - i,
    {
        r.push(v[i].clone());
        i = i + 1;
    }
    assert(r@ =~= v@);
    r
}

pub fn list1(a: String) -> (r: Vec<String>)
    ensures
        texts(r@) == seq![a@],
{
    let mut r: Vec<String> = Vec::new();
    r.push(a);
    assert(texts(r@) =~= seq![a@]);
    r
}

pub fn list2(a: String, b: String) -> (r: Vec<String>)
    ensures
        texts(r@) == seq![a@, b@],
{
    let mut r: Vec<String> = Vec::new();
    r.push(a);
    r.push(b);
    assert(texts(r@) =~= seq![a@, b@]);
    r
}

pub fn list3(a: String, b: String, c: String) -> (r: Vec<String>)
    ensures
        texts(r@) == seq![a@, b@, c@],
{
    let mut r: Vec<String> = Vec::new();
    r.push(a);
    r.push(b);
    r.push(c);
    assert(texts(r@) =~= seq![a@, b@, c@]);
    r
}

pub fn list4(a: String, b: String, c: String, d: String) -> (r: Vec<String>)
    ensures
        texts(r@) == seq![a@, b@, c@, d@],
{
    let mut r: Vec<String> = Vec::new();
    r.push(a);
    r.push(b);
    r.push(c);
    r.push(d);
    assert(texts(r@) =~= seq![a@, b@, c@, d@]);
    r
}

// ---------------------------------------------------------------------
// What splitting and joining undo
// ---------------------------------------------------------------------

/// `b` behind a separator is one more piece.
pub proof fn lemma_split_append(a: Seq<char>, b: Seq<char>, sep: char)
    requires
        !b.contains(sep),
    ensures
        split(a + seq![sep] + b, sep) == split(a, sep).push(b),
    decreases a.len(),
{
    let s = a + seq![sep] + b;
    lemma_index_of(a, sep);
    lemma_index_of(s, sep);
    lemma_index_of(b, sep);
    let i = index_of(a, sep);
    let k = index_of(s, sep);
    assert(s[a.len() as int] == sep);
    if i < a.len() {
        assert(s[i] == sep);
        assert(k == i) by {
            if k < i {
                assert(s[k] == a[k]);
            }
        }
        assert(s.take(i) =~= a.take(i));
        assert(s.skip(i + 1) =~= a.skip(i + 1) + seq![sep] + b);
        lemma_split_append(a.skip(i + 1), b, sep);
        assert(split(s, sep) =~= split(a, sep).push(b));
    } else {
        assert(k == a.len()) by {
            if k < a.len() {
                assert(a[k] == s[k]);
            }
        }
        assert(s.take(k) =~= a);
        assert(s.skip(k + 1) =~= b);
        assert(split(b, sep) =~= seq![b]);
        assert(split(s, sep) =~= seq![a].push(b));
    }
}

/// Two texts with a separator between them have the pieces of both.
pub proof fn lemma_split_both(a: Seq<char>, b: Seq<char>, sep: char)
    ensures
        split(a + seq![sep] + b, sep) == split(a, sep) + split(b, sep),
    decreases a.len(),
{
    let s = a + seq![sep] + b;
    lemma_index_of(a, sep);
    lemma_index_of(s, sep);
    let i = index_of(a, sep);
    let k = index_of(s, sep);
    assert(s[a.len() as int] == sep);
    if i < a.len() {
        assert(s[i] == sep);
        assert(k == i) by {
            if k < i {
                assert(s[k] == a[k]);
            }
        }
        assert(s.take(i) =~= a.take(i));
        assert(s.skip(i + 1) =~= a.skip(i + 1) + seq![sep] + b);
        lemma_split_both(a.skip(i + 1), b, sep);
        assert(split(s, sep) =~= split(a, sep) + split(b, sep));
    } else {
        assert(k == a.len()) by {
            if k < a.len() {
                assert(a[k] == s[k]);
            }
        }
        assert(s.take(k) =~= a);
        assert(s.skip(k + 1) =~= b);
        assert(split(s, sep) =~= seq![a] + split(b, sep));
    }
}

/// One more piece behind others.
pub proof fn lemma_join_push(v: Seq<Seq<char>>, p: Seq<char>, sep: Seq<char>)
    ensures
        join(v.push(p), sep) == if v.len() == 0 {
            p
        } else {
            join(v, sep) + sep + p
        },
{
    assert(v.push(p).drop_last() =~= v);
}

/// Pieces that are joined in two parts.
pub proof fn lemma_join_both(a: Seq<Seq<char>>, b: Seq<Seq<char>>, sep: Seq<char>)
    requires
        a.len() > 0,
        b.len() > 0,
    ensures
        join(a + b, sep) == join(a, sep) + sep + join(b, sep),
    decreases b.len(),
{
    let front = b.drop_last();
    assert((a + b).drop_last() =~= a + front);
    assert((a + b).last() == b.last());
    if front.len() == 0 {
        assert(a + front =~= a);
    } else {
        lemma_join_both(a, front, sep);
        assert(join(a + b, sep) =~= join(a, sep) + sep + join(b, sep));
    }
}

/// Pieces that were joined come apart again.
pub proof fn lemma_split_join(v: Seq<Seq<char>>, sep: char)
    requires
        v.len() > 0,
        forall|i: int| 0 <= i < v.len() ==> !(#[trigger] v[i]).contains(sep),
    ensures
        split(join(v, seq![sep]), sep) == v,
    decreases v.len(),
{
    if v.len() == 1 {
        lemma_index_of(v[0], sep);
        assert(split(v[0], sep) =~= v);
    } else {
        lemma_split_join(v.drop_last(), sep);
        lemma_split_append(join(v.drop_last(), seq![sep]), v.last(), sep);
        assert(v.drop_last().push(v.last()) =~= v);
    }
}

/// No piece holds the separator.
pub proof fn lemma_pieces(s: Seq<char>, sep: char)
    ensures
        forall|i: int| 0 <= i < split(s, sep).len() ==> !(#[trigger] split(s, sep)[i]).contains(sep),
    decreases s.len(),
{
    lemma_index_of(s, sep);
    let k = index_of(s, sep);
    if k < s.len() {
        lemma_pieces(s.skip(k + 1), sep);
        assert forall|i: int| 0 <= i < split(s, sep).len() implies !(#[trigger] split(
            s,
            sep,
        )[i]).contains(sep) by {
            if i > 0 {
                assert(split(s, sep)[i] == split(s.skip(k + 1), sep)[i - 1]);
            } else {
                assert(split(s, sep)[0] =~= s.take(k));
            }
        }
    }
}

/// No line holds a line feed.
pub proof fn lemma_lines(s: Seq<char>)
    ensures
        forall|i: int| 0 <= i < lines(s).len() ==> !(#[trigger] lines(s)[i]).contains('\n'),
{
    lemma_pieces(s, '\n');
    lemma_split_len(s, '\n');
    let p = split(s, '\n');
    assert forall|i: int| 0 <= i < lines(s).len() implies !(#[trigger] lines(s)[i]).contains(
        '\n',
    ) by {
        let l = lines(s)[i];
        assert(!p[i].contains('\n'));
        if l.contains('\n') {
            let j = choose|j: int| 0 <= j < l.len() && l[j] == '\n';
            assert(p[i][j] == '\n');
        }
    }
}

/// A joined text holds nothing but its pieces and what stands between them.
pub proof fn lemma_join_holds(v: Seq<Seq<char>>, sep: Seq<char>, fine: spec_fn(char) -> bool)
    requires
        forall|i: int, j: int|
            0 <= i < v.len() && 0 <= j < v[i].len() ==> fine(#[trigger] v[i][j]),
        forall|j: int| 0 <= j < sep.len() ==> fine(#[trigger] sep[j]),
    ensures
        forall|k: int| 0 <= k < join(v, sep).len() ==> fine(#[trigger] join(v, sep)[k]),
    decreases v.len(),
{
    if v.len() > 1 {
        lemma_join_holds(v.drop_last(), sep, fine);
        let a = join(v.drop_last(), sep);
        assert forall|k: int| 0 <= k < join(v, sep).len() implies fine(
            #[trigger] join(v, sep)[k],
        ) by {
            if k < a.len() {
                assert(join(v, sep)[k] == a[k]);
            } else if k < a.len() + sep.len() {
                assert(join(v, sep)[k] == sep[k - a.len()]);
            } else {
                assert(join(v, sep)[k] == v[v.len() - 1][k - a.len() - sep.len()]);
            }
        }
    } else if v.len() == 1 {
        assert forall|k: int| 0 <= k < join(v, sep).len() implies fine(
            #[trigger] join(v, sep)[k],
        ) by {
            assert(join(v, sep)[k] == v[0][k]);
        }
    }
}

/// The words of a text hold nothing but its characters.
pub proof fn lemma_words_hold(s: Seq<char>, fine: spec_fn(char) -> bool)
    requires
        forall|i: int| 0 <= i < s.len() ==> fine(#[trigger] s[i]),
    ensures
        forall|i: int, j: int|
            0 <= i < words(s).len() && 0 <= j < words(s)[i].len() ==> fine(
                #[trigger] words(s)[i][j],
            ),
    decreases s.len(),
{
    lemma_trim_start(s);
    let t = trim_start(s);
    lemma_word_len(t);
    let n = word_len(t);
    let d = s.len() - t.len();
    if t.len() > 0 {
        let rest = t.skip(n);
        assert forall|i: int| 0 <= i < rest.len() implies fine(#[trigger] rest[i]) by {
            assert(rest[i] == s[d + n + i]);
        }
        lemma_words_hold(rest, fine);
        assert forall|i: int, j: int|
            0 <= i < words(s).len() && 0 <= j < words(s)[i].len() implies fine(
            #[trigger] words(s)[i][j],
        ) by {
            if i == 0 {
                assert(words(s)[0] == t.take(n));
                assert(words(s)[0][j] == s[d + j]);
            } else {
                assert(words(s)[i] == words(rest)[i - 1]);
                assert(fine(words(rest)[i - 1][j]));
            }
        }
    }
}

/// Squeezing a text adds nothing but blanks.
pub proof fn lemma_squeeze_holds(s: Seq<char>, fine: spec_fn(char) -> bool)
    requires
        forall|i: int| 0 <= i < s.len() ==> fine(#[trigger] s[i]),
        fine(' '),
    ensures
        forall|k: int| 0 <= k < squeeze(s).len() ==> fine(#[trigger] squeeze(s)[k]),
{
    lemma_words_hold(s, fine);
    lemma_join_holds(words(s), seq![' '], fine);
}

/// Replacing a character in two texts, one behind the other.
pub proof fn lemma_replace_append(x: Seq<char>, y: Seq<char>, c: char, w: Seq<char>)
    ensures
        replace(x + y, seq![c], w) == replace(x, seq![c], w) + replace(y, seq![c], w),
    decreases x.len(),
{
    let p = seq![c];
    if x.len() == 0 {
        assert(x + y =~= y);
        assert(replace(x, p, w) + replace(y, p, w) =~= replace(y, p, w));
    } else {
        let s = x + y;
        lemma_replace_append(x.skip(1), y, c, w);
        assert(s.skip(1) =~= x.skip(1) + y);
        if x[0] == c {
            assert(s.subrange(0, 1) =~= p);
            assert(x.subrange(0, 1) =~= p);
            assert(replace(s, p, w) =~= replace(x, p, w) + replace(y, p, w));
        } else {
            assert(s.subrange(0, 1)[0] != c);
            assert(x.subrange(0, 1)[0] != c);
            assert(replace(s, p, w) =~= replace(x, p, w) + replace(y, p, w));
        }
    }
}

/// Replacing passes over what can't start the pattern.
pub proof fn lemma_replace_passes(q: Seq<char>, y: Seq<char>, p: Seq<char>, w: Seq<char>)
    requires
        p.len() > 0,
        forall|i: int| 0 <= i < q.len() ==> #[trigger] q[i] != p[0],
    ensures
        replace(q + y, p, w) == q + replace(y, p, w),
    decreases q.len(),
{
    let s = q + y;
    if q.len() == 0 {
        assert(s =~= y);
        assert(q + replace(y, p, w) =~= replace(y, p, w));
    } else {
        lemma_replace_passes(q.skip(1), y, p, w);
        assert(s.skip(1) =~= q.skip(1) + y);
        if s.len() >= p.len() {
            assert(s.subrange(0, p.len() as int)[0] == q[0]);
            assert(replace(s, p, w) =~= q + replace(y, p, w));
        } else {
            assert(replace(y, p, w) == y);
        }
    }
}

/// Replacing a character in a text that is one character.
pub proof fn lemma_replace_one(a: char, c: char, w: Seq<char>)
    ensures
        replace(seq![a], seq![c], w) == if a == c {
            w
        } else {
            seq![a]
        },
{
    let s = seq![a];
    let p = seq![c];
    assert(s.skip(1) =~= seq![]);
    if a == c {
        assert(s.subrange(0, 1) =~= p);
        assert(w + replace(s.skip(1), p, w) =~= w);
    } else {
        assert(s.subrange(0, 1)[0] != c);
        assert(seq![s[0]] + replace(s.skip(1), p, w) =~= s);
    }
}

/// A word is its own squeezing.
pub proof fn lemma_squeeze_solid(s: Seq<char>)
    requires
        s.len() > 0,
        forall|i: int| 0 <= i < s.len() ==> !is_space(#[trigger] s[i]),
    ensures
        squeeze(s) == s,
{
    assert(!is_space(s[0]));
    assert(trim_start(s) == s);
    lemma_word_len(s);
    let n = word_len(s);
    if n < s.len() {
        assert(!is_space(s[n]));
    }
    assert(s.take(n) =~= s);
    assert(s.skip(n) =~= seq![]);
    assert(words(s.skip(n)) =~= seq![]);
    assert(words(s) =~= seq![s]);
}

/// A blank in front does not show in a squeezed text.
pub proof fn lemma_squeeze_blank(s: Seq<char>)
    ensures
        squeeze(seq![' '] + s) == squeeze(s),
{
    let t = seq![' '] + s;
    assert(t.skip(1) =~= s);
    assert(trim_start(t) == trim_start(s));
}

/// Decimal digits are read back.
pub proof fn lemma_decimal(n: nat)
    ensures
        decimal(n).len() > 0,
        all_digits(decimal(n)),
        digits_value(decimal(n)) == n,
        n < 10 ==> decimal(n).len() == 1,
        10 <= n < 100 ==> decimal(n).len() == 2,
        100 <= n < 1_000 ==> decimal(n).len() == 3,
    decreases n,
{
    if n < 10 {
        let s = seq![digit(n)];
        assert(s.drop_last() =~= seq![]);
        assert(digits_value(s.drop_last()) == 0);
        assert(s.last() == digit(n));
    } else {
        lemma_decimal(n / 10);
        let s = decimal(n / 10);
        assert(s.push(digit(n % 10)).drop_last() =~= s);
        assert forall|i: int| 0 <= i < decimal(n).len() implies is_digit(
            #[trigger] decimal(n)[i],
        ) by {
            if i < s.len() {
                assert(decimal(n)[i] == s[i]);
            }
        }
    }
}

} // verus!
