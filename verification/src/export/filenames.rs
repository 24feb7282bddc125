//! Safe download names.

use crate::text::{
    alphanumeric, char_is_alnum, char_is_alphanumeric, chars, cut, cut_to, end_trimmed_of,
    in_lower_case, index_of, is_alnum, join, joined, lemma_index_of, lemma_pieces, lemma_texts_push,
    lower_case, split, split_at, texts,
    trim, trim_end_char, trimmed,
};
use vstd::prelude::*;

verus! {

/// The longest slug, in characters.
pub const MAX_SLUG_CHARS: usize = 80;

/// A character of a title in a file name: letters and digits stay, in lower
/// case (its first character, where that has several); everything else is a
/// dash.
pub open spec fn slug_char(c: char) -> char {
    if !alphanumeric(c) {
        '-'
    } else if lower_case(seq![c]).len() > 0 {
        lower_case(seq![c])[0]
    } else {
        c
    }
}

pub open spec fn slug_chars(s: Seq<char>) -> Seq<char> {
    Seq::new(s.len(), |i: int| slug_char(s[i]))
}

/// The pieces that are not empty.
pub open spec fn not_empty(v: Seq<Seq<char>>) -> Seq<Seq<char>>
    decreases v.len(),
{
    if v.len() == 0 {
        seq![]
    } else if v.last().len() > 0 {
        not_empty(v.drop_last()).push(v.last())
    } else {
        not_empty(v.drop_last())
    }
}

/// A title as part of a file name: letters and digits, with single dashes
/// between them.
pub open spec fn slug(title: Seq<char>) -> Seq<char> {
    let pieces = not_empty(split(slug_chars(trim(title)), '-'));
    trim_end_char(cut(join(pieces, "-"@), MAX_SLUG_CHARS as int), '-')
}

/// `<prefix>-<slug>.<ext>`, or `<prefix>.<ext>` when nothing is left of the
/// title.
pub open spec fn file_name(prefix: Seq<char>, title: Seq<char>, ext: Seq<char>) -> Seq<char> {
    if slug(title).len() == 0 {
        prefix + "."@ + ext
    } else {
        prefix + "-"@ + slug(title) + "."@ + ext
    }
}

fn slug_char_of(c: char) -> (r: char)
    ensures
        r == slug_char(c),
{
    if !char_is_alphanumeric(c) {
        return '-';
    }
    let mut one = String::new();
    one.push(c);
    assert(one@ =~= seq![c]);
    let low = chars(in_lower_case(one.as_str()).as_str());
    if low.len() > 0 {
        low[0]
    } else {
        c
    }
}

fn slug_of(title: &str) -> (r: String)
    ensures
        r@ == slug(title@),
{
    let t = trimmed(title);
    let v = chars(t.as_str());
    let mut marked = String::new();
    let mut i: usize = 0;
    while i < v.len()
        invariant
            i <= v@.len(),
            marked@ =~= slug_chars(v@).take(i as int),
        decreases v@.len() - i,
    {
        marked.push(slug_char_of(v[i]));
        i = i + 1;
    }
    assert(marked@ =~= slug_chars(t@));
    let all = split_at(marked.as_str(), '-');
    let ghost pieces = texts(all@);
    let mut kept: Vec<String> = Vec::new();
    let mut k: usize = 0;
    assert(pieces.take(0) =~= seq![]);
    assert(texts(kept@) =~= seq![]);
    while k < all.len()
        invariant
            pieces == texts(all@),
            k <= all@.len(),
            texts(kept@) == not_empty(pieces.take(k as int)),
        decreases all@.len() - k,
    {
        assert(pieces.take(k + 1).drop_last() =~= pieces.take(k as int));
        assert(pieces.take(k + 1).last() == all@[k as int]@);
        if !all[k].as_str().is_empty() {
            let p = all[k].clone();
            proof {
                lemma_texts_push(kept@, p);
            }
            kept.push(p);
        }
        k = k + 1;
    }
    assert(pieces.take(k as int) =~= pieces);
    let s = joined(&kept, "-");
    end_trimmed_of(cut_to(s.as_str(), MAX_SLUG_CHARS).as_str(), '-')
}

/// `<prefix>-<slug>.<ext>` from a title (letters and digits kept, in any
/// script; everything else collapsed into single dashes; at most 80
/// characters), or `<prefix>.<ext>` when nothing is left.
pub fn slug_filename(prefix: &str, title: &str, ext: &str) -> (r: String)
    ensures
        r@ == file_name(prefix@, title@, ext@),
{
    let s = slug_of(title);
    let mut r = prefix.to_string();
    if !s.as_str().is_empty() {
        r.append("-");
        r.append(s.as_str());
    }
    r.append(".");
    r.append(ext);
    r
}

/// A file name that is safe on every OS, derived from the setlist title.
pub fn pdf_filename(title: &str) -> (r: String)
    ensures
        r@ == file_name("setlist"@, title@, "pdf"@),
{
    slug_filename("setlist", title, "pdf")
}

/// A safe download name: `song-<slug>.cho`.
pub fn chordpro_filename(title: &str) -> (r: String)
    ensures
        r@ == file_name("song"@, title@, "cho"@),
{
    slug_filename("song", title, "cho")
}

// ---------------------------------------------------------------------
// Headers
// ---------------------------------------------------------------------

/// A character of the ASCII name.
pub open spec fn ascii_name_char(c: char) -> char {
    if is_alnum(c) || c == '-' || c == '_' || c == '.' {
        c
    } else {
        '_'
    }
}

/// A hexadecimal digit, in upper case.
pub open spec fn hex_digit(n: int) -> char {
    if n < 10 {
        ('0' as int + n) as char
    } else {
        ('A' as int + n - 10) as char
    }
}

/// A byte of the encoded name: itself where that is safe, or `%` and two
/// hexadecimal digits.
pub open spec fn encoded_byte(b: u8) -> Seq<char> {
    let c = b as char;
    if b < 128 && (is_alnum(c) || c == '-' || c == '_' || c == '.' || c == '~') {
        seq![c]
    } else {
        seq!['%', hex_digit(b as int / 16), hex_digit(b as int % 16)]
    }
}

/// The bytes of a name, encoded.
pub open spec fn encoded(v: Seq<u8>) -> Seq<char>
    decreases v.len(),
{
    if v.len() == 0 {
        seq![]
    } else {
        encoded(v.drop_last()) + encoded_byte(v.last())
    }
}

/// The header that carries both names.
pub open spec fn disposition(filename: Seq<char>) -> Seq<char> {
    "attachment; filename=\""@ + Seq::new(filename.len(), |i: int| ascii_name_char(filename[i]))
        + "\"; filename*=UTF-8''"@ + encoded(vstd::utf8::encode_utf8(filename))
}

fn hex(n: u8) -> (r: char)
    requires
        n < 16,
    ensures
        r == hex_digit(n as int),
{
    if n < 10 {
        (48u8 + n) as char
    } else {
        (55u8 + n) as char
    }
}

fn encode_bytes(v: &[u8]) -> (r: String)
    ensures
        r@ == encoded(v@),
{
    let mut r = String::new();
    let mut i: usize = 0;
    assert(v@.take(0) =~= seq![]);
    assert(r@ =~= seq![]);
    while i < v.len()
        invariant
            i <= v@.len(),
            r@ == encoded(v@.take(i as int)),
        decreases v@.len() - i,
    {
        assert(v@.take(i + 1).drop_last() =~= v@.take(i as int));
        assert(v@.take(i + 1).last() == v@[i as int]);
        let ghost before = r@;
        let b = v[i];
        let c = b as char;
        if b < 128 && (char_is_alnum(c) || c == '-' || c == '_' || c == '.' || c == '~') {
            r.push(c);
            assert(r@ =~= before + seq![c]);
        } else {
            r.push('%');
            r.push(hex(b / 16));
            r.push(hex(b % 16));
            assert(r@ =~= before + encoded_byte(b));
        }
        i = i + 1;
    }
    assert(v@.take(i as int) =~= v@);
    r
}

/// A `Content-Disposition` value carrying both an ASCII fallback and the
/// RFC 5987 UTF-8 name, so accented titles ("Canções") keep their name
/// instead of the header silently being dropped.
pub fn content_disposition(filename: &str) -> (r: String)
    ensures
        r@ == disposition(filename@),
{
    let v = chars(filename);
    let mut ascii = String::new();
    let mut i: usize = 0;
    while i < v.len()
        invariant
            i <= v@.len(),
            ascii@ =~= Seq::new(i as nat, |j: int| ascii_name_char(v@[j])),
        decreases v@.len() - i,
    {
        let c = v[i];
        ascii.push(
            if char_is_alnum(c) || c == '-' || c == '_' || c == '.' {
                c
            } else {
                '_'
            },
        );
        i = i + 1;
    }
    assert(ascii@ =~= Seq::new(filename@.len(), |i: int| ascii_name_char(filename@[i])));
    let mut r = "attachment; filename=\"".to_string();
    r.append(ascii.as_str());
    r.append("\"; filename*=UTF-8''");
    r.append(encode_bytes(filename.as_bytes()).as_str());
    r
}

proof fn lemma_encoded_is_plain(v: Seq<u8>)
    ensures
        forall|i: int| 0 <= i < encoded(v).len() ==> ' ' <= #[trigger] encoded(v)[i] <= '~' && encoded(v)[i] != '"',
    decreases v.len(),
{
    if v.len() > 0 {
        lemma_encoded_is_plain(v.drop_last());
        let a = encoded(v.drop_last());
        let b = encoded_byte(v.last());
        assert forall|i: int| 0 <= i < encoded(v).len() implies ' ' <= #[trigger] encoded(v)[i]
            <= '~' && encoded(v)[i] != '"' by {
            if i < a.len() {
                assert(encoded(v)[i] == a[i]);
            } else {
                assert(encoded(v)[i] == b[i - a.len()]);
            }
        }
    }
}

/// Whatever the file is called, the header is printable ASCII, and its quoted
/// name cannot be left: a quote stands only where the header has its own two.
pub proof fn dispositions_are_plain_ascii(filename: Seq<char>)
    ensures
        forall|i: int|
            0 <= i < disposition(filename).len() ==> ' ' <= #[trigger] disposition(filename)[i]
                <= '~',
        forall|i: int|
            0 <= i < disposition(filename).len() && #[trigger] disposition(filename)[i] == '"'
                ==> i == 21 || i == 22 + filename.len(),
{
    reveal_strlit("attachment; filename=\"");
    reveal_strlit("\"; filename*=UTF-8''");
    let ascii = Seq::new(filename.len(), |i: int| ascii_name_char(filename[i]));
    let e = encoded(vstd::utf8::encode_utf8(filename));
    lemma_encoded_is_plain(vstd::utf8::encode_utf8(filename));
    let a = "attachment; filename=\""@;
    let m = "\"; filename*=UTF-8''"@;
    assert(a.len() == 22);
    let d = disposition(filename);
    assert forall|i: int| 0 <= i < d.len() implies ' ' <= #[trigger] d[i] <= '~' && (d[i] == '"'
        ==> i == 21 || i == 22 + filename.len()) by {
        if i < 22 {
            assert(d[i] == a[i]);
        } else if i < 22 + ascii.len() {
            assert(d[i] == ascii[i - 22]);
        } else if i < 22 + ascii.len() + m.len() {
            assert(d[i] == m[i - 22 - ascii.len()]);
        } else {
            assert(d[i] == e[i - 22 - ascii.len() - m.len()]);
        }
    }
}

// ---------------------------------------------------------------------
// Slugs
// ---------------------------------------------------------------------

/// Neither a dash at an end nor two in a row.
pub open spec fn has_single_dashes(s: Seq<char>) -> bool {
    &&& s.len() > 0 ==> s[0] != '-' && s.last() != '-'
    &&& forall|i: int| 0 <= i && i + 1 < s.len() ==> #[trigger] s[i] != '-' || s[i + 1] != '-'
}

/// `c` stands for a letter or digit of the title.
pub open spec fn is_from(c: char, title: Seq<char>) -> bool {
    exists|k: int| 0 <= k < title.len() && alphanumeric(#[trigger] title[k]) && slug_char(title[k]) == c
}

/// A piece of a slug.
pub open spec fn is_piece(p: Seq<char>, title: Seq<char>) -> bool {
    &&& p.len() > 0
    &&& !p.contains('-')
    &&& forall|j: int| 0 <= j < p.len() ==> is_from(#[trigger] p[j], title)
}

proof fn lemma_split_holds(s: Seq<char>, sep: char, fine: spec_fn(char) -> bool)
    requires
        forall|i: int| 0 <= i < s.len() ==> #[trigger] s[i] == sep || fine(s[i]),
    ensures
        forall|i: int, j: int|
            0 <= i < split(s, sep).len() && 0 <= j < split(s, sep)[i].len() ==> fine(
                #[trigger] split(s, sep)[i][j],
            ),
    decreases s.len(),
{
    lemma_index_of(s, sep);
    let k = index_of(s, sep);
    if k < s.len() {
        let rest = s.skip(k + 1);
        assert forall|i: int| 0 <= i < rest.len() implies #[trigger] rest[i] == sep || fine(
            rest[i],
        ) by {
            assert(rest[i] == s[i + k + 1]);
        }
        lemma_split_holds(rest, sep, fine);
        assert forall|i: int, j: int|
            0 <= i < split(s, sep).len() && 0 <= j < split(s, sep)[i].len() implies fine(
            #[trigger] split(s, sep)[i][j],
        ) by {
            if i == 0 {
                assert(split(s, sep)[0][j] == s[j]);
            } else {
                assert(split(s, sep)[i] == split(rest, sep)[i - 1]);
                assert(fine(split(rest, sep)[i - 1][j]));
            }
        }
    } else {
        assert forall|i: int, j: int|
            0 <= i < split(s, sep).len() && 0 <= j < split(s, sep)[i].len() implies fine(
            #[trigger] split(s, sep)[i][j],
        ) by {
            assert(split(s, sep)[0][j] == s[j]);
        }
    }
}

proof fn lemma_not_empty(v: Seq<Seq<char>>)
    ensures
        forall|i: int|
            0 <= i < not_empty(v).len() ==> (#[trigger] not_empty(v)[i]).len() > 0 && v.contains(
                not_empty(v)[i],
            ),
    decreases v.len(),
{
    if v.len() > 0 {
        let w = v.drop_last();
        lemma_not_empty(w);
        assert forall|i: int| 0 <= i < not_empty(v).len() implies (#[trigger] not_empty(
            v,
        )[i]).len() > 0 && v.contains(not_empty(v)[i]) by {
            if i < not_empty(w).len() {
                let p = not_empty(w)[i];
                assert(not_empty(v)[i] == p);
                let k = choose|k: int| 0 <= k < w.len() && w[k] == p;
                assert(v[k] == p);
            } else {
                assert(v[v.len() - 1] == v.last());
            }
        }
    }
}

proof fn lemma_joined_pieces(v: Seq<Seq<char>>, title: Seq<char>)
    requires
        forall|i: int| 0 <= i < v.len() ==> is_piece(#[trigger] v[i], title),
    ensures
        has_single_dashes(join(v, seq!['-'])),
        v.len() > 0 ==> join(v, seq!['-']).len() > 0,
        forall|k: int|
            0 <= k < join(v, seq!['-']).len() ==> #[trigger] join(v, seq!['-'])[k] == '-' || is_from(
                join(v, seq!['-'])[k],
                title,
            ),
    decreases v.len(),
{
    let all = join(v, seq!['-']);
    if v.len() == 1 {
        let p = v[0];
        assert forall|i: int| 0 <= i < p.len() implies #[trigger] p[i] != '-' by {
            if p[i] == '-' {
                assert(p.contains('-'));
            }
        }
    } else if v.len() > 1 {
        let w = v.drop_last();
        lemma_joined_pieces(w, title);
        let a = join(w, seq!['-']);
        let p = v.last();
        assert(is_piece(v[v.len() - 1], title));
        assert forall|i: int| 0 <= i < p.len() implies #[trigger] p[i] != '-' by {
            if p[i] == '-' {
                assert(p.contains('-'));
            }
        }
        assert(forall|i: int| 0 <= i < a.len() ==> #[trigger] all[i] == a[i]);
        assert(all[a.len() as int] == '-');
        assert(forall|i: int|
            a.len() < i < all.len() ==> #[trigger] all[i] == p[i - a.len() - 1]);
        assert(all.last() == p.last());
        assert forall|i: int| 0 <= i && i + 1 < all.len() implies #[trigger] all[i] != '-' || all[i
            + 1] != '-' by {
            if i + 1 < a.len() {
                assert(a[i] != '-' || a[i + 1] != '-');
            } else if i + 1 == a.len() {
                assert(all[i] == a.last());
            } else if i == a.len() {
                assert(all[i + 1] == p[0]);
            } else {
                assert(all[i] == p[i - a.len() - 1]);
            }
        }
        assert forall|k: int| 0 <= k < all.len() implies #[trigger] all[k] == '-' || is_from(
            all[k],
            title,
        ) by {
            if k < a.len() {
                assert(a[k] == '-' || is_from(a[k], title));
            } else if k > a.len() {
                assert(is_from(p[k - a.len() - 1], title));
            }
        }
    }
}

proof fn lemma_dashes_go(s: Seq<char>)
    ensures
        trim_end_char(s, '-').len() <= s.len(),
        trim_end_char(s, '-') == s.take(trim_end_char(s, '-').len() as int),
        trim_end_char(s, '-').len() > 0 ==> trim_end_char(s, '-').last() != '-',
    decreases s.len(),
{
    if s.len() > 0 && s.last() == '-' {
        lemma_dashes_go(s.drop_last());
        let n = trim_end_char(s, '-').len() as int;
        assert(s.drop_last().take(n) =~= s.take(n));
    } else {
        assert(s.take(s.len() as int) =~= s);
    }
}

/// The part of a file name that comes from a title is safe: it holds only
/// letters and digits of the title, in lower case, and single dashes between
/// them, and it is not too long.
pub proof fn slugs_are_letters_and_single_dashes(title: Seq<char>)
    ensures
        slug(title).len() <= MAX_SLUG_CHARS,
        has_single_dashes(slug(title)),
        forall|i: int|
            0 <= i < slug(title).len() ==> #[trigger] slug(title)[i] == '-' || is_from(
                slug(title)[i],
                trim(title),
            ),
{
    reveal_strlit("-");
    assert("-"@ =~= seq!['-']);
    let t = trim(title);
    let marked = slug_chars(t);
    let all = split(marked, '-');
    let pieces = not_empty(all);
    let fine = |c: char| is_from(c, t);
    assert forall|i: int| 0 <= i < marked.len() implies #[trigger] marked[i] == '-' || fine(
        marked[i],
    ) by {
        if alphanumeric(t[i]) {
            assert(slug_char(t[i]) == marked[i]);
        }
    }
    lemma_split_holds(marked, '-', fine);
    lemma_pieces(marked, '-');
    lemma_not_empty(all);
    assert forall|i: int| 0 <= i < pieces.len() implies is_piece(#[trigger] pieces[i], t) by {
        let p = pieces[i];
        assert(all.contains(p));
        let k = choose|k: int| 0 <= k < all.len() && all[k] == p;
        assert(!all[k].contains('-'));
        assert forall|j: int| 0 <= j < p.len() implies is_from(#[trigger] p[j], t) by {
            assert(fine(all[k][j]));
        }
    }
    lemma_joined_pieces(pieces, t);
    let whole = join(pieces, seq!['-']);
    let short = cut(whole, MAX_SLUG_CHARS as int);
    lemma_dashes_go(short);
    let r = trim_end_char(short, '-');
    assert(r == slug(title));
    assert(forall|i: int| 0 <= i < r.len() ==> #[trigger] r[i] == whole[i]);
    assert forall|i: int| 0 <= i && i + 1 < r.len() implies #[trigger] r[i] != '-' || r[i + 1]
        != '-' by {
        assert(whole[i] != '-' || whole[i + 1] != '-');
    }
}

} // verus!
