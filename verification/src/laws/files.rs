//! Names of files, and what is kept of messages.

use crate::email::payload::payload_of;
use crate::email::templates::EmailTemplate;
use crate::export::filenames::{
    disposition, encoded, encoded_byte, file_name, hex_digit, not_empty, slug, slug_char, slug_chars,
};
use crate::fields::{flag_or, integer_or, opt_integer_member, opt_text_member, text_or};
use crate::json::{lemma_first_member, member, text_member, Json};
use crate::models::release_note::is_core_version;
use crate::text::{
    all_digits, alphanumeric, index_of, is_alnum, is_space, join, lemma_index_of, lemma_split_both,
    lemma_trim_solid, split, trim, trim_end, trim_end_char, trim_start,
};
use vstd::prelude::*;

verus! {

/// A file has its kind, the slug of its title and its extension; a title
/// without letters leaves the slug out.
pub proof fn files_are_named_by_kind_and_title(
    prefix: Seq<char>,
    title: Seq<char>,
    ext: Seq<char>,
)
    ensures
        slug(title).len() > 0 ==> file_name(prefix, title, ext) == prefix + "-"@ + slug(title) + "."@
            + ext,
        slug(title).len() == 0 ==> file_name(prefix, title, ext) == prefix + "."@ + ext,
{
}

spec fn is_word(s: Seq<char>) -> bool {
    s.len() > 0 && forall|i: int|
        0 <= i < s.len() ==> !is_space(#[trigger] s[i]) && alphanumeric(s[i]) && slug_char(s[i])
            != '-'
}

proof fn lemma_one_piece(s: Seq<char>)
    requires
        is_word(s),
    ensures
        split(slug_chars(s), '-') == seq![slug_chars(s)],
        not_empty(split(slug_chars(s), '-')) == seq![slug_chars(s)],
        slug_chars(s).len() == s.len(),
        slug_chars(s).last() != '-',
{
    let c = slug_chars(s);
    lemma_index_of(c, '-');
    let i = index_of(c, '-');
    if i < c.len() {
        assert(c[i] == slug_char(s[i]));
    }
    assert(s[s.len() - 1] == s.last());
    assert(c.last() == slug_char(s[s.len() - 1]));
    let v = seq![c];
    assert(v.drop_last() =~= Seq::<Seq<char>>::empty());
    assert(not_empty(Seq::<Seq<char>>::empty()) =~= Seq::<Seq<char>>::empty());
    assert(Seq::<Seq<char>>::empty().push(c) =~= v);
}

/// A word stays, in lower case.
pub proof fn words_stay_in_slugs(s: Seq<char>)
    requires
        0 < s.len() <= 80,
        forall|i: int|
            0 <= i < s.len() ==> !is_space(#[trigger] s[i]) && alphanumeric(s[i]) && slug_char(s[i])
                != '-',
    ensures
        slug(s) == Seq::new(s.len(), |i: int| slug_char(s[i])),
{
    lemma_trim_solid(s);
    lemma_one_piece(s);
    let c = slug_chars(s);
    assert(join(seq![c], "-"@) == c);
    assert(c =~= Seq::new(s.len(), |i: int| slug_char(s[i])));
}

/// Two words are joined by one dash, whatever stood between them.
pub proof fn words_are_joined_by_a_dash(a: Seq<char>, gap: char, b: Seq<char>)
    requires
        a.len() > 0,
        b.len() > 0,
        a.len() + b.len() < 80,
        !alphanumeric(gap),
        forall|i: int|
            0 <= i < a.len() ==> !is_space(#[trigger] a[i]) && alphanumeric(a[i]) && slug_char(a[i])
                != '-',
        forall|i: int|
            0 <= i < b.len() ==> !is_space(#[trigger] b[i]) && alphanumeric(b[i]) && slug_char(b[i])
                != '-',
    ensures
        slug(a + seq![gap] + b) == slug(a) + seq!['-'] + slug(b),
{
    let s = a + seq![gap] + b;
    assert(s[0] == a[0] && s.last() == b[b.len() - 1]);
    assert(trim(s) == s) by {
        reveal_with_fuel(trim_start, 1);
        reveal_with_fuel(trim_end, 1);
    }
    let ca = slug_chars(a);
    let cb = slug_chars(b);
    assert(slug_chars(s) =~= ca + seq!['-'] + cb);
    lemma_split_both(ca, cb, '-');
    lemma_one_piece(a);
    lemma_one_piece(b);
    let v = seq![ca, cb];
    assert(seq![ca] + seq![cb] =~= v);
    assert(v.drop_last() =~= seq![ca]);
    assert(not_empty(v) =~= v);
    reveal_strlit("-");
    assert("-"@ =~= seq!['-']);
    assert(join(seq![ca], "-"@) == ca);
    assert(join(v, "-"@) == ca + "-"@ + cb);
    let all = ca + seq!['-'] + cb;
    assert(all.last() == cb.last());
    assert(trim_end_char(all, '-') == all);
    words_stay_in_slugs(a);
    words_stay_in_slugs(b);
    assert(slug(a) =~= ca);
    assert(slug(b) =~= cb);
}

/// Names are encoded byte by byte: what is safe stays, the rest is two digits
/// behind a percent sign.
pub proof fn names_are_encoded_byte_by_byte(a: Seq<u8>, b: Seq<u8>, x: u8)
    ensures
        encoded(a + b) == encoded(a) + encoded(b),
        x < 128 && (is_alnum(x as char) || x as char == '-' || x as char == '_' || x as char == '.'
            || x as char == '~') ==> encoded_byte(x) == seq![x as char],
        x >= 128 || x as char == ' ' || x as char == '"' || x as char == '/' || x as char == '%'
            ==> encoded_byte(x) == seq!['%', hex_digit(x as int / 16), hex_digit(x as int % 16)],
        hex_digit(0) == '0' && hex_digit(9) == '9' && hex_digit(10) == 'A' && hex_digit(15) == 'F',
    decreases b.len(),
{
    if b.len() == 0 {
        assert(a + b =~= a);
        assert(encoded(a) + encoded(b) =~= encoded(a));
    } else {
        names_are_encoded_byte_by_byte(a, b.drop_last(), x);
        assert((a + b).drop_last() =~= a + b.drop_last());
        assert(encoded(a + b) =~= encoded(a) + encoded(b));
    }
}

/// A plain name is offered as it is, in both forms.
pub proof fn plain_names_are_offered_as_they_are(name: Seq<char>)
    requires
        forall|i: int|
            0 <= i < name.len() ==> is_alnum(#[trigger] name[i]) || name[i] == '-' || name[i] == '_'
                || name[i] == '.',
    ensures
        disposition(name) == "attachment; filename=\""@ + name + "\"; filename*=UTF-8''"@ + encoded(
            vstd::utf8::encode_utf8(name),
        ),
{
    let shown = Seq::new(
        name.len(),
        |i: int| crate::export::filenames::ascii_name_char(name[i]),
    );
    assert(shown =~= name);
}

/// A code is kept with the user's name, each under its own word.
pub proof fn codes_are_kept_with_the_name(t: EmailTemplate)
    ensures
        t matches EmailTemplate::EmailVerificationCode { username, code, .. } ==> text_member(
            payload_of(t),
            "code"@,
        ) == Some(code@) && text_member(payload_of(t), "username"@) == Some(username@),
        t matches EmailTemplate::PasswordResetCode { username, code, .. } ==> text_member(
            payload_of(t),
            "code"@,
        ) == Some(code@) && text_member(payload_of(t), "username"@) == Some(username@),
        t matches EmailTemplate::EmailChangeCode { username, code, .. } ==> text_member(
            payload_of(t),
            "code"@,
        ) == Some(code@) && text_member(payload_of(t), "username"@) == Some(username@),
        t matches EmailTemplate::ReauthCode { username, code, .. } ==> text_member(
            payload_of(t),
            "code"@,
        ) == Some(code@) && text_member(payload_of(t), "username"@) == Some(username@),
        t matches EmailTemplate::EmailChangedNotice { username, new_email_masked } ==> text_member(
            payload_of(t),
            "new_email_masked"@,
        ) == Some(new_email_masked@) && text_member(payload_of(t), "username"@) == Some(username@),
        t matches EmailTemplate::Welcome { username } ==> text_member(payload_of(t), "username"@)
            == Some(username@),
{
    reveal_strlit("code");
    reveal_strlit("username");
    reveal_strlit("expires_minutes");
    reveal_strlit("new_email_masked");
    assert("code"@.len() == 4 && "username"@.len() == 8 && "expires_minutes"@.len() == 15
        && "new_email_masked"@.len() == 16);
    if let Json::Object(m) = payload_of(t) {
        if t is EmailVerificationCode || t is PasswordResetCode || t is EmailChangeCode
            || t is ReauthCode {
            lemma_first_member(m, 0);
            lemma_first_member(m, 2);
        }
        if t is EmailChangedNotice {
            lemma_first_member(m, 0);
            lemma_first_member(m, 1);
        }
        if t is Welcome {
            lemma_first_member(m, 0);
        }
    }
}

/// What is absent counts as its default where it has one; what is of another
/// kind is refused.
pub proof fn absent_members_have_their_default(
    v: Json,
    key: Seq<char>,
    b: bool,
    n: i64,
    s: Seq<char>,
)
    ensures
        member(v, key) is None ==> flag_or(v, key, b) == Some(b) && integer_or(v, key, n) == Some(n)
            && text_or(v, key, s) == Some(s) && opt_text_member(v, key) == Some(
            None::<Seq<char>>,
        ) && opt_integer_member(v, key) == Some(None::<i64>),
        member(v, key) == Some(Json::Bool(!b)) ==> flag_or(v, key, b) == Some(!b) && integer_or(
            v,
            key,
            n,
        ) is None && text_or(v, key, s) is None && opt_text_member(v, key) is None,
        member(v, key) == Some(Json::Text(s)) ==> flag_or(v, key, b) is None && integer_or(v, key, n)
            is None && opt_text_member(v, key) == Some(Some(s)) && opt_integer_member(v, key)
            is None,
        member(v, key) == Some(Json::Null) ==> flag_or(v, key, b) is None && opt_text_member(v, key)
            == Some(None::<Seq<char>>),
        n >= 0 && member(v, key) == Some(Json::Unsigned(n as u64)) ==> integer_or(v, key, 0)
            == Some(n) && opt_integer_member(v, key) == Some(Some(n)) && flag_or(v, key, b)
            is None,
{
}

/// A version is three numbers with dots between them.
pub proof fn versions_are_three_numbers(a: Seq<char>, b: Seq<char>, c: Seq<char>)
    requires
        !a.contains('.'),
        !b.contains('.'),
        !c.contains('.'),
    ensures
        is_core_version(a + seq!['.'] + b + seq!['.'] + c) <==> a.len() > 0 && all_digits(a)
            && b.len() > 0 && all_digits(b) && c.len() > 0 && all_digits(c),
        !is_core_version(a + seq!['.'] + b),
        !is_core_version(a),
{
    lemma_alone(a);
    lemma_alone(b);
    lemma_alone(c);
    lemma_split_both(a, b, '.');
    lemma_split_both(a + seq!['.'] + b, c, '.');
    let v = split(a + seq!['.'] + b + seq!['.'] + c, '.');
    assert(split(a + seq!['.'] + b, '.').len() == 2);
    assert(v =~= seq![a, b, c]);
}

proof fn lemma_alone(s: Seq<char>)
    requires
        !s.contains('.'),
    ensures
        split(s, '.') == seq![s],
{
    lemma_index_of(s, '.');
}

} // verus!
