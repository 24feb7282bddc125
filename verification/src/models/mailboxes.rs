//! Which addresses are one mailbox: the laws of [`canonical_email`].
//!
//! [`canonical_email`]: crate::models::user::canonical_email

use crate::models::user::{canonical, mailbox_of};
use crate::text::{
    ascii_lower, ascii_upper, index_of, is_ascii_text, is_space, last_index_of, lemma_index_of,
    lemma_replace_append, lemma_replace_passes, lemma_trim_solid, lower, replace, trim_start,
    upper, upper_case,
};
use vstd::prelude::*;

verus! {

/// ASCII without white space.
pub open spec fn is_solid(s: Seq<char>) -> bool {
    &&& is_ascii_text(s)
    &&& forall|i: int| 0 <= i < s.len() ==> !is_space(#[trigger] s[i])
}

/// The address of `name` at `domain`.
pub open spec fn address(name: Seq<char>, domain: Seq<char>) -> Seq<char> {
    name + seq!['@'] + domain
}

/// A domain of Gmail, in lower case.
pub open spec fn is_gmail(domain: Seq<char>) -> bool {
    domain == "gmail.com"@ || domain == "googlemail.com"@
}

/// A name without its `+tag`.
pub open spec fn untagged(name: Seq<char>) -> Seq<char> {
    name.take(index_of(name, '+'))
}

/// A name without its dots.
pub open spec fn undotted(name: Seq<char>) -> Seq<char> {
    replace(name, seq!['.'], seq![])
}

proof fn lemma_last_at(a: Seq<char>, domain: Seq<char>)
    requires
        !domain.contains('@'),
    ensures
        last_index_of(a + seq!['@'] + domain, '@') == a.len(),
    decreases domain.len(),
{
    let s = a + seq!['@'] + domain;
    if domain.len() == 0 {
        assert(s.last() == '@');
    } else {
        assert(s.last() == domain.last());
        assert(domain.contains(domain.last()));
        let shorter = domain.drop_last();
        assert(s.drop_last() =~= a + seq!['@'] + shorter);
        assert forall|c: char| shorter.contains(c) implies domain.contains(c) by {
            let k = choose|k: int| 0 <= k < shorter.len() && shorter[k] == c;
            assert(domain[k] == c);
        }
        lemma_last_at(a, shorter);
    }
}

proof fn lemma_mailbox(name: Seq<char>, domain: Seq<char>)
    requires
        !domain.contains('@'),
    ensures
        mailbox_of(address(name, domain)) == if is_gmail(domain) {
            address(undotted(untagged(name)), "gmail.com"@)
        } else {
            address(untagged(name), domain)
        },
{
    reveal_strlit(".");
    reveal_strlit("");
    reveal_strlit("@");
    assert("."@ =~= seq!['.']);
    assert(""@ =~= seq![]);
    assert("@"@ =~= seq!['@']);
    let s = address(name, domain);
    lemma_last_at(name, domain);
    assert(s.take(name.len() as int) =~= name);
    assert(s.skip((name.len() + 1) as int) =~= domain);
}

proof fn lemma_case(c: char)
    ensures
        lower(upper(c)) == lower(c),
        lower(lower(c)) == lower(c),
        c <= '\u{7F}' ==> lower(c) <= '\u{7F}' && upper(c) <= '\u{7F}',
        lower(c) == '@' <==> c == '@',
        lower(c) == '+' <==> c == '+',
        lower(c) == '.' <==> c == '.',
        is_space(lower(c)) <==> is_space(c),
        is_space(upper(c)) <==> is_space(c),
{
}

proof fn lemma_lower(s: Seq<char>)
    requires
        is_solid(s),
    ensures
        is_solid(ascii_lower(s)),
        ascii_lower(ascii_lower(s)) == ascii_lower(s),
        ascii_lower(s).contains('@') == s.contains('@'),
{
    let l = ascii_lower(s);
    assert forall|i: int| 0 <= i < l.len() implies #[trigger] l[i] <= '\u{7F}' && !is_space(
        l[i],
    ) by {
        lemma_case(s[i]);
    }
    assert(ascii_lower(l) =~= l) by {
        assert forall|i: int| 0 <= i < l.len() implies ascii_lower(l)[i] == l[i] by {
            lemma_case(s[i]);
        }
    }
    if l.contains('@') {
        let i = choose|i: int| 0 <= i < l.len() && l[i] == '@';
        lemma_case(s[i]);
        assert(s[i] == '@');
    }
    if s.contains('@') {
        let i = choose|i: int| 0 <= i < s.len() && s[i] == '@';
        assert(l[i] == '@');
    }
}

/// What the mailbox of an address is: its name in lower case and without a
/// tag, at its domain in lower case. Dots of the name are kept, except at
/// Gmail, where they are dropped and both domains are one.
pub proof fn mailboxes_are_names_at_domains(name: Seq<char>, domain: Seq<char>)
    requires
        is_solid(name),
        is_solid(domain),
        !domain.contains('@'),
    ensures
        canonical(address(name, domain)) == if is_gmail(ascii_lower(domain)) {
            address(undotted(untagged(ascii_lower(name))), "gmail.com"@)
        } else {
            address(untagged(ascii_lower(name)), ascii_lower(domain))
        },
{
    let e = address(name, domain);
    assert forall|i: int| 0 <= i < e.len() implies #[trigger] e[i] <= '\u{7F}' && !is_space(
        e[i],
    ) by {
        if i < name.len() {
            assert(e[i] == name[i]);
        } else if i > name.len() {
            assert(e[i] == domain[i - name.len() - 1]);
        }
    }
    lemma_trim_solid(e);
    assert(ascii_lower(e) =~= address(ascii_lower(name), ascii_lower(domain)));
    lemma_lower(domain);
    lemma_mailbox(ascii_lower(name), ascii_lower(domain));
}

proof fn lemma_solid_both(a: Seq<char>, c: char, b: Seq<char>)
    requires
        is_solid(a),
        is_solid(b),
        c <= '\u{7F}',
        !is_space(c),
    ensures
        is_solid(a + seq![c] + b),
{
    let s = a + seq![c] + b;
    assert forall|i: int| 0 <= i < s.len() implies #[trigger] s[i] <= '\u{7F}' && !is_space(
        s[i],
    ) by {
        if i < a.len() {
            assert(s[i] == a[i]);
        } else if i > a.len() {
            assert(s[i] == b[i - a.len() - 1]);
        }
    }
}

/// A `+tag` makes no other mailbox.
pub proof fn tags_make_no_other_mailbox(name: Seq<char>, tag: Seq<char>, domain: Seq<char>)
    requires
        is_solid(name),
        is_solid(tag),
        is_solid(domain),
        !domain.contains('@'),
    ensures
        canonical(address(name + seq!['+'] + tag, domain)) == canonical(address(name, domain)),
{
    let tagged = name + seq!['+'] + tag;
    lemma_solid_both(name, '+', tag);
    mailboxes_are_names_at_domains(tagged, domain);
    mailboxes_are_names_at_domains(name, domain);
    let l = ascii_lower(name);
    let t = ascii_lower(tagged);
    assert(t =~= l + seq!['+'] + ascii_lower(tag));
    lemma_index_of(l, '+');
    lemma_index_of(t, '+');
    let i = index_of(l, '+');
    let k = index_of(t, '+');
    assert(t[l.len() as int] == '+');
    assert(k == i) by {
        if i < l.len() {
            assert(t[i] == '+');
            if k < i {
                assert(l[k] == '+');
            }
        } else if k < l.len() {
            assert(l[k] == '+');
        }
    }
    assert(t.take(k) =~= l.take(i));
}

proof fn lemma_undotted(s: Seq<char>)
    ensures
        forall|i: int|
            0 <= i < undotted(s).len() ==> #[trigger] undotted(s)[i] != '.' && s.contains(
                undotted(s)[i],
            ),
    decreases s.len(),
{
    let p = seq!['.'];
    let none: Seq<char> = seq![];
    if s.len() > 0 {
        let rest = s.skip(1);
        lemma_undotted(rest);
        let r = undotted(rest);
        assert(s.subrange(0, 1)[0] == s[0]);
        if s[0] == '.' {
            assert(s.subrange(0, 1) =~= p);
            assert(undotted(s) =~= r);
        } else {
            assert(undotted(s) =~= seq![s[0]] + r);
        }
        assert forall|i: int| 0 <= i < undotted(s).len() implies #[trigger] undotted(s)[i] != '.'
            && s.contains(undotted(s)[i]) by {
            let c = undotted(s)[i];
            if s[0] != '.' && i == 0 {
                assert(s.contains(s[0]));
            } else {
                let j = if s[0] == '.' {
                    i
                } else {
                    i - 1
                };
                assert(c == r[j]);
                let k = choose|k: int| 0 <= k < rest.len() && rest[k] == c;
                assert(s[k + 1] == c);
            }
        }
    }
}

proof fn lemma_undotted_fixed(s: Seq<char>)
    requires
        !s.contains('.'),
    ensures
        undotted(s) == s,
{
    let none: Seq<char> = seq![];
    assert forall|i: int| 0 <= i < s.len() implies #[trigger] s[i] != seq!['.'][0] by {
        assert(s.contains(s[i]));
    }
    lemma_replace_passes(s, none, seq!['.'], none);
    assert(s + none =~= s);
    assert(replace(none, seq!['.'], none) =~= none);
}

proof fn lemma_undotted_twice(s: Seq<char>)
    ensures
        undotted(undotted(s)) == undotted(s),
{
    lemma_undotted(s);
    assert(!undotted(s).contains('.'));
    lemma_undotted_fixed(undotted(s));
}

proof fn lemma_untagged(s: Seq<char>)
    ensures
        !untagged(s).contains('+'),
        !s.contains('+') ==> untagged(s) == s,
{
    lemma_index_of(s, '+');
    let k = index_of(s, '+');
    if untagged(s).contains('+') {
        let j = choose|j: int| 0 <= j < untagged(s).len() && untagged(s)[j] == '+';
        assert(s[j] == '+');
    }
    if k < s.len() {
        assert(s[k] == '+');
    } else {
        assert(untagged(s) =~= s);
    }
}

proof fn lemma_undotted_untagged(s: Seq<char>)
    ensures
        untagged(undotted(s)) == undotted(untagged(s)),
{
    lemma_index_of(s, '+');
    let i = index_of(s, '+');
    let none: Seq<char> = seq![];
    let head = s.take(i);
    let tail = s.skip(i);
    assert(head + tail =~= s);
    lemma_replace_append(head, tail, '.', none);
    let a = undotted(head);
    let b = undotted(tail);
    lemma_undotted(head);
    lemma_untagged(s);
    let r = a + b;
    assert forall|j: int| 0 <= j < a.len() implies #[trigger] a[j] != '+' by {
        assert(head.contains(a[j]));
    }
    if tail.len() > 0 {
        assert(tail[0] == '+');
        assert(tail.subrange(0, 1)[0] == '+');
        assert(b =~= seq!['+'] + undotted(tail.skip(1)));
        assert(r[a.len() as int] == '+');
    } else {
        assert(b =~= none);
    }
    lemma_index_of(r, '+');
    let k = index_of(r, '+');
    assert(k == a.len()) by {
        if k < a.len() {
            assert(r[k] == a[k]);
        }
    }
    assert(r.take(k) =~= a);
}

proof fn lemma_lower_undotted(s: Seq<char>)
    ensures
        ascii_lower(undotted(s)) == undotted(ascii_lower(s)),
    decreases s.len(),
{
    let l = ascii_lower(s);
    let p = seq!['.'];
    if s.len() > 0 {
        let rest = s.skip(1);
        lemma_lower_undotted(rest);
        lemma_case(s[0]);
        assert(l.skip(1) =~= ascii_lower(rest));
        assert(s.subrange(0, 1)[0] == s[0]);
        assert(l.subrange(0, 1)[0] == lower(s[0]));
        if s[0] == '.' {
            assert(s.subrange(0, 1) =~= p);
            assert(l.subrange(0, 1) =~= p);
            assert(undotted(s) =~= undotted(rest));
            assert(undotted(l) =~= undotted(l.skip(1)));
        } else {
            assert(undotted(s) =~= seq![s[0]] + undotted(rest));
            assert(undotted(l) =~= seq![l[0]] + undotted(l.skip(1)));
            assert(ascii_lower(undotted(s)) =~= seq![l[0]] + ascii_lower(undotted(rest)));
        }
    } else {
        assert(ascii_lower(undotted(s)) =~= undotted(l));
    }
}

proof fn lemma_gmail()
    ensures
        is_solid("gmail.com"@),
        is_solid("googlemail.com"@),
        !"gmail.com"@.contains('@'),
        !"googlemail.com"@.contains('@'),
        ascii_lower("gmail.com"@) == "gmail.com"@,
        ascii_lower("googlemail.com"@) == "googlemail.com"@,
{
    reveal_strlit("gmail.com");
    reveal_strlit("googlemail.com");
    assert(ascii_lower("gmail.com"@) =~= "gmail.com"@);
    assert(ascii_lower("googlemail.com"@) =~= "googlemail.com"@);
}

proof fn lemma_solid_undotted(s: Seq<char>)
    requires
        is_solid(s),
    ensures
        is_solid(undotted(s)),
{
    lemma_undotted(s);
    let r = undotted(s);
    assert forall|i: int| 0 <= i < r.len() implies #[trigger] r[i] <= '\u{7F}' && !is_space(
        r[i],
    ) by {
        assert(s.contains(r[i]));
        let k = choose|k: int| 0 <= k < s.len() && s[k] == r[i];
        assert(s[k] <= '\u{7F}' && !is_space(s[k]));
    }
}

/// At Gmail neither the dots of a name nor which of the two domains it is at
/// make another mailbox.
pub proof fn gmail_addresses_are_one_mailbox(name: Seq<char>)
    requires
        is_solid(name),
    ensures
        canonical(address(name, "googlemail.com"@)) == canonical(address(name, "gmail.com"@)),
        canonical(address(undotted(name), "gmail.com"@)) == canonical(
            address(name, "gmail.com"@),
        ),
{
    lemma_gmail();
    let l = ascii_lower(name);
    mailboxes_are_names_at_domains(name, "googlemail.com"@);
    mailboxes_are_names_at_domains(name, "gmail.com"@);
    lemma_solid_undotted(name);
    mailboxes_are_names_at_domains(undotted(name), "gmail.com"@);
    lemma_lower_undotted(name);
    lemma_undotted_untagged(l);
    lemma_undotted_twice(untagged(l));
}

/// A blank in front of an address makes no other mailbox.
pub proof fn blanks_make_no_other_mailbox(email: Seq<char>)
    ensures
        canonical(seq![' '] + email) == canonical(email),
{
    let t = seq![' '] + email;
    assert(t.skip(1) =~= email);
    assert(trim_start(t) == trim_start(email));
}

/// The case of an address makes no other mailbox.
pub proof fn case_makes_no_other_mailbox(email: Seq<char>)
    requires
        is_solid(email),
    ensures
        canonical(upper_case(email)) == canonical(email),
{
    let u = ascii_upper(email);
    assert forall|i: int| 0 <= i < u.len() implies #[trigger] u[i] <= '\u{7F}' && !is_space(
        u[i],
    ) by {
        lemma_case(email[i]);
    }
    lemma_trim_solid(u);
    lemma_trim_solid(email);
    assert(ascii_lower(u) =~= ascii_lower(email)) by {
        assert forall|i: int| 0 <= i < u.len() implies ascii_lower(u)[i] == ascii_lower(
            email,
        )[i] by {
            lemma_case(email[i]);
        }
    }
}

/// A mailbox is its own mailbox.
pub proof fn mailboxes_are_final(name: Seq<char>, domain: Seq<char>)
    requires
        is_solid(name),
        is_solid(domain),
        !domain.contains('@'),
    ensures
        canonical(canonical(address(name, domain))) == canonical(address(name, domain)),
{
    mailboxes_are_names_at_domains(name, domain);
    lemma_gmail();
    let l = ascii_lower(name);
    let d = ascii_lower(domain);
    lemma_lower(name);
    lemma_lower(domain);
    let m = untagged(l);
    lemma_index_of(l, '+');
    lemma_untagged(l);
    assert forall|i: int| 0 <= i < m.len() implies #[trigger] m[i] <= '\u{7F}' && !is_space(
        m[i],
    ) by {
        assert(m[i] == l[i]);
    }
    assert(is_solid(m));
    assert(ascii_lower(m) =~= m) by {
        assert forall|i: int| 0 <= i < m.len() implies ascii_lower(m)[i] == m[i] by {
            assert(ascii_lower(l)[i] == l[i]);
        }
    }
    lemma_untagged(m);
    if is_gmail(d) {
        let g = undotted(m);
        lemma_solid_undotted(m);
        lemma_lower_undotted(m);
        mailboxes_are_names_at_domains(g, "gmail.com"@);
        lemma_undotted_untagged(m);
        lemma_undotted_twice(m);
    } else {
        mailboxes_are_names_at_domains(m, d);
    }
}

} // verus!
