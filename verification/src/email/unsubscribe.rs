//! One-click unsubscribe tokens.
//!
//! A token is `base64url(user_id ‖ category ‖ mac)`: the 16 bytes of the
//! user id, one byte identifying the category and the first 16 bytes of an
//! HMAC-SHA256 over both, keyed with a secret derived from the server key.
//! Tokens don't expire (links in old e-mails must keep working) and can
//! only ever switch one category off for one user, so there is nothing
//! more to protect.
//!
//! The HMAC is made by whoever holds the key, of the bytes that [`message`]
//! gives.

use crate::ids::{id_bytes, lemma_id_bytes, Uuid};
use crate::models::communication::{
    category_at, category_index, category_indexes_and_keys_round_trip, Category,
};
use crate::text::{
    end_trimmed_of, is_alnum, lemma_trim_solid, same_in_constant_time, trim, trim_end_char, trimmed,
};
use base64::Engine;
use vstd::prelude::*;

verus! {

/// The bytes of a HMAC that a token carries.
pub const MAC_LEN: usize = 16;

/// What `base64` makes of bytes, in its URL-safe alphabet and without padding.
pub uninterp spec fn base64_text(bytes: Seq<u8>) -> Seq<char>;

/// The bytes that `base64` reads in a text; none where it reads none.
pub uninterp spec fn base64_bytes(text: Seq<char>) -> Option<Seq<u8>>;

/// A character of the URL-safe alphabet.
pub open spec fn is_base64_char(c: char) -> bool {
    is_alnum(c) || c == '-' || c == '_'
}

/// `encode` of `base64`'s `URL_SAFE_NO_PAD` engine: the bytes as text, a
/// function of the bytes, made of letters, digits, dashes and underscores,
/// from which `decode` of that engine reads the same bytes back. The bytes are
/// few, so that the length of the text cannot overflow.
#[verifier::external_body]
fn encoded(bytes: &Vec<u8>) -> (r: String)
    requires
        bytes@.len() <= 0xFFFF,
    ensures
        r@ == base64_text(bytes@),
        base64_bytes(r@) == Some(bytes@),
        forall|i: int| 0 <= i < r@.len() ==> is_base64_char(#[trigger] r@[i]),
{
    base64::engine::general_purpose::URL_SAFE_NO_PAD.encode(bytes)
}

/// `decode` of `base64`'s `URL_SAFE_NO_PAD` engine: the bytes that the text
/// stands for, if it stands for any; a function of the text.
#[verifier::external_body]
fn decoded(text: &str) -> (r: Option<Vec<u8>>)
    ensures
        match r {
            Some(b) => base64_bytes(text@) == Some(b@),
            None => base64_bytes(text@) is None,
        },
{
    base64::engine::general_purpose::URL_SAFE_NO_PAD.decode(text).ok()
}

/// The bytes that the HMAC of a token is made of.
pub open spec fn message_bytes(user_id: Uuid, category: Category) -> Seq<u8> {
    id_bytes(user_id).push(category_index(category) as u8)
}

/// The start of a HMAC that a token carries.
pub open spec fn mac_of(hmac: Seq<u8>) -> Seq<u8> {
    if hmac.len() > MAC_LEN {
        hmac.take(MAC_LEN as int)
    } else {
        hmac
    }
}

/// The bytes of a token.
pub open spec fn token_bytes(user_id: Uuid, category: Category, hmac: Seq<u8>) -> Seq<u8> {
    message_bytes(user_id, category) + mac_of(hmac)
}

/// What a token claims: who asks to switch which category off, and the proof
/// that it comes from this server.
#[derive(Debug, Clone)]
pub struct TokenClaim {
    pub user_id: Uuid,
    pub category: Category,
    pub mac: Vec<u8>,
}

/// `claim` is what the bytes of a token claim.
pub open spec fn claims(bytes: Seq<u8>, claim: TokenClaim) -> bool {
    &&& bytes.len() == 16 + 1 + MAC_LEN
    &&& id_bytes(claim.user_id) == bytes.take(16)
    &&& category_at(bytes[16] as int) == Some(claim.category)
    &&& claim.mac@ == bytes.skip(17)
}

/// The text is a token: bytes of the right number, for a category there is.
pub open spec fn is_token(text: Seq<char>) -> bool {
    base64_bytes(trim(text)) matches Some(b) && b.len() == 16 + 1 + MAC_LEN && category_at(
        b[16] as int,
    ) is Some
}

/// The bytes that the HMAC of a token is made of.
pub fn message(user_id: Uuid, category: Category) -> (r: Vec<u8>)
    ensures
        r@ == message_bytes(user_id, category),
{
    let id = user_id.to_bytes();
    let mut m: Vec<u8> = Vec::new();
    let mut i: usize = 0;
    while i < 16
        invariant
            i <= 16,
            id@ == id_bytes(user_id),
            m@ == id_bytes(user_id).take(i as int),
        decreases 16 - i,
    {
        m.push(id[i]);
        assert(id_bytes(user_id).take(i as int).push(id@[i as int]) =~= id_bytes(user_id).take(
            i + 1,
        ));
        i = i + 1;
    }
    assert(id_bytes(user_id).take(16) =~= id_bytes(user_id));
    m.push(category.index());
    m
}

/// The token for switching `category` e-mails off for `user_id`; `hmac` is
/// that of its [`message`].
pub fn token(user_id: Uuid, category: Category, hmac: &Vec<u8>) -> (r: String)
    ensures
        r@ == base64_text(token_bytes(user_id, category, hmac@)),
        base64_bytes(trim(r@)) == Some(token_bytes(user_id, category, hmac@)),
{
    let mut bytes = message(user_id, category);
    let ghost start = bytes@;
    let mut i: usize = 0;
    assert(start + mac_of(hmac@).take(0) =~= start);
    while i < MAC_LEN && i < hmac.len()
        invariant
            i <= MAC_LEN,
            i <= hmac@.len(),
            bytes@ == start + mac_of(hmac@).take(i as int),
        decreases MAC_LEN - i,
    {
        assert(mac_of(hmac@)[i as int] == hmac@[i as int]);
        assert(start + mac_of(hmac@).take(i + 1) =~= (start + mac_of(hmac@).take(i as int)).push(
            hmac@[i as int],
        ));
        bytes.push(hmac[i]);
        i = i + 1;
    }
    assert(mac_of(hmac@).take(i as int) =~= mac_of(hmac@));
    let r = encoded(&bytes);
    proof {
        assert forall|k: int| 0 <= k < r@.len() implies !crate::text::is_space(
            #[trigger] r@[k],
        ) by {
            assert(is_base64_char(r@[k]));
        }
        lemma_trim_solid(r@);
    }
    r
}

/// Reads what a token claims. `None` when malformed.
pub fn read(token: &str) -> (r: Option<TokenClaim>)
    ensures
        match r {
            Some(c) => is_token(token@) && claims(base64_bytes(trim(token@))->0, c),
            None => !is_token(token@),
        },
{
    let text = trimmed(token);
    let bytes = match decoded(text.as_str()) {
        Some(b) => b,
        None => {
            return None;
        },
    };
    if bytes.len() != 16 + 1 + MAC_LEN {
        return None;
    }
    let category = match Category::from_index(bytes[16]) {
        Some(c) => c,
        None => {
            return None;
        },
    };
    let mut id: [u8; 16] = [0u8; 16];
    let mut i: usize = 0;
    while i < 16
        invariant
            i <= 16,
            bytes@.len() == 33,
            id@.len() == 16,
            forall|j: int| 0 <= j < i ==> #[trigger] id@[j] == bytes@[j],
        decreases 16 - i,
    {
        id[i] = bytes[i];
        i = i + 1;
    }
    assert(id@ =~= bytes@.take(16));
    let mut mac: Vec<u8> = Vec::new();
    let mut k: usize = 17;
    while k < bytes.len()
        invariant
            bytes@.len() == 33,
            17 <= k <= 33,
            mac@ == bytes@.subrange(17, k as int),
        decreases 33 - k,
    {
        mac.push(bytes[k]);
        assert(bytes@.subrange(17, k + 1) =~= bytes@.subrange(17, k as int).push(
            bytes@[k as int],
        ));
        k = k + 1;
    }
    assert(mac@ =~= bytes@.skip(17));
    Some(TokenClaim { user_id: Uuid::from_bytes(id), category, mac })
}

impl TokenClaim {
    /// Verifies the claim; `hmac` is that of its [`message`]. `None` when
    /// forged or for a category that can't be unsubscribed from.
    pub fn verify(&self, hmac: &Vec<u8>) -> (r: Option<(Uuid, Category)>)
        ensures
            r == if self.category != Category::Security && self.mac@ == mac_of(hmac@) {
                Some((self.user_id, self.category))
            } else {
                None
            },
    {
        let n = if hmac.len() > MAC_LEN {
            MAC_LEN
        } else {
            hmac.len()
        };
        let mut expected: Vec<u8> = Vec::new();
        let mut i: usize = 0;
        while i < n
            invariant
                i <= n,
                n <= hmac@.len(),
                expected@ == hmac@.take(i as int),
            decreases n - i,
        {
            assert(hmac@.take(i + 1) =~= hmac@.take(i as int).push(hmac@[i as int]));
            expected.push(hmac[i]);
            i = i + 1;
        }
        assert(mac_of(hmac@) =~= hmac@.take(n as int));
        if self.category.locked() || !same_in_constant_time(
            self.mac.as_slice(),
            expected.as_slice(),
        ) {
            return None;
        }
        Some((self.user_id, self.category))
    }
}

/// The text is a token that claims this, and its proof is the start of the
/// HMAC `h`.
pub open spec fn is_proved(token: Seq<char>, claim: TokenClaim, h: Seq<u8>) -> bool {
    &&& is_token(token)
    &&& claims(base64_bytes(trim(token))->0, claim)
    &&& claim.mac@ == mac_of(h)
}

/// The text is a token that claims this, and either its category can't be
/// unsubscribed from or its proof is not the start of the HMAC `h`.
pub open spec fn is_refused(token: Seq<char>, claim: TokenClaim, h: Seq<u8>) -> bool {
    &&& is_token(token)
    &&& claims(base64_bytes(trim(token))->0, claim)
    &&& claim.category == Category::Security || claim.mac@ != mac_of(h)
}

/// Verifies a token; `hmac` makes the HMAC of the [`message`] of a user and a
/// category. `None` when malformed, forged or for a category that can't be
/// unsubscribed from.
pub fn parse<F: Fn(Uuid, Category) -> Vec<u8>>(token: &str, hmac: F) -> (r: Option<
    (Uuid, Category),
>)
    requires
        forall|u: Uuid, c: Category| #[trigger] call_requires(hmac, (u, c)),
    ensures
        r matches Some(p) ==> p.1 != Category::Security && exists|claim: TokenClaim, h: Vec<u8>|
            claim.user_id == p.0 && claim.category == p.1 && #[trigger] call_ensures(
                hmac,
                (claim.user_id, claim.category),
                h,
            ) && #[trigger] is_proved(token@, claim, h@),
        r is None ==> !is_token(token@) || exists|claim: TokenClaim, h: Vec<u8>| #[trigger]
            call_ensures(hmac, (claim.user_id, claim.category), h) && #[trigger] is_refused(
                token@,
                claim,
                h@,
            ),
{
    let claim = match read(token) {
        Some(claim) => claim,
        None => {
            return None;
        },
    };
    let h = hmac(claim.user_id, claim.category);
    let r = claim.verify(&h);
    proof {
        if r is Some {
            assert(call_ensures(hmac, (claim.user_id, claim.category), h) && is_proved(
                token@,
                claim,
                h@,
            ));
        } else {
            assert(call_ensures(hmac, (claim.user_id, claim.category), h) && is_refused(
                token@,
                claim,
                h@,
            ));
        }
    }
    r
}

/// A token that this server made is read back: it claims what it was made
/// for, and its proof is the start of the HMAC.
pub proof fn tokens_are_read_back(
    text: Seq<char>,
    user_id: Uuid,
    category: Category,
    hmac: Seq<u8>,
    claim: TokenClaim,
)
    requires
        hmac.len() >= MAC_LEN,
        base64_bytes(trim(text)) == Some(token_bytes(user_id, category, hmac)),
    ensures
        is_token(text),
        claims(base64_bytes(trim(text))->0, claim) ==> claim.user_id == user_id && claim.category
            == category && claim.mac@ == mac_of(hmac),
{
    let b = token_bytes(user_id, category, hmac);
    assert(b.take(16) =~= id_bytes(user_id));
    assert(b.skip(17) =~= mac_of(hmac));
    assert(b[16] == category_index(category) as u8);
    category_indexes_and_keys_round_trip(category);
    if claims(b, claim) {
        lemma_id_bytes(claim.user_id, user_id);
    }
}

/// Two tokens that differ in their user or category have different
/// [`message`]s, so a proof made for one says nothing of the other.
pub proof fn messages_are_distinct(a: Uuid, c: Category, b: Uuid, d: Category)
    requires
        message_bytes(a, c) == message_bytes(b, d),
    ensures
        a == b,
        c == d,
{
    assert(message_bytes(a, c).take(16) =~= id_bytes(a));
    assert(message_bytes(b, d).take(16) =~= id_bytes(b));
    assert(message_bytes(a, c)[16] == category_index(c) as u8);
    assert(message_bytes(b, d)[16] == category_index(d) as u8);
    lemma_id_bytes(a, b);
    category_indexes_and_keys_round_trip(c);
    category_indexes_and_keys_round_trip(d);
}

/// The address of the page that a token opens.
pub open spec fn link_text(base: Seq<char>, locale: Seq<char>, token: Seq<char>) -> Seq<char> {
    trim_end_char(base, '/') + "/"@ + locale + "/unsubscribe?token="@ + token
}

/// The link placed in e-mails: `{base}/{locale}/unsubscribe?token=...`.
pub fn link(
    app_base_url: &str,
    locale: &str,
    user_id: Uuid,
    category: Category,
    hmac: &Vec<u8>,
) -> (r: String)
    ensures
        r@ == link_text(
            app_base_url@,
            locale@,
            base64_text(token_bytes(user_id, category, hmac@)),
        ),
{
    let mut r = end_trimmed_of(app_base_url, '/');
    r.append("/");
    r.append(locale);
    r.append("/unsubscribe?token=");
    r.append(token(user_id, category, hmac).as_str());
    r
}

} // verus!
