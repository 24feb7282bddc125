//! Record identifiers.

use crate::json::{Json, JsonValue};
use vstd::prelude::*;

verus! {

/// The identifier of a record: 128 bits.
#[derive(Debug, Clone, Copy, PartialEq, Eq, Hash, Structural)]
pub struct Uuid(pub u128);

impl Uuid {
    /// A fresh identifier.
    pub fn new_v4() -> Uuid {
        Uuid(random_bits())
    }

    /// A fresh identifier, made of the current time and random bits.
    pub fn now_v7() -> Uuid {
        Uuid(timed_bits())
    }
}

/// `uuid::Uuid::new_v4`: the bits of a random identifier. Which ones is up to
/// the random number generator, so nothing is claimed of them.
#[verifier::external_body]
fn random_bits() -> u128 {
    uuid::Uuid::new_v4().as_u128()
}

/// `uuid::Uuid::now_v7`: the bits of an identifier made of the current time
/// and random bits, so nothing is claimed of them.
#[verifier::external_body]
fn timed_bits() -> u128 {
    uuid::Uuid::now_v7().as_u128()
}

/// The `k`-th hexadecimal digit of an identifier, the most significant one
/// first.
pub open spec fn id_digit(id: Uuid, k: int) -> char {
    let n = (id.0 >> ((4 * (31 - k)) as u128)) & 15;
    if n < 10 {
        ('0' as int + n) as char
    } else {
        ('a' as int + n - 10) as char
    }
}

/// An identifier as text: 32 hexadecimal digits in lower case, in groups of 8,
/// 4, 4, 4 and 12 with dashes between them.
pub open spec fn id_text(id: Uuid) -> Seq<char> {
    Seq::new(
        36,
        |i: int|
            if i == 8 || i == 13 || i == 18 || i == 23 {
                '-'
            } else if i < 8 {
                id_digit(id, i)
            } else if i < 13 {
                id_digit(id, i - 1)
            } else if i < 18 {
                id_digit(id, i - 2)
            } else if i < 23 {
                id_digit(id, i - 3)
            } else {
                id_digit(id, i - 4)
            },
    )
}

/// The hyphenated form of a `uuid::Uuid`, which is also its form in JSON: its
/// hexadecimal digits in lower case and in five groups.
#[verifier::external_body]
fn hyphenated(bits: u128) -> (r: String)
    ensures
        r@ == id_text(Uuid(bits)),
{
    uuid::Uuid::from_u128(bits).hyphenated().to_string()
}

/// The bytes of a `uuid::Uuid`: those of its bits, the most significant one
/// first.
#[verifier::external_body]
fn bytes_of(bits: u128) -> (r: [u8; 16])
    ensures
        r@ == id_bytes(Uuid(bits)),
{
    uuid::Uuid::from_u128(bits).into_bytes()
}

/// The `uuid::Uuid` of sixteen bytes: the one that has them.
#[verifier::external_body]
fn bits_of(bytes: [u8; 16]) -> (r: u128)
    ensures
        id_bytes(Uuid(r)) == bytes@,
{
    uuid::Uuid::from_bytes(bytes).as_u128()
}

impl Uuid {
    /// The identifier as text.
    pub fn text(&self) -> (r: String)
        ensures
            r@ == id_text(*self),
    {
        hyphenated(self.0)
    }

    /// The bytes of the identifier.
    pub fn to_bytes(&self) -> (r: [u8; 16])
        ensures
            r@ == id_bytes(*self),
    {
        bytes_of(self.0)
    }

    /// The identifier with these bytes.
    pub fn from_bytes(bytes: [u8; 16]) -> (r: Uuid)
        ensures
            id_bytes(r) == bytes@,
    {
        Uuid(bits_of(bytes))
    }
}

/// An identifier as JSON.
pub fn id_value(id: Uuid) -> (r: JsonValue)
    ensures
        r@ == Json::Text(id_text(id)),
{
    JsonValue::Text(id.text())
}

/// The `i`-th byte of an identifier, the most significant one first.
pub open spec fn id_byte(id: Uuid, i: int) -> u8 {
    ((id.0 >> ((8 * (15 - i)) as u128)) & 0xff) as u8
}

/// The 16 bytes of an identifier, the most significant one first.
pub open spec fn id_bytes(id: Uuid) -> Seq<u8> {
    Seq::new(16, |i: int| id_byte(id, i))
}

/// Different identifiers have different bytes.
pub proof fn lemma_id_bytes(a: Uuid, b: Uuid)
    requires
        id_bytes(a) == id_bytes(b),
    ensures
        a == b,
{
    let x = a.0;
    let y = b.0;
    assert forall|i: int| 0 <= i < 16 implies #[trigger] id_byte(a, i) == id_byte(b, i) by {
        assert(id_bytes(a)[i] == id_byte(a, i));
        assert(id_bytes(b)[i] == id_byte(b, i));
    }
    assert(id_byte(a, 0) == id_byte(b, 0));
    assert(id_byte(a, 1) == id_byte(b, 1));
    assert(id_byte(a, 2) == id_byte(b, 2));
    assert(id_byte(a, 3) == id_byte(b, 3));
    assert(id_byte(a, 4) == id_byte(b, 4));
    assert(id_byte(a, 5) == id_byte(b, 5));
    assert(id_byte(a, 6) == id_byte(b, 6));
    assert(id_byte(a, 7) == id_byte(b, 7));
    assert(id_byte(a, 8) == id_byte(b, 8));
    assert(id_byte(a, 9) == id_byte(b, 9));
    assert(id_byte(a, 10) == id_byte(b, 10));
    assert(id_byte(a, 11) == id_byte(b, 11));
    assert(id_byte(a, 12) == id_byte(b, 12));
    assert(id_byte(a, 13) == id_byte(b, 13));
    assert(id_byte(a, 14) == id_byte(b, 14));
    assert(id_byte(a, 15) == id_byte(b, 15));
    assert(x == y) by (bit_vector)
        requires
            ((x >> 120u128) & 0xff) as u8 == ((y >> 120u128) & 0xff) as u8,
            ((x >> 112u128) & 0xff) as u8 == ((y >> 112u128) & 0xff) as u8,
            ((x >> 104u128) & 0xff) as u8 == ((y >> 104u128) & 0xff) as u8,
            ((x >> 96u128) & 0xff) as u8 == ((y >> 96u128) & 0xff) as u8,
            ((x >> 88u128) & 0xff) as u8 == ((y >> 88u128) & 0xff) as u8,
            ((x >> 80u128) & 0xff) as u8 == ((y >> 80u128) & 0xff) as u8,
            ((x >> 72u128) & 0xff) as u8 == ((y >> 72u128) & 0xff) as u8,
            ((x >> 64u128) & 0xff) as u8 == ((y >> 64u128) & 0xff) as u8,
            ((x >> 56u128) & 0xff) as u8 == ((y >> 56u128) & 0xff) as u8,
            ((x >> 48u128) & 0xff) as u8 == ((y >> 48u128) & 0xff) as u8,
            ((x >> 40u128) & 0xff) as u8 == ((y >> 40u128) & 0xff) as u8,
            ((x >> 32u128) & 0xff) as u8 == ((y >> 32u128) & 0xff) as u8,
            ((x >> 24u128) & 0xff) as u8 == ((y >> 24u128) & 0xff) as u8,
            ((x >> 16u128) & 0xff) as u8 == ((y >> 16u128) & 0xff) as u8,
            ((x >> 8u128) & 0xff) as u8 == ((y >> 8u128) & 0xff) as u8,
            ((x >> 0u128) & 0xff) as u8 == ((y >> 0u128) & 0xff) as u8,
    ;
}

} // verus!
