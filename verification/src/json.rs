//! JSON values: what the platform stores in its free-form columns.

use crate::text::{opt_str, same};
use crate::validation::comes_before;
use vstd::prelude::*;

verus! {

/// A JSON number. A number with a fraction or an exponent is kept as it is
/// written, with the whole number next above it (the nearest one there is in
/// 64 bits).
#[derive(Debug, Clone, PartialEq)]
pub enum Number {
    Unsigned(u64),
    Negative(i64),
    Decimal { text: String, ceiling: i64 },
}

/// A JSON value. The members of an object stand in the order of their keys.
#[derive(Debug, PartialEq)]
pub enum JsonValue {
    Null,
    Bool(bool),
    Number(Number),
    Text(String),
    Array(Vec<JsonValue>),
    Object(Vec<(String, JsonValue)>),
}

/// What a [`JsonValue`] is.
pub ghost enum Json {
    Null,
    Bool(bool),
    Unsigned(u64),
    Negative(i64),
    Decimal(Seq<char>, i64),
    Text(Seq<char>),
    Array(Seq<Json>),
    Object(Seq<(Seq<char>, Json)>),
}

impl View for Number {
    type V = Json;

    open spec fn view(&self) -> Json {
        match self {
            Number::Unsigned(n) => Json::Unsigned(*n),
            Number::Negative(n) => Json::Negative(*n),
            Number::Decimal { text, ceiling } => Json::Decimal(text@, *ceiling),
        }
    }
}

/// The value `v` stands for.
pub open spec fn json(v: JsonValue) -> Json
    decreases v,
{
    match v {
        JsonValue::Null => Json::Null,
        JsonValue::Bool(b) => Json::Bool(b),
        JsonValue::Number(n) => n@,
        JsonValue::Text(s) => Json::Text(s@),
        JsonValue::Array(items) => Json::Array(
            Seq::new(
                items@.len(),
                |i: int|
                    if 0 <= i < items@.len() {
                        json(items@[i])
                    } else {
                        Json::Null
                    },
            ),
        ),
        JsonValue::Object(members) => Json::Object(
            Seq::new(
                members@.len(),
                |i: int|
                    if 0 <= i < members@.len() {
                        (members@[i].0@, json(members@[i].1))
                    } else {
                        (seq![], Json::Null)
                    },
            ),
        ),
    }
}

impl View for JsonValue {
    type V = Json;

    open spec fn view(&self) -> Json {
        json(*self)
    }
}

/// The values of an array.
pub open spec fn jsons(v: Seq<JsonValue>) -> Seq<Json> {
    Seq::new(v.len(), |i: int| v[i]@)
}

/// The members of an object.
pub open spec fn members(v: Seq<(String, JsonValue)>) -> Seq<(Seq<char>, Json)> {
    Seq::new(v.len(), |i: int| (v[i].0@, v[i].1@))
}

pub proof fn lemma_array_view(v: Vec<JsonValue>)
    ensures
        JsonValue::Array(v)@ == Json::Array(jsons(v@)),
{
    assert(JsonValue::Array(v)@->Array_0 =~= jsons(v@));
}

pub proof fn lemma_object_view(v: Vec<(String, JsonValue)>)
    ensures
        JsonValue::Object(v)@ == Json::Object(members(v@)),
{
    assert(JsonValue::Object(v)@->Object_0 =~= members(v@));
}

/// Where the member `key` stands, or the number of members.
pub open spec fn member_index(m: Seq<(Seq<char>, Json)>, key: Seq<char>) -> int
    decreases m.len(),
{
    if m.len() == 0 || m[0].0 == key {
        0
    } else {
        1 + member_index(m.skip(1), key)
    }
}

/// The member `key` of a value: only objects have members.
pub open spec fn member(v: Json, key: Seq<char>) -> Option<Json> {
    match v {
        Json::Object(m) => if member_index(m, key) < m.len() {
            Some(m[member_index(m, key)].1)
        } else {
            None
        },
        _ => None,
    }
}

pub open spec fn text_in(v: Json) -> Option<Seq<char>> {
    match v {
        Json::Text(s) => Some(s),
        _ => None,
    }
}

/// The text of the member `key`.
pub open spec fn text_member(v: Json, key: Seq<char>) -> Option<Seq<char>> {
    match member(v, key) {
        Some(x) => text_in(x),
        None => None,
    }
}

pub open spec fn bool_member(v: Json, key: Seq<char>) -> Option<bool> {
    match member(v, key) {
        Some(Json::Bool(b)) => Some(b),
        _ => None,
    }
}

/// The integer a value holds, where it fits in 64 bits.
pub open spec fn integer_in(v: Json) -> Option<i64> {
    match v {
        Json::Unsigned(n) => if n <= i64::MAX {
            Some(n as i64)
        } else {
            None
        },
        Json::Negative(n) => Some(n),
        _ => None,
    }
}

pub open spec fn integer_member(v: Json, key: Seq<char>) -> Option<i64> {
    match member(v, key) {
        Some(x) => integer_in(x),
        None => None,
    }
}

/// The keys of an object stand in order, each once.
pub open spec fn sorted_members(m: Seq<(Seq<char>, Json)>) -> bool {
    forall|i: int, j: int| 0 <= i < j < m.len() ==> text_before(#[trigger] m[i].0, #[trigger] m[j].0)
}

/// The order of keys: by characters, a prefix first.
pub open spec fn text_before(a: Seq<char>, b: Seq<char>) -> bool
    decreases a.len(),
{
    if b.len() == 0 {
        false
    } else if a.len() == 0 {
        true
    } else if a[0] == b[0] {
        text_before(a.skip(1), b.skip(1))
    } else {
        a[0] < b[0]
    }
}

pub proof fn lemma_member_index(m: Seq<(Seq<char>, Json)>, key: Seq<char>)
    ensures
        0 <= member_index(m, key) <= m.len(),
        member_index(m, key) < m.len() ==> m[member_index(m, key)].0 == key,
        forall|i: int| 0 <= i < member_index(m, key) ==> (#[trigger] m[i]).0 != key,
    decreases m.len(),
{
    if m.len() > 0 && m[0].0 != key {
        lemma_member_index(m.skip(1), key);
        assert forall|i: int| 0 <= i < member_index(m, key) implies (#[trigger] m[i]).0 != key by {
            if i > 0 {
                assert(m[i] == m.skip(1)[i - 1]);
            }
        }
        if member_index(m, key) < m.len() {
            assert(m[member_index(m, key)] == m.skip(1)[member_index(m.skip(1), key)]);
        }
    }
}

/// Where the member `key` stands, or the number of members.
pub fn find_member(v: &Vec<(String, JsonValue)>, key: &str) -> (i: usize)
    ensures
        i == member_index(members(v@), key@),
        i <= v@.len(),
{
    let mut i: usize = 0;
    let ghost m = members(v@);
    assert(m.skip(0) =~= m);
    while i < v.len()
        invariant
            m == members(v@),
            i <= v@.len(),
            member_index(m, key@) == i + member_index(m.skip(i as int), key@),
        decreases v@.len() - i,
    {
        assert(m.skip(i as int)[0] == m[i as int]);
        if same(v[i].0.as_str(), key) {
            return i;
        }
        assert(m.skip(i as int).skip(1) =~= m.skip(i + 1));
        i = i + 1;
    }
    i
}

impl JsonValue {
    /// The member `key`, when this is an object that has one.
    pub fn get(&self, key: &str) -> (r: Option<&JsonValue>)
        ensures
            match r {
                Some(x) => member(self@, key@) == Some(x@),
                None => member(self@, key@) is None,
            },
    {
        match self {
            JsonValue::Object(m) => {
                proof {
                    lemma_object_view(*m);
                }
                let i = find_member(m, key);
                if i < m.len() {
                    Some(&m[i].1)
                } else {
                    None
                }
            },
            _ => None,
        }
    }

    pub fn as_str(&self) -> (r: Option<&str>)
        ensures
            opt_str(r) == text_in(self@),
    {
        match self {
            JsonValue::Text(s) => Some(s.as_str()),
            _ => None,
        }
    }

    pub fn as_bool(&self) -> (r: Option<bool>)
        ensures
            r == (match self@ {
                Json::Bool(b) => Some(b),
                _ => None,
            }),
    {
        match self {
            JsonValue::Bool(b) => Some(*b),
            _ => None,
        }
    }

    pub fn as_i64(&self) -> (r: Option<i64>)
        ensures
            r == integer_in(self@),
    {
        match self {
            JsonValue::Number(Number::Unsigned(n)) => if *n <= i64::MAX as u64 {
                Some(*n as i64)
            } else {
                None
            },
            JsonValue::Number(Number::Negative(n)) => Some(*n),
            _ => None,
        }
    }

    pub fn is_null(&self) -> (r: bool)
        ensures
            r == (self@ is Null),
    {
        match self {
            JsonValue::Null => true,
            _ => false,
        }
    }

    pub fn is_object(&self) -> (r: bool)
        ensures
            r == (self@ is Object),
    {
        match self {
            JsonValue::Object(_) => true,
            _ => false,
        }
    }

    /// The text of the member `key`.
    pub fn text_of(&self, key: &str) -> (r: Option<&str>)
        ensures
            opt_str(r) == text_member(self@, key@),
    {
        match self.get(key) {
            Some(v) => v.as_str(),
            None => None,
        }
    }

    /// The flag the member `key` holds.
    pub fn bool_of(&self, key: &str) -> (r: Option<bool>)
        ensures
            r == bool_member(self@, key@),
    {
        match self.get(key) {
            Some(v) => v.as_bool(),
            None => None,
        }
    }

    /// An equal value.
    pub fn copy(&self) -> (r: JsonValue)
        ensures
            r@ == self@,
        decreases *self,
    {
        match self {
            JsonValue::Null => JsonValue::Null,
            JsonValue::Bool(b) => JsonValue::Bool(*b),
            JsonValue::Number(n) => JsonValue::Number(
                match n {
                    Number::Unsigned(k) => Number::Unsigned(*k),
                    Number::Negative(k) => Number::Negative(*k),
                    Number::Decimal { text, ceiling } => Number::Decimal {
                        text: text.clone(),
                        ceiling: *ceiling,
                    },
                },
            ),
            JsonValue::Text(s) => JsonValue::Text(s.clone()),
            JsonValue::Array(items) => {
                let mut out: Vec<JsonValue> = Vec::new();
                let mut i: usize = 0;
                while i < items.len()
                    invariant
                        i <= items@.len(),
                        *self == JsonValue::Array(*items),
                        jsons(out@) =~= jsons(items@).take(i as int),
                    decreases items@.len() - i,
                {
                    proof {
                        assert(decreases_to!(*self => self->Array_0));
                        assert(decreases_to!(*items => items@));
                        assert(decreases_to!(items@ => items@[i as int]));
                    }
                    let x = items[i].copy();
                    let ghost before = out@;
                    out.push(x);
                    assert(jsons(out@) =~= jsons(before).push(x@));
                    i = i + 1;
                }
                proof {
                    lemma_array_view(*items);
                    lemma_array_view(out);
                    assert(jsons(out@) =~= jsons(items@));
                }
                JsonValue::Array(out)
            },
            JsonValue::Object(m) => {
                let mut out: Vec<(String, JsonValue)> = Vec::new();
                let mut i: usize = 0;
                while i < m.len()
                    invariant
                        i <= m@.len(),
                        *self == JsonValue::Object(*m),
                        members(out@) =~= members(m@).take(i as int),
                    decreases m@.len() - i,
                {
                    let k = m[i].0.clone();
                    proof {
                        assert(decreases_to!(*self => self->Object_0));
                        assert(decreases_to!(*m => m@));
                        assert(decreases_to!(m@ => m@[i as int]));
                        assert(decreases_to!(m@[i as int] => m@[i as int].1));
                    }
                    let x = m[i].1.copy();
                    let ghost before = out@;
                    out.push((k, x));
                    assert(members(out@) =~= members(before).push((k@, x@)));
                    i = i + 1;
                }
                proof {
                    lemma_object_view(*m);
                    lemma_object_view(out);
                    assert(members(out@) =~= members(m@));
                }
                JsonValue::Object(out)
            },
        }
    }
}

// ---------------------------------------------------------------------
// The order of keys
// ---------------------------------------------------------------------

proof fn lemma_not_before_itself(a: Seq<char>)
    ensures
        !text_before(a, a),
    decreases a.len(),
{
    if a.len() > 0 {
        lemma_not_before_itself(a.skip(1));
    }
}

proof fn lemma_before_is_transitive(a: Seq<char>, b: Seq<char>, c: Seq<char>)
    requires
        text_before(a, b),
        text_before(b, c),
    ensures
        text_before(a, c),
    decreases a.len(),
{
    if a.len() > 0 && a[0] == b[0] && b[0] == c[0] {
        lemma_before_is_transitive(a.skip(1), b.skip(1), c.skip(1));
    }
}

proof fn lemma_before_is_total(a: Seq<char>, b: Seq<char>)
    ensures
        text_before(a, b) || a == b || text_before(b, a),
    decreases a.len(),
{
    if a.len() > 0 && b.len() > 0 && a[0] == b[0] {
        lemma_before_is_total(a.skip(1), b.skip(1));
        if a.skip(1) == b.skip(1) {
            assert(a =~= seq![a[0]] + a.skip(1));
            assert(b =~= seq![b[0]] + b.skip(1));
        }
    } else if a.len() == 0 && b.len() == 0 {
        assert(a =~= b);
    }
}

/// The member `key` of the object with the members `m`.
pub open spec fn member_of(m: Seq<(Seq<char>, Json)>, key: Seq<char>) -> Option<Json> {
    if member_index(m, key) < m.len() {
        Some(m[member_index(m, key)].1)
    } else {
        None
    }
}

pub proof fn lemma_member_at(m: Seq<(Seq<char>, Json)>, i: int)
    requires
        sorted_members(m),
        0 <= i < m.len(),
    ensures
        member_of(m, m[i].0) == Some(m[i].1),
{
    let key = m[i].0;
    lemma_member_index(m, key);
    lemma_not_before_itself(key);
    if member_index(m, key) < i {
        assert(text_before(m[member_index(m, key)].0, m[i].0));
    }
}

proof fn lemma_no_member(m: Seq<(Seq<char>, Json)>, key: Seq<char>)
    requires
        forall|i: int| 0 <= i < m.len() ==> (#[trigger] m[i]).0 != key,
    ensures
        member_of(m, key) is None,
{
    lemma_member_index(m, key);
}

/// The member that a key names is the first with that key.
pub proof fn lemma_first_member(m: Seq<(Seq<char>, Json)>, i: int)
    requires
        0 <= i < m.len(),
        forall|j: int| 0 <= j < i ==> (#[trigger] m[j]).0 != m[i].0,
    ensures
        member(Json::Object(m), m[i].0) == Some(m[i].1),
{
    lemma_member_index(m, m[i].0);
}

/// The first of the members from `i` on comes before the others.
pub proof fn lemma_member_skip(m: Seq<(Seq<char>, Json)>, i: int)
    requires
        0 <= i < m.len(),
    ensures
        forall|key: Seq<char>| #[trigger]
            member_of(m.skip(i), key) == if m[i].0 == key {
                Some(m[i].1)
            } else {
                member_of(m.skip(i + 1), key)
            },
{
    assert(m.skip(i).skip(1) =~= m.skip(i + 1));
    assert(m.skip(i)[0] == m[i]);
    assert forall|key: Seq<char>| #[trigger]
        member_of(m.skip(i), key) == if m[i].0 == key {
            Some(m[i].1)
        } else {
            member_of(m.skip(i + 1), key)
        } by {
        lemma_member_index(m.skip(i + 1), key);
    }
}

/// Where the member `key` stands among members in order, or belongs.
fn member_place(m: &Vec<(String, JsonValue)>, key: &str) -> (p: usize)
    requires
        sorted_members(members(m@)),
    ensures
        p <= m@.len(),
        forall|i: int| 0 <= i < p ==> text_before(#[trigger] members(m@)[i].0, key@),
        forall|i: int| p <= i < m@.len() ==> !text_before(#[trigger] members(m@)[i].0, key@),
        forall|i: int| p < i < m@.len() ==> text_before(key@, #[trigger] members(m@)[i].0),
{
    let ghost all = members(m@);
    let mut p: usize = 0;
    while p < m.len() && comes_before(m[p].0.as_str(), key)
        invariant
            all == members(m@),
            p <= m@.len(),
            forall|i: int| 0 <= i < p ==> text_before(#[trigger] all[i].0, key@),
        decreases m@.len() - p,
    {
        assert(all[p as int].0 == m@[p as int].0@);
        p = p + 1;
    }
    proof {
        if p < m@.len() {
            let at = all[p as int].0;
            assert(at == m@[p as int].0@);
            lemma_before_is_total(at, key@);
            assert forall|i: int| p <= i < m@.len() implies !text_before(#[trigger] all[i].0, key@)
                && (p < i ==> text_before(key@, all[i].0)) by {
                if p < i {
                    assert(text_before(at, all[i].0));
                    if text_before(key@, at) {
                        lemma_before_is_transitive(key@, at, all[i].0);
                    }
                    if text_before(all[i].0, key@) {
                        lemma_before_is_transitive(key@, all[i].0, key@);
                        lemma_not_before_itself(key@);
                    }
                }
            }
        }
    }
    p
}

/// Gives the member `key` a value.
pub fn set_member(m: &mut Vec<(String, JsonValue)>, key: String, value: JsonValue)
    requires
        sorted_members(members(old(m)@)),
    ensures
        sorted_members(members(final(m)@)),
        forall|k: Seq<char>| #[trigger]
            member_of(members(final(m)@), k) == if k == key@ {
                Some(value@)
            } else {
                member_of(members(old(m)@), k)
            },
{
    let ghost before = members(m@);
    let p = member_place(m, key.as_str());
    let n = m.len();
    let ghost k0 = key@;
    let ghost v0 = value@;
    if p < n && same(m[p].0.as_str(), key.as_str()) {
        m.set(p, (key, value));
        assert(members(m@) =~= before.update(p as int, (k0, v0)));
    } else {
        proof {
            if p < n {
                assert(before[p as int].0 == m@[p as int].0@);
                lemma_before_is_total(before[p as int].0, k0);
            }
        }
        m.insert(p, (key, value));
        assert(members(m@) =~= before.insert(p as int, (k0, v0)));
    }
    let ghost after = members(m@);
    proof {
        assert(after[p as int] == (k0, v0));
        assert forall|i: int, j: int| 0 <= i < j < after.len() implies text_before(
            #[trigger] after[i].0,
            #[trigger] after[j].0,
        ) by {
            let x = if i < p || after.len() == before.len() {
                i
            } else {
                i - 1
            };
            let y = if j < p || after.len() == before.len() {
                j
            } else {
                j - 1
            };
            if i != p && j != p {
                assert(after[i] == before[x] && after[j] == before[y]);
                assert(text_before(before[x].0, before[y].0));
            } else if i == p {
                assert(after[j] == before[y]);
                if after.len() == before.len() {
                    assert(text_before(k0, before[y].0));
                }
            } else {
                assert(after[i] == before[x]);
            }
        }
        assert forall|k: Seq<char>| #[trigger]
            member_of(after, k) == if k == k0 {
                Some(v0)
            } else {
                member_of(before, k)
            } by {
            if k == k0 {
                lemma_member_at(after, p as int);
            } else {
                lemma_member_index(before, k);
                let i = member_index(before, k);
                if i < before.len() {
                    let j = if i < p || after.len() == before.len() {
                        i
                    } else {
                        i + 1
                    };
                    assert(after[j] == before[i]);
                    lemma_member_at(after, j);
                } else {
                    assert forall|j: int| 0 <= j < after.len() implies (#[trigger] after[j]).0
                        != k by {
                        if j != p {
                            let x = if j < p || after.len() == before.len() {
                                j
                            } else {
                                j - 1
                            };
                            assert(after[j] == before[x]);
                        }
                    }
                    lemma_no_member(after, k);
                }
            }
        }
    }
}

/// Takes the member `key` away.
pub fn remove_member(m: &mut Vec<(String, JsonValue)>, key: &str)
    requires
        sorted_members(members(old(m)@)),
    ensures
        sorted_members(members(final(m)@)),
        forall|k: Seq<char>| #[trigger]
            member_of(members(final(m)@), k) == if k == key@ {
                None
            } else {
                member_of(members(old(m)@), k)
            },
{
    let ghost before = members(m@);
    let p = find_member(m, key);
    let n = m.len();
    proof {
        lemma_member_index(before, key@);
    }
    if p < n {
        let _gone = m.remove(p);
        let ghost after = members(m@);
        proof {
            assert(after =~= before.remove(p as int));
            assert forall|i: int, j: int| 0 <= i < j < after.len() implies text_before(
                #[trigger] after[i].0,
                #[trigger] after[j].0,
            ) by {
                let x = if i < p {
                    i
                } else {
                    i + 1
                };
                let y = if j < p {
                    j
                } else {
                    j + 1
                };
                assert(after[i] == before[x] && after[j] == before[y]);
                assert(text_before(before[x].0, before[y].0));
            }
            assert forall|k: Seq<char>| #[trigger]
                member_of(after, k) == if k == key@ {
                    None
                } else {
                    member_of(before, k)
                } by {
                lemma_member_index(before, k);
                let i = member_index(before, k);
                if k != key@ && i < before.len() {
                    let j = if i < p {
                        i
                    } else {
                        i - 1
                    };
                    assert(after[j] == before[i]);
                    lemma_member_at(after, j);
                } else {
                    assert forall|j: int| 0 <= j < after.len() implies (#[trigger] after[j]).0
                        != k by {
                        let x = if j < p {
                            j
                        } else {
                            j + 1
                        };
                        assert(after[j] == before[x]);
                        if before[x].0 == k {
                            assert(k == key@);
                            lemma_not_before_itself(k);
                            if x < p {
                                assert(text_before(before[x].0, before[p as int].0));
                            } else {
                                assert(text_before(before[p as int].0, before[x].0));
                            }
                        }
                    }
                    lemma_no_member(after, k);
                }
            }
        }
    } else {
        proof {
            lemma_no_member(before, key@);
        }
    }
}

// ---------------------------------------------------------------------
// Writing values
// ---------------------------------------------------------------------

#[verifier::external_type_specification]
#[verifier::external_body]
pub struct ExSerdeValue(serde_json::Value);

/// `value` as a `serde_json::Value`, part by part. Nothing is claimed of it.
#[verifier::external_body]
fn outside_value(value: &JsonValue) -> serde_json::Value {
    match value {
        JsonValue::Null => serde_json::Value::Null,
        JsonValue::Bool(b) => (*b).into(),
        JsonValue::Number(Number::Unsigned(n)) => (*n).into(),
        JsonValue::Number(Number::Negative(n)) => (*n).into(),
        JsonValue::Number(Number::Decimal { text, .. }) => serde_json::from_str(text).unwrap_or_default(),
        JsonValue::Text(s) => s.as_str().into(),
        JsonValue::Array(items) => items.iter().map(outside_value).collect(),
        JsonValue::Object(m) => m.iter().map(|(k, v)| (k.clone(), outside_value(v))).collect(),
    }
}

/// What `serde_json` writes for a value.
pub uninterp spec fn compact_json(v: Json) -> Seq<char>;

/// `value` as `serde_json` writes it, without blanks (`to_string` of a
/// `serde_json::Value`). The text is a function of the value; what it looks
/// like is not stated.
#[verifier::external_body]
pub(crate) fn compact_text(value: &JsonValue) -> (r: String)
    ensures
        r@ == compact_json(value@),
{
    outside_value(value).to_string()
}

// ---------------------------------------------------------------------
// Making values
// ---------------------------------------------------------------------

/// A whole number as JSON.
pub open spec fn json_number(n: int) -> Json {
    if n >= 0 {
        Json::Unsigned(n as u64)
    } else {
        Json::Negative(n as i64)
    }
}

/// A text as JSON, or null.
pub open spec fn json_text(t: Option<Seq<char>>) -> Json {
    match t {
        Some(s) => Json::Text(s),
        None => Json::Null,
    }
}

pub fn text_value(s: &str) -> (r: JsonValue)
    ensures
        r@ == Json::Text(s@),
{
    JsonValue::Text(s.to_string())
}

pub fn opt_text_value(s: Option<&str>) -> (r: JsonValue)
    ensures
        r@ == json_text(opt_str(s)),
{
    match s {
        Some(t) => JsonValue::Text(t.to_string()),
        None => JsonValue::Null,
    }
}

pub fn number_value(n: i64) -> (r: JsonValue)
    ensures
        r@ == json_number(n as int),
{
    if n >= 0 {
        JsonValue::Number(Number::Unsigned(n as u64))
    } else {
        JsonValue::Number(Number::Negative(n))
    }
}

pub fn list_value(items: Vec<JsonValue>) -> (r: JsonValue)
    ensures
        r@ == Json::Array(jsons(items@)),
{
    proof {
        lemma_array_view(items);
    }
    JsonValue::Array(items)
}

pub fn object_value(m: Vec<(String, JsonValue)>) -> (r: JsonValue)
    ensures
        r@ == Json::Object(members(m@)),
{
    proof {
        lemma_object_view(m);
    }
    JsonValue::Object(m)
}

/// The object with these members, in this order.
pub fn object1(k1: &str, v1: JsonValue) -> (r: JsonValue)
    ensures
        r@ == Json::Object(seq![(k1@, v1@)]),
{
    let mut m: Vec<(String, JsonValue)> = Vec::new();
    m.push((k1.to_string(), v1));
    assert(members(m@) =~= seq![(k1@, v1@)]);
    object_value(m)
}

/// The object with these members, in this order.
pub fn object2(k1: &str, v1: JsonValue, k2: &str, v2: JsonValue) -> (r: JsonValue)
    ensures
        r@ == Json::Object(seq![(k1@, v1@), (k2@, v2@)]),
{
    let mut m: Vec<(String, JsonValue)> = Vec::new();
    m.push((k1.to_string(), v1));
    m.push((k2.to_string(), v2));
    assert(members(m@) =~= seq![(k1@, v1@), (k2@, v2@)]);
    object_value(m)
}

impl Clone for JsonValue {
    fn clone(&self) -> (r: Self)
        ensures
            r@ == self@,
    {
        self.copy()
    }
}

} // verus!
