//! Reading the members of stored JSON objects. A member that is absent, or
//! null, only counts where it may be; one of another kind never does.

use crate::json::{
    integer_in, integer_member, jsons, lemma_array_view, lemma_object_view, member, members,
    object_value, text_in, text_member, Json, JsonValue,
};
use crate::text::{opt_text, texts};
use crate::time::{
    chrono_date_text, day_in, is_day, is_moment, moment_in, moment_json, NaiveDate, NaiveDateTime,
    YEAR_MONTH_DAY,
};
use vstd::prelude::*;

verus! {

/// What an optional moment is.
pub open spec fn opt_moment(t: Option<NaiveDateTime>) -> Option<int> {
    match t {
        Some(m) => Some(m@),
        None => None,
    }
}

/// A flag; `default` where there is none.
pub open spec fn flag_or(v: Json, key: Seq<char>, default: bool) -> Option<bool> {
    match member(v, key) {
        None => Some(default),
        Some(Json::Bool(b)) => Some(b),
        _ => None,
    }
}

/// A list of texts.
pub open spec fn texts_member(v: Json, key: Seq<char>) -> Option<Seq<Seq<char>>> {
    match member(v, key) {
        Some(Json::Array(a)) => if forall|i: int| 0 <= i < a.len() ==> (#[trigger] a[i]) is Text {
            Some(Seq::new(a.len(), |i: int| a[i]->Text_0))
        } else {
            None
        },
        _ => None,
    }
}

/// A text that may be absent or null.
pub open spec fn opt_text_member(v: Json, key: Seq<char>) -> Option<Option<Seq<char>>> {
    match member(v, key) {
        None | Some(Json::Null) => Some(None),
        Some(Json::Text(s)) => Some(Some(s)),
        _ => None,
    }
}

/// A number that may be absent or null.
pub open spec fn opt_integer_member(v: Json, key: Seq<char>) -> Option<Option<i64>> {
    match member(v, key) {
        None | Some(Json::Null) => Some(None),
        Some(x) => match integer_in(x) {
            Some(n) => Some(Some(n)),
            None => None,
        },
    }
}

/// A day.
pub open spec fn day_member(v: Json, key: Seq<char>) -> Option<int> {
    match text_member(v, key) {
        Some(s) => day_in(s),
        None => None,
    }
}

/// A moment.
pub open spec fn moment_member(v: Json, key: Seq<char>) -> Option<int> {
    match text_member(v, key) {
        Some(s) => moment_in(s),
        None => None,
    }
}

/// A moment that may be absent or null.
pub open spec fn opt_moment_member(v: Json, key: Seq<char>) -> Option<Option<int>> {
    match member(v, key) {
        None | Some(Json::Null) => Some(None),
        Some(Json::Text(s)) => match moment_in(s) {
            Some(m) => Some(Some(m)),
            None => None,
        },
        _ => None,
    }
}

pub fn text_field(v: &JsonValue, key: &str) -> (r: Option<String>)
    ensures
        opt_text(r) == text_member(v@, key@),
{
    match v.text_of(key) {
        Some(s) => Some(s.to_string()),
        None => None,
    }
}

pub fn integer_field(v: &JsonValue, key: &str) -> (r: Option<i64>)
    ensures
        r == integer_member(v@, key@),
{
    match v.get(key) {
        Some(x) => x.as_i64(),
        None => None,
    }
}

pub fn flag_field(v: &JsonValue, key: &str, default: bool) -> (r: Option<bool>)
    ensures
        r == flag_or(v@, key@, default),
{
    match v.get(key) {
        Some(x) => x.as_bool(),
        None => Some(default),
    }
}

pub fn texts_field(v: &JsonValue, key: &str) -> (r: Option<Vec<String>>)
    ensures
        match r {
            Some(x) => texts_member(v@, key@) == Some(texts(x@)),
            None => texts_member(v@, key@) is None,
        },
{
    match v.get(key) {
        Some(JsonValue::Array(a)) => {
            proof {
                lemma_array_view(*a);
            }
            let ghost all = jsons(a@);
            let mut out: Vec<String> = Vec::new();
            let mut i: usize = 0;
            while i < a.len()
                invariant
                    all == jsons(a@),
                    member(v@, key@) == Some(Json::Array(all)),
                    i <= a@.len(),
                    out@.len() == i,
                    forall|j: int| 0 <= j < i ==> #[trigger] all[j] == Json::Text(out@[j]@),
                decreases a@.len() - i,
            {
                assert(all[i as int] == a@[i as int]@);
                match a[i].as_str() {
                    Some(s) => {
                        out.push(s.to_string());
                    },
                    None => {
                        assert(!(all[i as int] is Text));
                        return None;
                    },
                }
                i = i + 1;
            }
            assert(texts(out@) =~= Seq::new(all.len(), |i: int| all[i]->Text_0));
            Some(out)
        },
        _ => None,
    }
}

pub fn opt_text_field(v: &JsonValue, key: &str) -> (r: Option<Option<String>>)
    ensures
        match r {
            Some(x) => opt_text_member(v@, key@) == Some(opt_text(x)),
            None => opt_text_member(v@, key@) is None,
        },
{
    match v.get(key) {
        None | Some(JsonValue::Null) => Some(None),
        Some(JsonValue::Text(s)) => Some(Some(s.clone())),
        _ => None,
    }
}

pub fn opt_integer_field(v: &JsonValue, key: &str) -> (r: Option<Option<i64>>)
    ensures
        r == opt_integer_member(v@, key@),
{
    match v.get(key) {
        None | Some(JsonValue::Null) => Some(None),
        Some(x) => match x.as_i64() {
            Some(n) => Some(Some(n)),
            None => None,
        },
    }
}

pub fn value_field(v: &JsonValue, key: &str) -> (r: Option<JsonValue>)
    ensures
        match r {
            Some(x) => member(v@, key@) == Some(x@),
            None => member(v@, key@) is None,
        },
{
    match v.get(key) {
        Some(x) => Some(x.copy()),
        None => None,
    }
}

pub fn day_field(v: &JsonValue, key: &str) -> (r: Option<NaiveDate>)
    ensures
        match r {
            Some(d) => day_member(v@, key@) == Some(d@),
            None => day_member(v@, key@) is None,
        },
        forall|d: int|
            is_day(d) && text_member(v@, key@) == Some(
                #[trigger] chrono_date_text(d, YEAR_MONTH_DAY@),
            ) ==> day_member(v@, key@) == Some(d),
{
    match v.text_of(key) {
        Some(s) => NaiveDate::parse(s),
        None => None,
    }
}

pub fn moment_field(v: &JsonValue, key: &str) -> (r: Option<NaiveDateTime>)
    ensures
        match r {
            Some(m) => moment_member(v@, key@) == Some(m@),
            None => moment_member(v@, key@) is None,
        },
        forall|m: int|
            is_moment(m) && text_member(v@, key@) == Some(#[trigger] moment_json(m))
                ==> moment_member(v@, key@) == Some(m),
{
    match v.text_of(key) {
        Some(s) => NaiveDateTime::parse(s),
        None => None,
    }
}

pub fn opt_moment_field(v: &JsonValue, key: &str) -> (r: Option<Option<NaiveDateTime>>)
    ensures
        match r {
            Some(t) => opt_moment_member(v@, key@) == Some(opt_moment(t)),
            None => opt_moment_member(v@, key@) is None,
        },
        forall|m: int|
            is_moment(m) && member(v@, key@) == Some(Json::Text(#[trigger] moment_json(m)))
                ==> opt_moment_member(v@, key@) == Some(Some(m)),
{
    match v.get(key) {
        None | Some(JsonValue::Null) => Some(None),
        Some(JsonValue::Text(s)) => match NaiveDateTime::parse(s.as_str()) {
            Some(m) => Some(Some(m)),
            None => None,
        },
        _ => None,
    }
}

/// A whole number; `default` where there is none.
pub open spec fn integer_or(v: Json, key: Seq<char>, default: i64) -> Option<i64> {
    match member(v, key) {
        None => Some(default),
        Some(x) => integer_in(x),
    }
}

/// A whole number of 32 bits; `default` where there is none.
pub open spec fn small_integer_or(v: Json, key: Seq<char>, default: i32) -> Option<i32> {
    match integer_or(v, key, default as i64) {
        Some(n) => if i32::MIN <= n <= i32::MAX {
            Some(n as i32)
        } else {
            None
        },
        None => None,
    }
}

/// A text; `default` where there is none.
pub open spec fn text_or(v: Json, key: Seq<char>, default: Seq<char>) -> Option<Seq<char>> {
    match member(v, key) {
        None => Some(default),
        Some(x) => text_in(x),
    }
}

pub fn integer_or_field(v: &JsonValue, key: &str, default: i64) -> (r: Option<i64>)
    ensures
        r == integer_or(v@, key@, default),
{
    match v.get(key) {
        None => Some(default),
        Some(x) => x.as_i64(),
    }
}

pub fn small_integer_or_field(v: &JsonValue, key: &str, default: i32) -> (r: Option<i32>)
    ensures
        r == small_integer_or(v@, key@, default),
{
    match integer_or_field(v, key, default as i64) {
        Some(n) => if i32::MIN as i64 <= n && n <= i32::MAX as i64 {
            Some(n as i32)
        } else {
            None
        },
        None => None,
    }
}

pub fn text_or_field(v: &JsonValue, key: &str, default: &str) -> (r: Option<String>)
    ensures
        opt_text(r) == text_or(v@, key@, default@),
{
    match v.get(key) {
        None => Some(default.to_string()),
        Some(x) => match x.as_str() {
            Some(s) => Some(s.to_string()),
            None => None,
        },
    }
}

// ---------------------------------------------------------------------
// Records
// ---------------------------------------------------------------------

/// The names of the fields of a record.
pub open spec fn names_in(names: Seq<&'static str>) -> Seq<Seq<char>> {
    Seq::new(names.len(), |i: int| names[i]@)
}

/// A stored record, as an object: stored as an object, or as a list of the
/// values of its first fields, in the order of the fields.
pub open spec fn record(v: Json, names: Seq<Seq<char>>) -> Option<Json> {
    match v {
        Json::Object(_) => Some(v),
        Json::Array(a) => if a.len() <= names.len() {
            Some(Json::Object(Seq::new(a.len(), |i: int| (names[i], a[i]))))
        } else {
            None
        },
        _ => None,
    }
}

/// A stored record, as an object. `names` are those of its fields.
pub fn record_of<const N: usize>(v: &JsonValue, names: [&'static str; N]) -> (r: Option<JsonValue>)
    ensures
        match r {
            Some(o) => record(v@, names_in(names@)) == Some(o@),
            None => record(v@, names_in(names@)) is None,
        },
{
    match v {
        JsonValue::Object(_) => Some(v.copy()),
        JsonValue::Array(a) => {
            proof {
                lemma_array_view(*a);
            }
            if a.len() > N {
                return None;
            }
            let ghost all = jsons(a@);
            let mut m: Vec<(String, JsonValue)> = Vec::new();
            let mut i: usize = 0;
            while i < a.len()
                invariant
                    all == jsons(a@),
                    a@.len() <= N,
                    names@.len() == N,
                    i <= a@.len(),
                    m@.len() == i,
                    forall|j: int|
                        0 <= j < i ==> (#[trigger] m@[j]).0@ == names@[j]@ && m@[j].1@ == all[j],
                decreases a@.len() - i,
            {
                assert(all[i as int] == a@[i as int]@);
                m.push((names[i].to_string(), a[i].copy()));
                i = i + 1;
            }
            assert(members(m@) =~= record(v@, names_in(names@))->0->Object_0);
            Some(object_value(m))
        },
        _ => None,
    }
}

/// The fields of an item of a release.
pub const ITEM_FIELDS: [&'static str; 2] = ["kind", "text"];

/// The kind and the text of an item of a release.
pub open spec fn item_in(v: Json) -> Option<(Seq<char>, Json)> {
    match record(v, names_in(ITEM_FIELDS@)) {
        Some(o) => match (text_member(o, "kind"@), member(o, "text"@)) {
            (Some(kind), Some(text)) => Some((kind, text)),
            _ => None,
        },
        None => None,
    }
}

pub fn item_of(v: &JsonValue) -> (r: Option<(String, JsonValue)>)
    ensures
        match r {
            Some(x) => item_in(v@) == Some((x.0@, x.1@)),
            None => item_in(v@) is None,
        },
{
    match record_of(v, ITEM_FIELDS) {
        Some(o) => match (text_field(&o, "kind"), value_field(&o, "text")) {
            (Some(kind), Some(text)) => Some((kind, text)),
            _ => None,
        },
        None => None,
    }
}

/// The name of the variant that a stored value stands for: the name itself, or
/// an object whose only member has that name and holds nothing.
pub open spec fn variant_in(v: Json) -> Option<Seq<char>> {
    match v {
        Json::Text(s) => Some(s),
        Json::Object(m) => if m.len() == 1 && (m[0].1 == Json::Null || (m[0].1 matches Json::Object(
            n,
        ) && n.len() == 0)) {
            Some(m[0].0)
        } else {
            None
        },
        _ => None,
    }
}

pub fn variant_of(v: &JsonValue) -> (r: Option<String>)
    ensures
        opt_text(r) == variant_in(v@),
{
    match v {
        JsonValue::Text(s) => Some(s.clone()),
        JsonValue::Object(m) => {
            proof {
                lemma_object_view(*m);
            }
            if m.len() != 1 {
                return None;
            }
            assert(members(m@)[0] == (m@[0].0@, m@[0].1@));
            let nothing = match &m[0].1 {
                JsonValue::Null => true,
                JsonValue::Object(n) => {
                    proof {
                        lemma_object_view(*n);
                    }
                    n.len() == 0
                },
                _ => false,
            };
            if nothing {
                Some(m[0].0.clone())
            } else {
                None
            }
        },
        _ => None,
    }
}

} // verus!
