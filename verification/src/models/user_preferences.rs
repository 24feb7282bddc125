//! What a user chose for themselves.

use crate::errors::api_error::{ApiError, Failure};
use crate::json::{
    compact_json, compact_text, lemma_array_view, lemma_member_skip, lemma_object_view, member_of,
    remove_member, set_member, sorted_members,
};
use crate::validation::added;
use vstd::utf8::encode_utf8;
use crate::ids::Uuid;
use crate::json::{Json, JsonValue, jsons, member, members, object_value};
use crate::text::same;
use crate::time::NaiveDateTime;
use crate::validation::{ErrorView, ValidationError, ValidationErrors, Wrong, judged, no_errors, noted, unless, verdict};
use vstd::prelude::*;

verus! {

/// The languages the frontend actually ships (see `i18n/routing.ts`).
pub const SUPPORTED_LANGUAGES: [&'static str; 3] = ["en", "pt-BR", "es"];

/// Upper bound for the serialized `ui_settings` object.
pub const MAX_UI_SETTINGS_BYTES: usize = 16_384;

/// Deepest nesting accepted in `ui_settings` (the top-level object is 1).
pub const MAX_UI_SETTINGS_DEPTH: usize = 6;

/// One of [`SUPPORTED_LANGUAGES`].
pub open spec fn is_supported_language(s: Seq<char>) -> bool {
    exists|i: int| 0 <= i < 3 && #[trigger] SUPPORTED_LANGUAGES@[i]@ == s
}

pub fn language_supported(s: &str) -> (r: bool)
    ensures
        r == is_supported_language(s@),
{
    let mut i: usize = 0;
    while i < 3
        invariant
            i <= 3,
            forall|j: int| 0 <= j < i ==> #[trigger] SUPPORTED_LANGUAGES@[j]@ != s@,
        decreases 3 - i,
    {
        if same(SUPPORTED_LANGUAGES[i], s) {
            assert(SUPPORTED_LANGUAGES@[i as int]@ == s@);
            return true;
        }
        i = i + 1;
    }
    false
}

/// The deepest of the values, from `i` on.
pub open spec fn deepest(v: Seq<Json>, i: int) -> nat
    decreases v, v.len() - i,
{
    if i < 0 || i >= v.len() {
        0
    } else {
        let a = depth(v[i]);
        let b = deepest(v, i + 1);
        if a > b {
            a
        } else {
            b
        }
    }
}

/// The deepest of the members, from `i` on.
pub open spec fn deepest_member(m: Seq<(Seq<char>, Json)>, i: int) -> nat
    decreases m, m.len() - i,
{
    if i < 0 || i >= m.len() {
        0
    } else {
        let a = depth(m[i].1);
        let b = deepest_member(m, i + 1);
        if a > b {
            a
        } else {
            b
        }
    }
}

/// Nesting depth of a JSON value (scalars are 0, `{}` is 1).
pub open spec fn depth(v: Json) -> nat
    decreases v, 0int,
{
    match v {
        Json::Object(m) => 1 + deepest_member(m, 0),
        Json::Array(items) => 1 + deepest(items, 0),
        _ => 0,
    }
}

/// `n`, or the largest `usize` when `n` is beyond it.
pub open spec fn as_usize(n: nat) -> usize {
    if n <= usize::MAX {
        n as usize
    } else {
        usize::MAX
    }
}

fn one_more(n: usize) -> (r: usize)
    ensures
        forall|k: nat| #[trigger] as_usize(k) == n ==> r == as_usize(1 + k),
{
    if n < usize::MAX {
        n + 1
    } else {
        n
    }
}

/// Nesting depth of a JSON value (scalars are 0, `{}` is 1). A depth that
/// `usize` cannot hold counts as its largest value.
pub fn json_depth(value: &JsonValue) -> (r: usize)
    ensures
        r == as_usize(depth(value@)),
    decreases *value,
{
    match value {
        JsonValue::Object(m) => {
            proof {
                lemma_object_view(*m);
            }
            let ghost all = members(m@);
            let mut i: usize = m.len();
            let mut most: usize = 0;
            while i > 0
                invariant
                    i <= m@.len(),
                    *value == JsonValue::Object(*m),
                    all == members(m@),
                    most == as_usize(deepest_member(all, i as int)),
                decreases i,
            {
                i = i - 1;
                proof {
                    assert(decreases_to!(*value => value->Object_0));
                    assert(decreases_to!(*m => m@));
                    assert(decreases_to!(m@ => m@[i as int]));
                    assert(decreases_to!(m@[i as int] => m@[i as int].1));
                }
                let d = json_depth(&m[i].1);
                assert(all[i as int].1 == m@[i as int].1@);
                if d > most {
                    most = d;
                }
            }
            one_more(most)
        },
        JsonValue::Array(items) => {
            proof {
                lemma_array_view(*items);
            }
            let ghost all = jsons(items@);
            let mut i: usize = items.len();
            let mut most: usize = 0;
            while i > 0
                invariant
                    i <= items@.len(),
                    *value == JsonValue::Array(*items),
                    all == jsons(items@),
                    most == as_usize(deepest(all, i as int)),
                decreases i,
            {
                i = i - 1;
                proof {
                    assert(decreases_to!(*value => value->Array_0));
                    assert(decreases_to!(*items => items@));
                    assert(decreases_to!(items@ => items@[i as int]));
                }
                let d = json_depth(&items[i]);
                assert(all[i as int] == items@[i as int]@);
                if d > most {
                    most = d;
                }
            }
            one_more(most)
        },
        _ => 0,
    }
}

#[derive(Debug, Clone, Copy, PartialEq, Eq, Structural)]
pub enum UserTheme {
    Light,
    Dark,
    System,
}

#[derive(Debug, Clone)]
pub struct UserPreferences {
    pub id: Uuid,
    pub user_id: Uuid,
    pub language: String,
    pub theme: UserTheme,
    pub live_mode_font_size: i32,
    /// Client-owned UI settings (live mode and PDF defaults, list sizes,
    /// "what's new" read state...). Always a JSON object.
    pub ui_settings: JsonValue,
    pub created_at: NaiveDateTime,
    pub updated_at: NaiveDateTime,
}

/// What is wrong with a language.
pub open spec fn language_error(language: Seq<char>) -> Option<ErrorView> {
    if is_supported_language(language) {
        None
    } else {
        Some(
            ErrorView {
                code: "unsupported_language"@,
                message: Some("Unsupported language."@),
            },
        )
    }
}

pub fn validate_language(language: &str) -> (r: Result<(), ValidationError>)
    ensures
        verdict(r) == language_error(language@),
{
    if language_supported(language) {
        return Ok(());
    }
    Err(ValidationError::with_message("unsupported_language", "Unsupported language."))
}

/// What is wrong with the settings.
pub open spec fn settings_error(value: Json) -> Option<ErrorView> {
    let problem = if !(value is Object) {
        Some("UI settings must be a JSON object."@)
    } else if encode_utf8(compact_json(value)).len() > MAX_UI_SETTINGS_BYTES {
        Some("UI settings are too large."@)
    } else if depth(value) > MAX_UI_SETTINGS_DEPTH {
        Some("UI settings are nested too deeply."@)
    } else {
        None
    };
    match problem {
        Some(m) => Some(ErrorView { code: "invalid_ui_settings"@, message: Some(m) }),
        None => None,
    }
}

pub fn validate_ui_settings(value: &JsonValue) -> (r: Result<(), ValidationError>)
    ensures
        verdict(r) == settings_error(value@),
{
    if !value.is_object() {
        return Err(
            ValidationError::with_message(
                "invalid_ui_settings",
                "UI settings must be a JSON object.",
            ),
        );
    }
    if compact_text(value).as_str().as_bytes().len() > MAX_UI_SETTINGS_BYTES {
        return Err(
            ValidationError::with_message("invalid_ui_settings", "UI settings are too large."),
        );
    }
    if json_depth(value) > MAX_UI_SETTINGS_DEPTH {
        return Err(
            ValidationError::with_message(
                "invalid_ui_settings",
                "UI settings are nested too deeply.",
            ),
        );
    }
    Ok(())
}

/// Checks the stored object that results from a merge, answering a
/// regular `VALIDATION_ERROR` on the `ui_settings` field.
pub fn check_merged_ui_settings(merged: &JsonValue) -> (r: Result<(), ApiError>)
    ensures
        match settings_error(merged@) {
            None => r is Ok,
            Some(error) => r matches Err(e) && e@ == Failure::Validation(
                added(no_errors(), "ui_settings"@, error).fields,
            ),
        },
{
    match validate_ui_settings(merged) {
        Ok(()) => Ok(()),
        Err(error) => {
            let mut errors = ValidationErrors::new();
            errors.add_error("ui_settings", error);
            Err(ApiError::ValidationError(errors))
        },
    }
}

#[derive(Debug, Clone)]
pub struct UpdatePreferencesPayload {
    pub language: Option<String>,
    pub theme: Option<UserTheme>,
    pub live_mode_font_size: Option<i32>,
    /// Shallow-merged into the stored object: top-level keys present here
    /// replace the stored ones, keys set to `null` are removed, and keys
    /// not mentioned are kept.
    pub ui_settings: Option<JsonValue>,
}

impl UpdatePreferencesPayload {
    /// The rules that this payload breaks.
    pub open spec fn broken_rules(self) -> Wrong {
        let e = no_errors();
        let e = noted(e, "language"@, match self.language { Some(x) => language_error(x@), None => None });
        let e = unless(e, (self.live_mode_font_size matches Some(x) ==> 50 <= x <= 300), "live_mode_font_size"@, "range"@, None);
        noted(e, "ui_settings"@, match self.ui_settings { Some(x) => settings_error(x@), None => None })
    }

    /// Checks the payload against its rules.
    pub fn validate(&self) -> (r: Result<(), ValidationErrors>)
        ensures
            judged(r, self.broken_rules()),
    {
        let mut e = ValidationErrors::new();
        e.note("language", match &self.language { Some(x) => validate_language(x.as_str()), None => Ok(()) });
        e.check(match self.live_mode_font_size { Some(x) => 50 <= x && x <= 300, None => true }, "live_mode_font_size", "range", None);
        e.note("ui_settings", match &self.ui_settings { Some(x) => validate_ui_settings(x), None => Ok(()) });
        e.into_result()
    }
}

/// What the member `key` becomes when `patch` is merged into `base`.
pub open spec fn merged_member(base: Json, patch: Json, key: Seq<char>) -> Option<Json> {
    match member(patch, key) {
        Some(Json::Null) => None,
        Some(v) => Some(v),
        None => member(base, key),
    }
}

/// Every member of the object `m`, in the order of the keys, is the one that
/// merging `patch` into `base` gives, and it has no others.
pub open spec fn is_merge(m: Json, base: Json, patch: Json) -> bool {
    &&& m matches Json::Object(o) && sorted_members(o)
    &&& forall|key: Seq<char>| #[trigger] member(m, key) == merged_member(base, patch, key)
}

/// Shallow-merges `patch` into `base` (both JSON objects). `null` values in
/// the patch delete the key.
pub fn merge_ui_settings(base: &JsonValue, patch: &JsonValue) -> (r: JsonValue)
    ensures
        is_merge(r@, base@, patch@),
{
    let mut out: Vec<(String, JsonValue)> = Vec::new();
    assert(members(out@) =~= seq![]);
    if let JsonValue::Object(m) = base {
        proof {
            lemma_object_view(*m);
        }
        let ghost all = members(m@);
        let mut i: usize = m.len();
        assert(all.skip(i as int) =~= seq![]);
        while i > 0
            invariant
                i <= m@.len(),
                all == members(m@),
                sorted_members(members(out@)),
                forall|key: Seq<char>| #[trigger]
                    member_of(members(out@), key) == member_of(all.skip(i as int), key),
            decreases i,
        {
            i = i - 1;
            let ghost before = members(out@);
            let k = m[i].0.clone();
            let v = m[i].1.copy();
            proof {
                lemma_member_skip(all, i as int);
                assert(all[i as int] == (k@, v@));
            }
            set_member(&mut out, k, v);
        }
        assert(all.skip(0) =~= all);
    }
    let ghost kept = members(out@);
    assert(forall|key: Seq<char>| #[trigger] member_of(kept, key) == member(base@, key));
    if let JsonValue::Object(m) = patch {
        proof {
            lemma_object_view(*m);
        }
        let ghost all = members(m@);
        let mut i: usize = m.len();
        assert(all.skip(i as int) =~= seq![]);
        while i > 0
            invariant
                i <= m@.len(),
                all == members(m@),
                sorted_members(members(out@)),
                forall|key: Seq<char>| #[trigger]
                    member_of(members(out@), key) == patched(kept, all.skip(i as int), key),
            decreases i,
        {
            i = i - 1;
            let k = m[i].0.clone();
            let v = m[i].1.copy();
            proof {
                lemma_member_skip(all, i as int);
                assert(all[i as int] == (k@, v@));
            }
            if v.is_null() {
                remove_member(&mut out, k.as_str());
            } else {
                set_member(&mut out, k, v);
            }
        }
        assert(all.skip(0) =~= all);
    }
    let r = object_value(out);
    assert forall|key: Seq<char>| #[trigger]
        member(r@, key) == merged_member(base@, patch@, key) by {
        assert(member(r@, key) == member_of(members(out@), key));
        assert(member_of(kept, key) == member(base@, key));
    }
    r
}

spec fn patched(
    kept: Seq<(Seq<char>, Json)>,
    patch: Seq<(Seq<char>, Json)>,
    key: Seq<char>,
) -> Option<Json> {
    match member_of(patch, key) {
        Some(Json::Null) => None,
        Some(v) => Some(v),
        None => member_of(kept, key),
    }
}

/// Merging a patch a second time changes nothing.
pub proof fn merging_again_changes_nothing(base: Json, patch: Json, once: Json, twice: Json)
    requires
        is_merge(once, base, patch),
        is_merge(twice, once, patch),
    ensures
        forall|key: Seq<char>| #[trigger] member(twice, key) == member(once, key),
{
}

/// An empty patch keeps every member.
pub proof fn an_empty_patch_keeps_everything(base: Json, m: Json)
    requires
        is_merge(m, base, Json::Object(seq![])),
    ensures
        forall|key: Seq<char>| #[trigger] member(m, key) == member(base, key),
{
    assert forall|key: Seq<char>| #[trigger] member(m, key) == member(base, key) by {
        assert(member(Json::Object(seq![]), key) is None);
    }
}

} // verus!
