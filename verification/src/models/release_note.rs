//! Release notes ("What's new"), editable from the staff console.

use crate::fields::{item_in, item_of};
use crate::json::lemma_array_view;
use crate::models::billing::{
    localized_error, strs, trim_localized, trimmed_json, validate_localized_map,
};
use crate::text::{char_is_lower, is_lower};
use vstd::utf8::encode_utf8;
use vstd::std_specs::convert::FromSpecImpl;
use crate::ids::Uuid;
use crate::json::{Json, JsonValue, jsons};
use crate::text::{
    all_digits, char_is_digit, chars, find_char, index_of, is_digit, lemma_index_of, only_digits,
    opt_text, piece, same, split, split_at,
};
use crate::time::{shifted, NaiveDate, NaiveDateTime, SECONDS_PER_MINUTE};
use crate::validation::{ErrorView, ValidationError, ValidationErrors, Wrong, judged, no_errors, noted, verdict};
use vstd::prelude::*;

verus! {

pub const ITEM_KINDS: [&'static str; 4] = ["new", "improved", "fixed", "security"];

/// One line of a release.
#[derive(Debug, Clone, PartialEq)]
pub struct ReleaseNoteItem {
    /// `new`, `improved`, `fixed` or `security`.
    pub kind: String,
    /// Localized text map (`en` and `pt-BR` required, `es` optional).
    pub text: JsonValue,
}

/// What a [`ReleaseNoteItem`] says.
pub ghost struct ItemView {
    pub kind: Seq<char>,
    pub text: Json,
}

impl View for ReleaseNoteItem {
    type V = ItemView;

    open spec fn view(&self) -> ItemView {
        ItemView { kind: self.kind@, text: self.text@ }
    }
}

pub open spec fn item_views(v: Seq<ReleaseNoteItem>) -> Seq<ItemView> {
    Seq::new(v.len(), |i: int| v[i]@)
}

#[derive(Debug, Clone)]
pub struct ReleaseNoteRow {
    pub id: Uuid,
    pub version: String,
    pub title: JsonValue,
    pub items: JsonValue,
    pub released_on: NaiveDate,
    pub published_at: Option<NaiveDateTime>,
    pub created_at: NaiveDateTime,
    pub updated_at: NaiveDateTime,
    pub updated_by_username: Option<String>,
}

#[derive(Debug, Clone)]
pub struct ReleaseNote {
    pub id: Uuid,
    pub version: String,
    /// Localized title map.
    pub title: JsonValue,
    pub items: Vec<ReleaseNoteItem>,
    pub released_on: NaiveDate,
    /// `None` = draft.
    pub published_at: Option<NaiveDateTime>,
    pub created_at: NaiveDateTime,
    pub updated_at: NaiveDateTime,
    pub updated_by_username: Option<String>,
    /// `true` when edited more than a minute after publication.
    pub is_edited: bool,
}

/// What a stored item says.
pub open spec fn stored_item(v: Json) -> Option<ItemView> {
    match item_in(v) {
        Some((kind, text)) => Some(ItemView { kind, text }),
        None => None,
    }
}

/// What the stored items say; nothing where one of them is no item.
pub open spec fn stored_items(v: Json) -> Seq<ItemView> {
    match v {
        Json::Array(a) => if forall|i: int| 0 <= i < a.len() ==> stored_item(#[trigger] a[i]) is Some {
            Seq::new(a.len(), |i: int| stored_item(a[i])->0)
        } else {
            seq![]
        },
        _ => seq![],
    }
}

fn read_items(v: &JsonValue) -> (r: Vec<ReleaseNoteItem>)
    ensures
        item_views(r@) == stored_items(v@),
{
    let mut out: Vec<ReleaseNoteItem> = Vec::new();
    if let JsonValue::Array(a) = v {
        proof {
            lemma_array_view(*a);
        }
        let ghost all = jsons(a@);
        let mut i: usize = 0;
        while i < a.len()
            invariant
                all == jsons(a@),
                v@ == Json::Array(all),
                i <= a@.len(),
                out@.len() == i,
                forall|j: int| 0 <= j < i ==> stored_item(#[trigger] all[j]) == Some(out@[j]@),
            decreases a@.len() - i,
        {
            assert(all[i as int] == a@[i as int]@);
            match item_of(&a[i]) {
                Some((kind, text)) => {
                    out.push(ReleaseNoteItem { kind, text });
                },
                _ => {
                    assert(stored_item(all[i as int]) is None);
                    let none: Vec<ReleaseNoteItem> = Vec::new();
                    assert(item_views(none@) =~= seq![]);
                    return none;
                },
            }
            i = i + 1;
        }
        assert(item_views(out@) =~= stored_items(v@));
    } else {
        assert(item_views(out@) =~= seq![]);
    }
    out
}

/// Edited more than a minute after publication.
pub open spec fn edited(published_at: Option<NaiveDateTime>, updated_at: NaiveDateTime) -> bool {
    published_at matches Some(p) && updated_at@ > shifted(p@, SECONDS_PER_MINUTE as int)
}

impl From<ReleaseNoteRow> for ReleaseNote {
    fn from(row: ReleaseNoteRow) -> (r: Self)
        ensures
            r.id == row.id,
            r.version@ == row.version@,
            r.title@ == row.title@,
            item_views(r.items@) == stored_items(row.items@),
            r.released_on == row.released_on,
            r.published_at == row.published_at,
            r.created_at == row.created_at,
            r.updated_at == row.updated_at,
            opt_text(r.updated_by_username) == opt_text(row.updated_by_username),
            r.is_edited == edited(row.published_at, row.updated_at),
    {
        let is_edited = match row.published_at {
            Some(published) => published.passes(SECONDS_PER_MINUTE, &row.updated_at),
            None => false,
        };
        let items = read_items(&row.items);
        ReleaseNote {
            items,
            is_edited,
            id: row.id,
            version: row.version,
            title: row.title,
            released_on: row.released_on,
            published_at: row.published_at,
            created_at: row.created_at,
            updated_at: row.updated_at,
            updated_by_username: row.updated_by_username,
        }
    }
}

impl FromSpecImpl<ReleaseNoteRow> for ReleaseNote {
    /// Texts are told apart by more than what they say, so the result is
    /// stated by the clauses of `from` alone.
    open spec fn obeys_from_spec() -> bool {
        false
    }

    open spec fn from_spec(row: ReleaseNoteRow) -> Self {
        arbitrary()
    }
}

/// The error of a release note.
pub open spec fn note_error(message: Seq<char>) -> ErrorView {
    ErrorView { code: "invalid_release_note"@, message: Some(message) }
}

/// Digits only, at least one.
pub open spec fn is_number(s: Seq<char>) -> bool {
    s.len() > 0 && all_digits(s)
}

/// A pre-release: lower-case letters, digits and dots, at least one.
pub open spec fn is_prerelease(s: Seq<char>) -> bool {
    s.len() > 0 && forall|i: int|
        0 <= i < s.len() ==> is_lower(#[trigger] s[i]) || is_digit(s[i]) || s[i] == '.'
}

/// `MAJOR.MINOR.PATCH`.
pub open spec fn is_core_version(s: Seq<char>) -> bool {
    let parts = split(s, '.');
    parts.len() == 3 && is_number(parts[0]) && is_number(parts[1]) && is_number(parts[2])
}

/// `MAJOR.MINOR.PATCH` with an optional `-prerelease`, at most 20 bytes.
pub open spec fn is_version(s: Seq<char>) -> bool {
    let dash = index_of(s, '-');
    &&& encode_utf8(s).len() <= 20
    &&& is_core_version(s.take(dash))
    &&& dash < s.len() ==> is_prerelease(s.skip(dash + 1))
}

/// What is wrong with a version.
pub open spec fn version_error(s: Seq<char>) -> Option<ErrorView> {
    if is_version(s) {
        None
    } else {
        Some(note_error("The version must look like 1.2.3 or 1.2.3-beta.1."@))
    }
}

fn number_like(s: &str) -> (r: bool)
    ensures
        r == is_number(s@),
{
    !s.is_empty() && only_digits(s)
}

fn prerelease_like(s: &str) -> (r: bool)
    ensures
        r == is_prerelease(s@),
{
    let v = chars(s);
    let mut i: usize = 0;
    while i < v.len()
        invariant
            v@ == s@,
            i <= v@.len(),
            forall|j: int|
                0 <= j < i ==> is_lower(#[trigger] s@[j]) || is_digit(s@[j]) || s@[j] == '.',
        decreases v@.len() - i,
    {
        if !(char_is_lower(v[i]) || char_is_digit(v[i]) || v[i] == '.') {
            assert(!(is_lower(s@[i as int]) || is_digit(s@[i as int]) || s@[i as int] == '.'));
            return false;
        }
        i = i + 1;
    }
    v.len() > 0
}

/// `MAJOR.MINOR.PATCH` with an optional `-prerelease` of lower-case
/// letters, digits and dots.
pub fn validate_version(version: &str) -> (r: Result<(), ValidationError>)
    ensures
        verdict(r) == version_error(version@),
{
    let v = chars(version);
    let n = v.len();
    let dash = find_char(&v, 0, n, '-');
    proof {
        assert(v@.subrange(0, n as int) =~= version@);
        assert(v@.subrange(0, dash as int) =~= version@.take(dash as int));
        lemma_index_of(version@, '-');
    }
    let core = piece(&v, 0, dash);
    let parts = split_at(core.as_str(), '.');
    let core_ok = version.as_bytes().len() <= 20 && parts.len() == 3 && number_like(
        parts[0].as_str(),
    ) && number_like(parts[1].as_str()) && number_like(parts[2].as_str());
    let pre_ok = if dash < n {
        let pre = piece(&v, dash + 1, n);
        assert(pre@ =~= version@.skip(dash + 1));
        prerelease_like(pre.as_str())
    } else {
        true
    };
    if core_ok && pre_ok {
        Ok(())
    } else {
        Err(
            ValidationError::with_message(
                "invalid_release_note",
                "The version must look like 1.2.3 or 1.2.3-beta.1.",
            ),
        )
    }
}

/// The languages that a text has to be written in.
pub const REQUIRED_LOCALES: [&'static str; 2] = ["en", "pt-BR"];

/// What is wrong with a title.
pub open spec fn title_error(value: Json) -> Option<ErrorView> {
    localized_error(value, strs(REQUIRED_LOCALES@), 3, 120)
}

pub fn validate_title(value: &JsonValue) -> (r: Result<(), ValidationError>)
    ensures
        verdict(r) == title_error(value@),
{
    validate_localized_map(value, &REQUIRED_LOCALES, 3, 120)
}

/// One of [`ITEM_KINDS`].
pub open spec fn is_item_kind(s: Seq<char>) -> bool {
    exists|i: int| 0 <= i < 4 && #[trigger] ITEM_KINDS@[i]@ == s
}

fn item_kind(s: &str) -> (r: bool)
    ensures
        r == is_item_kind(s@),
{
    let mut i: usize = 0;
    while i < 4
        invariant
            i <= 4,
            forall|j: int| 0 <= j < i ==> #[trigger] ITEM_KINDS@[j]@ != s@,
        decreases 4 - i,
    {
        if same(ITEM_KINDS[i], s) {
            assert(ITEM_KINDS@[i as int]@ == s@);
            return true;
        }
        i = i + 1;
    }
    false
}

/// What is wrong with one item.
pub open spec fn item_error(item: ItemView) -> Option<ErrorView> {
    if !is_item_kind(item.kind) {
        Some(note_error("Unknown item kind '"@ + item.kind + "'."@))
    } else {
        localized_error(item.text, strs(REQUIRED_LOCALES@), 3, 600)
    }
}

/// What is wrong with the first item, from `i` on, that has a problem.
pub open spec fn first_item_error(items: Seq<ItemView>, i: int) -> Option<ErrorView>
    decreases items.len() - i,
{
    if i < 0 || i >= items.len() {
        None
    } else if item_error(items[i]) is Some {
        item_error(items[i])
    } else {
        first_item_error(items, i + 1)
    }
}

/// What is wrong with the items of a release.
pub open spec fn items_error(items: Seq<ItemView>) -> Option<ErrorView> {
    if items.len() == 0 || items.len() > 40 {
        Some(note_error("A release needs between 1 and 40 items."@))
    } else {
        first_item_error(items, 0)
    }
}

pub fn validate_items(items: &[ReleaseNoteItem]) -> (r: Result<(), ValidationError>)
    ensures
        verdict(r) == items_error(item_views(items@)),
{
    if items.len() == 0 || items.len() > 40 {
        return Err(
            ValidationError::with_message(
                "invalid_release_note",
                "A release needs between 1 and 40 items.",
            ),
        );
    }
    let ghost all = item_views(items@);
    let mut i: usize = 0;
    while i < items.len()
        invariant
            all == item_views(items@),
            i <= items@.len(),
            0 < items@.len() <= 40,
            first_item_error(all, 0) == first_item_error(all, i as int),
        decreases items@.len() - i,
    {
        let item = &items[i];
        assert(all[i as int] == item@);
        if !item_kind(item.kind.as_str()) {
            let mut message = "Unknown item kind '".to_string();
            message.append(item.kind.as_str());
            message.append("'.");
            return Err(ValidationError::with_message("invalid_release_note", message.as_str()));
        }
        match validate_localized_map(&item.text, &REQUIRED_LOCALES, 3, 600) {
            Ok(()) => {},
            Err(e) => {
                return Err(e);
            },
        }
        i = i + 1;
    }
    Ok(())
}

#[derive(Debug, Clone)]
pub struct CreateReleaseNotePayload {
    pub version: String,
    pub title: JsonValue,
    pub items: Vec<ReleaseNoteItem>,
    pub released_on: NaiveDate,
}

impl CreateReleaseNotePayload {
    /// The rules that this payload breaks.
    pub open spec fn broken_rules(self) -> Wrong {
        let e = no_errors();
        let e = noted(e, "version"@, version_error(self.version@));
        let e = noted(e, "title"@, title_error(self.title@));
        noted(e, "items"@, items_error(item_views(self.items@)))
    }

    /// Checks the payload against its rules.
    pub fn validate(&self) -> (r: Result<(), ValidationErrors>)
        ensures
            judged(r, self.broken_rules()),
    {
        let mut e = ValidationErrors::new();
        e.note("version", validate_version(self.version.as_str()));
        e.note("title", validate_title(&self.title));
        e.note("items", validate_items(self.items.as_slice()));
        e.into_result()
    }
}

#[derive(Debug, Clone, Default)]
pub struct UpdateReleaseNotePayload {
    pub version: Option<String>,
    pub title: Option<JsonValue>,
    pub items: Option<Vec<ReleaseNoteItem>>,
    pub released_on: Option<NaiveDate>,
}

impl UpdateReleaseNotePayload {
    /// The rules that this payload breaks.
    pub open spec fn broken_rules(self) -> Wrong {
        let e = no_errors();
        let e = noted(e, "version"@, match self.version { Some(x) => version_error(x@), None => None });
        let e = noted(e, "title"@, match self.title { Some(x) => title_error(x@), None => None });
        noted(e, "items"@, match self.items { Some(x) => items_error(item_views(x@)), None => None })
    }

    /// Checks the payload against its rules.
    pub fn validate(&self) -> (r: Result<(), ValidationErrors>)
        ensures
            judged(r, self.broken_rules()),
    {
        let mut e = ValidationErrors::new();
        e.note("version", match &self.version { Some(x) => validate_version(x.as_str()), None => Ok(()) });
        e.note("title", match &self.title { Some(x) => validate_title(x), None => Ok(()) });
        e.note("items", match &self.items { Some(x) => validate_items(x.as_slice()), None => Ok(()) });
        e.into_result()
    }
}

#[derive(Debug, Clone, Copy, Default)]
pub struct PublishReleaseNotePayload {
    /// Notify every user in the app (and by e-mail, for those who opted
    /// in to product updates).
    pub notify: bool,
}

/// An item with its texts trimmed.
pub open spec fn trimmed_item(item: ItemView) -> ItemView {
    ItemView { kind: item.kind, text: trimmed_json(item.text) }
}

/// Trims the localized texts of every item.
pub fn trim_items(items: &[ReleaseNoteItem]) -> (r: Vec<ReleaseNoteItem>)
    ensures
        item_views(r@) == Seq::new(items@.len(), |i: int| trimmed_item(items@[i]@)),
{
    let mut out: Vec<ReleaseNoteItem> = Vec::new();
    let mut i: usize = 0;
    while i < items.len()
        invariant
            i <= items@.len(),
            out@.len() == i,
            forall|j: int| 0 <= j < i ==> #[trigger] out@[j]@ == trimmed_item(items@[j]@),
        decreases items@.len() - i,
    {
        let item = &items[i];
        out.push(
            ReleaseNoteItem { kind: item.kind.clone(), text: trim_localized(&item.text) },
        );
        i = i + 1;
    }
    assert(item_views(out@) =~= Seq::new(items@.len(), |i: int| trimmed_item(items@[i]@)));
    out
}

} // verus!
