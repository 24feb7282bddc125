//! Communication preferences: which categories of messages reach a user
//! by e-mail and in the app.
//!
//! Stored as `{"categories": {"bands": {"email": false, "in_app": true}, ...}}`.
//! Missing categories or flags fall back to [`Category::default_prefs`], so
//! adding a category later needs no data migration. Security messages can't
//! be turned off.

use crate::json::{
    bool_member, lemma_member_index, lemma_object_view, member, member_index, members, Json, JsonValue,
};
use crate::text::same;
use crate::validation::{
    has_length, judged, length_within, no_errors, unless, ValidationErrors, Wrong,
};
use vstd::prelude::*;

verus! {

/// A family of messages the user can opt in or out of.
#[derive(Debug, Clone, Copy, PartialEq, Eq, PartialOrd, Ord, Hash, Structural)]
pub enum Category {
    /// Sign-in and account protection notices. Always on.
    Security,
    /// Changes to the account itself (roles, plan, credits, moderation).
    Account,
    /// Band activity (roles, members, suggestions).
    Bands,
    /// Announcements published by the Setlyst team.
    Announcements,
    /// Release notes ("What's new").
    ProductUpdates,
    /// Offers and news. Opt-in only.
    Marketing,
}

/// The number of categories.
pub const CATEGORIES: usize = 6;

/// The key of a category in the stored preferences.
pub open spec fn category_key(c: Category) -> Seq<char> {
    match c {
        Category::Security => "security"@,
        Category::Account => "account"@,
        Category::Bands => "bands"@,
        Category::Announcements => "announcements"@,
        Category::ProductUpdates => "product_updates"@,
        Category::Marketing => "marketing"@,
    }
}

/// The stable number of a category.
pub open spec fn category_index(c: Category) -> int {
    match c {
        Category::Security => 0,
        Category::Account => 1,
        Category::Bands => 2,
        Category::Announcements => 3,
        Category::ProductUpdates => 4,
        Category::Marketing => 5,
    }
}

/// Delivery switches for one category.
#[derive(Debug, Clone, Copy, PartialEq, Eq, Structural)]
pub struct ChannelPrefs {
    pub email: bool,
    pub in_app: bool,
}

/// The switches a category starts with.
pub open spec fn default_prefs(c: Category) -> ChannelPrefs {
    ChannelPrefs {
        email: c == Category::Security || c == Category::Account || c == Category::Announcements,
        in_app: c != Category::Marketing,
    }
}

/// Distinct categories have distinct keys.
pub proof fn lemma_keys_distinct(a: Category, b: Category)
    ensures
        category_key(a) == category_key(b) ==> a == b,
{
    reveal_strlit("security");
    reveal_strlit("account");
    reveal_strlit("bands");
    reveal_strlit("announcements");
    reveal_strlit("product_updates");
    reveal_strlit("marketing");
    if category_key(a) == category_key(b) {
        assert(category_key(a).len() == category_key(b).len());
        assert(category_key(a)[0] == category_key(b)[0]);
    }
}

/// The category with the key `key`.
pub open spec fn category_with_key(key: Seq<char>) -> Option<Category> {
    if key == category_key(Category::Security) {
        Some(Category::Security)
    } else if key == category_key(Category::Account) {
        Some(Category::Account)
    } else if key == category_key(Category::Bands) {
        Some(Category::Bands)
    } else if key == category_key(Category::Announcements) {
        Some(Category::Announcements)
    } else if key == category_key(Category::ProductUpdates) {
        Some(Category::ProductUpdates)
    } else if key == category_key(Category::Marketing) {
        Some(Category::Marketing)
    } else {
        None
    }
}

/// A category is found again by its key, and by its number.
pub proof fn category_indexes_and_keys_round_trip(c: Category)
    ensures
        category_with_key(category_key(c)) == Some(c),
        category_at(category_index(c)) == Some(c),
{
    lemma_keys_distinct(c, Category::Security);
    lemma_keys_distinct(c, Category::Account);
    lemma_keys_distinct(c, Category::Bands);
    lemma_keys_distinct(c, Category::Announcements);
    lemma_keys_distinct(c, Category::ProductUpdates);
    lemma_keys_distinct(c, Category::Marketing);
}

/// The category with the number `index`.
pub open spec fn category_at(index: int) -> Option<Category> {
    if index == 0 {
        Some(Category::Security)
    } else if index == 1 {
        Some(Category::Account)
    } else if index == 2 {
        Some(Category::Bands)
    } else if index == 3 {
        Some(Category::Announcements)
    } else if index == 4 {
        Some(Category::ProductUpdates)
    } else if index == 5 {
        Some(Category::Marketing)
    } else {
        None
    }
}

impl Category {
    pub const ALL: [Category; 6] = [
        Category::Security,
        Category::Account,
        Category::Bands,
        Category::Announcements,
        Category::ProductUpdates,
        Category::Marketing,
    ];

    pub fn key(&self) -> (r: &'static str)
        ensures
            r@ == category_key(*self),
    {
        match self {
            Category::Security => "security",
            Category::Account => "account",
            Category::Bands => "bands",
            Category::Announcements => "announcements",
            Category::ProductUpdates => "product_updates",
            Category::Marketing => "marketing",
        }
    }

    pub fn from_key(key: &str) -> (r: Option<Category>)
        ensures
            r == category_with_key(key@),
            forall|c: Category| r == Some(c) <==> key@ == #[trigger] category_key(c),
    {
        proof {
            assert forall|c: Category| category_with_key(key@) == Some(c) <==> key@
                == #[trigger] category_key(c) by {
                category_indexes_and_keys_round_trip(c);
            }
        }
        if same(key, "security") {
            Some(Category::Security)
        } else if same(key, "account") {
            Some(Category::Account)
        } else if same(key, "bands") {
            Some(Category::Bands)
        } else if same(key, "announcements") {
            Some(Category::Announcements)
        } else if same(key, "product_updates") {
            Some(Category::ProductUpdates)
        } else if same(key, "marketing") {
            Some(Category::Marketing)
        } else {
            None
        }
    }

    /// Stable one-byte identifier used inside unsubscribe tokens.
    pub fn index(&self) -> (r: u8)
        ensures
            r == category_index(*self),
    {
        match self {
            Category::Security => 0,
            Category::Account => 1,
            Category::Bands => 2,
            Category::Announcements => 3,
            Category::ProductUpdates => 4,
            Category::Marketing => 5,
        }
    }

    pub fn from_index(index: u8) -> (r: Option<Category>)
        ensures
            r == category_at(index as int),
            forall|c: Category| r == Some(c) <==> index == #[trigger] category_index(c),
    {
        if (index as usize) < CATEGORIES {
            Some(Category::ALL[index as usize])
        } else {
            None
        }
    }

    /// Security messages can never be switched off.
    pub fn locked(&self) -> (r: bool)
        ensures
            r == (*self == Category::Security),
    {
        matches!(self, Category::Security)
    }

    pub fn default_prefs(&self) -> (r: ChannelPrefs)
        ensures
            r == default_prefs(*self),
    {
        match self {
            Category::Security => ChannelPrefs { email: true, in_app: true },
            Category::Account => ChannelPrefs { email: true, in_app: true },
            Category::Bands => ChannelPrefs { email: false, in_app: true },
            Category::Announcements => ChannelPrefs { email: true, in_app: true },
            Category::ProductUpdates => ChannelPrefs { email: false, in_app: true },
            Category::Marketing => ChannelPrefs { email: false, in_app: false },
        }
    }
}

/// One category as returned to clients.
#[derive(Debug, Clone, Copy, PartialEq, Eq, Structural)]
pub struct CategoryPrefs {
    pub email: bool,
    pub in_app: bool,
    /// `true` when the user can't change it (security).
    pub locked: bool,
}

/// The effective preferences of a user (stored values over defaults): the
/// switches of every category, by its number.
#[derive(Debug, PartialEq, Eq)]
pub struct CommunicationPreferences {
    categories: Vec<ChannelPrefs>,
}

impl View for CommunicationPreferences {
    type V = spec_fn(Category) -> ChannelPrefs;

    /// The switches of each category.
    closed spec fn view(&self) -> spec_fn(Category) -> ChannelPrefs {
        |c: Category| self.categories@[category_index(c)]
    }
}

/// What one category's stored object says, over `base`.
pub open spec fn stored_prefs(stored: Json, base: ChannelPrefs) -> ChannelPrefs {
    ChannelPrefs {
        email: match bool_member(stored, "email"@) {
            Some(b) => b,
            None => base.email,
        },
        in_app: match bool_member(stored, "in_app"@) {
            Some(b) => b,
            None => base.in_app,
        },
    }
}

/// The switches of `c` in the stored preferences `v`: what is stored for it,
/// over its defaults. Security is never read.
pub open spec fn effective(v: Json, c: Category) -> ChannelPrefs {
    match member(v, "categories"@) {
        Some(Json::Object(m)) if c != Category::Security => stored_prefs_in(m, c),
        _ => default_prefs(c),
    }
}

/// The switches of `c` among the stored categories `m`. Were a key stored
/// more than once, each entry would go over those before it.
pub open spec fn stored_prefs_in(m: Seq<(Seq<char>, Json)>, c: Category) -> ChannelPrefs
    decreases m.len(),
{
    if m.len() == 0 {
        default_prefs(c)
    } else if m.last().0 == category_key(c) {
        stored_prefs(m.last().1, stored_prefs_in(m.drop_last(), c))
    } else {
        stored_prefs_in(m.drop_last(), c)
    }
}

/// The stored form of the switches of one category.
pub open spec fn stored_entry(f: spec_fn(Category) -> ChannelPrefs, c: Category) -> (
    Seq<char>,
    Json,
) {
    (
        category_key(c),
        Json::Object(
            seq![("email"@, Json::Bool(f(c).email)), ("in_app"@, Json::Bool(f(c).in_app))],
        ),
    )
}

/// The stored form of the preferences: every category but security, in the
/// order of the keys.
pub open spec fn stored_form(f: spec_fn(Category) -> ChannelPrefs) -> Json {
    Json::Object(
        seq![
            (
                "categories"@,
                Json::Object(
                    seq![
                        stored_entry(f, Category::Account),
                        stored_entry(f, Category::Announcements),
                        stored_entry(f, Category::Bands),
                        stored_entry(f, Category::Marketing),
                        stored_entry(f, Category::ProductUpdates),
                    ],
                ),
            ),
        ],
    )
}

pub open spec fn category_view(f: spec_fn(Category) -> ChannelPrefs, c: Category) -> (
    Seq<char>,
    CategoryPrefs,
) {
    (
        category_key(c),
        CategoryPrefs { email: f(c).email, in_app: f(c).in_app, locked: c == Category::Security },
    )
}

fn stored_member(c: Category, p: ChannelPrefs) -> (r: (String, JsonValue))
    ensures
        (r.0@, r.1@) == stored_entry(|x: Category| p, c),
{
    let mut m: Vec<(String, JsonValue)> = Vec::new();
    m.push(("email".to_string(), JsonValue::Bool(p.email)));
    m.push(("in_app".to_string(), JsonValue::Bool(p.in_app)));
    proof {
        lemma_object_view(m);
        assert(members(m@) =~= seq![
            ("email"@, Json::Bool(p.email)),
            ("in_app"@, Json::Bool(p.in_app)),
        ]);
    }
    (c.key().to_string(), JsonValue::Object(m))
}

impl Default for CommunicationPreferences {
    fn default() -> (r: Self)
        ensures
            forall|c: Category| #[trigger] (r@)(c) == default_prefs(c),
    {
        let mut categories: Vec<ChannelPrefs> = Vec::new();
        categories.push(Category::Security.default_prefs());
        categories.push(Category::Account.default_prefs());
        categories.push(Category::Bands.default_prefs());
        categories.push(Category::Announcements.default_prefs());
        categories.push(Category::ProductUpdates.default_prefs());
        categories.push(Category::Marketing.default_prefs());
        CommunicationPreferences { categories }
    }
}

impl Clone for CommunicationPreferences {
    fn clone(&self) -> (r: Self)
        ensures
            r@ == self@,
    {
        proof {
            use_type_invariant(self);
        }
        let categories = self.categories.clone();
        assert(categories@ =~= self.categories@);
        CommunicationPreferences { categories }
    }
}

impl CommunicationPreferences {
    #[verifier::type_invariant]
    spec fn well_formed(self) -> bool {
        self.categories@.len() == CATEGORIES && self.categories@[0] == default_prefs(
            Category::Security,
        )
    }

    /// Reads the stored JSON, tolerating anything malformed (it falls back
    /// to the defaults field by field).
    pub fn from_stored(value: &JsonValue) -> (r: Self)
        ensures
            forall|c: Category| #[trigger] (r@)(c) == effective(value@, c),
    {
        let prefs = Self::default();
        proof {
            use_type_invariant(&prefs);
        }
        let ghost defaults = prefs@;
        let mut categories = prefs.categories;
        proof {
            assert forall|c: Category| #[trigger] categories@[category_index(c)] == default_prefs(
                c,
            ) by {
                assert(defaults(c) == default_prefs(c));
            }
        }
        let stored: &Vec<(String, JsonValue)> = match value.get("categories") {
            Some(JsonValue::Object(m)) => m,
            _ => {
                return CommunicationPreferences { categories };
            },
        };
        let ghost m = members(stored@);
        proof {
            lemma_object_view(*stored);
        }
        let mut i: usize = 0;
        assert(m.take(0) =~= seq![]);
        while i < stored.len()
            invariant
                m == members(stored@),
                i <= stored@.len(),
                categories@.len() == CATEGORIES,
                forall|c: Category| #[trigger]
                    categories@[category_index(c)] == (if c == Category::Security {
                        default_prefs(c)
                    } else {
                        stored_prefs_in(m.take(i as int), c)
                    }),
            decreases stored@.len() - i,
        {
            let ghost before = categories@;
            proof {
                assert(m.take(i + 1).drop_last() =~= m.take(i as int));
                assert(m.take(i + 1).last() == (stored@[i as int].0@, stored@[i as int].1@));
            }
            if let Some(category) = Category::from_key(stored[i].0.as_str()) {
                if !category.locked() {
                    let k = category.index() as usize;
                    let mut entry = categories[k];
                    assert(entry == before[category_index(category)]);
                    if let Some(email) = stored[i].1.bool_of("email") {
                        entry.email = email;
                    }
                    if let Some(in_app) = stored[i].1.bool_of("in_app") {
                        entry.in_app = in_app;
                    }
                    categories.set(k, entry);
                }
            }
            proof {
                assert forall|c: Category| #[trigger]
                    categories@[category_index(c)] == (if c == Category::Security {
                        default_prefs(c)
                    } else {
                        stored_prefs_in(m.take(i + 1), c)
                    }) by {
                    assert(before[category_index(c)] == (if c == Category::Security {
                        default_prefs(c)
                    } else {
                        stored_prefs_in(m.take(i as int), c)
                    }));
                    assert(category_key(c) == stored@[i as int].0@ ==> category_with_key(
                        stored@[i as int].0@,
                    ) == Some(c)) by {
                        category_indexes_and_keys_round_trip(c);
                    }
                }
            }
            i = i + 1;
        }
        assert(m.take(i as int) =~= m);
        proof {
            assert(categories@[category_index(Category::Security)] == default_prefs(
                Category::Security,
            ));
        }
        CommunicationPreferences { categories }
    }

    pub fn get(&self, category: Category) -> (r: ChannelPrefs)
        ensures
            r == (self@)(category),
            category == Category::Security ==> r == default_prefs(category),
    {
        proof {
            use_type_invariant(self);
        }
        if category.locked() {
            return category.default_prefs();
        }
        self.categories[category.index() as usize]
    }

    pub fn set(&mut self, category: Category, prefs: ChannelPrefs)
        ensures
            forall|c: Category| #[trigger]
                (final(self)@)(c) == (if c == category && c != Category::Security {
                    prefs
                } else {
                    (old(self)@)(c)
                }),
    {
        proof {
            use_type_invariant(&*self);
        }
        if !category.locked() {
            let mut categories = self.categories.clone();
            categories.set(category.index() as usize, prefs);
            *self = CommunicationPreferences { categories };
        }
    }

    /// The JSON persisted with the account.
    pub fn to_stored(&self) -> (r: JsonValue)
        ensures
            r@ == stored_form(self@),
    {
        let mut categories: Vec<(String, JsonValue)> = Vec::new();
        categories.push(stored_member(Category::Account, self.get(Category::Account)));
        categories.push(stored_member(Category::Announcements, self.get(Category::Announcements)));
        categories.push(stored_member(Category::Bands, self.get(Category::Bands)));
        categories.push(stored_member(Category::Marketing, self.get(Category::Marketing)));
        categories.push(
            stored_member(Category::ProductUpdates, self.get(Category::ProductUpdates)),
        );
        let mut out: Vec<(String, JsonValue)> = Vec::new();
        proof {
            lemma_object_view(categories);
            assert(members(categories@) =~= seq![
                stored_entry(self@, Category::Account),
                stored_entry(self@, Category::Announcements),
                stored_entry(self@, Category::Bands),
                stored_entry(self@, Category::Marketing),
                stored_entry(self@, Category::ProductUpdates),
            ]);
        }
        out.push(("categories".to_string(), JsonValue::Object(categories)));
        proof {
            lemma_object_view(out);
            assert(members(out@) =~= stored_form(self@)->Object_0);
        }
        JsonValue::Object(out)
    }

    /// Every category, keyed, in the order of the keys.
    pub fn to_view(&self) -> (r: Vec<(String, CategoryPrefs)>)
        ensures
            Seq::new(r@.len(), |i: int| (r@[i].0@, r@[i].1)) == seq![
                category_view(self@, Category::Account),
                category_view(self@, Category::Announcements),
                category_view(self@, Category::Bands),
                category_view(self@, Category::Marketing),
                category_view(self@, Category::ProductUpdates),
                category_view(self@, Category::Security),
            ],
    {
        let mut out: Vec<(String, CategoryPrefs)> = Vec::new();
        out.push(self.entry(Category::Account));
        out.push(self.entry(Category::Announcements));
        out.push(self.entry(Category::Bands));
        out.push(self.entry(Category::Marketing));
        out.push(self.entry(Category::ProductUpdates));
        out.push(self.entry(Category::Security));
        assert(Seq::new(out@.len(), |i: int| (out@[i].0@, out@[i].1)) =~= seq![
            category_view(self@, Category::Account),
            category_view(self@, Category::Announcements),
            category_view(self@, Category::Bands),
            category_view(self@, Category::Marketing),
            category_view(self@, Category::ProductUpdates),
            category_view(self@, Category::Security),
        ]);
        out
    }

    fn entry(&self, c: Category) -> (r: (String, CategoryPrefs))
        ensures
            (r.0@, r.1) == category_view(self@, c),
    {
        let prefs = self.get(c);
        (
            c.key().to_string(),
            CategoryPrefs { email: prefs.email, in_app: prefs.in_app, locked: c.locked() },
        )
    }
}

proof fn lemma_stored_entry(f: spec_fn(Category) -> ChannelPrefs, c: Category, base: ChannelPrefs)
    ensures
        stored_prefs(stored_entry(f, c).1, base) == f(c),
{
    let m = stored_entry(f, c).1->Object_0;
    reveal_strlit("email");
    reveal_strlit("in_app");
    assert("email"@.len() != "in_app"@.len());
    assert(m[0].0 == "email"@);
    assert(m.skip(1)[0].0 == "in_app"@);
    reveal_with_fuel(member_index, 3);
}

/// What was stored is read back: the preferences read from the stored form
/// of `f` are `f`, for preferences that leave security alone.
pub proof fn stored_preferences_round_trip(f: spec_fn(Category) -> ChannelPrefs, c: Category)
    requires
        f(Category::Security) == default_prefs(Category::Security),
    ensures
        effective(stored_form(f), c) == f(c),
{
    let outer = stored_form(f)->Object_0;
    assert(outer[0].0 == "categories"@);
    assert(member(stored_form(f), "categories"@) == Some(outer[0].1));
    let m = outer[0].1->Object_0;
    if c != Category::Security {
        reveal_with_fuel(stored_prefs_in, 6);
        let m4 = m.drop_last();
        let m3 = m4.drop_last();
        let m2 = m3.drop_last();
        let m1 = m2.drop_last();
        assert(m.last() == stored_entry(f, Category::ProductUpdates));
        assert(m4.last() == stored_entry(f, Category::Marketing));
        assert(m3.last() == stored_entry(f, Category::Bands));
        assert(m2.last() == stored_entry(f, Category::Announcements));
        assert(m1.last() == stored_entry(f, Category::Account));
        lemma_keys_distinct(c, Category::Account);
        lemma_keys_distinct(c, Category::Announcements);
        lemma_keys_distinct(c, Category::Bands);
        lemma_keys_distinct(c, Category::Marketing);
        lemma_keys_distinct(c, Category::ProductUpdates);
        assert forall|base: ChannelPrefs|
            stored_prefs(#[trigger] stored_entry(f, c).1, base) == f(c) by {
            lemma_stored_entry(f, c, base);
        }
        lemma_stored_entry(f, c, stored_prefs_in(m4, c));
        lemma_stored_entry(f, c, stored_prefs_in(m3, c));
        lemma_stored_entry(f, c, stored_prefs_in(m2, c));
        lemma_stored_entry(f, c, stored_prefs_in(m1, c));
        lemma_stored_entry(f, c, stored_prefs_in(m1.drop_last(), c));
    }
}

/// Security is never stored.
pub proof fn security_is_never_stored(f: spec_fn(Category) -> ChannelPrefs)
    ensures
        member(stored_form(f), "categories"@) is Some,
        member(member(stored_form(f), "categories"@)->0, category_key(Category::Security)) is None,
{
    let outer = stored_form(f)->Object_0;
    assert(outer[0].0 == "categories"@);
    let m = outer[0].1->Object_0;
    let key = category_key(Category::Security);
    lemma_member_index(m, key);
    if member_index(m, key) < m.len() {
        lemma_keys_distinct(Category::Security, Category::Account);
        lemma_keys_distinct(Category::Security, Category::Announcements);
        lemma_keys_distinct(Category::Security, Category::Bands);
        lemma_keys_distinct(Category::Security, Category::Marketing);
        lemma_keys_distinct(Category::Security, Category::ProductUpdates);
        let i = member_index(m, key);
        assert(m[i].0 == key);
        assert(i == 0 || i == 1 || i == 2 || i == 3 || i == 4);
    }
}

/// `GET /users/me/communication`.
#[derive(Debug, Clone)]
pub struct CommunicationSettings {
    /// Keyed by category: `security`, `account`, `bands`, `announcements`,
    /// `product_updates`, `marketing`.
    pub categories: Vec<(String, CategoryPrefs)>,
    /// E-mails are only sent to a verified address.
    pub email_verified: bool,
    pub email: Option<String>,
}

/// `PUT /users/me/communication`: the categories to change. Omitted
/// categories keep their value; `security` is ignored.
#[derive(Debug, Clone)]
pub struct UpdateCommunicationPayload {
    pub categories: Vec<(String, ChannelPrefs)>,
}

/// Body of `POST /public/email/unsubscribe`.
#[derive(Debug, Clone)]
pub struct UnsubscribePayload {
    pub token: String,
}

impl UnsubscribePayload {
    /// The rules that this payload breaks.
    pub open spec fn broken_rules(self) -> Wrong {
        let e = no_errors();
        unless(e, length_within(self.token@, 10, 200), "token"@, "length"@, None)
    }

    /// Checks the payload against its rules.
    pub fn validate(&self) -> (r: Result<(), ValidationErrors>)
        ensures
            judged(r, self.broken_rules()),
    {
        let mut e = ValidationErrors::new();
        e.check(has_length(self.token.as_str(), 10, 200), "token", "length", None);
        e.into_result()
    }
}

/// Query of `GET /public/email/unsubscribe`.
#[derive(Debug, Clone)]
pub struct UnsubscribeQuery {
    pub token: String,
}

/// What an unsubscribe token refers to.
#[derive(Debug, Clone, Copy)]
pub struct UnsubscribeInfo {
    /// The category (`null` when the token is invalid).
    pub category: Option<Category>,
    pub valid: bool,
}

} // verus!
