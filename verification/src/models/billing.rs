//! Plans, subscriptions, promo codes, promotions, referrals and credits.

use crate::json::{find_member, lemma_member_at, lemma_member_skip, lemma_array_view, lemma_object_view, member_of, set_member, sorted_members};
use crate::models::announcement::has_text;
use crate::fields::{
    flag_field, flag_or, integer_field, integer_or, integer_or_field, names_in, record, record_of,
    small_integer_or, small_integer_or_field, text_field, text_or, text_or_field,
};
use crate::models::quota::{default_limits, limits_in, QuotaLimits};
use crate::models::user_preferences::{is_supported_language, language_supported};
use crate::text::{char_is_lower, char_is_upper, is_lower, is_upper};
use crate::validation::has_errors;
use vstd::std_specs::convert::FromSpecImpl;
use crate::ids::Uuid;
use crate::json::{Json, JsonValue, bool_member, integer_member, jsons, member, members, object_value, text_member};
use crate::text::{
    char_is_alnum, char_is_digit, chars, decimal, decimal_of, has, is_alnum, is_digit, lower,
    opt_text, same, texts, trim, trimmed,
};
use crate::time::{shifted, NaiveDateTime, SECONDS_PER_DAY};
use crate::validation::{ErrorView, ValidationError, ValidationErrors, Wrong, has_length, judged, length_within, no_errors, noted, opt_has_length, opt_length_within, unless, verdict, with_part};
use vstd::prelude::*;

verus! {

/// Platform-setting key of [`BillingSettings`].
pub const BILLING_SETTINGS_KEY: &'static str = "billing";

// ---------------------------------------------------------------------
// Localized texts
// ---------------------------------------------------------------------

/// What a list of texts says.
pub open spec fn strs(v: Seq<&str>) -> Seq<Seq<char>> {
    Seq::new(v.len(), |i: int| v[i]@)
}

/// The error of a localized text.
pub open spec fn text_error(message: Seq<char>) -> ErrorView {
    ErrorView { code: "invalid_localized_text"@, message: Some(message) }
}

/// What is said of a text that is too short or too long.
pub open spec fn bounds_message(min: int, max: int) -> Seq<char> {
    "Each text must have between "@ + decimal(min as nat) + " and "@ + decimal(max as nat)
        + " characters."@
}

/// What is wrong with the text of one locale.
pub open spec fn locale_problem(locale: Seq<char>, text: Json, min: int, max: int) -> Option<
    Seq<char>,
> {
    if !is_supported_language(locale) {
        Some("Unsupported locale '"@ + locale + "'."@)
    } else {
        match text {
            Json::Text(s) => if min <= trim(s).len() <= max {
                None
            } else {
                Some(bounds_message(min, max))
            },
            _ => Some("Values must be strings."@),
        }
    }
}

/// What is wrong with the first text, from `i` on, that has a problem.
pub open spec fn texts_problem(m: Seq<(Seq<char>, Json)>, i: int, min: int, max: int) -> Option<
    Seq<char>,
>
    decreases m.len() - i,
{
    if i < 0 || i >= m.len() {
        None
    } else if locale_problem(m[i].0, m[i].1, min, max) is Some {
        locale_problem(m[i].0, m[i].1, min, max)
    } else {
        texts_problem(m, i + 1, min, max)
    }
}

/// The first of the required locales, from `i` on, that is missing.
pub open spec fn missing_problem(
    m: Seq<(Seq<char>, Json)>,
    required: Seq<Seq<char>>,
    i: int,
) -> Option<Seq<char>>
    decreases required.len() - i,
{
    if i < 0 || i >= required.len() {
        None
    } else if member_of(m, required[i]) is None {
        Some("The '"@ + required[i] + "' text is required."@)
    } else {
        missing_problem(m, required, i + 1)
    }
}

/// What is wrong with a map of localized texts.
pub open spec fn localized_error(
    value: Json,
    required: Seq<Seq<char>>,
    min: int,
    max: int,
) -> Option<ErrorView> {
    match value {
        Json::Object(m) => {
            let problem = texts_problem(m, 0, min, max);
            let missing = missing_problem(m, required, 0);
            if problem is Some {
                Some(text_error(problem->0))
            } else if missing is Some {
                Some(text_error(missing->0))
            } else {
                None
            }
        },
        _ => Some(text_error("Must be an object keyed by locale."@)),
    }
}

fn invalid_text(message: &str) -> (r: Result<(), ValidationError>)
    ensures
        verdict(r) == Some(text_error(message@)),
{
    Err(ValidationError::with_message("invalid_localized_text", message))
}

/// A localized text map `{"en": ..., "pt-BR": ..., "es": ...}`: only
/// supported locales, `required` ones present, every value `min..=max`
/// characters after trimming.
pub fn validate_localized_map(
    value: &JsonValue,
    required: &[&str],
    min: usize,
    max: usize,
) -> (r: Result<(), ValidationError>)
    ensures
        verdict(r) == localized_error(value@, strs(required@), min as int, max as int),
{
    let map = match value {
        JsonValue::Object(map) => map,
        _ => {
            return invalid_text("Must be an object keyed by locale.");
        },
    };
    proof {
        lemma_object_view(*map);
    }
    let ghost all = members(map@);
    let mut i: usize = 0;
    while i < map.len()
        invariant
            all == members(map@),
            value@ == Json::Object(all),
            i <= map@.len(),
            texts_problem(all, 0, min as int, max as int) == texts_problem(
                all,
                i as int,
                min as int,
                max as int,
            ),
        decreases map@.len() - i,
    {
        let locale = map[i].0.as_str();
        assert(all[i as int] == (locale@, map@[i as int].1@));
        if !language_supported(locale) {
            let mut message = "Unsupported locale '".to_string();
            message.append(locale);
            message.append("'.");
            return invalid_text(message.as_str());
        }
        match map[i].1.as_str() {
            Some(text) => {
                let len = chars(trimmed(text).as_str()).len();
                if len < min || len > max {
                    let mut message = "Each text must have between ".to_string();
                    message.append(decimal_of(min as u64).as_str());
                    message.append(" and ");
                    message.append(decimal_of(max as u64).as_str());
                    message.append(" characters.");
                    return invalid_text(message.as_str());
                }
            },
            None => {
                return invalid_text("Values must be strings.");
            },
        }
        i = i + 1;
    }
    let ghost wanted = strs(required@);
    let mut j: usize = 0;
    while j < required.len()
        invariant
            all == members(map@),
            value@ == Json::Object(all),
            wanted == strs(required@),
            j <= required@.len(),
            texts_problem(all, 0, min as int, max as int) is None,
            missing_problem(all, wanted, 0) == missing_problem(all, wanted, j as int),
        decreases required@.len() - j,
    {
        assert(wanted[j as int] == required@[j as int]@);
        if find_member(map, required[j]) >= map.len() {
            let mut message = "The '".to_string();
            message.append(required[j]);
            message.append("' text is required.");
            return invalid_text(message.as_str());
        }
        j = j + 1;
    }
    Ok(())
}

/// A text without blanks around it; nothing for what is no text.
pub open spec fn trimmed_text(v: Json) -> Json {
    match v {
        Json::Text(s) => Json::Text(trim(s)),
        _ => Json::Text(seq![]),
    }
}

/// A map of localized texts without blanks around them.
pub open spec fn trimmed_json(v: Json) -> Json {
    match v {
        Json::Object(m) => Json::Object(
            Seq::new(m.len(), |i: int| (m[i].0, trimmed_text(m[i].1))),
        ),
        _ => v,
    }
}

/// Trims every value of a localized map (after validation).
pub fn trim_localized(value: &JsonValue) -> (r: JsonValue)
    ensures
        r@ == trimmed_json(value@),
{
    match value {
        JsonValue::Object(m) => {
            proof {
                lemma_object_view(*m);
            }
            let ghost all = members(m@);
            let mut out: Vec<(String, JsonValue)> = Vec::new();
            let mut i: usize = 0;
            while i < m.len()
                invariant
                    all == members(m@),
                    i <= m@.len(),
                    out@.len() == i,
                    forall|j: int|
                        0 <= j < i ==> #[trigger] members(out@)[j] == (
                            all[j].0,
                            trimmed_text(all[j].1),
                        ),
                decreases m@.len() - i,
            {
                let text = match m[i].1.as_str() {
                    Some(s) => trimmed(s),
                    None => String::new(),
                };
                assert(all[i as int] == (m@[i as int].0@, m@[i as int].1@));
                let ghost before = out@;
                out.push((m[i].0.clone(), JsonValue::Text(text)));
                assert forall|j: int| 0 <= j < i + 1 implies #[trigger] members(out@)[j] == (
                    all[j].0,
                    trimmed_text(all[j].1),
                ) by {
                    if j < i {
                        assert(members(out@)[j] == members(before)[j]);
                    } else {
                        assert(text@ =~= match all[j].1 {
                            Json::Text(s) => trim(s),
                            _ => seq![],
                        });
                    }
                }
                i = i + 1;
            }
            let r = object_value(out);
            assert(members(out@) =~= trimmed_json(value@)->Object_0);
            r
        },
        _ => value.copy(),
    }
}

// ---------------------------------------------------------------------
// Settings
// ---------------------------------------------------------------------

#[derive(Debug, Clone, Copy, PartialEq)]
pub struct ReferralSettings {
    pub enabled: bool,
    pub referrer_credits: i32,
    pub referred_credits: i32,
    /// Rewarded referrals per referrer per calendar month.
    pub max_rewarded_per_month: i64,
}

impl ReferralSettings {
    /// The rules that this payload breaks.
    pub open spec fn broken_rules(self) -> Wrong {
        let e = no_errors();
        let e = unless(e, 0 <= self.referrer_credits <= 100_000, "referrer_credits"@, "range"@, None);
        let e = unless(e, 0 <= self.referred_credits <= 100_000, "referred_credits"@, "range"@, None);
        unless(e, 0 <= self.max_rewarded_per_month <= 10_000, "max_rewarded_per_month"@, "range"@, None)
    }

    /// Checks the payload against its rules.
    pub fn validate(&self) -> (r: Result<(), ValidationErrors>)
        ensures
            judged(r, self.broken_rules()),
    {
        let mut e = ValidationErrors::new();
        e.check(0 <= self.referrer_credits && self.referrer_credits <= 100_000, "referrer_credits", "range", None);
        e.check(0 <= self.referred_credits && self.referred_credits <= 100_000, "referred_credits", "range", None);
        e.check(0 <= self.max_rewarded_per_month && self.max_rewarded_per_month <= 10_000, "max_rewarded_per_month", "range", None);
        e.into_result()
    }
}

impl Default for ReferralSettings {
    fn default() -> (r: Self)
        ensures
            r.enabled,
            r.referrer_credits == 50,
            r.referred_credits == 20,
            r.max_rewarded_per_month == 20,
    {
        ReferralSettings {
            enabled: true,
            referrer_credits: 50,
            referred_credits: 20,
            max_rewarded_per_month: 20,
        }
    }
}

/// Plan time that can be bought with credits.
#[derive(Debug, Clone, PartialEq)]
pub struct Reward {
    pub id: String,
    pub plan: String,
    pub days: i64,
    pub cost: i32,
}

impl Reward {
    /// The rules that this payload breaks.
    pub open spec fn broken_rules(self) -> Wrong {
        let e = no_errors();
        let e = unless(e, length_within(self.id@, 1, 40), "id"@, "length"@, None);
        let e = unless(e, length_within(self.plan@, 1, 32), "plan"@, "length"@, None);
        let e = unless(e, 1 <= self.days <= 3650, "days"@, "range"@, None);
        unless(e, 1 <= self.cost <= 100_000, "cost"@, "range"@, None)
    }

    /// Checks the payload against its rules.
    pub fn validate(&self) -> (r: Result<(), ValidationErrors>)
        ensures
            judged(r, self.broken_rules()),
    {
        let mut e = ValidationErrors::new();
        e.check(has_length(self.id.as_str(), 1, 40), "id", "length", None);
        e.check(has_length(self.plan.as_str(), 1, 32), "plan", "length", None);
        e.check(1 <= self.days && self.days <= 3650, "days", "range", None);
        e.check(1 <= self.cost && self.cost <= 100_000, "cost", "range", None);
        e.into_result()
    }
}

/// Every reward keeps its rules.
pub open spec fn rewards_valid(v: Seq<Reward>) -> bool {
    forall|i: int| 0 <= i < v.len() ==> !has_errors((#[trigger] v[i]).broken_rules())
}

fn check_rewards(v: &Vec<Reward>) -> (r: bool)
    ensures
        r == rewards_valid(v@),
{
    let mut i: usize = 0;
    while i < v.len()
        invariant
            i <= v@.len(),
            forall|j: int| 0 <= j < i ==> !has_errors((#[trigger] v@[j]).broken_rules()),
        decreases v@.len() - i,
    {
        if v[i].validate().is_err() {
            return false;
        }
        i = i + 1;
    }
    true
}

/// Platform billing configuration (`platform_settings.billing`).
#[derive(Debug, Clone, PartialEq)]
pub struct BillingSettings {
    /// While `false`, every account has every feature and the platform
    /// default quotas apply.
    pub enforced: bool,
    pub trial_days: i64,
    pub trial_plan: String,
    pub referral: ReferralSettings,
    pub rewards: Vec<Reward>,
}

impl BillingSettings {
    /// The rules that this payload breaks.
    pub open spec fn broken_rules(self) -> Wrong {
        let e = no_errors();
        let e = unless(e, 0 <= self.trial_days <= 365, "trial_days"@, "range"@, None);
        let e = unless(e, length_within(self.trial_plan@, 1, 32), "trial_plan"@, "length"@, None);
        let e = with_part(e, !has_errors(self.referral.broken_rules()));
        let e = with_part(e, rewards_valid(self.rewards@));
        unless(e, 0 <= self.rewards@.len() <= 20, "rewards"@, "length"@, None)
    }

    /// Checks the payload against its rules.
    pub fn validate(&self) -> (r: Result<(), ValidationErrors>)
        ensures
            judged(r, self.broken_rules()),
    {
        let mut e = ValidationErrors::new();
        e.check(0 <= self.trial_days && self.trial_days <= 365, "trial_days", "range", None);
        e.check(has_length(self.trial_plan.as_str(), 1, 32), "trial_plan", "length", None);
        e.part(self.referral.validate().is_ok());
        e.part(check_rewards(&self.rewards));
        e.check(self.rewards.len() <= 20, "rewards", "length", None);
        e.into_result()
    }
}

/// `reward` is this one.
pub open spec fn is_reward(
    reward: Reward,
    id: Seq<char>,
    plan: Seq<char>,
    days: int,
    cost: int,
) -> bool {
    reward.id@ == id && reward.plan@ == plan && reward.days == days && reward.cost == cost
}

/// The rewards there are by default.
pub open spec fn default_rewards(v: Seq<Reward>) -> bool {
    &&& v.len() == 2
    &&& is_reward(v[0], "intermediate_30d"@, "intermediate"@, 30, 80)
    &&& is_reward(v[1], "pro_30d"@, "pro"@, 30, 120)
}

impl Default for BillingSettings {
    fn default() -> (r: Self)
        ensures
            !r.enforced,
            r.trial_days == 30,
            r.trial_plan@ == "pro"@,
            r.referral.enabled,
            r.referral.referrer_credits == 50,
            r.referral.referred_credits == 20,
            r.referral.max_rewarded_per_month == 20,
            default_rewards(r.rewards@),
    {
        let mut rewards: Vec<Reward> = Vec::new();
        rewards.push(
            Reward {
                id: "intermediate_30d".to_string(),
                plan: "intermediate".to_string(),
                days: 30,
                cost: 80,
            },
        );
        rewards.push(
            Reward { id: "pro_30d".to_string(), plan: "pro".to_string(), days: 30, cost: 120 },
        );
        BillingSettings {
            enforced: false,
            trial_days: 30,
            trial_plan: "pro".to_string(),
            referral: ReferralSettings::default(),
            rewards,
        }
    }
}

/// The fields of stored settings and rewards, in the order in which a list of
/// them is stored.
pub const REFERRAL_FIELDS: [&'static str; 4] = [
    "enabled",
    "referrer_credits",
    "referred_credits",
    "max_rewarded_per_month",
];

pub const REWARD_FIELDS: [&'static str; 4] = ["id", "plan", "days", "cost"];

pub const BILLING_FIELDS: [&'static str; 5] = [
    "enforced",
    "trial_days",
    "trial_plan",
    "referral",
    "rewards",
];

/// What stored referral settings say, be they stored by name or as a list;
/// none where one is of another kind. Those that are missing are the default
/// ones.
pub open spec fn referral_in(v: Json) -> Option<ReferralSettings> {
    match record(v, names_in(REFERRAL_FIELDS@)) {
        Some(o) => named_referral(o),
        None => None,
    }
}

/// What referral settings that are stored by name say.
pub open spec fn named_referral(v: Json) -> Option<ReferralSettings> {
    match (
        flag_or(v, "enabled"@, true),
        small_integer_or(v, "referrer_credits"@, 50),
        small_integer_or(v, "referred_credits"@, 20),
        integer_or(v, "max_rewarded_per_month"@, 20),
    ) {
        (Some(enabled), Some(referrer_credits), Some(referred_credits), Some(max)) => Some(
            ReferralSettings {
                enabled,
                referrer_credits,
                referred_credits,
                max_rewarded_per_month: max,
            },
        ),
        _ => None,
    }
}

/// `reward` is what a stored reward says, be it stored by name or as a list.
pub open spec fn reward_in(v: Json, reward: Reward) -> bool {
    record(v, names_in(REWARD_FIELDS@)) matches Some(o) && named_reward(o, reward)
}

/// `reward` is what a reward that is stored by name says.
pub open spec fn named_reward(v: Json, reward: Reward) -> bool {
    &&& text_member(v, "id"@) == Some(reward.id@)
    &&& text_member(v, "plan"@) == Some(reward.plan@)
    &&& integer_member(v, "days"@) == Some(reward.days)
    &&& integer_member(v, "cost"@) == Some(reward.cost as i64)
}

/// `v` is a stored reward.
pub open spec fn is_stored_reward(v: Json) -> bool {
    record(v, names_in(REWARD_FIELDS@)) matches Some(o) && is_named_reward(o)
}

/// `v` is a reward that is stored by name.
pub open spec fn is_named_reward(v: Json) -> bool {
    &&& text_member(v, "id"@) is Some
    &&& text_member(v, "plan"@) is Some
    &&& integer_member(v, "days"@) is Some
    &&& integer_member(v, "cost"@) matches Some(n) && i32::MIN <= n <= i32::MAX
}

/// `rewards` are what the stored ones say; the default ones where there are
/// none.
pub open spec fn rewards_in(v: Json, rewards: Seq<Reward>) -> bool {
    match member(v, "rewards"@) {
        None => default_rewards(rewards),
        Some(Json::Array(a)) => rewards.len() == a.len() && forall|i: int|
            0 <= i < a.len() ==> reward_in(#[trigger] a[i], rewards[i]),
        _ => false,
    }
}

/// The stored rewards are rewards.
pub open spec fn are_stored_rewards(v: Json) -> bool {
    match member(v, "rewards"@) {
        None => true,
        Some(Json::Array(a)) => forall|i: int| 0 <= i < a.len() ==> is_stored_reward(#[trigger] a[i]),
        _ => false,
    }
}

/// The referral settings among the stored ones; the default ones where there
/// are none.
pub open spec fn referral_or_default(v: Json) -> Option<ReferralSettings> {
    match member(v, "referral"@) {
        None => referral_in(Json::Object(seq![])),
        Some(x) => referral_in(x),
    }
}

/// The stored settings are settings, be they stored by name or as a list.
pub open spec fn are_stored_settings(v: Json) -> bool {
    record(v, names_in(BILLING_FIELDS@)) matches Some(o) && are_named_settings(o)
}

/// The settings that are stored by name are settings.
pub open spec fn are_named_settings(v: Json) -> bool {
    &&& flag_or(v, "enforced"@, false) is Some
    &&& integer_or(v, "trial_days"@, 30) is Some
    &&& text_or(v, "trial_plan"@, "pro"@) is Some
    &&& referral_or_default(v) is Some
    &&& are_stored_rewards(v)
}

/// `s` is what the stored settings say. Those that are missing are the
/// default ones.
pub open spec fn settings_in(v: Json, s: BillingSettings) -> bool {
    record(v, names_in(BILLING_FIELDS@)) matches Some(o) && named_settings(o, s)
}

/// `s` is what the settings that are stored by name say.
pub open spec fn named_settings(v: Json, s: BillingSettings) -> bool {
    &&& flag_or(v, "enforced"@, false) == Some(s.enforced)
    &&& integer_or(v, "trial_days"@, 30) == Some(s.trial_days)
    &&& text_or(v, "trial_plan"@, "pro"@) == Some(s.trial_plan@)
    &&& referral_or_default(v) == Some(s.referral)
    &&& rewards_in(v, s.rewards@)
}

impl ReferralSettings {
    /// Reads stored settings; those that are missing are the default ones.
    pub fn from_json(value: &JsonValue) -> (r: Option<ReferralSettings>)
        ensures
            r == referral_in(value@),
    {
        let stored = match record_of(value, REFERRAL_FIELDS) {
            Some(o) => o,
            None => {
                return None;
            },
        };
        let value = &stored;
        match (
            flag_field(value, "enabled", true),
            small_integer_or_field(value, "referrer_credits", 50),
            small_integer_or_field(value, "referred_credits", 20),
            integer_or_field(value, "max_rewarded_per_month", 20),
        ) {
            (Some(enabled), Some(referrer_credits), Some(referred_credits), Some(max)) => Some(
                ReferralSettings {
                    enabled,
                    referrer_credits,
                    referred_credits,
                    max_rewarded_per_month: max,
                },
            ),
            _ => None,
        }
    }
}

impl Reward {
    /// Reads a stored reward.
    pub fn from_json(value: &JsonValue) -> (r: Option<Reward>)
        ensures
            match r {
                Some(x) => is_stored_reward(value@) && reward_in(value@, x),
                None => !is_stored_reward(value@),
            },
    {
        let stored = match record_of(value, REWARD_FIELDS) {
            Some(o) => o,
            None => {
                return None;
            },
        };
        let value = &stored;
        match (
            text_field(value, "id"),
            text_field(value, "plan"),
            integer_field(value, "days"),
            integer_field(value, "cost"),
        ) {
            (Some(id), Some(plan), Some(days), Some(cost)) => if i32::MIN as i64 <= cost && cost
                <= i32::MAX as i64 {
                Some(Reward { id, plan, days, cost: cost as i32 })
            } else {
                None
            },
            _ => None,
        }
    }
}

fn read_rewards(value: &JsonValue) -> (r: Option<Vec<Reward>>)
    ensures
        match r {
            Some(x) => are_stored_rewards(value@) && rewards_in(value@, x@),
            None => !are_stored_rewards(value@),
        },
{
    match value.get("rewards") {
        None => Some(BillingSettings::default().rewards),
        Some(JsonValue::Array(a)) => {
            proof {
                lemma_array_view(*a);
            }
            let ghost all = jsons(a@);
            let mut out: Vec<Reward> = Vec::new();
            let mut i: usize = 0;
            while i < a.len()
                invariant
                    all == jsons(a@),
                    member(value@, "rewards"@) == Some(Json::Array(all)),
                    i <= a@.len(),
                    out@.len() == i,
                    forall|j: int|
                        0 <= j < i ==> is_stored_reward(#[trigger] all[j]) && reward_in(
                            all[j],
                            out@[j],
                        ),
                decreases a@.len() - i,
            {
                assert(all[i as int] == a@[i as int]@);
                match Reward::from_json(&a[i]) {
                    Some(reward) => {
                        out.push(reward);
                    },
                    None => {
                        assert(!are_stored_rewards(value@)) by {
                            let stored = member(value@, "rewards"@)->0->Array_0;
                            assert(!is_stored_reward(stored[i as int]));
                        }
                        return None;
                    },
                }
                i = i + 1;
            }
            Some(out)
        },
        _ => None,
    }
}

impl BillingSettings {
    /// Reads stored settings; those that are missing are the default ones.
    pub fn from_json(value: &JsonValue) -> (r: Option<BillingSettings>)
        ensures
            match r {
                Some(s) => are_stored_settings(value@) && settings_in(value@, s),
                None => !are_stored_settings(value@),
            },
    {
        let stored = match record_of(value, BILLING_FIELDS) {
            Some(o) => o,
            None => {
                return None;
            },
        };
        let value = &stored;
        let empty: Vec<(String, JsonValue)> = Vec::new();
        let nothing = object_value(empty);
        assert(members(empty@) =~= seq![]);
        let referral = match value.get("referral") {
            None => ReferralSettings::from_json(&nothing),
            Some(x) => ReferralSettings::from_json(x),
        };
        match (
            flag_field(value, "enforced", false),
            integer_or_field(value, "trial_days", 30),
            text_or_field(value, "trial_plan", "pro"),
            referral,
            read_rewards(value),
        ) {
            (
                Some(enforced),
                Some(trial_days),
                Some(trial_plan),
                Some(referral),
                Some(rewards),
            ) => Some(BillingSettings { enforced, trial_days, trial_plan, referral, rewards }),
            _ => None,
        }
    }
}

/// Which rules an account falls under right now, in order of precedence.
#[derive(Debug, Clone, Copy, PartialEq, Eq, Structural)]
pub enum AccessTier {
    /// Admins and moderators: every feature, no quotas, no plans to buy.
    Staff,
    /// A plan in effect while plans are enforced: its features and limits.
    Plan,
    /// E-mail address not verified yet (and no plan): very small limits
    /// and no paid features, in the beta too.
    Unverified,
    /// Plans not enforced (the beta): every feature, the platform defaults.
    Beta,
    /// Plans enforced and no plan in effect: the free tier.
    Free,
}

/// The tier of an account, in order of precedence.
pub open spec fn tier_of(
    is_staff: bool,
    enforced: bool,
    has_plan: bool,
    email_verified: bool,
) -> AccessTier {
    if is_staff {
        AccessTier::Staff
    } else if enforced && has_plan {
        AccessTier::Plan
    } else if !email_verified {
        AccessTier::Unverified
    } else if !enforced {
        AccessTier::Beta
    } else {
        AccessTier::Free
    }
}

impl AccessTier {
    pub fn resolve(
        is_staff: bool,
        enforced: bool,
        has_plan: bool,
        email_verified: bool,
    ) -> (r: Self)
        ensures
            r == tier_of(is_staff, enforced, has_plan, email_verified),
    {
        if is_staff {
            AccessTier::Staff
        } else if enforced && has_plan {
            AccessTier::Plan
        } else if !email_verified {
            AccessTier::Unverified
        } else if !enforced {
            AccessTier::Beta
        } else {
            AccessTier::Free
        }
    }
}

/// Staff are never limited by plans, a plan only counts while plans are
/// enforced, and nobody is on the free tier during the beta.
pub proof fn tiers_follow_precedence(
    is_staff: bool,
    enforced: bool,
    has_plan: bool,
    email_verified: bool,
)
    ensures
        tier_of(is_staff, enforced, has_plan, email_verified) == AccessTier::Staff <==> is_staff,
        tier_of(is_staff, enforced, has_plan, email_verified) == AccessTier::Plan ==> enforced
            && has_plan,
        tier_of(is_staff, enforced, has_plan, email_verified) == AccessTier::Free ==> enforced
            && !has_plan && email_verified,
        tier_of(is_staff, enforced, has_plan, email_verified) == AccessTier::Beta ==> !enforced
            && email_verified,
{
}

/// Answer of `GET /public/billing`: whether the platform is in its beta
/// (plans not enforced, everything free) and the sign-up trial.
#[derive(Debug, Clone)]
pub struct PublicBillingMode {
    /// `true` while plans aren't enforced: every feature is free.
    pub beta: bool,
    /// Days of the sign-up trial (starts once the e-mail is verified; only
    /// once plans are enforced).
    pub trial_days: i64,
    pub trial_plan: String,
    /// Limits of every verified account during the beta.
    pub beta_limits: QuotaLimits,
    /// The free tier (no plan, once plans are enforced).
    pub free_limits: QuotaLimits,
    pub free_features: Vec<(String, bool)>,
    /// Limits until the e-mail address is verified.
    pub unverified_limits: QuotaLimits,
}

// ---------------------------------------------------------------------
// Plans
// ---------------------------------------------------------------------

/// What a list of flags says.
pub open spec fn flags(v: Seq<(String, bool)>) -> Seq<(Seq<char>, Json)> {
    Seq::new(v.len(), |i: int| (v[i].0@, Json::Bool(v[i].1)))
}

/// The flag of a feature; none for one that is not listed.
pub open spec fn flag_of(v: Seq<(String, bool)>, key: Seq<char>) -> Option<bool> {
    match member_of(flags(v), key) {
        Some(Json::Bool(b)) => Some(b),
        _ => None,
    }
}

/// What the stored flags say of a feature.
pub open spec fn stored_flag(stored: Json, key: Seq<char>) -> bool {
    match bool_member(stored, key) {
        Some(b) => b,
        None => false,
    }
}

/// The flags of the features `known`, in the order of their keys, missing
/// ones as `false`, and no others.
pub open spec fn is_normalized(
    r: Seq<(String, bool)>,
    stored: Json,
    known: Seq<Seq<char>>,
) -> bool {
    &&& sorted_members(flags(r))
    &&& forall|key: Seq<char>| #[trigger]
        flag_of(r, key) == if known.contains(key) {
            Some(stored_flag(stored, key))
        } else {
            None
        }
}

/// The flags of every known feature, missing keys as `false`.
pub fn normalize_features(stored: &JsonValue, known: &Vec<String>) -> (r: Vec<(String, bool)>)
    ensures
        is_normalized(r@, stored@, texts(known@)),
{
    let ghost all = texts(known@);
    let mut m: Vec<(String, JsonValue)> = Vec::new();
    let mut i: usize = 0;
    assert(members(m@) =~= seq![]);
    while i < known.len()
        invariant
            all == texts(known@),
            i <= known@.len(),
            sorted_members(members(m@)),
            forall|key: Seq<char>| #[trigger]
                member_of(members(m@), key) == if all.take(i as int).contains(key) {
                    Some(Json::Bool(stored_flag(stored@, key)))
                } else {
                    None
                },
        decreases known@.len() - i,
    {
        let key = known[i].as_str();
        let flag = match stored.bool_of(key) {
            Some(b) => b,
            None => false,
        };
        assert(all[i as int] == key@);
        assert forall|k: Seq<char>| #[trigger]
            all.take(i + 1).contains(k) == (k == key@ || all.take(i as int).contains(k)) by {
            let t = all.take(i + 1);
            if k == key@ {
                assert(t[i as int] == k);
            }
            if all.take(i as int).contains(k) {
                let j = choose|j: int| 0 <= j < i && all.take(i as int)[j] == k;
                assert(t[j] == k);
            }
            if t.contains(k) && k != key@ {
                let j = choose|j: int| 0 <= j < t.len() && t[j] == k;
                assert(all.take(i as int)[j] == k);
            }
        }
        set_member(&mut m, key.to_string(), JsonValue::Bool(flag));
        i = i + 1;
    }
    assert(all.take(i as int) =~= all);
    let ghost done = members(m@);
    let mut out: Vec<(String, bool)> = Vec::new();
    let mut j: usize = 0;
    while j < m.len()
        invariant
            done == members(m@),
            j <= m@.len(),
            out@.len() == j,
            sorted_members(done),
            forall|key: Seq<char>| #[trigger]
                member_of(done, key) == if all.contains(key) {
                    Some(Json::Bool(stored_flag(stored@, key)))
                } else {
                    None
                },
            forall|k: int| 0 <= k < j ==> #[trigger] flags(out@)[k] == done[k],
        decreases m@.len() - j,
    {
        let flag = match m[j].1.as_bool() {
            Some(b) => b,
            None => false,
        };
        proof {
            lemma_member_at(done, j as int);
            assert(done[j as int] == (m@[j as int].0@, m@[j as int].1@));
            assert(member_of(done, done[j as int].0) == Some(done[j as int].1));
        }
        let ghost before = out@;
        out.push((m[j].0.clone(), flag));
        assert forall|k: int| 0 <= k < j + 1 implies #[trigger] flags(out@)[k] == done[k] by {
            if k < j {
                assert(flags(out@)[k] == flags(before)[k]);
            }
        }
        j = j + 1;
    }
    assert(flags(out@) =~= done);
    out
}

#[derive(Debug, Clone)]
pub struct PlanRow {
    pub code: String,
    pub name: JsonValue,
    pub description: JsonValue,
    pub price_monthly_cents: i32,
    pub price_yearly_cents: i32,
    pub currency: String,
    pub limits: JsonValue,
    pub features: JsonValue,
    pub highlighted: bool,
    pub is_public: bool,
    pub sort_order: i32,
    pub updated_at: NaiveDateTime,
}

/// A plan.
#[derive(Debug, Clone)]
pub struct Plan {
    pub code: String,
    /// Localized: `{"en": ..., "pt-BR": ..., "es": ...}`.
    pub name: JsonValue,
    pub description: JsonValue,
    pub price_monthly_cents: i32,
    pub price_yearly_cents: i32,
    pub currency: String,
    pub limits: QuotaLimits,
    /// Every known feature, `true` when included.
    pub features: Vec<(String, bool)>,
    pub highlighted: bool,
    pub is_public: bool,
    pub sort_order: i32,
    pub updated_at: NaiveDateTime,
}

impl Plan {
    /// The plan of a row; `known` are the keys of the features there are.
    pub fn from_row(row: PlanRow, known: &Vec<String>) -> (r: Self)
        ensures
            r.code@ == row.code@,
            r.name@ == row.name@,
            r.description@ == row.description@,
            r.price_monthly_cents == row.price_monthly_cents,
            r.price_yearly_cents == row.price_yearly_cents,
            r.currency@ == row.currency@,
            r.limits == match limits_in(row.limits@) {
                Some(limits) => limits,
                None => default_limits(),
            },
            is_normalized(r.features@, row.features@, texts(known@)),
            r.highlighted == row.highlighted,
            r.is_public == row.is_public,
            r.sort_order == row.sort_order,
            r.updated_at == row.updated_at,
    {
        Plan {
            features: normalize_features(&row.features, known),
            limits: match QuotaLimits::from_json(&row.limits) {
                Some(limits) => limits,
                None => QuotaLimits::default(),
            },
            code: row.code,
            name: row.name,
            description: row.description,
            price_monthly_cents: row.price_monthly_cents,
            price_yearly_cents: row.price_yearly_cents,
            currency: row.currency,
            highlighted: row.highlighted,
            is_public: row.is_public,
            sort_order: row.sort_order,
            updated_at: row.updated_at,
        }
    }

    /// Whether the plan includes the feature with this key.
    pub fn has(&self, feature: &str) -> (r: bool)
        ensures
            r == (flag_of(self.features@, feature@) == Some(true)),
    {
        let v = &self.features;
        let ghost all = flags(v@);
        let mut i: usize = 0;
        assert(all.skip(0) =~= all);
        while i < v.len()
            invariant
                v == &self.features,
                all == flags(v@),
                i <= v@.len(),
                member_of(all, feature@) == member_of(all.skip(i as int), feature@),
            decreases v@.len() - i,
        {
            proof {
                lemma_member_skip(all, i as int);
                assert(all[i as int] == (v@[i as int].0@, Json::Bool(v@[i as int].1)));
            }
            if same(v[i].0.as_str(), feature) {
                assert(member_of(all.skip(i as int), feature@) == Some(Json::Bool(v@[i as int].1)));
                return v[i].1;
            }
            i = i + 1;
        }
        assert(all.skip(i as int) =~= seq![]);
        false
    }
}

/// A plan made from a row includes exactly the known features stored as
/// included.
pub proof fn plans_include_what_was_stored(
    r: Seq<(String, bool)>,
    stored: Json,
    known: Seq<Seq<char>>,
    feature: Seq<char>,
)
    requires
        is_normalized(r, stored, known),
    ensures
        flag_of(r, feature) == Some(true) <==> known.contains(feature) && bool_member(stored, feature)
            == Some(true),
{
}

/// The promotion shown next to a plan on the pricing page.
#[derive(Debug, Clone)]
pub struct PlanPromotion {
    pub id: Uuid,
    /// Localized headline map.
    pub headline: JsonValue,
    pub discount_percent: i32,
    pub ends_at: NaiveDateTime,
}

/// A plan as listed publicly (`GET /public/plans`).
#[derive(Debug, Clone)]
pub struct PublicPlan {
    pub code: String,
    pub name: JsonValue,
    pub description: JsonValue,
    pub price_monthly_cents: i32,
    pub price_yearly_cents: i32,
    pub currency: String,
    pub limits: QuotaLimits,
    pub features: Vec<(String, bool)>,
    pub highlighted: bool,
    pub sort_order: i32,
    /// The best active promotion for this plan, if any.
    pub promotion: Option<PlanPromotion>,
}

/// A plan code: 2 to 32 lower-case letters, digits and underscores, a letter
/// first, and neither of the reserved words.
pub open spec fn is_plan_code(code: Seq<char>) -> bool {
    &&& 2 <= code.len() <= 32
    &&& is_lower(code[0])
    &&& forall|i: int|
        0 <= i < code.len() ==> is_lower(#[trigger] code[i]) || is_digit(code[i]) || code[i] == '_'
    &&& code != "none"@
    &&& code != "trial"@
}

/// What is wrong with a plan code.
pub open spec fn plan_code_error(code: Seq<char>) -> Option<ErrorView> {
    if is_plan_code(code) {
        None
    } else {
        Some(
            ErrorView {
                code: "invalid_plan_code"@,
                message: Some(
                    "Plan codes use 2 to 32 lower-case letters, digits and underscores ('none' and 'trial' are reserved)."@,
                ),
            },
        )
    }
}

pub fn validate_plan_code(code: &str) -> (r: Result<(), ValidationError>)
    ensures
        verdict(r) == plan_code_error(code@),
{
    let v = chars(code);
    let n = v.len();
    let mut i: usize = 0;
    while i < n && (char_is_lower(v[i]) || char_is_digit(v[i]) || v[i] == '_')
        invariant
            v@ == code@,
            n == v@.len(),
            i <= n,
            forall|j: int|
                0 <= j < i ==> is_lower(#[trigger] code@[j]) || is_digit(code@[j]) || code@[j]
                    == '_',
        decreases n - i,
    {
        i = i + 1;
    }
    if 2 <= n && n <= 32 && char_is_lower(v[0]) && i == n && !same(code, "none") && !same(
        code,
        "trial",
    ) {
        Ok(())
    } else {
        assert(!is_plan_code(code@)) by {
            if i < n {
                assert(!(is_lower(code@[i as int]) || is_digit(code@[i as int]) || code@[i as int]
                    == '_'));
            }
        }
        Err(
            ValidationError::with_message(
                "invalid_plan_code",
                "Plan codes use 2 to 32 lower-case letters, digits and underscores ('none' and 'trial' are reserved).",
            ),
        )
    }
}

pub fn check_plan_code(code: &str) -> (r: Result<(), ValidationError>)
    ensures
        verdict(r) == plan_code_error(code@),
{
    validate_plan_code(code)
}

/// What is wrong with the name of a plan.
pub open spec fn plan_name_error(value: Json) -> Option<ErrorView> {
    localized_error(value, seq!["en"@, "pt-BR"@], 1, 60)
}

pub fn validate_plan_name(value: &JsonValue) -> (r: Result<(), ValidationError>)
    ensures
        verdict(r) == plan_name_error(value@),
{
    let required: [&str; 2] = ["en", "pt-BR"];
    assert(strs(required@) =~= seq!["en"@, "pt-BR"@]);
    validate_localized_map(value, &required, 1, 60)
}

/// What is wrong with the description of a plan.
pub open spec fn plan_description_error(value: Json) -> Option<ErrorView> {
    localized_error(value, seq![], 0, 400)
}

pub fn validate_plan_description(value: &JsonValue) -> (r: Result<(), ValidationError>)
    ensures
        verdict(r) == plan_description_error(value@),
{
    let required: [&str; 0] = [];
    assert(strs(required@) =~= seq![]);
    validate_localized_map(value, &required, 0, 400)
}

/// What is wrong with the first feature, from `i` on, that is not known.
pub open spec fn feature_error(
    v: Seq<(String, bool)>,
    known: Seq<Seq<char>>,
    i: int,
) -> Option<ErrorView>
    decreases v.len() - i,
{
    if i < 0 || i >= v.len() {
        None
    } else if !known.contains(v[i].0@) {
        Some(
            ErrorView {
                code: "unknown_feature"@,
                message: Some("Unknown feature '"@ + v[i].0@ + "'."@),
            },
        )
    } else {
        feature_error(v, known, i + 1)
    }
}

/// Only the features `known` may be flagged.
pub fn validate_feature_map(value: &Vec<(String, bool)>, known: &Vec<String>) -> (r: Result<
    (),
    ValidationError,
>)
    ensures
        verdict(r) == feature_error(value@, texts(known@), 0),
{
    let mut i: usize = 0;
    while i < value.len()
        invariant
            i <= value@.len(),
            feature_error(value@, texts(known@), 0) == feature_error(
                value@,
                texts(known@),
                i as int,
            ),
        decreases value@.len() - i,
    {
        let key = value[i].0.as_str();
        if !has_text(known, key) {
            let mut message = "Unknown feature '".to_string();
            message.append(key);
            message.append("'.");
            return Err(ValidationError::with_message("unknown_feature", message.as_str()));
        }
        i = i + 1;
    }
    Ok(())
}

/// Three upper-case letters.
pub open spec fn is_currency(s: Seq<char>) -> bool {
    s.len() == 3 && is_upper(s[0]) && is_upper(s[1]) && is_upper(s[2])
}

/// What is wrong with a currency.
pub open spec fn currency_error(value: Seq<char>) -> Option<ErrorView> {
    if is_currency(value) {
        None
    } else {
        Some(
            ErrorView {
                code: "invalid_currency"@,
                message: Some("Currency must be an ISO 4217 code."@),
            },
        )
    }
}

pub fn validate_currency(value: &str) -> (r: Result<(), ValidationError>)
    ensures
        verdict(r) == currency_error(value@),
{
    let v = chars(value);
    if v.len() == 3 && char_is_upper(v[0]) && char_is_upper(v[1]) && char_is_upper(v[2]) {
        Ok(())
    } else {
        Err(
            ValidationError::with_message(
                "invalid_currency",
                "Currency must be an ISO 4217 code.",
            ),
        )
    }
}

/// Smallest amount Stripe charges in BRL (R$ 0,50).
pub const MIN_CHARGE_CENTS: i32 = 50;

/// What is wrong with a price.
pub open spec fn price_error(cents: int) -> Option<ErrorView> {
    if cents == 0 || cents >= MIN_CHARGE_CENTS {
        None
    } else {
        Some(
            ErrorView {
                code: "below_minimum_charge"@,
                message: Some("A price must be 0 (not sold) or at least 50 cents."@),
            },
        )
    }
}

/// A price is either free (`0`, not sold for that interval) or at least
/// the provider's minimum charge.
pub fn validate_chargeable_price(cents: i32) -> (r: Result<(), ValidationError>)
    ensures
        verdict(r) == price_error(cents as int),
{
    if cents == 0 || cents >= MIN_CHARGE_CENTS {
        Ok(())
    } else {
        Err(
            ValidationError::with_message(
                "below_minimum_charge",
                "A price must be 0 (not sold) or at least 50 cents.",
            ),
        )
    }
}

/// Body of `PUT /admin/plans/{code}`. Omitted fields keep their value; a
/// new plan needs at least `name`.
#[derive(Debug, Clone)]
pub struct UpsertPlanPayload {
    pub name: Option<JsonValue>,
    pub description: Option<JsonValue>,
    pub price_monthly_cents: Option<i32>,
    pub price_yearly_cents: Option<i32>,
    pub currency: Option<String>,
    pub limits: Option<QuotaLimits>,
    pub features: Option<Vec<(String, bool)>>,
    pub highlighted: Option<bool>,
    pub is_public: Option<bool>,
    pub sort_order: Option<i32>,
}

impl UpsertPlanPayload {
    /// The rules that this payload breaks.
    pub open spec fn broken_rules(self, features: Option<ErrorView>) -> Wrong {
        let e = no_errors();
        let e = noted(e, "name"@, match self.name { Some(x) => plan_name_error(x@), None => None });
        let e = noted(e, "description"@, match self.description { Some(x) => plan_description_error(x@), None => None });
        let e = unless(e, (self.price_monthly_cents matches Some(x) ==> 0 <= x <= 100_000_000), "price_monthly_cents"@, "range"@, None);
        let e = noted(e, "price_monthly_cents"@, match self.price_monthly_cents { Some(x) => price_error(x as int), None => None });
        let e = unless(e, (self.price_yearly_cents matches Some(x) ==> 0 <= x <= 1_000_000_000), "price_yearly_cents"@, "range"@, None);
        let e = noted(e, "price_yearly_cents"@, match self.price_yearly_cents { Some(x) => price_error(x as int), None => None });
        let e = noted(e, "currency"@, match self.currency { Some(x) => currency_error(x@), None => None });
        let e = with_part(e, (self.limits matches Some(x) ==> !has_errors(x.broken_rules())));
        let e = noted(e, "features"@, features);
        unless(e, (self.sort_order matches Some(x) ==> -10_000 <= x <= 10_000), "sort_order"@, "range"@, None)
    }

    /// Checks the payload against its rules.
    /// `features` is what the text rules say of that field.
    pub fn validate(&self, features: Result<(), ValidationError>) -> (r: Result<(), ValidationErrors>)
        ensures
            judged(r, self.broken_rules(verdict(features))),
    {
        let mut e = ValidationErrors::new();
        e.note("name", match &self.name { Some(x) => validate_plan_name(x), None => Ok(()) });
        e.note("description", match &self.description { Some(x) => validate_plan_description(x), None => Ok(()) });
        e.check(match self.price_monthly_cents { Some(x) => 0 <= x && x <= 100_000_000, None => true }, "price_monthly_cents", "range", None);
        e.note("price_monthly_cents", match self.price_monthly_cents { Some(x) => validate_chargeable_price(x), None => Ok(()) });
        e.check(match self.price_yearly_cents { Some(x) => 0 <= x && x <= 1_000_000_000, None => true }, "price_yearly_cents", "range", None);
        e.note("price_yearly_cents", match self.price_yearly_cents { Some(x) => validate_chargeable_price(x), None => Ok(()) });
        e.note("currency", match &self.currency { Some(x) => validate_currency(x.as_str()), None => Ok(()) });
        e.part(match &self.limits { Some(x) => x.validate().is_ok(), None => true });
        e.note("features", features);
        e.check(match self.sort_order { Some(x) => -10_000 <= x && x <= 10_000, None => true }, "sort_order", "range", None);
        e.into_result()
    }
}

// ---------------------------------------------------------------------
// Subscriptions
// ---------------------------------------------------------------------

#[derive(Debug, Clone, Copy, PartialEq, Eq, Structural)]
pub enum SubscriptionStatus {
    Trialing,
    Active,
    PastDue,
    Canceled,
    Expired,
}

/// The key of each [`SubscriptionStatus`].
pub open spec fn subscription_status_key(x: SubscriptionStatus) -> Seq<char> {
    match x {
        SubscriptionStatus::Trialing => "trialing"@,
        SubscriptionStatus::Active => "active"@,
        SubscriptionStatus::PastDue => "past_due"@,
        SubscriptionStatus::Canceled => "canceled"@,
        SubscriptionStatus::Expired => "expired"@,
    }
}

/// No two of them share a key.
pub proof fn subscription_status_keys_are_distinct(a: SubscriptionStatus, b: SubscriptionStatus)
    ensures
        subscription_status_key(a) == subscription_status_key(b) ==> a == b,
{
    reveal_strlit("trialing");
    reveal_strlit("active");
    reveal_strlit("past_due");
    reveal_strlit("canceled");
    reveal_strlit("expired");
    assert("trialing"@.len() != "active"@.len());
    assert("trialing"@[0] != "past_due"@[0]);
    assert("trialing"@[0] != "canceled"@[0]);
    assert("trialing"@.len() != "expired"@.len());
    assert("active"@.len() != "past_due"@.len());
    assert("active"@.len() != "canceled"@.len());
    assert("active"@.len() != "expired"@.len());
    assert("past_due"@[0] != "canceled"@[0]);
    assert("past_due"@.len() != "expired"@.len());
    assert("canceled"@.len() != "expired"@.len());
}

impl SubscriptionStatus {
    pub fn key(&self) -> (r: &'static str)
        ensures
            r@ == subscription_status_key(*self),
    {
        match self {
            SubscriptionStatus::Trialing => "trialing",
            SubscriptionStatus::Active => "active",
            SubscriptionStatus::PastDue => "past_due",
            SubscriptionStatus::Canceled => "canceled",
            SubscriptionStatus::Expired => "expired",
        }
    }
}

/// Statuses that grant the plan (until the period ends).
pub open spec fn live(status: SubscriptionStatus) -> bool {
    status == SubscriptionStatus::Trialing || status == SubscriptionStatus::Active || status
        == SubscriptionStatus::PastDue
}

impl SubscriptionStatus {
    /// Statuses that grant the plan (until the period ends).
    pub fn is_live(&self) -> (r: bool)
        ensures
            r == live(*self),
    {
        matches!(
            self,
            SubscriptionStatus::Trialing | SubscriptionStatus::Active | SubscriptionStatus::PastDue
        )
    }
}

#[derive(Debug, Clone, Copy, PartialEq, Eq, Structural)]
pub enum SubscriptionSource {
    Trial,
    Admin,
    PromoCode,
    Credits,
    Referral,
    Payment,
}

/// Days a paid subscription keeps its plan past `current_period_end`, so a
/// renewal confirmed late by the payment provider never interrupts access.
pub const RENEWAL_GRACE_DAYS: i64 = 2;

/// Days a paid subscription whose renewal failed (`past_due`) keeps its
/// plan while the provider retries the charge, counted from the failure
/// (`past_due_since`). Matches the Subscription Terms ("novas tentativas
/// por até 14 dias") and the Stripe retry schedule; afterwards the account
/// has no plan and the subscription is canceled at the provider.
pub const PAYMENT_GRACE_DAYS: i64 = 14;

/// Days after a paid invoice during which the buyer may withdraw with a
/// full refund (CDC art. 49).
pub const WITHDRAWAL_DAYS: i64 = 7;

/// A subscription with these fields grants its plan at the moment `now`.
pub open spec fn in_effect(
    status: SubscriptionStatus,
    source: SubscriptionSource,
    current_period_end: Option<NaiveDateTime>,
    past_due_since: Option<NaiveDateTime>,
    now: int,
) -> bool {
    let grace: int = if source == SubscriptionSource::Payment {
        RENEWAL_GRACE_DAYS * SECONDS_PER_DAY
    } else {
        0
    };
    &&& live(status)
    &&& status == SubscriptionStatus::PastDue ==> (past_due_since matches Some(since) ==> shifted(
        since@,
        PAYMENT_GRACE_DAYS * SECONDS_PER_DAY,
    ) > now)
    &&& (current_period_end matches Some(end) ==> shifted(end@, grace) > now)
}

/// `true` while a subscription with these fields grants its plan at `now`.
pub fn subscription_in_effect(
    status: SubscriptionStatus,
    source: SubscriptionSource,
    current_period_end: Option<NaiveDateTime>,
    past_due_since: Option<NaiveDateTime>,
    now: NaiveDateTime,
) -> (r: bool)
    ensures
        r == in_effect(status, source, current_period_end, past_due_since, now@),
{
    let grace: i64 = match source {
        SubscriptionSource::Payment => RENEWAL_GRACE_DAYS * SECONDS_PER_DAY,
        _ => 0,
    };
    let retrying = status != SubscriptionStatus::PastDue || match past_due_since {
        Some(since) => !since.reaches(PAYMENT_GRACE_DAYS * SECONDS_PER_DAY, &now),
        None => true,
    };
    status.is_live() && retrying && match current_period_end {
        Some(end) => !end.reaches(grace, &now),
        None => true,
    }
}

/// A subscription that ended does not come back by waiting.
pub proof fn subscriptions_only_end(
    status: SubscriptionStatus,
    source: SubscriptionSource,
    current_period_end: Option<NaiveDateTime>,
    past_due_since: Option<NaiveDateTime>,
    earlier: int,
    later: int,
)
    requires
        earlier <= later,
        in_effect(status, source, current_period_end, past_due_since, later),
    ensures
        in_effect(status, source, current_period_end, past_due_since, earlier),
{
}

#[derive(Debug, Clone)]
pub struct Subscription {
    pub plan_code: String,
    pub status: SubscriptionStatus,
    pub source: SubscriptionSource,
    pub started_at: NaiveDateTime,
    /// `None` = open-ended. For a paid subscription: the next charge (or,
    /// with `cancel_at_period_end`, when it ends).
    pub current_period_end: Option<NaiveDateTime>,
    pub trial_ends_at: Option<NaiveDateTime>,
    pub cancel_at_period_end: bool,
    /// `monthly` or `yearly` for paid subscriptions.
    pub billing_interval: Option<String>,
    /// When a paid subscription's renewal failed (`status = past_due`).
    pub past_due_since: Option<NaiveDateTime>,
}

impl Subscription {
    /// `true` while the subscription grants its plan at `now`.
    pub fn is_effective(&self, now: NaiveDateTime) -> (r: bool)
        ensures
            r == in_effect(
                self.status,
                self.source,
                self.current_period_end,
                self.past_due_since,
                now@,
            ),
    {
        subscription_in_effect(
            self.status,
            self.source,
            self.current_period_end,
            self.past_due_since,
            now,
        )
    }
}

/// How often a paid plan is charged.
#[derive(Debug, Clone, Copy, PartialEq, Eq, Structural)]
pub enum BillingInterval {
    Monthly,
    Yearly,
}

/// The key of each [`BillingInterval`].
pub open spec fn billing_interval_key(x: BillingInterval) -> Seq<char> {
    match x {
        BillingInterval::Monthly => "monthly"@,
        BillingInterval::Yearly => "yearly"@,
    }
}

impl BillingInterval {
    pub fn key(&self) -> (r: &'static str)
        ensures
            r@ == billing_interval_key(*self),
    {
        match self {
            BillingInterval::Monthly => "monthly",
            BillingInterval::Yearly => "yearly",
        }
    }
}

/// The interval as the payment provider names it.
pub open spec fn provider_interval(x: BillingInterval) -> Seq<char> {
    match x {
        BillingInterval::Monthly => "month"@,
        BillingInterval::Yearly => "year"@,
    }
}

impl BillingInterval {
    /// The interval as the payment provider names it.
    pub fn provider_key(&self) -> (r: &'static str)
        ensures
            r@ == provider_interval(*self),
    {
        match self {
            BillingInterval::Monthly => "month",
            BillingInterval::Yearly => "year",
        }
    }

    pub fn from_provider(value: &str) -> (r: Option<Self>)
        ensures
            forall|x: BillingInterval| r == Some(x) <==> #[trigger] provider_interval(x) == value@,
    {
        proof {
            reveal_strlit("month");
            reveal_strlit("year");
            assert("month"@.len() != "year"@.len());
        }
        if same(value, "month") {
            Some(BillingInterval::Monthly)
        } else if same(value, "year") {
            Some(BillingInterval::Yearly)
        } else {
            None
        }
    }

    /// The plan's price for this interval, in cents.
    pub fn price_of(&self, plan: &Plan) -> (r: i32)
        ensures
            r == match *self {
                BillingInterval::Monthly => plan.price_monthly_cents,
                BillingInterval::Yearly => plan.price_yearly_cents,
            },
    {
        match self {
            BillingInterval::Monthly => plan.price_monthly_cents,
            BillingInterval::Yearly => plan.price_yearly_cents,
        }
    }
}

/// Body of `POST /billing/checkout` and `POST /billing/subscription/change`.
#[derive(Debug, Clone)]
pub struct CheckoutPayload {
    pub plan_code: String,
    pub interval: BillingInterval,
}

impl CheckoutPayload {
    /// The rules that this payload breaks.
    pub open spec fn broken_rules(self) -> Wrong {
        let e = no_errors();
        unless(e, length_within(self.plan_code@, 2, 32), "plan_code"@, "length"@, None)
    }

    /// Checks the payload against its rules.
    pub fn validate(&self) -> (r: Result<(), ValidationErrors>)
        ensures
            judged(r, self.broken_rules()),
    {
        let mut e = ValidationErrors::new();
        e.check(has_length(self.plan_code.as_str(), 2, 32), "plan_code", "length", None);
        e.into_result()
    }
}

/// Where to send the browser next (a page hosted by the payment provider).
#[derive(Debug, Clone)]
pub struct RedirectResponse {
    pub url: String,
}

/// One change in a subscription's history.
#[derive(Debug, Clone)]
pub struct SubscriptionEvent {
    pub id: Uuid,
    pub kind: String,
    pub from_plan: Option<String>,
    pub to_plan: Option<String>,
    pub from_status: Option<SubscriptionStatus>,
    pub to_status: Option<SubscriptionStatus>,
    pub data: JsonValue,
    pub actor_username: Option<String>,
    pub created_at: NaiveDateTime,
}

/// The keys of [`SubscriptionEvent::data`] an account may see about its
/// own history. Everything else stays with staff: the note an admin
/// wrote when granting a plan, the reason of a staff refund, provider
/// object ids and the like.
pub const OWNER_VISIBLE_EVENT_DATA: [&'static str; 10] = [
    "days",
    "source",
    "plan_code",
    "interval",
    "effective_at",
    "current_period_end",
    "currency",
    "refunded_cents",
    "old_amount_cents",
    "new_amount_cents",
];

/// The owner may see the member with this key.
pub open spec fn owner_visible(key: Seq<char>) -> bool {
    exists|i: int| 0 <= i < 10 && #[trigger] OWNER_VISIBLE_EVENT_DATA@[i]@ == key
}

fn is_owner_visible(key: &str) -> (r: bool)
    ensures
        r == owner_visible(key@),
{
    let mut i: usize = 0;
    while i < 10
        invariant
            i <= 10,
            forall|j: int| 0 <= j < i ==> #[trigger] OWNER_VISIBLE_EVENT_DATA@[j]@ != key@,
        decreases 10 - i,
    {
        if same(OWNER_VISIBLE_EVENT_DATA[i], key) {
            assert(OWNER_VISIBLE_EVENT_DATA@[i as int]@ == key@);
            return true;
        }
        i = i + 1;
    }
    false
}

/// One change in the caller's own subscription history
/// (`GET /billing/history`): a [`SubscriptionEvent`] without who did it
/// and without the staff-only details in `data`.
#[derive(Debug, Clone)]
pub struct OwnSubscriptionEvent {
    pub id: Uuid,
    pub kind: String,
    pub from_plan: Option<String>,
    pub to_plan: Option<String>,
    pub from_status: Option<SubscriptionStatus>,
    pub to_status: Option<SubscriptionStatus>,
    pub data: JsonValue,
    pub created_at: NaiveDateTime,
}

/// The members that the owner may see, in their order.
pub open spec fn visible_members(m: Seq<(Seq<char>, Json)>) -> Seq<(Seq<char>, Json)>
    decreases m.len(),
{
    if m.len() == 0 {
        seq![]
    } else if owner_visible(m.last().0) {
        visible_members(m.drop_last()).push(m.last())
    } else {
        visible_members(m.drop_last())
    }
}

/// What the owner may see of the data of an event.
pub open spec fn visible_data(data: Json) -> Json {
    match data {
        Json::Object(m) => Json::Object(visible_members(m)),
        _ => Json::Object(seq![]),
    }
}

fn data_for_owner(data: &JsonValue) -> (r: JsonValue)
    ensures
        r@ == visible_data(data@),
{
    let mut out: Vec<(String, JsonValue)> = Vec::new();
    assert(members(out@) =~= seq![]);
    if let JsonValue::Object(m) = data {
        proof {
            lemma_object_view(*m);
        }
        let ghost all = members(m@);
        let mut i: usize = 0;
        assert(all.take(0) =~= seq![]);
        while i < m.len()
            invariant
                all == members(m@),
                i <= m@.len(),
                members(out@) == visible_members(all.take(i as int)),
            decreases m@.len() - i,
        {
            proof {
                assert(all.take(i + 1).drop_last() =~= all.take(i as int));
                assert(all.take(i + 1).last() == (m@[i as int].0@, m@[i as int].1@));
            }
            if is_owner_visible(m[i].0.as_str()) {
                let k = m[i].0.clone();
                let v = m[i].1.copy();
                let ghost before = out@;
                out.push((k, v));
                assert(members(out@) =~= members(before).push((k@, v@)));
            }
            i = i + 1;
        }
        assert(all.take(i as int) =~= all);
    }
    object_value(out)
}

impl From<SubscriptionEvent> for OwnSubscriptionEvent {
    fn from(event: SubscriptionEvent) -> (r: Self)
        ensures
            r.id == event.id,
            r.kind@ == event.kind@,
            opt_text(r.from_plan) == opt_text(event.from_plan),
            opt_text(r.to_plan) == opt_text(event.to_plan),
            r.from_status == event.from_status,
            r.to_status == event.to_status,
            r.data@ == visible_data(event.data@),
            r.created_at == event.created_at,
    {
        let data = data_for_owner(&event.data);
        OwnSubscriptionEvent {
            id: event.id,
            kind: event.kind,
            from_plan: event.from_plan,
            to_plan: event.to_plan,
            from_status: event.from_status,
            to_status: event.to_status,
            data,
            created_at: event.created_at,
        }
    }
}

impl FromSpecImpl<SubscriptionEvent> for OwnSubscriptionEvent {
    /// Texts are told apart by more than what they say, so the result is
    /// stated by the clauses of `from` alone.
    open spec fn obeys_from_spec() -> bool {
        false
    }

    open spec fn from_spec(event: SubscriptionEvent) -> Self {
        arbitrary()
    }
}

proof fn lemma_visible(m: Seq<(Seq<char>, Json)>)
    ensures
        forall|i: int|
            0 <= i < visible_members(m).len() ==> owner_visible(
                (#[trigger] visible_members(m)[i]).0,
            ) && m.contains(visible_members(m)[i]),
        forall|i: int|
            0 <= i < m.len() && owner_visible((#[trigger] m[i]).0) ==> visible_members(m).contains(
                m[i],
            ),
    decreases m.len(),
{
    if m.len() > 0 {
        let before = m.drop_last();
        lemma_visible(before);
        assert forall|i: int| 0 <= i < visible_members(m).len() implies owner_visible(
            (#[trigger] visible_members(m)[i]).0,
        ) && m.contains(visible_members(m)[i]) by {
            if i < visible_members(before).len() {
                assert(visible_members(m)[i] == visible_members(before)[i]);
                let j = choose|j: int| 0 <= j < before.len() && before[j] == visible_members(m)[i];
                assert(m[j] == visible_members(m)[i]);
            } else {
                assert(m[m.len() - 1] == visible_members(m)[i]);
            }
        }
        assert forall|i: int| 0 <= i < m.len() && owner_visible(
            (#[trigger] m[i]).0,
        ) implies visible_members(m).contains(m[i]) by {
            if i < before.len() {
                assert(before[i] == m[i]);
                let v = visible_members(before);
                let j = choose|j: int| 0 <= j < v.len() && v[j] == m[i];
                assert(visible_members(m)[j] == m[i]);
            } else {
                assert(visible_members(m).last() == m[i]);
            }
        }
    }
}

/// Owners see every member of an event that is meant for them, and none that
/// stays with staff.
pub proof fn owners_see_only_what_is_theirs(m: Seq<(Seq<char>, Json)>)
    ensures
        forall|i: int|
            0 <= i < visible_members(m).len() ==> owner_visible(
                (#[trigger] visible_members(m)[i]).0,
            ) && m.contains(visible_members(m)[i]),
        forall|i: int|
            0 <= i < m.len() && owner_visible((#[trigger] m[i]).0) ==> visible_members(m).contains(
                m[i],
            ),
{
    lemma_visible(m);
}

// ---------------------------------------------------------------------
// The caller's billing (`GET /billing/me`)
// ---------------------------------------------------------------------

#[derive(Debug, Clone, Copy)]
pub struct CreditsSummary {
    pub balance: i64,
}

#[derive(Debug, Clone)]
pub struct ReferralSummary {
    pub code: Option<String>,
    /// `/register?ref=CODE`.
    pub link_path: Option<String>,
    pub rewarded_count: i64,
    pub pending_count: i64,
}

#[derive(Debug, Clone)]
pub struct BillingMe {
    pub enforced: bool,
    /// Which rules apply to the caller (`staff`, `plan`, `unverified`,
    /// `beta`, `free`).
    pub access: AccessTier,
    pub email_verified: bool,
    /// Whether the caller may buy or be granted a plan (staff can't: they
    /// already have everything).
    pub can_subscribe: bool,
    /// Card payments are configured (checkout and the billing portal work).
    pub payments_enabled: bool,
    /// The plan in effect, if any.
    pub plan: Option<Plan>,
    pub subscription: Option<Subscription>,
    /// What the caller may use right now.
    pub features: Vec<(String, bool)>,
    pub credits: CreditsSummary,
    pub referral: ReferralSummary,
    pub rewards: Vec<Reward>,
    /// Until when the current paid subscription may be withdrawn from with
    /// a full refund (`POST /billing/withdraw`): 7 days from its first paid
    /// invoice (or from a yearly renewal charge). `null` outside that
    /// window.
    pub withdrawal_eligible_until: Option<NaiveDateTime>,
    /// When the last renewal charge failed, while the paid subscription is
    /// `past_due` (the plan is kept for 14 days from here).
    pub past_due_since: Option<NaiveDateTime>,
}

/// Body of `POST /admin/users/{id}/subscription/refund`.
#[derive(Debug, Clone)]
pub struct StaffRefundPayload {
    /// Why the subscription is refunded (1 to 500 characters). Kept in the
    /// audit log and the subscription's history.
    pub reason: String,
}

impl StaffRefundPayload {
    /// The rules that this payload breaks.
    pub open spec fn broken_rules(self, reason: Option<ErrorView>) -> Wrong {
        let e = no_errors();
        let e = unless(e, self.reason@.len() >= 1, "reason"@, "length"@, None);
        noted(e, "reason"@, reason)
    }

    /// Checks the payload against its rules.
    /// `reason` is what the text rules say of that field.
    pub fn validate(&self, reason: Result<(), ValidationError>) -> (r: Result<(), ValidationErrors>)
        ensures
            judged(r, self.broken_rules(verdict(reason))),
    {
        let mut e = ValidationErrors::new();
        e.check(!self.reason.as_str().is_empty(), "reason", "length", None);
        e.note("reason", reason);
        e.into_result()
    }
}

/// Answer of `POST /billing/withdraw`.
#[derive(Debug, Clone)]
pub struct WithdrawResponse {
    /// Minor units refunded to the card.
    pub refunded_cents: i64,
    /// ISO 4217, lower case (`brl`).
    pub currency: String,
}

#[derive(Debug, Clone)]
pub struct RedeemCodePayload {
    pub code: String,
}

impl RedeemCodePayload {
    /// The rules that this payload breaks.
    pub open spec fn broken_rules(self) -> Wrong {
        let e = no_errors();
        unless(e, length_within(self.code@, 1, 32), "code"@, "length"@, None)
    }

    /// Checks the payload against its rules.
    pub fn validate(&self) -> (r: Result<(), ValidationErrors>)
        ensures
            judged(r, self.broken_rules()),
    {
        let mut e = ValidationErrors::new();
        e.check(has_length(self.code.as_str(), 1, 32), "code", "length", None);
        e.into_result()
    }
}

#[derive(Debug, Clone, Copy, PartialEq, Eq, Structural)]
pub enum PromoKind {
    PlanGrant,
    TrialExtension,
    Credits,
    Discount,
}

/// What a redeemed promo code did.
#[derive(Debug, Clone)]
pub struct RedemptionSummary {
    pub kind: PromoKind,
    pub plan_code: Option<String>,
    pub days: Option<i32>,
    pub credits: Option<i32>,
    /// For `discount` codes: applied to the next payment, not now.
    pub discount_percent: Option<i32>,
}

/// Answer of `POST /billing/redeem`: the updated billing state plus what
/// the code did.
#[derive(Debug, Clone)]
pub struct RedeemResponse {
    pub billing: BillingMe,
    pub redemption: RedemptionSummary,
}

#[derive(Debug, Clone)]
pub struct CreditEntry {
    pub id: Uuid,
    pub amount: i32,
    pub reason: String,
    pub note: Option<String>,
    pub created_at: NaiveDateTime,
}

#[derive(Debug, Clone)]
pub struct RedeemRewardPayload {
    pub reward_id: String,
}

impl RedeemRewardPayload {
    /// The rules that this payload breaks.
    pub open spec fn broken_rules(self) -> Wrong {
        let e = no_errors();
        unless(e, length_within(self.reward_id@, 1, 40), "reward_id"@, "length"@, None)
    }

    /// Checks the payload against its rules.
    pub fn validate(&self) -> (r: Result<(), ValidationErrors>)
        ensures
            judged(r, self.broken_rules()),
    {
        let mut e = ValidationErrors::new();
        e.check(has_length(self.reward_id.as_str(), 1, 40), "reward_id", "length", None);
        e.into_result()
    }
}

#[derive(Debug, Clone, Copy, PartialEq, Eq, Structural)]
pub enum ReferralStatus {
    Pending,
    Rewarded,
    Rejected,
}

#[derive(Debug, Clone)]
pub struct ReferralEntry {
    pub username: String,
    pub status: ReferralStatus,
    pub created_at: NaiveDateTime,
    pub rewarded_at: Option<NaiveDateTime>,
}

#[derive(Debug, Clone, Copy, Default)]
pub struct BillingPageQuery {
    pub page: Option<i64>,
    pub per_page: Option<i64>,
}

// ---------------------------------------------------------------------
// Staff
// ---------------------------------------------------------------------

/// `GET /admin/users/{id}/subscription`.
#[derive(Debug, Clone)]
pub struct AdminSubscriptionView {
    pub subscription: Option<Subscription>,
    pub events: Vec<SubscriptionEvent>,
    pub credits_balance: i64,
}

#[derive(Debug, Clone)]
pub struct GrantSubscriptionPayload {
    pub plan_code: String,
    /// `null` = open-ended.
    pub days: Option<i64>,
    pub note: Option<String>,
}

impl GrantSubscriptionPayload {
    /// The rules that this payload breaks.
    pub open spec fn broken_rules(self) -> Wrong {
        let e = no_errors();
        let e = unless(e, length_within(self.plan_code@, 1, 32), "plan_code"@, "length"@, None);
        let e = unless(e, (self.days matches Some(x) ==> 1 <= x <= 3650), "days"@, "range"@, None);
        unless(e, opt_length_within(opt_text(self.note), 0, 500), "note"@, "length"@, None)
    }

    /// Checks the payload against its rules.
    pub fn validate(&self) -> (r: Result<(), ValidationErrors>)
        ensures
            judged(r, self.broken_rules()),
    {
        let mut e = ValidationErrors::new();
        e.check(has_length(self.plan_code.as_str(), 1, 32), "plan_code", "length", None);
        e.check(match self.days { Some(x) => 1 <= x && x <= 3650, None => true }, "days", "range", None);
        e.check(opt_has_length(&self.note, 0, 500), "note", "length", None);
        e.into_result()
    }
}

/// What is wrong with an amount of credits.
pub open spec fn amount_error(amount: int) -> Option<ErrorView> {
    if amount != 0 && -100_000 <= amount <= 100_000 {
        None
    } else {
        Some(
            ErrorView {
                code: "invalid_amount"@,
                message: Some("Amount must be between -100000 and 100000 and not zero."@),
            },
        )
    }
}

pub fn validate_credit_amount(amount: i32) -> (r: Result<(), ValidationError>)
    ensures
        verdict(r) == amount_error(amount as int),
{
    if amount != 0 && -100_000 <= amount && amount <= 100_000 {
        Ok(())
    } else {
        Err(
            ValidationError::with_message(
                "invalid_amount",
                "Amount must be between -100000 and 100000 and not zero.",
            ),
        )
    }
}

#[derive(Debug, Clone)]
pub struct AdjustCreditsPayload {
    pub amount: i32,
    pub note: String,
}

impl AdjustCreditsPayload {
    /// The rules that this payload breaks.
    pub open spec fn broken_rules(self) -> Wrong {
        let e = no_errors();
        let e = noted(e, "amount"@, amount_error(self.amount as int));
        unless(e, length_within(self.note@, 1, 255), "note"@, "length"@, None)
    }

    /// Checks the payload against its rules.
    pub fn validate(&self) -> (r: Result<(), ValidationErrors>)
        ensures
            judged(r, self.broken_rules()),
    {
        let mut e = ValidationErrors::new();
        e.note("amount", validate_credit_amount(self.amount));
        e.check(has_length(self.note.as_str(), 1, 255), "note", "length", None);
        e.into_result()
    }
}

#[derive(Debug, Clone)]
pub struct PromoCode {
    pub id: Uuid,
    pub code: String,
    pub description: Option<String>,
    pub kind: PromoKind,
    pub plan_code: Option<String>,
    pub duration_days: Option<i32>,
    pub credits: Option<i32>,
    pub discount_percent: Option<i32>,
    pub max_redemptions: Option<i32>,
    pub redemptions_count: i32,
    pub new_users_only: bool,
    pub starts_at: Option<NaiveDateTime>,
    pub expires_at: Option<NaiveDateTime>,
    pub disabled_at: Option<NaiveDateTime>,
    pub created_by_username: Option<String>,
    pub created_at: NaiveDateTime,
    pub updated_at: NaiveDateTime,
}

/// Shortest custom code accepted, whatever it grants: credits and trial
/// time are worth money too, and redemption attempts are throttled, not
/// impossible (generated codes have 10 characters).
pub const MIN_PROMO_CODE_CHARS: usize = 8;

/// A promo code: 8 to 32 letters, digits, dashes and underscores.
pub open spec fn is_promo_code(code: Seq<char>) -> bool {
    &&& MIN_PROMO_CODE_CHARS <= code.len() <= 32
    &&& forall|i: int|
        0 <= i < code.len() ==> is_alnum(#[trigger] code[i]) || code[i] == '-' || code[i] == '_'
}

/// What is wrong with a promo code.
pub open spec fn promo_code_error(code: Seq<char>) -> Option<ErrorView> {
    if is_promo_code(trim(code)) {
        None
    } else {
        Some(
            ErrorView {
                code: "invalid_promo_code"@,
                message: Some("Codes have 8 to 32 letters, digits, '-' or '_'."@),
            },
        )
    }
}

pub fn validate_promo_code(code: &str) -> (r: Result<(), ValidationError>)
    ensures
        verdict(r) == promo_code_error(code@),
{
    let t = trimmed(code);
    let v = chars(t.as_str());
    let n = v.len();
    let mut i: usize = 0;
    while i < n && (char_is_alnum(v[i]) || v[i] == '-' || v[i] == '_')
        invariant
            v@ == t@,
            n == v@.len(),
            i <= n,
            forall|j: int|
                0 <= j < i ==> is_alnum(#[trigger] t@[j]) || t@[j] == '-' || t@[j] == '_',
        decreases n - i,
    {
        i = i + 1;
    }
    if MIN_PROMO_CODE_CHARS <= n && n <= 32 && i == n {
        Ok(())
    } else {
        assert(!is_promo_code(t@)) by {
            if i < n {
                assert(!(is_alnum(t@[i as int]) || t@[i as int] == '-' || t@[i as int] == '_'));
            }
        }
        Err(
            ValidationError::with_message(
                "invalid_promo_code",
                "Codes have 8 to 32 letters, digits, '-' or '_'.",
            ),
        )
    }
}

#[derive(Debug, Clone)]
pub struct CreatePromoCodePayload {
    /// Generated when omitted. Stored upper-case.
    pub code: Option<String>,
    pub description: Option<String>,
    pub kind: PromoKind,
    /// `plan_grant` only.
    pub plan_code: Option<String>,
    /// `plan_grant` and `trial_extension`.
    pub duration_days: Option<i32>,
    /// `credits` only.
    pub credits: Option<i32>,
    /// `discount` only.
    pub discount_percent: Option<i32>,
    pub max_redemptions: Option<i32>,
    pub new_users_only: bool,
    pub starts_at: Option<NaiveDateTime>,
    pub expires_at: Option<NaiveDateTime>,
}

impl CreatePromoCodePayload {
    /// The rules that this payload breaks.
    pub open spec fn broken_rules(self) -> Wrong {
        let e = no_errors();
        let e = noted(e, "code"@, match self.code { Some(x) => promo_code_error(x@), None => None });
        let e = unless(e, opt_length_within(opt_text(self.description), 0, 255), "description"@, "length"@, None);
        let e = unless(e, opt_length_within(opt_text(self.plan_code), 1, 32), "plan_code"@, "length"@, None);
        let e = unless(e, (self.duration_days matches Some(x) ==> 1 <= x <= 3650), "duration_days"@, "range"@, None);
        let e = unless(e, (self.credits matches Some(x) ==> 1 <= x <= 100_000), "credits"@, "range"@, None);
        let e = unless(e, (self.discount_percent matches Some(x) ==> 1 <= x <= 100), "discount_percent"@, "range"@, None);
        unless(e, (self.max_redemptions matches Some(x) ==> 1 <= x <= 1_000_000), "max_redemptions"@, "range"@, None)
    }

    /// Checks the payload against its rules.
    pub fn validate(&self) -> (r: Result<(), ValidationErrors>)
        ensures
            judged(r, self.broken_rules()),
    {
        let mut e = ValidationErrors::new();
        e.note("code", match &self.code { Some(x) => validate_promo_code(x.as_str()), None => Ok(()) });
        e.check(opt_has_length(&self.description, 0, 255), "description", "length", None);
        e.check(opt_has_length(&self.plan_code, 1, 32), "plan_code", "length", None);
        e.check(match self.duration_days { Some(x) => 1 <= x && x <= 3650, None => true }, "duration_days", "range", None);
        e.check(match self.credits { Some(x) => 1 <= x && x <= 100_000, None => true }, "credits", "range", None);
        e.check(match self.discount_percent { Some(x) => 1 <= x && x <= 100, None => true }, "discount_percent", "range", None);
        e.check(match self.max_redemptions { Some(x) => 1 <= x && x <= 1_000_000, None => true }, "max_redemptions", "range", None);
        e.into_result()
    }
}

/// What is said of a field that a kind of code needs or does not take.
pub open spec fn field_problem(field: Seq<char>, required: bool, present: bool) -> Option<
    Seq<char>,
> {
    if required && !present {
        Some("'"@ + field + "' is required for this kind of code."@)
    } else if !required && present {
        Some("'"@ + field + "' does not apply to this kind of code."@)
    } else {
        None
    }
}

fn check_field(field: &str, required: bool, present: bool) -> (r: Option<String>)
    ensures
        opt_text(r) == field_problem(field@, required, present),
{
    if required == present {
        return None;
    }
    let mut m = "'".to_string();
    m.append(field);
    if required {
        m.append("' is required for this kind of code.");
    } else {
        m.append("' does not apply to this kind of code.");
    }
    Some(m)
}

impl CreatePromoCodePayload {
    /// The first problem of the fields, for this kind of code.
    pub open spec fn fields_problem(self) -> Option<Seq<char>> {
        let plan = field_problem(
            "plan_code"@,
            self.kind == PromoKind::PlanGrant,
            self.plan_code is Some,
        );
        let days = field_problem(
            "duration_days"@,
            self.kind == PromoKind::PlanGrant || self.kind == PromoKind::TrialExtension,
            self.duration_days is Some,
        );
        let credits = field_problem(
            "credits"@,
            self.kind == PromoKind::Credits,
            self.credits is Some,
        );
        let discount = field_problem(
            "discount_percent"@,
            self.kind == PromoKind::Discount,
            self.discount_percent is Some,
        );
        if plan is Some {
            plan
        } else if days is Some {
            days
        } else if credits is Some {
            credits
        } else if discount is Some {
            discount
        } else if self.starts_at matches Some(start) && self.expires_at matches Some(end) && end@
            <= start@ {
            Some("'expires_at' must be after 'starts_at'."@)
        } else {
            None
        }
    }

    /// Checks that exactly the fields of `kind` are present.
    pub fn check_kind_fields(&self) -> (r: Result<(), String>)
        ensures
            match self.fields_problem() {
                None => r is Ok,
                Some(m) => r matches Err(e) && e@ == m,
            },
    {
        let (plan, days, credits, discount) = match self.kind {
            PromoKind::PlanGrant => (true, true, false, false),
            PromoKind::TrialExtension => (false, true, false, false),
            PromoKind::Credits => (false, false, true, false),
            PromoKind::Discount => (false, false, false, true),
        };
        if let Some(m) = check_field("plan_code", plan, self.plan_code.is_some()) {
            return Err(m);
        }
        if let Some(m) = check_field("duration_days", days, self.duration_days.is_some()) {
            return Err(m);
        }
        if let Some(m) = check_field("credits", credits, self.credits.is_some()) {
            return Err(m);
        }
        if let Some(m) = check_field(
            "discount_percent",
            discount,
            self.discount_percent.is_some(),
        ) {
            return Err(m);
        }
        if let (Some(start), Some(end)) = (self.starts_at, self.expires_at) {
            if !start.is_before(&end) {
                return Err("'expires_at' must be after 'starts_at'.".to_string());
            }
        }
        Ok(())
    }
}

#[derive(Debug, Clone, Default)]
pub struct UpdatePromoCodePayload {
    pub description: Option<Option<String>>,
    pub expires_at: Option<Option<NaiveDateTime>>,
    pub max_redemptions: Option<Option<i32>>,
    pub disabled: Option<bool>,
}

#[derive(Debug, Clone)]
pub struct PromoRedemption {
    pub user_id: Uuid,
    pub username: String,
    pub redeemed_at: NaiveDateTime,
}

#[derive(Debug, Clone)]
pub struct Promotion {
    pub id: Uuid,
    pub name: String,
    pub headline: JsonValue,
    /// `None` = every paid plan.
    pub plan_code: Option<String>,
    pub discount_percent: i32,
    pub starts_at: NaiveDateTime,
    pub ends_at: NaiveDateTime,
    pub active: bool,
    pub created_at: NaiveDateTime,
    pub updated_at: NaiveDateTime,
}

/// What is wrong with the headline of a promotion.
pub open spec fn headline_error(value: Json) -> Option<ErrorView> {
    localized_error(value, seq![], 1, 120)
}

pub fn validate_headline(value: &JsonValue) -> (r: Result<(), ValidationError>)
    ensures
        verdict(r) == headline_error(value@),
{
    let required: [&str; 0] = [];
    assert(strs(required@) =~= seq![]);
    validate_localized_map(value, &required, 1, 120)
}

#[derive(Debug, Clone)]
pub struct CreatePromotionPayload {
    pub name: String,
    pub headline: JsonValue,
    pub plan_code: Option<String>,
    pub discount_percent: i32,
    pub starts_at: NaiveDateTime,
    pub ends_at: NaiveDateTime,
    pub active: Option<bool>,
}

impl CreatePromotionPayload {
    /// The rules that this payload breaks.
    pub open spec fn broken_rules(self) -> Wrong {
        let e = no_errors();
        let e = unless(e, length_within(self.name@, 1, 80), "name"@, "length"@, None);
        let e = noted(e, "headline"@, headline_error(self.headline@));
        let e = unless(e, opt_length_within(opt_text(self.plan_code), 1, 32), "plan_code"@, "length"@, None);
        unless(e, 1 <= self.discount_percent <= 100, "discount_percent"@, "range"@, None)
    }

    /// Checks the payload against its rules.
    pub fn validate(&self) -> (r: Result<(), ValidationErrors>)
        ensures
            judged(r, self.broken_rules()),
    {
        let mut e = ValidationErrors::new();
        e.check(has_length(self.name.as_str(), 1, 80), "name", "length", None);
        e.note("headline", validate_headline(&self.headline));
        e.check(opt_has_length(&self.plan_code, 1, 32), "plan_code", "length", None);
        e.check(1 <= self.discount_percent && self.discount_percent <= 100, "discount_percent", "range", None);
        e.into_result()
    }
}

#[derive(Debug, Clone, Default)]
pub struct UpdatePromotionPayload {
    pub name: Option<String>,
    pub headline: Option<JsonValue>,
    pub plan_code: Option<Option<String>>,
    pub discount_percent: Option<i32>,
    pub starts_at: Option<NaiveDateTime>,
    pub ends_at: Option<NaiveDateTime>,
    pub active: Option<bool>,
}

impl UpdatePromotionPayload {
    /// The rules that this payload breaks.
    pub open spec fn broken_rules(self) -> Wrong {
        let e = no_errors();
        let e = unless(e, opt_length_within(opt_text(self.name), 1, 80), "name"@, "length"@, None);
        let e = noted(e, "headline"@, match self.headline { Some(x) => headline_error(x@), None => None });
        unless(e, (self.discount_percent matches Some(x) ==> 1 <= x <= 100), "discount_percent"@, "range"@, None)
    }

    /// Checks the payload against its rules.
    pub fn validate(&self) -> (r: Result<(), ValidationErrors>)
        ensures
            judged(r, self.broken_rules()),
    {
        let mut e = ValidationErrors::new();
        e.check(opt_has_length(&self.name, 1, 80), "name", "length", None);
        e.note("headline", match &self.headline { Some(x) => validate_headline(x), None => Ok(()) });
        e.check(match self.discount_percent { Some(x) => 1 <= x && x <= 100, None => true }, "discount_percent", "range", None);
        e.into_result()
    }
}

#[derive(Debug, Clone, Copy)]
pub struct GrantTrialsPayload {
    pub days: i64,
}

impl GrantTrialsPayload {
    /// The rules that this payload breaks.
    pub open spec fn broken_rules(self) -> Wrong {
        let e = no_errors();
        unless(e, 1 <= self.days <= 365, "days"@, "range"@, None)
    }

    /// Checks the payload against its rules.
    pub fn validate(&self) -> (r: Result<(), ValidationErrors>)
        ensures
            judged(r, self.broken_rules()),
    {
        let mut e = ValidationErrors::new();
        e.check(1 <= self.days && self.days <= 365, "days", "range", None);
        e.into_result()
    }
}

#[derive(Debug, Clone, Copy)]
pub struct GrantTrialsResponse {
    pub granted: i64,
}

/// `GET /admin/billing/overview`.
#[derive(Debug, Clone)]
pub struct BillingOverview {
    pub enforced: bool,
    /// Subscriptions per status.
    pub by_status: Vec<(String, i64)>,
    /// Subscriptions currently granting each plan.
    pub by_plan: Vec<(String, i64)>,
    pub accounts_without_subscription: i64,
    /// Credits ever granted (positive ledger entries).
    pub credits_issued: i64,
    /// Credits ever spent or removed (negative entries, as a positive number).
    pub credits_spent: i64,
    pub promo_redemptions_last_30_days: i64,
    pub referrals_rewarded: i64,
}

#[derive(Debug, Clone, Default)]
pub struct PromoListQuery {
    pub page: Option<i64>,
    pub per_page: Option<i64>,
    /// Case-insensitive search over code and description.
    pub q: Option<String>,
}

} // verus!
