//! Plans, subscriptions and what they grant.

use crate::json::Json;
use crate::models::billing::{
    amount_error, currency_error, feature_error, in_effect, live, localized_error, locale_problem,
    missing_problem, plan_code_error, plan_description_error, plan_name_error, price_error,
    promo_code_error, texts_problem, tier_of, trimmed_json, AccessTier, CreatePromoCodePayload,
    PromoKind, SubscriptionSource, SubscriptionStatus,
};
use crate::models::user_preferences::is_supported_language;
use crate::text::{trim};
use crate::time::{nanos_of, second_of, shifted, NaiveDateTime};
use vstd::prelude::*;

verus! {

/// A subscription that is on trial or active grants its plan at every moment
/// before its period ends, and at every moment when its period has no end; one
/// that was canceled or has expired never does.
pub proof fn running_subscriptions_grant_their_plan(
    status: SubscriptionStatus,
    source: SubscriptionSource,
    end: Option<NaiveDateTime>,
    past_due_since: Option<NaiveDateTime>,
    now: int,
)
    ensures
        status == SubscriptionStatus::Trialing || status == SubscriptionStatus::Active ==> (
        end is None || now < end->0@) ==> in_effect(status, source, end, past_due_since, now),
        status == SubscriptionStatus::Canceled || status == SubscriptionStatus::Expired
            ==> !in_effect(status, source, end, past_due_since, now),
{
    if let Some(e) = end {
        lemma_later(e@, 172_800);
    }
}

proof fn lemma_later(place: int, seconds: int)
    requires
        seconds > 0,
    ensures
        shifted(place, seconds) > place,
        seconds > 1 ==> second_of(shifted(place, seconds)) == second_of(place) + seconds,
{
    assert(place == second_of(place) * 2_000_000_000 + nanos_of(place));
}

/// When the period is over, so is the plan; only what was paid for lasts two
/// days longer.
pub proof fn plans_end_with_their_period(
    status: SubscriptionStatus,
    source: SubscriptionSource,
    end: NaiveDateTime,
    past_due_since: Option<NaiveDateTime>,
    now: int,
)
    ensures
        source != SubscriptionSource::Payment && now >= end@ ==> !in_effect(
            status,
            source,
            Some(end),
            past_due_since,
            now,
        ),
        source == SubscriptionSource::Payment && second_of(now) > second_of(end@) + 172_800
            ==> !in_effect(status, source, Some(end), past_due_since, now),
        source == SubscriptionSource::Payment && (status == SubscriptionStatus::Trialing || status
            == SubscriptionStatus::Active) && second_of(now) < second_of(end@) + 172_800
            ==> in_effect(status, source, Some(end), past_due_since, now),
{
    lemma_later(end@, 172_800);
    assert(now == second_of(now) * 2_000_000_000 + nanos_of(now));
    let s = shifted(end@, 172_800);
    assert(s == second_of(s) * 2_000_000_000 + nanos_of(s));
}

/// A subscription whose renewal failed keeps its plan for fourteen days from
/// the failure, within its period, and loses it then.
pub proof fn failed_renewals_keep_the_plan_for_two_weeks(
    source: SubscriptionSource,
    end: Option<NaiveDateTime>,
    since: NaiveDateTime,
    now: int,
)
    ensures
        second_of(now) > second_of(since@) + 1_209_600 ==> !in_effect(
            SubscriptionStatus::PastDue,
            source,
            end,
            Some(since),
            now,
        ),
        second_of(now) < second_of(since@) + 1_209_600 && (end is None || now < end->0@)
            ==> in_effect(SubscriptionStatus::PastDue, source, end, Some(since), now),
        end is None || now < end->0@ ==> in_effect(
            SubscriptionStatus::PastDue,
            source,
            end,
            None,
            now,
        ),
{
    lemma_later(since@, 1_209_600);
    if let Some(e) = end {
        lemma_later(e@, 172_800);
    }
    assert(now == second_of(now) * 2_000_000_000 + nanos_of(now));
    let s = shifted(since@, 1_209_600);
    assert(s == second_of(s) * 2_000_000_000 + nanos_of(s));
}

/// The statuses that grant a plan are trialing, active and past due.
pub proof fn three_statuses_are_live(status: SubscriptionStatus)
    ensures
        live(status) <==> status != SubscriptionStatus::Canceled && status
            != SubscriptionStatus::Expired,
{
}

/// What an account may do: staff may do all. Once plans are enforced, a plan
/// counts, whether or not the address was verified. Without one, an address
/// that was not verified comes first; a verified one means the beta before
/// plans are enforced, and the free tier after.
pub proof fn every_account_has_its_tier(
    is_staff: bool,
    enforced: bool,
    has_plan: bool,
    email_verified: bool,
)
    ensures
        ({
            let t = tier_of(is_staff, enforced, has_plan, email_verified);
            &&& is_staff ==> t == AccessTier::Staff
            &&& !is_staff && enforced && has_plan ==> t == AccessTier::Plan
            &&& !is_staff && !(enforced && has_plan) && !email_verified ==> t
                == AccessTier::Unverified
            &&& !is_staff && !enforced && email_verified ==> t == AccessTier::Beta
            &&& !is_staff && enforced && !has_plan && email_verified ==> t == AccessTier::Free
        }),
{
}

// ---------------------------------------------------------------------
// Rules of what staff enters
// ---------------------------------------------------------------------

/// Texts by locale are accepted when they are an object that has every
/// required locale, and whose every member is a text of a supported locale
/// within the bounds.
pub proof fn localized_texts_are_complete_and_bounded(
    value: Json,
    required: Seq<Seq<char>>,
    min: int,
    max: int,
)
    ensures
        localized_error(value, required, min, max) is None <==> {
            &&& value is Object
            &&& forall|i: int|
                0 <= i < value->Object_0.len() ==> is_supported_language(
                    (#[trigger] value->Object_0[i]).0,
                ) && value->Object_0[i].1 is Text && min <= trim(value->Object_0[i].1->Text_0).len()
                    <= max
            &&& forall|i: int|
                0 <= i < required.len() ==> crate::json::member_of(
                    value->Object_0,
                    #[trigger] required[i],
                ) is Some
        },
{
    if let Json::Object(m) = value {
        lemma_texts_problem(m, 0, min, max);
        lemma_missing_problem(m, required, 0);
    }
}

proof fn lemma_texts_problem(m: Seq<(Seq<char>, Json)>, i: int, min: int, max: int)
    requires
        0 <= i,
    ensures
        texts_problem(m, i, min, max) is None <==> forall|k: int|
            i <= k < m.len() ==> is_supported_language((#[trigger] m[k]).0) && m[k].1 is Text && min
                <= trim(m[k].1->Text_0).len() <= max,
    decreases m.len() - i,
{
    if i < m.len() {
        lemma_texts_problem(m, i + 1, min, max);
        if locale_problem(m[i].0, m[i].1, min, max) is Some {
            assert(!(is_supported_language(m[i].0) && m[i].1 is Text && min <= trim(
                m[i].1->Text_0,
            ).len() <= max));
        }
    }
}

proof fn lemma_missing_problem(m: Seq<(Seq<char>, Json)>, required: Seq<Seq<char>>, i: int)
    requires
        0 <= i,
    ensures
        missing_problem(m, required, i) is None <==> forall|k: int|
            i <= k < required.len() ==> crate::json::member_of(m, #[trigger] required[k]) is Some,
    decreases required.len() - i,
{
    if i < required.len() {
        lemma_missing_problem(m, required, i + 1);
    }
}

/// The name of a plan has 1 to 60 characters in every locale, and is there in
/// English and Portuguese; its description has at most 400, in any locale.
pub proof fn plans_are_named_in_english_and_portuguese(value: Json)
    ensures
        plan_name_error(value) is None ==> {
            &&& value is Object
            &&& crate::json::member(value, "en"@) is Some
            &&& crate::json::member(value, "pt-BR"@) is Some
            &&& forall|i: int|
                0 <= i < value->Object_0.len() ==> (#[trigger] value->Object_0[i]).1 is Text && 1
                    <= trim(value->Object_0[i].1->Text_0).len() <= 60
        },
        value is Object && value->Object_0.len() == 0 ==> plan_name_error(value) is Some
            && plan_description_error(value) is None,
        plan_description_error(value) is None ==> value is Object && forall|i: int|
            0 <= i < value->Object_0.len() ==> (#[trigger] value->Object_0[i]).1 is Text && trim(
                value->Object_0[i].1->Text_0,
            ).len() <= 400,
{
    let required = seq!["en"@, "pt-BR"@];
    localized_texts_are_complete_and_bounded(value, required, 1, 60);
    localized_texts_are_complete_and_bounded(value, seq![], 0, 400);
    if value is Object {
        assert(required[0] == "en"@ && required[1] == "pt-BR"@);
    }
}

/// Trimming texts by locale keeps every locale and takes only the blanks
/// around each text.
pub proof fn trimming_keeps_every_locale(m: Seq<(Seq<char>, Json)>, i: int)
    requires
        0 <= i < m.len(),
    ensures
        trimmed_json(Json::Object(m)) matches Json::Object(t) && t.len() == m.len() && t[i].0
            == m[i].0 && (m[i].1 is Text ==> t[i].1 == Json::Text(trim(m[i].1->Text_0))),
{
}

/// A price is nothing, or at least fifty cents; credits are adjusted by some
/// amount of at most a hundred thousand either way.
pub proof fn amounts_are_bounded(cents: int, amount: int)
    ensures
        price_error(cents) is None <==> cents == 0 || cents >= 50,
        amount_error(amount) is None <==> amount != 0 && amount <= 100_000 && -amount <= 100_000,
{
}

/// A plan code starts with a lower-case letter, has 2 to 32 of letters, digits
/// and underscores, and is not one of the reserved words.
pub proof fn plan_codes_are_short_words(code: Seq<char>)
    ensures
        plan_code_error(code) is None ==> {
            &&& 2 <= code.len() <= 32
            &&& 'a' <= code[0] <= 'z'
            &&& forall|i: int|
                0 <= i < code.len() ==> 'a' <= #[trigger] code[i] <= 'z' || '0' <= code[i] <= '9'
                    || code[i] == '_'
            &&& code != "none"@ && code != "trial"@
        },
        2 <= code.len() <= 32 && (forall|i: int|
            0 <= i < code.len() ==> 'a' <= #[trigger] code[i] <= 'z') && code != "none"@ && code
            != "trial"@ ==> plan_code_error(code) is None,
{
    if 2 <= code.len() <= 32 && (forall|i: int|
        0 <= i < code.len() ==> 'a' <= #[trigger] code[i] <= 'z') {
        assert('a' <= code[0] <= 'z');
    }
}

/// A promotional code has 8 to 32 letters, digits, dashes or underscores,
/// whatever blanks stand around it.
pub proof fn promotional_codes_are_long_words(code: Seq<char>)
    ensures
        promo_code_error(code) is None <==> {
            &&& 8 <= trim(code).len() <= 32
            &&& forall|i: int|
                0 <= i < trim(code).len() ==> {
                    let c = #[trigger] trim(code)[i];
                    'a' <= c <= 'z' || 'A' <= c <= 'Z' || '0' <= c <= '9' || c == '-' || c == '_'
                }
        },
{
    let t = trim(code);
    if promo_code_error(code) is None {
        assert forall|i: int| 0 <= i < t.len() implies {
            let c = #[trigger] t[i];
            'a' <= c <= 'z' || 'A' <= c <= 'Z' || '0' <= c <= '9' || c == '-' || c == '_'
        } by {
            assert(crate::text::is_alnum(t[i]) || t[i] == '-' || t[i] == '_');
        }
    }
}

/// A currency is three capital letters.
pub proof fn currencies_are_three_capitals(value: Seq<char>)
    ensures
        currency_error(value) is None <==> value.len() == 3 && forall|i: int|
            0 <= i < 3 ==> 'A' <= #[trigger] value[i] <= 'Z',
{
    if currency_error(value) is None {
        assert forall|i: int| 0 <= i < 3 implies 'A' <= #[trigger] value[i] <= 'Z' by {
            assert(i == 0 || i == 1 || i == 2);
        }
    } else if value.len() == 3 {
        assert(value[0] < 'A' || value[0] > 'Z' || value[1] < 'A' || value[1] > 'Z' || value[2]
            < 'A' || value[2] > 'Z');
    }
}

/// Features are accepted when every one of them is known.
pub proof fn features_are_known(v: Seq<(String, bool)>, known: Seq<Seq<char>>, i: int)
    requires
        0 <= i,
    ensures
        feature_error(v, known, i) is None <==> forall|k: int|
            i <= k < v.len() ==> known.contains((#[trigger] v[k]).0@),
    decreases v.len() - i,
{
    if i < v.len() {
        features_are_known(v, known, i + 1);
    }
}

/// A promotional code carries what its kind calls for and nothing else: a plan
/// and days, days, credits, or a discount; and it ends after it starts.
pub proof fn promotional_codes_carry_what_their_kind_calls_for(p: CreatePromoCodePayload)
    ensures
        p.fields_problem() is None <==> {
            &&& p.plan_code is Some <==> p.kind == PromoKind::PlanGrant
            &&& p.duration_days is Some <==> p.kind == PromoKind::PlanGrant || p.kind
                == PromoKind::TrialExtension
            &&& p.credits is Some <==> p.kind == PromoKind::Credits
            &&& p.discount_percent is Some <==> p.kind == PromoKind::Discount
            &&& p.starts_at is Some && p.expires_at is Some ==> p.starts_at->0@ < p.expires_at->0@
        },
{
}

} // verus!
