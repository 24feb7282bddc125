//! How the outbox stores a template: its name, and its fields as a JSON object.

use crate::email::templates::{template_name, EmailTemplate, ReleaseItem};
use crate::errors::api_error::{json_moment, moment_value};
use crate::fields::{
    day_field, day_member, flag_field, flag_or, integer_field, item_in, item_of, moment_field,
    moment_member, opt_integer_field, opt_integer_member, opt_moment, opt_moment_field,
    opt_moment_member, opt_text_field, opt_text_member, text_field, texts_field, texts_member,
    value_field, variant_in, variant_of,
};
use crate::json::{
    integer_member, json_number, json_text, jsons, lemma_array_view, lemma_first_member,
    list_value, member, members, number_value, object2, object_value, opt_text_value, text_member,
    text_value, Json, JsonValue,
};
use crate::models::communication::{
    category_indexes_and_keys_round_trip, category_key, category_with_key, Category,
};
use crate::text::{opt_text, same, slice_of, texts};
use crate::time::{
    chrono_date_text, is_day, is_moment, moment_json, YEAR_MONTH_DAY,
};
use vstd::prelude::*;

verus! {

/// A list of texts as JSON.
pub open spec fn json_texts(v: Seq<Seq<char>>) -> Json {
    Json::Array(Seq::new(v.len(), |i: int| Json::Text(v[i])))
}

/// An amount as JSON, or null.
pub open spec fn json_amount(n: Option<i64>) -> Json {
    match n {
        Some(x) => json_number(x as int),
        None => Json::Null,
    }
}

/// What the items of a release say.
pub open spec fn release_items(v: Seq<ReleaseItem>) -> Seq<(Seq<char>, Json)> {
    Seq::new(v.len(), |i: int| (v[i].kind@, v[i].text@))
}

/// The items of a release as JSON.
pub open spec fn json_items(v: Seq<(Seq<char>, Json)>) -> Json {
    Json::Array(
        Seq::new(
            v.len(),
            |i: int| Json::Object(seq![("kind"@, Json::Text(v[i].0)), ("text"@, v[i].1)]),
        ),
    )
}

/// The payload of a template: its fields, in the order of their names.
pub open spec fn payload_of(t: EmailTemplate) -> Json {
    match t {
        EmailTemplate::EmailVerificationCode { username, code, expires_minutes } => Json::Object(
            seq![
                ("code"@, Json::Text(code@)),
                ("expires_minutes"@, json_number(expires_minutes as int)),
                ("username"@, Json::Text(username@)),
            ],
        ),
        EmailTemplate::PasswordResetCode { username, code, expires_minutes } => Json::Object(
            seq![
                ("code"@, Json::Text(code@)),
                ("expires_minutes"@, json_number(expires_minutes as int)),
                ("username"@, Json::Text(username@)),
            ],
        ),
        EmailTemplate::EmailChangeCode { username, code, expires_minutes } => Json::Object(
            seq![
                ("code"@, Json::Text(code@)),
                ("expires_minutes"@, json_number(expires_minutes as int)),
                ("username"@, Json::Text(username@)),
            ],
        ),
        EmailTemplate::PasswordChanged { username } => Json::Object(
            seq![
                ("username"@, Json::Text(username@)),
            ],
        ),
        EmailTemplate::TwoFactorEnabled { username } => Json::Object(
            seq![
                ("username"@, Json::Text(username@)),
            ],
        ),
        EmailTemplate::TwoFactorDisabled { username } => Json::Object(
            seq![
                ("username"@, Json::Text(username@)),
            ],
        ),
        EmailTemplate::EmailChangedNotice { username, new_email_masked } => Json::Object(
            seq![
                ("new_email_masked"@, Json::Text(new_email_masked@)),
                ("username"@, Json::Text(username@)),
            ],
        ),
        EmailTemplate::AccountDeleted { username } => Json::Object(
            seq![
                ("username"@, Json::Text(username@)),
            ],
        ),
        EmailTemplate::Notification { title, lines, cta_label, cta_path, category } => Json::Object(
            seq![
                ("category"@, Json::Text(category_key(category))),
                ("cta_label"@, json_text(opt_text(cta_label))),
                ("cta_path"@, json_text(opt_text(cta_path))),
                ("lines"@, json_texts(texts(lines@))),
                ("title"@, Json::Text(title@)),
            ],
        ),
        EmailTemplate::Announcement { title, body, level, cta_label, cta_url } => Json::Object(
            seq![
                ("body"@, Json::Text(body@)),
                ("cta_label"@, json_text(opt_text(cta_label))),
                ("cta_url"@, json_text(opt_text(cta_url))),
                ("level"@, Json::Text(level@)),
                ("title"@, Json::Text(title@)),
            ],
        ),
        EmailTemplate::ReleaseNotes { version, title, items, released_on } => Json::Object(
            seq![
                ("items"@, json_items(release_items(items@))),
                ("released_on"@, Json::Text(chrono_date_text(released_on@, YEAR_MONTH_DAY@))),
                ("title"@, title@),
                ("version"@, Json::Text(version@)),
            ],
        ),
        EmailTemplate::TrialEnding { username, plan_name, ends_at } => Json::Object(
            seq![
                ("ends_at"@, Json::Text(moment_json(ends_at@))),
                ("plan_name"@, plan_name@),
                ("username"@, Json::Text(username@)),
            ],
        ),
        EmailTemplate::SubscriptionChanged { username, kind, plan_name, current_period_end } => Json::Object(
            seq![
                ("current_period_end"@, json_moment(current_period_end)),
                ("kind"@, Json::Text(kind@)),
                ("plan_name"@, plan_name@),
                ("username"@, Json::Text(username@)),
            ],
        ),
        EmailTemplate::SubscriptionConfirmed { username, plan_name, amount_cents, currency, interval, next_charge_at, trial_ends_at, terms_version } => Json::Object(
            seq![
                ("amount_cents"@, json_amount(amount_cents)),
                ("currency"@, json_text(opt_text(currency))),
                ("interval"@, json_text(opt_text(interval))),
                ("next_charge_at"@, json_moment(next_charge_at)),
                ("plan_name"@, plan_name@),
                ("terms_version"@, json_text(opt_text(terms_version))),
                ("trial_ends_at"@, json_moment(trial_ends_at)),
                ("username"@, Json::Text(username@)),
            ],
        ),
        EmailTemplate::PaidTrialEnding { username, plan_name, amount_cents, currency, interval, charge_at } => Json::Object(
            seq![
                ("amount_cents"@, json_amount(amount_cents)),
                ("charge_at"@, Json::Text(moment_json(charge_at@))),
                ("currency"@, json_text(opt_text(currency))),
                ("interval"@, json_text(opt_text(interval))),
                ("plan_name"@, plan_name@),
                ("username"@, Json::Text(username@)),
            ],
        ),
        EmailTemplate::RenewalReminder { username, plan_name, amount_cents, currency, renews_at } => Json::Object(
            seq![
                ("amount_cents"@, json_amount(amount_cents)),
                ("currency"@, json_text(opt_text(currency))),
                ("plan_name"@, plan_name@),
                ("renews_at"@, Json::Text(moment_json(renews_at@))),
                ("username"@, Json::Text(username@)),
            ],
        ),
        EmailTemplate::WithdrawalConfirmed { username, plan_name, refunded_cents, currency, requested_at, by_staff } => Json::Object(
            seq![
                ("by_staff"@, Json::Bool(by_staff)),
                ("currency"@, Json::Text(currency@)),
                ("plan_name"@, plan_name@),
                ("refunded_cents"@, json_number(refunded_cents as int)),
                ("requested_at"@, Json::Text(moment_json(requested_at@))),
                ("username"@, Json::Text(username@)),
            ],
        ),
        EmailTemplate::PaymentDisputed { username, plan_name } => Json::Object(
            seq![
                ("plan_name"@, plan_name@),
                ("username"@, Json::Text(username@)),
            ],
        ),
        EmailTemplate::PriceChange { username, plan_name, interval, old_amount_cents, new_amount_cents, currency, effective_at } => Json::Object(
            seq![
                ("currency"@, json_text(opt_text(currency))),
                ("effective_at"@, Json::Text(moment_json(effective_at@))),
                ("interval"@, json_text(opt_text(interval))),
                ("new_amount_cents"@, json_number(new_amount_cents as int)),
                ("old_amount_cents"@, json_amount(old_amount_cents)),
                ("plan_name"@, plan_name@),
                ("username"@, Json::Text(username@)),
            ],
        ),
        EmailTemplate::Welcome { username } => Json::Object(
            seq![
                ("username"@, Json::Text(username@)),
            ],
        ),
        EmailTemplate::ReauthCode { username, code, expires_minutes } => Json::Object(
            seq![
                ("code"@, Json::Text(code@)),
                ("expires_minutes"@, json_number(expires_minutes as int)),
                ("username"@, Json::Text(username@)),
            ],
        ),
        EmailTemplate::SecurityNotice { username, kind, detail } => Json::Object(
            seq![
                ("detail"@, json_text(opt_text(detail))),
                ("kind"@, Json::Text(kind@)),
                ("username"@, Json::Text(username@)),
            ],
        ),
    }
}

fn texts_value(v: &Vec<String>) -> (r: JsonValue)
    ensures
        r@ == json_texts(texts(v@)),
{
    let mut out: Vec<JsonValue> = Vec::new();
    let mut i: usize = 0;
    while i < v.len()
        invariant
            i <= v@.len(),
            out@.len() == i,
            forall|j: int| 0 <= j < i ==> #[trigger] out@[j]@ == Json::Text(v@[j]@),
        decreases v@.len() - i,
    {
        out.push(text_value(v[i].as_str()));
        i = i + 1;
    }
    assert(jsons(out@) =~= json_texts(texts(v@))->Array_0);
    list_value(out)
}

fn amount_value(n: Option<i64>) -> (r: JsonValue)
    ensures
        r@ == json_amount(n),
{
    match n {
        Some(x) => number_value(x),
        None => JsonValue::Null,
    }
}

fn items_value(v: &Vec<ReleaseItem>) -> (r: JsonValue)
    ensures
        r@ == json_items(release_items(v@)),
{
    let mut out: Vec<JsonValue> = Vec::new();
    let mut i: usize = 0;
    while i < v.len()
        invariant
            i <= v@.len(),
            out@.len() == i,
            forall|j: int|
                0 <= j < i ==> #[trigger] out@[j]@ == Json::Object(
                    seq![("kind"@, Json::Text(v@[j].kind@)), ("text"@, v@[j].text@)],
                ),
        decreases v@.len() - i,
    {
        out.push(
            object2("kind", text_value(v[i].kind.as_str()), "text", v[i].text.copy()),
        );
        i = i + 1;
    }
    assert(jsons(out@) =~= json_items(release_items(v@))->Array_0);
    list_value(out)
}

// ---------------------------------------------------------------------
// Reading members
// ---------------------------------------------------------------------

/// The category with the name that a value stands for.
pub open spec fn category_in(v: Json) -> Option<Category> {
    match variant_in(v) {
        Some(s) => category_with_key(s),
        None => None,
    }
}

/// The category that stands there.
pub open spec fn category_member(v: Json, key: Seq<char>) -> Option<Category> {
    match member(v, key) {
        Some(x) => category_in(x),
        None => None,
    }
}

/// The items of a release.
pub open spec fn items_member(v: Json, key: Seq<char>) -> Option<Seq<(Seq<char>, Json)>> {
    match member(v, key) {
        Some(Json::Array(a)) => if forall|i: int|
            0 <= i < a.len() ==> item_in(#[trigger] a[i]) is Some {
            Some(Seq::new(a.len(), |i: int| item_in(a[i])->0))
        } else {
            None
        },
        _ => None,
    }
}

fn category_field(v: &JsonValue, key: &str) -> (r: Option<Category>)
    ensures
        r == category_member(v@, key@),
{
    match v.get(key) {
        Some(x) => match variant_of(x) {
            Some(s) => Category::from_key(s.as_str()),
            None => None,
        },
        None => None,
    }
}

fn items_field(v: &JsonValue, key: &str) -> (r: Option<Vec<ReleaseItem>>)
    ensures
        match r {
            Some(x) => items_member(v@, key@) == Some(release_items(x@)),
            None => items_member(v@, key@) is None,
        },
{
    match v.get(key) {
        Some(JsonValue::Array(a)) => {
            proof {
                lemma_array_view(*a);
            }
            let ghost all = jsons(a@);
            let mut out: Vec<ReleaseItem> = Vec::new();
            let mut i: usize = 0;
            while i < a.len()
                invariant
                    all == jsons(a@),
                    member(v@, key@) == Some(Json::Array(all)),
                    i <= a@.len(),
                    out@.len() == i,
                    forall|j: int|
                        0 <= j < i ==> item_in(#[trigger] all[j]) == Some(
                            (out@[j].kind@, out@[j].text@),
                        ),
                decreases a@.len() - i,
            {
                assert(all[i as int] == a@[i as int]@);
                match item_of(&a[i]) {
                    Some((kind, text)) => {
                        out.push(ReleaseItem { kind, text });
                    },
                    _ => {
                        assert(item_in(all[i as int]) is None);
                        return None;
                    },
                }
                i = i + 1;
            }
            assert(release_items(out@) =~= Seq::new(all.len(), |i: int| item_in(all[i])->0));
            Some(out)
        },
        _ => None,
    }
}

// ---------------------------------------------------------------------
// Reading templates
// ---------------------------------------------------------------------

/// The fields of `t` are what the members of `payload` say.
pub open spec fn reads_as(t: EmailTemplate, payload: Json) -> bool {
    match t {
        EmailTemplate::EmailVerificationCode { username, code, expires_minutes } => {
            &&& text_member(payload, "username"@) == Some(username@)
            &&& text_member(payload, "code"@) == Some(code@)
            &&& integer_member(payload, "expires_minutes"@) == Some(expires_minutes)
        },
        EmailTemplate::PasswordResetCode { username, code, expires_minutes } => {
            &&& text_member(payload, "username"@) == Some(username@)
            &&& text_member(payload, "code"@) == Some(code@)
            &&& integer_member(payload, "expires_minutes"@) == Some(expires_minutes)
        },
        EmailTemplate::EmailChangeCode { username, code, expires_minutes } => {
            &&& text_member(payload, "username"@) == Some(username@)
            &&& text_member(payload, "code"@) == Some(code@)
            &&& integer_member(payload, "expires_minutes"@) == Some(expires_minutes)
        },
        EmailTemplate::PasswordChanged { username } => {
            &&& text_member(payload, "username"@) == Some(username@)
        },
        EmailTemplate::TwoFactorEnabled { username } => {
            &&& text_member(payload, "username"@) == Some(username@)
        },
        EmailTemplate::TwoFactorDisabled { username } => {
            &&& text_member(payload, "username"@) == Some(username@)
        },
        EmailTemplate::EmailChangedNotice { username, new_email_masked } => {
            &&& text_member(payload, "username"@) == Some(username@)
            &&& text_member(payload, "new_email_masked"@) == Some(new_email_masked@)
        },
        EmailTemplate::AccountDeleted { username } => {
            &&& text_member(payload, "username"@) == Some(username@)
        },
        EmailTemplate::Notification { title, lines, cta_label, cta_path, category } => {
            &&& text_member(payload, "title"@) == Some(title@)
            &&& texts_member(payload, "lines"@) == Some(texts(lines@))
            &&& opt_text_member(payload, "cta_label"@) == Some(opt_text(cta_label))
            &&& opt_text_member(payload, "cta_path"@) == Some(opt_text(cta_path))
            &&& category_member(payload, "category"@) == Some(category)
        },
        EmailTemplate::Announcement { title, body, level, cta_label, cta_url } => {
            &&& text_member(payload, "title"@) == Some(title@)
            &&& text_member(payload, "body"@) == Some(body@)
            &&& text_member(payload, "level"@) == Some(level@)
            &&& opt_text_member(payload, "cta_label"@) == Some(opt_text(cta_label))
            &&& opt_text_member(payload, "cta_url"@) == Some(opt_text(cta_url))
        },
        EmailTemplate::ReleaseNotes { version, title, items, released_on } => {
            &&& text_member(payload, "version"@) == Some(version@)
            &&& member(payload, "title"@) == Some(title@)
            &&& items_member(payload, "items"@) == Some(release_items(items@))
            &&& day_member(payload, "released_on"@) == Some(released_on@)
        },
        EmailTemplate::TrialEnding { username, plan_name, ends_at } => {
            &&& text_member(payload, "username"@) == Some(username@)
            &&& member(payload, "plan_name"@) == Some(plan_name@)
            &&& moment_member(payload, "ends_at"@) == Some(ends_at@)
        },
        EmailTemplate::SubscriptionChanged { username, kind, plan_name, current_period_end } => {
            &&& text_member(payload, "username"@) == Some(username@)
            &&& text_member(payload, "kind"@) == Some(kind@)
            &&& member(payload, "plan_name"@) == Some(plan_name@)
            &&& opt_moment_member(payload, "current_period_end"@) == Some(opt_moment(current_period_end))
        },
        EmailTemplate::SubscriptionConfirmed { username, plan_name, amount_cents, currency, interval, next_charge_at, trial_ends_at, terms_version } => {
            &&& text_member(payload, "username"@) == Some(username@)
            &&& member(payload, "plan_name"@) == Some(plan_name@)
            &&& opt_integer_member(payload, "amount_cents"@) == Some(amount_cents)
            &&& opt_text_member(payload, "currency"@) == Some(opt_text(currency))
            &&& opt_text_member(payload, "interval"@) == Some(opt_text(interval))
            &&& opt_moment_member(payload, "next_charge_at"@) == Some(opt_moment(next_charge_at))
            &&& opt_moment_member(payload, "trial_ends_at"@) == Some(opt_moment(trial_ends_at))
            &&& opt_text_member(payload, "terms_version"@) == Some(opt_text(terms_version))
        },
        EmailTemplate::PaidTrialEnding { username, plan_name, amount_cents, currency, interval, charge_at } => {
            &&& text_member(payload, "username"@) == Some(username@)
            &&& member(payload, "plan_name"@) == Some(plan_name@)
            &&& opt_integer_member(payload, "amount_cents"@) == Some(amount_cents)
            &&& opt_text_member(payload, "currency"@) == Some(opt_text(currency))
            &&& opt_text_member(payload, "interval"@) == Some(opt_text(interval))
            &&& moment_member(payload, "charge_at"@) == Some(charge_at@)
        },
        EmailTemplate::RenewalReminder { username, plan_name, amount_cents, currency, renews_at } => {
            &&& text_member(payload, "username"@) == Some(username@)
            &&& member(payload, "plan_name"@) == Some(plan_name@)
            &&& opt_integer_member(payload, "amount_cents"@) == Some(amount_cents)
            &&& opt_text_member(payload, "currency"@) == Some(opt_text(currency))
            &&& moment_member(payload, "renews_at"@) == Some(renews_at@)
        },
        EmailTemplate::WithdrawalConfirmed { username, plan_name, refunded_cents, currency, requested_at, by_staff } => {
            &&& text_member(payload, "username"@) == Some(username@)
            &&& member(payload, "plan_name"@) == Some(plan_name@)
            &&& integer_member(payload, "refunded_cents"@) == Some(refunded_cents)
            &&& text_member(payload, "currency"@) == Some(currency@)
            &&& moment_member(payload, "requested_at"@) == Some(requested_at@)
            &&& flag_or(payload, "by_staff"@, false) == Some(by_staff)
        },
        EmailTemplate::PaymentDisputed { username, plan_name } => {
            &&& text_member(payload, "username"@) == Some(username@)
            &&& member(payload, "plan_name"@) == Some(plan_name@)
        },
        EmailTemplate::PriceChange { username, plan_name, interval, old_amount_cents, new_amount_cents, currency, effective_at } => {
            &&& text_member(payload, "username"@) == Some(username@)
            &&& member(payload, "plan_name"@) == Some(plan_name@)
            &&& opt_text_member(payload, "interval"@) == Some(opt_text(interval))
            &&& opt_integer_member(payload, "old_amount_cents"@) == Some(old_amount_cents)
            &&& integer_member(payload, "new_amount_cents"@) == Some(new_amount_cents)
            &&& opt_text_member(payload, "currency"@) == Some(opt_text(currency))
            &&& moment_member(payload, "effective_at"@) == Some(effective_at@)
        },
        EmailTemplate::Welcome { username } => {
            &&& text_member(payload, "username"@) == Some(username@)
        },
        EmailTemplate::ReauthCode { username, code, expires_minutes } => {
            &&& text_member(payload, "username"@) == Some(username@)
            &&& text_member(payload, "code"@) == Some(code@)
            &&& integer_member(payload, "expires_minutes"@) == Some(expires_minutes)
        },
        EmailTemplate::SecurityNotice { username, kind, detail } => {
            &&& text_member(payload, "username"@) == Some(username@)
            &&& text_member(payload, "kind"@) == Some(kind@)
            &&& opt_text_member(payload, "detail"@) == Some(opt_text(detail))
        },
    }
}

/// `payload` has every member that the template with this name needs, and
/// all are what they have to be.
pub open spec fn readable(name: Seq<char>, payload: Json) -> bool {
    if name == "email_verification_code"@ {
        &&& text_member(payload, "username"@) is Some
        &&& text_member(payload, "code"@) is Some
        &&& integer_member(payload, "expires_minutes"@) is Some
    } else if name == "password_reset_code"@ {
        &&& text_member(payload, "username"@) is Some
        &&& text_member(payload, "code"@) is Some
        &&& integer_member(payload, "expires_minutes"@) is Some
    } else if name == "email_change_code"@ {
        &&& text_member(payload, "username"@) is Some
        &&& text_member(payload, "code"@) is Some
        &&& integer_member(payload, "expires_minutes"@) is Some
    } else if name == "password_changed"@ {
        &&& text_member(payload, "username"@) is Some
    } else if name == "two_factor_enabled"@ {
        &&& text_member(payload, "username"@) is Some
    } else if name == "two_factor_disabled"@ {
        &&& text_member(payload, "username"@) is Some
    } else if name == "email_changed_notice"@ {
        &&& text_member(payload, "username"@) is Some
        &&& text_member(payload, "new_email_masked"@) is Some
    } else if name == "account_deleted"@ {
        &&& text_member(payload, "username"@) is Some
    } else if name == "notification"@ {
        &&& text_member(payload, "title"@) is Some
        &&& texts_member(payload, "lines"@) is Some
        &&& opt_text_member(payload, "cta_label"@) is Some
        &&& opt_text_member(payload, "cta_path"@) is Some
        &&& category_member(payload, "category"@) is Some
    } else if name == "announcement"@ {
        &&& text_member(payload, "title"@) is Some
        &&& text_member(payload, "body"@) is Some
        &&& text_member(payload, "level"@) is Some
        &&& opt_text_member(payload, "cta_label"@) is Some
        &&& opt_text_member(payload, "cta_url"@) is Some
    } else if name == "release_notes"@ {
        &&& text_member(payload, "version"@) is Some
        &&& member(payload, "title"@) is Some
        &&& items_member(payload, "items"@) is Some
        &&& day_member(payload, "released_on"@) is Some
    } else if name == "trial_ending"@ {
        &&& text_member(payload, "username"@) is Some
        &&& member(payload, "plan_name"@) is Some
        &&& moment_member(payload, "ends_at"@) is Some
    } else if name == "subscription_changed"@ {
        &&& text_member(payload, "username"@) is Some
        &&& text_member(payload, "kind"@) is Some
        &&& member(payload, "plan_name"@) is Some
        &&& opt_moment_member(payload, "current_period_end"@) is Some
    } else if name == "subscription_confirmed"@ {
        &&& text_member(payload, "username"@) is Some
        &&& member(payload, "plan_name"@) is Some
        &&& opt_integer_member(payload, "amount_cents"@) is Some
        &&& opt_text_member(payload, "currency"@) is Some
        &&& opt_text_member(payload, "interval"@) is Some
        &&& opt_moment_member(payload, "next_charge_at"@) is Some
        &&& opt_moment_member(payload, "trial_ends_at"@) is Some
        &&& opt_text_member(payload, "terms_version"@) is Some
    } else if name == "paid_trial_ending"@ {
        &&& text_member(payload, "username"@) is Some
        &&& member(payload, "plan_name"@) is Some
        &&& opt_integer_member(payload, "amount_cents"@) is Some
        &&& opt_text_member(payload, "currency"@) is Some
        &&& opt_text_member(payload, "interval"@) is Some
        &&& moment_member(payload, "charge_at"@) is Some
    } else if name == "renewal_reminder"@ {
        &&& text_member(payload, "username"@) is Some
        &&& member(payload, "plan_name"@) is Some
        &&& opt_integer_member(payload, "amount_cents"@) is Some
        &&& opt_text_member(payload, "currency"@) is Some
        &&& moment_member(payload, "renews_at"@) is Some
    } else if name == "withdrawal_confirmed"@ {
        &&& text_member(payload, "username"@) is Some
        &&& member(payload, "plan_name"@) is Some
        &&& integer_member(payload, "refunded_cents"@) is Some
        &&& text_member(payload, "currency"@) is Some
        &&& moment_member(payload, "requested_at"@) is Some
        &&& flag_or(payload, "by_staff"@, false) is Some
    } else if name == "payment_disputed"@ {
        &&& text_member(payload, "username"@) is Some
        &&& member(payload, "plan_name"@) is Some
    } else if name == "price_change"@ {
        &&& text_member(payload, "username"@) is Some
        &&& member(payload, "plan_name"@) is Some
        &&& opt_text_member(payload, "interval"@) is Some
        &&& opt_integer_member(payload, "old_amount_cents"@) is Some
        &&& integer_member(payload, "new_amount_cents"@) is Some
        &&& opt_text_member(payload, "currency"@) is Some
        &&& moment_member(payload, "effective_at"@) is Some
    } else if name == "welcome"@ {
        &&& text_member(payload, "username"@) is Some
    } else if name == "reauth_code"@ {
        &&& text_member(payload, "username"@) is Some
        &&& text_member(payload, "code"@) is Some
        &&& integer_member(payload, "expires_minutes"@) is Some
    } else if name == "security_notice"@ {
        &&& text_member(payload, "username"@) is Some
        &&& text_member(payload, "kind"@) is Some
        &&& opt_text_member(payload, "detail"@) is Some
    } else {
        false
    }
}

/// `a` and `b` say the same.
pub open spec fn same_template(a: EmailTemplate, b: EmailTemplate) -> bool {
    match (a, b) {
        (EmailTemplate::EmailVerificationCode { username: a_username, code: a_code, expires_minutes: a_expires_minutes }, EmailTemplate::EmailVerificationCode { username: b_username, code: b_code, expires_minutes: b_expires_minutes }) => {
            &&& a_username@ == b_username@
            &&& a_code@ == b_code@
            &&& a_expires_minutes == b_expires_minutes
        },
        (EmailTemplate::PasswordResetCode { username: a_username, code: a_code, expires_minutes: a_expires_minutes }, EmailTemplate::PasswordResetCode { username: b_username, code: b_code, expires_minutes: b_expires_minutes }) => {
            &&& a_username@ == b_username@
            &&& a_code@ == b_code@
            &&& a_expires_minutes == b_expires_minutes
        },
        (EmailTemplate::EmailChangeCode { username: a_username, code: a_code, expires_minutes: a_expires_minutes }, EmailTemplate::EmailChangeCode { username: b_username, code: b_code, expires_minutes: b_expires_minutes }) => {
            &&& a_username@ == b_username@
            &&& a_code@ == b_code@
            &&& a_expires_minutes == b_expires_minutes
        },
        (EmailTemplate::PasswordChanged { username: a_username }, EmailTemplate::PasswordChanged { username: b_username }) => {
            &&& a_username@ == b_username@
        },
        (EmailTemplate::TwoFactorEnabled { username: a_username }, EmailTemplate::TwoFactorEnabled { username: b_username }) => {
            &&& a_username@ == b_username@
        },
        (EmailTemplate::TwoFactorDisabled { username: a_username }, EmailTemplate::TwoFactorDisabled { username: b_username }) => {
            &&& a_username@ == b_username@
        },
        (EmailTemplate::EmailChangedNotice { username: a_username, new_email_masked: a_new_email_masked }, EmailTemplate::EmailChangedNotice { username: b_username, new_email_masked: b_new_email_masked }) => {
            &&& a_username@ == b_username@
            &&& a_new_email_masked@ == b_new_email_masked@
        },
        (EmailTemplate::AccountDeleted { username: a_username }, EmailTemplate::AccountDeleted { username: b_username }) => {
            &&& a_username@ == b_username@
        },
        (EmailTemplate::Notification { title: a_title, lines: a_lines, cta_label: a_cta_label, cta_path: a_cta_path, category: a_category }, EmailTemplate::Notification { title: b_title, lines: b_lines, cta_label: b_cta_label, cta_path: b_cta_path, category: b_category }) => {
            &&& a_title@ == b_title@
            &&& texts(a_lines@) == texts(b_lines@)
            &&& opt_text(a_cta_label) == opt_text(b_cta_label)
            &&& opt_text(a_cta_path) == opt_text(b_cta_path)
            &&& a_category == b_category
        },
        (EmailTemplate::Announcement { title: a_title, body: a_body, level: a_level, cta_label: a_cta_label, cta_url: a_cta_url }, EmailTemplate::Announcement { title: b_title, body: b_body, level: b_level, cta_label: b_cta_label, cta_url: b_cta_url }) => {
            &&& a_title@ == b_title@
            &&& a_body@ == b_body@
            &&& a_level@ == b_level@
            &&& opt_text(a_cta_label) == opt_text(b_cta_label)
            &&& opt_text(a_cta_url) == opt_text(b_cta_url)
        },
        (EmailTemplate::ReleaseNotes { version: a_version, title: a_title, items: a_items, released_on: a_released_on }, EmailTemplate::ReleaseNotes { version: b_version, title: b_title, items: b_items, released_on: b_released_on }) => {
            &&& a_version@ == b_version@
            &&& a_title@ == b_title@
            &&& release_items(a_items@) == release_items(b_items@)
            &&& a_released_on@ == b_released_on@
        },
        (EmailTemplate::TrialEnding { username: a_username, plan_name: a_plan_name, ends_at: a_ends_at }, EmailTemplate::TrialEnding { username: b_username, plan_name: b_plan_name, ends_at: b_ends_at }) => {
            &&& a_username@ == b_username@
            &&& a_plan_name@ == b_plan_name@
            &&& a_ends_at@ == b_ends_at@
        },
        (EmailTemplate::SubscriptionChanged { username: a_username, kind: a_kind, plan_name: a_plan_name, current_period_end: a_current_period_end }, EmailTemplate::SubscriptionChanged { username: b_username, kind: b_kind, plan_name: b_plan_name, current_period_end: b_current_period_end }) => {
            &&& a_username@ == b_username@
            &&& a_kind@ == b_kind@
            &&& a_plan_name@ == b_plan_name@
            &&& opt_moment(a_current_period_end) == opt_moment(b_current_period_end)
        },
        (EmailTemplate::SubscriptionConfirmed { username: a_username, plan_name: a_plan_name, amount_cents: a_amount_cents, currency: a_currency, interval: a_interval, next_charge_at: a_next_charge_at, trial_ends_at: a_trial_ends_at, terms_version: a_terms_version }, EmailTemplate::SubscriptionConfirmed { username: b_username, plan_name: b_plan_name, amount_cents: b_amount_cents, currency: b_currency, interval: b_interval, next_charge_at: b_next_charge_at, trial_ends_at: b_trial_ends_at, terms_version: b_terms_version }) => {
            &&& a_username@ == b_username@
            &&& a_plan_name@ == b_plan_name@
            &&& a_amount_cents == b_amount_cents
            &&& opt_text(a_currency) == opt_text(b_currency)
            &&& opt_text(a_interval) == opt_text(b_interval)
            &&& opt_moment(a_next_charge_at) == opt_moment(b_next_charge_at)
            &&& opt_moment(a_trial_ends_at) == opt_moment(b_trial_ends_at)
            &&& opt_text(a_terms_version) == opt_text(b_terms_version)
        },
        (EmailTemplate::PaidTrialEnding { username: a_username, plan_name: a_plan_name, amount_cents: a_amount_cents, currency: a_currency, interval: a_interval, charge_at: a_charge_at }, EmailTemplate::PaidTrialEnding { username: b_username, plan_name: b_plan_name, amount_cents: b_amount_cents, currency: b_currency, interval: b_interval, charge_at: b_charge_at }) => {
            &&& a_username@ == b_username@
            &&& a_plan_name@ == b_plan_name@
            &&& a_amount_cents == b_amount_cents
            &&& opt_text(a_currency) == opt_text(b_currency)
            &&& opt_text(a_interval) == opt_text(b_interval)
            &&& a_charge_at@ == b_charge_at@
        },
        (EmailTemplate::RenewalReminder { username: a_username, plan_name: a_plan_name, amount_cents: a_amount_cents, currency: a_currency, renews_at: a_renews_at }, EmailTemplate::RenewalReminder { username: b_username, plan_name: b_plan_name, amount_cents: b_amount_cents, currency: b_currency, renews_at: b_renews_at }) => {
            &&& a_username@ == b_username@
            &&& a_plan_name@ == b_plan_name@
            &&& a_amount_cents == b_amount_cents
            &&& opt_text(a_currency) == opt_text(b_currency)
            &&& a_renews_at@ == b_renews_at@
        },
        (EmailTemplate::WithdrawalConfirmed { username: a_username, plan_name: a_plan_name, refunded_cents: a_refunded_cents, currency: a_currency, requested_at: a_requested_at, by_staff: a_by_staff }, EmailTemplate::WithdrawalConfirmed { username: b_username, plan_name: b_plan_name, refunded_cents: b_refunded_cents, currency: b_currency, requested_at: b_requested_at, by_staff: b_by_staff }) => {
            &&& a_username@ == b_username@
            &&& a_plan_name@ == b_plan_name@
            &&& a_refunded_cents == b_refunded_cents
            &&& a_currency@ == b_currency@
            &&& a_requested_at@ == b_requested_at@
            &&& a_by_staff == b_by_staff
        },
        (EmailTemplate::PaymentDisputed { username: a_username, plan_name: a_plan_name }, EmailTemplate::PaymentDisputed { username: b_username, plan_name: b_plan_name }) => {
            &&& a_username@ == b_username@
            &&& a_plan_name@ == b_plan_name@
        },
        (EmailTemplate::PriceChange { username: a_username, plan_name: a_plan_name, interval: a_interval, old_amount_cents: a_old_amount_cents, new_amount_cents: a_new_amount_cents, currency: a_currency, effective_at: a_effective_at }, EmailTemplate::PriceChange { username: b_username, plan_name: b_plan_name, interval: b_interval, old_amount_cents: b_old_amount_cents, new_amount_cents: b_new_amount_cents, currency: b_currency, effective_at: b_effective_at }) => {
            &&& a_username@ == b_username@
            &&& a_plan_name@ == b_plan_name@
            &&& opt_text(a_interval) == opt_text(b_interval)
            &&& a_old_amount_cents == b_old_amount_cents
            &&& a_new_amount_cents == b_new_amount_cents
            &&& opt_text(a_currency) == opt_text(b_currency)
            &&& a_effective_at@ == b_effective_at@
        },
        (EmailTemplate::Welcome { username: a_username }, EmailTemplate::Welcome { username: b_username }) => {
            &&& a_username@ == b_username@
        },
        (EmailTemplate::ReauthCode { username: a_username, code: a_code, expires_minutes: a_expires_minutes }, EmailTemplate::ReauthCode { username: b_username, code: b_code, expires_minutes: b_expires_minutes }) => {
            &&& a_username@ == b_username@
            &&& a_code@ == b_code@
            &&& a_expires_minutes == b_expires_minutes
        },
        (EmailTemplate::SecurityNotice { username: a_username, kind: a_kind, detail: a_detail }, EmailTemplate::SecurityNotice { username: b_username, kind: b_kind, detail: b_detail }) => {
            &&& a_username@ == b_username@
            &&& a_kind@ == b_kind@
            &&& opt_text(a_detail) == opt_text(b_detail)
        },
        _ => false,
    }
}

/// The dates of `t` are dates of the calendar, as those of every value are.
pub open spec fn has_real_dates(t: EmailTemplate) -> bool {
    match t {
        EmailTemplate::ReleaseNotes { released_on, .. } => {
            &&& is_day(released_on@)
        },
        EmailTemplate::TrialEnding { ends_at, .. } => {
            &&& is_moment(ends_at@)
        },
        EmailTemplate::SubscriptionChanged { current_period_end, .. } => {
            &&& (current_period_end matches Some(m) ==> is_moment(m@))
        },
        EmailTemplate::SubscriptionConfirmed { next_charge_at, trial_ends_at, .. } => {
            &&& (next_charge_at matches Some(m) ==> is_moment(m@))
            &&& (trial_ends_at matches Some(m) ==> is_moment(m@))
        },
        EmailTemplate::PaidTrialEnding { charge_at, .. } => {
            &&& is_moment(charge_at@)
        },
        EmailTemplate::RenewalReminder { renews_at, .. } => {
            &&& is_moment(renews_at@)
        },
        EmailTemplate::WithdrawalConfirmed { requested_at, .. } => {
            &&& is_moment(requested_at@)
        },
        EmailTemplate::PriceChange { effective_at, .. } => {
            &&& is_moment(effective_at@)
        },
        _ => true,
    }
}

/// `r` is what reading gives of the template `name` with this payload: a
/// template exactly when the payload is readable, and then the one it says.
pub open spec fn is_reading(r: Option<EmailTemplate>, name: Seq<char>, payload: Json) -> bool {
    match r {
        Some(t) => template_name(t) == name && readable(name, payload) && reads_as(t, payload),
        None => !readable(name, payload),
    }
}

/// Of a payload that was written for a template, `r` is that template.
pub open spec fn reads_back(r: Option<EmailTemplate>, t: EmailTemplate) -> bool {
    r matches Some(back) && same_template(back, t)
}

proof fn lemma_email_verification_code_payload(t: EmailTemplate)
    requires
        t is EmailVerificationCode,
    ensures
        t matches EmailTemplate::EmailVerificationCode { username, code, expires_minutes } ==> {
            &&& member(payload_of(t), "code"@) == Some(Json::Text(code@))
            &&& member(payload_of(t), "expires_minutes"@) == Some(json_number(expires_minutes as int))
            &&& member(payload_of(t), "username"@) == Some(Json::Text(username@))
        },
{
    let m = payload_of(t)->Object_0;
    reveal_strlit("code");
    reveal_strlit("expires_minutes");
    reveal_strlit("username");
    assert("code"@.len() != "expires_minutes"@.len());
    assert("code"@.len() != "username"@.len());
    assert("expires_minutes"@.len() != "username"@.len());
    assert(m[0].0 == "code"@);
    assert(m[1].0 == "expires_minutes"@);
    assert(m[2].0 == "username"@);
    lemma_first_member(m, 0);
    lemma_first_member(m, 1);
    lemma_first_member(m, 2);
}

fn read_email_verification_code(payload: &JsonValue) -> (r: Option<EmailTemplate>)
    ensures
        is_reading(r, "email_verification_code"@, payload@),
        forall|t: EmailTemplate|
            t is EmailVerificationCode && has_real_dates(t) && payload@ == #[trigger] payload_of(t) ==> reads_back(r, t),
{
    proof {
        lemma_names_are_distinct();
    }
    let username = text_field(payload, "username");
    let code = text_field(payload, "code");
    let expires_minutes = integer_field(payload, "expires_minutes");
    let r = match (username, code, expires_minutes) {
        (Some(username), Some(code), Some(expires_minutes)) => Some(
            EmailTemplate::EmailVerificationCode { username, code, expires_minutes },
        ),
        _ => None,
    };
    proof {
        assert forall|t: EmailTemplate|
            t is EmailVerificationCode && has_real_dates(t) && payload@ == #[trigger] payload_of(t) implies reads_back(r, t) by {
            lemma_email_verification_code_payload(t);
        }
    }
    r
}

proof fn lemma_password_reset_code_payload(t: EmailTemplate)
    requires
        t is PasswordResetCode,
    ensures
        t matches EmailTemplate::PasswordResetCode { username, code, expires_minutes } ==> {
            &&& member(payload_of(t), "code"@) == Some(Json::Text(code@))
            &&& member(payload_of(t), "expires_minutes"@) == Some(json_number(expires_minutes as int))
            &&& member(payload_of(t), "username"@) == Some(Json::Text(username@))
        },
{
    let m = payload_of(t)->Object_0;
    reveal_strlit("code");
    reveal_strlit("expires_minutes");
    reveal_strlit("username");
    assert("code"@.len() != "expires_minutes"@.len());
    assert("code"@.len() != "username"@.len());
    assert("expires_minutes"@.len() != "username"@.len());
    assert(m[0].0 == "code"@);
    assert(m[1].0 == "expires_minutes"@);
    assert(m[2].0 == "username"@);
    lemma_first_member(m, 0);
    lemma_first_member(m, 1);
    lemma_first_member(m, 2);
}

fn read_password_reset_code(payload: &JsonValue) -> (r: Option<EmailTemplate>)
    ensures
        is_reading(r, "password_reset_code"@, payload@),
        forall|t: EmailTemplate|
            t is PasswordResetCode && has_real_dates(t) && payload@ == #[trigger] payload_of(t) ==> reads_back(r, t),
{
    proof {
        lemma_names_are_distinct();
    }
    let username = text_field(payload, "username");
    let code = text_field(payload, "code");
    let expires_minutes = integer_field(payload, "expires_minutes");
    let r = match (username, code, expires_minutes) {
        (Some(username), Some(code), Some(expires_minutes)) => Some(
            EmailTemplate::PasswordResetCode { username, code, expires_minutes },
        ),
        _ => None,
    };
    proof {
        assert forall|t: EmailTemplate|
            t is PasswordResetCode && has_real_dates(t) && payload@ == #[trigger] payload_of(t) implies reads_back(r, t) by {
            lemma_password_reset_code_payload(t);
        }
    }
    r
}

proof fn lemma_email_change_code_payload(t: EmailTemplate)
    requires
        t is EmailChangeCode,
    ensures
        t matches EmailTemplate::EmailChangeCode { username, code, expires_minutes } ==> {
            &&& member(payload_of(t), "code"@) == Some(Json::Text(code@))
            &&& member(payload_of(t), "expires_minutes"@) == Some(json_number(expires_minutes as int))
            &&& member(payload_of(t), "username"@) == Some(Json::Text(username@))
        },
{
    let m = payload_of(t)->Object_0;
    reveal_strlit("code");
    reveal_strlit("expires_minutes");
    reveal_strlit("username");
    assert("code"@.len() != "expires_minutes"@.len());
    assert("code"@.len() != "username"@.len());
    assert("expires_minutes"@.len() != "username"@.len());
    assert(m[0].0 == "code"@);
    assert(m[1].0 == "expires_minutes"@);
    assert(m[2].0 == "username"@);
    lemma_first_member(m, 0);
    lemma_first_member(m, 1);
    lemma_first_member(m, 2);
}

fn read_email_change_code(payload: &JsonValue) -> (r: Option<EmailTemplate>)
    ensures
        is_reading(r, "email_change_code"@, payload@),
        forall|t: EmailTemplate|
            t is EmailChangeCode && has_real_dates(t) && payload@ == #[trigger] payload_of(t) ==> reads_back(r, t),
{
    proof {
        lemma_names_are_distinct();
    }
    let username = text_field(payload, "username");
    let code = text_field(payload, "code");
    let expires_minutes = integer_field(payload, "expires_minutes");
    let r = match (username, code, expires_minutes) {
        (Some(username), Some(code), Some(expires_minutes)) => Some(
            EmailTemplate::EmailChangeCode { username, code, expires_minutes },
        ),
        _ => None,
    };
    proof {
        assert forall|t: EmailTemplate|
            t is EmailChangeCode && has_real_dates(t) && payload@ == #[trigger] payload_of(t) implies reads_back(r, t) by {
            lemma_email_change_code_payload(t);
        }
    }
    r
}

proof fn lemma_password_changed_payload(t: EmailTemplate)
    requires
        t is PasswordChanged,
    ensures
        t matches EmailTemplate::PasswordChanged { username } ==> {
            &&& member(payload_of(t), "username"@) == Some(Json::Text(username@))
        },
{
    let m = payload_of(t)->Object_0;
    reveal_strlit("username");
    assert(m[0].0 == "username"@);
    lemma_first_member(m, 0);
}

fn read_password_changed(payload: &JsonValue) -> (r: Option<EmailTemplate>)
    ensures
        is_reading(r, "password_changed"@, payload@),
        forall|t: EmailTemplate|
            t is PasswordChanged && has_real_dates(t) && payload@ == #[trigger] payload_of(t) ==> reads_back(r, t),
{
    proof {
        lemma_names_are_distinct();
    }
    let username = text_field(payload, "username");
    let r = match username {
        Some(username) => Some(EmailTemplate::PasswordChanged { username }),
        None => None,
    };
    proof {
        assert forall|t: EmailTemplate|
            t is PasswordChanged && has_real_dates(t) && payload@ == #[trigger] payload_of(t) implies reads_back(r, t) by {
            lemma_password_changed_payload(t);
        }
    }
    r
}

proof fn lemma_two_factor_enabled_payload(t: EmailTemplate)
    requires
        t is TwoFactorEnabled,
    ensures
        t matches EmailTemplate::TwoFactorEnabled { username } ==> {
            &&& member(payload_of(t), "username"@) == Some(Json::Text(username@))
        },
{
    let m = payload_of(t)->Object_0;
    reveal_strlit("username");
    assert(m[0].0 == "username"@);
    lemma_first_member(m, 0);
}

fn read_two_factor_enabled(payload: &JsonValue) -> (r: Option<EmailTemplate>)
    ensures
        is_reading(r, "two_factor_enabled"@, payload@),
        forall|t: EmailTemplate|
            t is TwoFactorEnabled && has_real_dates(t) && payload@ == #[trigger] payload_of(t) ==> reads_back(r, t),
{
    proof {
        lemma_names_are_distinct();
    }
    let username = text_field(payload, "username");
    let r = match username {
        Some(username) => Some(EmailTemplate::TwoFactorEnabled { username }),
        None => None,
    };
    proof {
        assert forall|t: EmailTemplate|
            t is TwoFactorEnabled && has_real_dates(t) && payload@ == #[trigger] payload_of(t) implies reads_back(r, t) by {
            lemma_two_factor_enabled_payload(t);
        }
    }
    r
}

proof fn lemma_two_factor_disabled_payload(t: EmailTemplate)
    requires
        t is TwoFactorDisabled,
    ensures
        t matches EmailTemplate::TwoFactorDisabled { username } ==> {
            &&& member(payload_of(t), "username"@) == Some(Json::Text(username@))
        },
{
    let m = payload_of(t)->Object_0;
    reveal_strlit("username");
    assert(m[0].0 == "username"@);
    lemma_first_member(m, 0);
}

fn read_two_factor_disabled(payload: &JsonValue) -> (r: Option<EmailTemplate>)
    ensures
        is_reading(r, "two_factor_disabled"@, payload@),
        forall|t: EmailTemplate|
            t is TwoFactorDisabled && has_real_dates(t) && payload@ == #[trigger] payload_of(t) ==> reads_back(r, t),
{
    proof {
        lemma_names_are_distinct();
    }
    let username = text_field(payload, "username");
    let r = match username {
        Some(username) => Some(EmailTemplate::TwoFactorDisabled { username }),
        None => None,
    };
    proof {
        assert forall|t: EmailTemplate|
            t is TwoFactorDisabled && has_real_dates(t) && payload@ == #[trigger] payload_of(t) implies reads_back(r, t) by {
            lemma_two_factor_disabled_payload(t);
        }
    }
    r
}

proof fn lemma_email_changed_notice_payload(t: EmailTemplate)
    requires
        t is EmailChangedNotice,
    ensures
        t matches EmailTemplate::EmailChangedNotice { username, new_email_masked } ==> {
            &&& member(payload_of(t), "new_email_masked"@) == Some(Json::Text(new_email_masked@))
            &&& member(payload_of(t), "username"@) == Some(Json::Text(username@))
        },
{
    let m = payload_of(t)->Object_0;
    reveal_strlit("new_email_masked");
    reveal_strlit("username");
    assert("new_email_masked"@.len() != "username"@.len());
    assert(m[0].0 == "new_email_masked"@);
    assert(m[1].0 == "username"@);
    lemma_first_member(m, 0);
    lemma_first_member(m, 1);
}

fn read_email_changed_notice(payload: &JsonValue) -> (r: Option<EmailTemplate>)
    ensures
        is_reading(r, "email_changed_notice"@, payload@),
        forall|t: EmailTemplate|
            t is EmailChangedNotice && has_real_dates(t) && payload@ == #[trigger] payload_of(t) ==> reads_back(r, t),
{
    proof {
        lemma_names_are_distinct();
    }
    let username = text_field(payload, "username");
    let new_email_masked = text_field(payload, "new_email_masked");
    let r = match (username, new_email_masked) {
        (Some(username), Some(new_email_masked)) => Some(
            EmailTemplate::EmailChangedNotice { username, new_email_masked },
        ),
        _ => None,
    };
    proof {
        assert forall|t: EmailTemplate|
            t is EmailChangedNotice && has_real_dates(t) && payload@ == #[trigger] payload_of(t) implies reads_back(r, t) by {
            lemma_email_changed_notice_payload(t);
        }
    }
    r
}

proof fn lemma_account_deleted_payload(t: EmailTemplate)
    requires
        t is AccountDeleted,
    ensures
        t matches EmailTemplate::AccountDeleted { username } ==> {
            &&& member(payload_of(t), "username"@) == Some(Json::Text(username@))
        },
{
    let m = payload_of(t)->Object_0;
    reveal_strlit("username");
    assert(m[0].0 == "username"@);
    lemma_first_member(m, 0);
}

fn read_account_deleted(payload: &JsonValue) -> (r: Option<EmailTemplate>)
    ensures
        is_reading(r, "account_deleted"@, payload@),
        forall|t: EmailTemplate|
            t is AccountDeleted && has_real_dates(t) && payload@ == #[trigger] payload_of(t) ==> reads_back(r, t),
{
    proof {
        lemma_names_are_distinct();
    }
    let username = text_field(payload, "username");
    let r = match username {
        Some(username) => Some(EmailTemplate::AccountDeleted { username }),
        None => None,
    };
    proof {
        assert forall|t: EmailTemplate|
            t is AccountDeleted && has_real_dates(t) && payload@ == #[trigger] payload_of(t) implies reads_back(r, t) by {
            lemma_account_deleted_payload(t);
        }
    }
    r
}

proof fn lemma_notification_payload(t: EmailTemplate)
    requires
        t is Notification,
    ensures
        t matches EmailTemplate::Notification { title, lines, cta_label, cta_path, category } ==> {
            &&& member(payload_of(t), "category"@) == Some(Json::Text(category_key(category)))
            &&& member(payload_of(t), "cta_label"@) == Some(json_text(opt_text(cta_label)))
            &&& member(payload_of(t), "cta_path"@) == Some(json_text(opt_text(cta_path)))
            &&& member(payload_of(t), "lines"@) == Some(json_texts(texts(lines@)))
            &&& member(payload_of(t), "title"@) == Some(Json::Text(title@))
        },
{
    let m = payload_of(t)->Object_0;
    reveal_strlit("category");
    reveal_strlit("cta_label");
    reveal_strlit("cta_path");
    reveal_strlit("lines");
    reveal_strlit("title");
    assert("category"@.len() != "cta_label"@.len());
    assert("category"@[1] != "cta_path"@[1]);
    assert("category"@.len() != "lines"@.len());
    assert("category"@.len() != "title"@.len());
    assert("cta_label"@.len() != "cta_path"@.len());
    assert("cta_label"@.len() != "lines"@.len());
    assert("cta_label"@.len() != "title"@.len());
    assert("cta_path"@.len() != "lines"@.len());
    assert("cta_path"@.len() != "title"@.len());
    assert("lines"@[0] != "title"@[0]);
    assert(m[0].0 == "category"@);
    assert(m[1].0 == "cta_label"@);
    assert(m[2].0 == "cta_path"@);
    assert(m[3].0 == "lines"@);
    assert(m[4].0 == "title"@);
    lemma_first_member(m, 0);
    lemma_first_member(m, 1);
    lemma_first_member(m, 2);
    lemma_first_member(m, 3);
    lemma_first_member(m, 4);
}

fn read_notification(payload: &JsonValue) -> (r: Option<EmailTemplate>)
    ensures
        is_reading(r, "notification"@, payload@),
        forall|t: EmailTemplate|
            t is Notification && has_real_dates(t) && payload@ == #[trigger] payload_of(t) ==> reads_back(r, t),
{
    proof {
        lemma_names_are_distinct();
    }
    let title = text_field(payload, "title");
    let lines = texts_field(payload, "lines");
    let cta_label = opt_text_field(payload, "cta_label");
    let cta_path = opt_text_field(payload, "cta_path");
    let category = category_field(payload, "category");
    let r = match (title, lines, cta_label, cta_path, category) {
        (Some(title), Some(lines), Some(cta_label), Some(cta_path), Some(category)) => Some(
            EmailTemplate::Notification { title, lines, cta_label, cta_path, category },
        ),
        _ => None,
    };
    proof {
        assert forall|t: EmailTemplate|
            t is Notification && has_real_dates(t) && payload@ == #[trigger] payload_of(t) implies reads_back(r, t) by {
            lemma_notification_payload(t);
            lemma_texts_member(payload@, "lines"@, texts(t->Notification_lines@));
            category_indexes_and_keys_round_trip(t->Notification_category);
        }
    }
    r
}

proof fn lemma_announcement_payload(t: EmailTemplate)
    requires
        t is Announcement,
    ensures
        t matches EmailTemplate::Announcement { title, body, level, cta_label, cta_url } ==> {
            &&& member(payload_of(t), "body"@) == Some(Json::Text(body@))
            &&& member(payload_of(t), "cta_label"@) == Some(json_text(opt_text(cta_label)))
            &&& member(payload_of(t), "cta_url"@) == Some(json_text(opt_text(cta_url)))
            &&& member(payload_of(t), "level"@) == Some(Json::Text(level@))
            &&& member(payload_of(t), "title"@) == Some(Json::Text(title@))
        },
{
    let m = payload_of(t)->Object_0;
    reveal_strlit("body");
    reveal_strlit("cta_label");
    reveal_strlit("cta_url");
    reveal_strlit("level");
    reveal_strlit("title");
    assert("body"@.len() != "cta_label"@.len());
    assert("body"@.len() != "cta_url"@.len());
    assert("body"@.len() != "level"@.len());
    assert("body"@.len() != "title"@.len());
    assert("cta_label"@.len() != "cta_url"@.len());
    assert("cta_label"@.len() != "level"@.len());
    assert("cta_label"@.len() != "title"@.len());
    assert("cta_url"@.len() != "level"@.len());
    assert("cta_url"@.len() != "title"@.len());
    assert("level"@[0] != "title"@[0]);
    assert(m[0].0 == "body"@);
    assert(m[1].0 == "cta_label"@);
    assert(m[2].0 == "cta_url"@);
    assert(m[3].0 == "level"@);
    assert(m[4].0 == "title"@);
    lemma_first_member(m, 0);
    lemma_first_member(m, 1);
    lemma_first_member(m, 2);
    lemma_first_member(m, 3);
    lemma_first_member(m, 4);
}

fn read_announcement(payload: &JsonValue) -> (r: Option<EmailTemplate>)
    ensures
        is_reading(r, "announcement"@, payload@),
        forall|t: EmailTemplate|
            t is Announcement && has_real_dates(t) && payload@ == #[trigger] payload_of(t) ==> reads_back(r, t),
{
    proof {
        lemma_names_are_distinct();
    }
    let title = text_field(payload, "title");
    let body = text_field(payload, "body");
    let level = text_field(payload, "level");
    let cta_label = opt_text_field(payload, "cta_label");
    let cta_url = opt_text_field(payload, "cta_url");
    let r = match (title, body, level, cta_label, cta_url) {
        (Some(title), Some(body), Some(level), Some(cta_label), Some(cta_url)) => Some(
            EmailTemplate::Announcement { title, body, level, cta_label, cta_url },
        ),
        _ => None,
    };
    proof {
        assert forall|t: EmailTemplate|
            t is Announcement && has_real_dates(t) && payload@ == #[trigger] payload_of(t) implies reads_back(r, t) by {
            lemma_announcement_payload(t);
        }
    }
    r
}

proof fn lemma_release_notes_payload(t: EmailTemplate)
    requires
        t is ReleaseNotes,
    ensures
        t matches EmailTemplate::ReleaseNotes { version, title, items, released_on } ==> {
            &&& member(payload_of(t), "items"@) == Some(json_items(release_items(items@)))
            &&& member(payload_of(t), "released_on"@) == Some(Json::Text(chrono_date_text(released_on@, YEAR_MONTH_DAY@)))
            &&& member(payload_of(t), "title"@) == Some(title@)
            &&& member(payload_of(t), "version"@) == Some(Json::Text(version@))
        },
{
    let m = payload_of(t)->Object_0;
    reveal_strlit("items");
    reveal_strlit("released_on");
    reveal_strlit("title");
    reveal_strlit("version");
    assert("items"@.len() != "released_on"@.len());
    assert("items"@[0] != "title"@[0]);
    assert("items"@.len() != "version"@.len());
    assert("released_on"@.len() != "title"@.len());
    assert("released_on"@.len() != "version"@.len());
    assert("title"@.len() != "version"@.len());
    assert(m[0].0 == "items"@);
    assert(m[1].0 == "released_on"@);
    assert(m[2].0 == "title"@);
    assert(m[3].0 == "version"@);
    lemma_first_member(m, 0);
    lemma_first_member(m, 1);
    lemma_first_member(m, 2);
    lemma_first_member(m, 3);
}

fn read_release_notes(payload: &JsonValue) -> (r: Option<EmailTemplate>)
    ensures
        is_reading(r, "release_notes"@, payload@),
        forall|t: EmailTemplate|
            t is ReleaseNotes && has_real_dates(t) && payload@ == #[trigger] payload_of(t) ==> reads_back(r, t),
{
    proof {
        lemma_names_are_distinct();
    }
    let version = text_field(payload, "version");
    let title = value_field(payload, "title");
    let items = items_field(payload, "items");
    let released_on = day_field(payload, "released_on");
    let r = match (version, title, items, released_on) {
        (Some(version), Some(title), Some(items), Some(released_on)) => Some(
            EmailTemplate::ReleaseNotes { version, title, items, released_on },
        ),
        _ => None,
    };
    proof {
        assert forall|t: EmailTemplate|
            t is ReleaseNotes && has_real_dates(t) && payload@ == #[trigger] payload_of(t) implies reads_back(r, t) by {
            lemma_release_notes_payload(t);
            lemma_items_member(payload@, "items"@, release_items(t->ReleaseNotes_items@));
        }
    }
    r
}

proof fn lemma_trial_ending_payload(t: EmailTemplate)
    requires
        t is TrialEnding,
    ensures
        t matches EmailTemplate::TrialEnding { username, plan_name, ends_at } ==> {
            &&& member(payload_of(t), "ends_at"@) == Some(Json::Text(moment_json(ends_at@)))
            &&& member(payload_of(t), "plan_name"@) == Some(plan_name@)
            &&& member(payload_of(t), "username"@) == Some(Json::Text(username@))
        },
{
    let m = payload_of(t)->Object_0;
    reveal_strlit("ends_at");
    reveal_strlit("plan_name");
    reveal_strlit("username");
    assert("ends_at"@.len() != "plan_name"@.len());
    assert("ends_at"@.len() != "username"@.len());
    assert("plan_name"@.len() != "username"@.len());
    assert(m[0].0 == "ends_at"@);
    assert(m[1].0 == "plan_name"@);
    assert(m[2].0 == "username"@);
    lemma_first_member(m, 0);
    lemma_first_member(m, 1);
    lemma_first_member(m, 2);
}

fn read_trial_ending(payload: &JsonValue) -> (r: Option<EmailTemplate>)
    ensures
        is_reading(r, "trial_ending"@, payload@),
        forall|t: EmailTemplate|
            t is TrialEnding && has_real_dates(t) && payload@ == #[trigger] payload_of(t) ==> reads_back(r, t),
{
    proof {
        lemma_names_are_distinct();
    }
    let username = text_field(payload, "username");
    let plan_name = value_field(payload, "plan_name");
    let ends_at = moment_field(payload, "ends_at");
    let r = match (username, plan_name, ends_at) {
        (Some(username), Some(plan_name), Some(ends_at)) => Some(
            EmailTemplate::TrialEnding { username, plan_name, ends_at },
        ),
        _ => None,
    };
    proof {
        assert forall|t: EmailTemplate|
            t is TrialEnding && has_real_dates(t) && payload@ == #[trigger] payload_of(t) implies reads_back(r, t) by {
            lemma_trial_ending_payload(t);
        }
    }
    r
}

proof fn lemma_subscription_changed_payload(t: EmailTemplate)
    requires
        t is SubscriptionChanged,
    ensures
        t matches EmailTemplate::SubscriptionChanged { username, kind, plan_name, current_period_end } ==> {
            &&& member(payload_of(t), "current_period_end"@) == Some(json_moment(current_period_end))
            &&& member(payload_of(t), "kind"@) == Some(Json::Text(kind@))
            &&& member(payload_of(t), "plan_name"@) == Some(plan_name@)
            &&& member(payload_of(t), "username"@) == Some(Json::Text(username@))
        },
{
    let m = payload_of(t)->Object_0;
    reveal_strlit("current_period_end");
    reveal_strlit("kind");
    reveal_strlit("plan_name");
    reveal_strlit("username");
    assert("current_period_end"@.len() != "kind"@.len());
    assert("current_period_end"@.len() != "plan_name"@.len());
    assert("current_period_end"@.len() != "username"@.len());
    assert("kind"@.len() != "plan_name"@.len());
    assert("kind"@.len() != "username"@.len());
    assert("plan_name"@.len() != "username"@.len());
    assert(m[0].0 == "current_period_end"@);
    assert(m[1].0 == "kind"@);
    assert(m[2].0 == "plan_name"@);
    assert(m[3].0 == "username"@);
    lemma_first_member(m, 0);
    lemma_first_member(m, 1);
    lemma_first_member(m, 2);
    lemma_first_member(m, 3);
}

fn read_subscription_changed(payload: &JsonValue) -> (r: Option<EmailTemplate>)
    ensures
        is_reading(r, "subscription_changed"@, payload@),
        forall|t: EmailTemplate|
            t is SubscriptionChanged && has_real_dates(t) && payload@ == #[trigger] payload_of(t) ==> reads_back(r, t),
{
    proof {
        lemma_names_are_distinct();
    }
    let username = text_field(payload, "username");
    let kind = text_field(payload, "kind");
    let plan_name = value_field(payload, "plan_name");
    let current_period_end = opt_moment_field(payload, "current_period_end");
    let r = match (username, kind, plan_name, current_period_end) {
        (Some(username), Some(kind), Some(plan_name), Some(current_period_end)) => Some(
            EmailTemplate::SubscriptionChanged { username, kind, plan_name, current_period_end },
        ),
        _ => None,
    };
    proof {
        assert forall|t: EmailTemplate|
            t is SubscriptionChanged && has_real_dates(t) && payload@ == #[trigger] payload_of(t) implies reads_back(r, t) by {
            lemma_subscription_changed_payload(t);
        }
    }
    r
}

proof fn lemma_subscription_confirmed_payload(t: EmailTemplate)
    requires
        t is SubscriptionConfirmed,
    ensures
        t matches EmailTemplate::SubscriptionConfirmed { username, plan_name, amount_cents, currency, interval, next_charge_at, trial_ends_at, terms_version } ==> {
            &&& member(payload_of(t), "amount_cents"@) == Some(json_amount(amount_cents))
            &&& member(payload_of(t), "currency"@) == Some(json_text(opt_text(currency)))
            &&& member(payload_of(t), "interval"@) == Some(json_text(opt_text(interval)))
            &&& member(payload_of(t), "next_charge_at"@) == Some(json_moment(next_charge_at))
            &&& member(payload_of(t), "plan_name"@) == Some(plan_name@)
            &&& member(payload_of(t), "terms_version"@) == Some(json_text(opt_text(terms_version)))
            &&& member(payload_of(t), "trial_ends_at"@) == Some(json_moment(trial_ends_at))
            &&& member(payload_of(t), "username"@) == Some(Json::Text(username@))
        },
{
    let m = payload_of(t)->Object_0;
    reveal_strlit("amount_cents");
    reveal_strlit("currency");
    reveal_strlit("interval");
    reveal_strlit("next_charge_at");
    reveal_strlit("plan_name");
    reveal_strlit("terms_version");
    reveal_strlit("trial_ends_at");
    reveal_strlit("username");
    assert("amount_cents"@.len() != "currency"@.len());
    assert("amount_cents"@.len() != "interval"@.len());
    assert("amount_cents"@.len() != "next_charge_at"@.len());
    assert("amount_cents"@.len() != "plan_name"@.len());
    assert("amount_cents"@.len() != "terms_version"@.len());
    assert("amount_cents"@.len() != "trial_ends_at"@.len());
    assert("amount_cents"@.len() != "username"@.len());
    assert("currency"@[0] != "interval"@[0]);
    assert("currency"@.len() != "next_charge_at"@.len());
    assert("currency"@.len() != "plan_name"@.len());
    assert("currency"@.len() != "terms_version"@.len());
    assert("currency"@.len() != "trial_ends_at"@.len());
    assert("currency"@[0] != "username"@[0]);
    assert("interval"@.len() != "next_charge_at"@.len());
    assert("interval"@.len() != "plan_name"@.len());
    assert("interval"@.len() != "terms_version"@.len());
    assert("interval"@.len() != "trial_ends_at"@.len());
    assert("interval"@[0] != "username"@[0]);
    assert("next_charge_at"@.len() != "plan_name"@.len());
    assert("next_charge_at"@.len() != "terms_version"@.len());
    assert("next_charge_at"@.len() != "trial_ends_at"@.len());
    assert("next_charge_at"@.len() != "username"@.len());
    assert("plan_name"@.len() != "terms_version"@.len());
    assert("plan_name"@.len() != "trial_ends_at"@.len());
    assert("plan_name"@.len() != "username"@.len());
    assert("terms_version"@[1] != "trial_ends_at"@[1]);
    assert("terms_version"@.len() != "username"@.len());
    assert("trial_ends_at"@.len() != "username"@.len());
    assert(m[0].0 == "amount_cents"@);
    assert(m[1].0 == "currency"@);
    assert(m[2].0 == "interval"@);
    assert(m[3].0 == "next_charge_at"@);
    assert(m[4].0 == "plan_name"@);
    assert(m[5].0 == "terms_version"@);
    assert(m[6].0 == "trial_ends_at"@);
    assert(m[7].0 == "username"@);
    lemma_first_member(m, 0);
    lemma_first_member(m, 1);
    lemma_first_member(m, 2);
    lemma_first_member(m, 3);
    lemma_first_member(m, 4);
    lemma_first_member(m, 5);
    lemma_first_member(m, 6);
    lemma_first_member(m, 7);
}

fn read_subscription_confirmed(payload: &JsonValue) -> (r: Option<EmailTemplate>)
    ensures
        is_reading(r, "subscription_confirmed"@, payload@),
        forall|t: EmailTemplate|
            t is SubscriptionConfirmed && has_real_dates(t) && payload@ == #[trigger] payload_of(t) ==> reads_back(r, t),
{
    proof {
        lemma_names_are_distinct();
    }
    let username = text_field(payload, "username");
    let plan_name = value_field(payload, "plan_name");
    let amount_cents = opt_integer_field(payload, "amount_cents");
    let currency = opt_text_field(payload, "currency");
    let interval = opt_text_field(payload, "interval");
    let next_charge_at = opt_moment_field(payload, "next_charge_at");
    let trial_ends_at = opt_moment_field(payload, "trial_ends_at");
    let terms_version = opt_text_field(payload, "terms_version");
    let r = match (username, plan_name, amount_cents, currency, interval, next_charge_at, trial_ends_at, terms_version) {
        (Some(username), Some(plan_name), Some(amount_cents), Some(currency), Some(interval), Some(next_charge_at), Some(trial_ends_at), Some(terms_version)) => Some(
            EmailTemplate::SubscriptionConfirmed { username, plan_name, amount_cents, currency, interval, next_charge_at, trial_ends_at, terms_version },
        ),
        _ => None,
    };
    proof {
        assert forall|t: EmailTemplate|
            t is SubscriptionConfirmed && has_real_dates(t) && payload@ == #[trigger] payload_of(t) implies reads_back(r, t) by {
            lemma_subscription_confirmed_payload(t);
        }
    }
    r
}

proof fn lemma_paid_trial_ending_payload(t: EmailTemplate)
    requires
        t is PaidTrialEnding,
    ensures
        t matches EmailTemplate::PaidTrialEnding { username, plan_name, amount_cents, currency, interval, charge_at } ==> {
            &&& member(payload_of(t), "amount_cents"@) == Some(json_amount(amount_cents))
            &&& member(payload_of(t), "charge_at"@) == Some(Json::Text(moment_json(charge_at@)))
            &&& member(payload_of(t), "currency"@) == Some(json_text(opt_text(currency)))
            &&& member(payload_of(t), "interval"@) == Some(json_text(opt_text(interval)))
            &&& member(payload_of(t), "plan_name"@) == Some(plan_name@)
            &&& member(payload_of(t), "username"@) == Some(Json::Text(username@))
        },
{
    let m = payload_of(t)->Object_0;
    reveal_strlit("amount_cents");
    reveal_strlit("charge_at");
    reveal_strlit("currency");
    reveal_strlit("interval");
    reveal_strlit("plan_name");
    reveal_strlit("username");
    assert("amount_cents"@.len() != "charge_at"@.len());
    assert("amount_cents"@.len() != "currency"@.len());
    assert("amount_cents"@.len() != "interval"@.len());
    assert("amount_cents"@.len() != "plan_name"@.len());
    assert("amount_cents"@.len() != "username"@.len());
    assert("charge_at"@.len() != "currency"@.len());
    assert("charge_at"@.len() != "interval"@.len());
    assert("charge_at"@[0] != "plan_name"@[0]);
    assert("charge_at"@.len() != "username"@.len());
    assert("currency"@[0] != "interval"@[0]);
    assert("currency"@.len() != "plan_name"@.len());
    assert("currency"@[0] != "username"@[0]);
    assert("interval"@.len() != "plan_name"@.len());
    assert("interval"@[0] != "username"@[0]);
    assert("plan_name"@.len() != "username"@.len());
    assert(m[0].0 == "amount_cents"@);
    assert(m[1].0 == "charge_at"@);
    assert(m[2].0 == "currency"@);
    assert(m[3].0 == "interval"@);
    assert(m[4].0 == "plan_name"@);
    assert(m[5].0 == "username"@);
    lemma_first_member(m, 0);
    lemma_first_member(m, 1);
    lemma_first_member(m, 2);
    lemma_first_member(m, 3);
    lemma_first_member(m, 4);
    lemma_first_member(m, 5);
}

fn read_paid_trial_ending(payload: &JsonValue) -> (r: Option<EmailTemplate>)
    ensures
        is_reading(r, "paid_trial_ending"@, payload@),
        forall|t: EmailTemplate|
            t is PaidTrialEnding && has_real_dates(t) && payload@ == #[trigger] payload_of(t) ==> reads_back(r, t),
{
    proof {
        lemma_names_are_distinct();
    }
    let username = text_field(payload, "username");
    let plan_name = value_field(payload, "plan_name");
    let amount_cents = opt_integer_field(payload, "amount_cents");
    let currency = opt_text_field(payload, "currency");
    let interval = opt_text_field(payload, "interval");
    let charge_at = moment_field(payload, "charge_at");
    let r = match (username, plan_name, amount_cents, currency, interval, charge_at) {
        (Some(username), Some(plan_name), Some(amount_cents), Some(currency), Some(interval), Some(charge_at)) => Some(
            EmailTemplate::PaidTrialEnding { username, plan_name, amount_cents, currency, interval, charge_at },
        ),
        _ => None,
    };
    proof {
        assert forall|t: EmailTemplate|
            t is PaidTrialEnding && has_real_dates(t) && payload@ == #[trigger] payload_of(t) implies reads_back(r, t) by {
            lemma_paid_trial_ending_payload(t);
        }
    }
    r
}

proof fn lemma_renewal_reminder_payload(t: EmailTemplate)
    requires
        t is RenewalReminder,
    ensures
        t matches EmailTemplate::RenewalReminder { username, plan_name, amount_cents, currency, renews_at } ==> {
            &&& member(payload_of(t), "amount_cents"@) == Some(json_amount(amount_cents))
            &&& member(payload_of(t), "currency"@) == Some(json_text(opt_text(currency)))
            &&& member(payload_of(t), "plan_name"@) == Some(plan_name@)
            &&& member(payload_of(t), "renews_at"@) == Some(Json::Text(moment_json(renews_at@)))
            &&& member(payload_of(t), "username"@) == Some(Json::Text(username@))
        },
{
    let m = payload_of(t)->Object_0;
    reveal_strlit("amount_cents");
    reveal_strlit("currency");
    reveal_strlit("plan_name");
    reveal_strlit("renews_at");
    reveal_strlit("username");
    assert("amount_cents"@.len() != "currency"@.len());
    assert("amount_cents"@.len() != "plan_name"@.len());
    assert("amount_cents"@.len() != "renews_at"@.len());
    assert("amount_cents"@.len() != "username"@.len());
    assert("currency"@.len() != "plan_name"@.len());
    assert("currency"@.len() != "renews_at"@.len());
    assert("currency"@[0] != "username"@[0]);
    assert("plan_name"@[0] != "renews_at"@[0]);
    assert("plan_name"@.len() != "username"@.len());
    assert("renews_at"@.len() != "username"@.len());
    assert(m[0].0 == "amount_cents"@);
    assert(m[1].0 == "currency"@);
    assert(m[2].0 == "plan_name"@);
    assert(m[3].0 == "renews_at"@);
    assert(m[4].0 == "username"@);
    lemma_first_member(m, 0);
    lemma_first_member(m, 1);
    lemma_first_member(m, 2);
    lemma_first_member(m, 3);
    lemma_first_member(m, 4);
}

fn read_renewal_reminder(payload: &JsonValue) -> (r: Option<EmailTemplate>)
    ensures
        is_reading(r, "renewal_reminder"@, payload@),
        forall|t: EmailTemplate|
            t is RenewalReminder && has_real_dates(t) && payload@ == #[trigger] payload_of(t) ==> reads_back(r, t),
{
    proof {
        lemma_names_are_distinct();
    }
    let username = text_field(payload, "username");
    let plan_name = value_field(payload, "plan_name");
    let amount_cents = opt_integer_field(payload, "amount_cents");
    let currency = opt_text_field(payload, "currency");
    let renews_at = moment_field(payload, "renews_at");
    let r = match (username, plan_name, amount_cents, currency, renews_at) {
        (Some(username), Some(plan_name), Some(amount_cents), Some(currency), Some(renews_at)) => Some(
            EmailTemplate::RenewalReminder { username, plan_name, amount_cents, currency, renews_at },
        ),
        _ => None,
    };
    proof {
        assert forall|t: EmailTemplate|
            t is RenewalReminder && has_real_dates(t) && payload@ == #[trigger] payload_of(t) implies reads_back(r, t) by {
            lemma_renewal_reminder_payload(t);
        }
    }
    r
}

proof fn lemma_withdrawal_confirmed_payload(t: EmailTemplate)
    requires
        t is WithdrawalConfirmed,
    ensures
        t matches EmailTemplate::WithdrawalConfirmed { username, plan_name, refunded_cents, currency, requested_at, by_staff } ==> {
            &&& member(payload_of(t), "by_staff"@) == Some(Json::Bool(by_staff))
            &&& member(payload_of(t), "currency"@) == Some(Json::Text(currency@))
            &&& member(payload_of(t), "plan_name"@) == Some(plan_name@)
            &&& member(payload_of(t), "refunded_cents"@) == Some(json_number(refunded_cents as int))
            &&& member(payload_of(t), "requested_at"@) == Some(Json::Text(moment_json(requested_at@)))
            &&& member(payload_of(t), "username"@) == Some(Json::Text(username@))
        },
{
    let m = payload_of(t)->Object_0;
    reveal_strlit("by_staff");
    reveal_strlit("currency");
    reveal_strlit("plan_name");
    reveal_strlit("refunded_cents");
    reveal_strlit("requested_at");
    reveal_strlit("username");
    assert("by_staff"@[0] != "currency"@[0]);
    assert("by_staff"@.len() != "plan_name"@.len());
    assert("by_staff"@.len() != "refunded_cents"@.len());
    assert("by_staff"@.len() != "requested_at"@.len());
    assert("by_staff"@[0] != "username"@[0]);
    assert("currency"@.len() != "plan_name"@.len());
    assert("currency"@.len() != "refunded_cents"@.len());
    assert("currency"@.len() != "requested_at"@.len());
    assert("currency"@[0] != "username"@[0]);
    assert("plan_name"@.len() != "refunded_cents"@.len());
    assert("plan_name"@.len() != "requested_at"@.len());
    assert("plan_name"@.len() != "username"@.len());
    assert("refunded_cents"@.len() != "requested_at"@.len());
    assert("refunded_cents"@.len() != "username"@.len());
    assert("requested_at"@.len() != "username"@.len());
    assert(m[0].0 == "by_staff"@);
    assert(m[1].0 == "currency"@);
    assert(m[2].0 == "plan_name"@);
    assert(m[3].0 == "refunded_cents"@);
    assert(m[4].0 == "requested_at"@);
    assert(m[5].0 == "username"@);
    lemma_first_member(m, 0);
    lemma_first_member(m, 1);
    lemma_first_member(m, 2);
    lemma_first_member(m, 3);
    lemma_first_member(m, 4);
    lemma_first_member(m, 5);
}

fn read_withdrawal_confirmed(payload: &JsonValue) -> (r: Option<EmailTemplate>)
    ensures
        is_reading(r, "withdrawal_confirmed"@, payload@),
        forall|t: EmailTemplate|
            t is WithdrawalConfirmed && has_real_dates(t) && payload@ == #[trigger] payload_of(t) ==> reads_back(r, t),
{
    proof {
        lemma_names_are_distinct();
    }
    let username = text_field(payload, "username");
    let plan_name = value_field(payload, "plan_name");
    let refunded_cents = integer_field(payload, "refunded_cents");
    let currency = text_field(payload, "currency");
    let requested_at = moment_field(payload, "requested_at");
    let by_staff = flag_field(payload, "by_staff", false);
    let r = match (username, plan_name, refunded_cents, currency, requested_at, by_staff) {
        (Some(username), Some(plan_name), Some(refunded_cents), Some(currency), Some(requested_at), Some(by_staff)) => Some(
            EmailTemplate::WithdrawalConfirmed { username, plan_name, refunded_cents, currency, requested_at, by_staff },
        ),
        _ => None,
    };
    proof {
        assert forall|t: EmailTemplate|
            t is WithdrawalConfirmed && has_real_dates(t) && payload@ == #[trigger] payload_of(t) implies reads_back(r, t) by {
            lemma_withdrawal_confirmed_payload(t);
        }
    }
    r
}

proof fn lemma_payment_disputed_payload(t: EmailTemplate)
    requires
        t is PaymentDisputed,
    ensures
        t matches EmailTemplate::PaymentDisputed { username, plan_name } ==> {
            &&& member(payload_of(t), "plan_name"@) == Some(plan_name@)
            &&& member(payload_of(t), "username"@) == Some(Json::Text(username@))
        },
{
    let m = payload_of(t)->Object_0;
    reveal_strlit("plan_name");
    reveal_strlit("username");
    assert("plan_name"@.len() != "username"@.len());
    assert(m[0].0 == "plan_name"@);
    assert(m[1].0 == "username"@);
    lemma_first_member(m, 0);
    lemma_first_member(m, 1);
}

fn read_payment_disputed(payload: &JsonValue) -> (r: Option<EmailTemplate>)
    ensures
        is_reading(r, "payment_disputed"@, payload@),
        forall|t: EmailTemplate|
            t is PaymentDisputed && has_real_dates(t) && payload@ == #[trigger] payload_of(t) ==> reads_back(r, t),
{
    proof {
        lemma_names_are_distinct();
    }
    let username = text_field(payload, "username");
    let plan_name = value_field(payload, "plan_name");
    let r = match (username, plan_name) {
        (Some(username), Some(plan_name)) => Some(
            EmailTemplate::PaymentDisputed { username, plan_name },
        ),
        _ => None,
    };
    proof {
        assert forall|t: EmailTemplate|
            t is PaymentDisputed && has_real_dates(t) && payload@ == #[trigger] payload_of(t) implies reads_back(r, t) by {
            lemma_payment_disputed_payload(t);
        }
    }
    r
}

proof fn lemma_price_change_payload(t: EmailTemplate)
    requires
        t is PriceChange,
    ensures
        t matches EmailTemplate::PriceChange { username, plan_name, interval, old_amount_cents, new_amount_cents, currency, effective_at } ==> {
            &&& member(payload_of(t), "currency"@) == Some(json_text(opt_text(currency)))
            &&& member(payload_of(t), "effective_at"@) == Some(Json::Text(moment_json(effective_at@)))
            &&& member(payload_of(t), "interval"@) == Some(json_text(opt_text(interval)))
            &&& member(payload_of(t), "new_amount_cents"@) == Some(json_number(new_amount_cents as int))
            &&& member(payload_of(t), "old_amount_cents"@) == Some(json_amount(old_amount_cents))
            &&& member(payload_of(t), "plan_name"@) == Some(plan_name@)
            &&& member(payload_of(t), "username"@) == Some(Json::Text(username@))
        },
{
    let m = payload_of(t)->Object_0;
    reveal_strlit("currency");
    reveal_strlit("effective_at");
    reveal_strlit("interval");
    reveal_strlit("new_amount_cents");
    reveal_strlit("old_amount_cents");
    reveal_strlit("plan_name");
    reveal_strlit("username");
    assert("currency"@.len() != "effective_at"@.len());
    assert("currency"@[0] != "interval"@[0]);
    assert("currency"@.len() != "new_amount_cents"@.len());
    assert("currency"@.len() != "old_amount_cents"@.len());
    assert("currency"@.len() != "plan_name"@.len());
    assert("currency"@[0] != "username"@[0]);
    assert("effective_at"@.len() != "interval"@.len());
    assert("effective_at"@.len() != "new_amount_cents"@.len());
    assert("effective_at"@.len() != "old_amount_cents"@.len());
    assert("effective_at"@.len() != "plan_name"@.len());
    assert("effective_at"@.len() != "username"@.len());
    assert("interval"@.len() != "new_amount_cents"@.len());
    assert("interval"@.len() != "old_amount_cents"@.len());
    assert("interval"@.len() != "plan_name"@.len());
    assert("interval"@[0] != "username"@[0]);
    assert("new_amount_cents"@[0] != "old_amount_cents"@[0]);
    assert("new_amount_cents"@.len() != "plan_name"@.len());
    assert("new_amount_cents"@.len() != "username"@.len());
    assert("old_amount_cents"@.len() != "plan_name"@.len());
    assert("old_amount_cents"@.len() != "username"@.len());
    assert("plan_name"@.len() != "username"@.len());
    assert(m[0].0 == "currency"@);
    assert(m[1].0 == "effective_at"@);
    assert(m[2].0 == "interval"@);
    assert(m[3].0 == "new_amount_cents"@);
    assert(m[4].0 == "old_amount_cents"@);
    assert(m[5].0 == "plan_name"@);
    assert(m[6].0 == "username"@);
    lemma_first_member(m, 0);
    lemma_first_member(m, 1);
    lemma_first_member(m, 2);
    lemma_first_member(m, 3);
    lemma_first_member(m, 4);
    lemma_first_member(m, 5);
    lemma_first_member(m, 6);
}

fn read_price_change(payload: &JsonValue) -> (r: Option<EmailTemplate>)
    ensures
        is_reading(r, "price_change"@, payload@),
        forall|t: EmailTemplate|
            t is PriceChange && has_real_dates(t) && payload@ == #[trigger] payload_of(t) ==> reads_back(r, t),
{
    proof {
        lemma_names_are_distinct();
    }
    let username = text_field(payload, "username");
    let plan_name = value_field(payload, "plan_name");
    let interval = opt_text_field(payload, "interval");
    let old_amount_cents = opt_integer_field(payload, "old_amount_cents");
    let new_amount_cents = integer_field(payload, "new_amount_cents");
    let currency = opt_text_field(payload, "currency");
    let effective_at = moment_field(payload, "effective_at");
    let r = match (username, plan_name, interval, old_amount_cents, new_amount_cents, currency, effective_at) {
        (Some(username), Some(plan_name), Some(interval), Some(old_amount_cents), Some(new_amount_cents), Some(currency), Some(effective_at)) => Some(
            EmailTemplate::PriceChange { username, plan_name, interval, old_amount_cents, new_amount_cents, currency, effective_at },
        ),
        _ => None,
    };
    proof {
        assert forall|t: EmailTemplate|
            t is PriceChange && has_real_dates(t) && payload@ == #[trigger] payload_of(t) implies reads_back(r, t) by {
            lemma_price_change_payload(t);
        }
    }
    r
}

proof fn lemma_welcome_payload(t: EmailTemplate)
    requires
        t is Welcome,
    ensures
        t matches EmailTemplate::Welcome { username } ==> {
            &&& member(payload_of(t), "username"@) == Some(Json::Text(username@))
        },
{
    let m = payload_of(t)->Object_0;
    reveal_strlit("username");
    assert(m[0].0 == "username"@);
    lemma_first_member(m, 0);
}

fn read_welcome(payload: &JsonValue) -> (r: Option<EmailTemplate>)
    ensures
        is_reading(r, "welcome"@, payload@),
        forall|t: EmailTemplate|
            t is Welcome && has_real_dates(t) && payload@ == #[trigger] payload_of(t) ==> reads_back(r, t),
{
    proof {
        lemma_names_are_distinct();
    }
    let username = text_field(payload, "username");
    let r = match username {
        Some(username) => Some(EmailTemplate::Welcome { username }),
        None => None,
    };
    proof {
        assert forall|t: EmailTemplate|
            t is Welcome && has_real_dates(t) && payload@ == #[trigger] payload_of(t) implies reads_back(r, t) by {
            lemma_welcome_payload(t);
        }
    }
    r
}

proof fn lemma_reauth_code_payload(t: EmailTemplate)
    requires
        t is ReauthCode,
    ensures
        t matches EmailTemplate::ReauthCode { username, code, expires_minutes } ==> {
            &&& member(payload_of(t), "code"@) == Some(Json::Text(code@))
            &&& member(payload_of(t), "expires_minutes"@) == Some(json_number(expires_minutes as int))
            &&& member(payload_of(t), "username"@) == Some(Json::Text(username@))
        },
{
    let m = payload_of(t)->Object_0;
    reveal_strlit("code");
    reveal_strlit("expires_minutes");
    reveal_strlit("username");
    assert("code"@.len() != "expires_minutes"@.len());
    assert("code"@.len() != "username"@.len());
    assert("expires_minutes"@.len() != "username"@.len());
    assert(m[0].0 == "code"@);
    assert(m[1].0 == "expires_minutes"@);
    assert(m[2].0 == "username"@);
    lemma_first_member(m, 0);
    lemma_first_member(m, 1);
    lemma_first_member(m, 2);
}

fn read_reauth_code(payload: &JsonValue) -> (r: Option<EmailTemplate>)
    ensures
        is_reading(r, "reauth_code"@, payload@),
        forall|t: EmailTemplate|
            t is ReauthCode && has_real_dates(t) && payload@ == #[trigger] payload_of(t) ==> reads_back(r, t),
{
    proof {
        lemma_names_are_distinct();
    }
    let username = text_field(payload, "username");
    let code = text_field(payload, "code");
    let expires_minutes = integer_field(payload, "expires_minutes");
    let r = match (username, code, expires_minutes) {
        (Some(username), Some(code), Some(expires_minutes)) => Some(
            EmailTemplate::ReauthCode { username, code, expires_minutes },
        ),
        _ => None,
    };
    proof {
        assert forall|t: EmailTemplate|
            t is ReauthCode && has_real_dates(t) && payload@ == #[trigger] payload_of(t) implies reads_back(r, t) by {
            lemma_reauth_code_payload(t);
        }
    }
    r
}

proof fn lemma_security_notice_payload(t: EmailTemplate)
    requires
        t is SecurityNotice,
    ensures
        t matches EmailTemplate::SecurityNotice { username, kind, detail } ==> {
            &&& member(payload_of(t), "detail"@) == Some(json_text(opt_text(detail)))
            &&& member(payload_of(t), "kind"@) == Some(Json::Text(kind@))
            &&& member(payload_of(t), "username"@) == Some(Json::Text(username@))
        },
{
    let m = payload_of(t)->Object_0;
    reveal_strlit("detail");
    reveal_strlit("kind");
    reveal_strlit("username");
    assert("detail"@.len() != "kind"@.len());
    assert("detail"@.len() != "username"@.len());
    assert("kind"@.len() != "username"@.len());
    assert(m[0].0 == "detail"@);
    assert(m[1].0 == "kind"@);
    assert(m[2].0 == "username"@);
    lemma_first_member(m, 0);
    lemma_first_member(m, 1);
    lemma_first_member(m, 2);
}

fn read_security_notice(payload: &JsonValue) -> (r: Option<EmailTemplate>)
    ensures
        is_reading(r, "security_notice"@, payload@),
        forall|t: EmailTemplate|
            t is SecurityNotice && has_real_dates(t) && payload@ == #[trigger] payload_of(t) ==> reads_back(r, t),
{
    proof {
        lemma_names_are_distinct();
    }
    let username = text_field(payload, "username");
    let kind = text_field(payload, "kind");
    let detail = opt_text_field(payload, "detail");
    let r = match (username, kind, detail) {
        (Some(username), Some(kind), Some(detail)) => Some(
            EmailTemplate::SecurityNotice { username, kind, detail },
        ),
        _ => None,
    };
    proof {
        assert forall|t: EmailTemplate|
            t is SecurityNotice && has_real_dates(t) && payload@ == #[trigger] payload_of(t) implies reads_back(r, t) by {
            lemma_security_notice_payload(t);
        }
    }
    r
}

/// A list of texts reads as what was written.
proof fn lemma_texts_member(v: Json, key: Seq<char>, list: Seq<Seq<char>>)
    requires
        member(v, key) == Some(json_texts(list)),
    ensures
        texts_member(v, key) == Some(list),
{
    let a = json_texts(list)->Array_0;
    assert(Seq::new(a.len(), |i: int| a[i]->Text_0) =~= list);
}

/// The items of a release read as what was written.
proof fn lemma_items_member(v: Json, key: Seq<char>, list: Seq<(Seq<char>, Json)>)
    requires
        member(v, key) == Some(json_items(list)),
    ensures
        items_member(v, key) == Some(list),
{
    let a = json_items(list)->Array_0;
    reveal_strlit("kind");
    reveal_strlit("text");
    assert("kind"@[0] != "text"@[0]);
    assert forall|i: int| 0 <= i < a.len() implies item_in(#[trigger] a[i]) == Some(list[i]) by {
        let m = a[i]->Object_0;
        lemma_first_member(m, 0);
        lemma_first_member(m, 1);
    }
    assert(Seq::new(a.len(), |i: int| item_in(a[i])->0) =~= list);
}

/// No two templates have the same name.
proof fn lemma_names_are_distinct()
    ensures
        "email_verification_code"@ != "password_reset_code"@,
        "email_verification_code"@ != "email_change_code"@,
        "email_verification_code"@ != "password_changed"@,
        "email_verification_code"@ != "two_factor_enabled"@,
        "email_verification_code"@ != "two_factor_disabled"@,
        "email_verification_code"@ != "email_changed_notice"@,
        "email_verification_code"@ != "account_deleted"@,
        "email_verification_code"@ != "notification"@,
        "email_verification_code"@ != "announcement"@,
        "email_verification_code"@ != "release_notes"@,
        "email_verification_code"@ != "trial_ending"@,
        "email_verification_code"@ != "subscription_changed"@,
        "email_verification_code"@ != "subscription_confirmed"@,
        "email_verification_code"@ != "paid_trial_ending"@,
        "email_verification_code"@ != "renewal_reminder"@,
        "email_verification_code"@ != "withdrawal_confirmed"@,
        "email_verification_code"@ != "payment_disputed"@,
        "email_verification_code"@ != "price_change"@,
        "email_verification_code"@ != "welcome"@,
        "email_verification_code"@ != "reauth_code"@,
        "email_verification_code"@ != "security_notice"@,
        "password_reset_code"@ != "email_change_code"@,
        "password_reset_code"@ != "password_changed"@,
        "password_reset_code"@ != "two_factor_enabled"@,
        "password_reset_code"@ != "two_factor_disabled"@,
        "password_reset_code"@ != "email_changed_notice"@,
        "password_reset_code"@ != "account_deleted"@,
        "password_reset_code"@ != "notification"@,
        "password_reset_code"@ != "announcement"@,
        "password_reset_code"@ != "release_notes"@,
        "password_reset_code"@ != "trial_ending"@,
        "password_reset_code"@ != "subscription_changed"@,
        "password_reset_code"@ != "subscription_confirmed"@,
        "password_reset_code"@ != "paid_trial_ending"@,
        "password_reset_code"@ != "renewal_reminder"@,
        "password_reset_code"@ != "withdrawal_confirmed"@,
        "password_reset_code"@ != "payment_disputed"@,
        "password_reset_code"@ != "price_change"@,
        "password_reset_code"@ != "welcome"@,
        "password_reset_code"@ != "reauth_code"@,
        "password_reset_code"@ != "security_notice"@,
        "email_change_code"@ != "password_changed"@,
        "email_change_code"@ != "two_factor_enabled"@,
        "email_change_code"@ != "two_factor_disabled"@,
        "email_change_code"@ != "email_changed_notice"@,
        "email_change_code"@ != "account_deleted"@,
        "email_change_code"@ != "notification"@,
        "email_change_code"@ != "announcement"@,
        "email_change_code"@ != "release_notes"@,
        "email_change_code"@ != "trial_ending"@,
        "email_change_code"@ != "subscription_changed"@,
        "email_change_code"@ != "subscription_confirmed"@,
        "email_change_code"@ != "paid_trial_ending"@,
        "email_change_code"@ != "renewal_reminder"@,
        "email_change_code"@ != "withdrawal_confirmed"@,
        "email_change_code"@ != "payment_disputed"@,
        "email_change_code"@ != "price_change"@,
        "email_change_code"@ != "welcome"@,
        "email_change_code"@ != "reauth_code"@,
        "email_change_code"@ != "security_notice"@,
        "password_changed"@ != "two_factor_enabled"@,
        "password_changed"@ != "two_factor_disabled"@,
        "password_changed"@ != "email_changed_notice"@,
        "password_changed"@ != "account_deleted"@,
        "password_changed"@ != "notification"@,
        "password_changed"@ != "announcement"@,
        "password_changed"@ != "release_notes"@,
        "password_changed"@ != "trial_ending"@,
        "password_changed"@ != "subscription_changed"@,
        "password_changed"@ != "subscription_confirmed"@,
        "password_changed"@ != "paid_trial_ending"@,
        "password_changed"@ != "renewal_reminder"@,
        "password_changed"@ != "withdrawal_confirmed"@,
        "password_changed"@ != "payment_disputed"@,
        "password_changed"@ != "price_change"@,
        "password_changed"@ != "welcome"@,
        "password_changed"@ != "reauth_code"@,
        "password_changed"@ != "security_notice"@,
        "two_factor_enabled"@ != "two_factor_disabled"@,
        "two_factor_enabled"@ != "email_changed_notice"@,
        "two_factor_enabled"@ != "account_deleted"@,
        "two_factor_enabled"@ != "notification"@,
        "two_factor_enabled"@ != "announcement"@,
        "two_factor_enabled"@ != "release_notes"@,
        "two_factor_enabled"@ != "trial_ending"@,
        "two_factor_enabled"@ != "subscription_changed"@,
        "two_factor_enabled"@ != "subscription_confirmed"@,
        "two_factor_enabled"@ != "paid_trial_ending"@,
        "two_factor_enabled"@ != "renewal_reminder"@,
        "two_factor_enabled"@ != "withdrawal_confirmed"@,
        "two_factor_enabled"@ != "payment_disputed"@,
        "two_factor_enabled"@ != "price_change"@,
        "two_factor_enabled"@ != "welcome"@,
        "two_factor_enabled"@ != "reauth_code"@,
        "two_factor_enabled"@ != "security_notice"@,
        "two_factor_disabled"@ != "email_changed_notice"@,
        "two_factor_disabled"@ != "account_deleted"@,
        "two_factor_disabled"@ != "notification"@,
        "two_factor_disabled"@ != "announcement"@,
        "two_factor_disabled"@ != "release_notes"@,
        "two_factor_disabled"@ != "trial_ending"@,
        "two_factor_disabled"@ != "subscription_changed"@,
        "two_factor_disabled"@ != "subscription_confirmed"@,
        "two_factor_disabled"@ != "paid_trial_ending"@,
        "two_factor_disabled"@ != "renewal_reminder"@,
        "two_factor_disabled"@ != "withdrawal_confirmed"@,
        "two_factor_disabled"@ != "payment_disputed"@,
        "two_factor_disabled"@ != "price_change"@,
        "two_factor_disabled"@ != "welcome"@,
        "two_factor_disabled"@ != "reauth_code"@,
        "two_factor_disabled"@ != "security_notice"@,
        "email_changed_notice"@ != "account_deleted"@,
        "email_changed_notice"@ != "notification"@,
        "email_changed_notice"@ != "announcement"@,
        "email_changed_notice"@ != "release_notes"@,
        "email_changed_notice"@ != "trial_ending"@,
        "email_changed_notice"@ != "subscription_changed"@,
        "email_changed_notice"@ != "subscription_confirmed"@,
        "email_changed_notice"@ != "paid_trial_ending"@,
        "email_changed_notice"@ != "renewal_reminder"@,
        "email_changed_notice"@ != "withdrawal_confirmed"@,
        "email_changed_notice"@ != "payment_disputed"@,
        "email_changed_notice"@ != "price_change"@,
        "email_changed_notice"@ != "welcome"@,
        "email_changed_notice"@ != "reauth_code"@,
        "email_changed_notice"@ != "security_notice"@,
        "account_deleted"@ != "notification"@,
        "account_deleted"@ != "announcement"@,
        "account_deleted"@ != "release_notes"@,
        "account_deleted"@ != "trial_ending"@,
        "account_deleted"@ != "subscription_changed"@,
        "account_deleted"@ != "subscription_confirmed"@,
        "account_deleted"@ != "paid_trial_ending"@,
        "account_deleted"@ != "renewal_reminder"@,
        "account_deleted"@ != "withdrawal_confirmed"@,
        "account_deleted"@ != "payment_disputed"@,
        "account_deleted"@ != "price_change"@,
        "account_deleted"@ != "welcome"@,
        "account_deleted"@ != "reauth_code"@,
        "account_deleted"@ != "security_notice"@,
        "notification"@ != "announcement"@,
        "notification"@ != "release_notes"@,
        "notification"@ != "trial_ending"@,
        "notification"@ != "subscription_changed"@,
        "notification"@ != "subscription_confirmed"@,
        "notification"@ != "paid_trial_ending"@,
        "notification"@ != "renewal_reminder"@,
        "notification"@ != "withdrawal_confirmed"@,
        "notification"@ != "payment_disputed"@,
        "notification"@ != "price_change"@,
        "notification"@ != "welcome"@,
        "notification"@ != "reauth_code"@,
        "notification"@ != "security_notice"@,
        "announcement"@ != "release_notes"@,
        "announcement"@ != "trial_ending"@,
        "announcement"@ != "subscription_changed"@,
        "announcement"@ != "subscription_confirmed"@,
        "announcement"@ != "paid_trial_ending"@,
        "announcement"@ != "renewal_reminder"@,
        "announcement"@ != "withdrawal_confirmed"@,
        "announcement"@ != "payment_disputed"@,
        "announcement"@ != "price_change"@,
        "announcement"@ != "welcome"@,
        "announcement"@ != "reauth_code"@,
        "announcement"@ != "security_notice"@,
        "release_notes"@ != "trial_ending"@,
        "release_notes"@ != "subscription_changed"@,
        "release_notes"@ != "subscription_confirmed"@,
        "release_notes"@ != "paid_trial_ending"@,
        "release_notes"@ != "renewal_reminder"@,
        "release_notes"@ != "withdrawal_confirmed"@,
        "release_notes"@ != "payment_disputed"@,
        "release_notes"@ != "price_change"@,
        "release_notes"@ != "welcome"@,
        "release_notes"@ != "reauth_code"@,
        "release_notes"@ != "security_notice"@,
        "trial_ending"@ != "subscription_changed"@,
        "trial_ending"@ != "subscription_confirmed"@,
        "trial_ending"@ != "paid_trial_ending"@,
        "trial_ending"@ != "renewal_reminder"@,
        "trial_ending"@ != "withdrawal_confirmed"@,
        "trial_ending"@ != "payment_disputed"@,
        "trial_ending"@ != "price_change"@,
        "trial_ending"@ != "welcome"@,
        "trial_ending"@ != "reauth_code"@,
        "trial_ending"@ != "security_notice"@,
        "subscription_changed"@ != "subscription_confirmed"@,
        "subscription_changed"@ != "paid_trial_ending"@,
        "subscription_changed"@ != "renewal_reminder"@,
        "subscription_changed"@ != "withdrawal_confirmed"@,
        "subscription_changed"@ != "payment_disputed"@,
        "subscription_changed"@ != "price_change"@,
        "subscription_changed"@ != "welcome"@,
        "subscription_changed"@ != "reauth_code"@,
        "subscription_changed"@ != "security_notice"@,
        "subscription_confirmed"@ != "paid_trial_ending"@,
        "subscription_confirmed"@ != "renewal_reminder"@,
        "subscription_confirmed"@ != "withdrawal_confirmed"@,
        "subscription_confirmed"@ != "payment_disputed"@,
        "subscription_confirmed"@ != "price_change"@,
        "subscription_confirmed"@ != "welcome"@,
        "subscription_confirmed"@ != "reauth_code"@,
        "subscription_confirmed"@ != "security_notice"@,
        "paid_trial_ending"@ != "renewal_reminder"@,
        "paid_trial_ending"@ != "withdrawal_confirmed"@,
        "paid_trial_ending"@ != "payment_disputed"@,
        "paid_trial_ending"@ != "price_change"@,
        "paid_trial_ending"@ != "welcome"@,
        "paid_trial_ending"@ != "reauth_code"@,
        "paid_trial_ending"@ != "security_notice"@,
        "renewal_reminder"@ != "withdrawal_confirmed"@,
        "renewal_reminder"@ != "payment_disputed"@,
        "renewal_reminder"@ != "price_change"@,
        "renewal_reminder"@ != "welcome"@,
        "renewal_reminder"@ != "reauth_code"@,
        "renewal_reminder"@ != "security_notice"@,
        "withdrawal_confirmed"@ != "payment_disputed"@,
        "withdrawal_confirmed"@ != "price_change"@,
        "withdrawal_confirmed"@ != "welcome"@,
        "withdrawal_confirmed"@ != "reauth_code"@,
        "withdrawal_confirmed"@ != "security_notice"@,
        "payment_disputed"@ != "price_change"@,
        "payment_disputed"@ != "welcome"@,
        "payment_disputed"@ != "reauth_code"@,
        "payment_disputed"@ != "security_notice"@,
        "price_change"@ != "welcome"@,
        "price_change"@ != "reauth_code"@,
        "price_change"@ != "security_notice"@,
        "welcome"@ != "reauth_code"@,
        "welcome"@ != "security_notice"@,
        "reauth_code"@ != "security_notice"@,
{
    reveal_strlit("email_verification_code");
    reveal_strlit("password_reset_code");
    reveal_strlit("email_change_code");
    reveal_strlit("password_changed");
    reveal_strlit("two_factor_enabled");
    reveal_strlit("two_factor_disabled");
    reveal_strlit("email_changed_notice");
    reveal_strlit("account_deleted");
    reveal_strlit("notification");
    reveal_strlit("announcement");
    reveal_strlit("release_notes");
    reveal_strlit("trial_ending");
    reveal_strlit("subscription_changed");
    reveal_strlit("subscription_confirmed");
    reveal_strlit("paid_trial_ending");
    reveal_strlit("renewal_reminder");
    reveal_strlit("withdrawal_confirmed");
    reveal_strlit("payment_disputed");
    reveal_strlit("price_change");
    reveal_strlit("welcome");
    reveal_strlit("reauth_code");
    reveal_strlit("security_notice");
    assert("email_verification_code"@.len() != "password_reset_code"@.len());
    assert("email_verification_code"@.len() != "email_change_code"@.len());
    assert("email_verification_code"@.len() != "password_changed"@.len());
    assert("email_verification_code"@.len() != "two_factor_enabled"@.len());
    assert("email_verification_code"@.len() != "two_factor_disabled"@.len());
    assert("email_verification_code"@.len() != "email_changed_notice"@.len());
    assert("email_verification_code"@.len() != "account_deleted"@.len());
    assert("email_verification_code"@.len() != "notification"@.len());
    assert("email_verification_code"@.len() != "announcement"@.len());
    assert("email_verification_code"@.len() != "release_notes"@.len());
    assert("email_verification_code"@.len() != "trial_ending"@.len());
    assert("email_verification_code"@.len() != "subscription_changed"@.len());
    assert("email_verification_code"@.len() != "subscription_confirmed"@.len());
    assert("email_verification_code"@.len() != "paid_trial_ending"@.len());
    assert("email_verification_code"@.len() != "renewal_reminder"@.len());
    assert("email_verification_code"@.len() != "withdrawal_confirmed"@.len());
    assert("email_verification_code"@.len() != "payment_disputed"@.len());
    assert("email_verification_code"@.len() != "price_change"@.len());
    assert("email_verification_code"@.len() != "welcome"@.len());
    assert("email_verification_code"@.len() != "reauth_code"@.len());
    assert("email_verification_code"@.len() != "security_notice"@.len());
    assert("password_reset_code"@.len() != "email_change_code"@.len());
    assert("password_reset_code"@.len() != "password_changed"@.len());
    assert("password_reset_code"@.len() != "two_factor_enabled"@.len());
    assert("password_reset_code"@[0] != "two_factor_disabled"@[0]);
    assert("password_reset_code"@.len() != "email_changed_notice"@.len());
    assert("password_reset_code"@.len() != "account_deleted"@.len());
    assert("password_reset_code"@.len() != "notification"@.len());
    assert("password_reset_code"@.len() != "announcement"@.len());
    assert("password_reset_code"@.len() != "release_notes"@.len());
    assert("password_reset_code"@.len() != "trial_ending"@.len());
    assert("password_reset_code"@.len() != "subscription_changed"@.len());
    assert("password_reset_code"@.len() != "subscription_confirmed"@.len());
    assert("password_reset_code"@.len() != "paid_trial_ending"@.len());
    assert("password_reset_code"@.len() != "renewal_reminder"@.len());
    assert("password_reset_code"@.len() != "withdrawal_confirmed"@.len());
    assert("password_reset_code"@.len() != "payment_disputed"@.len());
    assert("password_reset_code"@.len() != "price_change"@.len());
    assert("password_reset_code"@.len() != "welcome"@.len());
    assert("password_reset_code"@.len() != "reauth_code"@.len());
    assert("password_reset_code"@.len() != "security_notice"@.len());
    assert("email_change_code"@.len() != "password_changed"@.len());
    assert("email_change_code"@.len() != "two_factor_enabled"@.len());
    assert("email_change_code"@.len() != "two_factor_disabled"@.len());
    assert("email_change_code"@.len() != "email_changed_notice"@.len());
    assert("email_change_code"@.len() != "account_deleted"@.len());
    assert("email_change_code"@.len() != "notification"@.len());
    assert("email_change_code"@.len() != "announcement"@.len());
    assert("email_change_code"@.len() != "release_notes"@.len());
    assert("email_change_code"@.len() != "trial_ending"@.len());
    assert("email_change_code"@.len() != "subscription_changed"@.len());
    assert("email_change_code"@.len() != "subscription_confirmed"@.len());
    assert("email_change_code"@[0] != "paid_trial_ending"@[0]);
    assert("email_change_code"@.len() != "renewal_reminder"@.len());
    assert("email_change_code"@.len() != "withdrawal_confirmed"@.len());
    assert("email_change_code"@.len() != "payment_disputed"@.len());
    assert("email_change_code"@.len() != "price_change"@.len());
    assert("email_change_code"@.len() != "welcome"@.len());
    assert("email_change_code"@.len() != "reauth_code"@.len());
    assert("email_change_code"@.len() != "security_notice"@.len());
    assert("password_changed"@.len() != "two_factor_enabled"@.len());
    assert("password_changed"@.len() != "two_factor_disabled"@.len());
    assert("password_changed"@.len() != "email_changed_notice"@.len());
    assert("password_changed"@.len() != "account_deleted"@.len());
    assert("password_changed"@.len() != "notification"@.len());
    assert("password_changed"@.len() != "announcement"@.len());
    assert("password_changed"@.len() != "release_notes"@.len());
    assert("password_changed"@.len() != "trial_ending"@.len());
    assert("password_changed"@.len() != "subscription_changed"@.len());
    assert("password_changed"@.len() != "subscription_confirmed"@.len());
    assert("password_changed"@.len() != "paid_trial_ending"@.len());
    assert("password_changed"@[0] != "renewal_reminder"@[0]);
    assert("password_changed"@.len() != "withdrawal_confirmed"@.len());
    assert("password_changed"@[2] != "payment_disputed"@[2]);
    assert("password_changed"@.len() != "price_change"@.len());
    assert("password_changed"@.len() != "welcome"@.len());
    assert("password_changed"@.len() != "reauth_code"@.len());
    assert("password_changed"@.len() != "security_notice"@.len());
    assert("two_factor_enabled"@.len() != "two_factor_disabled"@.len());
    assert("two_factor_enabled"@.len() != "email_changed_notice"@.len());
    assert("two_factor_enabled"@.len() != "account_deleted"@.len());
    assert("two_factor_enabled"@.len() != "notification"@.len());
    assert("two_factor_enabled"@.len() != "announcement"@.len());
    assert("two_factor_enabled"@.len() != "release_notes"@.len());
    assert("two_factor_enabled"@.len() != "trial_ending"@.len());
    assert("two_factor_enabled"@.len() != "subscription_changed"@.len());
    assert("two_factor_enabled"@.len() != "subscription_confirmed"@.len());
    assert("two_factor_enabled"@.len() != "paid_trial_ending"@.len());
    assert("two_factor_enabled"@.len() != "renewal_reminder"@.len());
    assert("two_factor_enabled"@.len() != "withdrawal_confirmed"@.len());
    assert("two_factor_enabled"@.len() != "payment_disputed"@.len());
    assert("two_factor_enabled"@.len() != "price_change"@.len());
    assert("two_factor_enabled"@.len() != "welcome"@.len());
    assert("two_factor_enabled"@.len() != "reauth_code"@.len());
    assert("two_factor_enabled"@.len() != "security_notice"@.len());
    assert("two_factor_disabled"@.len() != "email_changed_notice"@.len());
    assert("two_factor_disabled"@.len() != "account_deleted"@.len());
    assert("two_factor_disabled"@.len() != "notification"@.len());
    assert("two_factor_disabled"@.len() != "announcement"@.len());
    assert("two_factor_disabled"@.len() != "release_notes"@.len());
    assert("two_factor_disabled"@.len() != "trial_ending"@.len());
    assert("two_factor_disabled"@.len() != "subscription_changed"@.len());
    assert("two_factor_disabled"@.len() != "subscription_confirmed"@.len());
    assert("two_factor_disabled"@.len() != "paid_trial_ending"@.len());
    assert("two_factor_disabled"@.len() != "renewal_reminder"@.len());
    assert("two_factor_disabled"@.len() != "withdrawal_confirmed"@.len());
    assert("two_factor_disabled"@.len() != "payment_disputed"@.len());
    assert("two_factor_disabled"@.len() != "price_change"@.len());
    assert("two_factor_disabled"@.len() != "welcome"@.len());
    assert("two_factor_disabled"@.len() != "reauth_code"@.len());
    assert("two_factor_disabled"@.len() != "security_notice"@.len());
    assert("email_changed_notice"@.len() != "account_deleted"@.len());
    assert("email_changed_notice"@.len() != "notification"@.len());
    assert("email_changed_notice"@.len() != "announcement"@.len());
    assert("email_changed_notice"@.len() != "release_notes"@.len());
    assert("email_changed_notice"@.len() != "trial_ending"@.len());
    assert("email_changed_notice"@[0] != "subscription_changed"@[0]);
    assert("email_changed_notice"@.len() != "subscription_confirmed"@.len());
    assert("email_changed_notice"@.len() != "paid_trial_ending"@.len());
    assert("email_changed_notice"@.len() != "renewal_reminder"@.len());
    assert("email_changed_notice"@[0] != "withdrawal_confirmed"@[0]);
    assert("email_changed_notice"@.len() != "payment_disputed"@.len());
    assert("email_changed_notice"@.len() != "price_change"@.len());
    assert("email_changed_notice"@.len() != "welcome"@.len());
    assert("email_changed_notice"@.len() != "reauth_code"@.len());
    assert("email_changed_notice"@.len() != "security_notice"@.len());
    assert("account_deleted"@.len() != "notification"@.len());
    assert("account_deleted"@.len() != "announcement"@.len());
    assert("account_deleted"@.len() != "release_notes"@.len());
    assert("account_deleted"@.len() != "trial_ending"@.len());
    assert("account_deleted"@.len() != "subscription_changed"@.len());
    assert("account_deleted"@.len() != "subscription_confirmed"@.len());
    assert("account_deleted"@.len() != "paid_trial_ending"@.len());
    assert("account_deleted"@.len() != "renewal_reminder"@.len());
    assert("account_deleted"@.len() != "withdrawal_confirmed"@.len());
    assert("account_deleted"@.len() != "payment_disputed"@.len());
    assert("account_deleted"@.len() != "price_change"@.len());
    assert("account_deleted"@.len() != "welcome"@.len());
    assert("account_deleted"@.len() != "reauth_code"@.len());
    assert("account_deleted"@[0] != "security_notice"@[0]);
    assert("notification"@[0] != "announcement"@[0]);
    assert("notification"@.len() != "release_notes"@.len());
    assert("notification"@[0] != "trial_ending"@[0]);
    assert("notification"@.len() != "subscription_changed"@.len());
    assert("notification"@.len() != "subscription_confirmed"@.len());
    assert("notification"@.len() != "paid_trial_ending"@.len());
    assert("notification"@.len() != "renewal_reminder"@.len());
    assert("notification"@.len() != "withdrawal_confirmed"@.len());
    assert("notification"@.len() != "payment_disputed"@.len());
    assert("notification"@[0] != "price_change"@[0]);
    assert("notification"@.len() != "welcome"@.len());
    assert("notification"@.len() != "reauth_code"@.len());
    assert("notification"@.len() != "security_notice"@.len());
    assert("announcement"@.len() != "release_notes"@.len());
    assert("announcement"@[0] != "trial_ending"@[0]);
    assert("announcement"@.len() != "subscription_changed"@.len());
    assert("announcement"@.len() != "subscription_confirmed"@.len());
    assert("announcement"@.len() != "paid_trial_ending"@.len());
    assert("announcement"@.len() != "renewal_reminder"@.len());
    assert("announcement"@.len() != "withdrawal_confirmed"@.len());
    assert("announcement"@.len() != "payment_disputed"@.len());
    assert("announcement"@[0] != "price_change"@[0]);
    assert("announcement"@.len() != "welcome"@.len());
    assert("announcement"@.len() != "reauth_code"@.len());
    assert("announcement"@.len() != "security_notice"@.len());
    assert("release_notes"@.len() != "trial_ending"@.len());
    assert("release_notes"@.len() != "subscription_changed"@.len());
    assert("release_notes"@.len() != "subscription_confirmed"@.len());
    assert("release_notes"@.len() != "paid_trial_ending"@.len());
    assert("release_notes"@.len() != "renewal_reminder"@.len());
    assert("release_notes"@.len() != "withdrawal_confirmed"@.len());
    assert("release_notes"@.len() != "payment_disputed"@.len());
    assert("release_notes"@.len() != "price_change"@.len());
    assert("release_notes"@.len() != "welcome"@.len());
    assert("release_notes"@.len() != "reauth_code"@.len());
    assert("release_notes"@.len() != "security_notice"@.len());
    assert("trial_ending"@.len() != "subscription_changed"@.len());
    assert("trial_ending"@.len() != "subscription_confirmed"@.len());
    assert("trial_ending"@.len() != "paid_trial_ending"@.len());
    assert("trial_ending"@.len() != "renewal_reminder"@.len());
    assert("trial_ending"@.len() != "withdrawal_confirmed"@.len());
    assert("trial_ending"@.len() != "payment_disputed"@.len());
    assert("trial_ending"@[0] != "price_change"@[0]);
    assert("trial_ending"@.len() != "welcome"@.len());
    assert("trial_ending"@.len() != "reauth_code"@.len());
    assert("trial_ending"@.len() != "security_notice"@.len());
    assert("subscription_changed"@.len() != "subscription_confirmed"@.len());
    assert("subscription_changed"@.len() != "paid_trial_ending"@.len());
    assert("subscription_changed"@.len() != "renewal_reminder"@.len());
    assert("subscription_changed"@[0] != "withdrawal_confirmed"@[0]);
    assert("subscription_changed"@.len() != "payment_disputed"@.len());
    assert("subscription_changed"@.len() != "price_change"@.len());
    assert("subscription_changed"@.len() != "welcome"@.len());
    assert("subscription_changed"@.len() != "reauth_code"@.len());
    assert("subscription_changed"@.len() != "security_notice"@.len());
    assert("subscription_confirmed"@.len() != "paid_trial_ending"@.len());
    assert("subscription_confirmed"@.len() != "renewal_reminder"@.len());
    assert("subscription_confirmed"@.len() != "withdrawal_confirmed"@.len());
    assert("subscription_confirmed"@.len() != "payment_disputed"@.len());
    assert("subscription_confirmed"@.len() != "price_change"@.len());
    assert("subscription_confirmed"@.len() != "welcome"@.len());
    assert("subscription_confirmed"@.len() != "reauth_code"@.len());
    assert("subscription_confirmed"@.len() != "security_notice"@.len());
    assert("paid_trial_ending"@.len() != "renewal_reminder"@.len());
    assert("paid_trial_ending"@.len() != "withdrawal_confirmed"@.len());
    assert("paid_trial_ending"@.len() != "payment_disputed"@.len());
    assert("paid_trial_ending"@.len() != "price_change"@.len());
    assert("paid_trial_ending"@.len() != "welcome"@.len());
    assert("paid_trial_ending"@.len() != "reauth_code"@.len());
    assert("paid_trial_ending"@.len() != "security_notice"@.len());
    assert("renewal_reminder"@.len() != "withdrawal_confirmed"@.len());
    assert("renewal_reminder"@[0] != "payment_disputed"@[0]);
    assert("renewal_reminder"@.len() != "price_change"@.len());
    assert("renewal_reminder"@.len() != "welcome"@.len());
    assert("renewal_reminder"@.len() != "reauth_code"@.len());
    assert("renewal_reminder"@.len() != "security_notice"@.len());
    assert("withdrawal_confirmed"@.len() != "payment_disputed"@.len());
    assert("withdrawal_confirmed"@.len() != "price_change"@.len());
    assert("withdrawal_confirmed"@.len() != "welcome"@.len());
    assert("withdrawal_confirmed"@.len() != "reauth_code"@.len());
    assert("withdrawal_confirmed"@.len() != "security_notice"@.len());
    assert("payment_disputed"@.len() != "price_change"@.len());
    assert("payment_disputed"@.len() != "welcome"@.len());
    assert("payment_disputed"@.len() != "reauth_code"@.len());
    assert("payment_disputed"@.len() != "security_notice"@.len());
    assert("price_change"@.len() != "welcome"@.len());
    assert("price_change"@.len() != "reauth_code"@.len());
    assert("price_change"@.len() != "security_notice"@.len());
    assert("welcome"@.len() != "reauth_code"@.len());
    assert("welcome"@.len() != "security_notice"@.len());
    assert("reauth_code"@.len() != "security_notice"@.len());
}

impl EmailTemplate {
    /// Splits into the outbox columns (`template`, `payload`).
    pub fn to_parts(&self) -> (r: (&'static str, JsonValue))
        ensures
            r.0@ == template_name(*self),
            r.1@ == payload_of(*self),
    {
        let mut m: Vec<(String, JsonValue)> = Vec::new();
        match self {
            EmailTemplate::EmailVerificationCode { username, code, expires_minutes } => {
                m.push(("code".to_string(), text_value(code.as_str())));
                m.push(("expires_minutes".to_string(), number_value(*expires_minutes)));
                m.push(("username".to_string(), text_value(username.as_str())));
                assert(members(m@) =~= payload_of(*self)->Object_0);
            },
            EmailTemplate::PasswordResetCode { username, code, expires_minutes } => {
                m.push(("code".to_string(), text_value(code.as_str())));
                m.push(("expires_minutes".to_string(), number_value(*expires_minutes)));
                m.push(("username".to_string(), text_value(username.as_str())));
                assert(members(m@) =~= payload_of(*self)->Object_0);
            },
            EmailTemplate::EmailChangeCode { username, code, expires_minutes } => {
                m.push(("code".to_string(), text_value(code.as_str())));
                m.push(("expires_minutes".to_string(), number_value(*expires_minutes)));
                m.push(("username".to_string(), text_value(username.as_str())));
                assert(members(m@) =~= payload_of(*self)->Object_0);
            },
            EmailTemplate::PasswordChanged { username } => {
                m.push(("username".to_string(), text_value(username.as_str())));
                assert(members(m@) =~= payload_of(*self)->Object_0);
            },
            EmailTemplate::TwoFactorEnabled { username } => {
                m.push(("username".to_string(), text_value(username.as_str())));
                assert(members(m@) =~= payload_of(*self)->Object_0);
            },
            EmailTemplate::TwoFactorDisabled { username } => {
                m.push(("username".to_string(), text_value(username.as_str())));
                assert(members(m@) =~= payload_of(*self)->Object_0);
            },
            EmailTemplate::EmailChangedNotice { username, new_email_masked } => {
                m.push(("new_email_masked".to_string(), text_value(new_email_masked.as_str())));
                m.push(("username".to_string(), text_value(username.as_str())));
                assert(members(m@) =~= payload_of(*self)->Object_0);
            },
            EmailTemplate::AccountDeleted { username } => {
                m.push(("username".to_string(), text_value(username.as_str())));
                assert(members(m@) =~= payload_of(*self)->Object_0);
            },
            EmailTemplate::Notification { title, lines, cta_label, cta_path, category } => {
                m.push(("category".to_string(), text_value(category.key())));
                m.push(("cta_label".to_string(), opt_text_value(slice_of(cta_label))));
                m.push(("cta_path".to_string(), opt_text_value(slice_of(cta_path))));
                m.push(("lines".to_string(), texts_value(lines)));
                m.push(("title".to_string(), text_value(title.as_str())));
                assert(members(m@) =~= payload_of(*self)->Object_0);
            },
            EmailTemplate::Announcement { title, body, level, cta_label, cta_url } => {
                m.push(("body".to_string(), text_value(body.as_str())));
                m.push(("cta_label".to_string(), opt_text_value(slice_of(cta_label))));
                m.push(("cta_url".to_string(), opt_text_value(slice_of(cta_url))));
                m.push(("level".to_string(), text_value(level.as_str())));
                m.push(("title".to_string(), text_value(title.as_str())));
                assert(members(m@) =~= payload_of(*self)->Object_0);
            },
            EmailTemplate::ReleaseNotes { version, title, items, released_on } => {
                m.push(("items".to_string(), items_value(items)));
                m.push(("released_on".to_string(), JsonValue::Text(released_on.format(YEAR_MONTH_DAY))));
                m.push(("title".to_string(), title.copy()));
                m.push(("version".to_string(), text_value(version.as_str())));
                assert(members(m@) =~= payload_of(*self)->Object_0);
            },
            EmailTemplate::TrialEnding { username, plan_name, ends_at } => {
                m.push(("ends_at".to_string(), JsonValue::Text(ends_at.to_text())));
                m.push(("plan_name".to_string(), plan_name.copy()));
                m.push(("username".to_string(), text_value(username.as_str())));
                assert(members(m@) =~= payload_of(*self)->Object_0);
            },
            EmailTemplate::SubscriptionChanged { username, kind, plan_name, current_period_end } => {
                m.push(("current_period_end".to_string(), moment_value(current_period_end)));
                m.push(("kind".to_string(), text_value(kind.as_str())));
                m.push(("plan_name".to_string(), plan_name.copy()));
                m.push(("username".to_string(), text_value(username.as_str())));
                assert(members(m@) =~= payload_of(*self)->Object_0);
            },
            EmailTemplate::SubscriptionConfirmed { username, plan_name, amount_cents, currency, interval, next_charge_at, trial_ends_at, terms_version } => {
                m.push(("amount_cents".to_string(), amount_value(*amount_cents)));
                m.push(("currency".to_string(), opt_text_value(slice_of(currency))));
                m.push(("interval".to_string(), opt_text_value(slice_of(interval))));
                m.push(("next_charge_at".to_string(), moment_value(next_charge_at)));
                m.push(("plan_name".to_string(), plan_name.copy()));
                m.push(("terms_version".to_string(), opt_text_value(slice_of(terms_version))));
                m.push(("trial_ends_at".to_string(), moment_value(trial_ends_at)));
                m.push(("username".to_string(), text_value(username.as_str())));
                assert(members(m@) =~= payload_of(*self)->Object_0);
            },
            EmailTemplate::PaidTrialEnding { username, plan_name, amount_cents, currency, interval, charge_at } => {
                m.push(("amount_cents".to_string(), amount_value(*amount_cents)));
                m.push(("charge_at".to_string(), JsonValue::Text(charge_at.to_text())));
                m.push(("currency".to_string(), opt_text_value(slice_of(currency))));
                m.push(("interval".to_string(), opt_text_value(slice_of(interval))));
                m.push(("plan_name".to_string(), plan_name.copy()));
                m.push(("username".to_string(), text_value(username.as_str())));
                assert(members(m@) =~= payload_of(*self)->Object_0);
            },
            EmailTemplate::RenewalReminder { username, plan_name, amount_cents, currency, renews_at } => {
                m.push(("amount_cents".to_string(), amount_value(*amount_cents)));
                m.push(("currency".to_string(), opt_text_value(slice_of(currency))));
                m.push(("plan_name".to_string(), plan_name.copy()));
                m.push(("renews_at".to_string(), JsonValue::Text(renews_at.to_text())));
                m.push(("username".to_string(), text_value(username.as_str())));
                assert(members(m@) =~= payload_of(*self)->Object_0);
            },
            EmailTemplate::WithdrawalConfirmed { username, plan_name, refunded_cents, currency, requested_at, by_staff } => {
                m.push(("by_staff".to_string(), JsonValue::Bool(*by_staff)));
                m.push(("currency".to_string(), text_value(currency.as_str())));
                m.push(("plan_name".to_string(), plan_name.copy()));
                m.push(("refunded_cents".to_string(), number_value(*refunded_cents)));
                m.push(("requested_at".to_string(), JsonValue::Text(requested_at.to_text())));
                m.push(("username".to_string(), text_value(username.as_str())));
                assert(members(m@) =~= payload_of(*self)->Object_0);
            },
            EmailTemplate::PaymentDisputed { username, plan_name } => {
                m.push(("plan_name".to_string(), plan_name.copy()));
                m.push(("username".to_string(), text_value(username.as_str())));
                assert(members(m@) =~= payload_of(*self)->Object_0);
            },
            EmailTemplate::PriceChange { username, plan_name, interval, old_amount_cents, new_amount_cents, currency, effective_at } => {
                m.push(("currency".to_string(), opt_text_value(slice_of(currency))));
                m.push(("effective_at".to_string(), JsonValue::Text(effective_at.to_text())));
                m.push(("interval".to_string(), opt_text_value(slice_of(interval))));
                m.push(("new_amount_cents".to_string(), number_value(*new_amount_cents)));
                m.push(("old_amount_cents".to_string(), amount_value(*old_amount_cents)));
                m.push(("plan_name".to_string(), plan_name.copy()));
                m.push(("username".to_string(), text_value(username.as_str())));
                assert(members(m@) =~= payload_of(*self)->Object_0);
            },
            EmailTemplate::Welcome { username } => {
                m.push(("username".to_string(), text_value(username.as_str())));
                assert(members(m@) =~= payload_of(*self)->Object_0);
            },
            EmailTemplate::ReauthCode { username, code, expires_minutes } => {
                m.push(("code".to_string(), text_value(code.as_str())));
                m.push(("expires_minutes".to_string(), number_value(*expires_minutes)));
                m.push(("username".to_string(), text_value(username.as_str())));
                assert(members(m@) =~= payload_of(*self)->Object_0);
            },
            EmailTemplate::SecurityNotice { username, kind, detail } => {
                m.push(("detail".to_string(), opt_text_value(slice_of(detail))));
                m.push(("kind".to_string(), text_value(kind.as_str())));
                m.push(("username".to_string(), text_value(username.as_str())));
                assert(members(m@) =~= payload_of(*self)->Object_0);
            },
        }
        (self.name(), object_value(m))
    }

    /// Rebuilds a template from the outbox columns: what [`to_parts`] wrote
    /// for a template gives that template back. Members that the template
    /// does not have are ignored.
    ///
    /// [`to_parts`]: EmailTemplate::to_parts
    pub fn from_parts(template: &str, payload: &JsonValue) -> (r: Option<Self>)
        ensures
            is_reading(r, template@, payload@),
            forall|t: EmailTemplate|
                template_name(t) == template@ && has_real_dates(t) && payload@
                    == #[trigger] payload_of(t) ==> reads_back(r, t),
    {
        proof {
            lemma_names_are_distinct();
        }
        if same(template, "email_verification_code") {
            read_email_verification_code(payload)
        } else if same(template, "password_reset_code") {
            read_password_reset_code(payload)
        } else if same(template, "email_change_code") {
            read_email_change_code(payload)
        } else if same(template, "password_changed") {
            read_password_changed(payload)
        } else if same(template, "two_factor_enabled") {
            read_two_factor_enabled(payload)
        } else if same(template, "two_factor_disabled") {
            read_two_factor_disabled(payload)
        } else if same(template, "email_changed_notice") {
            read_email_changed_notice(payload)
        } else if same(template, "account_deleted") {
            read_account_deleted(payload)
        } else if same(template, "notification") {
            read_notification(payload)
        } else if same(template, "announcement") {
            read_announcement(payload)
        } else if same(template, "release_notes") {
            read_release_notes(payload)
        } else if same(template, "trial_ending") {
            read_trial_ending(payload)
        } else if same(template, "subscription_changed") {
            read_subscription_changed(payload)
        } else if same(template, "subscription_confirmed") {
            read_subscription_confirmed(payload)
        } else if same(template, "paid_trial_ending") {
            read_paid_trial_ending(payload)
        } else if same(template, "renewal_reminder") {
            read_renewal_reminder(payload)
        } else if same(template, "withdrawal_confirmed") {
            read_withdrawal_confirmed(payload)
        } else if same(template, "payment_disputed") {
            read_payment_disputed(payload)
        } else if same(template, "price_change") {
            read_price_change(payload)
        } else if same(template, "welcome") {
            read_welcome(payload)
        } else if same(template, "reauth_code") {
            read_reauth_code(payload)
        } else if same(template, "security_notice") {
            read_security_notice(payload)
        } else {
            None
        }
    }
}

} // verus!
