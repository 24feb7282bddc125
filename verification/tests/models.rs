use setlyst::ids::Uuid;
use setlyst::json::{JsonValue, Number};
use setlyst::models::admin::AdminListQuery;
use setlyst::models::announcement::{normalize_audience, AnnouncementDraft, AnnouncementLevel};
use setlyst::models::artist::Artist;
use setlyst::models::auth::access::redact_for_impersonation;
use setlyst::models::backup::{BackupArtist, BackupFile, BackupSong};
use setlyst::models::band::BandRole;
use setlyst::models::billing::{
    check_plan_code, normalize_features, subscription_in_effect, trim_localized,
    validate_chargeable_price, validate_feature_map, validate_localized_map, AccessTier,
    BillingInterval, BillingSettings, CreatePromoCodePayload, Plan, PlanRow, PromoKind,
    SubscriptionSource, SubscriptionStatus,
};
use setlyst::models::communication::{Category, ChannelPrefs, CommunicationPreferences};
use setlyst::models::link::{LinkProvider, Links, StoredLink};
use setlyst::models::notification::{Notification, NotificationType};
use setlyst::models::page::{resolve_page, PaginatedResponse, PaginationQuery, MAX_PAGE};
use setlyst::models::pin::PinItemType;
use setlyst::models::quota::{QuotaLimits, QuotaOverrides, QuotaResource, MAX_QUOTA_VALUE};
use setlyst::models::release_note::{
    validate_items, validate_version, ReleaseNote, ReleaseNoteItem, ReleaseNoteRow,
};
use setlyst::models::suggestion::{reaches_auto_accept, VotePayload};
use setlyst::models::tonality::Tonality;
use setlyst::models::tour::CreateTourPayload;
use setlyst::models::trash::TrashType;
use setlyst::models::user::{
    active_ban, canonical_email, clearable, normalize_instruments, validate_bio,
    validate_email_address, validate_instruments, validate_location, validate_optional_email,
    validate_referral_code, Role, Status, User,
};
use setlyst::models::user_preferences::{
    check_merged_ui_settings, json_depth, merge_ui_settings, validate_language,
    validate_ui_settings, MAX_UI_SETTINGS_BYTES,
};
use setlyst::time::{
    NaiveDate, NaiveDateTime, FIRST_DAY, FIRST_SECOND, LAST_DAY, LAST_SECOND,
};

fn value_of(v: serde_json::Value) -> JsonValue {
    match v {
        serde_json::Value::Null => JsonValue::Null,
        serde_json::Value::Bool(b) => JsonValue::Bool(b),
        serde_json::Value::Number(n) => JsonValue::Number(match (n.as_u64(), n.as_i64()) {
            (Some(n), _) => Number::Unsigned(n),
            (None, Some(n)) => Number::Negative(n),
            (None, None) => Number::Decimal {
                text: n.to_string(),
                ceiling: n.as_f64().unwrap().ceil() as i64,
            },
        }),
        serde_json::Value::String(s) => JsonValue::Text(s),
        serde_json::Value::Array(v) => JsonValue::Array(v.into_iter().map(value_of).collect()),
        serde_json::Value::Object(m) => {
            JsonValue::Object(m.into_iter().map(|(k, v)| (k, value_of(v))).collect())
        }
    }
}

fn json(text: &str) -> JsonValue {
    value_of(serde_json::from_str(text).unwrap())
}

fn moment(text: &str) -> NaiveDateTime {
    NaiveDateTime::parse(text).unwrap()
}

fn now() -> NaiveDateTime {
    moment("2026-10-01T12:00:00")
}

const SECOND: i64 = 1;
const HOUR: i64 = 3_600 * SECOND;

fn draft() -> AnnouncementDraft {
    AnnouncementDraft {
        title: "Maintenance".into(),
        body: "We will be back soon.".into(),
        level: AnnouncementLevel::Info,
        show_modal: false,
        show_banner: true,
        send_notification: false,
        send_email: false,
        dismissible: true,
        requires_acknowledgement: false,
        cta_label: None,
        cta_url: None,
        audience_roles: None,
        audience_plans: None,
        audience_locales: None,
        starts_at: None,
        ends_at: None,
    }
}

#[test]
fn drafts_are_checked_as_a_whole() {
    assert!(draft().check().is_ok());
    let mut d = draft();
    d.title = "Hi".into();
    assert!(d.check().is_err());
    let mut d = draft();
    d.show_banner = false;
    assert!(d.check().is_err(), "no channel");
    let mut d = draft();
    d.requires_acknowledgement = true;
    assert!(d.check().is_err(), "ack without modal");
    let mut d = draft();
    d.cta_label = Some("Open".into());
    assert!(d.check().is_err(), "label without url");
    d.cta_url = Some("/dashboard/settings".into());
    assert!(d.check().is_ok());
    d.cta_url = Some("//evil.example".into());
    assert!(d.check().is_err());
    d.cta_url = Some("javascript:alert(1)".into());
    assert!(d.check().is_err());
    d.cta_url = Some("https://setlyst.app/pricing".into());
    assert!(d.check().is_ok());
    let mut d = draft();
    d.audience_roles = Some(vec!["root".into()]);
    assert!(d.check().is_err());
    let mut d = draft();
    let now = now();
    d.starts_at = Some(now);
    d.ends_at = Some(now.plus(-HOUR));
    assert!(d.check().is_err());
}

#[test]
fn audience_lists_are_normalized() {
    assert_eq!(normalize_audience(Some(vec![])), None);
    assert_eq!(
        normalize_audience(Some(vec![" en ".into(), "en".into(), "es".into()])),
        Some(vec!["en".to_string(), "es".to_string()])
    );
}

#[test]
fn impersonation_redacts_share_tokens_everywhere_and_invite_codes_on_request() {
    let mut value = json(
        r#"{
            "share_token": "abc",
            "items": [{ "share_token": "def", "code": "INVITE123" }],
            "code": "pro"
        }"#,
    );
    redact_for_impersonation(&mut value, false);
    assert_eq!(
        value,
        json(
            r#"{
                "share_token": null,
                "items": [{ "share_token": null, "code": "INVITE123" }],
                "code": "pro"
            }"#
        )
    );
    redact_for_impersonation(&mut value, true);
    match value.get("items").unwrap() {
        JsonValue::Array(items) => assert_eq!(items[0].text_of("code"), Some("***")),
        other => panic!("{other:?}"),
    }
}

#[test]
fn settings_default_and_partial_json() {
    let settings = BillingSettings::from_json(&json(r#"{ "enforced": true }"#)).unwrap();
    assert!(settings.enforced);
    assert_eq!(settings.trial_days, 30);
    assert_eq!(settings.rewards.len(), 2);
    assert!(settings.validate().is_ok());
    assert!(BillingSettings::from_json(&json("null")).is_none());
    assert!(BillingSettings::from_json(&json(r#"{ "trial_days": "x" }"#)).is_none());
}

#[test]
fn settings_may_be_stored_as_lists() {
    let defaults = BillingSettings::from_json(&json("{}")).unwrap();
    let empty = BillingSettings::from_json(&json("[]")).unwrap();
    assert_eq!(empty.trial_plan, defaults.trial_plan);
    assert_eq!(empty.rewards.len(), 2);
    let listed = BillingSettings::from_json(&json(
        r#"[true, 7, "max", [false, 1], [["a", "b", 3, 4], {"id": "c", "plan": "d", "days": 5, "cost": 6}]]"#,
    ))
    .unwrap();
    assert!(listed.enforced);
    assert_eq!(listed.trial_days, 7);
    assert_eq!(listed.trial_plan, "max");
    assert!(!listed.referral.enabled);
    assert_eq!(listed.referral.referrer_credits, 1);
    assert_eq!(listed.referral.referred_credits, 20);
    assert_eq!(listed.rewards[0].plan, "b");
    assert_eq!(listed.rewards[1].cost, 6);
    for refused in [
        r#"[true, 7, "max", [], [], 1]"#,
        r#"[null]"#,
        r#"[true, 7, "max", [true, 1, 2, 3, 4]]"#,
        r#"[true, 7, "max", {}, [["a", "b", 3]]]"#,
        r#"[true, 7, "max", {}, [["a", "b", 3, 4, 5]]]"#,
    ] {
        assert!(BillingSettings::from_json(&json(refused)).is_none(), "{refused}");
    }
    let limits = QuotaLimits::from_json(&json("[5]")).unwrap();
    assert_eq!(limits.songs, 5);
    assert_eq!(limits.artists, QuotaLimits::default().artists);
    assert!(QuotaLimits::from_json(&json("[1,2,3,4,5,6,7,8,9,10,11,12]")).is_some());
    assert!(QuotaLimits::from_json(&json("[1,2,3,4,5,6,7,8,9,10,11,12,13]")).is_none());
    assert!(QuotaLimits::from_json(&json("[1.5]")).is_none());
}

#[test]
fn localized_maps_are_validated() {
    assert!(validate_localized_map(
        &json(r#"{"en": "Pro", "pt-BR": "Pro"}"#),
        &["en", "pt-BR"],
        1,
        10
    )
    .is_ok());
    assert!(validate_localized_map(&json(r#"{"en": "Pro"}"#), &["en", "pt-BR"], 1, 10).is_err());
    assert!(validate_localized_map(&json(r#"{"fr": "Pro"}"#), &[], 1, 10).is_err());
    assert!(validate_localized_map(&json(r#"{"en": 1}"#), &[], 1, 10).is_err());
    assert!(validate_localized_map(&json(r#""x""#), &[], 1, 10).is_err());
    assert_eq!(trim_localized(&json(r#"{"en": " Pro "}"#)), json(r#"{"en": "Pro"}"#));
}

#[test]
fn promo_kinds_require_their_fields() {
    let mut payload = CreatePromoCodePayload {
        code: None,
        description: None,
        kind: PromoKind::Credits,
        plan_code: None,
        duration_days: None,
        credits: Some(10),
        discount_percent: None,
        max_redemptions: None,
        new_users_only: false,
        starts_at: None,
        expires_at: None,
    };
    assert!(payload.check_kind_fields().is_ok());
    payload.duration_days = Some(3);
    assert!(payload.check_kind_fields().is_err());
    payload.kind = PromoKind::PlanGrant;
    payload.credits = None;
    assert!(payload.check_kind_fields().is_err());
    payload.plan_code = Some("pro".into());
    assert!(payload.check_kind_fields().is_ok());
}

fn known_features() -> Vec<String> {
    vec!["create_bands".to_string(), "tours".to_string()]
}

#[test]
fn plan_codes_and_features() {
    assert!(check_plan_code("pro").is_ok());
    assert!(check_plan_code("none").is_err());
    assert!(check_plan_code("Pro").is_err());
    let known = known_features();
    let features = normalize_features(&json(r#"{ "tours": true, "bogus": true }"#), &known);
    assert_eq!(features.len(), known.len());
    assert!(features.contains(&("tours".to_string(), true)));
    assert!(features.contains(&("create_bands".to_string(), false)));
    let map = vec![("bogus".to_string(), true)];
    assert!(validate_feature_map(&map, &known).is_err());
}

#[test]
fn plans_read_their_row() {
    let row = PlanRow {
        code: "pro".into(),
        name: json(r#"{"en": "Pro"}"#),
        description: json("{}"),
        price_monthly_cents: 990,
        price_yearly_cents: 9_900,
        currency: "BRL".into(),
        limits: json(r#"{ "songs": 7 }"#),
        features: json(r#"{ "tours": true }"#),
        highlighted: false,
        is_public: true,
        sort_order: 1,
        updated_at: now(),
    };
    let plan = Plan::from_row(row, &known_features());
    assert!(plan.has("tours"));
    assert!(!plan.has("create_bands"));
    assert_eq!(plan.limits.songs, 7);
    assert_eq!(BillingInterval::Monthly.price_of(&plan), 990);
    assert_eq!(BillingInterval::Yearly.price_of(&plan), 9_900);
    assert!(validate_chargeable_price(0).is_ok());
    assert!(validate_chargeable_price(49).is_err());
    assert!(validate_chargeable_price(50).is_ok());
}

#[test]
fn access_follows_the_order_of_precedence() {
    assert_eq!(AccessTier::resolve(true, true, true, false), AccessTier::Staff);
    assert_eq!(AccessTier::resolve(false, true, true, false), AccessTier::Plan);
    assert_eq!(AccessTier::resolve(false, true, false, false), AccessTier::Unverified);
    assert_eq!(AccessTier::resolve(false, false, true, true), AccessTier::Beta);
    assert_eq!(AccessTier::resolve(false, true, false, true), AccessTier::Free);
}

#[test]
fn paid_subscriptions_have_a_grace_period() {
    let end = Some(now());
    let later = now().plus(47 * HOUR);
    let live = |source, at| {
        subscription_in_effect(SubscriptionStatus::Active, source, end, None, at)
    };
    assert!(live(SubscriptionSource::Payment, later));
    assert!(!live(SubscriptionSource::Trial, later));
    assert!(!live(SubscriptionSource::Payment, now().plus(48 * HOUR)));
    let late = |since| {
        subscription_in_effect(
            SubscriptionStatus::PastDue,
            SubscriptionSource::Payment,
            None,
            Some(since),
            now(),
        )
    };
    assert!(late(now().plus(-13 * 24 * HOUR)));
    assert!(!late(now().plus(-14 * 24 * HOUR)));
}

#[test]
fn defaults_match_the_contract() {
    let prefs = CommunicationPreferences::default();
    assert_eq!(
        prefs.get(Category::Bands),
        ChannelPrefs {
            email: false,
            in_app: true
        }
    );
    assert_eq!(
        prefs.get(Category::Marketing),
        ChannelPrefs {
            email: false,
            in_app: false
        }
    );
    assert!(prefs.get(Category::Security).email);
}

#[test]
fn stored_values_override_defaults_but_never_security() {
    let stored = json(
        r#"{ "categories": {
            "bands": { "email": true },
            "security": { "email": false, "in_app": false },
            "unknown": { "email": true },
            "marketing": "garbage"
        }}"#,
    );
    let prefs = CommunicationPreferences::from_stored(&stored);
    assert_eq!(
        prefs.get(Category::Bands),
        ChannelPrefs {
            email: true,
            in_app: true
        }
    );
    assert!(prefs.get(Category::Security).email);
    assert!(prefs.get(Category::Security).in_app);
    assert!(!prefs.get(Category::Marketing).email);

    let round = CommunicationPreferences::from_stored(&prefs.to_stored());
    for c in Category::ALL {
        assert_eq!(round.get(c), prefs.get(c));
    }
    let stored = prefs.to_stored();
    assert!(stored.get("categories").unwrap().get("security").is_none());
}

#[test]
fn category_indexes_round_trip() {
    for c in Category::ALL {
        assert_eq!(Category::from_index(c.index()), Some(c));
        assert_eq!(Category::from_key(c.key()), Some(c));
    }
    assert!(Category::from_index(99).is_none());
}

#[test]
fn decodes_the_stored_shape_and_serializes_with_providers() {
    let stored = vec![
        StoredLink { url: "https://youtu.be/x".into(), label: Some("Live".into()) },
        StoredLink { url: "https://evil.com".into(), label: None },
    ];
    let links = Links::from_stored(stored, &vec![Some(LinkProvider::Youtube), None]);
    assert_eq!(links.0.len(), 1);
    assert_eq!(links.0[0].provider, LinkProvider::Youtube);
    assert_eq!(links.0[0].label.as_deref(), Some("Live"));
    assert_eq!(links.to_stored()[0].url, "https://youtu.be/x");
    assert!(Links::default().is_empty());
}

#[test]
fn pagination_is_clamped() {
    let q = PaginationQuery {
        page: Some(i64::MAX),
        per_page: Some(i64::MAX),
    };
    assert_eq!(q.resolve(), (MAX_PAGE, 100));
    let q = PaginationQuery {
        page: Some(-5),
        per_page: Some(0),
    };
    assert_eq!(q.resolve(), (1, 1));
    assert_eq!(resolve_page(None, None, 25), (1, 25));
}

#[test]
fn pages_hold_every_item() {
    let page = |total| PaginatedResponse::new(vec![1, 2], total, 1, 20).meta.total_pages;
    assert_eq!(page(0), 0);
    assert_eq!(page(20), 1);
    assert_eq!(page(21), 2);
}

#[test]
fn overrides_apply_only_where_set() {
    let defaults = QuotaLimits::default();
    let effective = defaults.with_overrides(&QuotaOverrides {
        songs: Some(5),
        ..Default::default()
    });
    assert_eq!(effective.songs, 5);
    assert_eq!(effective.artists, defaults.artists);
}

#[test]
fn every_resource_has_a_distinct_key() {
    let mut keys: Vec<_> = QuotaResource::ALL.iter().map(|r| r.key()).collect();
    keys.sort();
    keys.dedup();
    assert_eq!(keys.len(), QuotaResource::ALL.len());
}

#[test]
fn limits_are_bounded() {
    let mut limits = QuotaLimits::default();
    assert!(limits.validate().is_ok());
    limits.songs = -1;
    assert!(limits.validate().is_err());
    let overrides = QuotaOverrides {
        gigs: Some(MAX_QUOTA_VALUE + 1),
        ..Default::default()
    };
    assert!(overrides.validate().is_err());
}

#[test]
fn partial_json_falls_back_to_defaults() {
    let limits = QuotaLimits::from_json(&json(r#"{"songs": 3}"#)).unwrap();
    assert_eq!(limits.songs, 3);
    assert_eq!(limits.gigs, QuotaLimits::default().gigs);
}

#[test]
fn versions() {
    for v in ["0.12.0", "1.2.3-beta.1", "10.0.0-rc1"] {
        assert!(validate_version(v).is_ok(), "{v}");
    }
    for v in ["1.2", "v1.2.3", "1.2.3-", "1.2.3-Beta", "1.2.x", ""] {
        assert!(validate_version(v).is_err(), "{v}");
    }
}

#[test]
fn items_are_validated() {
    let item = |kind: &str| ReleaseNoteItem {
        kind: kind.into(),
        text: json(r#"{ "en": "Tours arrived", "pt-BR": "Chegaram as turnês" }"#),
    };
    assert!(validate_items(&[item("new")]).is_ok());
    assert!(validate_items(&[item("bogus")]).is_err());
    assert!(validate_items(&[]).is_err());
    let many: Vec<ReleaseNoteItem> = (0..41).map(|_| item("new")).collect();
    assert!(validate_items(&many).is_err());
    let short = ReleaseNoteItem {
        kind: "new".into(),
        text: json(r#"{ "en": "ok", "pt-BR": "ok" }"#),
    };
    assert!(validate_items(&[short]).is_err());
}

#[test]
fn edited_flag() {
    let now = now();
    let row = |updated: NaiveDateTime| ReleaseNoteRow {
        id: Uuid::new_v4(),
        version: "1.0.0".into(),
        title: json("{}"),
        items: json("[]"),
        released_on: now.date(),
        published_at: Some(now),
        created_at: now,
        updated_at: updated,
        updated_by_username: None,
    };
    assert!(!ReleaseNote::from(row(now.plus(30 * SECOND))).is_edited);
    assert!(ReleaseNote::from(row(now.plus(300 * SECOND))).is_edited);
}

#[test]
fn auto_accept_threshold() {
    assert!(!reaches_auto_accept(None, 10, 0));
    assert!(!reaches_auto_accept(Some(3), 2, 0));
    assert!(reaches_auto_accept(Some(3), 3, 0));
    assert!(reaches_auto_accept(Some(3), 3, 2));
    assert!(!reaches_auto_accept(Some(3), 3, 3));
    assert!(!reaches_auto_accept(Some(3), 3, 4));
    assert!(reaches_auto_accept(Some(1), 1, 0));
    assert!(!reaches_auto_accept(Some(0), 5, 0));
}

#[test]
fn votes_are_one_or_minus_one() {
    assert!(VotePayload { value: 1 }.validate().is_ok());
    assert!(VotePayload { value: -1 }.validate().is_ok());
    assert!(VotePayload { value: 0 }.validate().is_err());
    assert!(VotePayload { value: 2 }.validate().is_err());
}

#[test]
fn dates_must_be_ordered() {
    let tour = |name: &str, start: &str, end: &str| CreateTourPayload {
        name: name.to_string(),
        description: None,
        start_date: NaiveDate::parse(start).unwrap(),
        end_date: NaiveDate::parse(end).unwrap(),
        band_id: None,
    };
    assert!(tour("Verão", "2026-02-10", "2026-02-01").validate(Ok(())).is_err());
    assert!(tour("  ", "2026-02-01", "2026-02-01").validate(Ok(())).is_err());
    assert!(tour("Verão", "2026-02-01", "2026-02-01").validate(Ok(())).is_ok());
}

#[test]
fn role_hierarchy() {
    assert!(Role::Admin.outranks(&Role::Moderator));
    assert!(Role::Admin.outranks(&Role::User));
    assert!(Role::Moderator.outranks(&Role::User));
    assert!(!Role::Moderator.outranks(&Role::Admin));
    assert!(!Role::Moderator.outranks(&Role::Moderator));
    assert!(!Role::Admin.outranks(&Role::Admin));
    assert!(!Role::User.outranks(&Role::User));
}

#[test]
fn ban_windows() {
    let now = now();
    assert_eq!(active_ban(None, None, now), None);
    assert_eq!(active_ban(Some(now), None, now), Some(None));
    let future = now.plus(2 * HOUR);
    assert_eq!(active_ban(Some(now), Some(future), now), Some(Some(future)));
    let past = now.plus(-2 * HOUR);
    assert_eq!(active_ban(Some(now), Some(past), now), None);
}

#[test]
fn clearable_semantics() {
    assert_eq!(clearable(&None), None);
    assert_eq!(clearable(&Some("  ".into())), Some(None));
    assert_eq!(clearable(&Some(" Ana ".into())), Some(Some("Ana".into())));
}

#[test]
fn instruments_are_bounded_and_normalized() {
    assert!(validate_instruments(&["Guitar".into(), "Vocals".into()]).is_ok());
    assert!(validate_instruments(&vec!["x".to_string(); 9]).is_err());
    assert!(validate_instruments(&["".into()]).is_err());
    assert!(validate_instruments(&["a".repeat(31)]).is_err());
    assert_eq!(
        normalize_instruments(&[" Guitar ".into(), "guitar".into(), "Bass  guitar".into()]),
        vec!["Guitar".to_string(), "Bass guitar".to_string()]
    );
}

#[test]
fn required_email_and_profile_bounds() {
    assert!(validate_email_address("ana@example.com").is_ok());
    assert!(validate_email_address("").is_err());
    assert!(validate_email_address(&format!("{}@example.com", "a".repeat(250))).is_err());
    assert!(validate_bio(&"a".repeat(280)).is_ok());
    assert!(validate_bio(&"a".repeat(281)).is_err());
    assert!(validate_location(&"a".repeat(81)).is_err());
    assert!(validate_referral_code("ABCD2345").is_ok());
    assert!(validate_referral_code("<script>").is_err());
}

#[test]
fn canonical_emails_fold_tags_dots_and_case() {
    assert_eq!(
        canonical_email(" Ana.Maria+x@GMail.com "),
        "anamaria@gmail.com"
    );
    assert_eq!(canonical_email("a.n.a@googlemail.com"), "ana@gmail.com");
    assert_eq!(
        canonical_email("ana.m+promo@example.com"),
        "ana.m@example.com"
    );
    assert_eq!(canonical_email("not-an-email"), "not-an-email");
}

#[test]
fn one_mailbox_has_one_canonical_email() {
    let plain = canonical_email("ana.m@example.com");
    assert_eq!(canonical_email("ANA.M@EXAMPLE.COM"), plain);
    assert_eq!(canonical_email(" ana.m@example.com"), plain);
    assert_eq!(canonical_email("ana.m+a+b@example.com"), plain);
    assert_eq!(canonical_email(&plain), plain);
    assert_eq!(plain, "ana.m@example.com");
    let gmail = canonical_email("a.n.a+x.y@googlemail.com");
    assert_eq!(canonical_email("a.n.a+x.y@gmail.com"), gmail);
    assert_eq!(canonical_email("ana+xy@gmail.com"), gmail);
    assert_eq!(canonical_email(&gmail), gmail);
}

#[test]
fn optional_email_allows_clearing() {
    assert!(validate_optional_email("").is_ok());
    assert!(validate_optional_email("ana@example.com").is_ok());
    assert!(validate_optional_email("not-an-email").is_err());
}

#[test]
fn new_accounts_start_plain() {
    let user = User::new("ana", None, "hash", None, None, None, None);
    assert_eq!(user.role, Role::User);
    assert_eq!(user.status, Status::Active);
    assert_eq!(user.created_at, user.updated_at);
    assert_eq!(user.active_ban(), None);
    assert!(!user.two_factor_enabled());
    assert!(!user.email_verified());
}

#[test]
fn merge_replaces_adds_and_removes_keys() {
    let base = json(r#"{ "live": { "compact": true }, "pdf": { "font": 1 }, "keep": 1 }"#);
    let patch = json(r#"{ "live": { "compact": false }, "pdf": null, "new": "x" }"#);
    assert_eq!(
        merge_ui_settings(&base, &patch),
        json(r#"{ "live": { "compact": false }, "keep": 1, "new": "x" }"#)
    );
}

fn blob(key: &str, length: usize) -> JsonValue {
    JsonValue::Object(vec![(key.to_string(), JsonValue::Text("x".repeat(length)))])
}

#[test]
fn ui_settings_must_be_a_bounded_object() {
    assert!(validate_ui_settings(&json("{}")).is_ok());
    assert!(validate_ui_settings(&json("[1, 2]")).is_err());
    let big = blob("blob", MAX_UI_SETTINGS_BYTES);
    assert!(validate_ui_settings(&big).is_err());
    // Braces, quotes and the colon count.
    assert!(validate_ui_settings(&blob("a", MAX_UI_SETTINGS_BYTES - 8)).is_ok());
    assert!(validate_ui_settings(&blob("a", MAX_UI_SETTINGS_BYTES - 7)).is_err());
}

#[test]
fn merged_settings_are_bounded_in_size_and_depth() {
    let half = blob("a", MAX_UI_SETTINGS_BYTES / 2 + 10);
    let other = blob("b", MAX_UI_SETTINGS_BYTES / 2 + 10);
    assert!(validate_ui_settings(&half).is_ok());
    let merged = merge_ui_settings(&half, &other);
    assert!(check_merged_ui_settings(&merged).is_err());

    let deep = json(r#"{ "a": { "b": { "c": { "d": { "e": { "f": 1 } } } } } }"#);
    assert_eq!(json_depth(&deep), 6);
    assert!(validate_ui_settings(&deep).is_ok());
    let deeper = json(r#"{ "a": { "b": { "c": { "d": { "e": { "f": { "g": 1 } } } } } } }"#);
    assert!(validate_ui_settings(&deeper).is_err());
}

#[test]
fn only_supported_languages_are_accepted() {
    assert!(validate_language("pt-BR").is_ok());
    assert!(validate_language("fr").is_err());
}

#[test]
fn ids_are_written_with_hyphens() {
    let id = Uuid(0x550e8400_e29b_41d4_a716_446655440000);
    assert_eq!(id.text(), "550e8400-e29b-41d4-a716-446655440000");
    assert_eq!(Uuid::from_bytes(id.to_bytes()), id);
    assert_eq!(id.to_bytes()[0], 0x55);
    assert_ne!(Uuid::new_v4(), Uuid::new_v4());
    assert_ne!(Uuid::now_v7(), Uuid::now_v7());
}

#[test]
fn moments_read_back_as_they_are_written() {
    let at = moment("2026-02-28T23:59:59.250");
    assert_eq!(at.to_text(), "2026-02-28T23:59:59.250");
    assert_eq!(NaiveDateTime::parse(&at.to_text()), Some(at));
    assert_eq!(at.plus(SECOND).to_text(), "2026-03-01T00:00:00.250");
    assert_eq!(at.date().format("%d/%m/%Y"), "28/02/2026");
    assert_eq!(moment("1970-01-02T00:00:00").seconds(), 24 * HOUR);
    assert_eq!(NaiveDate::parse("1970-01-02").map(|d| d.days()), Some(1));
    assert!(NaiveDateTime::parse("2026-02-29T00:00:00").is_none());
    assert!(NaiveDate::parse("2026-02-30").is_none());
    for (seconds, nanos) in [
        (FIRST_SECOND, 0),
        (FIRST_SECOND, 1),
        (-1, 999_999_999),
        (0, 500),
        (59, 1_999_999_999),
        (LAST_SECOND, 0),
        (LAST_SECOND, 1_000_000_000),
        (LAST_SECOND, 1_999_999_999),
    ] {
        let at = NaiveDateTime::from_parts(seconds, nanos).unwrap();
        assert_eq!((at.seconds(), at.nanos()), (seconds, nanos));
        assert_eq!(NaiveDateTime::parse(&at.to_text()), Some(at), "{}", at.to_text());
    }
    assert!(NaiveDateTime::from_parts(FIRST_SECOND - 1, 0).is_none());
    assert!(NaiveDateTime::from_parts(LAST_SECOND + 1, 0).is_none());
    assert!(NaiveDateTime::from_parts(0, 1_000_000_000).is_none());
    assert!(NaiveDateTime::from_parts(59, 2_000_000_000).is_none());
    for days in [FIRST_DAY, -1, 0, LAST_DAY] {
        let day = NaiveDate::from_days(days).unwrap();
        assert_eq!(NaiveDate::parse(&day.format("%Y-%m-%d")), Some(day));
    }
    assert!(NaiveDate::from_days(LAST_DAY + 1).is_none());
    assert_eq!(NaiveDateTime::from_parts(LAST_SECOND, 0).unwrap().date().days(), LAST_DAY);
    assert_eq!(moment("1970-01-01T00:00:00.0000005").nanos(), 500);
    assert!(moment("1970-01-01T00:00:00").is_before(&moment("1970-01-01T00:00:00.000000001")));
}

fn outside(at: NaiveDateTime) -> chrono::NaiveDateTime {
    chrono::DateTime::from_timestamp(at.seconds(), at.nanos()).unwrap().naive_utc()
}

#[test]
fn moments_are_counted_as_in_the_calendar() {
    let texts = [
        "1969-12-31T23:59:59.999999999",
        "1970-01-01T00:00:00",
        "2016-12-31T23:59:59.5",
        "2016-12-31T23:59:60",
        "2016-12-31T23:59:60.75",
        "2017-01-01T00:00:00",
        "2017-01-01T00:00:00.25",
        "2017-01-01T12:30:59",
        "2017-01-01T12:30:60.000000001",
        "2017-06-30T05:00:00.123456789",
    ];
    for a in texts {
        let x = moment(a);
        assert_eq!(outside(x), a.parse::<chrono::NaiveDateTime>().unwrap());
        assert_eq!(x.date().days(), outside(x).date().to_epoch_days());
        for seconds in [0, 1, -1, 59, 60, -60, 61, 3_600, 86_400, -86_400, 1_209_600] {
            let shifted = outside(x) + chrono::TimeDelta::seconds(seconds);
            assert_eq!(outside(x.plus(seconds)), shifted, "{a} {seconds}");
            for b in texts {
                if seconds >= 0 {
                    let now = outside(moment(b));
                    assert_eq!(x.reaches(seconds, &moment(b)), shifted <= now, "{a} {seconds} {b}");
                    assert_eq!(x.passes(seconds, &moment(b)), shifted < now, "{a} {seconds} {b}");
                }
            }
        }
        for b in texts {
            let y = moment(b);
            assert_eq!(x.is_before(&y), outside(x) < outside(y));
            let apart = outside(y) - outside(x);
            assert_eq!(x.nanos_until(&y), apart.num_nanoseconds().unwrap() as i128, "{a} {b}");
        }
    }
}

#[test]
fn searches_escape_wildcards() {
    let q = |text: Option<&str>| {
        AdminListQuery {
            page: None,
            per_page: None,
            q: text.map(str::to_string),
            shared: None,
            user_id: None,
            band_id: None,
        }
        .search_pattern()
    };
    assert_eq!(q(None), None);
    assert_eq!(q(Some("  ")), None);
    assert_eq!(q(Some(" 50%_a\\b ")), Some("%50\\%\\_a\\\\b%".to_string()));
}

#[test]
fn keys_name_their_items() {
    assert_eq!(TrashType::parse("setlist"), Some(TrashType::Setlist));
    assert_eq!(TrashType::Setlist.key(), "setlist");
    assert_eq!(TrashType::parse("Setlist"), None);
    assert_eq!(PinItemType::parse("tour"), Some(PinItemType::Tour));
    assert_eq!(PinItemType::parse("artist"), None);
    assert!(BandRole::Owner.satisfies(BandRole::Admin));
    assert!(!BandRole::Member.satisfies(BandRole::Moderator));
    assert_eq!(Tonality::from_parts('F', Some('#'), true).map(|t| t.name()), Some("F#m".into()));
    assert_eq!(Tonality::from_parts('H', None, false), None);
}

#[test]
fn notifications_hold_what_happened() {
    let n = Notification::band_role_changed(
        Uuid(1),
        Uuid(2),
        "Trio",
        BandRole::Member,
        BandRole::Admin,
        Uuid(3),
    );
    assert_eq!(n.user_id, Uuid(1));
    assert_eq!(n.notification_type, NotificationType::BandRoleChanged);
    assert_eq!(n.data.text_of("band_name"), Some("Trio"));
    assert_eq!(n.data.text_of("old_role"), Some("member"));
    assert_eq!(n.data.text_of("new_role"), Some("admin"));
    assert_eq!(n.data.text_of("actor_id"), Some("00000000-0000-0000-0000-000000000003"));
    assert_eq!(NotificationType::BandRoleChanged.category(), Category::Bands);
}

#[test]
fn artists_belong_to_a_user_or_a_band() {
    let own = Artist::new("Tom", Uuid(1));
    assert_eq!((own.name.as_str(), own.user_id, own.band_id), ("Tom", Uuid(1), None));
    let band = Artist::new_for_band("Tom", Uuid(2), Uuid(1));
    assert_eq!((band.user_id, band.band_id), (Uuid(1), Some(Uuid(2))));
}

#[test]
fn backups_are_checked_before_they_are_imported() {
    let file = |song: &str, tempo| BackupFile {
        version: 1,
        exported_at: now(),
        artists: vec![BackupArtist { id: Uuid(1), name: "Tom".into() }],
        songs: vec![BackupSong {
            id: Uuid(2),
            title: song.into(),
            artist_id: Uuid(1),
            tempo: Some(tempo),
            lyrics: None,
            tonality: None,
            genre: None,
            duration: None,
            tags: vec![],
        }],
        setlists: vec![],
        gigs: vec![],
    };
    assert!(file("Wave", 120).validate_contents(100, 100).is_ok());
    assert!(file("", 120).validate_contents(100, 100).is_err());
    assert!(file("Wave", 501).validate_contents(100, 100).is_err());
}
