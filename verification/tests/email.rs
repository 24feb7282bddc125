use base64::Engine;
use setlyst::email::content::{money, Content};
use setlyst::email::notification_text::describe;
use setlyst::email::outbox::{
    is_code_template, mask_email, mask_emails_in, outbox_row, outbox_rows, priority, priority_of,
    priority_of_name, queued_id, recipient_daily_cap, OutgoingEmail,
    ACCOUNT_CODE_EMAILS_PER_ADDRESS_PER_DAY, CODE_EMAILS_PER_ADDRESS_PER_DAY,
    EMAILS_PER_ACCOUNT_PER_DAY, NOTIFICATION_EMAILS_PER_ADDRESS_PER_DAY,
    OTHER_EMAILS_PER_ADDRESS_PER_DAY,
};
use setlyst::email::render::{clean_subject, escape_html, render_html, render_text, Footer, RenderContext};
use setlyst::email::templates::{
    localized, EmailTemplate, Locale, ReleaseItem, MAX_SUBJECT_CHARS,
};
use setlyst::email::unsubscribe::{link, message, parse, token};
use setlyst::email::worker::{
    backoff, check_smtp_config, claim_order, consent_needed, list_unsubscribe, max_priority, next_step,
    outcome_of, render_for, reports_cap, sent_event, still_wanted, Delivery, Event, Step, Write, MAX_ATTEMPTS,
};
use setlyst::ids::Uuid;
use setlyst::json::{JsonValue, Number};
use setlyst::models::communication::Category;
use setlyst::models::notification::NotificationType;
use setlyst::time::{NaiveDate, NaiveDateTime};

fn text(s: &str) -> JsonValue {
    JsonValue::Text(s.to_string())
}

/// An object; its members are given in the order of their keys.
fn object(members: &[(&str, &str)]) -> JsonValue {
    JsonValue::Object(members.iter().map(|(k, v)| (k.to_string(), text(v))).collect())
}

fn ctx(locale: Locale, unsubscribe: bool) -> RenderContext {
    RenderContext {
        app_base_url: "https://setlyst.app".into(),
        locale,
        unsubscribe_url: if unsubscribe {
            Some("https://setlyst.app/en/unsubscribe?token=abc".into())
        } else {
            None
        },
    }
}

fn moment(s: &str) -> NaiveDateTime {
    NaiveDateTime::parse(s).unwrap()
}

fn samples() -> Vec<EmailTemplate> {
    let when = moment("2026-10-01T12:00:00");
    vec![
        EmailTemplate::EmailVerificationCode {
            username: "ana".into(),
            code: "123456".into(),
            expires_minutes: 15,
        },
        EmailTemplate::PasswordResetCode {
            username: "ana".into(),
            code: "654321".into(),
            expires_minutes: 15,
        },
        EmailTemplate::EmailChangeCode {
            username: "ana".into(),
            code: "111222".into(),
            expires_minutes: 15,
        },
        EmailTemplate::PasswordChanged { username: "ana".into() },
        EmailTemplate::TwoFactorEnabled { username: "ana".into() },
        EmailTemplate::TwoFactorDisabled { username: "ana".into() },
        EmailTemplate::EmailChangedNotice {
            username: "ana".into(),
            new_email_masked: "a***@example.com".into(),
        },
        EmailTemplate::AccountDeleted { username: "ana".into() },
        EmailTemplate::Notification {
            title: "Title".into(),
            lines: vec!["Line".into()],
            cta_label: None,
            cta_path: Some("/dashboard".into()),
            category: Category::Bands,
        },
        EmailTemplate::Announcement {
            title: "Maintenance".into(),
            body: "First.\n\nSecond.".into(),
            level: "info".into(),
            cta_label: Some("Read".into()),
            cta_url: Some("/dashboard/announcements".into()),
        },
        EmailTemplate::ReleaseNotes {
            version: "0.12.0".into(),
            title: object(&[("en", "Big release"), ("pt-BR", "Grande versão")]),
            items: vec![ReleaseItem {
                kind: "new".into(),
                text: object(&[("en", "Tours"), ("es", "Giras"), ("pt-BR", "Turnês")]),
            }],
            released_on: NaiveDate::parse("2026-09-23").unwrap(),
        },
        EmailTemplate::TrialEnding {
            username: "ana".into(),
            plan_name: object(&[("en", "Pro"), ("es", "Pro"), ("pt-BR", "Pro")]),
            ends_at: when,
        },
        EmailTemplate::SubscriptionChanged {
            username: "ana".into(),
            kind: "plan_granted".into(),
            plan_name: object(&[("en", "Pro")]),
            current_period_end: Some(when),
        },
        EmailTemplate::Welcome { username: "ana".into() },
    ]
}

#[test]
fn every_kind_has_text_in_every_locale() {
    let data = JsonValue::Object(vec![
        ("action".into(), text("avatar_removed")),
        ("amount".into(), JsonValue::Number(Number::Unsigned(50))),
        ("band_id".into(), text("b1")),
        ("band_name".into(), text("Os Tais")),
        ("kind".into(), text("setlist")),
        ("new_role".into(), text("admin")),
        ("note".into(), text("n")),
        ("old_role".into(), text("member")),
        ("reason".into(), text("spam")),
        ("role".into(), text("member")),
        ("song_title".into(), text("Garota")),
        ("status".into(), text("accepted")),
        ("suggested_by".into(), text("ana")),
        ("title".into(), text("Sexta")),
        ("version".into(), text("0.12.0")),
    ]);
    for kind in [
        NotificationType::BandRoleChanged,
        NotificationType::BandMemberRemoved,
        NotificationType::BandMemberAdded,
        NotificationType::PlatformRoleChanged,
        NotificationType::ShareLinkRevoked,
        NotificationType::Announcement,
        NotificationType::ReleasePublished,
        NotificationType::BandSuggestionCreated,
        NotificationType::BandSuggestionResolved,
        NotificationType::ModerationAction,
        NotificationType::SubscriptionChanged,
        NotificationType::TrialEnding,
        NotificationType::CreditsGranted,
        NotificationType::SecurityAlert,
    ] {
        for locale in Locale::ALL {
            let text = describe(kind, &data, locale);
            assert!(!text.title.is_empty(), "{kind:?}");
            assert!(!text.lines.is_empty(), "{kind:?}");
            assert!(!text.title.contains('{'), "{kind:?}: {}", text.title);
            for line in &text.lines {
                assert!(!line.contains("{"), "{kind:?}: {line}");
            }
        }
    }
    let role = describe(NotificationType::BandRoleChanged, &data, Locale::PtBr);
    assert_eq!(
        role.lines[0],
        "Seu papel na banda Os Tais passou de Integrante para Administrador."
    );
    assert_eq!(role.cta_path.as_deref(), Some("/dashboard/bands/b1"));
}

#[test]
fn notices_name_what_happened() {
    let credits = JsonValue::Object(vec![
        ("amount".into(), JsonValue::Number(Number::Unsigned(50))),
        ("reason".into(), text("promo_code")),
    ]);
    let text_of = describe(NotificationType::CreditsGranted, &credits, Locale::En);
    assert_eq!(text_of.title, "You received 50 credits");
    assert_eq!(text_of.lines[0], "Credits from a promo code were added to your balance.");
    assert_eq!(text_of.cta_path.as_deref(), Some("/dashboard/settings"));

    let revoked = object(&[("kind", "gig"), ("title", "Sexta")]);
    let text_of = describe(NotificationType::ShareLinkRevoked, &revoked, Locale::En);
    assert_eq!(
        text_of.lines,
        vec!["The public link of the gig \"Sexta\" was disabled by the Setlyst team.".to_string()]
    );

    // A role that is not known is shown as it is.
    let role = object(&[("band_name", "X"), ("new_role", "roadie"), ("old_role", "owner")]);
    let text_of = describe(NotificationType::BandRoleChanged, &role, Locale::En);
    assert_eq!(text_of.lines[0], "Your role in the band X changed from Owner to roadie.");
    assert_eq!(text_of.cta_path, None);

    let rejected = object(&[("band_name", "X"), ("song_title", "Y"), ("status", "rejected")]);
    let text_of = describe(NotificationType::BandSuggestionResolved, &rejected, Locale::Es);
    assert_eq!(text_of.title, "Tu sugerencia fue rechazada");
}

#[test]
fn masks_addresses() {
    assert_eq!(mask_email("ana.maria@example.com"), "a***@example.com");
    assert_eq!(mask_email("x"), "***");
}

#[test]
fn masks_addresses_inside_smtp_errors() {
    assert_eq!(
        mask_emails_in("550 5.1.1 <ana.maria@example.com>: Recipient address rejected"),
        "550 5.1.1 <a***@example.com>: Recipient address rejected"
    );
    assert_eq!(
        mask_emails_in("mailbox bob@x.org, full; retry"),
        "mailbox b***@x.org, full; retry"
    );
    assert_eq!(mask_emails_in("421 try again later"), "421 try again later");
}

#[test]
fn every_address_in_a_word_is_masked() {
    assert_eq!(mask_emails_in("ana@x.org:bob@y.org"), "a***@x.org:b***@y.org");
    assert_eq!(
        mask_emails_in("<to=ana@x.org|bob@y.org/cy@z.org>:25"),
        "<t***@x.org|b***@y.org/c***@z.org>:25"
    );
    assert_eq!(mask_emails_in("ana@bob@y.org"), "a***@b***@y.org");
    assert_eq!(mask_emails_in("@ana@x.org@"), "@a***@x.org@");
    assert_eq!(mask_emails_in("ana@x.org:25 @here a@@b"), "a***@x.org:25 @here a***@@b");
}

#[test]
fn masks_hide_everything_but_the_first_letter_and_the_domain() {
    assert_eq!(mask_email("ana@x.org"), mask_email("alberto@x.org"));
    assert_eq!(mask_email("@x.org"), "***@x.org");
    assert_eq!(mask_emails_in("(é@x.org) \"bob@x.org\""), "(é***@x.org) \"b***@x.org\"");
    assert_eq!(mask_emails_in(""), "");
}

#[test]
fn priorities_put_codes_first_and_bulk_last() {
    assert_eq!(priority_of_name("password_reset_code"), priority::SECURITY);
    assert_eq!(priority_of_name("reauth_code"), priority::SECURITY);
    assert_eq!(priority_of_name("two_factor_disabled"), priority::SECURITY);
    assert_eq!(priority_of_name("subscription_changed"), priority::ACCOUNT);
    assert_eq!(priority_of_name("withdrawal_confirmed"), priority::ACCOUNT);
    assert_eq!(priority_of_name("welcome"), priority::ACCOUNT);
    assert_eq!(priority_of_name("announcement"), priority::BULK);
    assert_eq!(priority_of_name("release_notes"), priority::BULK);
    assert_eq!(priority_of_name("something_new"), priority::NORMAL);
    assert_eq!(priority_of_name("security_notice"), priority::SECURITY);
    assert!(is_code_template("email_verification_code"));
    assert!(!is_code_template("welcome"));
}

#[test]
fn notifications_go_by_their_category() {
    let notification = |category| EmailTemplate::Notification {
        title: "t".into(),
        lines: vec![],
        cta_label: None,
        cta_path: None,
        category,
    };
    assert_eq!(priority_of(&notification(Category::Security)), priority::SECURITY);
    assert_eq!(priority_of(&notification(Category::Bands)), priority::NORMAL);
    assert_eq!(priority_of(&samples()[9]), priority::BULK);
}

#[test]
fn every_template_but_bulk_mail_is_capped_per_mailbox() {
    assert_eq!(recipient_daily_cap("announcement"), None);
    assert_eq!(recipient_daily_cap("release_notes"), None);
    assert_eq!(
        recipient_daily_cap("email_verification_code"),
        Some(CODE_EMAILS_PER_ADDRESS_PER_DAY)
    );
    assert_eq!(
        recipient_daily_cap("password_reset_code"),
        Some(ACCOUNT_CODE_EMAILS_PER_ADDRESS_PER_DAY)
    );
    assert_eq!(
        recipient_daily_cap("notification"),
        Some(NOTIFICATION_EMAILS_PER_ADDRESS_PER_DAY)
    );
    for name in ["password_changed", "security_notice", "welcome", "subscription_changed"] {
        assert_eq!(
            recipient_daily_cap(name),
            Some(OTHER_EMAILS_PER_ADDRESS_PER_DAY),
            "{name}"
        );
    }
}

#[test]
fn rows_hold_the_mailbox_and_the_caps() {
    let email = OutgoingEmail {
        user_id: Some(Uuid(7)),
        to: "  Ana.Maria+x@GMail.com ".into(),
        locale: "pt-BR".into(),
        template: EmailTemplate::Welcome { username: "ana".into() },
    };
    let row = outbox_row(&email);
    assert_eq!(row.to, "Ana.Maria+x@GMail.com");
    assert_eq!(row.canonical, "anamaria@gmail.com");
    assert_eq!(row.template, "welcome");
    assert_eq!(row.locale, "pt-BR");
    assert_eq!(row.priority, priority::ACCOUNT);
    assert_eq!(row.recipient_cap, Some(OTHER_EMAILS_PER_ADDRESS_PER_DAY));
    assert_eq!(row.account_cap, Some(EMAILS_PER_ACCOUNT_PER_DAY));
    let code = OutgoingEmail { template: samples()[0].clone(), ..email.clone() };
    let goodbye = OutgoingEmail { user_id: None, ..email };
    let rows = outbox_rows(&[code, goodbye]);
    assert_eq!(rows.len(), 2);
    assert_eq!(rows[0].account_cap, None);
    assert_eq!(rows[0].recipient_cap, Some(CODE_EMAILS_PER_ADDRESS_PER_DAY));
    assert_eq!(rows[1].account_cap, None);
    assert_eq!(queued_id(Uuid(5), 1), Uuid(5));
    assert_eq!(queued_id(Uuid(5), 0), Uuid(0));
}

#[test]
fn long_addresses_are_cut() {
    let email = OutgoingEmail {
        user_id: None,
        to: "a".repeat(300),
        locale: "en".into(),
        template: EmailTemplate::Welcome { username: "ana".into() },
    };
    assert_eq!(outbox_row(&email).to.chars().count(), 254);
}

#[test]
fn every_template_renders_in_every_locale() {
    for template in samples() {
        for locale in Locale::ALL {
            let rendered = template.render(&ctx(locale, template.unsubscribe_category().is_some()));
            assert!(!rendered.subject.is_empty(), "{}", template.name());
            assert!(rendered.subject.chars().count() <= MAX_SUBJECT_CHARS);
            assert!(rendered.html.contains("Setlyst"));
            assert!(rendered.html.contains(&format!("lang=\"{}\"", locale.code())));
            assert!(rendered.html.contains("/legal/terms"));
            assert!(rendered.text.contains("/legal/privacy"));
            assert!(!rendered.html.contains('—') && !rendered.text.contains('—'));
            assert!(!rendered.html.contains("<img"), "no remote images");
        }
    }
}

#[test]
fn payment_events_have_their_own_wording() {
    let date = Some(moment("2026-10-23T12:00:00"));
    let generic = EmailTemplate::SubscriptionChanged {
        username: "ana".into(),
        kind: "plan_granted".into(),
        plan_name: object(&[("en", "Pro"), ("es", "Pro"), ("pt-BR", "Pro")]),
        current_period_end: date,
    }
    .render(&ctx(Locale::PtBr, false))
    .text;
    let mut seen = Vec::new();
    for kind in [
        "subscribed",
        "resumed",
        "plan_changed",
        "payment_failed",
        "cancel_scheduled",
        "canceled",
    ] {
        let text = EmailTemplate::SubscriptionChanged {
            username: "ana".into(),
            kind: kind.into(),
            plan_name: object(&[("en", "Pro"), ("es", "Pro"), ("pt-BR", "Pro")]),
            current_period_end: date,
        }
        .render(&ctx(Locale::PtBr, false))
        .text;
        assert!(!text.contains("{p}") && !text.contains("{d}"), "{kind}");
        assert!(text.contains("Pro"), "{kind}");
        assert_ne!(text, generic, "{kind} falls back to the generic line");
        seen.push(text);
    }
    assert!(seen[3].contains("forma de pagamento"));
    assert!(seen[4].contains("não haverá novas cobranças"));
}

fn billing_samples() -> Vec<EmailTemplate> {
    let when = moment("2026-10-01T12:00:00");
    let pro = object(&[("en", "Pro"), ("es", "Pro"), ("pt-BR", "Pro")]);
    vec![
        EmailTemplate::SubscriptionConfirmed {
            username: "ana".into(),
            plan_name: pro.clone(),
            amount_cents: Some(3990),
            currency: Some("BRL".into()),
            interval: Some("monthly".into()),
            next_charge_at: Some(when),
            trial_ends_at: Some(when),
            terms_version: Some("2026-09-24".into()),
        },
        EmailTemplate::PaidTrialEnding {
            username: "ana".into(),
            plan_name: pro.clone(),
            amount_cents: Some(39900),
            currency: Some("BRL".into()),
            interval: Some("yearly".into()),
            charge_at: when,
        },
        EmailTemplate::RenewalReminder {
            username: "ana".into(),
            plan_name: pro.clone(),
            amount_cents: Some(39900),
            currency: Some("BRL".into()),
            renews_at: when,
        },
        EmailTemplate::WithdrawalConfirmed {
            username: "ana".into(),
            plan_name: pro.clone(),
            refunded_cents: 3990,
            currency: "brl".into(),
            requested_at: when,
            by_staff: false,
        },
        EmailTemplate::PaymentDisputed { username: "ana".into(), plan_name: pro.clone() },
        EmailTemplate::PriceChange {
            username: "ana".into(),
            plan_name: pro,
            interval: Some("monthly".into()),
            old_amount_cents: Some(3990),
            new_amount_cents: 4490,
            currency: Some("BRL".into()),
            effective_at: when,
        },
    ]
}

#[test]
fn billing_templates_render_and_are_always_sent() {
    for template in billing_samples() {
        assert_eq!(template.unsubscribe_category(), None, "{}", template.name());
        let (name, payload) = template.to_parts();
        assert_eq!(EmailTemplate::from_parts(name, &payload), Some(template.clone()));
        for locale in Locale::ALL {
            let rendered = template.render(&ctx(locale, false));
            assert!(rendered.subject.chars().count() <= MAX_SUBJECT_CHARS);
            assert!(!rendered.html.contains('—') && !rendered.text.contains('—'));
            assert!(
                !rendered.text.contains('{'),
                "{}: {}",
                template.name(),
                rendered.text
            );
            assert!(rendered.text.contains("/legal/terms"));
        }
        let pt = template.render(&ctx(Locale::PtBr, false)).text;
        assert!(pt.contains("Avisos de cobrança são sempre enviados"), "{pt}");
    }
    // The contract confirmation states price, terms, cancellation and
    // the withdrawal right.
    let confirmed = billing_samples()[0].render(&ctx(Locale::PtBr, false)).text;
    assert!(confirmed.contains("R$ 39,90 por mês"), "{confirmed}");
    assert!(confirmed.contains("/pt-BR/legal/subscription"));
    assert!(confirmed.contains("versão 2026-09-24"));
    assert!(confirmed.contains("7 dias"));
    assert!(confirmed.contains("cancelar quando quiser"));
    let reminder = billing_samples()[1].render(&ctx(Locale::PtBr, false)).text;
    assert!(reminder.contains("R$ 399,00 por ano"), "{reminder}");
    assert!(reminder.contains("01/10/2026"));
    // Paid-subscription notices can't be unsubscribed from; plan
    // grants still can.
    let failed = EmailTemplate::SubscriptionChanged {
        username: "ana".into(),
        kind: "payment_failed".into(),
        plan_name: object(&[("en", "Pro")]),
        current_period_end: None,
    };
    assert_eq!(failed.unsubscribe_category(), None);
    let granted = EmailTemplate::SubscriptionChanged {
        username: "ana".into(),
        kind: "plan_granted".into(),
        plan_name: object(&[("en", "Pro")]),
        current_period_end: None,
    };
    assert_eq!(granted.unsubscribe_category(), Some(Category::Account));
}

#[test]
fn money_is_written_per_locale() {
    assert_eq!(money(Locale::PtBr, 3990, "BRL"), "R$ 39,90");
    assert_eq!(money(Locale::En, 123_456, "brl"), "R$1,234.56");
    assert_eq!(money(Locale::Es, 5, "USD"), "USD 0,05");
}

#[test]
fn templates_round_trip_through_the_outbox_columns() {
    for template in samples() {
        let (name, payload) = template.to_parts();
        assert_eq!(EmailTemplate::from_parts(name, &payload), Some(template));
    }
    assert!(EmailTemplate::from_parts("nope", &JsonValue::Object(vec![])).is_none());
}

#[test]
fn malformed_payloads_are_refused() {
    let empty = JsonValue::Object(vec![]);
    assert!(EmailTemplate::from_parts("welcome", &empty).is_none());
    let number = JsonValue::Object(vec![(
        "username".into(),
        JsonValue::Number(Number::Unsigned(1)),
    )]);
    assert!(EmailTemplate::from_parts("welcome", &number).is_none());
    // What a template does not have is ignored, and a flag may be missing.
    let extra = object(&[("username", "ana"), ("zzz", "x")]);
    assert_eq!(
        EmailTemplate::from_parts("welcome", &extra),
        Some(EmailTemplate::Welcome { username: "ana".into() })
    );
    let staff = JsonValue::Object(vec![
        ("currency".into(), text("brl")),
        ("plan_name".into(), JsonValue::Null),
        ("refunded_cents".into(), JsonValue::Number(Number::Unsigned(3990))),
        ("requested_at".into(), text("2026-10-01T12:00:00")),
        ("username".into(), text("ana")),
    ]);
    assert_eq!(
        EmailTemplate::from_parts("withdrawal_confirmed", &staff),
        Some(EmailTemplate::WithdrawalConfirmed {
            username: "ana".into(),
            plan_name: JsonValue::Null,
            refunded_cents: 3990,
            currency: "brl".into(),
            requested_at: moment("2026-10-01T12:00:00"),
            by_staff: false,
        })
    );
    let bad_date = object(&[("plan_name", "x"), ("ends_at", "soon"), ("username", "ana")]);
    assert!(EmailTemplate::from_parts("trial_ending", &bad_date).is_none());
}

#[test]
fn stored_records_and_names_have_two_forms() {
    let null = JsonValue::Null;
    let notification = |category: JsonValue| {
        let payload = JsonValue::Object(vec![
            ("category".into(), category),
            ("lines".into(), JsonValue::Array(vec![])),
            ("title".into(), text("t")),
        ]);
        match EmailTemplate::from_parts("notification", &payload) {
            Some(EmailTemplate::Notification { category, .. }) => Some(category),
            _ => None,
        }
    };
    let named = |value: JsonValue| JsonValue::Object(vec![("bands".into(), value)]);
    assert_eq!(notification(text("bands")), Some(Category::Bands));
    assert_eq!(notification(named(JsonValue::Null)), Some(Category::Bands));
    assert_eq!(notification(named(JsonValue::Object(vec![]))), Some(Category::Bands));
    assert_eq!(notification(named(text("x"))), None);
    assert_eq!(notification(object(&[])), None);

    let release = |item: JsonValue| {
        let payload = JsonValue::Object(vec![
            ("items".into(), JsonValue::Array(vec![item])),
            ("released_on".into(), text("2026-10-01")),
            ("title".into(), JsonValue::Null),
            ("version".into(), text("1.0.0")),
        ]);
        match EmailTemplate::from_parts("release_notes", &payload) {
            Some(EmailTemplate::ReleaseNotes { items, .. }) => Some(items),
            _ => None,
        }
    };
    let item = ReleaseItem { kind: "new".into(), text: text("x") };
    assert_eq!(release(object(&[("kind", "new"), ("text", "x")])), Some(vec![item.clone()]));
    assert_eq!(release(JsonValue::Array(vec![text("new"), text("x")])), Some(vec![item]));
    assert_eq!(release(JsonValue::Array(vec![text("new")])), None);
    assert_eq!(release(JsonValue::Array(vec![text("new"), text("x"), null])), None);
    // A payload itself is only stored by name.
    assert!(EmailTemplate::from_parts("welcome", &JsonValue::Array(vec![text("ana")])).is_none());
}

#[test]
fn variables_are_html_escaped() {
    let template = EmailTemplate::Notification {
        title: "<script>alert(1)</script>".into(),
        lines: vec!["Tom & \"Jerry\" <b>".into()],
        cta_label: Some("Go\"><x>".into()),
        cta_path: Some("/x\"onmouseover=\"y".into()),
        category: Category::Bands,
    };
    let rendered = template.render(&ctx(Locale::En, true));
    assert!(!rendered.html.contains("<script>"));
    assert!(rendered.html.contains("&lt;script&gt;alert(1)&lt;/script&gt;"));
    assert!(rendered.html.contains("Tom &amp; &quot;Jerry&quot; &lt;b&gt;"));
    assert!(!rendered.html.contains("\"onmouseover=\""));
    assert!(!rendered.html.contains("<x>"));
    // The plain-text part is not escaped.
    assert!(rendered.text.contains("Tom & \"Jerry\" <b>"));
}

#[test]
fn unsubscribe_links_only_where_expected() {
    let expected_unsubscribable = [
        "notification",
        "announcement",
        "release_notes",
        "trial_ending",
        "subscription_changed",
    ];
    for template in samples() {
        let unsubscribable = template.unsubscribe_category().is_some();
        assert_eq!(
            unsubscribable,
            expected_unsubscribable.contains(&template.name()),
            "{}",
            template.name()
        );
        let rendered = template.render(&ctx(Locale::PtBr, unsubscribable));
        assert_eq!(rendered.html.contains("Cancelar inscrição"), unsubscribable);
    }
    let critical = EmailTemplate::Announcement {
        title: "Outage".into(),
        body: "Body".into(),
        level: "critical".into(),
        cta_label: None,
        cta_url: None,
    };
    assert!(critical.unsubscribe_category().is_none());
    let security_notification = EmailTemplate::Notification {
        title: "t".into(),
        lines: vec![],
        cta_label: None,
        cta_path: None,
        category: Category::Security,
    };
    assert!(security_notification.unsubscribe_category().is_none());
}

#[test]
fn subjects_are_single_line_and_bounded() {
    assert_eq!(clean_subject("a\r\nBcc: x"), "a Bcc: x");
    let long = clean_subject(&"word ".repeat(60));
    assert!(long.chars().count() <= MAX_SUBJECT_CHARS);
    assert!(long.ends_with("..."));
}

#[test]
fn codes_and_links_are_present() {
    let rendered = samples()[0].render(&ctx(Locale::PtBr, false));
    assert!(rendered.html.contains("123456"));
    assert!(rendered.text.contains("123456"));
    assert!(rendered.subject.contains("Confirme"));
    let welcome = samples()[13].render(&ctx(Locale::Es, false));
    assert!(welcome.html.contains("https://setlyst.app/es/dashboard"));
    let announcement = samples()[9].render(&ctx(Locale::En, true));
    assert!(announcement.html.contains("https://setlyst.app/en/dashboard/announcements"));
    assert_eq!(localized(&object(&[("en", "A")]), Locale::Es), "A");
}

#[test]
fn account_security_templates_render_in_every_locale() {
    let mut templates = vec![EmailTemplate::ReauthCode {
        username: "ana".into(),
        code: "246810".into(),
        expires_minutes: 10,
    }];
    for kind in [
        "email_change_started",
        "email_in_use",
        "google_linked",
        "google_unlinked",
        "password_reset_by_staff",
        "email_changed_by_staff",
        "login_locked",
        "reauth_sessions_revoked",
    ] {
        templates.push(EmailTemplate::SecurityNotice {
            username: "ana".into(),
            kind: kind.into(),
            detail: Some("n***@example.com".into()),
        });
    }
    for template in &templates {
        assert!(template.unsubscribe_category().is_none(), "{}", template.name());
        let parts = template.to_parts();
        assert_eq!(EmailTemplate::from_parts(parts.0, &parts.1).as_ref(), Some(template));
        for locale in Locale::ALL {
            let rendered = template.render(&ctx(locale, false));
            assert!(!rendered.subject.is_empty());
            assert!(rendered.subject.chars().count() <= MAX_SUBJECT_CHARS);
            assert!(!rendered.text.contains("{u}") && !rendered.text.contains("{d}"));
            assert!(!rendered.html.contains('—') && !rendered.text.contains('—'));
        }
    }
    assert!(templates[0].is_sensitive());
    let started = templates[1].render(&ctx(Locale::PtBr, false));
    assert!(started.text.contains("n***@example.com"));
    assert!(started.text.contains("/pt-BR/dashboard/settings?section=security"));
}

/// A keyed digest that is good enough to tell messages apart.
fn digest(message: &[u8]) -> Vec<u8> {
    let mut state: u64 = 0x9e37_79b9_7f4a_7c15;
    let mut out = Vec::new();
    for round in 0..32u64 {
        for byte in message {
            state = state.rotate_left(7).wrapping_mul(0x0100_0000_01b3) ^ (*byte as u64 + round);
        }
        out.push((state >> 29) as u8);
    }
    out
}

fn make_token(user: Uuid, category: Category) -> String {
    token(user, category, &digest(&message(user, category)))
}

fn parse_token(text: &str) -> Option<(Uuid, Category)> {
    parse(text, |user, category| digest(&message(user, category)))
}

/// Changes one byte of what a token stands for.
fn tampered(text: &str, at: usize, byte: u8) -> String {
    let engine = base64::engine::general_purpose::URL_SAFE_NO_PAD;
    let mut bytes = engine.decode(text).unwrap();
    bytes[at] = byte;
    engine.encode(&bytes)
}

#[test]
fn tokens_round_trip_and_reject_tampering() {
    let user = Uuid::new_v4();
    let token = make_token(user, Category::Bands);
    assert_eq!(parse_token(&token), Some((user, Category::Bands)));
    assert_eq!(parse_token(&format!("  {token}\n")), Some((user, Category::Bands)));

    let other = tampered(&token, 16, Category::Marketing.index());
    assert_eq!(parse_token(&other), None);

    let first = user.to_bytes()[0] ^ 1;
    assert_eq!(parse_token(&tampered(&token, 0, first)), None);

    assert_eq!(parse_token("garbage"), None);
    assert_eq!(parse_token(""), None);
}

#[test]
fn security_can_never_be_unsubscribed() {
    let user = Uuid::new_v4();
    assert_eq!(parse_token(&make_token(user, Category::Security)), None);
}

#[test]
fn tokens_are_the_bytes_in_base64() {
    let hmac: Vec<u8> = (100..132).collect();
    let user = Uuid(0x0102_0304_0506_0708_090a_0b0c_0d0e_0f10);
    assert_eq!(
        token(user, Category::Bands, &hmac),
        "AQIDBAUGBwgJCgsMDQ4PEAJkZWZnaGlqa2xtbm9wcXJz"
    );
    assert_eq!(
        link("https://setlyst.app/", "en", user, Category::Bands, &hmac),
        "https://setlyst.app/en/unsubscribe?token=AQIDBAUGBwgJCgsMDQ4PEAJkZWZnaGlqa2xtbm9wcXJz"
    );
}

#[test]
fn list_unsubscribe_offers_one_click_when_the_api_origin_is_known() {
    let web = "https://setlyst.app/pt/unsubscribe?token=abc_DEF-1";
    let (value, one_click) = list_unsubscribe(web, Some("https://api.setlyst.app/"));
    assert!(one_click);
    assert_eq!(
        value,
        "<https://api.setlyst.app/api/v1/public/email/unsubscribe/one-click?token=abc_DEF-1>, \
         <https://setlyst.app/pt/unsubscribe?token=abc_DEF-1>"
    );
    let (value, one_click) = list_unsubscribe(web, None);
    assert!(!one_click);
    assert_eq!(value, format!("<{web}>"));
}

#[test]
fn one_click_needs_a_token() {
    let api = Some("https://api.setlyst.app");
    assert_eq!(list_unsubscribe("https://x/y", api), ("<https://x/y>".to_string(), false));
    assert_eq!(
        list_unsubscribe("https://x/y?token=&a=1", api),
        ("<https://x/y?token=&a=1>".to_string(), false)
    );
    let (value, one_click) = list_unsubscribe("https://x/y?token=t&a=1", api);
    assert!(one_click);
    assert!(value.contains("one-click?token=t>"));
}

#[test]
fn backoff_grows_exponentially() {
    assert_eq!(backoff(1), 30);
    assert_eq!(backoff(2), 60);
    assert_eq!(backoff(5), 480);
    assert_eq!(backoff(0), 30);
    assert_eq!(backoff(11), 30_720);
    assert_eq!(backoff(i32::MAX), 30_720);
}

#[test]
fn rendering_adds_the_unsubscribe_link() {
    let hmac = vec![1u8; 32];
    let user = Some(Uuid(1));
    let rendered = render_for(&samples()[9], user, "pt", "https://setlyst.app", &hmac);
    let url = rendered.unsubscribe_url.unwrap();
    assert!(url.starts_with("https://setlyst.app/pt-BR/unsubscribe?token="));
    assert!(rendered.html.contains("Cancelar inscrição"));
    let welcome = render_for(&samples()[13], user, "en", "https://setlyst.app", &hmac);
    assert_eq!(welcome.unsubscribe_url, None);
    let nobody = render_for(&samples()[9], None, "en", "https://setlyst.app", &hmac);
    assert_eq!(nobody.unsubscribe_url, None);
}

#[test]
fn opting_out_stops_what_was_queued() {
    let user = Some(Uuid(1));
    assert_eq!(
        consent_needed(&samples()[9], user),
        Some((Uuid(1), Category::Announcements))
    );
    assert_eq!(consent_needed(&samples()[9], None), None);
    assert_eq!(consent_needed(&samples()[13], user), None);
    let off = JsonValue::Object(vec![(
        "categories".into(),
        JsonValue::Object(vec![(
            "announcements".into(),
            JsonValue::Object(vec![("email".into(), JsonValue::Bool(false))]),
        )]),
    )]);
    assert!(!still_wanted(&Some(off), Category::Announcements));
    assert_eq!(
        still_wanted(&None, Category::Announcements),
        Category::Announcements.default_prefs().email
    );
}

#[test]
fn the_hourly_cap_lets_only_codes_through() {
    assert_eq!(max_priority(499, 500), i16::MAX);
    assert_eq!(max_priority(500, 500), priority::SECURITY);
    let now = moment("2026-10-01T12:30:00");
    let (hour, first) = reports_cap(now, -1);
    assert!(first);
    assert_eq!(hour, now.seconds() / 3_600);
    assert!(!reports_cap(now, hour).1);
}

fn finish(event: &Event, attempts: i32, sensitive: bool) -> (Delivery, String, Option<String>, bool) {
    let now = moment("2026-10-01T12:00:00");
    let outcome = outcome_of(event, attempts, sensitive, now);
    match outcome.write {
        Write::Finish { status, error, clear_payload } => {
            (outcome.delivery, status.to_string(), error, clear_payload)
        }
        Write::Retry { .. } => panic!("retried"),
    }
}

#[test]
fn decisions_about_a_message_come_in_order() {
    for wanted in [None, Some(false), Some(true)] {
        for transport in [false, true] {
            assert!(matches!(
                next_step(false, wanted, transport),
                Step::Done(Event::Malformed)
            ));
        }
    }
    assert!(matches!(next_step(true, None, false), Step::AskConsent));
    assert!(matches!(next_step(true, None, true), Step::AskConsent));
    assert!(matches!(next_step(true, Some(false), false), Step::Done(Event::OptedOut)));
    assert!(matches!(next_step(true, Some(false), true), Step::Done(Event::OptedOut)));
    assert!(matches!(next_step(true, Some(true), false), Step::Done(Event::NoTransport)));
    assert!(matches!(next_step(true, Some(true), true), Step::Send));
    assert!(matches!(sent_event(Ok(())), Event::Accepted));
    assert!(matches!(sent_event(Err("550".into())), Event::Refused(e) if e == "550"));
}

#[test]
fn escaped_text_reads_as_it_was() {
    let s = "a&b<c>\"d'&amp;lt;";
    let e = escape_html(s);
    assert_eq!(e, "a&amp;b&lt;c&gt;&quot;d&#39;&amp;amp;lt;");
    let back = e
        .replace("&lt;", "<")
        .replace("&gt;", ">")
        .replace("&quot;", "\"")
        .replace("&#39;", "'")
        .replace("&amp;", "&");
    assert_eq!(back, s);
    assert_eq!(escape_html("a&") + &escape_html("<b"), escape_html("a&<b"));
}

#[test]
fn deliveries_are_recorded() {
    assert_eq!(
        finish(&Event::Malformed, 1, false),
        (Delivery::Failed, "failed".to_string(), Some("unknown template".to_string()), true)
    );
    assert_eq!(
        finish(&Event::OptedOut, 1, true),
        (
            Delivery::Skipped,
            "skipped".to_string(),
            Some("recipient opted out".to_string()),
            true
        )
    );
    assert_eq!(
        finish(&Event::NoTransport, 1, false),
        (Delivery::Skipped, "skipped".to_string(), None, false)
    );
    assert_eq!(
        finish(&Event::Accepted, 1, true),
        (Delivery::Sent, "sent".to_string(), None, true)
    );
    let refused = Event::Refused("550 <bob@x.org> unknown".to_string());
    assert_eq!(
        finish(&refused, MAX_ATTEMPTS, true),
        (
            Delivery::Failed,
            "failed".to_string(),
            Some("550 <b***@x.org> unknown".to_string()),
            true
        )
    );
    let now = moment("2026-10-01T12:00:00");
    let outcome = outcome_of(&refused, 2, true, now);
    assert_eq!(outcome.delivery, Delivery::Retrying);
    match outcome.write {
        Write::Retry { scheduled_at, error } => {
            assert_eq!(scheduled_at, moment("2026-10-01T12:01:00"));
            assert_eq!(error, "550 <b***@x.org> unknown");
        }
        Write::Finish { .. } => panic!("given up"),
    }
}

#[test]
fn smtp_configuration_is_optional() {
    assert_eq!(check_smtp_config(None), Ok(false));
    assert_eq!(check_smtp_config(Some(Ok(()))), Ok(true));
    assert_eq!(check_smtp_config(Some(Err("bad".to_string()))), Err("bad".to_string()));
}

#[test]
fn batches_go_out_by_priority_then_identifier() {
    let keys = vec![(5, Uuid(9)), (0, Uuid(7)), (5, Uuid(2)), (0, Uuid(7)), (9, Uuid(1))];
    assert_eq!(claim_order(&keys), vec![1, 3, 2, 0, 4]);
    assert!(claim_order(&vec![]).is_empty());
}

fn full_content() -> (Content, Footer) {
    let content = Content {
        subject: "Sub <1>".into(),
        heading: "Hi & bye".into(),
        paragraphs: vec!["One\ntwo".into(), "Three".into()],
        code: Some("123456".into()),
        items: vec!["<a>".into(), "b".into()],
        cta: Some(("Open \"it\"".into(), "https://x.y/?a=1&b=2".into())),
        note: Some("It's\nfine".into()),
    };
    let footer = Footer {
        reason: "Because.".into(),
        unsubscribe: Some(("Too much?".into(), "Stop".into(), "https://x.y/u".into())),
        terms: ("Terms".into(), "https://x.y/t".into()),
        privacy: ("Privacy".into(), "https://x.y/p".into()),
    };
    (content, footer)
}

#[test]
fn messages_are_laid_out_as_html() {
    let (content, footer) = full_content();
    let expected = r##"<!DOCTYPE html>
<html lang="pt-BR">
<head>
<meta charset="utf-8">
<meta name="viewport" content="width=device-width, initial-scale=1">
<meta name="color-scheme" content="light">
<title>Sub &lt;1&gt;</title>
</head>
<body style="margin:0;padding:0;background:#f4f2fa;">
<div style="display:none;max-height:0;overflow:hidden;opacity:0;">One
two</div>
<table role="presentation" width="100%" cellpadding="0" cellspacing="0" border="0" style="background:#f4f2fa;">
<tr><td align="center" style="padding:24px 12px;">
<table role="presentation" width="100%" cellpadding="0" cellspacing="0" border="0" style="max-width:560px;background:#ffffff;border:1px solid #e6e1f5;border-radius:12px;">
<tr><td style="padding:20px 28px;border-bottom:3px solid #6d28d9;font-family:-apple-system,BlinkMacSystemFont,'Segoe UI',Roboto,Helvetica,Arial,sans-serif;font-size:20px;font-weight:700;color:#6d28d9;">Setlyst</td></tr>
<tr><td style="padding:28px;font-family:-apple-system,BlinkMacSystemFont,'Segoe UI',Roboto,Helvetica,Arial,sans-serif;font-size:15px;line-height:1.6;color:#1f1b2e;"><h1 style="margin:0 0 16px;font-size:21px;line-height:1.3;color:#1f1b2e;">Hi &amp; bye</h1><p style="margin:0 0 14px;">One<br>two</p><p style="margin:0 0 14px;">Three</p><p style="margin:22px 0;text-align:center;"><span style="display:inline-block;padding:12px 22px;font-family:Menlo,Consolas,'Courier New',monospace;font-size:28px;font-weight:700;letter-spacing:6px;color:#1f1b2e;background:#f4f2fa;border-radius:8px;">123456</span></p><ul style="margin:0 0 14px;padding-left:20px;"><li style="margin:0 0 8px;">&lt;a&gt;</li><li style="margin:0 0 8px;">b</li></ul><table role="presentation" cellpadding="0" cellspacing="0" border="0" style="margin:22px 0;"><tr><td style="border-radius:8px;background:#6d28d9;"><a href="https://x.y/?a=1&amp;b=2" style="display:inline-block;padding:12px 22px;font-family:-apple-system,BlinkMacSystemFont,'Segoe UI',Roboto,Helvetica,Arial,sans-serif;font-size:15px;font-weight:600;color:#ffffff;text-decoration:none;border-radius:8px;">Open &quot;it&quot;</a></td></tr></table><p style="margin:18px 0 0;font-size:13px;color:#5b5670;">It&#39;s<br>fine</p></td></tr>
<tr><td style="padding:18px 28px;border-top:1px solid #eeeaf7;font-family:-apple-system,BlinkMacSystemFont,'Segoe UI',Roboto,Helvetica,Arial,sans-serif;font-size:12px;line-height:1.5;color:#6b6680;"><p style="margin:0 0 8px;">Because.</p><p style="margin:0 0 8px;">Too much? <a href="https://x.y/u" style="color:#6d28d9;">Stop</a></p><p style="margin:0;"><a href="https://x.y/t" style="color:#6d28d9;">Terms</a> &middot; <a href="https://x.y/p" style="color:#6d28d9;">Privacy</a></p></td></tr>
</table>
</td></tr>
</table>
</body>
</html>"##;
    assert_eq!(
        render_html(&ctx(Locale::PtBr, true), "Sub <1>", &content, &footer),
        expected
    );
}

#[test]
fn messages_are_laid_out_as_text() {
    let (content, footer) = full_content();
    assert_eq!(
        render_text(&content, &footer),
        "Hi & bye\n\nOne\ntwo\n\nThree\n\n    123456\n\n- <a>\n- b\n\n\
         Open \"it\": https://x.y/?a=1&b=2\n\nIt's\nfine\n\n--\nBecause.\n\
         Too much? Stop: https://x.y/u\nTerms: https://x.y/t\nPrivacy: https://x.y/p\n"
    );
}
