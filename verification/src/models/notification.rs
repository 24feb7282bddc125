//! Notifications of what others changed.

use crate::errors::api_error::{json_moment, moment_value};
use crate::ids::{id_text, id_value};
use crate::models::band::{band_role_key, BandRole};
use crate::models::communication::Category;
use crate::models::user::{role_key, Role};
use crate::time::moment_json;
use crate::ids::Uuid;
use crate::json::{
    Json, JsonValue, json_number, json_text, members, number_value, object_value, opt_text_value,
    text_value,
};
use crate::text::opt_str;
use crate::time::NaiveDateTime;
use vstd::prelude::*;

verus! {

/// The kind of system event a [`Notification`] reports. Every variant is
/// generated internally by the API in response to a state change made by
/// someone other than the recipient — notifications are never
/// user-authored.
#[derive(Debug, Clone, Copy, PartialEq, Eq, Structural)]
pub enum NotificationType {
    /// The recipient's role within a band changed (promotion or demotion).
    BandRoleChanged,
    /// The recipient was removed from a band by another member.
    BandMemberRemoved,
    /// The recipient's site-wide role changed (admin/moderator/user).
    PlatformRoleChanged,
    /// The recipient was added to a band directly by platform staff.
    BandMemberAdded,
    /// Staff took down the public link of one of the recipient's setlists
    /// or gigs.
    ShareLinkRevoked,
    /// A platform announcement targeted at the recipient.
    Announcement,
    /// New release notes were published.
    ReleasePublished,
    /// A band member suggested a song for one of the recipient's bands.
    BandSuggestionCreated,
    /// A song suggestion made by the recipient was accepted, rejected or
    /// withdrawn.
    BandSuggestionResolved,
    /// Staff acted on the recipient's profile (avatar removed, username
    /// reset...).
    ModerationAction,
    /// The recipient's plan or subscription status changed.
    SubscriptionChanged,
    /// The recipient's trial ends in a few days.
    TrialEnding,
    /// Credits were added to the recipient's balance.
    CreditsGranted,
    /// A security-relevant change on the account (2FA, e-mail, password).
    SecurityAlert,
}

/// The key of each [`NotificationType`].
pub open spec fn notification_type_key(x: NotificationType) -> Seq<char> {
    match x {
        NotificationType::BandRoleChanged => "band_role_changed"@,
        NotificationType::BandMemberRemoved => "band_member_removed"@,
        NotificationType::PlatformRoleChanged => "platform_role_changed"@,
        NotificationType::BandMemberAdded => "band_member_added"@,
        NotificationType::ShareLinkRevoked => "share_link_revoked"@,
        NotificationType::Announcement => "announcement"@,
        NotificationType::ReleasePublished => "release_published"@,
        NotificationType::BandSuggestionCreated => "band_suggestion_created"@,
        NotificationType::BandSuggestionResolved => "band_suggestion_resolved"@,
        NotificationType::ModerationAction => "moderation_action"@,
        NotificationType::SubscriptionChanged => "subscription_changed"@,
        NotificationType::TrialEnding => "trial_ending"@,
        NotificationType::CreditsGranted => "credits_granted"@,
        NotificationType::SecurityAlert => "security_alert"@,
    }
}

/// No two of them share a key.
pub proof fn notification_type_keys_are_distinct(a: NotificationType, b: NotificationType)
    ensures
        notification_type_key(a) == notification_type_key(b) ==> a == b,
{
    reveal_strlit("band_role_changed");
    reveal_strlit("band_member_removed");
    reveal_strlit("platform_role_changed");
    reveal_strlit("band_member_added");
    reveal_strlit("share_link_revoked");
    reveal_strlit("announcement");
    reveal_strlit("release_published");
    reveal_strlit("band_suggestion_created");
    reveal_strlit("band_suggestion_resolved");
    reveal_strlit("moderation_action");
    reveal_strlit("subscription_changed");
    reveal_strlit("trial_ending");
    reveal_strlit("credits_granted");
    reveal_strlit("security_alert");
    assert("band_role_changed"@.len() != "band_member_removed"@.len());
    assert("band_role_changed"@.len() != "platform_role_changed"@.len());
    assert("band_role_changed"@[5] != "band_member_added"@[5]);
    assert("band_role_changed"@.len() != "share_link_revoked"@.len());
    assert("band_role_changed"@.len() != "announcement"@.len());
    assert("band_role_changed"@[0] != "release_published"@[0]);
    assert("band_role_changed"@.len() != "band_suggestion_created"@.len());
    assert("band_role_changed"@.len() != "band_suggestion_resolved"@.len());
    assert("band_role_changed"@[0] != "moderation_action"@[0]);
    assert("band_role_changed"@.len() != "subscription_changed"@.len());
    assert("band_role_changed"@.len() != "trial_ending"@.len());
    assert("band_role_changed"@.len() != "credits_granted"@.len());
    assert("band_role_changed"@.len() != "security_alert"@.len());
    assert("band_member_removed"@.len() != "platform_role_changed"@.len());
    assert("band_member_removed"@.len() != "band_member_added"@.len());
    assert("band_member_removed"@.len() != "share_link_revoked"@.len());
    assert("band_member_removed"@.len() != "announcement"@.len());
    assert("band_member_removed"@.len() != "release_published"@.len());
    assert("band_member_removed"@.len() != "band_suggestion_created"@.len());
    assert("band_member_removed"@.len() != "band_suggestion_resolved"@.len());
    assert("band_member_removed"@.len() != "moderation_action"@.len());
    assert("band_member_removed"@.len() != "subscription_changed"@.len());
    assert("band_member_removed"@.len() != "trial_ending"@.len());
    assert("band_member_removed"@.len() != "credits_granted"@.len());
    assert("band_member_removed"@.len() != "security_alert"@.len());
    assert("platform_role_changed"@.len() != "band_member_added"@.len());
    assert("platform_role_changed"@.len() != "share_link_revoked"@.len());
    assert("platform_role_changed"@.len() != "announcement"@.len());
    assert("platform_role_changed"@.len() != "release_published"@.len());
    assert("platform_role_changed"@.len() != "band_suggestion_created"@.len());
    assert("platform_role_changed"@.len() != "band_suggestion_resolved"@.len());
    assert("platform_role_changed"@.len() != "moderation_action"@.len());
    assert("platform_role_changed"@.len() != "subscription_changed"@.len());
    assert("platform_role_changed"@.len() != "trial_ending"@.len());
    assert("platform_role_changed"@.len() != "credits_granted"@.len());
    assert("platform_role_changed"@.len() != "security_alert"@.len());
    assert("band_member_added"@.len() != "share_link_revoked"@.len());
    assert("band_member_added"@.len() != "announcement"@.len());
    assert("band_member_added"@[0] != "release_published"@[0]);
    assert("band_member_added"@.len() != "band_suggestion_created"@.len());
    assert("band_member_added"@.len() != "band_suggestion_resolved"@.len());
    assert("band_member_added"@[0] != "moderation_action"@[0]);
    assert("band_member_added"@.len() != "subscription_changed"@.len());
    assert("band_member_added"@.len() != "trial_ending"@.len());
    assert("band_member_added"@.len() != "credits_granted"@.len());
    assert("band_member_added"@.len() != "security_alert"@.len());
    assert("share_link_revoked"@.len() != "announcement"@.len());
    assert("share_link_revoked"@.len() != "release_published"@.len());
    assert("share_link_revoked"@.len() != "band_suggestion_created"@.len());
    assert("share_link_revoked"@.len() != "band_suggestion_resolved"@.len());
    assert("share_link_revoked"@.len() != "moderation_action"@.len());
    assert("share_link_revoked"@.len() != "subscription_changed"@.len());
    assert("share_link_revoked"@.len() != "trial_ending"@.len());
    assert("share_link_revoked"@.len() != "credits_granted"@.len());
    assert("share_link_revoked"@.len() != "security_alert"@.len());
    assert("announcement"@.len() != "release_published"@.len());
    assert("announcement"@.len() != "band_suggestion_created"@.len());
    assert("announcement"@.len() != "band_suggestion_resolved"@.len());
    assert("announcement"@.len() != "moderation_action"@.len());
    assert("announcement"@.len() != "subscription_changed"@.len());
    assert("announcement"@[0] != "trial_ending"@[0]);
    assert("announcement"@.len() != "credits_granted"@.len());
    assert("announcement"@.len() != "security_alert"@.len());
    assert("release_published"@.len() != "band_suggestion_created"@.len());
    assert("release_published"@.len() != "band_suggestion_resolved"@.len());
    assert("release_published"@[0] != "moderation_action"@[0]);
    assert("release_published"@.len() != "subscription_changed"@.len());
    assert("release_published"@.len() != "trial_ending"@.len());
    assert("release_published"@.len() != "credits_granted"@.len());
    assert("release_published"@.len() != "security_alert"@.len());
    assert("band_suggestion_created"@.len() != "band_suggestion_resolved"@.len());
    assert("band_suggestion_created"@.len() != "moderation_action"@.len());
    assert("band_suggestion_created"@.len() != "subscription_changed"@.len());
    assert("band_suggestion_created"@.len() != "trial_ending"@.len());
    assert("band_suggestion_created"@.len() != "credits_granted"@.len());
    assert("band_suggestion_created"@.len() != "security_alert"@.len());
    assert("band_suggestion_resolved"@.len() != "moderation_action"@.len());
    assert("band_suggestion_resolved"@.len() != "subscription_changed"@.len());
    assert("band_suggestion_resolved"@.len() != "trial_ending"@.len());
    assert("band_suggestion_resolved"@.len() != "credits_granted"@.len());
    assert("band_suggestion_resolved"@.len() != "security_alert"@.len());
    assert("moderation_action"@.len() != "subscription_changed"@.len());
    assert("moderation_action"@.len() != "trial_ending"@.len());
    assert("moderation_action"@.len() != "credits_granted"@.len());
    assert("moderation_action"@.len() != "security_alert"@.len());
    assert("subscription_changed"@.len() != "trial_ending"@.len());
    assert("subscription_changed"@.len() != "credits_granted"@.len());
    assert("subscription_changed"@.len() != "security_alert"@.len());
    assert("trial_ending"@.len() != "credits_granted"@.len());
    assert("trial_ending"@.len() != "security_alert"@.len());
    assert("credits_granted"@.len() != "security_alert"@.len());
}

impl NotificationType {
    pub fn key(&self) -> (r: &'static str)
        ensures
            r@ == notification_type_key(*self),
    {
        match self {
            NotificationType::BandRoleChanged => "band_role_changed",
            NotificationType::BandMemberRemoved => "band_member_removed",
            NotificationType::PlatformRoleChanged => "platform_role_changed",
            NotificationType::BandMemberAdded => "band_member_added",
            NotificationType::ShareLinkRevoked => "share_link_revoked",
            NotificationType::Announcement => "announcement",
            NotificationType::ReleasePublished => "release_published",
            NotificationType::BandSuggestionCreated => "band_suggestion_created",
            NotificationType::BandSuggestionResolved => "band_suggestion_resolved",
            NotificationType::ModerationAction => "moderation_action",
            NotificationType::SubscriptionChanged => "subscription_changed",
            NotificationType::TrialEnding => "trial_ending",
            NotificationType::CreditsGranted => "credits_granted",
            NotificationType::SecurityAlert => "security_alert",
        }
    }
}

/// The category of each kind of notification.
pub open spec fn notification_category(kind: NotificationType) -> Category {
    match kind {
        NotificationType::BandRoleChanged => Category::Bands,
        NotificationType::BandMemberRemoved => Category::Bands,
        NotificationType::PlatformRoleChanged => Category::Account,
        NotificationType::BandMemberAdded => Category::Bands,
        NotificationType::ShareLinkRevoked => Category::Account,
        NotificationType::Announcement => Category::Announcements,
        NotificationType::ReleasePublished => Category::ProductUpdates,
        NotificationType::BandSuggestionCreated => Category::Bands,
        NotificationType::BandSuggestionResolved => Category::Bands,
        NotificationType::ModerationAction => Category::Account,
        NotificationType::SubscriptionChanged => Category::Account,
        NotificationType::TrialEnding => Category::Account,
        NotificationType::CreditsGranted => Category::Account,
        NotificationType::SecurityAlert => Category::Security,
    }
}

impl NotificationType {
    /// The communication category that governs how this notification is
    /// delivered (see `models::communication`).
    pub fn category(&self) -> (r: Category)
        ensures
            r == notification_category(*self),
    {
        match self {
            NotificationType::BandRoleChanged => Category::Bands,
            NotificationType::BandMemberRemoved => Category::Bands,
            NotificationType::PlatformRoleChanged => Category::Account,
            NotificationType::BandMemberAdded => Category::Bands,
            NotificationType::ShareLinkRevoked => Category::Account,
            NotificationType::Announcement => Category::Announcements,
            NotificationType::ReleasePublished => Category::ProductUpdates,
            NotificationType::BandSuggestionCreated => Category::Bands,
            NotificationType::BandSuggestionResolved => Category::Bands,
            NotificationType::ModerationAction => Category::Account,
            NotificationType::SubscriptionChanged => Category::Account,
            NotificationType::TrialEnding => Category::Account,
            NotificationType::CreditsGranted => Category::Account,
            NotificationType::SecurityAlert => Category::Security,
        }
    }
}

#[derive(Debug, Clone)]
pub struct Notification {
    pub id: Uuid,
    pub user_id: Uuid,
    pub notification_type: NotificationType,
    /// Structured context for rendering the notification (band name, old
    /// and new roles, who made the change, etc). Left untyped on purpose —
    /// its shape depends on `notification_type`, and it exists purely for
    /// the frontend to interpolate into a translated message.
    pub data: JsonValue,
    pub read_at: Option<NaiveDateTime>,
    pub created_at: NaiveDateTime,
}

/// `n` tells `user_id` of an event of this kind, with this context, and was not
/// read yet.
pub open spec fn is_notification(
    n: Notification,
    user_id: Uuid,
    kind: NotificationType,
    data: Json,
) -> bool {
    &&& n.user_id == user_id
    &&& n.notification_type == kind
    &&& n.data@ == data
    &&& n.read_at is None
}

impl Notification {
    /// The notification with this identity, made at the moment `now`.
    pub fn made(
        user_id: Uuid,
        notification_type: NotificationType,
        data: JsonValue,
        id: Uuid,
        now: NaiveDateTime,
    ) -> (r: Self)
        ensures
            is_notification(r, user_id, notification_type, data@),
            r.id == id,
            r.created_at == now,
    {
        Notification { id, user_id, notification_type, data, read_at: None, created_at: now }
    }

    pub fn new(user_id: Uuid, notification_type: NotificationType, data: JsonValue) -> (r: Self)
        ensures
            is_notification(r, user_id, notification_type, data@),
    {
        Notification::made(
            user_id,
            notification_type,
            data,
            Uuid::new_v4(),
            NaiveDateTime::now(),
        )
    }
}

/// What `NotificationType::BandRoleChanged` notifications hold: its members in the order of their keys.
pub open spec fn band_role_changed_data(
    band_id: Uuid,
    band_name: &str,
    old_role: BandRole,
    new_role: BandRole,
    actor_id: Uuid,
) -> Json {
    Json::Object(
        seq![
        ("actor_id"@, Json::Text(id_text(actor_id))),
        ("band_id"@, Json::Text(id_text(band_id))),
        ("band_name"@, Json::Text(band_name@)),
        ("new_role"@, Json::Text(band_role_key(new_role))),
        ("old_role"@, Json::Text(band_role_key(old_role))),
        ],
    )
}

impl Notification {
    pub fn band_role_changed(
        user_id: Uuid,
        band_id: Uuid,
        band_name: &str,
        old_role: BandRole,
        new_role: BandRole,
        actor_id: Uuid,
    ) -> (r: Self)
        ensures
            is_notification(
                r,
                user_id,
                NotificationType::BandRoleChanged,
                band_role_changed_data(band_id, band_name, old_role, new_role, actor_id),
            ),
    {
        let mut m: Vec<(String, JsonValue)> = Vec::new();
        m.push(("actor_id".to_string(), id_value(actor_id)));
        m.push(("band_id".to_string(), id_value(band_id)));
        m.push(("band_name".to_string(), text_value(band_name)));
        m.push(("new_role".to_string(), text_value(new_role.name())));
        m.push(("old_role".to_string(), text_value(old_role.name())));
        assert(members(m@) =~= band_role_changed_data(band_id, band_name, old_role, new_role, actor_id)->Object_0);
        Notification::new(user_id, NotificationType::BandRoleChanged, object_value(m))
    }
}

/// What `NotificationType::BandMemberRemoved` notifications hold: its members in the order of their keys.
pub open spec fn band_member_removed_data(
    band_id: Uuid,
    band_name: &str,
    actor_id: Uuid,
) -> Json {
    Json::Object(
        seq![
        ("actor_id"@, Json::Text(id_text(actor_id))),
        ("band_id"@, Json::Text(id_text(band_id))),
        ("band_name"@, Json::Text(band_name@)),
        ],
    )
}

impl Notification {
    pub fn band_member_removed(
        user_id: Uuid,
        band_id: Uuid,
        band_name: &str,
        actor_id: Uuid,
    ) -> (r: Self)
        ensures
            is_notification(
                r,
                user_id,
                NotificationType::BandMemberRemoved,
                band_member_removed_data(band_id, band_name, actor_id),
            ),
    {
        let mut m: Vec<(String, JsonValue)> = Vec::new();
        m.push(("actor_id".to_string(), id_value(actor_id)));
        m.push(("band_id".to_string(), id_value(band_id)));
        m.push(("band_name".to_string(), text_value(band_name)));
        assert(members(m@) =~= band_member_removed_data(band_id, band_name, actor_id)->Object_0);
        Notification::new(user_id, NotificationType::BandMemberRemoved, object_value(m))
    }
}

/// What `NotificationType::PlatformRoleChanged` notifications hold: its members in the order of their keys.
pub open spec fn platform_role_changed_data(
    old_role: Role,
    new_role: Role,
    actor_id: Uuid,
) -> Json {
    Json::Object(
        seq![
        ("actor_id"@, Json::Text(id_text(actor_id))),
        ("new_role"@, Json::Text(role_key(new_role))),
        ("old_role"@, Json::Text(role_key(old_role))),
        ],
    )
}

impl Notification {
    pub fn platform_role_changed(
        user_id: Uuid,
        old_role: Role,
        new_role: Role,
        actor_id: Uuid,
    ) -> (r: Self)
        ensures
            is_notification(
                r,
                user_id,
                NotificationType::PlatformRoleChanged,
                platform_role_changed_data(old_role, new_role, actor_id),
            ),
    {
        let mut m: Vec<(String, JsonValue)> = Vec::new();
        m.push(("actor_id".to_string(), id_value(actor_id)));
        m.push(("new_role".to_string(), text_value(new_role.name())));
        m.push(("old_role".to_string(), text_value(old_role.name())));
        assert(members(m@) =~= platform_role_changed_data(old_role, new_role, actor_id)->Object_0);
        Notification::new(user_id, NotificationType::PlatformRoleChanged, object_value(m))
    }
}

/// What `NotificationType::BandMemberAdded` notifications hold: its members in the order of their keys.
pub open spec fn band_member_added_data(
    band_id: Uuid,
    band_name: &str,
    role: BandRole,
    actor_id: Uuid,
) -> Json {
    Json::Object(
        seq![
        ("actor_id"@, Json::Text(id_text(actor_id))),
        ("band_id"@, Json::Text(id_text(band_id))),
        ("band_name"@, Json::Text(band_name@)),
        ("role"@, Json::Text(band_role_key(role))),
        ],
    )
}

impl Notification {
    pub fn band_member_added(
        user_id: Uuid,
        band_id: Uuid,
        band_name: &str,
        role: BandRole,
        actor_id: Uuid,
    ) -> (r: Self)
        ensures
            is_notification(
                r,
                user_id,
                NotificationType::BandMemberAdded,
                band_member_added_data(band_id, band_name, role, actor_id),
            ),
    {
        let mut m: Vec<(String, JsonValue)> = Vec::new();
        m.push(("actor_id".to_string(), id_value(actor_id)));
        m.push(("band_id".to_string(), id_value(band_id)));
        m.push(("band_name".to_string(), text_value(band_name)));
        m.push(("role".to_string(), text_value(role.name())));
        assert(members(m@) =~= band_member_added_data(band_id, band_name, role, actor_id)->Object_0);
        Notification::new(user_id, NotificationType::BandMemberAdded, object_value(m))
    }
}

/// What `NotificationType::ShareLinkRevoked` notifications hold: its members in the order of their keys.
pub open spec fn share_link_revoked_data(
    kind: &str,
    target_id: Uuid,
    title: &str,
    reason: Option<&str>,
    actor_id: Uuid,
) -> Json {
    Json::Object(
        seq![
        ("actor_id"@, Json::Text(id_text(actor_id))),
        ("kind"@, Json::Text(kind@)),
        ("reason"@, json_text(opt_str(reason))),
        ("target_id"@, Json::Text(id_text(target_id))),
        ("title"@, Json::Text(title@)),
        ],
    )
}

impl Notification {
    /// `kind` is `"setlist"` or `"gig"`.
    pub fn share_link_revoked(
        user_id: Uuid,
        kind: &str,
        target_id: Uuid,
        title: &str,
        reason: Option<&str>,
        actor_id: Uuid,
    ) -> (r: Self)
        ensures
            is_notification(
                r,
                user_id,
                NotificationType::ShareLinkRevoked,
                share_link_revoked_data(kind, target_id, title, reason, actor_id),
            ),
    {
        let mut m: Vec<(String, JsonValue)> = Vec::new();
        m.push(("actor_id".to_string(), id_value(actor_id)));
        m.push(("kind".to_string(), text_value(kind)));
        m.push(("reason".to_string(), opt_text_value(reason)));
        m.push(("target_id".to_string(), id_value(target_id)));
        m.push(("title".to_string(), text_value(title)));
        assert(members(m@) =~= share_link_revoked_data(kind, target_id, title, reason, actor_id)->Object_0);
        Notification::new(user_id, NotificationType::ShareLinkRevoked, object_value(m))
    }
}

/// What `NotificationType::ModerationAction` notifications hold: its members in the order of their keys.
pub open spec fn moderation_action_data(
    action: &str,
    note: Option<&str>,
    band: Option<(Uuid, &str)>,
) -> Json {
    Json::Object(
        seq![
        ("action"@, Json::Text(action@)),
        ("band_id"@, match band {
            Some((id, _)) => Json::Text(id_text(id)),
            None => Json::Null,
        }),
        ("band_name"@, match band {
            Some((_, name)) => Json::Text(name@),
            None => Json::Null,
        }),
        ("note"@, json_text(opt_str(note))),
        ],
    )
}

impl Notification {
    /// Staff acted on the recipient's profile. `action` is the resolution
    /// (`avatar_removed`, `band_logo_removed`, `username_reset`).
    pub fn moderation_action(
        user_id: Uuid,
        action: &str,
        note: Option<&str>,
        band: Option<(Uuid, &str)>,
    ) -> (r: Self)
        ensures
            is_notification(
                r,
                user_id,
                NotificationType::ModerationAction,
                moderation_action_data(action, note, band),
            ),
    {
        let mut m: Vec<(String, JsonValue)> = Vec::new();
        m.push(("action".to_string(), text_value(action)));
        m.push(("band_id".to_string(), match band {
                    Some((id, _)) => id_value(id),
                    None => JsonValue::Null,
                }));
        m.push(("band_name".to_string(), match band {
                    Some((_, name)) => text_value(name),
                    None => JsonValue::Null,
                }));
        m.push(("note".to_string(), opt_text_value(note)));
        assert(members(m@) =~= moderation_action_data(action, note, band)->Object_0);
        Notification::new(user_id, NotificationType::ModerationAction, object_value(m))
    }
}

/// What `NotificationType::SubscriptionChanged` notifications hold: its members in the order of their keys.
pub open spec fn subscription_changed_data(
    kind: &str,
    plan_code: Option<&str>,
    status: Option<&str>,
    current_period_end: Option<NaiveDateTime>,
) -> Json {
    Json::Object(
        seq![
        ("current_period_end"@, json_moment(current_period_end)),
        ("kind"@, Json::Text(kind@)),
        ("plan_code"@, json_text(opt_str(plan_code))),
        ("status"@, json_text(opt_str(status))),
        ],
    )
}

impl Notification {
    /// `kind` is what happened (`plan_granted`, `trial_started`,
    /// `expired`, `revoked`...).
    pub fn subscription_changed(
        user_id: Uuid,
        kind: &str,
        plan_code: Option<&str>,
        status: Option<&str>,
        current_period_end: Option<NaiveDateTime>,
    ) -> (r: Self)
        ensures
            is_notification(
                r,
                user_id,
                NotificationType::SubscriptionChanged,
                subscription_changed_data(kind, plan_code, status, current_period_end),
            ),
    {
        let mut m: Vec<(String, JsonValue)> = Vec::new();
        m.push(("current_period_end".to_string(), moment_value(&current_period_end)));
        m.push(("kind".to_string(), text_value(kind)));
        m.push(("plan_code".to_string(), opt_text_value(plan_code)));
        m.push(("status".to_string(), opt_text_value(status)));
        assert(members(m@) =~= subscription_changed_data(kind, plan_code, status, current_period_end)->Object_0);
        Notification::new(user_id, NotificationType::SubscriptionChanged, object_value(m))
    }
}

/// What `NotificationType::TrialEnding` notifications hold: its members in the order of their keys.
pub open spec fn trial_ending_data(
    plan_code: &str,
    ends_at: NaiveDateTime,
) -> Json {
    Json::Object(
        seq![
        ("ends_at"@, Json::Text(moment_json(ends_at@))),
        ("plan_code"@, Json::Text(plan_code@)),
        ],
    )
}

impl Notification {
    pub fn trial_ending(
        user_id: Uuid,
        plan_code: &str,
        ends_at: NaiveDateTime,
    ) -> (r: Self)
        ensures
            is_notification(
                r,
                user_id,
                NotificationType::TrialEnding,
                trial_ending_data(plan_code, ends_at),
            ),
    {
        let mut m: Vec<(String, JsonValue)> = Vec::new();
        m.push(("ends_at".to_string(), JsonValue::Text(ends_at.to_text())));
        m.push(("plan_code".to_string(), text_value(plan_code)));
        assert(members(m@) =~= trial_ending_data(plan_code, ends_at)->Object_0);
        Notification::new(user_id, NotificationType::TrialEnding, object_value(m))
    }
}

/// What `NotificationType::CreditsGranted` notifications hold: its members in the order of their keys.
pub open spec fn credits_granted_data(
    amount: i32,
    reason: &str,
) -> Json {
    Json::Object(
        seq![
        ("amount"@, json_number(amount as int)),
        ("reason"@, Json::Text(reason@)),
        ],
    )
}

impl Notification {
    /// `reason` is the ledger reason (`referral_referrer`, `promo_code`...).
    pub fn credits_granted(
        user_id: Uuid,
        amount: i32,
        reason: &str,
    ) -> (r: Self)
        ensures
            is_notification(
                r,
                user_id,
                NotificationType::CreditsGranted,
                credits_granted_data(amount, reason),
            ),
    {
        let mut m: Vec<(String, JsonValue)> = Vec::new();
        m.push(("amount".to_string(), number_value(amount as i64)));
        m.push(("reason".to_string(), text_value(reason)));
        assert(members(m@) =~= credits_granted_data(amount, reason)->Object_0);
        Notification::new(user_id, NotificationType::CreditsGranted, object_value(m))
    }
}

/// What `NotificationType::SecurityAlert` notifications hold: its members in the order of their keys.
pub open spec fn security_alert_data(
    event: &str,
) -> Json {
    Json::Object(
        seq![
        ("event"@, Json::Text(event@)),
        ],
    )
}

impl Notification {
    /// `event` is `two_factor_enabled`, `two_factor_disabled`,
    /// `email_changed`, `password_changed` or `recovery_codes_regenerated`.
    pub fn security_alert(
        user_id: Uuid,
        event: &str,
    ) -> (r: Self)
        ensures
            is_notification(
                r,
                user_id,
                NotificationType::SecurityAlert,
                security_alert_data(event),
            ),
    {
        let mut m: Vec<(String, JsonValue)> = Vec::new();
        m.push(("event".to_string(), text_value(event)));
        assert(members(m@) =~= security_alert_data(event)->Object_0);
        Notification::new(user_id, NotificationType::SecurityAlert, object_value(m))
    }
}

/// What `NotificationType::ReleasePublished` notifications hold: its members in the order of their keys.
pub open spec fn release_published_data(
    version: &str,
    release_id: Uuid,
) -> Json {
    Json::Object(
        seq![
        ("release_id"@, Json::Text(id_text(release_id))),
        ("version"@, Json::Text(version@)),
        ],
    )
}

impl Notification {
    pub fn release_published(
        user_id: Uuid,
        version: &str,
        release_id: Uuid,
    ) -> (r: Self)
        ensures
            is_notification(
                r,
                user_id,
                NotificationType::ReleasePublished,
                release_published_data(version, release_id),
            ),
    {
        let mut m: Vec<(String, JsonValue)> = Vec::new();
        m.push(("release_id".to_string(), id_value(release_id)));
        m.push(("version".to_string(), text_value(version)));
        assert(members(m@) =~= release_published_data(version, release_id)->Object_0);
        Notification::new(user_id, NotificationType::ReleasePublished, object_value(m))
    }
}

/// What `NotificationType::BandSuggestionCreated` notifications hold: its members in the order of their keys.
pub open spec fn band_suggestion_created_data(
    band_id: Uuid,
    band_name: &str,
    suggestion_id: Uuid,
    song_title: &str,
    suggested_by: &str,
) -> Json {
    Json::Object(
        seq![
        ("band_id"@, Json::Text(id_text(band_id))),
        ("band_name"@, Json::Text(band_name@)),
        ("song_title"@, Json::Text(song_title@)),
        ("suggested_by"@, Json::Text(suggested_by@)),
        ("suggestion_id"@, Json::Text(id_text(suggestion_id))),
        ],
    )
}

impl Notification {
    /// A band member suggested a song (sent to the other members).
    /// `suggested_by` is the suggester's username.
    pub fn band_suggestion_created(
        user_id: Uuid,
        band_id: Uuid,
        band_name: &str,
        suggestion_id: Uuid,
        song_title: &str,
        suggested_by: &str,
    ) -> (r: Self)
        ensures
            is_notification(
                r,
                user_id,
                NotificationType::BandSuggestionCreated,
                band_suggestion_created_data(band_id, band_name, suggestion_id, song_title, suggested_by),
            ),
    {
        let mut m: Vec<(String, JsonValue)> = Vec::new();
        m.push(("band_id".to_string(), id_value(band_id)));
        m.push(("band_name".to_string(), text_value(band_name)));
        m.push(("song_title".to_string(), text_value(song_title)));
        m.push(("suggested_by".to_string(), text_value(suggested_by)));
        m.push(("suggestion_id".to_string(), id_value(suggestion_id)));
        assert(members(m@) =~= band_suggestion_created_data(band_id, band_name, suggestion_id, song_title, suggested_by)->Object_0);
        Notification::new(user_id, NotificationType::BandSuggestionCreated, object_value(m))
    }
}

/// What `NotificationType::BandSuggestionResolved` notifications hold: its members in the order of their keys.
pub open spec fn band_suggestion_resolved_data(
    band_id: Uuid,
    band_name: &str,
    suggestion_id: Uuid,
    song_title: &str,
    status: &str,
) -> Json {
    Json::Object(
        seq![
        ("band_id"@, Json::Text(id_text(band_id))),
        ("band_name"@, Json::Text(band_name@)),
        ("song_title"@, Json::Text(song_title@)),
        ("status"@, Json::Text(status@)),
        ("suggestion_id"@, Json::Text(id_text(suggestion_id))),
        ],
    )
}

impl Notification {
    /// The recipient's suggestion was closed. `status` is `accepted`,
    /// `rejected` or `withdrawn`.
    pub fn band_suggestion_resolved(
        user_id: Uuid,
        band_id: Uuid,
        band_name: &str,
        suggestion_id: Uuid,
        song_title: &str,
        status: &str,
    ) -> (r: Self)
        ensures
            is_notification(
                r,
                user_id,
                NotificationType::BandSuggestionResolved,
                band_suggestion_resolved_data(band_id, band_name, suggestion_id, song_title, status),
            ),
    {
        let mut m: Vec<(String, JsonValue)> = Vec::new();
        m.push(("band_id".to_string(), id_value(band_id)));
        m.push(("band_name".to_string(), text_value(band_name)));
        m.push(("song_title".to_string(), text_value(song_title)));
        m.push(("status".to_string(), text_value(status)));
        m.push(("suggestion_id".to_string(), id_value(suggestion_id)));
        assert(members(m@) =~= band_suggestion_resolved_data(band_id, band_name, suggestion_id, song_title, status)->Object_0);
        Notification::new(user_id, NotificationType::BandSuggestionResolved, object_value(m))
    }
}

/// Response for `GET /notifications/unread-count`.
#[derive(Debug, Clone)]
pub struct UnreadCountResponse {
    pub unread_count: i64,
}

} // verus!
