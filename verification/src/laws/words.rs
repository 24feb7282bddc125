//! The words under which values are stored.

use crate::models::announcement::{
    announcement_level_key, announcement_status_key, AnnouncementLevel, AnnouncementStatus,
};
use crate::models::band::{band_role_key, BandRole};
use crate::models::billing::{
    billing_interval_key, provider_interval, subscription_status_key, BillingInterval,
    SubscriptionStatus,
};
use crate::models::communication::{category_key, Category};
use crate::models::moderation::{
    moderation_target_key, resolve_action_key, ModerationTarget, ResolveAction,
};
use crate::models::notification::{notification_type_key, NotificationType};
use crate::models::pin::{pin_item_type_key, PinItemType};
use crate::models::quota::{quota_resource_key, QuotaResource};
use crate::models::security::{verification_purpose_key, VerificationPurpose};
use crate::models::suggestion::{suggestion_status_key, SuggestionStatus};
use crate::models::trash::{trash_type_key, TrashType};
use crate::models::user::{report_reason_key, role_key, ReportReason, Role};
use vstd::prelude::*;

verus! {

/// The word of each `AnnouncementLevel`.
pub proof fn announcement_level_words(x: AnnouncementLevel)
    ensures
        x == AnnouncementLevel::Info ==> announcement_level_key(x) == "info"@,
        x == AnnouncementLevel::Success ==> announcement_level_key(x) == "success"@,
        x == AnnouncementLevel::Warning ==> announcement_level_key(x) == "warning"@,
        x == AnnouncementLevel::Critical ==> announcement_level_key(x) == "critical"@,
{
}

/// The word of each `AnnouncementStatus`.
pub proof fn announcement_status_words(x: AnnouncementStatus)
    ensures
        x == AnnouncementStatus::Draft ==> announcement_status_key(x) == "draft"@,
        x == AnnouncementStatus::Scheduled ==> announcement_status_key(x) == "scheduled"@,
        x == AnnouncementStatus::Active ==> announcement_status_key(x) == "active"@,
        x == AnnouncementStatus::Ended ==> announcement_status_key(x) == "ended"@,
        x == AnnouncementStatus::Archived ==> announcement_status_key(x) == "archived"@,
{
}

/// The word of each `NotificationType`.
pub proof fn notification_type_words(x: NotificationType)
    ensures
        x == NotificationType::BandRoleChanged ==> notification_type_key(x) == "band_role_changed"@,
        x == NotificationType::BandMemberRemoved ==> notification_type_key(x) == "band_member_removed"@,
        x == NotificationType::PlatformRoleChanged ==> notification_type_key(x) == "platform_role_changed"@,
        x == NotificationType::BandMemberAdded ==> notification_type_key(x) == "band_member_added"@,
        x == NotificationType::ShareLinkRevoked ==> notification_type_key(x) == "share_link_revoked"@,
        x == NotificationType::Announcement ==> notification_type_key(x) == "announcement"@,
        x == NotificationType::ReleasePublished ==> notification_type_key(x) == "release_published"@,
        x == NotificationType::BandSuggestionCreated ==> notification_type_key(x) == "band_suggestion_created"@,
        x == NotificationType::BandSuggestionResolved ==> notification_type_key(x) == "band_suggestion_resolved"@,
        x == NotificationType::ModerationAction ==> notification_type_key(x) == "moderation_action"@,
        x == NotificationType::SubscriptionChanged ==> notification_type_key(x) == "subscription_changed"@,
        x == NotificationType::TrialEnding ==> notification_type_key(x) == "trial_ending"@,
        x == NotificationType::CreditsGranted ==> notification_type_key(x) == "credits_granted"@,
        x == NotificationType::SecurityAlert ==> notification_type_key(x) == "security_alert"@,
{
}

/// The word of each `SuggestionStatus`.
pub proof fn suggestion_status_words(x: SuggestionStatus)
    ensures
        x == SuggestionStatus::Open ==> suggestion_status_key(x) == "open"@,
        x == SuggestionStatus::Accepted ==> suggestion_status_key(x) == "accepted"@,
        x == SuggestionStatus::Rejected ==> suggestion_status_key(x) == "rejected"@,
        x == SuggestionStatus::Withdrawn ==> suggestion_status_key(x) == "withdrawn"@,
{
}

/// The word of each `TrashType`.
pub proof fn trash_type_words(x: TrashType)
    ensures
        x == TrashType::Song ==> trash_type_key(x) == "song"@,
        x == TrashType::Artist ==> trash_type_key(x) == "artist"@,
        x == TrashType::Setlist ==> trash_type_key(x) == "setlist"@,
        x == TrashType::Gig ==> trash_type_key(x) == "gig"@,
        x == TrashType::Tour ==> trash_type_key(x) == "tour"@,
{
}

/// The word of each `VerificationPurpose`.
pub proof fn verification_purpose_words(x: VerificationPurpose)
    ensures
        x == VerificationPurpose::EmailVerification ==> verification_purpose_key(x) == "email_verification"@,
        x == VerificationPurpose::PasswordReset ==> verification_purpose_key(x) == "password_reset"@,
        x == VerificationPurpose::EmailChange ==> verification_purpose_key(x) == "email_change"@,
{
}

/// The word of each `QuotaResource`.
pub proof fn quota_resource_words(x: QuotaResource)
    ensures
        x == QuotaResource::Songs ==> quota_resource_key(x) == "songs"@,
        x == QuotaResource::Artists ==> quota_resource_key(x) == "artists"@,
        x == QuotaResource::Setlists ==> quota_resource_key(x) == "setlists"@,
        x == QuotaResource::Gigs ==> quota_resource_key(x) == "gigs"@,
        x == QuotaResource::Tags ==> quota_resource_key(x) == "tags"@,
        x == QuotaResource::BandsOwned ==> quota_resource_key(x) == "bands_owned"@,
        x == QuotaResource::BandMemberships ==> quota_resource_key(x) == "band_memberships"@,
        x == QuotaResource::BandMembers ==> quota_resource_key(x) == "band_members"@,
        x == QuotaResource::BandSetlists ==> quota_resource_key(x) == "band_setlists"@,
        x == QuotaResource::BandGigs ==> quota_resource_key(x) == "band_gigs"@,
        x == QuotaResource::BandSongs ==> quota_resource_key(x) == "band_songs"@,
        x == QuotaResource::SetlistItems ==> quota_resource_key(x) == "setlist_items"@,
{
}

/// The word of each `ModerationTarget`.
pub proof fn moderation_target_words(x: ModerationTarget)
    ensures
        x == ModerationTarget::Avatar ==> moderation_target_key(x) == "avatar"@,
        x == ModerationTarget::Username ==> moderation_target_key(x) == "username"@,
        x == ModerationTarget::BandLogo ==> moderation_target_key(x) == "band_logo"@,
        x == ModerationTarget::Profile ==> moderation_target_key(x) == "profile"@,
{
}

/// The word of each `ResolveAction`.
pub proof fn resolve_action_words(x: ResolveAction)
    ensures
        x == ResolveAction::Dismiss ==> resolve_action_key(x) == "dismissed"@,
        x == ResolveAction::RemoveAvatar ==> resolve_action_key(x) == "avatar_removed"@,
        x == ResolveAction::RemoveBandLogo ==> resolve_action_key(x) == "band_logo_removed"@,
        x == ResolveAction::ResetUsername ==> resolve_action_key(x) == "username_reset"@,
{
}

/// The word of each `Category`.
pub proof fn category_words(x: Category)
    ensures
        x == Category::Security ==> category_key(x) == "security"@,
        x == Category::Account ==> category_key(x) == "account"@,
        x == Category::Bands ==> category_key(x) == "bands"@,
        x == Category::Announcements ==> category_key(x) == "announcements"@,
        x == Category::ProductUpdates ==> category_key(x) == "product_updates"@,
        x == Category::Marketing ==> category_key(x) == "marketing"@,
{
}

/// The word of each `BandRole`.
pub proof fn band_role_words(x: BandRole)
    ensures
        x == BandRole::Owner ==> band_role_key(x) == "owner"@,
        x == BandRole::Admin ==> band_role_key(x) == "admin"@,
        x == BandRole::Moderator ==> band_role_key(x) == "moderator"@,
        x == BandRole::Member ==> band_role_key(x) == "member"@,
{
}

/// The word of each `Role`.
pub proof fn role_words(x: Role)
    ensures
        x == Role::User ==> role_key(x) == "user"@,
        x == Role::Moderator ==> role_key(x) == "moderator"@,
        x == Role::Admin ==> role_key(x) == "admin"@,
{
}

/// The word of each `ReportReason`.
pub proof fn report_reason_words(x: ReportReason)
    ensures
        x == ReportReason::InappropriateAvatar ==> report_reason_key(x) == "inappropriate_avatar"@,
        x == ReportReason::OffensiveUsername ==> report_reason_key(x) == "offensive_username"@,
        x == ReportReason::Impersonation ==> report_reason_key(x) == "impersonation"@,
        x == ReportReason::Spam ==> report_reason_key(x) == "spam"@,
        x == ReportReason::Other ==> report_reason_key(x) == "other"@,
{
}

/// The word of each `SubscriptionStatus`.
pub proof fn subscription_status_words(x: SubscriptionStatus)
    ensures
        x == SubscriptionStatus::Trialing ==> subscription_status_key(x) == "trialing"@,
        x == SubscriptionStatus::Active ==> subscription_status_key(x) == "active"@,
        x == SubscriptionStatus::PastDue ==> subscription_status_key(x) == "past_due"@,
        x == SubscriptionStatus::Canceled ==> subscription_status_key(x) == "canceled"@,
        x == SubscriptionStatus::Expired ==> subscription_status_key(x) == "expired"@,
{
}

/// The word of each `BillingInterval`.
pub proof fn billing_interval_words(x: BillingInterval)
    ensures
        x == BillingInterval::Monthly ==> billing_interval_key(x) == "monthly"@,
        x == BillingInterval::Yearly ==> billing_interval_key(x) == "yearly"@,
{
}

/// The word of each `BillingInterval`.
pub proof fn intervals_are_told_to_the_provider(x: BillingInterval)
    ensures
        x == BillingInterval::Monthly ==> provider_interval(x) == "month"@,
        x == BillingInterval::Yearly ==> provider_interval(x) == "year"@,
{
}

/// The word of each `PinItemType`.
pub proof fn pin_item_type_words(x: PinItemType)
    ensures
        x == PinItemType::Setlist ==> pin_item_type_key(x) == "setlist"@,
        x == PinItemType::Band ==> pin_item_type_key(x) == "band"@,
        x == PinItemType::Song ==> pin_item_type_key(x) == "song"@,
        x == PinItemType::Tour ==> pin_item_type_key(x) == "tour"@,
        x == PinItemType::Gig ==> pin_item_type_key(x) == "gig"@,
{
}

} // verus!
