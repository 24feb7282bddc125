//! What requests have to keep to.

use crate::models::admin::RevokeSharePayload;
use crate::models::announcement::AudiencePayload;
use crate::models::artist::{CreateArtistPayload, UpdateArtistPayload};
use crate::models::auth::{
    ForgotPasswordPayload, GoogleSignInPayload, LoginPayload, LoginTwoFactorPayload,
    ResetPasswordPayload,
};
use crate::models::band::{
    all_configurable, configurable_error, BandRolePermissionEntry, CreateBandInvitePayload,
    CreateBandPayload, UpdateBandMemberTitlePayload, UpdateBandPayload,
    UpdateBandRolePermissionsPayload,
};
use crate::models::band_note::{content_error, CreateBandNotePayload, UpdateBandNotePayload};
use crate::models::billing::{
    amount_error, currency_error, headline_error, plan_description_error, plan_name_error,
    price_error, promo_code_error, rewards_valid, AdjustCreditsPayload, BillingSettings,
    CheckoutPayload, CreatePromoCodePayload, CreatePromotionPayload, GrantSubscriptionPayload,
    GrantTrialsPayload, RedeemCodePayload, RedeemRewardPayload, ReferralSettings, Reward,
    StaffRefundPayload, UpdatePromotionPayload, UpsertPlanPayload,
};
use crate::models::communication::UnsubscribePayload;
use crate::models::gig::{CreateGigPayload, UpdateGigPayload};
use crate::models::moderation::ResolveFlagPayload;
use crate::models::pin::ReorderPinsPayload;
use crate::models::quota::{limit_error, QuotaLimits, QuotaOverrides, UpdateUserQuotaPayload};
use crate::models::release_note::{
    item_views, items_error, title_error, version_error, CreateReleaseNotePayload,
    UpdateReleaseNotePayload,
};
use crate::models::security::{
    EmailChangePayload, EmailCodePayload, PasswordConfirmationPayload, TwoFactorCodePayload,
    TwoFactorDisablePayload,
};
use crate::models::setlist::{
    CreateSetlistBlockPayload, CreateSetlistBreakPayload, CreateSetlistPayload,
    DuplicateSetlistPayload, ReorderSetlistItemsPayload, ReorderSetlistSongsPayload,
    UpdateSetlistBlockPayload, UpdateSetlistBreakPayload, UpdateSetlistPayload,
};
use crate::models::song::{CreateSongPayload, RenameTagPayload, UpdateSongPayload};
use crate::models::suggestion::{
    vote_error, CreateSuggestionPayload, ResolveSuggestionPayload, VotePayload,
};
use crate::models::tour::{name_error, UpdateTourPayload};
use crate::models::user::{
    bio_error, email_error, instruments_error, locale_error, location_error, optional_email_error,
    referral_error, AcceptTermsPayload, AdminResetPasswordPayload, BanUserPayload,
    ChangePasswordPayload, CreateUserPayload, DeleteAccountPayload, RegisterPayload,
    ReportUserPayload, UpdateCurrentUserPayload, UpdateUserPayload,
};
use crate::models::user_preferences::{language_error, settings_error, UpdatePreferencesPayload};
use crate::text::texts;
use crate::validation::{has_errors, ErrorView, Wrong};
use vstd::prelude::*;

verus! {

/// The one error is of this field and has this code.
pub open spec fn only_error(w: Wrong, field: Seq<char>, code: Seq<char>) -> bool {
    &&& w.fields.len() == 1
    &&& w.fields[0].field == field
    &&& w.fields[0].error.code == code
    &&& !w.nested
}

/// What a `RevokeSharePayload` has to keep to, and which field is told where it does not.
pub proof fn revoke_share_payloads_keep_their_bounds(
    p: RevokeSharePayload,
    reason: Option<ErrorView>,
)
    ensures
        !has_errors(p.broken_rules(reason)) <==> (reason is None),
        !(reason is None) ==> only_error(p.broken_rules(reason), "reason"@, reason->0.code),
{
}

/// What an `AudiencePayload` has to keep to, and which field is told where it does not.
pub proof fn audience_payloads_keep_their_bounds(p: AudiencePayload)
    ensures
        !has_errors(p.broken_rules()) <==> (p.audience_roles matches Some(x) ==> x@.len() <= 3)
            && (p.audience_plans matches Some(x) ==> x@.len() <= 20)
            && (p.audience_locales matches Some(x) ==> x@.len() <= 3),
        !(p.audience_roles matches Some(x) ==> x@.len() <= 3)
            && (p.audience_plans matches Some(x) ==> x@.len() <= 20)
            && (p.audience_locales matches Some(x) ==> x@.len() <= 3)
            ==> only_error(p.broken_rules(), "audience_roles"@, "length"@),
        !(p.audience_plans matches Some(x) ==> x@.len() <= 20)
            && (p.audience_roles matches Some(x) ==> x@.len() <= 3)
            && (p.audience_locales matches Some(x) ==> x@.len() <= 3)
            ==> only_error(p.broken_rules(), "audience_plans"@, "length"@),
        !(p.audience_locales matches Some(x) ==> x@.len() <= 3)
            && (p.audience_roles matches Some(x) ==> x@.len() <= 3)
            && (p.audience_plans matches Some(x) ==> x@.len() <= 20)
            ==> only_error(p.broken_rules(), "audience_locales"@, "length"@),
{
}

/// What a `CreateArtistPayload` has to keep to, and which field is told where it does not.
pub proof fn create_artist_payloads_keep_their_bounds(p: CreateArtistPayload)
    ensures
        !has_errors(p.broken_rules()) <==> (1 <= p.name@.len() <= 255),
        !(1 <= p.name@.len() <= 255) ==> only_error(p.broken_rules(), "name"@, "length"@),
{
}

/// What an `UpdateArtistPayload` has to keep to, and which field is told where it does not.
pub proof fn update_artist_payloads_keep_their_bounds(p: UpdateArtistPayload)
    ensures
        !has_errors(p.broken_rules()) <==> (p.name matches Some(x) ==> 1 <= x@.len() <= 255),
        !(p.name matches Some(x) ==> 1 <= x@.len() <= 255) ==> only_error(p.broken_rules(), "name"@, "length"@),
{
}

/// What a `LoginPayload` has to keep to, and which field is told where it does not.
pub proof fn login_payloads_keep_their_bounds(p: LoginPayload)
    ensures
        !has_errors(p.broken_rules()) <==> (1 <= p.username@.len() <= 254)
            && (1 <= p.password@.len() <= 256),
        !(1 <= p.username@.len() <= 254)
            && (1 <= p.password@.len() <= 256)
            ==> only_error(p.broken_rules(), "username"@, "length"@),
        !(1 <= p.password@.len() <= 256)
            && (1 <= p.username@.len() <= 254)
            ==> only_error(p.broken_rules(), "password"@, "length"@),
{
}

/// What a `LoginTwoFactorPayload` has to keep to, and which field is told where it does not.
pub proof fn login_two_factor_payloads_keep_their_bounds(p: LoginTwoFactorPayload)
    ensures
        !has_errors(p.broken_rules()) <==> (1 <= p.challenge_token@.len() <= 128)
            && (p.code matches Some(x) ==> 6 <= x@.len() <= 8)
            && (p.recovery_code matches Some(x) ==> 8 <= x@.len() <= 16),
        !(1 <= p.challenge_token@.len() <= 128) && (p.code matches Some(x) ==> 6 <= x@.len() <= 8)
            && (p.recovery_code matches Some(x) ==> 8 <= x@.len() <= 16)
            ==> only_error(p.broken_rules(), "challenge_token"@, "length"@),
        !(p.code matches Some(x) ==> 6 <= x@.len() <= 8) && (1 <= p.challenge_token@.len() <= 128)
            && (p.recovery_code matches Some(x) ==> 8 <= x@.len() <= 16)
            ==> only_error(p.broken_rules(), "code"@, "length"@),
        !(p.recovery_code matches Some(x) ==> 8 <= x@.len() <= 16)
            && (1 <= p.challenge_token@.len() <= 128)
            && (p.code matches Some(x) ==> 6 <= x@.len() <= 8)
            ==> only_error(p.broken_rules(), "recovery_code"@, "length"@),
{
}

/// What a `ForgotPasswordPayload` has to keep to, and which field is told where it does not.
pub proof fn forgot_password_payloads_keep_their_bounds(p: ForgotPasswordPayload)
    ensures
        !has_errors(p.broken_rules()) <==> (1 <= p.identifier@.len() <= 254),
        !(1 <= p.identifier@.len() <= 254) ==> only_error(p.broken_rules(), "identifier"@, "length"@),
{
}

/// What a `ResetPasswordPayload` has to keep to, and which field is told where it does not.
pub proof fn reset_password_payloads_keep_their_bounds(p: ResetPasswordPayload)
    ensures
        !has_errors(p.broken_rules()) <==> (1 <= p.identifier@.len() <= 254)
            && (p.code@.len() == 6)
            && (p.new_password@.len() <= 1024),
        !(1 <= p.identifier@.len() <= 254) && (p.code@.len() == 6)
            && (p.new_password@.len() <= 1024)
            ==> only_error(p.broken_rules(), "identifier"@, "length"@),
        !(p.code@.len() == 6) && (1 <= p.identifier@.len() <= 254)
            && (p.new_password@.len() <= 1024) ==> only_error(p.broken_rules(), "code"@, "length"@),
        !(p.new_password@.len() <= 1024) && (1 <= p.identifier@.len() <= 254)
            && (p.code@.len() == 6) ==> only_error(p.broken_rules(), "new_password"@, "length"@),
{
}

/// What a `GoogleSignInPayload` has to keep to, and which field is told where it does not.
pub proof fn google_sign_in_payloads_keep_their_bounds(p: GoogleSignInPayload)
    ensures
        !has_errors(p.broken_rules()) <==> (20 <= p.id_token@.len() <= 8192)
            && (p.referral_code matches Some(x) ==> x@.len() <= 32)
            && (p.locale matches Some(x) ==> x@.len() <= 10),
        !(20 <= p.id_token@.len() <= 8192) && (p.referral_code matches Some(x) ==> x@.len() <= 32)
            && (p.locale matches Some(x) ==> x@.len() <= 10)
            ==> only_error(p.broken_rules(), "id_token"@, "length"@),
        !(p.referral_code matches Some(x) ==> x@.len() <= 32) && (20 <= p.id_token@.len() <= 8192)
            && (p.locale matches Some(x) ==> x@.len() <= 10)
            ==> only_error(p.broken_rules(), "referral_code"@, "length"@),
        !(p.locale matches Some(x) ==> x@.len() <= 10) && (20 <= p.id_token@.len() <= 8192)
            && (p.referral_code matches Some(x) ==> x@.len() <= 32)
            ==> only_error(p.broken_rules(), "locale"@, "length"@),
{
}

/// What a `CreateBandPayload` has to keep to, and which field is told where it does not.
pub proof fn create_band_payloads_keep_their_bounds(
    p: CreateBandPayload,
    name: Option<ErrorView>,
    description: Option<ErrorView>,
)
    ensures
        !has_errors(p.broken_rules(name, description)) <==> (name is None)
            && (description is None),
        !(name is None)
            && (description is None)
            ==> only_error(p.broken_rules(name, description), "name"@, name->0.code),
        !(description is None)
            && (name is None)
            ==> only_error(p.broken_rules(name, description), "description"@, description->0.code),
{
}

/// What an `UpdateBandPayload` has to keep to, and which field is told where it does not.
pub proof fn update_band_payloads_keep_their_bounds(
    p: UpdateBandPayload,
    name: Option<ErrorView>,
    description: Option<ErrorView>,
    logo_url: Option<ErrorView>,
)
    ensures
        !has_errors(p.broken_rules(name, description, logo_url)) <==> (name is None)
            && (description is None)
            && (logo_url is None)
            && (p.suggestion_auto_accept_votes matches Some(Some(x)) ==> 1 <= x <= 100),
        !(name is None) && (description is None) && (logo_url is None)
            && (p.suggestion_auto_accept_votes matches Some(Some(x)) ==> 1 <= x <= 100)
            ==> only_error(p.broken_rules(name, description, logo_url), "name"@, name->0.code),
        !(description is None) && (name is None) && (logo_url is None)
            && (p.suggestion_auto_accept_votes matches Some(Some(x)) ==> 1 <= x <= 100)
            ==> only_error(p.broken_rules(name, description, logo_url), "description"@, description->0.code),
        !(logo_url is None) && (name is None) && (description is None)
            && (p.suggestion_auto_accept_votes matches Some(Some(x)) ==> 1 <= x <= 100)
            ==> only_error(p.broken_rules(name, description, logo_url), "logo_url"@, logo_url->0.code),
        !(p.suggestion_auto_accept_votes matches Some(Some(x)) ==> 1 <= x <= 100)
            && (name is None) && (description is None)
            && (logo_url is None)
            ==> only_error(p.broken_rules(name, description, logo_url), "suggestion_auto_accept_votes"@, "range"@),
{
}

/// What an `UpdateBandMemberTitlePayload` has to keep to, and which field is told where it does not.
pub proof fn update_band_member_title_payloads_keep_their_bounds(p: UpdateBandMemberTitlePayload)
    ensures
        !has_errors(p.broken_rules()) <==> (p.title matches Some(x) ==> x@.len() <= 50),
        !(p.title matches Some(x) ==> x@.len() <= 50) ==> only_error(p.broken_rules(), "title"@, "length"@),
{
}

/// What a `BandRolePermissionEntry` has to keep to, and which field is told where it does not.
pub proof fn band_role_permission_entrys_keep_their_bounds(p: BandRolePermissionEntry)
    ensures
        !has_errors(p.broken_rules()) <==> (configurable_error(p.role) is None),
        !(configurable_error(p.role) is None) ==> only_error(p.broken_rules(), "role"@, configurable_error(p.role)->0.code),
{
}

/// What an `UpdateBandRolePermissionsPayload` has to keep to, and which field is told where it does not.
pub proof fn update_band_role_permissions_payloads_keep_their_bounds(
    p: UpdateBandRolePermissionsPayload,
)
    ensures
        !has_errors(p.broken_rules()) <==> (1 <= p.permissions@.len() <= 20)
            && (all_configurable(p.permissions@)),
        !(1 <= p.permissions@.len() <= 20)
            && (all_configurable(p.permissions@))
            ==> only_error(p.broken_rules(), "permissions"@, "length"@),
{
}

/// What a `CreateBandInvitePayload` has to keep to, and which field is told where it does not.
pub proof fn create_band_invite_payloads_keep_their_bounds(p: CreateBandInvitePayload)
    ensures
        !has_errors(p.broken_rules()) <==> (p.max_uses matches Some(x) ==> 1 <= x <= 1000)
            && (p.expires_in_hours matches Some(x) ==> 1 <= x <= 8760),
        !(p.max_uses matches Some(x) ==> 1 <= x <= 1000)
            && (p.expires_in_hours matches Some(x) ==> 1 <= x <= 8760)
            ==> only_error(p.broken_rules(), "max_uses"@, "range"@),
        !(p.expires_in_hours matches Some(x) ==> 1 <= x <= 8760)
            && (p.max_uses matches Some(x) ==> 1 <= x <= 1000)
            ==> only_error(p.broken_rules(), "expires_in_hours"@, "range"@),
{
}

/// What a `CreateBandNotePayload` has to keep to, and which field is told where it does not.
pub proof fn create_band_note_payloads_keep_their_bounds(p: CreateBandNotePayload)
    ensures
        !has_errors(p.broken_rules()) <==> (content_error(p.content@) is None),
        !(content_error(p.content@) is None) ==> only_error(p.broken_rules(), "content"@, content_error(p.content@)->0.code),
{
}

/// What an `UpdateBandNotePayload` has to keep to, and which field is told where it does not.
pub proof fn update_band_note_payloads_keep_their_bounds(p: UpdateBandNotePayload)
    ensures
        !has_errors(p.broken_rules()) <==> ((match p.content { Some(x) => content_error(x@), None => None }) is None),
        !((match p.content { Some(x) => content_error(x@), None => None }) is None) ==> only_error(p.broken_rules(), "content"@, (match p.content { Some(x) => content_error(x@), None => None })->0.code),
{
}

/// What a `ReferralSettings` has to keep to, and which field is told where it does not.
pub proof fn referral_settingss_keep_their_bounds(p: ReferralSettings)
    ensures
        !has_errors(p.broken_rules()) <==> (0 <= p.referrer_credits <= 100_000)
            && (0 <= p.referred_credits <= 100_000)
            && (0 <= p.max_rewarded_per_month <= 10_000),
        !(0 <= p.referrer_credits <= 100_000) && (0 <= p.referred_credits <= 100_000)
            && (0 <= p.max_rewarded_per_month <= 10_000)
            ==> only_error(p.broken_rules(), "referrer_credits"@, "range"@),
        !(0 <= p.referred_credits <= 100_000) && (0 <= p.referrer_credits <= 100_000)
            && (0 <= p.max_rewarded_per_month <= 10_000)
            ==> only_error(p.broken_rules(), "referred_credits"@, "range"@),
        !(0 <= p.max_rewarded_per_month <= 10_000) && (0 <= p.referrer_credits <= 100_000)
            && (0 <= p.referred_credits <= 100_000)
            ==> only_error(p.broken_rules(), "max_rewarded_per_month"@, "range"@),
{
}

/// What a `Reward` has to keep to, and which field is told where it does not.
pub proof fn rewards_keep_their_bounds(p: Reward)
    ensures
        !has_errors(p.broken_rules()) <==> (1 <= p.id@.len() <= 40)
            && (1 <= p.plan@.len() <= 32)
            && (1 <= p.days <= 3650)
            && (1 <= p.cost <= 100_000),
        !(1 <= p.id@.len() <= 40) && (1 <= p.plan@.len() <= 32) && (1 <= p.days <= 3650)
            && (1 <= p.cost <= 100_000) ==> only_error(p.broken_rules(), "id"@, "length"@),
        !(1 <= p.plan@.len() <= 32) && (1 <= p.id@.len() <= 40) && (1 <= p.days <= 3650)
            && (1 <= p.cost <= 100_000) ==> only_error(p.broken_rules(), "plan"@, "length"@),
        !(1 <= p.days <= 3650) && (1 <= p.id@.len() <= 40) && (1 <= p.plan@.len() <= 32)
            && (1 <= p.cost <= 100_000) ==> only_error(p.broken_rules(), "days"@, "range"@),
        !(1 <= p.cost <= 100_000) && (1 <= p.id@.len() <= 40) && (1 <= p.plan@.len() <= 32)
            && (1 <= p.days <= 3650) ==> only_error(p.broken_rules(), "cost"@, "range"@),
{
}

/// What a `BillingSettings` has to keep to, and which field is told where it does not.
pub proof fn billing_settingss_keep_their_bounds(p: BillingSettings)
    ensures
        !has_errors(p.broken_rules()) <==> (0 <= p.trial_days <= 365)
            && (1 <= p.trial_plan@.len() <= 32)
            && (!has_errors(p.referral.broken_rules()))
            && (rewards_valid(p.rewards@))
            && (p.rewards@.len() <= 20),
        !(0 <= p.trial_days <= 365) && (1 <= p.trial_plan@.len() <= 32)
            && (!has_errors(p.referral.broken_rules())) && (rewards_valid(p.rewards@))
            && (p.rewards@.len() <= 20) ==> only_error(p.broken_rules(), "trial_days"@, "range"@),
        !(1 <= p.trial_plan@.len() <= 32) && (0 <= p.trial_days <= 365)
            && (!has_errors(p.referral.broken_rules())) && (rewards_valid(p.rewards@))
            && (p.rewards@.len() <= 20) ==> only_error(p.broken_rules(), "trial_plan"@, "length"@),
        !(p.rewards@.len() <= 20) && (0 <= p.trial_days <= 365) && (1 <= p.trial_plan@.len() <= 32)
            && (!has_errors(p.referral.broken_rules()))
            && (rewards_valid(p.rewards@)) ==> only_error(p.broken_rules(), "rewards"@, "length"@),
{
}

/// What an `UpsertPlanPayload` has to keep to, and which field is told where it does not.
pub proof fn upsert_plan_payloads_keep_their_bounds(
    p: UpsertPlanPayload,
    features: Option<ErrorView>,
)
    ensures
        !has_errors(p.broken_rules(features)) <==> ((match p.name { Some(x) => plan_name_error(x@), None => None }) is None)
        && ((match p.description { Some(x) => plan_description_error(x@), None => None }) is None)
            && (p.price_monthly_cents matches Some(x) ==> 0 <= x <= 100_000_000)
        && ((match p.price_monthly_cents { Some(x) => price_error(x as int), None => None }) is None)
            && (p.price_yearly_cents matches Some(x) ==> 0 <= x <= 1_000_000_000)
        && ((match p.price_yearly_cents { Some(x) => price_error(x as int), None => None }) is None)
            && ((match p.currency { Some(x) => currency_error(x@), None => None }) is None)
            && (p.limits matches Some(x) ==> !has_errors(x.broken_rules()))
            && (features is None)
            && (p.sort_order matches Some(x) ==> -10_000 <= x <= 10_000),
        !((match p.name { Some(x) => plan_name_error(x@), None => None }) is None)
            && ((match p.description { Some(x) => plan_description_error(x@), None => None }) is None)
            && (p.price_monthly_cents matches Some(x) ==> 0 <= x <= 100_000_000)
            && ((match p.price_monthly_cents { Some(x) => price_error(x as int), None => None }) is None)
            && (p.price_yearly_cents matches Some(x) ==> 0 <= x <= 1_000_000_000)
            && ((match p.price_yearly_cents { Some(x) => price_error(x as int), None => None }) is None)
            && ((match p.currency { Some(x) => currency_error(x@), None => None }) is None)
            && (p.limits matches Some(x) ==> !has_errors(x.broken_rules())) && (features is None)
            && (p.sort_order matches Some(x) ==> -10_000 <= x <= 10_000)
            ==> only_error(p.broken_rules(features), "name"@, (match p.name { Some(x) => plan_name_error(x@), None => None })->0.code),
        !((match p.description { Some(x) => plan_description_error(x@), None => None }) is None)
            && ((match p.name { Some(x) => plan_name_error(x@), None => None }) is None)
            && (p.price_monthly_cents matches Some(x) ==> 0 <= x <= 100_000_000)
            && ((match p.price_monthly_cents { Some(x) => price_error(x as int), None => None }) is None)
            && (p.price_yearly_cents matches Some(x) ==> 0 <= x <= 1_000_000_000)
            && ((match p.price_yearly_cents { Some(x) => price_error(x as int), None => None }) is None)
            && ((match p.currency { Some(x) => currency_error(x@), None => None }) is None)
            && (p.limits matches Some(x) ==> !has_errors(x.broken_rules())) && (features is None)
            && (p.sort_order matches Some(x) ==> -10_000 <= x <= 10_000)
            ==> only_error(p.broken_rules(features), "description"@, (match p.description { Some(x) => plan_description_error(x@), None => None })->0.code),
        !((match p.currency { Some(x) => currency_error(x@), None => None }) is None)
            && ((match p.name { Some(x) => plan_name_error(x@), None => None }) is None)
            && ((match p.description { Some(x) => plan_description_error(x@), None => None }) is None)
            && (p.price_monthly_cents matches Some(x) ==> 0 <= x <= 100_000_000)
            && ((match p.price_monthly_cents { Some(x) => price_error(x as int), None => None }) is None)
            && (p.price_yearly_cents matches Some(x) ==> 0 <= x <= 1_000_000_000)
            && ((match p.price_yearly_cents { Some(x) => price_error(x as int), None => None }) is None)
            && (p.limits matches Some(x) ==> !has_errors(x.broken_rules())) && (features is None)
            && (p.sort_order matches Some(x) ==> -10_000 <= x <= 10_000)
            ==> only_error(p.broken_rules(features), "currency"@, (match p.currency { Some(x) => currency_error(x@), None => None })->0.code),
        !(features is None)
            && ((match p.name { Some(x) => plan_name_error(x@), None => None }) is None)
            && ((match p.description { Some(x) => plan_description_error(x@), None => None }) is None)
            && (p.price_monthly_cents matches Some(x) ==> 0 <= x <= 100_000_000)
            && ((match p.price_monthly_cents { Some(x) => price_error(x as int), None => None }) is None)
            && (p.price_yearly_cents matches Some(x) ==> 0 <= x <= 1_000_000_000)
            && ((match p.price_yearly_cents { Some(x) => price_error(x as int), None => None }) is None)
            && ((match p.currency { Some(x) => currency_error(x@), None => None }) is None)
            && (p.limits matches Some(x) ==> !has_errors(x.broken_rules()))
            && (p.sort_order matches Some(x) ==> -10_000 <= x <= 10_000)
            ==> only_error(p.broken_rules(features), "features"@, features->0.code),
        !(p.sort_order matches Some(x) ==> -10_000 <= x <= 10_000)
            && ((match p.name { Some(x) => plan_name_error(x@), None => None }) is None)
            && ((match p.description { Some(x) => plan_description_error(x@), None => None }) is None)
            && (p.price_monthly_cents matches Some(x) ==> 0 <= x <= 100_000_000)
            && ((match p.price_monthly_cents { Some(x) => price_error(x as int), None => None }) is None)
            && (p.price_yearly_cents matches Some(x) ==> 0 <= x <= 1_000_000_000)
            && ((match p.price_yearly_cents { Some(x) => price_error(x as int), None => None }) is None)
            && ((match p.currency { Some(x) => currency_error(x@), None => None }) is None)
            && (p.limits matches Some(x) ==> !has_errors(x.broken_rules()))
            && (features is None) ==> only_error(p.broken_rules(features), "sort_order"@, "range"@),
{
}

/// What a `CheckoutPayload` has to keep to, and which field is told where it does not.
pub proof fn checkout_payloads_keep_their_bounds(p: CheckoutPayload)
    ensures
        !has_errors(p.broken_rules()) <==> (2 <= p.plan_code@.len() <= 32),
        !(2 <= p.plan_code@.len() <= 32) ==> only_error(p.broken_rules(), "plan_code"@, "length"@),
{
}

/// What a `StaffRefundPayload` has to keep to, and which field is told where it does not.
pub proof fn staff_refund_payloads_keep_their_bounds(
    p: StaffRefundPayload,
    reason: Option<ErrorView>,
)
    ensures
        !has_errors(p.broken_rules(reason)) <==> (p.reason@.len() >= 1)
            && (reason is None),
{
}

/// What a `RedeemCodePayload` has to keep to, and which field is told where it does not.
pub proof fn redeem_code_payloads_keep_their_bounds(p: RedeemCodePayload)
    ensures
        !has_errors(p.broken_rules()) <==> (1 <= p.code@.len() <= 32),
        !(1 <= p.code@.len() <= 32) ==> only_error(p.broken_rules(), "code"@, "length"@),
{
}

/// What a `RedeemRewardPayload` has to keep to, and which field is told where it does not.
pub proof fn redeem_reward_payloads_keep_their_bounds(p: RedeemRewardPayload)
    ensures
        !has_errors(p.broken_rules()) <==> (1 <= p.reward_id@.len() <= 40),
        !(1 <= p.reward_id@.len() <= 40) ==> only_error(p.broken_rules(), "reward_id"@, "length"@),
{
}

/// What a `GrantSubscriptionPayload` has to keep to, and which field is told where it does not.
pub proof fn grant_subscription_payloads_keep_their_bounds(p: GrantSubscriptionPayload)
    ensures
        !has_errors(p.broken_rules()) <==> (1 <= p.plan_code@.len() <= 32)
            && (p.days matches Some(x) ==> 1 <= x <= 3650)
            && (p.note matches Some(x) ==> x@.len() <= 500),
        !(1 <= p.plan_code@.len() <= 32) && (p.days matches Some(x) ==> 1 <= x <= 3650)
            && (p.note matches Some(x) ==> x@.len() <= 500)
            ==> only_error(p.broken_rules(), "plan_code"@, "length"@),
        !(p.days matches Some(x) ==> 1 <= x <= 3650) && (1 <= p.plan_code@.len() <= 32)
            && (p.note matches Some(x) ==> x@.len() <= 500)
            ==> only_error(p.broken_rules(), "days"@, "range"@),
        !(p.note matches Some(x) ==> x@.len() <= 500) && (1 <= p.plan_code@.len() <= 32)
            && (p.days matches Some(x) ==> 1 <= x <= 3650)
            ==> only_error(p.broken_rules(), "note"@, "length"@),
{
}

/// What an `AdjustCreditsPayload` has to keep to, and which field is told where it does not.
pub proof fn adjust_credits_payloads_keep_their_bounds(p: AdjustCreditsPayload)
    ensures
        !has_errors(p.broken_rules()) <==> (amount_error(p.amount as int) is None)
            && (1 <= p.note@.len() <= 255),
        !(amount_error(p.amount as int) is None)
            && (1 <= p.note@.len() <= 255)
            ==> only_error(p.broken_rules(), "amount"@, amount_error(p.amount as int)->0.code),
        !(1 <= p.note@.len() <= 255)
            && (amount_error(p.amount as int) is None)
            ==> only_error(p.broken_rules(), "note"@, "length"@),
{
}

/// What a `CreatePromoCodePayload` has to keep to, and which field is told where it does not.
pub proof fn create_promo_code_payloads_keep_their_bounds(p: CreatePromoCodePayload)
    ensures
        !has_errors(p.broken_rules()) <==> ((match p.code { Some(x) => promo_code_error(x@), None => None }) is None)
            && (p.description matches Some(x) ==> x@.len() <= 255)
            && (p.plan_code matches Some(x) ==> 1 <= x@.len() <= 32)
            && (p.duration_days matches Some(x) ==> 1 <= x <= 3650)
            && (p.credits matches Some(x) ==> 1 <= x <= 100_000)
            && (p.discount_percent matches Some(x) ==> 1 <= x <= 100)
            && (p.max_redemptions matches Some(x) ==> 1 <= x <= 1_000_000),
        !((match p.code { Some(x) => promo_code_error(x@), None => None }) is None)
            && (p.description matches Some(x) ==> x@.len() <= 255)
            && (p.plan_code matches Some(x) ==> 1 <= x@.len() <= 32)
            && (p.duration_days matches Some(x) ==> 1 <= x <= 3650)
            && (p.credits matches Some(x) ==> 1 <= x <= 100_000)
            && (p.discount_percent matches Some(x) ==> 1 <= x <= 100)
            && (p.max_redemptions matches Some(x) ==> 1 <= x <= 1_000_000)
            ==> only_error(p.broken_rules(), "code"@, (match p.code { Some(x) => promo_code_error(x@), None => None })->0.code),
        !(p.description matches Some(x) ==> x@.len() <= 255)
            && ((match p.code { Some(x) => promo_code_error(x@), None => None }) is None)
            && (p.plan_code matches Some(x) ==> 1 <= x@.len() <= 32)
            && (p.duration_days matches Some(x) ==> 1 <= x <= 3650)
            && (p.credits matches Some(x) ==> 1 <= x <= 100_000)
            && (p.discount_percent matches Some(x) ==> 1 <= x <= 100)
            && (p.max_redemptions matches Some(x) ==> 1 <= x <= 1_000_000)
            ==> only_error(p.broken_rules(), "description"@, "length"@),
        !(p.plan_code matches Some(x) ==> 1 <= x@.len() <= 32)
            && ((match p.code { Some(x) => promo_code_error(x@), None => None }) is None)
            && (p.description matches Some(x) ==> x@.len() <= 255)
            && (p.duration_days matches Some(x) ==> 1 <= x <= 3650)
            && (p.credits matches Some(x) ==> 1 <= x <= 100_000)
            && (p.discount_percent matches Some(x) ==> 1 <= x <= 100)
            && (p.max_redemptions matches Some(x) ==> 1 <= x <= 1_000_000)
            ==> only_error(p.broken_rules(), "plan_code"@, "length"@),
        !(p.duration_days matches Some(x) ==> 1 <= x <= 3650)
            && ((match p.code { Some(x) => promo_code_error(x@), None => None }) is None)
            && (p.description matches Some(x) ==> x@.len() <= 255)
            && (p.plan_code matches Some(x) ==> 1 <= x@.len() <= 32)
            && (p.credits matches Some(x) ==> 1 <= x <= 100_000)
            && (p.discount_percent matches Some(x) ==> 1 <= x <= 100)
            && (p.max_redemptions matches Some(x) ==> 1 <= x <= 1_000_000)
            ==> only_error(p.broken_rules(), "duration_days"@, "range"@),
        !(p.credits matches Some(x) ==> 1 <= x <= 100_000)
            && ((match p.code { Some(x) => promo_code_error(x@), None => None }) is None)
            && (p.description matches Some(x) ==> x@.len() <= 255)
            && (p.plan_code matches Some(x) ==> 1 <= x@.len() <= 32)
            && (p.duration_days matches Some(x) ==> 1 <= x <= 3650)
            && (p.discount_percent matches Some(x) ==> 1 <= x <= 100)
            && (p.max_redemptions matches Some(x) ==> 1 <= x <= 1_000_000)
            ==> only_error(p.broken_rules(), "credits"@, "range"@),
        !(p.discount_percent matches Some(x) ==> 1 <= x <= 100)
            && ((match p.code { Some(x) => promo_code_error(x@), None => None }) is None)
            && (p.description matches Some(x) ==> x@.len() <= 255)
            && (p.plan_code matches Some(x) ==> 1 <= x@.len() <= 32)
            && (p.duration_days matches Some(x) ==> 1 <= x <= 3650)
            && (p.credits matches Some(x) ==> 1 <= x <= 100_000)
            && (p.max_redemptions matches Some(x) ==> 1 <= x <= 1_000_000)
            ==> only_error(p.broken_rules(), "discount_percent"@, "range"@),
        !(p.max_redemptions matches Some(x) ==> 1 <= x <= 1_000_000)
            && ((match p.code { Some(x) => promo_code_error(x@), None => None }) is None)
            && (p.description matches Some(x) ==> x@.len() <= 255)
            && (p.plan_code matches Some(x) ==> 1 <= x@.len() <= 32)
            && (p.duration_days matches Some(x) ==> 1 <= x <= 3650)
            && (p.credits matches Some(x) ==> 1 <= x <= 100_000)
            && (p.discount_percent matches Some(x) ==> 1 <= x <= 100)
            ==> only_error(p.broken_rules(), "max_redemptions"@, "range"@),
{
}

/// What a `CreatePromotionPayload` has to keep to, and which field is told where it does not.
pub proof fn create_promotion_payloads_keep_their_bounds(p: CreatePromotionPayload)
    ensures
        !has_errors(p.broken_rules()) <==> (1 <= p.name@.len() <= 80)
            && (headline_error(p.headline@) is None)
            && (p.plan_code matches Some(x) ==> 1 <= x@.len() <= 32)
            && (1 <= p.discount_percent <= 100),
        !(1 <= p.name@.len() <= 80) && (headline_error(p.headline@) is None)
            && (p.plan_code matches Some(x) ==> 1 <= x@.len() <= 32)
            && (1 <= p.discount_percent <= 100)
            ==> only_error(p.broken_rules(), "name"@, "length"@),
        !(headline_error(p.headline@) is None) && (1 <= p.name@.len() <= 80)
            && (p.plan_code matches Some(x) ==> 1 <= x@.len() <= 32)
            && (1 <= p.discount_percent <= 100)
            ==> only_error(p.broken_rules(), "headline"@, headline_error(p.headline@)->0.code),
        !(p.plan_code matches Some(x) ==> 1 <= x@.len() <= 32) && (1 <= p.name@.len() <= 80)
            && (headline_error(p.headline@) is None)
            && (1 <= p.discount_percent <= 100)
            ==> only_error(p.broken_rules(), "plan_code"@, "length"@),
        !(1 <= p.discount_percent <= 100) && (1 <= p.name@.len() <= 80)
            && (headline_error(p.headline@) is None)
            && (p.plan_code matches Some(x) ==> 1 <= x@.len() <= 32)
            ==> only_error(p.broken_rules(), "discount_percent"@, "range"@),
{
}

/// What an `UpdatePromotionPayload` has to keep to, and which field is told where it does not.
pub proof fn update_promotion_payloads_keep_their_bounds(p: UpdatePromotionPayload)
    ensures
        !has_errors(p.broken_rules()) <==> (p.name matches Some(x) ==> 1 <= x@.len() <= 80)
            && ((match p.headline { Some(x) => headline_error(x@), None => None }) is None)
            && (p.discount_percent matches Some(x) ==> 1 <= x <= 100),
        !(p.name matches Some(x) ==> 1 <= x@.len() <= 80)
            && ((match p.headline { Some(x) => headline_error(x@), None => None }) is None)
            && (p.discount_percent matches Some(x) ==> 1 <= x <= 100)
            ==> only_error(p.broken_rules(), "name"@, "length"@),
        !((match p.headline { Some(x) => headline_error(x@), None => None }) is None)
            && (p.name matches Some(x) ==> 1 <= x@.len() <= 80)
            && (p.discount_percent matches Some(x) ==> 1 <= x <= 100)
            ==> only_error(p.broken_rules(), "headline"@, (match p.headline { Some(x) => headline_error(x@), None => None })->0.code),
        !(p.discount_percent matches Some(x) ==> 1 <= x <= 100)
            && (p.name matches Some(x) ==> 1 <= x@.len() <= 80)
            && ((match p.headline { Some(x) => headline_error(x@), None => None }) is None)
            ==> only_error(p.broken_rules(), "discount_percent"@, "range"@),
{
}

/// What a `GrantTrialsPayload` has to keep to, and which field is told where it does not.
pub proof fn grant_trials_payloads_keep_their_bounds(p: GrantTrialsPayload)
    ensures
        !has_errors(p.broken_rules()) <==> (1 <= p.days <= 365),
        !(1 <= p.days <= 365) ==> only_error(p.broken_rules(), "days"@, "range"@),
{
}

/// What an `UnsubscribePayload` has to keep to, and which field is told where it does not.
pub proof fn unsubscribe_payloads_keep_their_bounds(p: UnsubscribePayload)
    ensures
        !has_errors(p.broken_rules()) <==> (10 <= p.token@.len() <= 200),
        !(10 <= p.token@.len() <= 200) ==> only_error(p.broken_rules(), "token"@, "length"@),
{
}

/// What a `CreateGigPayload` has to keep to, and which field is told where it does not.
pub proof fn create_gig_payloads_keep_their_bounds(p: CreateGigPayload, notes: Option<ErrorView>)
    ensures
        !has_errors(p.broken_rules(notes)) <==> (1 <= p.venue@.len() <= 255)
            && (p.location matches Some(x) ==> x@.len() <= 500)
            && (notes is None),
        !(1 <= p.venue@.len() <= 255) && (p.location matches Some(x) ==> x@.len() <= 500)
            && (notes is None) ==> only_error(p.broken_rules(notes), "venue"@, "length"@),
        !(p.location matches Some(x) ==> x@.len() <= 500) && (1 <= p.venue@.len() <= 255)
            && (notes is None) ==> only_error(p.broken_rules(notes), "location"@, "length"@),
        !(notes is None) && (1 <= p.venue@.len() <= 255)
            && (p.location matches Some(x) ==> x@.len() <= 500)
            ==> only_error(p.broken_rules(notes), "notes"@, notes->0.code),
{
}

/// What an `UpdateGigPayload` has to keep to, and which field is told where it does not.
pub proof fn update_gig_payloads_keep_their_bounds(p: UpdateGigPayload, notes: Option<ErrorView>)
    ensures
        !has_errors(p.broken_rules(notes)) <==> (p.venue matches Some(x) ==> 1 <= x@.len() <= 255)
            && (p.location matches Some(Some(x)) ==> x@.len() <= 500)
            && (notes is None),
        !(p.venue matches Some(x) ==> 1 <= x@.len() <= 255)
            && (p.location matches Some(Some(x)) ==> x@.len() <= 500)
            && (notes is None) ==> only_error(p.broken_rules(notes), "venue"@, "length"@),
        !(p.location matches Some(Some(x)) ==> x@.len() <= 500)
            && (p.venue matches Some(x) ==> 1 <= x@.len() <= 255)
            && (notes is None) ==> only_error(p.broken_rules(notes), "location"@, "length"@),
        !(notes is None) && (p.venue matches Some(x) ==> 1 <= x@.len() <= 255)
            && (p.location matches Some(Some(x)) ==> x@.len() <= 500)
            ==> only_error(p.broken_rules(notes), "notes"@, notes->0.code),
{
}

/// What a `ResolveFlagPayload` has to keep to, and which field is told where it does not.
pub proof fn resolve_flag_payloads_keep_their_bounds(p: ResolveFlagPayload)
    ensures
        !has_errors(p.broken_rules()) <==> (p.note matches Some(x) ==> x@.len() <= 500),
        !(p.note matches Some(x) ==> x@.len() <= 500) ==> only_error(p.broken_rules(), "note"@, "length"@),
{
}

/// What a `ReorderPinsPayload` has to keep to, and which field is told where it does not.
pub proof fn reorder_pins_payloads_keep_their_bounds(p: ReorderPinsPayload)
    ensures
        !has_errors(p.broken_rules()) <==> (p.items@.len() <= 12),
        !(p.items@.len() <= 12) ==> only_error(p.broken_rules(), "items"@, "length"@),
{
}

/// What a `QuotaLimits` has to keep to, and which field is told where it does not.
pub proof fn quota_limitss_keep_their_bounds(p: QuotaLimits)
    ensures
        !has_errors(p.broken_rules()) <==> (limit_error(p.songs as int) is None)
            && (limit_error(p.artists as int) is None)
            && (limit_error(p.setlists as int) is None)
            && (limit_error(p.gigs as int) is None)
            && (limit_error(p.tags as int) is None)
            && (limit_error(p.bands_owned as int) is None)
            && (limit_error(p.band_memberships as int) is None)
            && (limit_error(p.band_members as int) is None)
            && (limit_error(p.band_setlists as int) is None)
            && (limit_error(p.band_gigs as int) is None)
            && (limit_error(p.band_songs as int) is None)
            && (limit_error(p.setlist_items as int) is None),
        !(limit_error(p.songs as int) is None) && (limit_error(p.artists as int) is None)
            && (limit_error(p.setlists as int) is None) && (limit_error(p.gigs as int) is None)
            && (limit_error(p.tags as int) is None) && (limit_error(p.bands_owned as int) is None)
            && (limit_error(p.band_memberships as int) is None)
            && (limit_error(p.band_members as int) is None)
            && (limit_error(p.band_setlists as int) is None)
            && (limit_error(p.band_gigs as int) is None)
            && (limit_error(p.band_songs as int) is None)
            && (limit_error(p.setlist_items as int) is None)
            ==> only_error(p.broken_rules(), "songs"@, limit_error(p.songs as int)->0.code),
        !(limit_error(p.artists as int) is None) && (limit_error(p.songs as int) is None)
            && (limit_error(p.setlists as int) is None) && (limit_error(p.gigs as int) is None)
            && (limit_error(p.tags as int) is None) && (limit_error(p.bands_owned as int) is None)
            && (limit_error(p.band_memberships as int) is None)
            && (limit_error(p.band_members as int) is None)
            && (limit_error(p.band_setlists as int) is None)
            && (limit_error(p.band_gigs as int) is None)
            && (limit_error(p.band_songs as int) is None)
            && (limit_error(p.setlist_items as int) is None)
            ==> only_error(p.broken_rules(), "artists"@, limit_error(p.artists as int)->0.code),
        !(limit_error(p.setlists as int) is None) && (limit_error(p.songs as int) is None)
            && (limit_error(p.artists as int) is None) && (limit_error(p.gigs as int) is None)
            && (limit_error(p.tags as int) is None) && (limit_error(p.bands_owned as int) is None)
            && (limit_error(p.band_memberships as int) is None)
            && (limit_error(p.band_members as int) is None)
            && (limit_error(p.band_setlists as int) is None)
            && (limit_error(p.band_gigs as int) is None)
            && (limit_error(p.band_songs as int) is None)
            && (limit_error(p.setlist_items as int) is None)
            ==> only_error(p.broken_rules(), "setlists"@, limit_error(p.setlists as int)->0.code),
        !(limit_error(p.gigs as int) is None) && (limit_error(p.songs as int) is None)
            && (limit_error(p.artists as int) is None) && (limit_error(p.setlists as int) is None)
            && (limit_error(p.tags as int) is None) && (limit_error(p.bands_owned as int) is None)
            && (limit_error(p.band_memberships as int) is None)
            && (limit_error(p.band_members as int) is None)
            && (limit_error(p.band_setlists as int) is None)
            && (limit_error(p.band_gigs as int) is None)
            && (limit_error(p.band_songs as int) is None)
            && (limit_error(p.setlist_items as int) is None)
            ==> only_error(p.broken_rules(), "gigs"@, limit_error(p.gigs as int)->0.code),
        !(limit_error(p.tags as int) is None) && (limit_error(p.songs as int) is None)
            && (limit_error(p.artists as int) is None) && (limit_error(p.setlists as int) is None)
            && (limit_error(p.gigs as int) is None) && (limit_error(p.bands_owned as int) is None)
            && (limit_error(p.band_memberships as int) is None)
            && (limit_error(p.band_members as int) is None)
            && (limit_error(p.band_setlists as int) is None)
            && (limit_error(p.band_gigs as int) is None)
            && (limit_error(p.band_songs as int) is None)
            && (limit_error(p.setlist_items as int) is None)
            ==> only_error(p.broken_rules(), "tags"@, limit_error(p.tags as int)->0.code),
        !(limit_error(p.bands_owned as int) is None) && (limit_error(p.songs as int) is None)
            && (limit_error(p.artists as int) is None) && (limit_error(p.setlists as int) is None)
            && (limit_error(p.gigs as int) is None) && (limit_error(p.tags as int) is None)
            && (limit_error(p.band_memberships as int) is None)
            && (limit_error(p.band_members as int) is None)
            && (limit_error(p.band_setlists as int) is None)
            && (limit_error(p.band_gigs as int) is None)
            && (limit_error(p.band_songs as int) is None)
            && (limit_error(p.setlist_items as int) is None)
            ==> only_error(p.broken_rules(), "bands_owned"@, limit_error(p.bands_owned as int)->0.code),
        !(limit_error(p.band_memberships as int) is None) && (limit_error(p.songs as int) is None)
            && (limit_error(p.artists as int) is None) && (limit_error(p.setlists as int) is None)
            && (limit_error(p.gigs as int) is None) && (limit_error(p.tags as int) is None)
            && (limit_error(p.bands_owned as int) is None)
            && (limit_error(p.band_members as int) is None)
            && (limit_error(p.band_setlists as int) is None)
            && (limit_error(p.band_gigs as int) is None)
            && (limit_error(p.band_songs as int) is None)
            && (limit_error(p.setlist_items as int) is None)
            ==> only_error(p.broken_rules(), "band_memberships"@, limit_error(p.band_memberships as int)->0.code),
        !(limit_error(p.band_members as int) is None) && (limit_error(p.songs as int) is None)
            && (limit_error(p.artists as int) is None) && (limit_error(p.setlists as int) is None)
            && (limit_error(p.gigs as int) is None) && (limit_error(p.tags as int) is None)
            && (limit_error(p.bands_owned as int) is None)
            && (limit_error(p.band_memberships as int) is None)
            && (limit_error(p.band_setlists as int) is None)
            && (limit_error(p.band_gigs as int) is None)
            && (limit_error(p.band_songs as int) is None)
            && (limit_error(p.setlist_items as int) is None)
            ==> only_error(p.broken_rules(), "band_members"@, limit_error(p.band_members as int)->0.code),
        !(limit_error(p.band_setlists as int) is None) && (limit_error(p.songs as int) is None)
            && (limit_error(p.artists as int) is None) && (limit_error(p.setlists as int) is None)
            && (limit_error(p.gigs as int) is None) && (limit_error(p.tags as int) is None)
            && (limit_error(p.bands_owned as int) is None)
            && (limit_error(p.band_memberships as int) is None)
            && (limit_error(p.band_members as int) is None)
            && (limit_error(p.band_gigs as int) is None)
            && (limit_error(p.band_songs as int) is None)
            && (limit_error(p.setlist_items as int) is None)
            ==> only_error(p.broken_rules(), "band_setlists"@, limit_error(p.band_setlists as int)->0.code),
        !(limit_error(p.band_gigs as int) is None) && (limit_error(p.songs as int) is None)
            && (limit_error(p.artists as int) is None) && (limit_error(p.setlists as int) is None)
            && (limit_error(p.gigs as int) is None) && (limit_error(p.tags as int) is None)
            && (limit_error(p.bands_owned as int) is None)
            && (limit_error(p.band_memberships as int) is None)
            && (limit_error(p.band_members as int) is None)
            && (limit_error(p.band_setlists as int) is None)
            && (limit_error(p.band_songs as int) is None)
            && (limit_error(p.setlist_items as int) is None)
            ==> only_error(p.broken_rules(), "band_gigs"@, limit_error(p.band_gigs as int)->0.code),
        !(limit_error(p.band_songs as int) is None) && (limit_error(p.songs as int) is None)
            && (limit_error(p.artists as int) is None) && (limit_error(p.setlists as int) is None)
            && (limit_error(p.gigs as int) is None) && (limit_error(p.tags as int) is None)
            && (limit_error(p.bands_owned as int) is None)
            && (limit_error(p.band_memberships as int) is None)
            && (limit_error(p.band_members as int) is None)
            && (limit_error(p.band_setlists as int) is None)
            && (limit_error(p.band_gigs as int) is None)
            && (limit_error(p.setlist_items as int) is None)
            ==> only_error(p.broken_rules(), "band_songs"@, limit_error(p.band_songs as int)->0.code),
        !(limit_error(p.setlist_items as int) is None) && (limit_error(p.songs as int) is None)
            && (limit_error(p.artists as int) is None) && (limit_error(p.setlists as int) is None)
            && (limit_error(p.gigs as int) is None) && (limit_error(p.tags as int) is None)
            && (limit_error(p.bands_owned as int) is None)
            && (limit_error(p.band_memberships as int) is None)
            && (limit_error(p.band_members as int) is None)
            && (limit_error(p.band_setlists as int) is None)
            && (limit_error(p.band_gigs as int) is None)
            && (limit_error(p.band_songs as int) is None)
            ==> only_error(p.broken_rules(), "setlist_items"@, limit_error(p.setlist_items as int)->0.code),
{
}

/// What a `QuotaOverrides` has to keep to, and which field is told where it does not.
pub proof fn quota_overridess_keep_their_bounds(p: QuotaOverrides)
    ensures
        !has_errors(p.broken_rules()) <==> ((match p.songs { Some(n) => limit_error(n as int), None => None }) is None)
            && ((match p.artists { Some(n) => limit_error(n as int), None => None }) is None)
            && ((match p.setlists { Some(n) => limit_error(n as int), None => None }) is None)
            && ((match p.gigs { Some(n) => limit_error(n as int), None => None }) is None)
            && ((match p.tags { Some(n) => limit_error(n as int), None => None }) is None)
            && ((match p.bands_owned { Some(n) => limit_error(n as int), None => None }) is None)
        && ((match p.band_memberships { Some(n) => limit_error(n as int), None => None }) is None)
            && ((match p.band_members { Some(n) => limit_error(n as int), None => None }) is None)
            && ((match p.band_setlists { Some(n) => limit_error(n as int), None => None }) is None)
            && ((match p.band_gigs { Some(n) => limit_error(n as int), None => None }) is None)
            && ((match p.band_songs { Some(n) => limit_error(n as int), None => None }) is None)
            && ((match p.setlist_items { Some(n) => limit_error(n as int), None => None }) is None),
        !((match p.songs { Some(n) => limit_error(n as int), None => None }) is None)
            && ((match p.artists { Some(n) => limit_error(n as int), None => None }) is None)
            && ((match p.setlists { Some(n) => limit_error(n as int), None => None }) is None)
            && ((match p.gigs { Some(n) => limit_error(n as int), None => None }) is None)
            && ((match p.tags { Some(n) => limit_error(n as int), None => None }) is None)
            && ((match p.bands_owned { Some(n) => limit_error(n as int), None => None }) is None)
            && ((match p.band_memberships { Some(n) => limit_error(n as int), None => None }) is None)
            && ((match p.band_members { Some(n) => limit_error(n as int), None => None }) is None)
            && ((match p.band_setlists { Some(n) => limit_error(n as int), None => None }) is None)
            && ((match p.band_gigs { Some(n) => limit_error(n as int), None => None }) is None)
            && ((match p.band_songs { Some(n) => limit_error(n as int), None => None }) is None)
            && ((match p.setlist_items { Some(n) => limit_error(n as int), None => None }) is None)
            ==> only_error(p.broken_rules(), "songs"@, (match p.songs { Some(n) => limit_error(n as int), None => None })->0.code),
        !((match p.artists { Some(n) => limit_error(n as int), None => None }) is None)
            && ((match p.songs { Some(n) => limit_error(n as int), None => None }) is None)
            && ((match p.setlists { Some(n) => limit_error(n as int), None => None }) is None)
            && ((match p.gigs { Some(n) => limit_error(n as int), None => None }) is None)
            && ((match p.tags { Some(n) => limit_error(n as int), None => None }) is None)
            && ((match p.bands_owned { Some(n) => limit_error(n as int), None => None }) is None)
            && ((match p.band_memberships { Some(n) => limit_error(n as int), None => None }) is None)
            && ((match p.band_members { Some(n) => limit_error(n as int), None => None }) is None)
            && ((match p.band_setlists { Some(n) => limit_error(n as int), None => None }) is None)
            && ((match p.band_gigs { Some(n) => limit_error(n as int), None => None }) is None)
            && ((match p.band_songs { Some(n) => limit_error(n as int), None => None }) is None)
            && ((match p.setlist_items { Some(n) => limit_error(n as int), None => None }) is None)
            ==> only_error(p.broken_rules(), "artists"@, (match p.artists { Some(n) => limit_error(n as int), None => None })->0.code),
        !((match p.setlists { Some(n) => limit_error(n as int), None => None }) is None)
            && ((match p.songs { Some(n) => limit_error(n as int), None => None }) is None)
            && ((match p.artists { Some(n) => limit_error(n as int), None => None }) is None)
            && ((match p.gigs { Some(n) => limit_error(n as int), None => None }) is None)
            && ((match p.tags { Some(n) => limit_error(n as int), None => None }) is None)
            && ((match p.bands_owned { Some(n) => limit_error(n as int), None => None }) is None)
            && ((match p.band_memberships { Some(n) => limit_error(n as int), None => None }) is None)
            && ((match p.band_members { Some(n) => limit_error(n as int), None => None }) is None)
            && ((match p.band_setlists { Some(n) => limit_error(n as int), None => None }) is None)
            && ((match p.band_gigs { Some(n) => limit_error(n as int), None => None }) is None)
            && ((match p.band_songs { Some(n) => limit_error(n as int), None => None }) is None)
            && ((match p.setlist_items { Some(n) => limit_error(n as int), None => None }) is None)
            ==> only_error(p.broken_rules(), "setlists"@, (match p.setlists { Some(n) => limit_error(n as int), None => None })->0.code),
        !((match p.gigs { Some(n) => limit_error(n as int), None => None }) is None)
            && ((match p.songs { Some(n) => limit_error(n as int), None => None }) is None)
            && ((match p.artists { Some(n) => limit_error(n as int), None => None }) is None)
            && ((match p.setlists { Some(n) => limit_error(n as int), None => None }) is None)
            && ((match p.tags { Some(n) => limit_error(n as int), None => None }) is None)
            && ((match p.bands_owned { Some(n) => limit_error(n as int), None => None }) is None)
            && ((match p.band_memberships { Some(n) => limit_error(n as int), None => None }) is None)
            && ((match p.band_members { Some(n) => limit_error(n as int), None => None }) is None)
            && ((match p.band_setlists { Some(n) => limit_error(n as int), None => None }) is None)
            && ((match p.band_gigs { Some(n) => limit_error(n as int), None => None }) is None)
            && ((match p.band_songs { Some(n) => limit_error(n as int), None => None }) is None)
            && ((match p.setlist_items { Some(n) => limit_error(n as int), None => None }) is None)
            ==> only_error(p.broken_rules(), "gigs"@, (match p.gigs { Some(n) => limit_error(n as int), None => None })->0.code),
        !((match p.tags { Some(n) => limit_error(n as int), None => None }) is None)
            && ((match p.songs { Some(n) => limit_error(n as int), None => None }) is None)
            && ((match p.artists { Some(n) => limit_error(n as int), None => None }) is None)
            && ((match p.setlists { Some(n) => limit_error(n as int), None => None }) is None)
            && ((match p.gigs { Some(n) => limit_error(n as int), None => None }) is None)
            && ((match p.bands_owned { Some(n) => limit_error(n as int), None => None }) is None)
            && ((match p.band_memberships { Some(n) => limit_error(n as int), None => None }) is None)
            && ((match p.band_members { Some(n) => limit_error(n as int), None => None }) is None)
            && ((match p.band_setlists { Some(n) => limit_error(n as int), None => None }) is None)
            && ((match p.band_gigs { Some(n) => limit_error(n as int), None => None }) is None)
            && ((match p.band_songs { Some(n) => limit_error(n as int), None => None }) is None)
            && ((match p.setlist_items { Some(n) => limit_error(n as int), None => None }) is None)
            ==> only_error(p.broken_rules(), "tags"@, (match p.tags { Some(n) => limit_error(n as int), None => None })->0.code),
        !((match p.bands_owned { Some(n) => limit_error(n as int), None => None }) is None)
            && ((match p.songs { Some(n) => limit_error(n as int), None => None }) is None)
            && ((match p.artists { Some(n) => limit_error(n as int), None => None }) is None)
            && ((match p.setlists { Some(n) => limit_error(n as int), None => None }) is None)
            && ((match p.gigs { Some(n) => limit_error(n as int), None => None }) is None)
            && ((match p.tags { Some(n) => limit_error(n as int), None => None }) is None)
            && ((match p.band_memberships { Some(n) => limit_error(n as int), None => None }) is None)
            && ((match p.band_members { Some(n) => limit_error(n as int), None => None }) is None)
            && ((match p.band_setlists { Some(n) => limit_error(n as int), None => None }) is None)
            && ((match p.band_gigs { Some(n) => limit_error(n as int), None => None }) is None)
            && ((match p.band_songs { Some(n) => limit_error(n as int), None => None }) is None)
            && ((match p.setlist_items { Some(n) => limit_error(n as int), None => None }) is None)
            ==> only_error(p.broken_rules(), "bands_owned"@, (match p.bands_owned { Some(n) => limit_error(n as int), None => None })->0.code),
        !((match p.band_memberships { Some(n) => limit_error(n as int), None => None }) is None)
            && ((match p.songs { Some(n) => limit_error(n as int), None => None }) is None)
            && ((match p.artists { Some(n) => limit_error(n as int), None => None }) is None)
            && ((match p.setlists { Some(n) => limit_error(n as int), None => None }) is None)
            && ((match p.gigs { Some(n) => limit_error(n as int), None => None }) is None)
            && ((match p.tags { Some(n) => limit_error(n as int), None => None }) is None)
            && ((match p.bands_owned { Some(n) => limit_error(n as int), None => None }) is None)
            && ((match p.band_members { Some(n) => limit_error(n as int), None => None }) is None)
            && ((match p.band_setlists { Some(n) => limit_error(n as int), None => None }) is None)
            && ((match p.band_gigs { Some(n) => limit_error(n as int), None => None }) is None)
            && ((match p.band_songs { Some(n) => limit_error(n as int), None => None }) is None)
            && ((match p.setlist_items { Some(n) => limit_error(n as int), None => None }) is None)
            ==> only_error(p.broken_rules(), "band_memberships"@, (match p.band_memberships { Some(n) => limit_error(n as int), None => None })->0.code),
        !((match p.band_members { Some(n) => limit_error(n as int), None => None }) is None)
            && ((match p.songs { Some(n) => limit_error(n as int), None => None }) is None)
            && ((match p.artists { Some(n) => limit_error(n as int), None => None }) is None)
            && ((match p.setlists { Some(n) => limit_error(n as int), None => None }) is None)
            && ((match p.gigs { Some(n) => limit_error(n as int), None => None }) is None)
            && ((match p.tags { Some(n) => limit_error(n as int), None => None }) is None)
            && ((match p.bands_owned { Some(n) => limit_error(n as int), None => None }) is None)
            && ((match p.band_memberships { Some(n) => limit_error(n as int), None => None }) is None)
            && ((match p.band_setlists { Some(n) => limit_error(n as int), None => None }) is None)
            && ((match p.band_gigs { Some(n) => limit_error(n as int), None => None }) is None)
            && ((match p.band_songs { Some(n) => limit_error(n as int), None => None }) is None)
            && ((match p.setlist_items { Some(n) => limit_error(n as int), None => None }) is None)
            ==> only_error(p.broken_rules(), "band_members"@, (match p.band_members { Some(n) => limit_error(n as int), None => None })->0.code),
        !((match p.band_setlists { Some(n) => limit_error(n as int), None => None }) is None)
            && ((match p.songs { Some(n) => limit_error(n as int), None => None }) is None)
            && ((match p.artists { Some(n) => limit_error(n as int), None => None }) is None)
            && ((match p.setlists { Some(n) => limit_error(n as int), None => None }) is None)
            && ((match p.gigs { Some(n) => limit_error(n as int), None => None }) is None)
            && ((match p.tags { Some(n) => limit_error(n as int), None => None }) is None)
            && ((match p.bands_owned { Some(n) => limit_error(n as int), None => None }) is None)
            && ((match p.band_memberships { Some(n) => limit_error(n as int), None => None }) is None)
            && ((match p.band_members { Some(n) => limit_error(n as int), None => None }) is None)
            && ((match p.band_gigs { Some(n) => limit_error(n as int), None => None }) is None)
            && ((match p.band_songs { Some(n) => limit_error(n as int), None => None }) is None)
            && ((match p.setlist_items { Some(n) => limit_error(n as int), None => None }) is None)
            ==> only_error(p.broken_rules(), "band_setlists"@, (match p.band_setlists { Some(n) => limit_error(n as int), None => None })->0.code),
        !((match p.band_gigs { Some(n) => limit_error(n as int), None => None }) is None)
            && ((match p.songs { Some(n) => limit_error(n as int), None => None }) is None)
            && ((match p.artists { Some(n) => limit_error(n as int), None => None }) is None)
            && ((match p.setlists { Some(n) => limit_error(n as int), None => None }) is None)
            && ((match p.gigs { Some(n) => limit_error(n as int), None => None }) is None)
            && ((match p.tags { Some(n) => limit_error(n as int), None => None }) is None)
            && ((match p.bands_owned { Some(n) => limit_error(n as int), None => None }) is None)
            && ((match p.band_memberships { Some(n) => limit_error(n as int), None => None }) is None)
            && ((match p.band_members { Some(n) => limit_error(n as int), None => None }) is None)
            && ((match p.band_setlists { Some(n) => limit_error(n as int), None => None }) is None)
            && ((match p.band_songs { Some(n) => limit_error(n as int), None => None }) is None)
            && ((match p.setlist_items { Some(n) => limit_error(n as int), None => None }) is None)
            ==> only_error(p.broken_rules(), "band_gigs"@, (match p.band_gigs { Some(n) => limit_error(n as int), None => None })->0.code),
        !((match p.band_songs { Some(n) => limit_error(n as int), None => None }) is None)
            && ((match p.songs { Some(n) => limit_error(n as int), None => None }) is None)
            && ((match p.artists { Some(n) => limit_error(n as int), None => None }) is None)
            && ((match p.setlists { Some(n) => limit_error(n as int), None => None }) is None)
            && ((match p.gigs { Some(n) => limit_error(n as int), None => None }) is None)
            && ((match p.tags { Some(n) => limit_error(n as int), None => None }) is None)
            && ((match p.bands_owned { Some(n) => limit_error(n as int), None => None }) is None)
            && ((match p.band_memberships { Some(n) => limit_error(n as int), None => None }) is None)
            && ((match p.band_members { Some(n) => limit_error(n as int), None => None }) is None)
            && ((match p.band_setlists { Some(n) => limit_error(n as int), None => None }) is None)
            && ((match p.band_gigs { Some(n) => limit_error(n as int), None => None }) is None)
            && ((match p.setlist_items { Some(n) => limit_error(n as int), None => None }) is None)
            ==> only_error(p.broken_rules(), "band_songs"@, (match p.band_songs { Some(n) => limit_error(n as int), None => None })->0.code),
        !((match p.setlist_items { Some(n) => limit_error(n as int), None => None }) is None)
            && ((match p.songs { Some(n) => limit_error(n as int), None => None }) is None)
            && ((match p.artists { Some(n) => limit_error(n as int), None => None }) is None)
            && ((match p.setlists { Some(n) => limit_error(n as int), None => None }) is None)
            && ((match p.gigs { Some(n) => limit_error(n as int), None => None }) is None)
            && ((match p.tags { Some(n) => limit_error(n as int), None => None }) is None)
            && ((match p.bands_owned { Some(n) => limit_error(n as int), None => None }) is None)
            && ((match p.band_memberships { Some(n) => limit_error(n as int), None => None }) is None)
            && ((match p.band_members { Some(n) => limit_error(n as int), None => None }) is None)
            && ((match p.band_setlists { Some(n) => limit_error(n as int), None => None }) is None)
            && ((match p.band_gigs { Some(n) => limit_error(n as int), None => None }) is None)
            && ((match p.band_songs { Some(n) => limit_error(n as int), None => None }) is None)
            ==> only_error(p.broken_rules(), "setlist_items"@, (match p.setlist_items { Some(n) => limit_error(n as int), None => None })->0.code),
{
}

/// What an `UpdateUserQuotaPayload` has to keep to, and which field is told where it does not.
pub proof fn update_user_quota_payloads_keep_their_bounds(p: UpdateUserQuotaPayload)
    ensures
        !has_errors(p.broken_rules()) <==> (!has_errors(p.overrides.broken_rules())),
{
}

/// What a `CreateReleaseNotePayload` has to keep to, and which field is told where it does not.
pub proof fn create_release_note_payloads_keep_their_bounds(p: CreateReleaseNotePayload)
    ensures
        !has_errors(p.broken_rules()) <==> (version_error(p.version@) is None)
            && (title_error(p.title@) is None)
            && (items_error(item_views(p.items@)) is None),
        !(version_error(p.version@) is None) && (title_error(p.title@) is None)
            && (items_error(item_views(p.items@)) is None)
            ==> only_error(p.broken_rules(), "version"@, version_error(p.version@)->0.code),
        !(title_error(p.title@) is None) && (version_error(p.version@) is None)
            && (items_error(item_views(p.items@)) is None)
            ==> only_error(p.broken_rules(), "title"@, title_error(p.title@)->0.code),
        !(items_error(item_views(p.items@)) is None) && (version_error(p.version@) is None)
            && (title_error(p.title@) is None)
            ==> only_error(p.broken_rules(), "items"@, items_error(item_views(p.items@))->0.code),
{
}

/// What an `UpdateReleaseNotePayload` has to keep to, and which field is told where it does not.
pub proof fn update_release_note_payloads_keep_their_bounds(p: UpdateReleaseNotePayload)
    ensures
        !has_errors(p.broken_rules()) <==> ((match p.version { Some(x) => version_error(x@), None => None }) is None)
            && ((match p.title { Some(x) => title_error(x@), None => None }) is None)
            && ((match p.items { Some(x) => items_error(item_views(x@)), None => None }) is None),
        !((match p.version { Some(x) => version_error(x@), None => None }) is None)
            && ((match p.title { Some(x) => title_error(x@), None => None }) is None)
            && ((match p.items { Some(x) => items_error(item_views(x@)), None => None }) is None)
            ==> only_error(p.broken_rules(), "version"@, (match p.version { Some(x) => version_error(x@), None => None })->0.code),
        !((match p.title { Some(x) => title_error(x@), None => None }) is None)
            && ((match p.version { Some(x) => version_error(x@), None => None }) is None)
            && ((match p.items { Some(x) => items_error(item_views(x@)), None => None }) is None)
            ==> only_error(p.broken_rules(), "title"@, (match p.title { Some(x) => title_error(x@), None => None })->0.code),
        !((match p.items { Some(x) => items_error(item_views(x@)), None => None }) is None)
            && ((match p.version { Some(x) => version_error(x@), None => None }) is None)
            && ((match p.title { Some(x) => title_error(x@), None => None }) is None)
            ==> only_error(p.broken_rules(), "items"@, (match p.items { Some(x) => items_error(item_views(x@)), None => None })->0.code),
{
}

/// What an `EmailCodePayload` has to keep to, and which field is told where it does not.
pub proof fn email_code_payloads_keep_their_bounds(p: EmailCodePayload)
    ensures
        !has_errors(p.broken_rules()) <==> (p.code@.len() == 6),
        !(p.code@.len() == 6) ==> only_error(p.broken_rules(), "code"@, "length"@),
{
}

/// What an `EmailChangePayload` has to keep to, and which field is told where it does not.
pub proof fn email_change_payloads_keep_their_bounds(p: EmailChangePayload)
    ensures
        !has_errors(p.broken_rules()) <==> (email_error(p.new_email@) is None)
            && (p.password matches Some(x) ==> x@.len() <= 256),
        !(email_error(p.new_email@) is None)
            && (p.password matches Some(x) ==> x@.len() <= 256)
            ==> only_error(p.broken_rules(), "new_email"@, email_error(p.new_email@)->0.code),
        !(p.password matches Some(x) ==> x@.len() <= 256)
            && (email_error(p.new_email@) is None)
            ==> only_error(p.broken_rules(), "password"@, "length"@),
{
}

/// What a `PasswordConfirmationPayload` has to keep to, and which field is told where it does not.
pub proof fn password_confirmation_payloads_keep_their_bounds(p: PasswordConfirmationPayload)
    ensures
        !has_errors(p.broken_rules()) <==> (p.password matches Some(x) ==> x@.len() <= 256),
        !(p.password matches Some(x) ==> x@.len() <= 256) ==> only_error(p.broken_rules(), "password"@, "length"@),
{
}

/// What a `TwoFactorCodePayload` has to keep to, and which field is told where it does not.
pub proof fn two_factor_code_payloads_keep_their_bounds(p: TwoFactorCodePayload)
    ensures
        !has_errors(p.broken_rules()) <==> (6 <= p.code@.len() <= 16),
        !(6 <= p.code@.len() <= 16) ==> only_error(p.broken_rules(), "code"@, "length"@),
{
}

/// What a `TwoFactorDisablePayload` has to keep to, and which field is told where it does not.
pub proof fn two_factor_disable_payloads_keep_their_bounds(p: TwoFactorDisablePayload)
    ensures
        !has_errors(p.broken_rules()) <==> (p.password matches Some(x) ==> x@.len() <= 256)
            && (6 <= p.code@.len() <= 16),
        !(p.password matches Some(x) ==> x@.len() <= 256)
            && (6 <= p.code@.len() <= 16) ==> only_error(p.broken_rules(), "password"@, "length"@),
        !(6 <= p.code@.len() <= 16)
            && (p.password matches Some(x) ==> x@.len() <= 256)
            ==> only_error(p.broken_rules(), "code"@, "length"@),
{
}

/// What a `CreateSetlistPayload` has to keep to, and which field is told where it does not.
pub proof fn create_setlist_payloads_keep_their_bounds(
    p: CreateSetlistPayload,
    description: Option<ErrorView>,
)
    ensures
        !has_errors(p.broken_rules(description)) <==> (1 <= p.title@.len() <= 255)
            && (description is None)
            && (p.links matches Some(x) ==> x@.len() <= 5),
        !(1 <= p.title@.len() <= 255) && (description is None)
            && (p.links matches Some(x) ==> x@.len() <= 5)
            ==> only_error(p.broken_rules(description), "title"@, "length"@),
        !(description is None) && (1 <= p.title@.len() <= 255)
            && (p.links matches Some(x) ==> x@.len() <= 5)
            ==> only_error(p.broken_rules(description), "description"@, description->0.code),
        !(p.links matches Some(x) ==> x@.len() <= 5) && (1 <= p.title@.len() <= 255)
            && (description is None)
            ==> only_error(p.broken_rules(description), "links"@, "length"@),
{
}

/// What an `UpdateSetlistPayload` has to keep to, and which field is told where it does not.
pub proof fn update_setlist_payloads_keep_their_bounds(
    p: UpdateSetlistPayload,
    description: Option<ErrorView>,
)
    ensures
        !has_errors(p.broken_rules(description)) <==> (p.title matches Some(x) ==> 1 <= x@.len() <= 255)
            && (description is None)
            && (p.links matches Some(x) ==> x@.len() <= 5),
        !(p.title matches Some(x) ==> 1 <= x@.len() <= 255) && (description is None)
            && (p.links matches Some(x) ==> x@.len() <= 5)
            ==> only_error(p.broken_rules(description), "title"@, "length"@),
        !(description is None) && (p.title matches Some(x) ==> 1 <= x@.len() <= 255)
            && (p.links matches Some(x) ==> x@.len() <= 5)
            ==> only_error(p.broken_rules(description), "description"@, description->0.code),
        !(p.links matches Some(x) ==> x@.len() <= 5)
            && (p.title matches Some(x) ==> 1 <= x@.len() <= 255)
            && (description is None)
            ==> only_error(p.broken_rules(description), "links"@, "length"@),
{
}

/// What a `DuplicateSetlistPayload` has to keep to, and which field is told where it does not.
pub proof fn duplicate_setlist_payloads_keep_their_bounds(p: DuplicateSetlistPayload)
    ensures
        !has_errors(p.broken_rules()) <==> (p.title matches Some(x) ==> 1 <= x@.len() <= 255),
        !(p.title matches Some(x) ==> 1 <= x@.len() <= 255) ==> only_error(p.broken_rules(), "title"@, "length"@),
{
}

/// What a `CreateSetlistBlockPayload` has to keep to, and which field is told where it does not.
pub proof fn create_setlist_block_payloads_keep_their_bounds(p: CreateSetlistBlockPayload)
    ensures
        !has_errors(p.broken_rules()) <==> (1 <= p.name@.len() <= 255),
        !(1 <= p.name@.len() <= 255) ==> only_error(p.broken_rules(), "name"@, "length"@),
{
}

/// What an `UpdateSetlistBlockPayload` has to keep to, and which field is told where it does not.
pub proof fn update_setlist_block_payloads_keep_their_bounds(p: UpdateSetlistBlockPayload)
    ensures
        !has_errors(p.broken_rules()) <==> (1 <= p.name@.len() <= 255),
        !(1 <= p.name@.len() <= 255) ==> only_error(p.broken_rules(), "name"@, "length"@),
{
}

/// What a `CreateSetlistBreakPayload` has to keep to, and which field is told where it does not.
pub proof fn create_setlist_break_payloads_keep_their_bounds(p: CreateSetlistBreakPayload)
    ensures
        !has_errors(p.broken_rules()) <==> (p.label matches Some(x) ==> x@.len() <= 255)
            && (p.duration_minutes matches Some(x) ==> 0 <= x <= 1440),
        !(p.label matches Some(x) ==> x@.len() <= 255)
            && (p.duration_minutes matches Some(x) ==> 0 <= x <= 1440)
            ==> only_error(p.broken_rules(), "label"@, "length"@),
        !(p.duration_minutes matches Some(x) ==> 0 <= x <= 1440)
            && (p.label matches Some(x) ==> x@.len() <= 255)
            ==> only_error(p.broken_rules(), "duration_minutes"@, "range"@),
{
}

/// What an `UpdateSetlistBreakPayload` has to keep to, and which field is told where it does not.
pub proof fn update_setlist_break_payloads_keep_their_bounds(p: UpdateSetlistBreakPayload)
    ensures
        !has_errors(p.broken_rules()) <==> (p.label matches Some(x) ==> x@.len() <= 255)
            && (p.duration_minutes matches Some(x) ==> 0 <= x <= 1440),
        !(p.label matches Some(x) ==> x@.len() <= 255)
            && (p.duration_minutes matches Some(x) ==> 0 <= x <= 1440)
            ==> only_error(p.broken_rules(), "label"@, "length"@),
        !(p.duration_minutes matches Some(x) ==> 0 <= x <= 1440)
            && (p.label matches Some(x) ==> x@.len() <= 255)
            ==> only_error(p.broken_rules(), "duration_minutes"@, "range"@),
{
}

/// What a `ReorderSetlistItemsPayload` has to keep to, and which field is told where it does not.
pub proof fn reorder_setlist_items_payloads_keep_their_bounds(p: ReorderSetlistItemsPayload)
    ensures
        !has_errors(p.broken_rules()) <==> (1 <= p.items@.len() <= 1000),
        !(1 <= p.items@.len() <= 1000) ==> only_error(p.broken_rules(), "items"@, "length"@),
{
}

/// What a `ReorderSetlistSongsPayload` has to keep to, and which field is told where it does not.
pub proof fn reorder_setlist_songs_payloads_keep_their_bounds(p: ReorderSetlistSongsPayload)
    ensures
        !has_errors(p.broken_rules()) <==> (1 <= p.song_ids@.len() <= 1000),
        !(1 <= p.song_ids@.len() <= 1000) ==> only_error(p.broken_rules(), "song_ids"@, "length"@),
{
}

/// What a `CreateSongPayload` has to keep to, and which field is told where it does not.
pub proof fn create_song_payloads_keep_their_bounds(p: CreateSongPayload, lyrics: Option<ErrorView>)
    ensures
        !has_errors(p.broken_rules(lyrics)) <==> (1 <= p.title@.len() <= 255)
            && (p.tempo matches Some(x) ==> 1 <= x <= 500)
            && (lyrics is None)
            && (p.duration matches Some(x) ==> 1 <= x <= 7200),
        !(1 <= p.title@.len() <= 255) && (p.tempo matches Some(x) ==> 1 <= x <= 500)
            && (lyrics is None)
            && (p.duration matches Some(x) ==> 1 <= x <= 7200)
            ==> only_error(p.broken_rules(lyrics), "title"@, "length"@),
        !(p.tempo matches Some(x) ==> 1 <= x <= 500) && (1 <= p.title@.len() <= 255)
            && (lyrics is None)
            && (p.duration matches Some(x) ==> 1 <= x <= 7200)
            ==> only_error(p.broken_rules(lyrics), "tempo"@, "range"@),
        !(lyrics is None) && (1 <= p.title@.len() <= 255)
            && (p.tempo matches Some(x) ==> 1 <= x <= 500)
            && (p.duration matches Some(x) ==> 1 <= x <= 7200)
            ==> only_error(p.broken_rules(lyrics), "lyrics"@, lyrics->0.code),
        !(p.duration matches Some(x) ==> 1 <= x <= 7200) && (1 <= p.title@.len() <= 255)
            && (p.tempo matches Some(x) ==> 1 <= x <= 500)
            && (lyrics is None) ==> only_error(p.broken_rules(lyrics), "duration"@, "range"@),
{
}

/// What an `UpdateSongPayload` has to keep to, and which field is told where it does not.
pub proof fn update_song_payloads_keep_their_bounds(p: UpdateSongPayload, lyrics: Option<ErrorView>)
    ensures
        !has_errors(p.broken_rules(lyrics)) <==> (p.title matches Some(x) ==> 1 <= x@.len() <= 255)
            && (p.tempo matches Some(Some(x)) ==> 1 <= x <= 500)
            && (lyrics is None)
            && (p.duration matches Some(Some(x)) ==> 1 <= x <= 7200),
        !(p.title matches Some(x) ==> 1 <= x@.len() <= 255)
            && (p.tempo matches Some(Some(x)) ==> 1 <= x <= 500) && (lyrics is None)
            && (p.duration matches Some(Some(x)) ==> 1 <= x <= 7200)
            ==> only_error(p.broken_rules(lyrics), "title"@, "length"@),
        !(p.tempo matches Some(Some(x)) ==> 1 <= x <= 500)
            && (p.title matches Some(x) ==> 1 <= x@.len() <= 255) && (lyrics is None)
            && (p.duration matches Some(Some(x)) ==> 1 <= x <= 7200)
            ==> only_error(p.broken_rules(lyrics), "tempo"@, "range"@),
        !(lyrics is None) && (p.title matches Some(x) ==> 1 <= x@.len() <= 255)
            && (p.tempo matches Some(Some(x)) ==> 1 <= x <= 500)
            && (p.duration matches Some(Some(x)) ==> 1 <= x <= 7200)
            ==> only_error(p.broken_rules(lyrics), "lyrics"@, lyrics->0.code),
        !(p.duration matches Some(Some(x)) ==> 1 <= x <= 7200)
            && (p.title matches Some(x) ==> 1 <= x@.len() <= 255)
            && (p.tempo matches Some(Some(x)) ==> 1 <= x <= 500)
            && (lyrics is None) ==> only_error(p.broken_rules(lyrics), "duration"@, "range"@),
{
}

/// What a `RenameTagPayload` has to keep to, and which field is told where it does not.
pub proof fn rename_tag_payloads_keep_their_bounds(p: RenameTagPayload)
    ensures
        !has_errors(p.broken_rules()) <==> (1 <= p.new_name@.len() <= 30),
        !(1 <= p.new_name@.len() <= 30) ==> only_error(p.broken_rules(), "new_name"@, "length"@),
{
}

/// What a `CreateSuggestionPayload` has to keep to, and which field is told where it does not.
pub proof fn create_suggestion_payloads_keep_their_bounds(p: CreateSuggestionPayload)
    ensures
        !has_errors(p.broken_rules()) <==> (p.note matches Some(x) ==> x@.len() <= 500),
        !(p.note matches Some(x) ==> x@.len() <= 500) ==> only_error(p.broken_rules(), "note"@, "length"@),
{
}

/// What a `VotePayload` has to keep to, and which field is told where it does not.
pub proof fn vote_payloads_keep_their_bounds(p: VotePayload)
    ensures
        !has_errors(p.broken_rules()) <==> (vote_error(p.value as int) is None),
        !(vote_error(p.value as int) is None) ==> only_error(p.broken_rules(), "value"@, vote_error(p.value as int)->0.code),
{
}

/// What a `ResolveSuggestionPayload` has to keep to, and which field is told where it does not.
pub proof fn resolve_suggestion_payloads_keep_their_bounds(p: ResolveSuggestionPayload)
    ensures
        !has_errors(p.broken_rules()) <==> (p.note matches Some(x) ==> x@.len() <= 500),
        !(p.note matches Some(x) ==> x@.len() <= 500) ==> only_error(p.broken_rules(), "note"@, "length"@),
{
}

/// What an `UpdateTourPayload` has to keep to, and which field is told where it does not.
pub proof fn update_tour_payloads_keep_their_bounds(
    p: UpdateTourPayload,
    description: Option<ErrorView>,
)
    ensures
        !has_errors(p.broken_rules(description)) <==> ((match p.name { Some(x) => name_error(x@), None => None }) is None)
            && (description is None),
        !((match p.name { Some(x) => name_error(x@), None => None }) is None)
            && (description is None)
            ==> only_error(p.broken_rules(description), "name"@, (match p.name { Some(x) => name_error(x@), None => None })->0.code),
        !(description is None)
            && ((match p.name { Some(x) => name_error(x@), None => None }) is None)
            ==> only_error(p.broken_rules(description), "description"@, description->0.code),
{
}

/// What a `RegisterPayload` has to keep to, and which field is told where it does not.
pub proof fn register_payloads_keep_their_bounds(
    p: RegisterPayload,
    username: Option<ErrorView>,
    password: Option<ErrorView>,
    first_name: Option<ErrorView>,
    last_name: Option<ErrorView>,
)
    ensures
        !has_errors(p.broken_rules(username, password, first_name, last_name)) <==> (username is None)
            && ((match p.email { Some(x) => email_error(x@), None => None }) is None)
            && (password is None)
            && (first_name is None)
            && (last_name is None)
            && ((match p.referral_code { Some(x) => referral_error(x@), None => None }) is None)
            && ((match p.locale { Some(x) => locale_error(x@), None => None }) is None),
        !(username is None)
            && ((match p.email { Some(x) => email_error(x@), None => None }) is None)
            && (password is None) && (first_name is None) && (last_name is None)
            && ((match p.referral_code { Some(x) => referral_error(x@), None => None }) is None)
            && ((match p.locale { Some(x) => locale_error(x@), None => None }) is None)
            ==> only_error(p.broken_rules(username, password, first_name, last_name), "username"@, username->0.code),
        !((match p.email { Some(x) => email_error(x@), None => None }) is None)
            && (username is None) && (password is None) && (first_name is None)
            && (last_name is None)
            && ((match p.referral_code { Some(x) => referral_error(x@), None => None }) is None)
            && ((match p.locale { Some(x) => locale_error(x@), None => None }) is None)
            ==> only_error(p.broken_rules(username, password, first_name, last_name), "email"@, (match p.email { Some(x) => email_error(x@), None => None })->0.code),
        !(password is None) && (username is None)
            && ((match p.email { Some(x) => email_error(x@), None => None }) is None)
            && (first_name is None) && (last_name is None)
            && ((match p.referral_code { Some(x) => referral_error(x@), None => None }) is None)
            && ((match p.locale { Some(x) => locale_error(x@), None => None }) is None)
            ==> only_error(p.broken_rules(username, password, first_name, last_name), "password"@, password->0.code),
        !(first_name is None) && (username is None)
            && ((match p.email { Some(x) => email_error(x@), None => None }) is None)
            && (password is None) && (last_name is None)
            && ((match p.referral_code { Some(x) => referral_error(x@), None => None }) is None)
            && ((match p.locale { Some(x) => locale_error(x@), None => None }) is None)
            ==> only_error(p.broken_rules(username, password, first_name, last_name), "first_name"@, first_name->0.code),
        !(last_name is None) && (username is None)
            && ((match p.email { Some(x) => email_error(x@), None => None }) is None)
            && (password is None) && (first_name is None)
            && ((match p.referral_code { Some(x) => referral_error(x@), None => None }) is None)
            && ((match p.locale { Some(x) => locale_error(x@), None => None }) is None)
            ==> only_error(p.broken_rules(username, password, first_name, last_name), "last_name"@, last_name->0.code),
        !((match p.referral_code { Some(x) => referral_error(x@), None => None }) is None)
            && (username is None)
            && ((match p.email { Some(x) => email_error(x@), None => None }) is None)
            && (password is None) && (first_name is None) && (last_name is None)
            && ((match p.locale { Some(x) => locale_error(x@), None => None }) is None)
            ==> only_error(p.broken_rules(username, password, first_name, last_name), "referral_code"@, (match p.referral_code { Some(x) => referral_error(x@), None => None })->0.code),
        !((match p.locale { Some(x) => locale_error(x@), None => None }) is None)
            && (username is None)
            && ((match p.email { Some(x) => email_error(x@), None => None }) is None)
            && (password is None) && (first_name is None) && (last_name is None)
            && ((match p.referral_code { Some(x) => referral_error(x@), None => None }) is None)
            ==> only_error(p.broken_rules(username, password, first_name, last_name), "locale"@, (match p.locale { Some(x) => locale_error(x@), None => None })->0.code),
{
}

/// What a `CreateUserPayload` has to keep to, and which field is told where it does not.
pub proof fn create_user_payloads_keep_their_bounds(
    p: CreateUserPayload,
    username: Option<ErrorView>,
    password: Option<ErrorView>,
    first_name: Option<ErrorView>,
    last_name: Option<ErrorView>,
)
    ensures
        !has_errors(p.broken_rules(username, password, first_name, last_name)) <==> (username is None)
            && ((match p.email { Some(x) => optional_email_error(x@), None => None }) is None)
            && (password is None)
            && (first_name is None)
            && (last_name is None),
        !(username is None)
            && ((match p.email { Some(x) => optional_email_error(x@), None => None }) is None)
            && (password is None) && (first_name is None)
            && (last_name is None)
            ==> only_error(p.broken_rules(username, password, first_name, last_name), "username"@, username->0.code),
        !((match p.email { Some(x) => optional_email_error(x@), None => None }) is None)
            && (username is None) && (password is None) && (first_name is None)
            && (last_name is None)
            ==> only_error(p.broken_rules(username, password, first_name, last_name), "email"@, (match p.email { Some(x) => optional_email_error(x@), None => None })->0.code),
        !(password is None) && (username is None)
            && ((match p.email { Some(x) => optional_email_error(x@), None => None }) is None)
            && (first_name is None)
            && (last_name is None)
            ==> only_error(p.broken_rules(username, password, first_name, last_name), "password"@, password->0.code),
        !(first_name is None) && (username is None)
            && ((match p.email { Some(x) => optional_email_error(x@), None => None }) is None)
            && (password is None)
            && (last_name is None)
            ==> only_error(p.broken_rules(username, password, first_name, last_name), "first_name"@, first_name->0.code),
        !(last_name is None) && (username is None)
            && ((match p.email { Some(x) => optional_email_error(x@), None => None }) is None)
            && (password is None)
            && (first_name is None)
            ==> only_error(p.broken_rules(username, password, first_name, last_name), "last_name"@, last_name->0.code),
{
}

/// What an `UpdateUserPayload` has to keep to, and which field is told where it does not.
pub proof fn update_user_payloads_keep_their_bounds(
    p: UpdateUserPayload,
    username: Option<ErrorView>,
    first_name: Option<ErrorView>,
    last_name: Option<ErrorView>,
)
    ensures
        !has_errors(p.broken_rules(username, first_name, last_name)) <==> (username is None)
            && ((match p.email { Some(x) => optional_email_error(x@), None => None }) is None)
            && (first_name is None)
            && (last_name is None),
        !(username is None)
            && ((match p.email { Some(x) => optional_email_error(x@), None => None }) is None)
            && (first_name is None)
            && (last_name is None)
            ==> only_error(p.broken_rules(username, first_name, last_name), "username"@, username->0.code),
        !((match p.email { Some(x) => optional_email_error(x@), None => None }) is None)
            && (username is None) && (first_name is None)
            && (last_name is None)
            ==> only_error(p.broken_rules(username, first_name, last_name), "email"@, (match p.email { Some(x) => optional_email_error(x@), None => None })->0.code),
        !(first_name is None) && (username is None)
            && ((match p.email { Some(x) => optional_email_error(x@), None => None }) is None)
            && (last_name is None)
            ==> only_error(p.broken_rules(username, first_name, last_name), "first_name"@, first_name->0.code),
        !(last_name is None) && (username is None)
            && ((match p.email { Some(x) => optional_email_error(x@), None => None }) is None)
            && (first_name is None)
            ==> only_error(p.broken_rules(username, first_name, last_name), "last_name"@, last_name->0.code),
{
}

/// What an `UpdateCurrentUserPayload` has to keep to, and which field is told where it does not.
pub proof fn update_current_user_payloads_keep_their_bounds(
    p: UpdateCurrentUserPayload,
    username: Option<ErrorView>,
    first_name: Option<ErrorView>,
    last_name: Option<ErrorView>,
)
    ensures
        !has_errors(p.broken_rules(username, first_name, last_name)) <==> (username is None)
            && (first_name is None)
            && (last_name is None)
            && ((match p.bio { Some(x) => bio_error(x@), None => None }) is None)
            && ((match p.location { Some(x) => location_error(x@), None => None }) is None)
        && ((match p.instruments { Some(x) => instruments_error(texts(x@)), None => None }) is None),
        !(username is None) && (first_name is None) && (last_name is None)
            && ((match p.bio { Some(x) => bio_error(x@), None => None }) is None)
            && ((match p.location { Some(x) => location_error(x@), None => None }) is None)
            && ((match p.instruments { Some(x) => instruments_error(texts(x@)), None => None }) is None)
            ==> only_error(p.broken_rules(username, first_name, last_name), "username"@, username->0.code),
        !(first_name is None) && (username is None) && (last_name is None)
            && ((match p.bio { Some(x) => bio_error(x@), None => None }) is None)
            && ((match p.location { Some(x) => location_error(x@), None => None }) is None)
            && ((match p.instruments { Some(x) => instruments_error(texts(x@)), None => None }) is None)
            ==> only_error(p.broken_rules(username, first_name, last_name), "first_name"@, first_name->0.code),
        !(last_name is None) && (username is None) && (first_name is None)
            && ((match p.bio { Some(x) => bio_error(x@), None => None }) is None)
            && ((match p.location { Some(x) => location_error(x@), None => None }) is None)
            && ((match p.instruments { Some(x) => instruments_error(texts(x@)), None => None }) is None)
            ==> only_error(p.broken_rules(username, first_name, last_name), "last_name"@, last_name->0.code),
        !((match p.bio { Some(x) => bio_error(x@), None => None }) is None) && (username is None)
            && (first_name is None) && (last_name is None)
            && ((match p.location { Some(x) => location_error(x@), None => None }) is None)
            && ((match p.instruments { Some(x) => instruments_error(texts(x@)), None => None }) is None)
            ==> only_error(p.broken_rules(username, first_name, last_name), "bio"@, (match p.bio { Some(x) => bio_error(x@), None => None })->0.code),
        !((match p.location { Some(x) => location_error(x@), None => None }) is None)
            && (username is None) && (first_name is None) && (last_name is None)
            && ((match p.bio { Some(x) => bio_error(x@), None => None }) is None)
            && ((match p.instruments { Some(x) => instruments_error(texts(x@)), None => None }) is None)
            ==> only_error(p.broken_rules(username, first_name, last_name), "location"@, (match p.location { Some(x) => location_error(x@), None => None })->0.code),
        !((match p.instruments { Some(x) => instruments_error(texts(x@)), None => None }) is None)
            && (username is None) && (first_name is None) && (last_name is None)
            && ((match p.bio { Some(x) => bio_error(x@), None => None }) is None)
            && ((match p.location { Some(x) => location_error(x@), None => None }) is None)
            ==> only_error(p.broken_rules(username, first_name, last_name), "instruments"@, (match p.instruments { Some(x) => instruments_error(texts(x@)), None => None })->0.code),
{
}

/// What a `ChangePasswordPayload` has to keep to, and which field is told where it does not.
pub proof fn change_password_payloads_keep_their_bounds(
    p: ChangePasswordPayload,
    new_password: Option<ErrorView>,
)
    ensures
        !has_errors(p.broken_rules(new_password)) <==> (1 <= p.current_password@.len() <= 256)
            && (new_password is None),
        !(1 <= p.current_password@.len() <= 256)
            && (new_password is None)
            ==> only_error(p.broken_rules(new_password), "current_password"@, "length"@),
        !(new_password is None)
            && (1 <= p.current_password@.len() <= 256)
            ==> only_error(p.broken_rules(new_password), "new_password"@, new_password->0.code),
{
}

/// What an `AdminResetPasswordPayload` has to keep to, and which field is told where it does not.
pub proof fn admin_reset_password_payloads_keep_their_bounds(
    p: AdminResetPasswordPayload,
    new_password: Option<ErrorView>,
)
    ensures
        !has_errors(p.broken_rules(new_password)) <==> (new_password is None),
        !(new_password is None) ==> only_error(p.broken_rules(new_password), "new_password"@, new_password->0.code),
{
}

/// What a `BanUserPayload` has to keep to, and which field is told where it does not.
pub proof fn ban_user_payloads_keep_their_bounds(p: BanUserPayload, reason: Option<ErrorView>)
    ensures
        !has_errors(p.broken_rules(reason)) <==> (p.duration_hours matches Some(x) ==> 1 <= x <= 87_600)
            && (reason is None),
        !(p.duration_hours matches Some(x) ==> 1 <= x <= 87_600)
            && (reason is None) ==> only_error(p.broken_rules(reason), "duration_hours"@, "range"@),
        !(reason is None)
            && (p.duration_hours matches Some(x) ==> 1 <= x <= 87_600)
            ==> only_error(p.broken_rules(reason), "reason"@, reason->0.code),
{
}

/// What an `AcceptTermsPayload` has to keep to, and which field is told where it does not.
pub proof fn accept_terms_payloads_keep_their_bounds(p: AcceptTermsPayload)
    ensures
        !has_errors(p.broken_rules()) <==> (1 <= p.version@.len() <= 20),
        !(1 <= p.version@.len() <= 20) ==> only_error(p.broken_rules(), "version"@, "length"@),
{
}

/// What a `DeleteAccountPayload` has to keep to, and which field is told where it does not.
pub proof fn delete_account_payloads_keep_their_bounds(p: DeleteAccountPayload)
    ensures
        !has_errors(p.broken_rules()) <==> (p.password matches Some(x) ==> x@.len() <= 256)
            && (p.reauth_code matches Some(x) ==> x@.len() <= 16)
            && (p.code matches Some(x) ==> x@.len() <= 16)
            && (1 <= p.confirmation@.len() <= 64),
        !(p.password matches Some(x) ==> x@.len() <= 256)
            && (p.reauth_code matches Some(x) ==> x@.len() <= 16)
            && (p.code matches Some(x) ==> x@.len() <= 16)
            && (1 <= p.confirmation@.len() <= 64)
            ==> only_error(p.broken_rules(), "password"@, "length"@),
        !(p.reauth_code matches Some(x) ==> x@.len() <= 16)
            && (p.password matches Some(x) ==> x@.len() <= 256)
            && (p.code matches Some(x) ==> x@.len() <= 16)
            && (1 <= p.confirmation@.len() <= 64)
            ==> only_error(p.broken_rules(), "reauth_code"@, "length"@),
        !(p.code matches Some(x) ==> x@.len() <= 16)
            && (p.password matches Some(x) ==> x@.len() <= 256)
            && (p.reauth_code matches Some(x) ==> x@.len() <= 16)
            && (1 <= p.confirmation@.len() <= 64)
            ==> only_error(p.broken_rules(), "code"@, "length"@),
        !(1 <= p.confirmation@.len() <= 64) && (p.password matches Some(x) ==> x@.len() <= 256)
            && (p.reauth_code matches Some(x) ==> x@.len() <= 16)
            && (p.code matches Some(x) ==> x@.len() <= 16)
            ==> only_error(p.broken_rules(), "confirmation"@, "length"@),
{
}

/// What a `ReportUserPayload` has to keep to, and which field is told where it does not.
pub proof fn report_user_payloads_keep_their_bounds(p: ReportUserPayload)
    ensures
        !has_errors(p.broken_rules()) <==> (p.details matches Some(x) ==> x@.len() <= 500),
        !(p.details matches Some(x) ==> x@.len() <= 500) ==> only_error(p.broken_rules(), "details"@, "length"@),
{
}

/// What an `UpdatePreferencesPayload` has to keep to, and which field is told where it does not.
pub proof fn update_preferences_payloads_keep_their_bounds(p: UpdatePreferencesPayload)
    ensures
        !has_errors(p.broken_rules()) <==> ((match p.language { Some(x) => language_error(x@), None => None }) is None)
            && (p.live_mode_font_size matches Some(x) ==> 50 <= x <= 300)
            && ((match p.ui_settings { Some(x) => settings_error(x@), None => None }) is None),
        !((match p.language { Some(x) => language_error(x@), None => None }) is None)
            && (p.live_mode_font_size matches Some(x) ==> 50 <= x <= 300)
            && ((match p.ui_settings { Some(x) => settings_error(x@), None => None }) is None)
            ==> only_error(p.broken_rules(), "language"@, (match p.language { Some(x) => language_error(x@), None => None })->0.code),
        !(p.live_mode_font_size matches Some(x) ==> 50 <= x <= 300)
            && ((match p.language { Some(x) => language_error(x@), None => None }) is None)
            && ((match p.ui_settings { Some(x) => settings_error(x@), None => None }) is None)
            ==> only_error(p.broken_rules(), "live_mode_font_size"@, "range"@),
        !((match p.ui_settings { Some(x) => settings_error(x@), None => None }) is None)
            && ((match p.language { Some(x) => language_error(x@), None => None }) is None)
            && (p.live_mode_font_size matches Some(x) ==> 50 <= x <= 300)
            ==> only_error(p.broken_rules(), "ui_settings"@, (match p.ui_settings { Some(x) => settings_error(x@), None => None })->0.code),
{
}

} // verus!
