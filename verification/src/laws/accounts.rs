//! Accounts: roles, bans, locks, terms and what their owners enter.

use crate::models::band::{band_rank, band_role_key, configurable_error, BandRole};
use crate::models::user::{
    ban_at, bio_error, distinct_instruments, email_error, first_problem, in_force,
    instrument_problem, instruments_error, is_email, is_profile_of, listed, locale_error, lock_at,
    location_error, may_manage, optional_email_error, referral_error, role_key, role_rank, staff,
    BandInCommon, Role, UserProfileView, UserPublic,
};
use crate::text::{is_alnum, is_control, lower_case, squeeze, trim};
use crate::time::NaiveDateTime;
use vstd::prelude::*;

verus! {

/// Moderators and admins are staff; who is staff manages those of a lower rank:
/// an admin manages moderators and users, a moderator manages users, and a user
/// manages nobody.
pub proof fn staff_manages_lower_ranks(a: Role, b: Role)
    ensures
        staff(a) <==> a != Role::User,
        may_manage(Role::Admin, Role::Moderator) && may_manage(Role::Admin, Role::User)
            && may_manage(Role::Moderator, Role::User),
        may_manage(a, b) <==> a == Role::Admin && b != Role::Admin || a == Role::Moderator && b
            == Role::User,
        role_rank(Role::User) < role_rank(Role::Moderator) < role_rank(Role::Admin),
        role_key(a) == match a {
            Role::User => "user"@,
            Role::Moderator => "moderator"@,
            Role::Admin => "admin"@,
        },
{
}

/// In a band the owner stands over the admins, they over the moderators, and
/// they over the members. What an owner or an admin may do is not up to anybody.
pub proof fn band_roles_have_their_rank(role: BandRole)
    ensures
        band_rank(BandRole::Member) < band_rank(BandRole::Moderator) < band_rank(BandRole::Admin)
            < band_rank(BandRole::Owner),
        configurable_error(role) is None <==> role == BandRole::Member || role
            == BandRole::Moderator,
        band_role_key(role) == match role {
            BandRole::Owner => "owner"@,
            BandRole::Admin => "admin"@,
            BandRole::Moderator => "moderator"@,
            BandRole::Member => "member"@,
        },
{
}

/// A ban holds from when it was given until it ends, or for good; without a ban
/// there is none.
pub proof fn bans_hold_until_they_end(
    banned_at: Option<NaiveDateTime>,
    until: Option<NaiveDateTime>,
    now: int,
)
    ensures
        ban_at(banned_at, until, now) is Some <==> banned_at is Some && (until is None || now
            < until->0@),
        ban_at(banned_at, until, now) is Some ==> ban_at(banned_at, until, now)->0 == until,
{
}

/// An account is locked until the moment that the lock names, and not at it.
pub proof fn locks_hold_until_they_end(until: Option<NaiveDateTime>, now: int)
    ensures
        lock_at(until, now) is Some <==> until is Some && now < until->0@,
        lock_at(until, now) is Some ==> lock_at(until, now) == until,
{
}

/// Only the terms that are in force count as accepted.
pub proof fn only_the_current_terms_count(version: Option<Seq<char>>)
    ensures
        in_force(version) <==> version == Some("2026-09-24"@),
        version is None ==> !in_force(version),
{
}

/// An address is accepted when it is one and has at most 254 characters, without
/// the blanks around it; one that may be left out is also accepted empty, and
/// counted in bytes as it is.
pub proof fn addresses_are_bounded(email: Seq<char>)
    ensures
        email_error(email) is None <==> trim(email).len() <= 254 && is_email(trim(email)),
        email.len() == 0 ==> optional_email_error(email) is None,
        email.len() > 0 ==> (optional_email_error(email) is None <==> is_email(email)
            && vstd::utf8::encode_utf8(email).len() <= 254),
        is_email(email) ==> email.contains('@'),
{
}

/// A referral code has at most 32 letters, digits and dashes; a bio at most 280
/// characters and a location at most 80, without the blanks around them.
pub proof fn profile_texts_are_bounded(s: Seq<char>)
    ensures
        referral_error(s) is None <==> trim(s).len() <= 32 && forall|i: int|
            0 <= i < trim(s).len() ==> is_alnum(#[trigger] trim(s)[i]) || trim(s)[i] == '-',
        bio_error(s) is None <==> trim(s).len() <= 280,
        location_error(s) is None <==> trim(s).len() <= 80,
{
}

/// The languages are English, Brazilian Portuguese and Spanish.
pub proof fn three_languages_are_supported(s: Seq<char>)
    ensures
        crate::models::user_preferences::is_supported_language(s) <==> s == "en"@ || s == "pt-BR"@
            || s == "es"@,
        locale_error(s) is None <==> s == "en"@ || s == "pt-BR"@ || s == "es"@,
{
    let v = crate::models::user_preferences::SUPPORTED_LANGUAGES@;
    assert(v[0]@ == "en"@ && v[1]@ == "pt-BR"@ && v[2]@ == "es"@);
}

/// Instruments are accepted when there are at most eight, each of 1 to 30
/// characters without the blanks around it, and without control characters.
pub proof fn instruments_are_few_and_short(values: Seq<Seq<char>>)
    ensures
        instruments_error(values) is None <==> values.len() <= 8 && forall|i: int|
            0 <= i < values.len() ==> is_instrument(#[trigger] values[i]),
{
    lemma_first_problem(values, 0);
}

pub open spec fn is_instrument(value: Seq<char>) -> bool {
    &&& 1 <= trim(value).len() <= 30
    &&& forall|i: int| 0 <= i < value.len() ==> !is_control(#[trigger] value[i])
}

proof fn lemma_first_problem(values: Seq<Seq<char>>, i: int)
    requires
        0 <= i,
    ensures
        first_problem(values, i) is None <==> forall|k: int|
            i <= k < values.len() ==> is_instrument(#[trigger] values[k]),
    decreases values.len() - i,
{
    if i < values.len() {
        lemma_first_problem(values, i + 1);
        assert(instrument_problem(values[i]) is None <==> is_instrument(values[i]));
    }
}

/// Every instrument that says something is kept once, as it was first written,
/// with its blanks collapsed; nothing else is.
pub proof fn every_instrument_is_kept_once(values: Seq<Seq<char>>)
    ensures
        forall|i: int|
            0 <= i < values.len() && squeeze(#[trigger] values[i]).len() > 0 ==> listed(
                distinct_instruments(values),
                squeeze(values[i]),
            ),
        forall|i: int|
            0 <= i < distinct_instruments(values).len() ==> exists|k: int|
                0 <= k < values.len() && squeeze(#[trigger] values[k]) == (
                #[trigger] distinct_instruments(values)[i]),
    decreases values.len(),
{
    if values.len() > 0 {
        let front = values.drop_last();
        every_instrument_is_kept_once(front);
        let before = distinct_instruments(front);
        let all = distinct_instruments(values);
        let t = squeeze(values.last());
        assert forall|i: int|
            0 <= i < values.len() && squeeze(#[trigger] values[i]).len() > 0 implies listed(
            all,
            squeeze(values[i]),
        ) by {
            if i < front.len() {
                assert(front[i] == values[i]);
                assert(listed(before, squeeze(front[i])));
                let k = choose|k: int|
                    0 <= k < before.len() && lower_case(#[trigger] before[k]) == lower_case(
                        squeeze(values[i]),
                    );
                assert(all[k] == before[k]);
            } else if !listed(before, t) {
                assert(all[before.len() as int] == t);
            } else {
                let k = choose|k: int|
                    0 <= k < before.len() && lower_case(#[trigger] before[k]) == lower_case(t);
                assert(all[k] == before[k]);
            }
        }
        assert forall|i: int| 0 <= i < all.len() implies exists|k: int|
            0 <= k < values.len() && squeeze(#[trigger] values[k]) == (#[trigger] all[i]) by {
            if i < before.len() {
                assert(all[i] == before[i]);
                let k = choose|k: int|
                    0 <= k < front.len() && squeeze(#[trigger] front[k]) == before[i];
                assert(values[k] == front[k]);
            } else {
                assert(squeeze(values[values.len() - 1]) == all[i]);
            }
        }
    }
}

/// A profile shows staff what only staff may see, and nobody else: neither the
/// address nor the role nor the ban of an account.
pub proof fn only_staff_sees_the_details_of_accounts(
    v: UserProfileView,
    u: UserPublic,
    viewer_is_staff: bool,
    is_self: bool,
    bands: Vec<BandInCommon>,
    flags: i64,
)
    requires
        is_profile_of(v, u, viewer_is_staff, is_self, bands, flags),
    ensures
        v.admin_details is Some <==> viewer_is_staff,
        viewer_is_staff ==> v.admin_details->0.email == u.email && v.admin_details->0.role == u.role
            && v.admin_details->0.status == u.status && v.admin_details->0.is_banned == u.is_banned
            && v.admin_details->0.banned_until == u.banned_until && v.admin_details->0.open_flags
            == flags,
        v.id == u.id && v.username == u.username && v.bio == u.bio && v.member_since
            == u.created_at && v.is_self == is_self && v.bands_in_common == bands,
{
}

} // verus!
