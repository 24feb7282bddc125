//! Who is let in, whose address counts, and what runs by itself.

use crate::errors::api_error::{plain_rule, Failure};
use crate::errors::status;
use crate::export::limiter::{item_size, songbook_size, too_large};
use crate::jobs::{goes_on, job_interval, trash_days, Job};
use crate::middlewares::authentication::{
    bearer, below_users_me, exports_in_bulk, kept_until_password_change, kept_without_two_factor, lacks_two_factor,
    reads_only, refusal, unusable, AuthState, Method,
};
use crate::middlewares::client_ip::{
    client_of, forwarded, hops_in, in_brackets, is_internal, last_untrusted, normalized, trusted,
    ClientIpPolicy, Forwarding, IpAddress,
};
use crate::models::auth::token::Claims;
use crate::models::setlist::SetlistItem;
use crate::models::user::{may_manage, Role, Status};
use crate::text::{
    ends_with, index_of, lemma_index_of, opt_text, split, starts_with, trim, trim_end_char,
};
use crate::time::shifted;
use vstd::prelude::*;

verus! {

/// An account in good standing is let in for every request that carries the
/// current version of its token.
pub proof fn good_accounts_are_let_in(
    claims: Claims,
    account: AuthState,
    impersonator: Option<AuthState>,
    request: Option<(Method, Seq<char>)>,
    now: int,
)
    requires
        claims.imp is None,
        claims.ver == account.token_version,
        account.status == Status::Active,
        account.banned_at is None,
        !account.must_change_password,
        account.role == Role::User || account.two_factor_enabled,
    ensures
        refusal(claims, Some(account), impersonator, request, now) is None,
{
}

/// An account that is not active is deactivated, whatever else it is; an active
/// account without a ban is usable.
pub proof fn only_active_accounts_are_usable(account: AuthState, now: int)
    ensures
        account.status != Status::Active ==> unusable(account, now) == Some(
            plain_rule(
                403,
                "ACCOUNT_DEACTIVATED"@,
                "This account is deactivated. Contact an administrator."@,
            ),
        ),
        account.status == Status::Active && account.banned_at is None ==> unusable(account, now)
            is None,
        account.status == Status::Active && account.banned_at is Some && account.banned_until
            is None ==> (unusable(account, now) matches Some(Failure::Rule { status, code, .. })
            && status == 403 && code == "ACCOUNT_BANNED"@),
{
}

/// Staff has an hour from its appointment to turn the second factor on, and
/// nobody else needs one.
pub proof fn staff_has_an_hour_for_the_second_factor(account: AuthState, now: int)
    ensures
        lacks_two_factor(account, now) <==> (account.role == Role::Admin || account.role
            == Role::Moderator) && !account.two_factor_enabled && shifted(
            account.role_since@,
            3_600,
        ) <= now,
{
}

/// Until a required change of password only the account itself is shown, and
/// the password may be changed and the terms accepted.
pub proof fn only_the_password_comes_before_a_required_change(
    claims: Claims,
    account: AuthState,
    impersonator: Option<AuthState>,
    method: Method,
    path: Seq<char>,
    now: int,
)
    requires
        claims.imp is None,
        claims.ver == account.token_version,
        unusable(account, now) is None,
        account.must_change_password,
        !(method == Method::Get || method == Method::Patch || method == Method::Post),
    ensures
        refusal(claims, Some(account), impersonator, Some((method, path)), now) == Some(
            plain_rule(
                403,
                "PASSWORD_CHANGE_REQUIRED"@,
                "You must change your password before continuing."@,
            ),
        ),
{
}

proof fn lemma_no_slash_to_trim(p: Seq<char>)
    requires
        p.len() > 0,
        p.last() != '/',
    ensures
        trim_end_char(p, '/') == p,
{
    reveal_with_fuel(trim_end_char, 1);
}

proof fn lemma_ends(before: Seq<char>, suffix: Seq<char>)
    ensures
        ends_with(before + suffix, suffix),
{
    assert((before + suffix).skip((before + suffix).len() - suffix.len()) =~= suffix);
}

/// Wherever the routes are mounted, the password may be changed, the terms
/// accepted and the account read before the required change.
pub proof fn the_password_can_always_be_changed(mount: Seq<char>)
    ensures
        kept_until_password_change(Method::Patch, mount + "/users/me/password"@),
        kept_until_password_change(Method::Post, mount + "/users/me/accept-terms"@),
        kept_until_password_change(Method::Get, mount + "/users/me"@),
        kept_until_password_change(Method::Get, mount + "/users/me/preferences"@),
        kept_until_password_change(Method::Get, mount + "/users/me/security"@),
{
    reveal_strlit("/users/me/password");
    reveal_strlit("/users/me/accept-terms");
    reveal_strlit("/users/me");
    reveal_strlit("/users/me/preferences");
    reveal_strlit("/users/me/security");
    lemma_ends(mount, "/users/me/password"@);
    lemma_ends(mount, "/users/me/accept-terms"@);
    lemma_ends(mount, "/users/me"@);
    lemma_ends(mount, "/users/me/preferences"@);
    lemma_ends(mount, "/users/me/security"@);
    lemma_no_slash_to_trim(mount + "/users/me/password"@);
    lemma_no_slash_to_trim(mount + "/users/me/accept-terms"@);
    lemma_no_slash_to_trim(mount + "/users/me"@);
    lemma_no_slash_to_trim(mount + "/users/me/preferences"@);
    lemma_no_slash_to_trim(mount + "/users/me/security"@);
}

/// A changed password is a change: nothing else is changed meanwhile.
pub proof fn nothing_else_changes_before_the_password(path: Seq<char>)
    ensures
        kept_until_password_change(Method::Patch, path) ==> ends_with(
            trim_end_char(path, '/'),
            "/users/me/password"@,
        ),
        kept_until_password_change(Method::Post, path) ==> ends_with(
            trim_end_char(path, '/'),
            "/users/me/accept-terms"@,
        ),
        !kept_until_password_change(Method::Delete, path),
        !kept_until_password_change(Method::Put, path),
        !kept_until_password_change(Method::Head, path),
        !kept_until_password_change(Method::Options, path),
        !kept_until_password_change(Method::Other, path),
{
}

/// Without the second factor staff can read below its own account, and can
/// turn the second factor on by any method.
pub proof fn the_second_factor_can_always_be_turned_on(method: Method, rest: Seq<char>)
    requires
        rest.len() > 0,
        rest.last() != '/',
    ensures
        kept_without_two_factor(method, "/api/v1/users/me/2fa/"@ + rest),
        kept_without_two_factor(method, "/api/v1/users/me/email/"@ + rest),
        kept_without_two_factor(Method::Get, "/api/v1/users/me/"@ + rest),
{
    reveal_strlit("/api/v1/users/me/2fa/");
    reveal_strlit("/api/v1/users/me/email/");
    reveal_strlit("/api/v1/users/me/");
    reveal_strlit("/api/v1");
    reveal_strlit("/users/me");
    reveal_strlit("/2fa/");
    reveal_strlit("/email/");
    let a = "/api/v1/users/me/2fa/"@ + rest;
    lemma_no_slash_to_trim(a);
    assert(a.take(7) =~= "/api/v1"@);
    assert(a.skip(7).take(9) =~= "/users/me"@);
    assert(a.skip(7).skip(9).take(5) =~= "/2fa/"@);
    assert(a.skip(7).skip(9)[0] == '/');
    let b = "/api/v1/users/me/email/"@ + rest;
    lemma_no_slash_to_trim(b);
    assert(b.take(7) =~= "/api/v1"@);
    assert(b.skip(7).take(9) =~= "/users/me"@);
    assert(b.skip(7).skip(9).take(7) =~= "/email/"@);
    assert(b.skip(7).skip(9)[0] == '/');
    let c = "/api/v1/users/me/"@ + rest;
    lemma_no_slash_to_trim(c);
    assert(c.take(7) =~= "/api/v1"@);
    assert(c.skip(7).take(9) =~= "/users/me"@);
    assert(c.skip(7).skip(9)[0] == '/');
}

proof fn lemma_below(rest: Seq<char>)
    requires
        rest.len() > 1,
        rest[0] == '/',
        rest.last() != '/',
    ensures
        below_users_me("/api/v1/users/me"@ + rest) == Some(rest),
{
    reveal_strlit("/api/v1/users/me");
    reveal_strlit("/api/v1");
    reveal_strlit("/users/me");
    let a = "/api/v1/users/me"@ + rest;
    lemma_no_slash_to_trim(a);
    assert(a.subrange(0, 7) =~= "/api/v1"@);
    assert(a.skip(7).subrange(0, 9) =~= "/users/me"@);
    assert(a.skip(7).skip(9) =~= rest);
}

/// Below its own account, staff without the second factor may accept the terms,
/// change its password and ask for a code; what else changes anything waits.
pub proof fn other_changes_wait_for_the_second_factor(method: Method, rest: Seq<char>)
    requires
        rest.len() > 1,
        rest[0] == '/',
        rest.last() != '/',
        method != Method::Get,
        !starts_with(rest, "/2fa/"@),
        !starts_with(rest, "/email/"@),
    ensures
        kept_without_two_factor(method, "/api/v1/users/me"@ + rest) <==> rest == "/2fa"@ || rest
            == "/reauth/code"@ || (method == Method::Post && rest == "/accept-terms"@) || (method
            == Method::Patch && rest == "/password"@),
{
    lemma_below(rest);
}

/// Staff that lacks the second factor is refused outside its own account.
pub proof fn staff_without_second_factor_is_held_back(
    claims: Claims,
    account: AuthState,
    impersonator: Option<AuthState>,
    method: Method,
    path: Seq<char>,
    now: int,
)
    requires
        claims.imp is None,
        claims.ver == account.token_version,
        unusable(account, now) is None,
        !account.must_change_password,
        lacks_two_factor(account, now),
        !starts_with(path, "/api/v1/users/me"@),
        !starts_with(path, "/users/me"@),
        path.len() > 0,
        path.last() != '/',
    ensures
        refusal(claims, Some(account), impersonator, Some((method, path)), now) == Some(
            plain_rule(
                403,
                "STAFF_TWO_FACTOR_REQUIRED"@,
                "Enable two-factor authentication to keep using your staff account."@,
            ),
        ),
{
    lemma_no_slash_to_trim(path);
    reveal_strlit("/api/v1/users/me");
    reveal_strlit("/api/v1");
    reveal_strlit("/users/me");
    if starts_with(path, "/api/v1"@) && starts_with(path.skip(7), "/users/me"@) {
        assert(path.take(16) =~= path.take(7) + path.skip(7).take(9));
        assert("/api/v1/users/me"@ =~= "/api/v1"@ + "/users/me"@);
    }
}

/// A staff member in good standing who may manage an account reads as it.
pub proof fn staff_reads_as_the_accounts_it_manages(
    claims: Claims,
    account: AuthState,
    staff: AuthState,
    request: Option<(Method, Seq<char>)>,
    now: int,
)
    requires
        claims.imp is Some,
        claims.iver == Some(staff.token_version),
        staff.status == Status::Active,
        staff.banned_at is None,
        staff.two_factor_enabled,
        may_manage(staff.role, account.role),
        match request {
            Some((m, _)) => m == Method::Get || m == Method::Head || m == Method::Options,
            None => true,
        },
    ensures
        refusal(claims, Some(account), Some(staff), request, now) is None,
{
}

/// Three methods only read.
pub proof fn three_methods_only_read()
    ensures
        reads_only(Method::Get),
        reads_only(Method::Head),
        reads_only(Method::Options),
        !reads_only(Method::Post),
        !reads_only(Method::Put),
        !reads_only(Method::Patch),
        !reads_only(Method::Delete),
        !reads_only(Method::Other),
{
}

/// The token is what follows the word, without the space round it.
pub proof fn tokens_follow_the_word_bearer(token: Seq<char>)
    ensures
        trim(token).len() > 0 ==> bearer(Some("Bearer "@ + token)) == Some(trim(token)),
        trim(token).len() == 0 ==> bearer(Some("Bearer "@ + token)) is None,
        bearer(None) is None,
        !starts_with(token, "Bearer "@) ==> bearer(Some(token)) is None,
{
    reveal_strlit("Bearer ");
    let h = "Bearer "@ + token;
    assert(h.take(7) =~= "Bearer "@);
    assert(h.skip(7) =~= token);
}

/// Every setlist's sheet is a bulk export, as the backup, the songs and the
/// account's data are; what neither reads nor posts is none.
pub proof fn sheets_and_backups_are_bulk_exports(id: Seq<char>, method: Method, path: Seq<char>)
    ensures
        exports_in_bulk(Method::Get, "/api/v1/setlists/"@ + id + "/export/pdf"@),
        exports_in_bulk(Method::Post, "/api/v1/setlists/"@ + id + "/export/pdf"@),
        exports_in_bulk(method, "/api/v1/backup/export"@) <==> method == Method::Get || method
            == Method::Post,
        exports_in_bulk(method, "/api/v1/songs/export/chordpro"@) <==> method == Method::Get
            || method == Method::Post,
        exports_in_bulk(method, "/api/v1/users/me/data-export"@) <==> method == Method::Get
            || method == Method::Post,
        exports_in_bulk(method, path) ==> method == Method::Get || method == Method::Post,
{
    reveal_strlit("/api/v1");
    reveal_strlit("/api/v1/setlists/");
    reveal_strlit("/setlists/");
    reveal_strlit("/export/pdf");
    reveal_strlit("/api/v1/backup/export");
    reveal_strlit("/backup/export");
    reveal_strlit("/api/v1/songs/export/chordpro");
    reveal_strlit("/songs/export/chordpro");
    reveal_strlit("/api/v1/users/me/data-export");
    reveal_strlit("/users/me/data-export");
    let p = "/api/v1/setlists/"@ + id + "/export/pdf"@;
    lemma_no_slash_to_trim(p);
    assert(p.take(7) =~= "/api/v1"@);
    assert(p.skip(7).take(10) =~= "/setlists/"@);
    assert(p.skip(7) =~= "/setlists/"@ + id + "/export/pdf"@);
    lemma_ends("/setlists/"@ + id, "/export/pdf"@);
    lemma_no_slash_to_trim("/api/v1/backup/export"@);
    assert("/api/v1/backup/export"@.take(7) =~= "/api/v1"@);
    assert("/api/v1/backup/export"@.skip(7) =~= "/backup/export"@);
    lemma_no_slash_to_trim("/api/v1/songs/export/chordpro"@);
    assert("/api/v1/songs/export/chordpro"@.take(7) =~= "/api/v1"@);
    assert("/api/v1/songs/export/chordpro"@.skip(7) =~= "/songs/export/chordpro"@);
    lemma_no_slash_to_trim("/api/v1/users/me/data-export"@);
    assert("/api/v1/users/me/data-export"@.take(7) =~= "/api/v1"@);
    assert("/api/v1/users/me/data-export"@.skip(7) =~= "/users/me/data-export"@);
}

proof fn lemma_last_untrusted(hops: Seq<IpAddress>, policy: ClientIpPolicy, k: int, n: int)
    requires
        0 <= k < n <= hops.len(),
        !trusted(policy, hops[k]),
        forall|i: int| k < i < n ==> trusted(policy, #[trigger] hops[i]),
    ensures
        last_untrusted(hops, policy, n) == Some(hops[k]),
    decreases n,
{
    if n - 1 > k {
        lemma_last_untrusted(hops, policy, k, n - 1);
    }
}

proof fn lemma_all_trusted(hops: Seq<IpAddress>, policy: ClientIpPolicy, n: int)
    requires
        0 <= n <= hops.len(),
        forall|i: int| 0 <= i < n ==> trusted(policy, #[trigger] hops[i]),
    ensures
        last_untrusted(hops, policy, n) is None,
    decreases n,
{
    if n > 0 {
        lemma_all_trusted(hops, policy, n - 1);
    }
}

/// Behind trusted proxies the client is the last hop that is no trusted proxy.
pub proof fn the_last_untrusted_hop_is_the_client(
    peer: Option<IpAddress>,
    from: Forwarding,
    policy: ClientIpPolicy,
    k: int,
)
    requires
        0 <= k < from.hops@.len(),
        !trusted(policy, from.hops@[k]),
        forall|i: int| k < i < from.hops@.len() ==> trusted(policy, #[trigger] from.hops@[i]),
        !is_internal(opt_text(policy.internal_secret), opt_text(from.secret)),
        match peer {
            Some(p) => trusted(policy, normalized(p)),
            None => true,
        },
    ensures
        client_of(peer, from, policy) == Some(from.hops@[k]),
{
    lemma_last_untrusted(from.hops@, policy, k, from.hops@.len() as int);
}

/// Where every hop is a trusted proxy the first counts, and without hops the
/// peer itself.
pub proof fn the_first_of_trusted_hops_is_the_client(
    peer: IpAddress,
    from: Forwarding,
    policy: ClientIpPolicy,
)
    requires
        forall|i: int| 0 <= i < from.hops@.len() ==> trusted(policy, #[trigger] from.hops@[i]),
        !is_internal(opt_text(policy.internal_secret), opt_text(from.secret)),
        trusted(policy, normalized(peer)),
    ensures
        from.hops@.len() > 0 ==> client_of(Some(peer), from, policy) == Some(from.hops@[0]),
        from.hops@.len() == 0 ==> client_of(Some(peer), from, policy) == Some(normalized(peer)),
        client_of(None, from, policy) == forwarded(from.hops@, policy),
{
    lemma_all_trusted(from.hops@, policy, from.hops@.len() as int);
}

/// Who knows the secret names the client; a wrong secret names nobody.
pub proof fn the_secret_names_the_client(
    peer: Option<IpAddress>,
    from: Forwarding,
    policy: ClientIpPolicy,
    client: IpAddress,
)
    requires
        policy.internal_secret is Some,
        from.secret is Some,
        from.client == Some(client),
    ensures
        policy.internal_secret->0@ == trim(from.secret->0@) ==> client_of(peer, from, policy)
            == Some(client),
        policy.internal_secret->0@ != trim(from.secret->0@) ==> !is_internal(
            opt_text(policy.internal_secret),
            opt_text(from.secret),
        ),
{
}

/// An address of the older kind is the same in its mapped form; every other
/// address stays as it is.
pub proof fn mapped_addresses_are_the_same(a: u32, b: u128)
    ensures
        normalized(IpAddress::V4(a)) == IpAddress::V4(a),
        normalized(IpAddress::V6((0xffff_0000_0000 + a) as u128)) == IpAddress::V4(a),
        b < 0xffff_0000_0000 || b > 0xffff_ffff_ffff ==> normalized(IpAddress::V6(b))
            == IpAddress::V6(b),
{
}

/// The hops of several headers follow one another.
pub proof fn hops_of_headers_follow_one_another(values: Seq<Seq<char>>, value: Seq<char>)
    ensures
        hops_in(values.push(value), values.len() as int + 1) == hops_in(
            values,
            values.len() as int,
        ) + split(value, ','),
{
    lemma_hops(values, value, values.len() as int);
}

proof fn lemma_hops(values: Seq<Seq<char>>, value: Seq<char>, n: int)
    requires
        0 <= n <= values.len(),
    ensures
        hops_in(values.push(value), n) == hops_in(values, n),
    decreases n,
{
    if n > 0 {
        lemma_hops(values, value, n - 1);
    }
}

/// An address in brackets is what stands between them.
pub proof fn brackets_hold_the_address(address: Seq<char>, after: Seq<char>)
    requires
        !address.contains(']'),
    ensures
        in_brackets(seq!['['] + address + seq![']'] + after) == Some(address),
        address.len() > 0 && address[0] != '[' ==> in_brackets(address) is None,
{
    let text = seq!['['] + address + seq![']'] + after;
    let rest = text.skip(1);
    assert(rest =~= address + seq![']'] + after);
    lemma_index_of(rest, ']');
    assert(rest[address.len() as int] == ']');
    let at = index_of(rest, ']');
    if at < address.len() {
        assert(address[at] == ']');
    }
    assert(rest.take(at) =~= address);
}

/// How often each job runs.
pub proof fn jobs_run_by_the_minute_hour_or_day(email_interval: u64)
    ensures
        job_interval(Job::EmailWorker, email_interval) == email_interval,
        job_interval(Job::AnnouncementDelivery, email_interval) == 60,
        job_interval(Job::SubscriptionMaintenance, email_interval) == 60 * 60,
        job_interval(Job::TrashPurge, email_interval) == 60 * 60,
        job_interval(Job::UnverifiedAccountPurge, email_interval) == 60 * 60,
        job_interval(Job::AuditRetention, email_interval) == 6 * 60 * 60,
        job_interval(Job::PurgeExpiredCodes, email_interval) == 24 * 60 * 60,
        job_interval(Job::OutboxCleanup, email_interval) == 24 * 60 * 60,
        job_interval(Job::ContentRetention, email_interval) == 24 * 60 * 60,
{
}

/// The trash is kept as long as configured, at least a day and at most ten
/// years.
pub proof fn trash_is_kept_as_configured(configured: int)
    ensures
        1 <= configured <= 3_650 ==> trash_days(configured) == configured,
        configured < 1 ==> trash_days(configured) == 1,
        configured > 3_650 ==> trash_days(configured) == 3_650,
{
}

/// A run goes on after a full batch until its batches are used up.
pub proof fn full_batches_are_followed_by_another(done: int, count: int, full: int, most: int)
    ensures
        count < full ==> !goes_on(done, count, full, most),
        count >= full && done < most ==> goes_on(done, count, full, most),
{
}

/// Every song counts with its lyrics and its notes, wherever it stands.
pub proof fn every_song_counts_with_its_text(a: Seq<SetlistItem>, b: Seq<SetlistItem>)
    ensures
        songbook_size(a + b) == songbook_size(a) + songbook_size(b),
        forall|item: SetlistItem| #[trigger]
            songbook_size(seq![item]) == match item {
                SetlistItem::Song { song, .. } => (match song.lyrics {
                    Some(s) => s@.len(),
                    None => 0,
                }) + (match song.performance_notes {
                    Some(s) => s@.len(),
                    None => 0,
                }),
                _ => 0,
            },
    decreases b.len(),
{
    if b.len() == 0 {
        assert(a + b =~= a);
    } else {
        assert((a + b).drop_last() =~= a + b.drop_last());
        every_song_counts_with_its_text(a, b.drop_last());
    }
    assert forall|item: SetlistItem| #[trigger]
        songbook_size(seq![item]) == item_size(item) by {
        assert(seq![item].drop_last() =~= Seq::<SetlistItem>::empty());
        assert(songbook_size(Seq::<SetlistItem>::empty()) == 0);
    }
}

/// A setlist is exported unless it has more than two hundred items or, with
/// lyrics, more than a quarter of a million characters.
pub proof fn setlists_up_to_the_limits_are_exported(items: Seq<SetlistItem>, with_lyrics: bool)
    ensures
        too_large(items, with_lyrics) is None <==> items.len() <= 200 && (with_lyrics
            ==> songbook_size(items) <= 250_000),
        too_large(items, with_lyrics) matches Some(f) ==> f matches Failure::Rule {
            status,
            code,
            ..
        } && status == 413 && code == "PDF_TOO_LARGE"@,
{
}

} // verus!
