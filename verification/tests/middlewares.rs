use setlyst::errors::api_error::ApiError;
use setlyst::errors::codes;
use setlyst::ids::Uuid;
use setlyst::middlewares::authentication::{
    allowed_while_password_change_required, allowed_without_staff_two_factor, bearer_token,
    check_claims, current_claims, ensure_account_usable, holds_invite_codes, impersonation_of,
    is_bulk_export, is_read_only, must_redact, staff_two_factor_missing, users_me_suffix,
    view_as_meta, AuthState, Method,
};
use setlyst::middlewares::client_ip::{
    address_texts, client_key, hop_texts, normalize, parsed_ip, resolve_client_ip, ClientIpPolicy,
    Forwarding, IpAddress, Network,
};
use setlyst::models::auth::access::AccessControl;
use setlyst::models::auth::token::Claims;
use setlyst::models::user::{Role, Status};
use setlyst::time::NaiveDateTime;

#[test]
fn password_change_allowlist() {
    assert!(allowed_while_password_change_required(Method::Get, "/users/me"));
    assert!(allowed_while_password_change_required(Method::Get, "/api/v1/users/me/"));
    assert!(allowed_while_password_change_required(Method::Patch, "/users/me/password"));
    assert!(!allowed_while_password_change_required(Method::Patch, "/users/me"));
    assert!(!allowed_while_password_change_required(Method::Get, "/songs"));
    assert!(!allowed_while_password_change_required(Method::Delete, "/users/me/password"));
}

#[test]
fn staff_without_two_factor_keep_their_account_settings() {
    for (method, path) in [
        (Method::Get, "/users/me"),
        (Method::Get, "/api/v1/users/me/security"),
        (Method::Post, "/users/me/2fa/setup"),
        (Method::Post, "/users/me/2fa/enable"),
        (Method::Post, "/users/me/accept-terms"),
        (Method::Patch, "/users/me/password"),
        (Method::Post, "/users/me/reauth/code"),
        (Method::Post, "/users/me/email/verify"),
    ] {
        assert!(allowed_without_staff_two_factor(method, path), "{method:?} {path}");
    }
    for (method, path) in [
        (Method::Get, "/users"),
        (Method::Get, "/admin/audit-logs"),
        (Method::Patch, "/users/me"),
        (Method::Delete, "/users/me"),
        (Method::Post, "/users/meow"),
        (Method::Get, "/users/mean/profile"),
    ] {
        assert!(!allowed_without_staff_two_factor(method, path), "{method:?} {path}");
    }
    assert_eq!(users_me_suffix("/api/v1/users/me/2fa/"), Some("/2fa".to_string()));
}

#[test]
fn bulk_exports_are_recognized() {
    assert!(is_bulk_export(Method::Get, "/backup/export"));
    assert!(is_bulk_export(Method::Get, "/api/v1/songs/export/chordpro"));
    assert!(is_bulk_export(Method::Get, "/users/me/data-export"));
    assert!(is_bulk_export(Method::Post, "/setlists/abc/export/pdf"));
    assert!(!is_bulk_export(Method::Get, "/songs/abc/export/chordpro"));
    assert!(!is_bulk_export(Method::Get, "/setlists/abc"));
    assert!(!is_bulk_export(Method::Delete, "/backup/export"));
}

#[test]
fn impersonation_is_read_only() {
    assert!(is_read_only(Method::Get));
    assert!(!is_read_only(Method::Post));
    assert!(!is_read_only(Method::Patch));
    assert!(!is_read_only(Method::Delete));
}

fn now() -> NaiveDateTime {
    NaiveDateTime::parse("2026-10-01T12:00:00").unwrap()
}

fn account(role: Role) -> AuthState {
    AuthState {
        username: "ana".into(),
        role,
        role_since: NaiveDateTime::parse("2026-09-01T00:00:00").unwrap(),
        status: Status::Active,
        token_version: 3,
        must_change_password: false,
        two_factor_enabled: true,
        banned_at: None,
        banned_until: None,
        ban_reason: None,
    }
}

fn claims() -> Claims {
    Claims {
        sub: Uuid(1),
        username: "old".into(),
        role: Role::User,
        status: Status::Active,
        exp: 0,
        iat: 0,
        ver: 3,
        imp: None,
        iver: None,
    }
}

fn code_of(r: Result<AuthState, ApiError>) -> String {
    match r {
        Ok(_) => "OK".to_string(),
        Err(e) => e.code().to_string(),
    }
}

fn check(claims: &Claims, a: Option<AuthState>, i: Option<AuthState>, m: Method, p: &str) -> String {
    code_of(check_claims(claims, a, &i, Some((m, p)), now()))
}

#[test]
fn tokens_count_only_while_the_account_says_so() {
    let user = || Some(account(Role::User));
    assert_eq!(check(&claims(), user(), None, Method::Post, "/songs"), "OK");
    assert_eq!(check(&claims(), None, None, Method::Get, "/songs"), codes::SESSION_REVOKED);
    let old = Claims { ver: 2, ..claims() };
    assert_eq!(check(&old, user(), None, Method::Get, "/songs"), codes::SESSION_REVOKED);
    let inactive = AuthState { status: Status::Inactive, ..account(Role::User) };
    assert_eq!(
        check(&claims(), Some(inactive), None, Method::Get, "/songs"),
        codes::ACCOUNT_DEACTIVATED
    );
    let banned = AuthState { banned_at: Some(now()), ..account(Role::User) };
    assert_eq!(
        check(&claims(), Some(banned.clone()), None, Method::Get, "/songs"),
        codes::ACCOUNT_BANNED
    );
    assert!(ensure_account_usable(&banned, now()).is_err());
    let stale = AuthState { must_change_password: true, ..account(Role::User) };
    assert_eq!(
        check(&claims(), Some(stale.clone()), None, Method::Get, "/songs"),
        codes::PASSWORD_CHANGE_REQUIRED
    );
    assert_eq!(check(&claims(), Some(stale), None, Method::Get, "/users/me"), "OK");
    let weak = AuthState { two_factor_enabled: false, ..account(Role::Admin) };
    assert!(staff_two_factor_missing(&weak, now()));
    assert_eq!(
        check(&claims(), Some(weak.clone()), None, Method::Get, "/songs"),
        codes::STAFF_TWO_FACTOR_REQUIRED
    );
    assert_eq!(check(&claims(), Some(weak.clone()), None, Method::Get, "/users/me"), "OK");
    // Verifying the token alone asks for no endpoint.
    assert_eq!(code_of(check_claims(&claims(), Some(weak), &None, None, now())), "OK");
    let fresh = AuthState {
        two_factor_enabled: false,
        role_since: NaiveDateTime::parse("2026-10-01T11:30:00").unwrap(),
        ..account(Role::Admin)
    };
    assert!(!staff_two_factor_missing(&fresh, now()));
}

#[test]
fn view_as_sessions_are_bound_to_their_staff_member() {
    let imp = Claims { imp: Some(Uuid(2)), iver: Some(3), ..claims() };
    let target = || Some(account(Role::User));
    let admin = || Some(account(Role::Admin));
    assert_eq!(check(&imp, target(), admin(), Method::Get, "/songs"), "OK");
    assert_eq!(
        check(&imp, target(), admin(), Method::Post, "/songs"),
        codes::IMPERSONATION_READ_ONLY
    );
    assert_eq!(check(&imp, target(), None, Method::Get, "/songs"), codes::SESSION_REVOKED);
    let peer = Some(account(Role::User));
    assert_eq!(check(&imp, target(), peer, Method::Get, "/songs"), codes::SESSION_REVOKED);
    let signed_out = Some(AuthState { token_version: 4, ..account(Role::Admin) });
    assert_eq!(check(&imp, target(), signed_out, Method::Get, "/songs"), codes::SESSION_REVOKED);
    let weak = Some(AuthState { two_factor_enabled: false, ..account(Role::Admin) });
    assert_eq!(check(&imp, target(), weak, Method::Get, "/songs"), codes::SESSION_REVOKED);
    // Staff may look at accounts that are suspended.
    let banned = Some(AuthState { banned_at: Some(now()), ..account(Role::User) });
    assert_eq!(check(&imp, banned, admin(), Method::Get, "/songs"), "OK");
    assert_eq!(impersonation_of(&imp).map(|i| i.impersonator_id), Some(Uuid(2)));
    let (meta, blocked) = view_as_meta(Method::Get, "GET", "/backup/export");
    assert!(blocked);
    assert_eq!(meta.text_of("method"), Some("GET"));
    assert_eq!(meta.bool_of("blocked"), Some(true));
}

#[test]
fn requests_carry_a_bearer_token() {
    assert_eq!(bearer_token(Some("Bearer  abc ")).ok(), Some("abc".to_string()));
    for header in [None, Some("Bearer "), Some("Basic abc"), Some("bearer abc")] {
        assert!(bearer_token(header).is_err(), "{header:?}");
    }
    let current = current_claims(claims(), account(Role::Moderator));
    assert_eq!(current.role, Role::Moderator);
    assert_eq!(current.username, "ana");
    assert_eq!(current.sub, Uuid(1));
    let access = AccessControl(current);
    assert!(access.is_staff() && !access.is_admin());
    assert!(access.require_staff().is_ok());
    assert!(access.require_admin().is_err());
    assert!(access.require_any_role(&[]).is_err());
    assert_eq!(access.user_id(), Uuid(1));
    assert_eq!(access.impersonator(), None);
}

#[test]
fn only_successful_json_answers_are_rewritten() {
    assert!(must_redact(Some("application/json; charset=utf-8"), 200));
    assert!(!must_redact(Some("application/json"), 404));
    assert!(!must_redact(Some("application/pdf"), 200));
    assert!(!must_redact(None, 200));
    assert!(holds_invite_codes("/bands/x/invites"));
    assert!(!holds_invite_codes("/bands/x"));
}

fn v4(a: u32, b: u32, c: u32, d: u32) -> IpAddress {
    IpAddress::V4(a * 0x100_0000 + b * 0x1_0000 + c * 0x100 + d)
}

fn net(address: IpAddress, prefix: u8) -> Network {
    Network { address, prefix }
}

fn policy(nets: Vec<Network>, secret: Option<&str>) -> ClientIpPolicy {
    ClientIpPolicy { trusted_proxies: nets, internal_secret: secret.map(str::to_string) }
}

fn hops(list: Vec<IpAddress>) -> Forwarding {
    Forwarding { secret: None, client: None, hops: list }
}

/// Reads `a.b.c.d`.
fn ip(text: &str) -> Option<IpAddress> {
    let parts: Vec<u32> = text.split('.').map(|p| p.parse().ok()).collect::<Option<_>>()?;
    if parts.len() == 4 && parts.iter().all(|p| *p < 256) {
        Some(v4(parts[0], parts[1], parts[2], parts[3]))
    } else {
        None
    }
}

/// The hops of header lines that read as addresses.
fn forwarded(lines: &[&str]) -> Forwarding {
    let values: Vec<String> = lines.iter().map(|l| l.to_string()).collect();
    let list = hop_texts(&values)
        .iter()
        .filter_map(|hop| {
            let (plain, inside) = address_texts(hop);
            parsed_ip(ip(&plain), None, inside.and_then(|t| ip(&t)))
        })
        .collect();
    hops(list)
}

#[test]
fn untrusted_peers_cannot_spoof_forwarding_headers() {
    let policy = policy(vec![net(v4(10, 0, 0, 0), 8)], None);
    let h = forwarded(&["1.2.3.4"]);
    assert_eq!(
        resolve_client_ip(ip("203.0.113.9"), &h, &policy),
        ip("203.0.113.9")
    );
}

#[test]
fn trusted_peers_yield_the_rightmost_untrusted_hop() {
    let policy = policy(vec![net(v4(10, 0, 0, 0), 8), net(v4(127, 0, 0, 1), 32)], None);
    // The client forged "6.6.6.6"; the edge proxy appended the real
    // address, the inner proxy appended the edge.
    let h = forwarded(&["6.6.6.6, 198.51.100.7, 10.1.1.1"]);
    assert_eq!(
        resolve_client_ip(ip("127.0.0.1"), &h, &policy),
        ip("198.51.100.7")
    );
    // Split across several header lines.
    let h = forwarded(&["6.6.6.6", "198.51.100.7"]);
    assert_eq!(
        resolve_client_ip(ip("10.0.0.2"), &h, &policy),
        ip("198.51.100.7")
    );
    // No header: the proxy itself.
    assert_eq!(resolve_client_ip(ip("10.0.0.2"), &forwarded(&[]), &policy), ip("10.0.0.2"));
    // Garbage in the header: fall back to the peer.
    let h = forwarded(&["not-an-ip"]);
    assert_eq!(resolve_client_ip(ip("10.0.0.2"), &h, &policy), ip("10.0.0.2"));
}

#[test]
fn unparseable_hops_are_skipped_not_fatal() {
    let policy = policy(vec![net(v4(10, 0, 0, 0), 8)], None);
    // Junk the client prepended doesn't hide the address the edge
    // proxy appended.
    let h = forwarded(&["garbage, 198.51.100.7, 10.1.1.1"]);
    assert_eq!(
        resolve_client_ip(ip("10.0.0.2"), &h, &policy),
        ip("198.51.100.7")
    );
    // An `unknown` hop between the client and the trusted proxies is
    // skipped while walking from the right.
    let h = forwarded(&["198.51.100.8", "unknown, 10.2.2.2"]);
    assert_eq!(
        resolve_client_ip(ip("10.0.0.2"), &h, &policy),
        ip("198.51.100.8")
    );
    // Only junk and trusted hops: the leftmost parseable one.
    let h = forwarded(&["junk, 10.3.3.3"]);
    assert_eq!(resolve_client_ip(ip("10.0.0.2"), &h, &policy), ip("10.3.3.3"));
}

#[test]
fn the_internal_header_needs_the_right_secret() {
    let known = policy(vec![], Some("s3cret-value"));
    let sent = |secret: &str| Forwarding {
        secret: Some(secret.to_string()),
        client: ip("198.51.100.20"),
        hops: vec![],
    };
    let good = sent("s3cret-value");
    assert_eq!(
        resolve_client_ip(ip("203.0.113.1"), &good, &known),
        ip("198.51.100.20")
    );
    let bad = sent("guess");
    assert_eq!(
        resolve_client_ip(ip("203.0.113.1"), &bad, &known),
        ip("203.0.113.1")
    );
    // Without a configured secret the header is never honoured.
    let none = policy(vec![], None);
    assert_eq!(
        resolve_client_ip(ip("203.0.113.1"), &good, &none),
        ip("203.0.113.1")
    );
}

#[test]
fn ipv6_and_mapped_addresses_are_handled() {
    let v6 = |high: u128, low: u128| IpAddress::V6((high << 64) + low);
    let loopback = v6(0, 1);
    let policy = policy(vec![net(loopback, 128), net(v6(0xfd00_0000_0000_0000, 0), 8)], None);
    let db1 = v6(0x2001_0db8_0000_0000, 1);
    let h = hops(vec![db1, v6(0xfd00_0000_0000_0000, 5)]);
    assert_eq!(resolve_client_ip(Some(loopback), &h, &policy), Some(db1));
    let (_, inside) = address_texts("[2001:db8::2]:443");
    assert_eq!(inside.as_deref(), Some("2001:db8::2"));
    let db2 = v6(0x2001_0db8_0000_0000, 2);
    let h = hops(vec![parsed_ip(None, Some(db2), None).unwrap()]);
    assert_eq!(resolve_client_ip(Some(loopback), &h, &policy), Some(db2));
    let mapped = v6(0, 0xffff_0000_0000 + 0xcb00_7105);
    assert_eq!(
        resolve_client_ip(Some(mapped), &forwarded(&[]), &policy),
        ip("203.0.113.5")
    );
    assert_eq!(normalize(mapped), v4(203, 0, 113, 5));
}

#[test]
fn requests_without_a_peer_fall_back_gracefully() {
    let policy = policy(vec![], None);
    assert_eq!(resolve_client_ip(None, &forwarded(&[]), &policy), None);
    let h = forwarded(&["10.0.0.7"]);
    assert_eq!(resolve_client_ip(None, &h, &policy), ip("10.0.0.7"));
    assert_eq!(client_key(None), v4(0, 0, 0, 0));
}

#[test]
fn networks_hold_the_addresses_with_their_prefix() {
    let n = net(v4(10, 20, 30, 40), 12);
    assert!(n.contains(v4(10, 16, 0, 0)));
    assert!(n.contains(v4(10, 31, 255, 255)));
    assert!(!n.contains(v4(10, 32, 0, 0)));
    assert!(!n.contains(v4(10, 15, 255, 255)));
    assert!(!n.contains(IpAddress::V6(0)));
    assert!(net(v4(1, 2, 3, 4), 0).contains(v4(255, 255, 255, 255)));
    assert!(net(IpAddress::V6(1), 0).contains(IpAddress::V6(u128::MAX)));
    assert!(!net(IpAddress::V6(1), 128).contains(IpAddress::V6(2)));
}
