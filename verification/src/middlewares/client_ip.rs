//! Who is the client? The one answer used for rate limiting and audit.
//!
//! Forwarding headers are trivially forged, so they are only believed
//! when the connection comes from a proxy we trust:
//!
//! 1. `X-Setlyst-Internal: <INTERNAL_API_SECRET>` (compared in constant
//!    time) together with `X-Setlyst-Client-IP: <ip>` → that IP. This is
//!    how the web server, which calls the API on the user's behalf, passes
//!    the real visitor address.
//! 2. The socket peer is in `TRUSTED_PROXIES` → the rightmost address in
//!    `X-Forwarded-For` that is not itself a trusted proxy (each proxy
//!    appends the address it received the request from, so everything
//!    left of the first untrusted hop may have been written by the client).
//! 3. Otherwise → the socket peer.
//!
//! Requests without socket information at all (the router driven
//! in-process) have no peer to distrust: the forwarding header is then
//! treated as coming from a trusted hop, and when there is none either, every
//! such request shares the `0.0.0.0` key. The production server always
//! provides the peer address.

use crate::text::{
    chars, end_trimmed_of, find_char, index_of, lemma_same_utf8, lemma_texts_push, opt_text, piece,
    same_in_constant_time, split, split_at, start_trimmed_of, texts, trim, trim_end_char, trim_start_char, trimmed,
};
use vstd::arithmetic::power2::pow2;
use vstd::prelude::*;

verus! {

pub const INTERNAL_SECRET_HEADER: &'static str = "x-setlyst-internal";

pub const INTERNAL_CLIENT_IP_HEADER: &'static str = "x-setlyst-client-ip";

/// An IP address, as the number it stands for.
#[derive(Debug, Clone, Copy, PartialEq, Eq, Structural)]
pub enum IpAddress {
    V4(u32),
    V6(u128),
}

/// The key shared by requests whose origin can't be determined: `0.0.0.0`.
pub const UNKNOWN_CLIENT: u32 = 0;

/// A network: the addresses that share the first `prefix` bits of `address`.
#[derive(Debug, Clone, Copy, PartialEq, Eq, Structural)]
pub struct Network {
    pub address: IpAddress,
    pub prefix: u8,
}

/// The network has no more bits than its address.
pub open spec fn is_network(net: Network) -> bool {
    match net.address {
        IpAddress::V4(_) => net.prefix <= 32,
        IpAddress::V6(_) => net.prefix <= 128,
    }
}

/// `ip` is in the network: of the same family, and equal in the bits of the
/// prefix.
pub open spec fn in_network(net: Network, ip: IpAddress) -> bool {
    match (net.address, ip) {
        (IpAddress::V4(a), IpAddress::V4(b)) => a as int / (pow2((32 - net.prefix) as nat) as int)
            == b as int / (pow2((32 - net.prefix) as nat) as int),
        (IpAddress::V6(a), IpAddress::V6(b)) => a as int / (pow2((128 - net.prefix) as nat) as int)
            == b as int / (pow2((128 - net.prefix) as nat) as int),
        _ => false,
    }
}

/// `ipnet::Ipv4Net::contains`, of a network and a single address: whether the
/// two are equal in the bits of the prefix.
#[verifier::external_body]
fn contains_v4(address: u32, prefix: u8, ip: u32) -> (r: bool)
    requires
        prefix <= 32,
    ensures
        r == (address as int / (pow2((32 - prefix) as nat) as int) == ip as int / (pow2(
            (32 - prefix) as nat,
        ) as int)),
{
    match (ipnet::Ipv4Net::new(address.into(), prefix), ipnet::Ipv4Net::new(ip.into(), 32)) {
        (Ok(net), Ok(host)) => net.contains(&host),
        _ => false,
    }
}

/// `ipnet::Ipv6Net::contains`, of a network and a single address: whether the
/// two are equal in the bits of the prefix.
#[verifier::external_body]
fn contains_v6(address: u128, prefix: u8, ip: u128) -> (r: bool)
    requires
        prefix <= 128,
    ensures
        r == (address as int / (pow2((128 - prefix) as nat) as int) == ip as int / (pow2(
            (128 - prefix) as nat,
        ) as int)),
{
    match (ipnet::Ipv6Net::new(address.into(), prefix), ipnet::Ipv6Net::new(ip.into(), 128)) {
        (Ok(net), Ok(host)) => net.contains(&host),
        _ => false,
    }
}

impl Network {
    /// Whether `ip` is in the network.
    pub fn contains(&self, ip: IpAddress) -> (r: bool)
        requires
            is_network(*self),
        ensures
            r == in_network(*self, ip),
    {
        match (self.address, ip) {
            (IpAddress::V4(a), IpAddress::V4(b)) => contains_v4(a, self.prefix, b),
            (IpAddress::V6(a), IpAddress::V6(b)) => contains_v6(a, self.prefix, b),
            _ => false,
        }
    }
}

/// Everything the resolution depends on besides the request itself.
#[derive(Debug, Clone)]
pub struct ClientIpPolicy {
    pub trusted_proxies: Vec<Network>,
    pub internal_secret: Option<String>,
}

/// Every trusted network is one.
pub open spec fn is_policy(policy: ClientIpPolicy) -> bool {
    forall|i: int|
        0 <= i < policy.trusted_proxies@.len() ==> is_network(#[trigger] policy.trusted_proxies@[i])
}

/// `ip` is in one of the trusted networks.
pub open spec fn trusted(policy: ClientIpPolicy, ip: IpAddress) -> bool {
    exists|i: int|
        0 <= i < policy.trusted_proxies@.len() && in_network(
            #[trigger] policy.trusted_proxies@[i],
            ip,
        )
}

impl ClientIpPolicy {
    pub fn is_trusted(&self, ip: IpAddress) -> (r: bool)
        requires
            is_policy(*self),
        ensures
            r == trusted(*self, ip),
    {
        let nets = &self.trusted_proxies;
        let mut i: usize = 0;
        while i < nets.len()
            invariant
                nets@ == self.trusted_proxies@,
                is_policy(*self),
                i <= nets@.len(),
                forall|j: int| 0 <= j < i ==> !in_network(#[trigger] nets@[j], ip),
            decreases nets@.len() - i,
        {
            let net = nets[i];
            assert(is_network(self.trusted_proxies@[i as int]));
            if net.contains(ip) {
                assert(in_network(self.trusted_proxies@[i as int], ip));
                return true;
            }
            i = i + 1;
        }
        false
    }
}

// ---------------------------------------------------------------------
// Addresses in headers
// ---------------------------------------------------------------------

/// An address in a header, without blanks and quotes around it.
pub open spec fn unquoted(raw: Seq<char>) -> Seq<char> {
    trim_end_char(trim_start_char(trim(raw), '"'), '"')
}

/// What stands in brackets at the start of an address.
pub open spec fn in_brackets(text: Seq<char>) -> Option<Seq<char>> {
    if text.len() > 0 && text[0] == '[' {
        let rest = text.skip(1);
        Some(rest.take(index_of(rest, ']')))
    } else {
        None
    }
}

/// An address as it appears in forwarding headers, ready to be read: without
/// blanks and quotes around it, and what stands in brackets at its start.
pub fn address_texts(raw: &str) -> (r: (String, Option<String>))
    ensures
        r.0@ == unquoted(raw@),
        opt_text(r.1) == in_brackets(unquoted(raw@)),
{
    let t = trimmed(raw);
    let s = start_trimmed_of(t.as_str(), '"');
    let text = end_trimmed_of(s.as_str(), '"');
    let v = chars(text.as_str());
    let n = v.len();
    if n > 0 && v[0] == '[' {
        let to = find_char(&v, 1, n, ']');
        proof {
            let rest = text@.skip(1);
            assert(v@.subrange(1, n as int) =~= rest);
            assert(v@.subrange(1, to as int) =~= rest.take(to - 1));
        }
        let inside = piece(&v, 1, to);
        (text, Some(inside))
    } else {
        (text, None)
    }
}

/// The IPv4 form of an IPv4-mapped IPv6 address (`::ffff:1.2.3.4`).
pub open spec fn normalized(ip: IpAddress) -> IpAddress {
    match ip {
        IpAddress::V6(n) => if n as int / 0x1_0000_0000 == 0xffff {
            IpAddress::V4((n as int % 0x1_0000_0000) as u32)
        } else {
            ip
        },
        _ => ip,
    }
}

/// IPv4-mapped IPv6 addresses (`::ffff:1.2.3.4`) count as their IPv4 form,
/// so one client can't get two rate-limit buckets.
pub fn normalize(ip: IpAddress) -> (r: IpAddress)
    ensures
        r == normalized(ip),
{
    match ip {
        IpAddress::V6(n) => if n / 0x1_0000_0000 == 0xffff {
            IpAddress::V4((n % 0x1_0000_0000) as u32)
        } else {
            ip
        },
        _ => ip,
    }
}

/// Normalizing twice changes nothing more: every client has one key.
pub proof fn normalizing_is_final(ip: IpAddress)
    ensures
        normalized(normalized(ip)) == normalized(ip),
{
}

/// The address in a header, given what its texts (see [`address_texts`]) read
/// as: the whole as an address, or as an address with a port, or what stands
/// in brackets as an address.
pub fn parsed_ip(
    plain: Option<IpAddress>,
    with_port: Option<IpAddress>,
    bracketed: Option<IpAddress>,
) -> (r: Option<IpAddress>)
    ensures
        r == match (plain, with_port, bracketed) {
            (Some(ip), _, _) => Some(normalized(ip)),
            (None, Some(ip), _) => Some(normalized(ip)),
            (None, None, Some(ip)) => Some(normalized(ip)),
            _ => None,
        },
{
    match (plain, with_port, bracketed) {
        (Some(ip), _, _) => Some(normalize(ip)),
        (None, Some(ip), _) => Some(normalize(ip)),
        (None, None, Some(ip)) => Some(normalize(ip)),
        _ => None,
    }
}

/// The hops named by the first `n` values of a header, in their order.
pub open spec fn hops_in(values: Seq<Seq<char>>, n: int) -> Seq<Seq<char>>
    decreases n,
{
    if n <= 0 || n > values.len() {
        seq![]
    } else {
        hops_in(values, n - 1) + split(values[n - 1], ',')
    }
}

/// The hops that the values of `X-Forwarded-For` name, over all its lines.
pub fn hop_texts(values: &Vec<String>) -> (r: Vec<String>)
    ensures
        texts(r@) == hops_in(texts(values@), values@.len() as int),
{
    let ghost all = texts(values@);
    let mut out: Vec<String> = Vec::new();
    let mut i: usize = 0;
    assert(texts(out@) =~= seq![]);
    while i < values.len()
        invariant
            all == texts(values@),
            i <= values@.len(),
            texts(out@) == hops_in(all, i as int),
        decreases values@.len() - i,
    {
        let hops = split_at(values[i].as_str(), ',');
        assert(all[i as int] == values@[i as int]@);
        let ghost start = texts(out@);
        let mut j: usize = 0;
        assert(start + texts(hops@).take(0) =~= start);
        while j < hops.len()
            invariant
                j <= hops@.len(),
                texts(out@) == start + texts(hops@).take(j as int),
            decreases hops@.len() - j,
        {
            let hop = hops[j].clone();
            proof {
                lemma_texts_push(out@, hop);
                assert(start + texts(hops@).take(j + 1) =~= (start + texts(hops@).take(
                    j as int,
                )).push(hop@));
            }
            out.push(hop);
            j = j + 1;
        }
        assert(texts(hops@).take(j as int) =~= texts(hops@));
        i = i + 1;
    }
    out
}

// ---------------------------------------------------------------------
// Resolution
// ---------------------------------------------------------------------

/// What the headers of a request say of its origin. Hops that don't read as
/// an address (`unknown`, obfuscated identifiers, junk a client prepended)
/// are left out rather than invalidating the whole header: otherwise one bad
/// entry would make every client behind the proxy share the proxy's
/// rate-limit bucket.
#[derive(Debug, Clone)]
pub struct Forwarding {
    /// The value of [`INTERNAL_SECRET_HEADER`].
    pub secret: Option<String>,
    /// The address in [`INTERNAL_CLIENT_IP_HEADER`].
    pub client: Option<IpAddress>,
    /// The hops of `X-Forwarded-For` that are addresses.
    pub hops: Vec<IpAddress>,
}

/// The last of the first `n` hops that isn't a trusted proxy.
pub open spec fn last_untrusted(hops: Seq<IpAddress>, policy: ClientIpPolicy, n: int) -> Option<
    IpAddress,
>
    decreases n,
{
    if n <= 0 || n > hops.len() {
        None
    } else if !trusted(policy, hops[n - 1]) {
        Some(hops[n - 1])
    } else {
        last_untrusted(hops, policy, n - 1)
    }
}

/// The client that the hops name: the rightmost that isn't a trusted proxy,
/// or else the first.
pub open spec fn forwarded(hops: Seq<IpAddress>, policy: ClientIpPolicy) -> Option<IpAddress> {
    match last_untrusted(hops, policy, hops.len() as int) {
        Some(ip) => Some(ip),
        None => if hops.len() > 0 {
            Some(hops[0])
        } else {
            None
        },
    }
}

/// The rightmost `X-Forwarded-For` hop that isn't a trusted proxy.
pub fn forwarded_client(hops: &Vec<IpAddress>, policy: &ClientIpPolicy) -> (r: Option<IpAddress>)
    requires
        is_policy(*policy),
    ensures
        r == forwarded(hops@, *policy),
{
    let mut n: usize = hops.len();
    while n > 0
        invariant
            is_policy(*policy),
            n <= hops@.len(),
            last_untrusted(hops@, *policy, hops@.len() as int) == last_untrusted(
                hops@,
                *policy,
                n as int,
            ),
        decreases n,
    {
        let ip = hops[n - 1];
        if !policy.is_trusted(ip) {
            return Some(ip);
        }
        n = n - 1;
    }
    if hops.len() > 0 {
        Some(hops[0])
    } else {
        None
    }
}

/// The request carries the internal secret.
pub open spec fn is_internal(secret: Option<Seq<char>>, sent: Option<Seq<char>>) -> bool {
    secret matches Some(a) && sent matches Some(b) && a == trim(b)
}

/// The client address of a request.
pub open spec fn client_of(
    peer: Option<IpAddress>,
    from: Forwarding,
    policy: ClientIpPolicy,
) -> Option<IpAddress> {
    if is_internal(opt_text(policy.internal_secret), opt_text(from.secret)) && from.client is Some {
        from.client
    } else {
        match peer {
            Some(p) => if trusted(policy, normalized(p)) {
                match forwarded(from.hops@, policy) {
                    Some(ip) => Some(ip),
                    None => Some(normalized(p)),
                }
            } else {
                Some(normalized(p))
            },
            None => forwarded(from.hops@, policy),
        }
    }
}

/// Resolves the client address of a request (see the module docs).
/// `None` only when there is neither a peer nor usable header.
pub fn resolve_client_ip(
    peer: Option<IpAddress>,
    from: &Forwarding,
    policy: &ClientIpPolicy,
) -> (r: Option<IpAddress>)
    requires
        is_policy(*policy),
    ensures
        r == client_of(peer, *from, *policy),
{
    let internal = match (&policy.internal_secret, &from.secret) {
        (Some(secret), Some(sent)) => {
            let sent = trimmed(sent.as_str());
            proof {
                lemma_same_utf8(secret@, sent@);
            }
            same_in_constant_time(secret.as_str().as_bytes(), sent.as_str().as_bytes())
        },
        _ => false,
    };
    if internal && from.client.is_some() {
        return from.client;
    }
    match peer {
        Some(p) => {
            let p = normalize(p);
            if policy.is_trusted(p) {
                match forwarded_client(&from.hops, policy) {
                    Some(ip) => Some(ip),
                    None => Some(p),
                }
            } else {
                Some(p)
            }
        },
        None => forwarded_client(&from.hops, policy),
    }
}

/// The key of a client: an unknown origin maps to [`UNKNOWN_CLIENT`].
pub fn client_key(client: Option<IpAddress>) -> (r: IpAddress)
    ensures
        r == match client {
            Some(ip) => ip,
            None => IpAddress::V4(UNKNOWN_CLIENT),
        },
{
    match client {
        Some(ip) => ip,
        None => IpAddress::V4(UNKNOWN_CLIENT),
    }
}

/// Whatever a client writes into forwarding headers, it counts as the address
/// it connects from, unless that is a trusted proxy's or it knows the secret.
pub proof fn untrusted_peers_cannot_spoof(
    peer: IpAddress,
    from: Forwarding,
    policy: ClientIpPolicy,
)
    requires
        !trusted(policy, normalized(peer)),
        !is_internal(opt_text(policy.internal_secret), opt_text(from.secret)),
    ensures
        client_of(Some(peer), from, policy) == Some(normalized(peer)),
{
}

/// Without a configured secret the internal headers are never honoured.
pub proof fn no_secret_no_internal_header(
    peer: Option<IpAddress>,
    from: Forwarding,
    other: Forwarding,
    policy: ClientIpPolicy,
)
    requires
        policy.internal_secret is None,
        from.hops@ == other.hops@,
    ensures
        client_of(peer, from, policy) == client_of(peer, other, policy),
{
}

/// Behind trusted proxies, what a client prepends to the hops does not
/// matter: the address that the first trusted proxy saw decides.
pub proof fn prepended_hops_do_not_matter(
    forged: Seq<IpAddress>,
    seen: Seq<IpAddress>,
    policy: ClientIpPolicy,
)
    requires
        last_untrusted(seen, policy, seen.len() as int) is Some,
    ensures
        forwarded(forged + seen, policy) == forwarded(seen, policy),
{
    lemma_prepended(forged, seen, policy, seen.len() as int);
}

proof fn lemma_prepended(
    forged: Seq<IpAddress>,
    seen: Seq<IpAddress>,
    policy: ClientIpPolicy,
    n: int,
)
    requires
        0 <= n <= seen.len(),
        last_untrusted(seen, policy, n) is Some,
    ensures
        last_untrusted(forged + seen, policy, forged.len() + n) == last_untrusted(seen, policy, n),
    decreases n,
{
    assert((forged + seen)[forged.len() + n - 1] == seen[n - 1]);
    if trusted(policy, seen[n - 1]) {
        lemma_prepended(forged, seen, policy, n - 1);
    }
}

} // verus!
