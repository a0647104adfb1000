//! Access control settings: API token, IP lists, publisher limits, ACME.

use vstd::prelude::*;

use crate::parse::{field, field_of, find_char, find_char_from, parse_unsigned, parse_unsigned_chars};
use crate::text::{chars_of, owned, str_eq, string_of};

verus! {

/// An address or CIDR block in an allow or block list.
#[derive(Debug, Clone)]
pub struct IpEntry {
    pub ip: String,
    pub label: Option<String>,
}

/// Who may talk to the server and how much.
#[derive(Debug, Clone)]
pub struct SecurityConfig {
    pub api_token: Option<String>,
    pub ip_allowlist: Vec<IpEntry>,
    pub ip_blocklist: Vec<IpEntry>,
    pub max_publishers: usize,
    pub per_platform_keys: bool,
    pub rate_limit_per_ip: u32,
    pub https_only: bool,
}

impl Default for SecurityConfig {
    fn default() -> (c: Self)
        ensures
            c.api_token.is_none(),
            c.ip_allowlist@.len() == 0,
            c.ip_blocklist@.len() == 0,
            c.max_publishers == 10,
            !c.per_platform_keys,
            c.rate_limit_per_ip == 10,
            !c.https_only,
    {
        SecurityConfig {
            api_token: None,
            ip_allowlist: Vec::new(),
            ip_blocklist: Vec::new(),
            max_publishers: 10,
            per_platform_keys: false,
            rate_limit_per_ip: 10,
            https_only: false,
        }
    }
}

/// Applies a `SecurityConfig` to requests.
pub struct IpFilter {
    pub config: SecurityConfig,
}

impl IpFilter {
    /// A filter with the given settings.
    pub fn new(config: SecurityConfig) -> (f: Self)
        ensures
            f.config == config,
    {
        IpFilter { config }
    }

    /// Accepts the token when it equals the configured one; with no token
    /// configured every token is accepted.
    pub fn validate_api_token(&self, token: &str) -> (ok: bool)
        ensures
            ok == match self.config.api_token {
                Some(expected) => token@ == expected@,
                None => true,
            },
    {
        match &self.config.api_token {
            Some(expected) => str_eq(token, expected.as_str()),
            None => true,
        }
    }

    /// Whether an API token is configured.
    pub fn has_api_token(&self) -> (r: bool)
        ensures
            r == self.config.api_token.is_some(),
    {
        self.config.api_token.is_some()
    }
}

/// An IP address as a number: 32 bits for IPv4, 128 for IPv6.
#[derive(Debug, Clone, Copy, PartialEq, Eq, Structural)]
pub enum IpAddress {
    V4(u32),
    V6(u128),
}

/// The two pieces of a CIDR entry, split at `/`: the network text and the
/// prefix length; `None` unless there are exactly two.
pub open spec fn cidr_pieces(ip: Seq<char>) -> Option<(Seq<char>, Seq<char>)> {
    match (field(ip, '/', 0), field(ip, '/', 1), field(ip, '/', 2)) {
        (Some(a), Some(b), None) => Some((a, b)),
        _ => None,
    }
}

/// The network text of a CIDR entry, for the caller to read as an address.
pub fn cidr_network(ip: &str) -> (r: Option<String>)
    ensures
        match cidr_pieces(ip@) {
            Some((a, _)) => r matches Some(x) && x@ == a,
            None => r.is_none(),
        },
{
    let c = chars_of(ip);
    match (field_of(&c, '/', 0), field_of(&c, '/', 1), field_of(&c, '/', 2)) {
        (Some(a), Some(_), None) => Some(string_of(&a)),
        _ => None,
    }
}

/// The IPv4 mask of a prefix length: its first `prefix` bits set.
pub open spec fn mask_v4(prefix: int) -> u32 {
    !(((1u32 << ((32 - prefix) as u32)) - 1) as u32)
}

/// The IPv6 mask of a prefix length: its first `prefix` bits set.
pub open spec fn mask_v6(prefix: int) -> u128 {
    !(((1u128 << ((128 - prefix) as u128)) - 1) as u128)
}

/// Whether two addresses agree on the bits their family's mask for
/// `prefix` keeps.
pub open spec fn same_prefix(network: IpAddress, addr: IpAddress, prefix: int) -> bool {
    match (network, addr) {
        (IpAddress::V4(n), IpAddress::V4(a)) => n & mask_v4(prefix) == a & mask_v4(prefix),
        (IpAddress::V6(n), IpAddress::V6(a)) => n & mask_v6(prefix) == a & mask_v6(prefix),
        _ => false,
    }
}

/// Whether an entry's check gets as far as comparing prefixes of one
/// family.
pub open spec fn families_meet(network: IpAddress, addr: IpAddress) -> bool {
    match (network, addr) {
        (IpAddress::V4(_), IpAddress::V4(_)) => true,
        (IpAddress::V6(_), IpAddress::V6(_)) => true,
        _ => false,
    }
}

/// The prefix lengths a family's mask can be made for.
pub open spec fn prefix_fits(addr: IpAddress, prefix: int) -> bool {
    match addr {
        IpAddress::V4(_) => 1 <= prefix <= 32,
        IpAddress::V6(_) => 1 <= prefix <= 128,
    }
}

/// What checking an entry against an address comes to: whether it
/// matches, or `None` when the check cannot be made (a CIDR block of the
/// address's family whose prefix length is 0 or longer than the address).
/// A plain entry matches the address's text; a CIDR block, whose network
/// reads as `network`, matches the addresses that share its prefix.
pub open spec fn entry_verdict(e: IpEntry, network: Option<IpAddress>, addr: IpAddress, text: Seq<char>) -> Option<bool> {
    if find_char(e.ip@, '/', 0) == -1 {
        Some(e.ip@ == text)
    } else {
        match cidr_pieces(e.ip@) {
            None => Some(false),
            Some((_, p)) => match (network, parse_unsigned(p, 255)) {
                (Some(n), Some(len)) => if !families_meet(n, addr) {
                    Some(false)
                } else if !prefix_fits(addr, len) {
                    None
                } else {
                    Some(same_prefix(n, addr, len))
                },
                _ => Some(false),
            },
        }
    }
}

/// Whether some entry from `i` on matches, checking them in order; `None`
/// when a check that cannot be made comes first.
pub open spec fn any_match(
    es: Seq<IpEntry>,
    nets: Seq<Option<IpAddress>>,
    addr: IpAddress,
    text: Seq<char>,
    i: int,
) -> Option<bool>
    decreases es.len() - i,
{
    if i < 0 || i >= es.len() {
        Some(false)
    } else {
        match entry_verdict(es[i], if i < nets.len() { nets[i] } else { None }, addr, text) {
            None => None,
            Some(true) => Some(true),
            Some(false) => any_match(es, nets, addr, text, i + 1),
        }
    }
}

/// The network of entry `i` as the caller read it, if given.
pub open spec fn net_at(nets: Seq<Option<IpAddress>>, i: int) -> Option<IpAddress> {
    if 0 <= i < nets.len() {
        nets[i]
    } else {
        None
    }
}

/// Over a list whose every check can be made, the list matches exactly
/// when one of its entries, at any position, matches.
pub proof fn law_list_matches_any_entry(
    es: Seq<IpEntry>,
    nets: Seq<Option<IpAddress>>,
    addr: IpAddress,
    text: Seq<char>,
    i: int,
)
    requires
        0 <= i <= es.len(),
        forall|j: int| i <= j < es.len() ==> (#[trigger] entry_verdict(es[j], net_at(nets, j), addr, text)) is Some,
    ensures
        any_match(es, nets, addr, text, i) == Some(
            exists|j: int| i <= j < es.len() && #[trigger] entry_verdict(es[j], net_at(nets, j), addr, text) == Some(true),
        ),
    decreases es.len() - i,
{
    if i < es.len() {
        assert(net_at(nets, i) == (if i < nets.len() { nets[i] } else { None }));
        assert(entry_verdict(es[i], net_at(nets, i), addr, text) is Some);
        law_list_matches_any_entry(es, nets, addr, text, i + 1);
        if entry_verdict(es[i], net_at(nets, i), addr, text) == Some(false) {
            assert forall|j: int| i <= j < es.len() && #[trigger] entry_verdict(es[j], net_at(nets, j), addr, text)
                == Some(true) implies i + 1 <= j by {}
        }
    }
}

/// A plain blocked entry equal to the address's text refuses it, wherever
/// it stands in the block list, once the entries before it can be checked.
pub proof fn law_blocked_text_refused(
    c: SecurityConfig,
    block_nets: Seq<Option<IpAddress>>,
    allow_nets: Seq<Option<IpAddress>>,
    addr: IpAddress,
    text: Seq<char>,
    k: int,
)
    requires
        0 <= k < c.ip_blocklist@.len(),
        find_char(c.ip_blocklist@[k].ip@, '/', 0) == -1,
        c.ip_blocklist@[k].ip@ == text,
        forall|j: int| 0 <= j < k ==> (#[trigger] entry_verdict(c.ip_blocklist@[j], net_at(block_nets, j), addr, text)) is Some,
    ensures
        admitted(c, block_nets, allow_nets, addr, text) == Some(false),
{
    lemma_match_found(c.ip_blocklist@, block_nets, addr, text, 0, k);
}

proof fn lemma_match_found(es: Seq<IpEntry>, nets: Seq<Option<IpAddress>>, addr: IpAddress, text: Seq<char>, i: int, k: int)
    requires
        0 <= i <= k < es.len(),
        entry_verdict(es[k], net_at(nets, k), addr, text) == Some(true),
        forall|j: int| i <= j < k ==> (#[trigger] entry_verdict(es[j], net_at(nets, j), addr, text)) is Some,
    ensures
        any_match(es, nets, addr, text, i) == Some(true),
    decreases k - i,
{
    assert(net_at(nets, i) == (if i < nets.len() { nets[i] } else { None }));
    if i < k {
        assert(entry_verdict(es[i], net_at(nets, i), addr, text) is Some);
        lemma_match_found(es, nets, addr, text, i + 1, k);
    }
}

/// Whether an address may connect: not when a blocked entry matches; when
/// there is an allow list, only when one of its entries matches.
pub open spec fn admitted(
    c: SecurityConfig,
    block_nets: Seq<Option<IpAddress>>,
    allow_nets: Seq<Option<IpAddress>>,
    addr: IpAddress,
    text: Seq<char>,
) -> Option<bool> {
    match any_match(c.ip_blocklist@, block_nets, addr, text, 0) {
        None => None,
        Some(true) => Some(false),
        Some(false) => if c.ip_allowlist@.len() == 0 {
            Some(true)
        } else {
            any_match(c.ip_allowlist@, allow_nets, addr, text, 0)
        },
    }
}

fn prefix_match(n: IpAddress, addr: IpAddress, len: u64) -> (r: bool)
    requires
        families_meet(n, addr),
        prefix_fits(addr, len as int),
    ensures
        r == same_prefix(n, addr, len as int),
{
    match (n, addr) {
        (IpAddress::V4(nb), IpAddress::V4(ab)) => {
            let sh: u32 = (32 - len) as u32;
            assert(sh < 32 ==> (1u32 << sh) >= 1) by (bit_vector);
            let mask: u32 = !((1u32 << sh) - 1);
            (nb & mask) == (ab & mask)
        },
        (IpAddress::V6(nb), IpAddress::V6(ab)) => {
            let sh: u128 = (128 - len) as u128;
            assert(sh < 128 ==> (1u128 << sh) >= 1) by (bit_vector);
            let mask: u128 = !((1u128 << sh) - 1);
            (nb & mask) == (ab & mask)
        },
        _ => false,
    }
}

impl IpEntry {
    /// Checks the entry against an address with the given text; `network`
    /// is the entry's network (see `cidr_network`) read as an address.
    pub fn matches(&self, addr: &IpAddress, text: &str, network: Option<IpAddress>) -> (r: bool)
        requires
            entry_verdict(*self, network, *addr, text@) is Some,
        ensures
            r == entry_verdict(*self, network, *addr, text@)->Some_0,
    {
        let c = chars_of(self.ip.as_str());
        if find_char_from(&c, '/', 0).is_none() {
            return str_eq(self.ip.as_str(), text);
        }
        let (p0, p1, p2) = (field_of(&c, '/', 0), field_of(&c, '/', 1), field_of(&c, '/', 2));
        let p = match (p0, p1, p2) {
            (Some(_), Some(p), None) => p,
            _ => {
                return false;
            },
        };
        match (network, parse_unsigned_chars(&p, 255)) {
            (Some(n), Some(len)) => {
                let meet = match (n, *addr) {
                    (IpAddress::V4(_), IpAddress::V4(_)) => true,
                    (IpAddress::V6(_), IpAddress::V6(_)) => true,
                    _ => false,
                };
                if !meet {
                    false
                } else {
                    prefix_match(n, *addr, len)
                }
            },
            _ => false,
        }
    }
}

fn any_entry(es: &Vec<IpEntry>, nets: &Vec<Option<IpAddress>>, addr: &IpAddress, text: &str) -> (r: bool)
    requires
        any_match(es@, nets@, *addr, text@, 0) is Some,
    ensures
        r == any_match(es@, nets@, *addr, text@, 0)->Some_0,
{
    let n = es.len();
    for i in 0..n
        invariant
            n == es@.len(),
            any_match(es@, nets@, *addr, text@, 0) == any_match(es@, nets@, *addr, text@, i as int),
            any_match(es@, nets@, *addr, text@, 0) is Some,
    {
        let net = if i < nets.len() {
            nets[i]
        } else {
            None
        };
        if es[i].matches(addr, text, net) {
            return true;
        }
    }
    false
}

impl IpFilter {
    /// Whether an address, with its text, may connect. `block_networks` and
    /// `allow_networks` hold, entry by entry, each list's network read as
    /// an address.
    pub fn is_allowed(
        &self,
        addr: &IpAddress,
        text: &str,
        block_networks: &Vec<Option<IpAddress>>,
        allow_networks: &Vec<Option<IpAddress>>,
    ) -> (r: bool)
        requires
            admitted(self.config, block_networks@, allow_networks@, *addr, text@) is Some,
        ensures
            r == admitted(self.config, block_networks@, allow_networks@, *addr, text@)->Some_0,
    {
        if self.config.ip_blocklist.len() > 0 {
            if any_entry(&self.config.ip_blocklist, block_networks, addr, text) {
                return false;
            }
        }
        if self.config.ip_allowlist.len() > 0 {
            return any_entry(&self.config.ip_allowlist, allow_networks, addr, text);
        }
        true
    }
}

/// The ACME challenge used to prove control of the domain.
#[derive(Debug, Clone, Copy, PartialEq, Eq, Structural)]
pub enum AcmeChallenge {
    Http01,
    TlsAlpn01,
}

/// Automatic certificate settings.
#[derive(Debug, Clone)]
pub struct AcmeConfig {
    pub enabled: bool,
    pub domain: String,
    pub email: String,
    pub cert_dir: String,
    pub challenge_type: AcmeChallenge,
}

impl Default for AcmeConfig {
    fn default() -> (c: Self)
        ensures
            !c.enabled,
            c.domain@.len() == 0,
            c.email@.len() == 0,
            c.cert_dir@ == "/etc/reestream/certs"@,
            c.challenge_type == AcmeChallenge::Http01,
    {
        AcmeConfig {
            enabled: false,
            domain: String::new(),
            email: String::new(),
            cert_dir: owned("/etc/reestream/certs"),
            challenge_type: AcmeChallenge::Http01,
        }
    }
}

impl AcmeConfig {
    /// Requires a domain and a contact e-mail.
    pub fn validate(&self) -> (r: Result<(), String>)
        ensures
            self.domain@.len() == 0 ==> (r matches Err(e) && e@ == "ACME domain cannot be empty"@),
            self.domain@.len() != 0 && self.email@.len() == 0 ==> (r matches Err(e) && e@
                == "ACME email cannot be empty"@),
            self.domain@.len() != 0 && self.email@.len() != 0 ==> r is Ok,
    {
        if self.domain.as_str().unicode_len() == 0 {
            return Err(owned("ACME domain cannot be empty"));
        }
        if self.email.as_str().unicode_len() == 0 {
            return Err(owned("ACME email cannot be empty"));
        }
        Ok(())
    }
}

} // verus!
