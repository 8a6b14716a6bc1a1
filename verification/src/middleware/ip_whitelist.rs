//! Client address allow-listing: exact addresses, network prefixes written
//! in CIDR notation, or a switch that lets every address through.
use vstd::prelude::*;
use crate::collections::StrMap;
use crate::collections::has_key;
use crate::text::{chars_of, chars_range, find_char, is_first_index, lacks_char, owned, parse_unsigned, parse_unsigned_str, split_chars, split_on, str_eq, string_from_chars};

verus! {

/// What the allow-list consults for each request.
pub struct IPWhitelistConfig {
    /// The allowed addresses and CIDR ranges (keys only).
    pub allowed_ips: StrMap<()>,
    pub allow_all: bool,
    pub enabled: bool,
    pub log_blocked: bool,
}

/// The allow-list as it is installed in front of a route.
pub struct IPWhitelistMiddleware {
    pub config: IPWhitelistConfig,
}

/// The allow-list as it answers requests.
pub struct IPWhitelistService {
    pub config: IPWhitelistConfig,
}

/// The answer for one request.
pub enum WhitelistDecision {
    /// The request goes on to the route.
    Pass,
    /// The request is answered with 403; `log` says whether the refusal is logged.
    Deny { ip: String, log: bool },
}

/// `2` to the power `n`.
pub open spec fn two_to(n: nat) -> nat
    decreases n,
{
    if n == 0 { 1 } else { 2 * two_to((n - 1) as nat) }
}

/// The value of one part of a dotted address: decimal digits (no sign)
/// worth at most 255.
pub open spec fn octet_value(p: Seq<char>) -> Option<nat> {
    if p.len() > 0 && p[0] != '+' { parse_unsigned(p, 255) } else { None }
}

/// The 32-bit value of a dotted IPv4 address: four dot-separated parts,
/// each an octet, most significant first; nothing for any other text.
pub open spec fn ipv4_value(s: Seq<char>) -> Option<nat> {
    let p = split_on(s, '.');
    if p.len() == 4 && octet_value(p[0]) is Some && octet_value(p[1]) is Some
        && octet_value(p[2]) is Some && octet_value(p[3]) is Some {
        Some(((octet_value(p[0])->0 * 256 + octet_value(p[1])->0) * 256 + octet_value(p[2])->0) * 256 + octet_value(p[3])->0)
    } else {
        None
    }
}

/// `ip` lies in the network `net` of prefix length written `bits`: both are
/// dotted IPv4 addresses, `bits` reads as a length of at most 32, and the
/// two addresses agree on their top `bits` bits.
pub open spec fn in_network(ip: Seq<char>, net: Seq<char>, bits: Seq<char>) -> bool {
    match (ipv4_value(ip), ipv4_value(net), parse_unsigned(bits, 32)) {
        (Some(a), Some(n), Some(len)) => a / two_to((32 - len) as nat) == n / two_to((32 - len) as nat),
        _ => false,
    }
}

/// `ip` matches the allow-list entry `cidr`: an entry without `/` must equal
/// the address; an entry `network/bits` matches when the address lies in
/// that network (see `in_network`), the network being the text before the
/// first `/`.
pub open spec fn cidr_match(ip: Seq<char>, cidr: Seq<char>) -> bool {
    if lacks_char(cidr, '/') {
        ip == cidr
    } else {
        exists|k: int|
            #[trigger] is_first_index(cidr, '/', k)
            && in_network(ip, cidr.subrange(0, k), cidr.subrange(k + 1, cidr.len() as int))
    }
}

proof fn lemma_two_to_bounds(n: nat, m: nat)
    requires
        n <= m,
    ensures
        1 <= two_to(n) <= two_to(m),
    decreases m,
{
    if m > n {
        lemma_two_to_bounds(n, (m - 1) as nat);
    } else if n > 0 {
        lemma_two_to_bounds((n - 1) as nat, (n - 1) as nat);
    }
}

/// A prefix of length 32 admits exactly the network's own address, and a
/// prefix of length 0 admits every IPv4 address.
pub proof fn lemma_prefix_extremes(ip: Seq<char>, net: Seq<char>, bits: Seq<char>)
    requires
        ipv4_value(ip) is Some,
        ipv4_value(net) is Some,
    ensures
        parse_unsigned(bits, 32) == Some(32nat) ==> (in_network(ip, net, bits) <==> ipv4_value(ip) == ipv4_value(net)),
        parse_unsigned(bits, 32) == Some(0nat) ==> in_network(ip, net, bits),
{
    assert(two_to(32) == 4294967296) by {
        reveal_with_fuel(two_to, 33);
    }
    assert(two_to(0) == 1);
    let a = ipv4_value(ip)->0;
    let n = ipv4_value(net)->0;
    assert(a < 4294967296);
    assert(n < 4294967296);
    assert(a / 1 == a && n / 1 == n) by (nonlinear_arith);
    assert(a / 4294967296 == 0 && n / 4294967296 == 0) by (nonlinear_arith)
        requires a < 4294967296, n < 4294967296;
    if parse_unsigned(bits, 32) == Some(32nat) {
        assert((32 - 32) as nat == 0);
    }
    if parse_unsigned(bits, 32) == Some(0nat) {
        assert((32 - 0) as nat == 32);
    }
}

/// `2` to the power `n`, for `n` at most 32.
fn power_of_two(n: u64) -> (d: u64)
    requires
        n <= 32,
    ensures
        d == two_to(n as nat),
        1 <= d <= 4294967296,
{
    proof {
        assert(two_to(32) == 4294967296) by {
            reveal_with_fuel(two_to, 33);
        }
    }
    let mut d: u64 = 1;
    let mut i: u64 = 0;
    while i < n
        invariant
            i <= n <= 32,
            d == two_to(i as nat),
            two_to(32) == 4294967296,
        decreases n - i,
    {
        proof { lemma_two_to_bounds((i + 1) as nat, 32); }
        d = d * 2;
        i = i + 1;
    }
    proof { lemma_two_to_bounds(n as nat, 32); }
    d
}

/// The value of one part of a dotted address (see `octet_value`).
fn octet(p: &str) -> (r: Option<u64>)
    ensures
        match r {
            Some(v) => octet_value(p@) == Some(v as nat),
            None => octet_value(p@) is None,
        },
{
    let cs = chars_of(p);
    if cs.len() == 0 || cs[0] == '+' {
        return None;
    }
    parse_unsigned_str(p, 255)
}

/// The value of a dotted IPv4 address (see `ipv4_value`).
pub fn ipv4_of(s: &str) -> (r: Option<u64>)
    ensures
        match r {
            Some(v) => ipv4_value(s@) == Some(v as nat),
            None => ipv4_value(s@) is None,
        },
{
    let parts = split_chars(s, '.');
    if parts.len() != 4 {
        return None;
    }
    proof {
        assert(parts@[0]@ == split_on(s@, '.')[0]);
        assert(parts@[1]@ == split_on(s@, '.')[1]);
        assert(parts@[2]@ == split_on(s@, '.')[2]);
        assert(parts@[3]@ == split_on(s@, '.')[3]);
    }
    let a = match octet(parts[0].as_str()) { Some(v) => v, None => { return None; } };
    let b = match octet(parts[1].as_str()) { Some(v) => v, None => { return None; } };
    let c = match octet(parts[2].as_str()) { Some(v) => v, None => { return None; } };
    let d = match octet(parts[3].as_str()) { Some(v) => v, None => { return None; } };
    Some(((a * 256 + b) * 256 + c) * 256 + d)
}

/// The address is let through by the configuration.
pub open spec fn ip_allowed(config: IPWhitelistConfig, ip: Seq<char>) -> bool {
    ||| config.allow_all
    ||| config.allowed_ips@.dom().contains(ip)
    ||| exists|c: Seq<char>| #[trigger] config.allowed_ips@.dom().contains(c) && cidr_match(ip, c)
}

/// The answer owed to a request from `ip`.
pub open spec fn whitelist_decision(config: IPWhitelistConfig, ip: Seq<char>) -> Option<bool> {
    if !config.enabled || ip_allowed(config, ip) {
        None
    } else {
        Some(config.log_blocked)
    }
}

impl IPWhitelistMiddleware {
    /// An allow-list with the given configuration.
    pub fn new(config: IPWhitelistConfig) -> (m: Self)
        ensures
            m.config == config,
    {
        IPWhitelistMiddleware { config }
    }

    /// Adds the given addresses or ranges.
    pub fn with_ips(self, ips: Vec<String>) -> (m: Self)
        ensures
            m.config.allowed_ips@.dom() == self.config.allowed_ips@.dom().union(ips@.map_values(|s: String| s@).to_set()),
            m.config.allow_all == self.config.allow_all,
            m.config.enabled == self.config.enabled,
            m.config.log_blocked == self.config.log_blocked,
    {
        let mut m = self;
        let ghost start = m.config.allowed_ips@.dom();
        let mut i: usize = 0;
        while i < ips.len()
            invariant
                i <= ips.len(),
                m.config.allowed_ips@.dom() == start.union(ips@.subrange(0, i as int).map_values(|s: String| s@).to_set()),
                m.config.allow_all == self.config.allow_all,
                m.config.enabled == self.config.enabled,
                m.config.log_blocked == self.config.log_blocked,
            decreases ips.len() - i,
        {
            let ip = owned(ips[i].as_str());
            m.config.allowed_ips.insert(ip, ());
            proof {
                let before = ips@.subrange(0, i as int).map_values(|s: String| s@);
                let after = ips@.subrange(0, i + 1).map_values(|s: String| s@);
                assert(after =~= before.push(ips@[i as int]@));
                assert(after.to_set() =~= before.to_set().insert(ips@[i as int]@)) by {
                    before.lemma_push_to_set_commute(ips@[i as int]@);
                }
                assert(m.config.allowed_ips@.dom() =~= start.union(after.to_set()));
            }
            i = i + 1;
        }
        assert(ips@.subrange(0, ips.len() as int) =~= ips@);
        m
    }

    /// Lets every address through.
    pub fn allow_all(self) -> (m: Self)
        ensures
            m.config.allow_all,
            m.config.allowed_ips@ == self.config.allowed_ips@,
            m.config.enabled == self.config.enabled,
            m.config.log_blocked == self.config.log_blocked,
    {
        let mut m = self;
        m.config.allow_all = true;
        m
    }

    /// Switches the check on.
    pub fn enable(self) -> (m: Self)
        ensures
            m.config.enabled,
            m.config.allowed_ips@ == self.config.allowed_ips@,
            m.config.allow_all == self.config.allow_all,
            m.config.log_blocked == self.config.log_blocked,
    {
        let mut m = self;
        m.config.enabled = true;
        m
    }

    /// Switches the check off: every request passes.
    pub fn disable(self) -> (m: Self)
        ensures
            !m.config.enabled,
            m.config.allowed_ips@ == self.config.allowed_ips@,
            m.config.allow_all == self.config.allow_all,
            m.config.log_blocked == self.config.log_blocked,
    {
        let mut m = self;
        m.config.enabled = false;
        m
    }

    /// The service that answers requests with this configuration.
    pub fn into_service(self) -> (s: IPWhitelistService)
        ensures
            s.config == self.config,
    {
        IPWhitelistService { config: self.config }
    }
}

impl IPWhitelistService {
    /// Whether `ip` matches the allow-list entry `cidr` (see `cidr_match`):
    /// a plain address matches only itself, and `network/bits` matches the
    /// IPv4 addresses that share the network's top `bits` bits.
    pub fn ip_in_cidr(ip: &str, cidr: &str) -> (r: bool)
        ensures
            r == cidr_match(ip@, cidr@),
    {
        let cs = chars_of(cidr);
        match find_char(&cs, '/') {
            None => str_eq(ip, cidr),
            Some(k) => {
                assert(is_first_index(cs@, '/', k as int));
                assert(k < cs.len());
                let bits = string_from_chars(&chars_range(&cs, k + 1, cs.len()));
                let network = string_from_chars(&chars_range(&cs, 0, k));
                let r = match (ipv4_of(ip), ipv4_of(network.as_str()), parse_unsigned_str(bits.as_str(), 32)) {
                    (Some(a), Some(n), Some(len)) => {
                        let d = power_of_two(32 - len);
                        a / d == n / d
                    }
                    _ => false,
                };
                proof {
                    assert(!lacks_char(cs@, '/'));
                    assert(is_first_index(cidr@, '/', k as int));
                    assert forall|j: int| #[trigger] is_first_index(cidr@, '/', j) implies j == k by {
                        if j < k as int {
                            assert(cidr@[j] != '/');
                        } else if j > k as int {
                            assert(cidr@[k as int] != '/');
                        }
                    }
                }
                r
            }
        }
    }

    /// Whether the configuration lets `ip` through (see `ip_allowed`).
    pub fn is_ip_allowed(config: &IPWhitelistConfig, ip: &str) -> (r: bool)
        ensures
            r == ip_allowed(*config, ip@),
    {
        if config.allow_all {
            return true;
        }
        if config.allowed_ips.contains_key(ip) {
            return true;
        }
        let n = config.allowed_ips.len();
        let mut i: usize = 0;
        while i < n
            invariant
                n == config.allowed_ips.pairs().len(),
                i <= n,
                forall|j: int| 0 <= j < i ==> !cidr_match(ip@, #[trigger] config.allowed_ips.pairs()[j].0),
            decreases n - i,
        {
            let (entry, _) = config.allowed_ips.entry_at(i);
            if Self::ip_in_cidr(ip, entry.as_str()) {
                proof {
                    let c = config.allowed_ips.pairs()[i as int].0;
                    assert(has_key(config.allowed_ips.pairs(), c));
                    assert(config.allowed_ips@.dom().contains(c));
                }
                return true;
            }
            i = i + 1;
        }
        proof {
            assert forall|c: Seq<char>| #[trigger] config.allowed_ips@.dom().contains(c) implies !cidr_match(ip@, c) by {
                assert(has_key(config.allowed_ips.pairs(), c));
                let j = choose|j: int| 0 <= j < config.allowed_ips.pairs().len() && #[trigger] config.allowed_ips.pairs()[j].0 == c;
                assert(!cidr_match(ip@, config.allowed_ips.pairs()[j].0));
            }
        }
        false
    }

    /// What to do with a request from `ip`: pass it on when the check is
    /// off or the address is allowed, else refuse it with 403.
    pub fn decide(&self, ip: &str) -> (d: WhitelistDecision)
        ensures
            match d {
                WhitelistDecision::Pass => whitelist_decision(self.config, ip@) is None,
                WhitelistDecision::Deny { ip: who, log } =>
                    whitelist_decision(self.config, ip@) == Some(log) && who@ == ip@,
            },
    {
        if !self.config.enabled {
            return WhitelistDecision::Pass;
        }
        if Self::is_ip_allowed(&self.config, ip) {
            WhitelistDecision::Pass
        } else {
            WhitelistDecision::Deny { ip: owned(ip), log: self.config.log_blocked }
        }
    }
}

/// The allow-list for administrative routes: loopback and two private ranges.
pub struct AdminWhitelist;

impl AdminWhitelist {
    pub fn new() -> (m: IPWhitelistMiddleware)
        ensures
            m.config.allowed_ips@.dom() == set!["127.0.0.1"@, "::1"@, "192.168.1.0/24"@, "10.0.0.0/8"@],
            !m.config.allow_all,
            m.config.enabled,
            m.config.log_blocked,
    {
        let mut allowed_ips: StrMap<()> = StrMap::new();
        allowed_ips.insert(owned("127.0.0.1"), ());
        allowed_ips.insert(owned("::1"), ());
        allowed_ips.insert(owned("192.168.1.0/24"), ());
        allowed_ips.insert(owned("10.0.0.0/8"), ());
        assert(allowed_ips@.dom() =~= set!["127.0.0.1"@, "::1"@, "192.168.1.0/24"@, "10.0.0.0/8"@]);
        IPWhitelistMiddleware::new(IPWhitelistConfig {
            allowed_ips,
            allow_all: false,
            enabled: true,
            log_blocked: true,
        })
    }
}

/// The allow-list for production: every address passes for now.
pub struct ProductionWhitelist;

impl ProductionWhitelist {
    pub fn new() -> (m: IPWhitelistMiddleware)
        ensures
            m.config.allowed_ips@.dom() == set!["0.0.0.0/0"@],
            m.config.allow_all,
            m.config.enabled,
            m.config.log_blocked,
    {
        let mut allowed_ips: StrMap<()> = StrMap::new();
        allowed_ips.insert(owned("0.0.0.0/0"), ());
        assert(allowed_ips@.dom() =~= set!["0.0.0.0/0"@]);
        IPWhitelistMiddleware::new(IPWhitelistConfig {
            allowed_ips,
            allow_all: true,
            enabled: true,
            log_blocked: true,
        })
    }
}

/// The allow-list for development: every address passes, nothing is logged.
pub struct DevelopmentWhitelist;

impl DevelopmentWhitelist {
    pub fn new() -> (m: IPWhitelistMiddleware)
        ensures
            m.config.allowed_ips@.dom() == Set::<Seq<char>>::empty(),
            m.config.allow_all,
            m.config.enabled,
            !m.config.log_blocked,
    {
        let allowed_ips: StrMap<()> = StrMap::new();
        assert(allowed_ips@.dom() =~= Set::<Seq<char>>::empty());
        IPWhitelistMiddleware::new(IPWhitelistConfig {
            allowed_ips,
            allow_all: true,
            enabled: true,
            log_blocked: false,
        })
    }
}

/// An allowed address is let through whenever the check is on, and a
/// disabled check lets every address through.
pub proof fn lemma_whitelist_gate(config: IPWhitelistConfig, ip: Seq<char>)
    ensures
        !config.enabled ==> whitelist_decision(config, ip) is None,
        config.allow_all ==> whitelist_decision(config, ip) is None,
        config.allowed_ips@.dom().contains(ip) ==> whitelist_decision(config, ip) is None,
        config.enabled && !ip_allowed(config, ip) ==> whitelist_decision(config, ip) == Some(config.log_blocked),
{
}

} // verus!
