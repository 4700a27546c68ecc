//! IP addresses: the reserved ranges that the URL checks refuse, and the
//! address/CIDR entries that trusted-proxy lists are made of.

use vstd::prelude::*;
use crate::ipparse::{ip_text, parse_ip_text};
use crate::text::{after, after_first, before, before_first, chars_of, trim, trim_seq};

verus! {

/// An IP address as a number: 32 bits for IPv4, 128 bits for IPv6.
#[derive(Clone, Copy, Debug, PartialEq, Eq, Structural)]
pub enum IpAddress {
    V4(u32),
    V6(u128),
}

/// The address that `IpAddr::from_str` reads from `text`, if any.
pub open spec fn ip_of(text: Seq<char>) -> Option<IpAddress> {
    match ip_text(text) {
        Some((false, v)) => Some(IpAddress::V4(v as u32)),
        Some((true, v)) => Some(IpAddress::V6(v as u128)),
        None => None,
    }
}

/// Reads an IP address from its text (`IpAddr::from_str`).
pub fn parse_ip(text: &Vec<char>) -> (r: Option<IpAddress>)
    ensures
        r == ip_of(text@),
{
    match parse_ip_text(text) {
        Some((false, v)) => Some(IpAddress::V4(v as u32)),
        Some((true, v)) => Some(IpAddress::V6(v)),
        None => None,
    }
}

// ───────────────────────── reserved ranges ─────────────────────────

/// Octet `k` (0 is the most significant) of an IPv4 address.
pub open spec fn octet(v: u32, k: int) -> int {
    if k == 0 {
        (v / 0x1000000) as int
    } else if k == 1 {
        ((v / 0x10000) % 0x100) as int
    } else if k == 2 {
        ((v / 0x100) % 0x100) as int
    } else {
        (v % 0x100) as int
    }
}

/// `Ipv4Addr::is_loopback`: 127.0.0.0/8.
pub open spec fn v4_loopback(v: u32) -> bool {
    octet(v, 0) == 127
}

/// `Ipv4Addr::is_private`: 10.0.0.0/8, 172.16.0.0/12, 192.168.0.0/16.
pub open spec fn v4_private(v: u32) -> bool {
    ||| octet(v, 0) == 10
    ||| (octet(v, 0) == 172 && 16 <= octet(v, 1) && octet(v, 1) <= 31)
    ||| (octet(v, 0) == 192 && octet(v, 1) == 168)
}

/// `Ipv4Addr::is_link_local`: 169.254.0.0/16.
pub open spec fn v4_link_local(v: u32) -> bool {
    octet(v, 0) == 169 && octet(v, 1) == 254
}

/// `Ipv4Addr::is_broadcast`: 255.255.255.255.
pub open spec fn v4_broadcast(v: u32) -> bool {
    v == 0xffff_ffff
}

/// `Ipv4Addr::is_documentation`: 192.0.2.0/24, 198.51.100.0/24, 203.0.113.0/24.
pub open spec fn v4_documentation(v: u32) -> bool {
    ||| (octet(v, 0) == 192 && octet(v, 1) == 0 && octet(v, 2) == 2)
    ||| (octet(v, 0) == 198 && octet(v, 1) == 51 && octet(v, 2) == 100)
    ||| (octet(v, 0) == 203 && octet(v, 1) == 0 && octet(v, 2) == 113)
}

/// An IPv4 address that outgoing probes must not reach: loopback, private,
/// link-local, broadcast, documentation, 0.0.0.0/8, carrier-grade NAT
/// (100.64.0.0/10) and benchmarking (198.18.0.0/15).
pub open spec fn v4_reserved(v: u32) -> bool {
    ||| v4_loopback(v)
    ||| v4_private(v)
    ||| v4_link_local(v)
    ||| v4_broadcast(v)
    ||| v4_documentation(v)
    ||| octet(v, 0) == 0
    ||| (octet(v, 0) == 100 && 64 <= octet(v, 1) && octet(v, 1) <= 127)
    ||| (octet(v, 0) == 198 && (octet(v, 1) == 18 || octet(v, 1) == 19))
}

/// The first 16-bit segment of an IPv6 address.
pub open spec fn segment0(v: u128) -> int {
    (v / 0x1_0000_0000_0000_0000_0000_0000_0000) as int
}

/// An IPv6 address that outgoing probes must not reach: loopback (`::1`),
/// unspecified (`::`), unique local (fc00::/7), multicast (ff00::/8) and
/// link-local (fe80::/10).
pub open spec fn v6_reserved(v: u128) -> bool {
    ||| v == 1
    ||| v == 0
    ||| (0xfc00 <= segment0(v) && segment0(v) <= 0xfdff)
    ||| 0xff00 <= segment0(v)
    ||| (0xfe80 <= segment0(v) && segment0(v) <= 0xfebf)
}

/// An address in one of the reserved ranges.
pub open spec fn reserved(ip: IpAddress) -> bool {
    match ip {
        IpAddress::V4(v) => v4_reserved(v),
        IpAddress::V6(v) => v6_reserved(v),
    }
}

/// Whether an IPv4 address lies in a reserved range.
pub fn is_private_ipv4(v: u32) -> (r: bool)
    ensures
        r == v4_reserved(v),
{
    let a = v / 0x1000000;
    let b = (v / 0x10000) % 0x100;
    let c = (v / 0x100) % 0x100;
    a == 127
        || a == 10
        || (a == 172 && 16 <= b && b <= 31)
        || (a == 192 && b == 168)
        || (a == 169 && b == 254)
        || v == 0xffff_ffff
        || (a == 192 && b == 0 && c == 2)
        || (a == 198 && b == 51 && c == 100)
        || (a == 203 && b == 0 && c == 113)
        || a == 0
        || (a == 100 && 64 <= b && b <= 127)
        || (a == 198 && (b == 18 || b == 19))
}

/// Whether an IPv6 address lies in a reserved range.
pub fn is_private_ipv6(v: u128) -> (r: bool)
    ensures
        r == v6_reserved(v),
{
    let s = v / 0x1_0000_0000_0000_0000_0000_0000_0000;
    v == 1 || v == 0 || (0xfc00 <= s && s <= 0xfdff) || 0xff00 <= s || (0xfe80 <= s && s
        <= 0xfebf)
}

/// Whether an address lies in a reserved range.
pub fn is_private_ip(ip: &IpAddress) -> (r: bool)
    ensures
        r == reserved(*ip),
{
    match ip {
        IpAddress::V4(v) => is_private_ipv4(*v),
        IpAddress::V6(v) => is_private_ipv6(*v),
    }
}

// ───────────────────────── small decimal numbers ─────────────────────────

/// An ASCII decimal digit.
pub open spec fn is_digit(c: char) -> bool {
    '0' <= c && c <= '9'
}

/// The value of a string of decimal digits.
pub open spec fn digits_value(s: Seq<char>) -> nat
    decreases s.len(),
{
    if s.len() == 0 {
        0
    } else {
        digits_value(s.drop_last()) * 10 + ((s.last() as u32) - 48) as nat
    }
}

/// All characters are decimal digits.
pub open spec fn all_digits(s: Seq<char>) -> bool {
    forall|i: int| 0 <= i < s.len() ==> is_digit(#[trigger] s[i])
}

/// `u8::from_str`: an optional `+`, then one or more decimal digits whose
/// value fits in a byte.
pub open spec fn u8_text(s: Seq<char>) -> Option<u8> {
    let d = if s.len() > 0 && s[0] == '+' { s.drop_first() } else { s };
    if d.len() > 0 && all_digits(d) && digits_value(d) <= 255 {
        Some(digits_value(d) as u8)
    } else {
        None
    }
}

proof fn lemma_digits_monotone(s: Seq<char>, i: int)
    requires
        0 <= i <= s.len(),
        all_digits(s),
    ensures
        digits_value(s.take(i)) <= digits_value(s),
    decreases s.len() - i,
{
    if i < s.len() {
        lemma_digits_monotone(s, i + 1);
        assert(s.take(i + 1).drop_last() =~= s.take(i));
        assert(is_digit(s[i]));
    } else {
        assert(s.take(i) =~= s);
    }
}

/// `u8::from_str`.
pub fn parse_u8(s: &Vec<char>) -> (r: Option<u8>)
    ensures
        r == u8_text(s@),
{
    let start: usize = if s.len() > 0 && s[0] == '+' { 1 } else { 0 };
    let ghost d = if s@.len() > 0 && s@[0] == '+' { s@.drop_first() } else { s@ };
    assert(d =~= s@.skip(start as int));
    if start >= s.len() {
        return None;
    }
    let mut acc: u32 = 0;
    let mut i: usize = start;
    while i < s.len()
        invariant
            start <= i <= s.len(),
            d == s@.skip(start as int),
            d == (if s@.len() > 0 && s@[0] == '+' { s@.drop_first() } else { s@ }),
            d.len() > 0,
            d.len() == s.len() - start,
            acc as nat == digits_value(d.take(i - start)),
            acc <= 255,
            all_digits(d.take(i - start)),
        decreases s.len() - i,
    {
        let c = s[i];
        assert(d.take(i - start + 1).drop_last() =~= d.take(i - start));
        assert(d.take(i - start + 1).last() == c);
        assert(d[i - start] == c);
        if !('0' <= c && c <= '9') {
            assert(!is_digit(d[i - start]));
            assert(!all_digits(d));
            return None;
        }
        let nv = acc * 10 + ((c as u32) - 48);
        assert(nv == digits_value(d.take(i - start + 1)));
        acc = nv;
        i = i + 1;
        assert(all_digits(d.take(i - start)));
        if acc > 255 {
            proof {
                if all_digits(d) {
                    lemma_digits_monotone(d, i - start);
                }
            }
            return None;
        }
    }
    assert(d.take(i - start) =~= d);
    Some(acc as u8)
}

// ───────────────────────── address / network entries ─────────────────────────

/// The top `prefix` bits of two IPv4 addresses agree.
pub open spec fn same_prefix_v4(a: u32, b: u32, prefix: u8) -> bool {
    prefix == 0 || (a >> (32 - prefix) as u32) == (b >> (32 - prefix) as u32)
}

/// The top `prefix` bits of two IPv6 addresses agree.
pub open spec fn same_prefix_v6(a: u128, b: u128, prefix: u8) -> bool {
    prefix == 0 || (a >> (128 - prefix) as u128) == (b >> (128 - prefix) as u128)
}

/// An address lies in the network `network/prefix`; a prefix longer than
/// the address, or a network of the other family, admits nothing.
pub open spec fn in_network(network: IpAddress, prefix: u8, ip: IpAddress) -> bool {
    match (network, ip) {
        (IpAddress::V4(n), IpAddress::V4(a)) => prefix <= 32 && same_prefix_v4(n, a, prefix),
        (IpAddress::V6(n), IpAddress::V6(a)) => prefix <= 128 && same_prefix_v6(n, a, prefix),
        _ => false,
    }
}

/// The network and prefix that a `network/prefix` entry denotes, if both
/// halves parse.
pub open spec fn cidr_parts(entry: Seq<char>) -> Option<(IpAddress, u8)> {
    match after_first(entry, seq!['/']) {
        Some(prefix_text) => match (
            ip_of(before_first(entry, seq!['/'])),
            u8_text(prefix_text),
        ) {
            (Some(n), Some(p)) => Some((n, p)),
            _ => None,
        },
        None => None,
    }
}

/// A trusted-proxy entry (an address, or `network/prefix`) admits `ip`:
/// after trimming, an entry that parses as an address admits exactly that
/// address; otherwise it must be `network/prefix` and admits the addresses of
/// that network.
pub open spec fn entry_admits(entry: Seq<char>, ip: IpAddress) -> bool {
    let e = trim_seq(entry);
    match ip_of(e) {
        Some(a) => a == ip,
        None => match cidr_parts(e) {
            Some((n, p)) => in_network(n, p, ip),
            None => false,
        },
    }
}

/// An entry is a well-formed address or CIDR network (no trimming): an
/// address, or `network/prefix` with a prefix no longer than the address.
pub open spec fn entry_well_formed(entry: Seq<char>) -> bool {
    ||| ip_of(entry) is Some
    ||| match cidr_parts(entry) {
        Some((IpAddress::V4(_), p)) => p <= 32,
        Some((IpAddress::V6(_), p)) => p <= 128,
        None => false,
    }
}

/// Whether the network `network/prefix` holds `ip`.
pub fn network_contains(network: IpAddress, prefix: u8, ip: IpAddress) -> (r: bool)
    ensures
        r == in_network(network, prefix, ip),
{
    match (network, ip) {
        (IpAddress::V4(n), IpAddress::V4(a)) => {
            if prefix > 32 {
                return false;
            }
            if prefix == 0 {
                return true;
            }
            let s: u32 = (32 - prefix) as u32;
            (n >> s) == (a >> s)
        },
        (IpAddress::V6(n), IpAddress::V6(a)) => {
            if prefix > 128 {
                return false;
            }
            if prefix == 0 {
                return true;
            }
            let s: u128 = (128 - prefix) as u128;
            (n >> s) == (a >> s)
        },
        _ => false,
    }
}

/// Splits `network/prefix` into its parsed halves.
pub fn parse_cidr(entry: &Vec<char>) -> (r: Option<(IpAddress, u8)>)
    ensures
        r == cidr_parts(entry@),
{
    let slash: Vec<char> = vec!['/'];
    assert(slash@ =~= seq!['/']);
    match after(entry, &slash) {
        Some(prefix_text) => {
            let net_text = before(entry, &slash);
            let n = parse_ip(&net_text);
            let p = parse_u8(&prefix_text);
            match (n, p) {
                (Some(n), Some(p)) => Some((n, p)),
                _ => None,
            }
        },
        None => None,
    }
}

/// Whether a trusted-proxy entry admits `ip`.
pub fn ip_matches(entry: &str, ip: IpAddress) -> (r: bool)
    ensures
        r == entry_admits(entry@, ip),
{
    let e = trim(&chars_of(entry));
    if let Some(expected) = parse_ip(&e) {
        return expected == ip;
    }
    match parse_cidr(&e) {
        Some((n, p)) => network_contains(n, p, ip),
        None => false,
    }
}

/// Whether an entry is a well-formed address or CIDR network.
pub fn is_valid_proxy_entry(entry: &str) -> (r: bool)
    ensures
        r == entry_well_formed(entry@),
{
    let e = chars_of(entry);
    if parse_ip(&e).is_some() {
        return true;
    }
    match parse_cidr(&e) {
        Some((IpAddress::V4(_), p)) => p <= 32,
        Some((IpAddress::V6(_), p)) => p <= 128,
        None => false,
    }
}

} // verus!
