//! Text form of IP addresses, read the way the standard library's
//! `IpAddr::from_str` reads it: a dotted quad of decimal octets without
//! leading zeros, or up to eight colon-separated hexadecimal groups with at
//! most one `::` and an optional trailing dotted quad.

use vstd::prelude::*;

verus! {

// ───────────────────────── digits ─────────────────────────

/// The value of `c` as a digit in base 16 (`hex`) or base 10.
pub open spec fn digit_val(c: char, hex: bool) -> Option<nat> {
    if '0' <= c && c <= '9' {
        Some(((c as u32) - 48) as nat)
    } else if hex && 'a' <= c && c <= 'f' {
        Some(((c as u32) - 87) as nat)
    } else if hex && 'A' <= c && c <= 'F' {
        Some(((c as u32) - 55) as nat)
    } else {
        None
    }
}

/// How many digits follow position `pos`.
pub open spec fn digit_run(s: Seq<char>, pos: int, hex: bool) -> nat
    decreases s.len() - pos,
{
    if 0 <= pos < s.len() && digit_val(s[pos], hex) is Some {
        1 + digit_run(s, pos + 1, hex)
    } else {
        0
    }
}

/// The value of the digits in `s[a..b]`.
pub open spec fn digits_val(s: Seq<char>, a: int, b: int, hex: bool) -> nat
    decreases b - a,
{
    if b <= a {
        0
    } else {
        digits_val(s, a, b - 1, hex) * (if hex { 16nat } else { 10nat }) + match digit_val(
            s[b - 1],
            hex,
        ) {
            Some(d) => d,
            None => 0,
        }
    }
}

/// A decimal octet at `pos`: one to three digits, no leading zero, at most 255.
pub open spec fn read_octet(s: Seq<char>, pos: int) -> Option<(nat, int)> {
    let k = digit_run(s, pos, false);
    if k == 0 || k > 3 {
        None
    } else if s[pos] == '0' && k > 1 {
        None
    } else if digits_val(s, pos, pos + k, false) > 255 {
        None
    } else {
        Some((digits_val(s, pos, pos + k, false), pos + k))
    }
}

/// A hexadecimal group at `pos`: one to four digits.
pub open spec fn read_group(s: Seq<char>, pos: int) -> Option<(nat, int)> {
    let k = digit_run(s, pos, true);
    if k == 0 || k > 4 {
        None
    } else {
        Some((digits_val(s, pos, pos + k, true), pos + k))
    }
}

/// Position after the character `c` at `pos`, if it is there.
pub open spec fn read_char(s: Seq<char>, pos: int, c: char) -> Option<int> {
    if 0 <= pos < s.len() && s[pos] == c {
        Some(pos + 1)
    } else {
        None
    }
}

/// A dotted quad at `pos`: its 32-bit value and the position after it.
pub open spec fn read_ipv4(s: Seq<char>, pos: int) -> Option<(nat, int)> {
    match read_octet(s, pos) {
        None => None,
        Some((a, p1)) => match read_char(s, p1, '.') {
            None => None,
            Some(q1) => match read_octet(s, q1) {
                None => None,
                Some((b, p2)) => match read_char(s, p2, '.') {
                    None => None,
                    Some(q2) => match read_octet(s, q2) {
                        None => None,
                        Some((c, p3)) => match read_char(s, p3, '.') {
                            None => None,
                            Some(q3) => match read_octet(s, q3) {
                                None => None,
                                Some((d, p4)) => Some(
                                    ((((a * 256 + b) * 256 + c) * 256 + d), p4),
                                ),
                            },
                        },
                    },
                },
            },
        },
    }
}

/// Where group number `i` of an IPv6 run starts: after a `:` unless it is
/// the first.
pub open spec fn group_start(s: Seq<char>, pos: int, i: nat) -> Option<int> {
    if i == 0 {
        Some(pos)
    } else {
        read_char(s, pos, ':')
    }
}

/// A run of at most `limit - i` more IPv6 groups from `pos`, after the
/// groups `acc`; a dotted quad may stand for the last two. Returns the
/// groups, the position after them, and whether a dotted quad ended them.
pub open spec fn read_groups(s: Seq<char>, pos: int, i: nat, limit: nat, acc: Seq<nat>) -> (
    Seq<nat>,
    int,
    bool,
)
    decreases limit - i,
{
    if i >= limit {
        (acc, pos, false)
    } else {
        let v4 = if i + 1 < limit {
            match group_start(s, pos, i) {
                Some(q) => read_ipv4(s, q),
                None => None,
            }
        } else {
            None
        };
        match v4 {
            Some((v, p)) => (acc.push(v / 0x10000).push(v % 0x10000), p, true),
            None => match group_start(s, pos, i) {
                Some(q) => match read_group(s, q) {
                    Some((g, p)) => read_groups(s, p, i + 1, limit, acc.push(g)),
                    None => (acc, pos, false),
                },
                None => (acc, pos, false),
            },
        }
    }
}

/// The 128-bit value of a list of 16-bit groups.
pub open spec fn groups_val(gs: Seq<nat>) -> nat
    decreases gs.len(),
{
    if gs.len() == 0 {
        0
    } else {
        groups_val(gs.drop_last()) * 0x10000 + gs.last()
    }
}

/// An IPv6 address at the start of `s`: its value and the position after it.
pub open spec fn read_ipv6(s: Seq<char>) -> Option<(nat, int)> {
    let (head, p1, v4) = read_groups(s, 0, 0, 8, Seq::empty());
    if head.len() == 8 {
        Some((groups_val(head), p1))
    } else if v4 {
        None
    } else {
        match read_char(s, p1, ':') {
            None => None,
            Some(q) => match read_char(s, q, ':') {
                None => None,
                Some(p2) => {
                    let (tail, p3, _) = read_groups(
                        s,
                        p2,
                        0,
                        (7 - head.len()) as nat,
                        Seq::empty(),
                    );
                    Some(
                        (
                            groups_val(
                                head + Seq::new((8 - head.len() - tail.len()) as nat, |k: int| 0nat)
                                    + tail,
                            ),
                            p3,
                        ),
                    )
                },
            },
        }
    }
}

/// `IpAddr::from_str`: `(is_v6, value)` of the address that the whole text
/// spells, if it spells one.
pub open spec fn ip_text(s: Seq<char>) -> Option<(bool, nat)> {
    match read_ipv4(s, 0) {
        Some((v, p)) => if p == s.len() {
            Some((false, v))
        } else {
            None
        },
        None => match read_ipv6(s) {
            Some((v, p)) => if p == s.len() {
                Some((true, v))
            } else {
                None
            },
            None => None,
        },
    }
}

// ───────────────────────── executable reading ─────────────────────────

/// The digit value of a character.
fn digit_of(c: char, hex: bool) -> (r: Option<u32>)
    ensures
        match digit_val(c, hex) {
            Some(d) => r == Some(d as u32) && d < 16,
            None => r is None,
        },
{
    if '0' <= c && c <= '9' {
        Some((c as u32) - 48)
    } else if hex && 'a' <= c && c <= 'f' {
        Some((c as u32) - 87)
    } else if hex && 'A' <= c && c <= 'F' {
        Some((c as u32) - 55)
    } else {
        None
    }
}

proof fn lemma_digits_val_bound(s: Seq<char>, a: int, b: int, hex: bool)
    requires
        a <= b,
    ensures
        digits_val(s, a, b, hex) < pow_radix(b - a, hex),
    decreases b - a,
{
    if b > a {
        lemma_digits_val_bound(s, a, b - 1, hex);
        let r: nat = if hex { 16 } else { 10 };
        let d: nat = match digit_val(s[b - 1], hex) {
            Some(d) => d,
            None => 0,
        };
        assert(d < r);
        let x = digits_val(s, a, b - 1, hex);
        let p = pow_radix(b - 1 - a, hex);
        assert(x * r + d < p * r) by (nonlinear_arith)
            requires
                x < p,
                d < r,
        ;
    }
}

/// `radix` raised to `k`.
pub open spec fn pow_radix(k: int, hex: bool) -> nat
    decreases k,
{
    if k <= 0 {
        1
    } else {
        pow_radix(k - 1, hex) * (if hex { 16nat } else { 10nat })
    }
}

/// Counts the digits from `pos` and reads their value when there are at
/// most `max` of them.
fn scan_digits(s: &Vec<char>, pos: usize, hex: bool, max: usize) -> (r: (usize, u32))
    requires
        pos <= s.len(),
        max <= 4,
    ensures
        r.0 == digit_run(s@, pos as int, hex),
        r.0 <= max ==> r.1 == digits_val(s@, pos as int, pos + r.0, hex),
{
    let mut j = pos;
    let mut acc: u32 = 0;
    while j < s.len() && digit_of(s[j], hex).is_some()
        invariant
            pos <= j <= s.len(),
            digit_run(s@, pos as int, hex) == (j - pos) + digit_run(s@, j as int, hex),
            (j - pos) <= max ==> acc == digits_val(s@, pos as int, j as int, hex),
            (j - pos) <= max ==> acc < pow_radix(j - pos, hex),
            max <= 4,
        decreases s.len() - j,
    {
        let d = digit_of(s[j], hex).unwrap();
        if j - pos < max {
            let r: u32 = if hex { 16 } else { 10 };
            proof {
                lemma_pow_small(j - pos, hex);
                lemma_pow_small(j + 1 - pos, hex);
                assert(acc * r + d < pow_radix(j - pos, hex) * r) by (nonlinear_arith)
                    requires
                        acc < pow_radix(j - pos, hex),
                        d < r,
                ;
            }
            acc = acc * r + d;
        }
        j = j + 1;
    }
    (j - pos, acc)
}

proof fn lemma_pow_small(k: int, hex: bool)
    requires
        0 <= k <= 4,
    ensures
        pow_radix(k, hex) <= 65536,
{
    reveal_with_fuel(pow_radix, 5);
}


proof fn lemma_digit_run_bound(s: Seq<char>, pos: int, hex: bool)
    requires
        0 <= pos <= s.len(),
    ensures
        pos + digit_run(s, pos, hex) <= s.len(),
        digit_run(s, pos, hex) > 0 ==> pos < s.len() && digit_val(s[pos], hex) is Some,
    decreases s.len() - pos,
{
    if pos < s.len() && digit_val(s[pos], hex) is Some {
        lemma_digit_run_bound(s, pos + 1, hex);
    }
}

/// Reads a decimal octet at `pos`.
fn octet_at(s: &Vec<char>, pos: usize) -> (r: Option<(u32, usize)>)
    requires
        pos <= s.len(),
    ensures
        match read_octet(s@, pos as int) {
            Some((v, p)) => r == Some((v as u32, p as usize)) && v <= 255 && pos < p <= s.len(),
            None => r is None,
        },
{
    proof {
        lemma_digit_run_bound(s@, pos as int, false);
    }
    let (k, v) = scan_digits(s, pos, false, 3);
    if k == 0 || k > 3 {
        None
    } else if s[pos] == '0' && k > 1 {
        None
    } else if v > 255 {
        None
    } else {
        Some((v, pos + k))
    }
}

/// Reads a hexadecimal group at `pos`.
fn group_at(s: &Vec<char>, pos: usize) -> (r: Option<(u32, usize)>)
    requires
        pos <= s.len(),
    ensures
        match read_group(s@, pos as int) {
            Some((v, p)) => r == Some((v as u32, p as usize)) && v < 0x10000 && pos < p <= s.len(),
            None => r is None,
        },
{
    proof {
        lemma_digit_run_bound(s@, pos as int, true);
    }
    let (k, v) = scan_digits(s, pos, true, 4);
    if k == 0 || k > 4 {
        None
    } else {
        proof {
            lemma_digits_val_bound(s@, pos as int, pos + k, true);
            reveal_with_fuel(pow_radix, 5);
        }
        Some((v, pos + k))
    }
}

/// Reads the character `c` at `pos`.
fn char_at(s: &Vec<char>, pos: usize, c: char) -> (r: Option<usize>)
    requires
        pos <= s.len(),
    ensures
        match read_char(s@, pos as int, c) {
            Some(p) => r == Some(p as usize) && p <= s.len(),
            None => r is None,
        },
{
    if pos < s.len() && s[pos] == c {
        Some(pos + 1)
    } else {
        None
    }
}

/// Reads a dotted quad at `pos`.
fn ipv4_at(s: &Vec<char>, pos: usize) -> (r: Option<(u32, usize)>)
    requires
        pos <= s.len(),
    ensures
        match read_ipv4(s@, pos as int) {
            Some((v, p)) => r == Some((v as u32, p as usize)) && v < 0x1_0000_0000 && 0 <= p <= s.len(),
            None => r is None,
        },
{
    let (a, p1) = match octet_at(s, pos) {
        Some(x) => x,
        None => return None,
    };
    let q1 = match char_at(s, p1, '.') {
        Some(x) => x,
        None => return None,
    };
    let (b, p2) = match octet_at(s, q1) {
        Some(x) => x,
        None => return None,
    };
    let q2 = match char_at(s, p2, '.') {
        Some(x) => x,
        None => return None,
    };
    let (c, p3) = match octet_at(s, q2) {
        Some(x) => x,
        None => return None,
    };
    let q3 = match char_at(s, p3, '.') {
        Some(x) => x,
        None => return None,
    };
    let (d, p4) = match octet_at(s, q3) {
        Some(x) => x,
        None => return None,
    };
    assert(((a * 256 + b) * 256 + c) * 256 + d < 0x1_0000_0000) by (nonlinear_arith)
        requires
            a <= 255,
            b <= 255,
            c <= 255,
            d <= 255,
    ;
    Some((((a * 256 + b) * 256 + c) * 256 + d, p4))
}

/// Where group number `i` of a run starts.
fn group_start_at(s: &Vec<char>, pos: usize, i: usize) -> (r: Option<usize>)
    requires
        pos <= s.len(),
    ensures
        match group_start(s@, pos as int, i as nat) {
            Some(p) => r == Some(p as usize) && p <= s.len(),
            None => r is None,
        },
{
    if i == 0 {
        Some(pos)
    } else {
        char_at(s, pos, ':')
    }
}

/// The groups as mathematical numbers.
pub open spec fn nats(v: Seq<u32>) -> Seq<nat> {
    v.map_values(|x: u32| x as nat)
}

/// Reads a run of at most `limit` IPv6 groups from `start`.
fn groups_at(s: &Vec<char>, start: usize, limit: usize) -> (r: (Vec<u32>, usize, bool))
    requires
        start <= s.len(),
        limit <= 8,
    ensures
        read_groups(s@, start as int, 0, limit as nat, Seq::empty()) == (
            nats(r.0@),
            r.1 as int,
            r.2,
        ),
        r.0.len() <= limit,
        r.1 <= s.len(),
        forall|k: int| 0 <= k < r.0.len() ==> r.0@[k] < 0x10000,
{
    let mut acc: Vec<u32> = Vec::new();
    let mut pos = start;
    let mut i: usize = 0;
    assert(nats(acc@) =~= Seq::<nat>::empty());
    loop
        invariant
            i <= limit,
            limit <= 8,
            acc.len() == i,
            pos <= s.len(),
            read_groups(s@, start as int, 0, limit as nat, Seq::empty()) == read_groups(
                s@,
                pos as int,
                i as nat,
                limit as nat,
                nats(acc@),
            ),
            forall|k: int| 0 <= k < acc.len() ==> acc@[k] < 0x10000,
        decreases limit - i,
    {
        if i >= limit {
            return (acc, pos, false);
        }
        if i + 1 < limit {
            if let Some(q) = group_start_at(s, pos, i) {
                if let Some((v, p)) = ipv4_at(s, q) {
                    let ghost before = nats(acc@);
                    acc.push(v / 0x10000);
                    acc.push(v % 0x10000);
                    assert(nats(acc@) =~= before.push(v as nat / 0x10000).push(v as nat % 0x10000));
                    return (acc, p, true);
                }
            }
        }
        match group_start_at(s, pos, i) {
            Some(q) => match group_at(s, q) {
                Some((g, p)) => {
                    let ghost before = nats(acc@);
                    acc.push(g);
                    assert(nats(acc@) =~= before.push(g as nat));
                    pos = p;
                    i = i + 1;
                },
                None => {
                    return (acc, pos, false);
                },
            },
            None => {
                return (acc, pos, false);
            },
        }
    }
}

/// `65536` raised to `k`.
pub open spec fn pow_group(k: nat) -> nat
    decreases k,
{
    if k == 0 {
        1
    } else {
        pow_group((k - 1) as nat) * 0x10000
    }
}

/// The 128-bit value of at most eight 16-bit groups.
fn groups_value(gs: &Vec<u32>) -> (r: u128)
    requires
        gs.len() <= 8,
        forall|k: int| 0 <= k < gs.len() ==> gs@[k] < 0x10000,
    ensures
        r as nat == groups_val(nats(gs@)),
{
    let mut acc: u128 = 0;
    let mut i: usize = 0;
    proof {
        reveal_with_fuel(pow_group, 9);
        assert(pow_group(8) == 0x1_0000_0000_0000_0000_0000_0000_0000_0000nat);
    }
    while i < gs.len()
        invariant
            i <= gs.len(),
            gs.len() <= 8,
            forall|k: int| 0 <= k < gs.len() ==> gs@[k] < 0x10000,
            acc as nat == groups_val(nats(gs@.take(i as int))),
            acc < pow_group(i as nat),
            pow_group(8) == 0x1_0000_0000_0000_0000_0000_0000_0000_0000nat,
        decreases gs.len() - i,
    {
        let g = gs[i];
        proof {
            lemma_pow_group_mono(i as nat + 1, 8);
            assert(nats(gs@.take(i + 1)).drop_last() =~= nats(gs@.take(i as int)));
            assert(acc * 0x10000 + g < pow_group(i as nat) * 0x10000) by (nonlinear_arith)
                requires
                    acc < pow_group(i as nat),
                    g < 0x10000,
            ;
        }
        acc = acc * 0x10000 + g as u128;
        i = i + 1;
    }
    assert(gs@.take(gs.len() as int) =~= gs@);
    acc
}

proof fn lemma_pow_group_mono(a: nat, b: nat)
    requires
        a <= b,
    ensures
        pow_group(a) <= pow_group(b),
    decreases b - a,
{
    if a < b {
        lemma_pow_group_mono(a, (b - 1) as nat);
    }
}

/// Reads an IPv6 address at the start of `s`.
fn ipv6_at(s: &Vec<char>) -> (r: Option<(u128, usize)>)
    ensures
        match read_ipv6(s@) {
            Some((v, p)) => r == Some((v as u128, p as usize)) && 0 <= p <= s.len(),
            None => r is None,
        },
{
    let (head, p1, v4) = groups_at(s, 0, 8);
    if head.len() == 8 {
        let v = groups_value(&head);
        return Some((v, p1));
    }
    if v4 {
        return None;
    }
    let q = match char_at(s, p1, ':') {
        Some(x) => x,
        None => return None,
    };
    let p2 = match char_at(s, q, ':') {
        Some(x) => x,
        None => return None,
    };
    let (tail, p3, _) = groups_at(s, p2, 7 - head.len());
    let mut all = head.clone();
    let zeros = 8 - head.len() - tail.len();
    let mut z: usize = 0;
    while z < zeros
        invariant
            z <= zeros,
            all@ == head@ + Seq::new(z as nat, |k: int| 0u32),
        decreases zeros - z,
    {
        all.push(0);
        z = z + 1;
        assert(all@ =~= head@ + Seq::new(z as nat, |k: int| 0u32));
    }
    let mut t: usize = 0;
    while t < tail.len()
        invariant
            t <= tail.len(),
            all@ == head@ + Seq::new(zeros as nat, |k: int| 0u32) + tail@.take(t as int),
        decreases tail.len() - t,
    {
        all.push(tail[t]);
        t = t + 1;
        assert(all@ =~= head@ + Seq::new(zeros as nat, |k: int| 0u32) + tail@.take(t as int));
    }
    assert(tail@.take(tail.len() as int) =~= tail@);
    assert(nats(all@) =~= nats(head@) + Seq::new(
        (8 - nats(head@).len() - nats(tail@).len()) as nat,
        |k: int| 0nat,
    ) + nats(tail@));
    let v = groups_value(&all);
    Some((v, p3))
}

/// `IpAddr::from_str` on the characters of `s`: `(is_v6, value)`.
pub fn parse_ip_text(s: &Vec<char>) -> (r: Option<(bool, u128)>)
    ensures
        match ip_text(s@) {
            Some((six, v)) => r == Some((six, v as u128)) && (!six ==> v < 0x1_0000_0000),
            None => r is None,
        },
{
    match ipv4_at(s, 0) {
        Some((v, p)) => {
            proof {
                let (sv, sp) = read_ipv4(s@, 0).unwrap();
                assert(v == sv as u32);
                assert(sv < 0x1_0000_0000);
                assert(v as u128 == sv as u128);
            }
            if p == s.len() {
                Some((false, v as u128))
            } else {
                None
            }
        },
        None => match ipv6_at(s) {
            Some((v, p)) => {
                proof {
                    assert(read_ipv4(s@, 0) is None);
                    let (sv, sp) = read_ipv6(s@).unwrap();
                    assert(v == sv as u128);
                    assert(p == sp);
                }
                if p == s.len() {
                    Some((true, v))
                } else {
                    None
                }
            },
            None => None,
        },
    }
}

} // verus!
