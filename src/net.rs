//! IP and socket addresses, read as the standard library reads their text.

use vstd::prelude::*;

verus! {

/// An IPv4 address, as its four octets.
#[derive(Debug, Clone, Copy, PartialEq, Eq, Structural)]
pub struct Ipv4Addr(pub u8, pub u8, pub u8, pub u8);

impl Ipv4Addr {
    /// The address `a.b.c.d`.
    pub fn new(a: u8, b: u8, c: u8, d: u8) -> (r: Self)
        ensures
            r == Ipv4Addr(a, b, c, d),
    {
        Ipv4Addr(a, b, c, d)
    }
}

/// An IPv6 address, as its eight 16-bit groups.
#[derive(Debug, Clone, Copy, PartialEq, Eq, Structural)]
pub struct Ipv6Addr(pub u16, pub u16, pub u16, pub u16, pub u16, pub u16, pub u16, pub u16);

impl Ipv6Addr {
    /// The address with groups `a:b:c:d:e:f:g:h`.
    pub fn new(a: u16, b: u16, c: u16, d: u16, e: u16, f: u16, g: u16, h: u16) -> (r: Self)
        ensures
            r == Ipv6Addr(a, b, c, d, e, f, g, h),
    {
        Ipv6Addr(a, b, c, d, e, f, g, h)
    }

    /// The address with the eight groups of `g`.
    pub open spec fn from_groups(g: Seq<u16>) -> Ipv6Addr {
        Ipv6Addr(g[0], g[1], g[2], g[3], g[4], g[5], g[6], g[7])
    }
}

/// An IP address of either version.
#[derive(Debug, Clone, Copy, PartialEq, Eq, Structural)]
pub enum IpAddr {
    V4(Ipv4Addr),
    V6(Ipv6Addr),
}

/// An IP address with a port; a version 6 one also has a scope id.
#[derive(Debug, Clone, Copy, PartialEq, Eq, Structural)]
pub enum SocketAddr {
    V4(Ipv4Addr, u16),
    V6(Ipv6Addr, u16, u32),
}

impl SocketAddr {
    /// The socket address of `ip` and `port`, with scope id 0.
    pub fn new(ip: IpAddr, port: u16) -> (r: Self)
        ensures
            r == (match ip {
                IpAddr::V4(a) => SocketAddr::V4(a, port),
                IpAddr::V6(a) => SocketAddr::V6(a, port, 0),
            }),
    {
        match ip {
            IpAddr::V4(a) => SocketAddr::V4(a, port),
            IpAddr::V6(a) => SocketAddr::V6(a, port, 0),
        }
    }
}

/// The value of `c` as a digit of base 10 or 16.
pub open spec fn digit_value(c: u8, radix: nat) -> Option<nat> {
    if 0x30 <= c <= 0x39 {
        Some((c - 0x30) as nat)
    } else if radix == 16 && 0x61 <= c <= 0x66 {
        Some((c - 0x61 + 10) as nat)
    } else if radix == 16 && 0x41 <= c <= 0x46 {
        Some((c - 0x41 + 10) as nat)
    } else {
        None
    }
}

/// Number of digits in a row from `pos` on.
pub open spec fn run_len(b: Seq<u8>, pos: int, radix: nat) -> nat
    decreases b.len() - pos,
{
    if 0 <= pos < b.len() && digit_value(b[pos], radix) is Some {
        1 + run_len(b, pos + 1, radix)
    } else {
        0
    }
}

/// The number that the `n` digits from `pos` on spell.
pub open spec fn run_value(b: Seq<u8>, pos: int, n: nat, radix: nat) -> nat
    decreases n,
{
    if n == 0 {
        0
    } else {
        run_value(b, pos, (n - 1) as nat, radix) * radix + match digit_value(
            b[pos + n - 1],
            radix,
        ) {
            Some(d) => d,
            None => 0,
        }
    }
}

/// Reads all digits in a row at `pos`: fails on no digit, on more than
/// `max_digits` digits (when that is not 0), on a value over `max`, and on a
/// leading zero before more digits unless `allow_zero` is set. Gives the value
/// and the position after the digits.
pub open spec fn read_number(
    b: Seq<u8>,
    pos: int,
    radix: nat,
    max_digits: nat,
    allow_zero: bool,
    max: nat,
) -> Option<(nat, int)> {
    let n = run_len(b, pos, radix);
    let v = run_value(b, pos, n, radix);
    if n == 0 || (max_digits > 0 && n > max_digits) || v > max || (!allow_zero && b[pos] == 0x30
        && n > 1) {
        None
    } else {
        Some((v, pos + n))
    }
}

/// Whether the byte at `pos` is `c`.
pub open spec fn at(b: Seq<u8>, pos: int, c: u8) -> bool {
    0 <= pos < b.len() && b[pos] == c
}

proof fn lemma_run_len_at_least(b: Seq<u8>, pos: int, k: int, radix: nat)
    requires
        0 <= pos,
        0 <= k,
        pos + k <= b.len(),
        forall|j: int| pos <= j < pos + k ==> digit_value(#[trigger] b[j], radix) is Some,
    ensures
        run_len(b, pos, radix) >= k,
        pos + k == b.len() || digit_value(b[pos + k], radix) is None ==> run_len(b, pos, radix)
            == k,
    decreases k,
{
    if k > 0 {
        lemma_run_len_at_least(b, pos + 1, k - 1, radix);
    }
}

proof fn lemma_run_value_monotone(b: Seq<u8>, pos: int, k: nat, n: nat, radix: nat)
    requires
        k <= n,
        radix >= 1,
    ensures
        run_value(b, pos, k, radix) <= run_value(b, pos, n, radix),
    decreases n,
{
    if k < n {
        lemma_run_value_monotone(b, pos, k, (n - 1) as nat, radix);
        let p = run_value(b, pos, (n - 1) as nat, radix);
        assert(p * radix >= p) by (nonlinear_arith)
            requires
                radix >= 1,
        ;
    }
}

fn digit_of(c: u8, radix: u64) -> (r: Option<u64>)
    ensures
        match r {
            Some(d) => digit_value(c, radix as nat) == Some(d as nat) && d < 16,
            None => digit_value(c, radix as nat) is None,
        },
{
    if 0x30 <= c && c <= 0x39 {
        Some((c - 0x30) as u64)
    } else if radix == 16 && 0x61 <= c && c <= 0x66 {
        Some((c - 0x61 + 10) as u64)
    } else if radix == 16 && 0x41 <= c && c <= 0x46 {
        Some((c - 0x41 + 10) as u64)
    } else {
        None
    }
}

fn read_number_at(
    b: &[u8],
    pos: usize,
    radix: u64,
    max_digits: usize,
    allow_zero: bool,
    max: u64,
) -> (r: Option<(u64, usize)>)
    requires
        pos <= b@.len(),
        radix == 10 || radix == 16,
        max <= u32::MAX,
    ensures
        match r {
            Some((v, p)) => read_number(
                b@,
                pos as int,
                radix as nat,
                max_digits as nat,
                allow_zero,
                max as nat,
            ) == Some((v as nat, p as int)) && p <= b@.len(),
            None => read_number(
                b@,
                pos as int,
                radix as nat,
                max_digits as nat,
                allow_zero,
                max as nat,
            ) is None,
        },
{
    let ghost r = radix as nat;
    let mut i = pos;
    let mut acc: u64 = 0;
    loop
        invariant
            pos <= i <= b@.len(),
            radix == 10 || radix == 16,
            r == radix as nat,
            max <= u32::MAX,
            forall|j: int| pos <= j < i ==> digit_value(#[trigger] b@[j], r) is Some,
            acc as nat == run_value(b@, pos as int, (i - pos) as nat, r),
            acc <= max,
            max_digits == 0 || i - pos <= max_digits,
        ensures
            i == b@.len() || digit_value(b@[i as int], r) is None,
        decreases b@.len() - i,
    {
        if i >= b.len() {
            break;
        }
        let d = match digit_of(b[i], radix) {
            Some(d) => d,
            None => break,
        };
        assert(acc * radix + d <= u32::MAX * 16 + 15) by (nonlinear_arith)
            requires
                acc <= u32::MAX,
                radix <= 16,
                d < 16,
        ;
        acc = acc * radix + d;
        i = i + 1;
        proof {
            lemma_run_len_at_least(b@, pos as int, (i - pos) as int, r);
        }
        if max_digits > 0 && i - pos > max_digits {
            return None;
        }
        if acc > max {
            proof {
                let n = run_len(b@, pos as int, r);
                lemma_run_value_monotone(b@, pos as int, (i - pos) as nat, n, r);
            }
            return None;
        }
    }
    proof {
        lemma_run_len_at_least(b@, pos as int, (i - pos) as int, r);
    }
    if i == pos {
        return None;
    }
    if !allow_zero && b[pos] == 0x30 && i - pos > 1 {
        return None;
    }
    Some((acc, i))
}

/// Reads a separator `sep` (not before the first item, `i == 0`) and then
/// a number.
pub open spec fn sep_number(
    b: Seq<u8>,
    pos: int,
    i: nat,
    sep: u8,
    radix: nat,
    max_digits: nat,
    allow_zero: bool,
    max: nat,
) -> Option<(nat, int)> {
    if i == 0 {
        read_number(b, pos, radix, max_digits, allow_zero, max)
    } else if at(b, pos, sep) {
        read_number(b, pos + 1, radix, max_digits, allow_zero, max)
    } else {
        None
    }
}

/// An octet of a dotted quad: up to three digits, no leading zero, at most 255.
pub open spec fn octet(b: Seq<u8>, pos: int, i: nat) -> Option<(nat, int)> {
    sep_number(b, pos, i, 0x2e, 10, 3, false, 255)
}

/// Reads an IPv4 address at `pos`, as four dotted octets.
pub open spec fn read_ipv4(b: Seq<u8>, pos: int) -> Option<(Ipv4Addr, int)> {
    match octet(b, pos, 0) {
        None => None,
        Some((o0, at1)) => match octet(b, at1, 1) {
            None => None,
            Some((o1, at2)) => match octet(b, at2, 2) {
                None => None,
                Some((o2, at3)) => match octet(b, at3, 3) {
                    None => None,
                    Some((o3, at4)) => Some((Ipv4Addr(o0 as u8, o1 as u8, o2 as u8, o3 as u8), at4)),
                },
            },
        },
    }
}

fn octet_at(b: &[u8], pos: usize, i: usize) -> (r: Option<(u8, usize)>)
    requires
        pos <= b@.len(),
    ensures
        match r {
            Some((v, p)) => octet(b@, pos as int, i as nat) == Some((v as nat, p as int)) && p
                <= b@.len(),
            None => octet(b@, pos as int, i as nat) is None,
        },
{
    let start = if i == 0 {
        pos
    } else if pos < b.len() && b[pos] == 0x2e {
        pos + 1
    } else {
        return None;
    };
    match read_number_at(b, start, 10, 3, false, 255) {
        Some((v, p)) => Some((v as u8, p)),
        None => None,
    }
}

fn read_ipv4_at(b: &[u8], pos: usize) -> (r: Option<(Ipv4Addr, usize)>)
    requires
        pos <= b@.len(),
    ensures
        match r {
            Some((a, p)) => read_ipv4(b@, pos as int) == Some((a, p as int)) && p <= b@.len(),
            None => read_ipv4(b@, pos as int) is None,
        },
{
    let (o0, at1) = match octet_at(b, pos, 0) {
        Some(x) => x,
        None => return None,
    };
    let (o1, at2) = match octet_at(b, at1, 1) {
        Some(x) => x,
        None => return None,
    };
    let (o2, at3) = match octet_at(b, at2, 2) {
        Some(x) => x,
        None => return None,
    };
    let (o3, at4) = match octet_at(b, at3, 3) {
        Some(x) => x,
        None => return None,
    };
    Some((Ipv4Addr(o0, o1, o2, o3), at4))
}

/// Reads a separator `:` (not before the first group, `i == 0`) and then an
/// IPv4 address.
pub open spec fn sep_ipv4(b: Seq<u8>, pos: int, i: nat) -> Option<(Ipv4Addr, int)> {
    if i == 0 {
        read_ipv4(b, pos)
    } else if at(b, pos, 0x3a) {
        read_ipv4(b, pos + 1)
    } else {
        None
    }
}

/// A group of an IPv6 address: up to four hex digits.
pub open spec fn group(b: Seq<u8>, pos: int, i: nat) -> Option<(nat, int)> {
    sep_number(b, pos, i, 0x3a, 16, 4, true, 0xffff)
}

/// The two groups that an embedded IPv4 address stands for.
pub open spec fn ipv4_groups(a: Ipv4Addr) -> Seq<u16> {
    seq![(a.0 as nat * 256 + a.1 as nat) as u16, (a.2 as nat * 256 + a.3 as nat) as u16]
}

/// Reads groups `i` to `limit - 1` of an IPv6 address, stopping at the first
/// that is missing; an IPv4 address may stand for the last two groups. Gives
/// the groups, the position after them, and whether an IPv4 address ended them.
pub open spec fn read_groups(b: Seq<u8>, pos: int, i: nat, limit: nat) -> (Seq<u16>, int, bool)
    decreases limit - i,
{
    if i >= limit {
        (seq![], pos, false)
    } else {
        match (if i + 1 < limit {
            sep_ipv4(b, pos, i)
        } else {
            None
        }) {
            Some((a, p)) => (ipv4_groups(a), p, true),
            None => match group(b, pos, i) {
                Some((g, p)) => {
                    let rest = read_groups(b, p, i + 1, limit);
                    (seq![g as u16] + rest.0, rest.1, rest.2)
                },
                None => (seq![], pos, false),
            },
        }
    }
}

/// Reads an IPv6 address at `pos`: eight groups, or fewer with one `::`
/// that stands for the missing groups as zeros.
pub open spec fn read_ipv6(b: Seq<u8>, pos: int) -> Option<(Seq<u16>, int)> {
    let h = read_groups(b, pos, 0, 8);
    if h.0.len() == 8 {
        Some((h.0, h.1))
    } else if h.2 {
        None
    } else if at(b, h.1, 0x3a) && at(b, h.1 + 1, 0x3a) {
        let t = read_groups(b, h.1 + 2, 0, (7 - h.0.len()) as nat);
        Some((h.0 + Seq::new((8 - h.0.len() - t.0.len()) as nat, |k: int| 0u16) + t.0, t.1))
    } else {
        None
    }
}

/// The IP address that `b` spells in full, as `str::parse::<IpAddr>` reads it:
/// a dotted quad, else an IPv6 address.
pub open spec fn parse_ip(b: Seq<u8>) -> Option<IpAddr> {
    match read_ipv4(b, 0) {
        Some((a, p)) => if p == b.len() {
            Some(IpAddr::V4(a))
        } else {
            None
        },
        None => match read_ipv6(b, 0) {
            Some((g, p)) => if p == b.len() {
                Some(IpAddr::V6(Ipv6Addr::from_groups(g)))
            } else {
                None
            },
            None => None,
        },
    }
}

/// Reads `:` and a port number.
pub open spec fn read_port(b: Seq<u8>, pos: int) -> Option<(nat, int)> {
    if at(b, pos, 0x3a) {
        read_number(b, pos + 1, 10, 0, true, 0xffff)
    } else {
        None
    }
}

/// Reads an IPv4 address and a port.
pub open spec fn read_socket_v4(b: Seq<u8>, pos: int) -> Option<(SocketAddr, int)> {
    match read_ipv4(b, pos) {
        Some((a, p)) => match read_port(b, p) {
            Some((port, at2)) => Some((SocketAddr::V4(a, port as u16), at2)),
            None => None,
        },
        None => None,
    }
}

/// Reads an optional `%` and scope id; 0 when there is none.
pub open spec fn read_scope(b: Seq<u8>, pos: int) -> (nat, int) {
    if at(b, pos, 0x25) {
        match read_number(b, pos + 1, 10, 0, true, 0xffff_ffff) {
            Some((s, p)) => (s, p),
            None => (0, pos),
        }
    } else {
        (0, pos)
    }
}

/// Reads `[`, an IPv6 address, an optional scope id, `]` and a port.
pub open spec fn read_socket_v6(b: Seq<u8>, pos: int) -> Option<(SocketAddr, int)> {
    if !at(b, pos, 0x5b) {
        None
    } else {
        match read_ipv6(b, pos + 1) {
            None => None,
            Some((g, p)) => {
                let sc = read_scope(b, p);
                if !at(b, sc.1, 0x5d) {
                    None
                } else {
                    match read_port(b, sc.1 + 1) {
                        Some((port, at3)) => Some(
                            (SocketAddr::V6(Ipv6Addr::from_groups(g), port as u16, sc.0 as u32), at3),
                        ),
                        None => None,
                    }
                }
            },
        }
    }
}

/// The socket address that `b` spells in full, as
/// `str::parse::<SocketAddr>` reads it.
pub open spec fn parse_socket(b: Seq<u8>) -> Option<SocketAddr> {
    match read_socket_v4(b, 0) {
        Some((s, p)) => if p == b.len() {
            Some(s)
        } else {
            None
        },
        None => match read_socket_v6(b, 0) {
            Some((s, p)) => if p == b.len() {
                Some(s)
            } else {
                None
            },
            None => None,
        },
    }
}

fn sep_ipv4_at(b: &[u8], pos: usize, i: usize) -> (r: Option<(Ipv4Addr, usize)>)
    requires
        pos <= b@.len(),
    ensures
        match r {
            Some((a, p)) => sep_ipv4(b@, pos as int, i as nat) == Some((a, p as int)) && p
                <= b@.len(),
            None => sep_ipv4(b@, pos as int, i as nat) is None,
        },
{
    if i == 0 {
        read_ipv4_at(b, pos)
    } else if pos < b.len() && b[pos] == 0x3a {
        read_ipv4_at(b, pos + 1)
    } else {
        None
    }
}

fn group_at(b: &[u8], pos: usize, i: usize) -> (r: Option<(u16, usize)>)
    requires
        pos <= b@.len(),
    ensures
        match r {
            Some((v, p)) => group(b@, pos as int, i as nat) == Some((v as nat, p as int)) && p
                <= b@.len(),
            None => group(b@, pos as int, i as nat) is None,
        },
{
    let start = if i == 0 {
        pos
    } else if pos < b.len() && b[pos] == 0x3a {
        pos + 1
    } else {
        return None;
    };
    match read_number_at(b, start, 16, 4, true, 0xffff) {
        Some((v, p)) => Some((v as u16, p)),
        None => None,
    }
}

proof fn lemma_read_groups_len(b: Seq<u8>, pos: int, i: nat, limit: nat)
    ensures
        read_groups(b, pos, i, limit).0.len() <= if i <= limit {
            limit - i
        } else {
            0
        },
    decreases limit - i,
{
    if i < limit {
        match group(b, pos, i) {
            Some((g, p)) => lemma_read_groups_len(b, p, i + 1, limit),
            None => {},
        }
    }
}

fn read_groups_at(b: &[u8], pos: usize, i: usize, limit: usize) -> (r: (Vec<u16>, usize, bool))
    requires
        pos <= b@.len(),
        i <= limit <= 8,
    ensures
        (r.0@, r.1 as int, r.2) == read_groups(b@, pos as int, i as nat, limit as nat),
        r.1 <= b@.len(),
    decreases limit - i,
{
    if i >= limit {
        return (Vec::new(), pos, false);
    }
    if i + 1 < limit {
        if let Some((a, p)) = sep_ipv4_at(b, pos, i) {
            let mut v = Vec::new();
            v.push((a.0 as u16) * 256 + a.1 as u16);
            v.push((a.2 as u16) * 256 + a.3 as u16);
            assert(v@ =~= ipv4_groups(a));
            return (v, p, true);
        }
    }
    match group_at(b, pos, i) {
        Some((g, p)) => {
            let (mut rest, at2, f) = read_groups_at(b, p, i + 1, limit);
            rest.insert(0, g);
            (rest, at2, f)
        },
        None => (Vec::new(), pos, false),
    }
}

fn read_ipv6_at(b: &[u8], pos: usize) -> (r: Option<(Ipv6Addr, usize)>)
    requires
        pos <= b@.len(),
    ensures
        match r {
            Some((a, p)) => exists|g: Seq<u16>|
                read_ipv6(b@, pos as int) == Some((g, p as int)) && g.len() == 8
                    && a == Ipv6Addr::from_groups(g),
            None => read_ipv6(b@, pos as int) is None,
        },
        r matches Some((a, p)) ==> p <= b@.len(),
{
    let (head, p, v4) = read_groups_at(b, pos, 0, 8);
    proof {
        lemma_read_groups_len(b@, pos as int, 0, 8);
    }
    let g: Vec<u16>;
    let end: usize;
    if head.len() == 8 {
        g = head;
        end = p;
    } else if v4 {
        return None;
    } else if p < b.len() && p + 1 < b.len() && b[p] == 0x3a && b[p + 1] == 0x3a {
        let (tail, at2) = {
            let (t, at2, _) = read_groups_at(b, p + 2, 0, 7 - head.len());
            (t, at2)
        };
        proof {
            lemma_read_groups_len(b@, p + 2, 0, (7 - head.len()) as nat);
        }
        let ghost zeros = Seq::new((8 - head@.len() - tail@.len()) as nat, |k: int| 0u16);
        let mut all = head;
        let n = 8 - all.len() - tail.len();
        let mut k: usize = 0;
        let ghost h0 = all@;
        while k < n
            invariant
                k <= n,
                all@ == h0 + Seq::new(k as nat, |j: int| 0u16),
            decreases n - k,
        {
            all.push(0);
            k = k + 1;
            assert(all@ =~= h0 + Seq::new(k as nat, |j: int| 0u16));
        }
        let mut j: usize = 0;
        let ghost h1 = all@;
        while j < tail.len()
            invariant
                j <= tail@.len(),
                all@ == h1 + tail@.subrange(0, j as int),
            decreases tail@.len() - j,
        {
            all.push(tail[j]);
            j = j + 1;
            assert(all@ =~= h1 + tail@.subrange(0, j as int));
        }
        assert(tail@.subrange(0, tail@.len() as int) =~= tail@);
        assert(h1 =~= h0 + zeros);
        g = all;
        end = at2;
    } else {
        return None;
    }
    Some((Ipv6Addr(g[0], g[1], g[2], g[3], g[4], g[5], g[6], g[7]), end))
}

/// Reads a whole IP address, as `str::parse::<IpAddr>` does.
pub fn parse_ip_addr(b: &[u8]) -> (r: Option<IpAddr>)
    ensures
        r == parse_ip(b@),
{
    match read_ipv4_at(b, 0) {
        Some((a, p)) => if p == b.len() {
            Some(IpAddr::V4(a))
        } else {
            None
        },
        None => match read_ipv6_at(b, 0) {
            Some((a, p)) => if p == b.len() {
                Some(IpAddr::V6(a))
            } else {
                None
            },
            None => None,
        },
    }
}

fn read_port_at(b: &[u8], pos: usize) -> (r: Option<(u16, usize)>)
    requires
        pos <= b@.len(),
    ensures
        match r {
            Some((v, p)) => read_port(b@, pos as int) == Some((v as nat, p as int)) && p
                <= b@.len(),
            None => read_port(b@, pos as int) is None,
        },
{
    if pos < b.len() && b[pos] == 0x3a {
        match read_number_at(b, pos + 1, 10, 0, true, 0xffff) {
            Some((v, p)) => Some((v as u16, p)),
            None => None,
        }
    } else {
        None
    }
}

fn read_socket_v4_at(b: &[u8], pos: usize) -> (r: Option<(SocketAddr, usize)>)
    requires
        pos <= b@.len(),
    ensures
        match r {
            Some((s, p)) => read_socket_v4(b@, pos as int) == Some((s, p as int)),
            None => read_socket_v4(b@, pos as int) is None,
        },
{
    let (a, p) = match read_ipv4_at(b, pos) {
        Some(x) => x,
        None => return None,
    };
    match read_port_at(b, p) {
        Some((port, at2)) => Some((SocketAddr::V4(a, port), at2)),
        None => None,
    }
}

fn read_socket_v6_at(b: &[u8], pos: usize) -> (r: Option<(SocketAddr, usize)>)
    requires
        pos <= b@.len(),
    ensures
        match r {
            Some((s, p)) => read_socket_v6(b@, pos as int) == Some((s, p as int)),
            None => read_socket_v6(b@, pos as int) is None,
        },
{
    if !(pos < b.len() && b[pos] == 0x5b) {
        return None;
    }
    let (a, p) = match read_ipv6_at(b, pos + 1) {
        Some(x) => x,
        None => return None,
    };
    let (scope, at2) = if p < b.len() && b[p] == 0x25 {
        match read_number_at(b, p + 1, 10, 0, true, 0xffff_ffff) {
            Some((s, q)) => (s as u32, q),
            None => (0, p),
        }
    } else {
        (0, p)
    };
    if !(at2 < b.len() && b[at2] == 0x5d) {
        return None;
    }
    match read_port_at(b, at2 + 1) {
        Some((port, at3)) => Some((SocketAddr::V6(a, port, scope), at3)),
        None => None,
    }
}

/// Reads a whole socket address, as `str::parse::<SocketAddr>` does.
pub fn parse_socket_addr(b: &[u8]) -> (r: Option<SocketAddr>)
    ensures
        r == parse_socket(b@),
{
    match read_socket_v4_at(b, 0) {
        Some((s, p)) => if p == b.len() {
            Some(s)
        } else {
            None
        },
        None => match read_socket_v6_at(b, 0) {
            Some((s, p)) => if p == b.len() {
                Some(s)
            } else {
                None
            },
            None => None,
        },
    }
}

} // verus!
