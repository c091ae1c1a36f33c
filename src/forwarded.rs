//! The addresses of the `x-forwarded-for` field.

use crate::net::{parse_ip, parse_ip_addr, parse_socket, parse_socket_addr, IpAddr, Ipv4Addr, SocketAddr};
use crate::num::{parse_decimal, parse_unsigned};
use crate::shared::{first_index, first_index_in, lemma_first_index_bounds, segments, split_around};
use vstd::prelude::*;
use vstd::string::StringSliceAdditionalSpecFns;
use vstd::utf8::{decode_utf8, encode_utf8};

verus! {

broadcast use vstd::slice::group_slice_axioms;

/// A character of Unicode's White_Space property.
pub open spec fn is_white_space(c: char) -> bool {
    let u = c as u32;
    (0x09 <= u <= 0x0d) || u == 0x20 || u == 0x85 || u == 0xa0 || u == 0x1680 || (0x2000 <= u
        <= 0x200a) || u == 0x2028 || u == 0x2029 || u == 0x202f || u == 0x205f || u == 0x3000
}

/// `s` without its leading white space.
pub open spec fn trim_start(s: Seq<char>) -> Seq<char>
    decreases s.len(),
{
    if s.len() > 0 && is_white_space(s[0]) {
        trim_start(s.drop_first())
    } else {
        s
    }
}

/// `s` without its trailing white space.
pub open spec fn trim_end(s: Seq<char>) -> Seq<char>
    decreases s.len(),
{
    if s.len() > 0 && is_white_space(s.last()) {
        trim_end(s.drop_last())
    } else {
        s
    }
}

/// `s` without leading and trailing white space.
pub open spec fn trim(s: Seq<char>) -> Seq<char> {
    trim_end(trim_start(s))
}

/// Relies on `str::trim`: the text without its leading and trailing
/// White_Space characters.
#[verifier::external_body]
fn trim_white_space(s: &str) -> (r: &str)
    ensures
        r@ == trim(s@),
{
    s.trim()
}

/// The escaped space `\x20`, as four bytes.
pub open spec fn escaped_space() -> Seq<u8> {
    seq![0x5cu8, 0x78, 0x32, 0x30]
}

/// `b` without a leading escaped space, if it has one.
pub open spec fn strip_escaped_space(b: Seq<u8>) -> Seq<u8> {
    if b.len() >= 4 && b.subrange(0, 4) == escaped_space() {
        b.subrange(4, b.len() as int)
    } else {
        b
    }
}

/// An item of the list as it is classified: trimmed, without an escaped
/// space in front.
pub open spec fn item_text(seg: Seq<u8>) -> Seq<u8> {
    strip_escaped_space(encode_utf8(trim(decode_utf8(seg))))
}

/// The text `unknown`, as bytes.
pub open spec fn unknown_text() -> Seq<u8> {
    seq![0x75u8, 0x6e, 0x6b, 0x6e, 0x6f, 0x77, 0x6e]
}

/// The four pieces of `b` around its first three dots, the last piece
/// holding the rest; `None` when `b` has fewer than three dots.
pub open spec fn split_four(b: Seq<u8>) -> Option<Seq<Seq<u8>>> {
    let t1 = first_index(b, 0x2e);
    let r1 = b.subrange(t1 + 1 as int, b.len() as int);
    let t2 = first_index(r1, 0x2e);
    let r2 = r1.subrange(t2 + 1 as int, r1.len() as int);
    let t3 = first_index(r2, 0x2e);
    let r3 = r2.subrange(t3 + 1 as int, r2.len() as int);
    if t1 < b.len() && t2 < r1.len() && t3 < r2.len() {
        Some(seq![b.subrange(0, t1 as int), r1.subrange(0, t2 as int), r2.subrange(0, t3 as int), r3])
    } else {
        None
    }
}

/// A dotted quad with leading zeros, such as `0123.045.067.089`: it starts
/// with `0`, and its four pieces each read as a `u8`.
pub open spec fn leading_zero_quad(b: Seq<u8>) -> Option<Ipv4Addr> {
    if b.len() > 0 && b[0] == 0x30 {
        match split_four(b) {
            Some(p) => if parse_unsigned(p[0], 255) is Some && parse_unsigned(p[1], 255) is Some
                && parse_unsigned(p[2], 255) is Some && parse_unsigned(p[3], 255) is Some {
                Some(
                    Ipv4Addr(
                        parse_unsigned(p[0], 255)->0 as u8,
                        parse_unsigned(p[1], 255)->0 as u8,
                        parse_unsigned(p[2], 255)->0 as u8,
                        parse_unsigned(p[3], 255)->0 as u8,
                    ),
                )
            } else {
                None
            },
            None => None,
        }
    } else {
        None
    }
}

/// An item of an `x-forwarded-for` list.
#[derive(Debug, Clone, Copy, PartialEq, Eq, Structural)]
pub enum Addressable {
    IpAddr(IpAddr),
    Socket(SocketAddr),
    Unknown,
}

/// How an item reads, tried in this order: the text `unknown`; an IP
/// address; a dotted quad with leading zeros; a socket address.
#[verifier::opaque]
pub open spec fn classify(b: Seq<u8>) -> Option<Addressable> {
    if b == unknown_text() {
        Some(Addressable::Unknown)
    } else if parse_ip(b) is Some {
        Some(Addressable::IpAddr(parse_ip(b)->0))
    } else if leading_zero_quad(b) is Some {
        Some(Addressable::IpAddr(IpAddr::V4(leading_zero_quad(b)->0)))
    } else if parse_socket(b) is Some {
        Some(Addressable::Socket(parse_socket(b)->0))
    } else {
        None
    }
}

/// The addresses of a whole `x-forwarded-for` field: the items between
/// commas, each classified; `None` when one of them does not read.
pub open spec fn forwarded_for(b: Seq<u8>) -> Option<Seq<Addressable>> {
    let segs = segments(b, 0x2c);
    if forall|i: int| 0 <= i < segs.len() ==> (#[trigger] classify(item_text(segs[i]))) is Some {
        Some(Seq::new(segs.len(), |i: int| classify(item_text(segs[i]))->0))
    } else {
        None
    }
}

fn is_unknown(b: &[u8]) -> (r: bool)
    ensures
        r == (b@ == unknown_text()),
{
    let r = b.len() == 7 && b[0] == 0x75 && b[1] == 0x6e && b[2] == 0x6b && b[3] == 0x6e && b[4]
        == 0x6f && b[5] == 0x77 && b[6] == 0x6e;
    proof {
        if r {
            assert(b@ =~= unknown_text());
        }
    }
    r
}

/// Splits off the text before the first dot; `None` without a dot.
fn split_dot<'a>(s: &'a str) -> (r: Option<(&'a str, &'a str)>)
    ensures
        match r {
            Some((h, t)) => {
                let i = first_index(s.spec_bytes(), 0x2e);
                &&& i < s.spec_bytes().len()
                &&& h.spec_bytes() == s.spec_bytes().subrange(0, i as int)
                &&& t.spec_bytes() == s.spec_bytes().subrange(i + 1 as int, s.spec_bytes().len() as int)
            },
            None => first_index(s.spec_bytes(), 0x2e) >= s.spec_bytes().len(),
        },
{
    let i = first_index_in(s, 0x2e);
    proof {
        lemma_first_index_bounds(s.spec_bytes(), 0x2e);
    }
    if i < s.as_bytes().len() {
        Some(split_around(s, i))
    } else {
        None
    }
}

fn read_leading_zero_quad(s: &str) -> (r: Option<Ipv4Addr>)
    ensures
        r == leading_zero_quad(s.spec_bytes()),
{
    let b = s.as_bytes();
    if !(b.len() > 0 && b[0] == 0x30) {
        return None;
    }
    let (part0, r1) = match split_dot(s) {
        Some(x) => x,
        None => return None,
    };
    let (part1, r2) = match split_dot(r1) {
        Some(x) => x,
        None => return None,
    };
    let (part2, part3) = match split_dot(r2) {
        Some(x) => x,
        None => return None,
    };
    let ghost pieces = seq![part0.spec_bytes(), part1.spec_bytes(), part2.spec_bytes(), part3.spec_bytes()];
    assert(split_four(s.spec_bytes()) == Some(pieces));
    let o0 = parse_decimal(part0.as_bytes(), 255);
    let o1 = parse_decimal(part1.as_bytes(), 255);
    let o2 = parse_decimal(part2.as_bytes(), 255);
    let o3 = parse_decimal(part3.as_bytes(), 255);
    match (o0, o1, o2, o3) {
        (Some(a), Some(b), Some(c), Some(d)) => Some(
            Ipv4Addr(a as u8, b as u8, c as u8, d as u8),
        ),
        _ => None,
    }
}

impl Addressable {
    /// Reads an item of an `x-forwarded-for` list, as [`classify`] says.
    pub fn parse(input: &str) -> (r: Result<Self, &'static str>)
        ensures
            match r {
                Ok(a) => classify(input.spec_bytes()) == Some(a),
                Err(e) => classify(input.spec_bytes()) is None && e == "invalid X-Forwarded-For IP/socket address",
            },
    {
        reveal(classify);
        let b = input.as_bytes();
        if is_unknown(b) {
            return Ok(Addressable::Unknown);
        }
        if let Some(ip) = parse_ip_addr(b) {
            return Ok(Addressable::IpAddr(ip));
        }
        if let Some(a) = read_leading_zero_quad(input) {
            return Ok(Addressable::IpAddr(IpAddr::V4(a)));
        }
        match parse_socket_addr(b) {
            Some(s) => Ok(Addressable::Socket(s)),
            None => Err("invalid X-Forwarded-For IP/socket address"),
        }
    }
}

impl<'a> TryFrom<&'a str> for Addressable {
    type Error = &'static str;

    /// Same as [`Addressable::parse`].
    fn try_from(input: &'a str) -> (r: Result<Self, &'static str>)
        ensures
            match r {
                Ok(a) => classify(input.spec_bytes()) == Some(a),
                Err(e) => classify(input.spec_bytes()) is None && e == "invalid X-Forwarded-For IP/socket address",
            },
    {
        Self::parse(input)
    }
}

impl<'a> vstd::std_specs::convert::TryFromSpecImpl<&'a str> for Addressable {
    open spec fn obeys_try_from_spec() -> bool {
        false
    }

    open spec fn try_from_spec(input: &'a str) -> Result<Self, &'static str> {
        Err("")
    }
}

impl core::str::FromStr for Addressable {
    type Err = &'static str;

    /// Same as [`Addressable::parse`].
    fn from_str(input: &str) -> (r: Result<Self, &'static str>)
        ensures
            match r {
                Ok(a) => classify(input.spec_bytes()) == Some(a),
                Err(e) => classify(input.spec_bytes()) is None && e == "invalid X-Forwarded-For IP/socket address",
            },
    {
        Self::parse(input)
    }
}

impl From<IpAddr> for Addressable {
    fn from(ip: IpAddr) -> (r: Self) {
        Addressable::IpAddr(ip)
    }
}

impl vstd::std_specs::convert::FromSpecImpl<IpAddr> for Addressable {
    open spec fn obeys_from_spec() -> bool {
        true
    }

    open spec fn from_spec(ip: IpAddr) -> Self {
        Addressable::IpAddr(ip)
    }
}

impl From<SocketAddr> for Addressable {
    fn from(socket: SocketAddr) -> (r: Self) {
        Addressable::Socket(socket)
    }
}

impl vstd::std_specs::convert::FromSpecImpl<SocketAddr> for Addressable {
    open spec fn obeys_from_spec() -> bool {
        true
    }

    open spec fn from_spec(socket: SocketAddr) -> Self {
        Addressable::Socket(socket)
    }
}

/// The addresses of an `x-forwarded-for` field, in the order they stand.
#[derive(Debug, Clone, PartialEq)]
pub struct ForwardedForAddrs(pub Vec<Addressable>);

/// Removes a leading escaped space `\x20` from the text, if there is one.
fn strip_escape<'a>(s: &'a str) -> (r: &'a str)
    ensures
        r.spec_bytes() == strip_escaped_space(s.spec_bytes()),
{
    let b = s.as_bytes();
    if b.len() >= 4 && b[0] == 0x5c && b[1] == 0x78 && b[2] == 0x32 && b[3] == 0x30 {
        assert(b@.subrange(0, 4) =~= escaped_space());
        let (_head, rest) = split_around(s, 3);
        rest
    } else {
        proof {
            if b@.len() >= 4 && b@.subrange(0, 4) == escaped_space() {
                assert(b@[0] == b@.subrange(0, 4)[0]);
                assert(b@[1] == b@.subrange(0, 4)[1]);
                assert(b@[2] == b@.subrange(0, 4)[2]);
                assert(b@[3] == b@.subrange(0, 4)[3]);
            }
        }
        s
    }
}

impl ForwardedForAddrs {
    /// Reads a whole `x-forwarded-for` field: the items between commas are
    /// trimmed, lose a leading `\x20`, and are read with
    /// [`Addressable::parse`]. One item that does not read fails the field.
    pub fn parse(input: &str) -> (r: Result<Self, &'static str>)
        ensures
            match r {
                Ok(a) => forwarded_for(input.spec_bytes()) == Some(a.0@),
                Err(e) => forwarded_for(input.spec_bytes()) is None && e == "invalid X-Forwarded-For IP(s)",
            },
    {
        let ghost segs = segments(input.spec_bytes(), 0x2c);
        let mut rest = input;
        let mut done = false;
        let mut v: Vec<Addressable> = Vec::new();
        while !done
            invariant
                segs == segments(input.spec_bytes(), 0x2c),
                !done ==> segs.skip(v.len() as int) == segments(rest.spec_bytes(), 0x2c),
                done ==> v.len() == segs.len(),
                v.len() <= segs.len(),
                forall|i: int| 0 <= i < v.len() ==> classify(item_text(#[trigger] segs[i])) == Some(v@[i]),
            decreases rest.spec_bytes().len() + if done { 0int } else { 1int },
        {
            let ghost k = v.len() as int;
            let ghost rb = rest.spec_bytes();
            let t = first_index_in(rest, 0x2c);
            proof {
                reveal(segments);
                lemma_first_index_bounds(rb, 0x2c);
                crate::shared::lemma_segments_len(rb, 0x2c);
                assert(segs.skip(k)[0] == segs[k]);
            }
            let seg: &str;
            let next: &str;
            let last: bool;
            if t < rest.as_bytes().len() {
                let (a, b) = split_around(rest, t);
                seg = a;
                next = b;
                last = false;
                proof {
                    assert(segs.skip(k).drop_first() =~= segs.skip(k + 1));
                }
            } else {
                seg = rest;
                next = rest;
                last = true;
                proof {
                    assert(segs.skip(k).len() == 1);
                }
            }
            assert(seg.spec_bytes() == segs[k]);
            let item = strip_escape(trim_white_space(seg));
            proof {
                vstd::utf8::encode_utf8_decode_utf8(seg@);
                assert(item.spec_bytes() == item_text(segs[k]));
            }
            match Addressable::parse(item) {
                Ok(a) => v.push(a),
                Err(_) => return Err("invalid X-Forwarded-For IP(s)"),
            }
            rest = next;
            done = last;
        }
        assert(v@ =~= Seq::new(segs.len(), |i: int| classify(item_text(segs[i]))->0));
        Ok(ForwardedForAddrs(v))
    }
}

impl<'a> TryFrom<&'a str> for ForwardedForAddrs {
    type Error = &'static str;

    /// Same as [`ForwardedForAddrs::parse`].
    fn try_from(input: &'a str) -> (r: Result<Self, &'static str>)
        ensures
            match r {
                Ok(a) => forwarded_for(input.spec_bytes()) == Some(a.0@),
                Err(e) => forwarded_for(input.spec_bytes()) is None && e == "invalid X-Forwarded-For IP(s)",
            },
    {
        Self::parse(input)
    }
}

impl core::str::FromStr for ForwardedForAddrs {
    type Err = &'static str;

    /// Same as [`ForwardedForAddrs::parse`].
    fn from_str(input: &str) -> (r: Result<Self, &'static str>)
        ensures
            match r {
                Ok(a) => forwarded_for(input.spec_bytes()) == Some(a.0@),
                Err(e) => forwarded_for(input.spec_bytes()) is None && e == "invalid X-Forwarded-For IP(s)",
            },
    {
        Self::parse(input)
    }
}

impl<'a> vstd::std_specs::convert::TryFromSpecImpl<&'a str> for ForwardedForAddrs {
    open spec fn obeys_try_from_spec() -> bool {
        false
    }

    open spec fn try_from_spec(input: &'a str) -> Result<Self, &'static str> {
        Err("")
    }
}

} // verus!
