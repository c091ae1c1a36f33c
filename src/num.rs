use vstd::prelude::*;
use vstd::string::StringSliceAdditionalSpecFns;

verus! {

/// A byte that is an ASCII decimal digit.
pub open spec fn is_digit(c: u8) -> bool {
    0x30 <= c <= 0x39
}

/// Every byte is a decimal digit.
pub open spec fn all_digits(b: Seq<u8>) -> bool {
    forall|i: int| 0 <= i < b.len() ==> is_digit(#[trigger] b[i])
}

/// The number that decimal digits `b` spell, most significant first.
pub open spec fn digits_value(b: Seq<u8>) -> nat
    decreases b.len(),
{
    if b.len() == 0 {
        0
    } else {
        digits_value(b.drop_last()) * 10 + (b.last() - 0x30) as nat
    }
}

/// The digits of an unsigned number: without a leading `+`, if there is one.
pub open spec fn unsigned_digits(b: Seq<u8>) -> Seq<u8> {
    if b.len() > 0 && b[0] == 0x2b {
        b.drop_first()
    } else {
        b
    }
}

/// An unsigned decimal number with an optional leading `+`, at most `max`,
/// as Rust's standard integer parsing reads it.
pub open spec fn parse_unsigned(b: Seq<u8>, max: nat) -> Option<nat> {
    let d = unsigned_digits(b);
    if d.len() > 0 && all_digits(d) && digits_value(d) <= max {
        Some(digits_value(d))
    } else {
        None
    }
}

proof fn lemma_digits_value_prefix(d: Seq<u8>, k: int)
    requires
        0 <= k <= d.len(),
        all_digits(d),
    ensures
        digits_value(d.subrange(0, k)) <= digits_value(d),
    decreases d.len() - k,
{
    if k < d.len() {
        lemma_digits_value_prefix(d, k + 1);
        assert(d.subrange(0, k + 1).drop_last() =~= d.subrange(0, k));
    } else {
        assert(d.subrange(0, k) =~= d);
    }
}

/// Reads an unsigned decimal number of at most `max`.
pub fn parse_decimal(b: &[u8], max: u64) -> (r: Option<u64>)
    ensures
        match r {
            Some(v) => parse_unsigned(b@, max as nat) == Some(v as nat),
            None => parse_unsigned(b@, max as nat) is None,
        },
{
    let n = b.len();
    let start: usize = if n > 0 && b[0] == 0x2b { 1 } else { 0 };
    let ghost d = unsigned_digits(b@);
    assert(d =~= b@.subrange(start as int, n as int));
    if start >= n {
        return None;
    }
    let mut acc: u128 = 0;
    let mut i: usize = start;
    while i < n
        invariant
            start <= i <= n,
            n == b@.len(),
            d == b@.subrange(start as int, n as int),
            d == unsigned_digits(b@),
            d.len() > 0,
            all_digits(d.subrange(0, i - start)),
            acc as nat == digits_value(d.subrange(0, i - start)),
            acc <= max,
        decreases n - i,
    {
        let c = b[i];
        assert(d[i - start] == c);
        if c < 0x30 || c > 0x39 {
            assert(!is_digit(d[i - start]));
            return None;
        }
        let ghost p = d.subrange(0, i - start);
        let ghost q = d.subrange(0, i + 1 - start);
        assert(q.drop_last() =~= p);
        assert(q.last() == c);
        acc = acc * 10 + (c - 0x30) as u128;
        assert(acc as nat == digits_value(q));
        if acc > max as u128 {
            proof {
                if all_digits(d) {
                    lemma_digits_value_prefix(d, i + 1 - start);
                }
            }
            return None;
        }
        assert(all_digits(q)) by {
            assert forall|j: int| 0 <= j < q.len() implies is_digit(#[trigger] q[j]) by {
                if j < p.len() {
                    assert(q[j] == p[j]);
                }
            }
        }
        i = i + 1;
    }
    assert(d.subrange(0, n - start) =~= d);
    Some(acc as u64)
}

/// Reads a `u64` as `str::parse::<u64>` does.
pub fn parse_u64(s: &str) -> (r: Option<u64>)
    ensures
        match r {
            Some(v) => parse_unsigned(s.spec_bytes(), u64::MAX as nat) == Some(v as nat),
            None => parse_unsigned(s.spec_bytes(), u64::MAX as nat) is None,
        },
{
    parse_decimal(s.as_bytes(), u64::MAX)
}

/// Reads a `u16` as `str::parse::<u16>` does.
pub fn parse_u16(s: &str) -> (r: Option<u16>)
    ensures
        match r {
            Some(v) => parse_unsigned(s.spec_bytes(), u16::MAX as nat) == Some(v as nat),
            None => parse_unsigned(s.spec_bytes(), u16::MAX as nat) is None,
        },
{
    match parse_decimal(s.as_bytes(), u16::MAX as u64) {
        Some(v) => Some(v as u16),
        None => None,
    }
}

} // verus!

verus! {

/// A span of time, in whole seconds and nanoseconds.
#[derive(Debug, Clone, Copy, PartialEq, Eq, Structural)]
pub struct Duration {
    pub secs: u64,
    pub nanos: u32,
}

impl Duration {
    /// The nanoseconds are below one second.
    pub open spec fn is_valid(&self) -> bool {
        self.nanos < 1_000_000_000
    }

    /// The length of the duration, in nanoseconds.
    pub open spec fn total_nanos(&self) -> int {
        self.secs * 1_000_000_000 + self.nanos
    }

    /// The duration of `secs` seconds and `nanos` nanoseconds; whole seconds
    /// in `nanos` are carried into the seconds, which must not overflow.
    pub fn new(secs: u64, nanos: u32) -> (r: Self)
        requires
            secs + nanos / 1_000_000_000 <= u64::MAX,
        ensures
            r.is_valid(),
            r.secs == secs + nanos / 1_000_000_000,
            r.nanos == nanos % 1_000_000_000,
    {
        Duration { secs: secs + (nanos / 1_000_000_000) as u64, nanos: nanos % 1_000_000_000 }
    }

    /// The duration of `ms` milliseconds.
    pub fn from_millis(ms: u64) -> (r: Self)
        ensures
            r.is_valid(),
            r.secs == ms / 1000,
            r.nanos == (ms % 1000) * 1_000_000,
    {
        Duration { secs: ms / 1000, nanos: ((ms % 1000) * 1_000_000) as u32 }
    }

    /// The whole seconds.
    pub fn as_secs(&self) -> (r: u64)
        ensures
            r == self.secs,
    {
        self.secs
    }

    /// The nanoseconds past the whole seconds.
    pub fn subsec_nanos(&self) -> (r: u32)
        ensures
            r == self.nanos,
    {
        self.nanos
    }
}

/// `b` with `0` digits appended up to nine digits.
pub open spec fn pad_nine(b: Seq<u8>) -> Seq<u8> {
    b + Seq::new((9 - b.len()) as nat, |i: int| 0x30u8)
}

/// A number of seconds written in decimal: whole seconds as an unsigned
/// number (see [`parse_unsigned`]), then optionally `.` and at most nine
/// digits of fractions of a second.
pub open spec fn parse_seconds(b: Seq<u8>) -> Option<Duration> {
    let t = crate::shared::first_index(b, 0x2e);
    let whole = b.subrange(0, t as int);
    let frac = if t < b.len() {
        b.subrange(t + 1 as int, b.len() as int)
    } else {
        seq![]
    };
    match parse_unsigned(whole, u64::MAX as nat) {
        Some(s) => if all_digits(frac) && frac.len() <= 9 {
            Some(Duration { secs: s as u64, nanos: digits_value(pad_nine(frac)) as u32 })
        } else {
            None
        },
        None => None,
    }
}

proof fn lemma_digits_value_bound(d: Seq<u8>)
    requires
        all_digits(d),
    ensures
        digits_value(d) < pow10(d.len()),
    decreases d.len(),
{
    if d.len() > 0 {
        let p = d.drop_last();
        assert(all_digits(p)) by {
            assert forall|i: int| 0 <= i < p.len() implies is_digit(#[trigger] p[i]) by {
                assert(p[i] == d[i]);
            }
        }
        lemma_digits_value_bound(p);
        let v = digits_value(p);
        let m = pow10(p.len());
        let c = (d.last() - 0x30) as nat;
        assert(is_digit(d[d.len() - 1]));
        assert(v * 10 + c < m * 10) by (nonlinear_arith)
            requires
                v < m,
                c < 10,
        ;
    }
}

/// Ten to the power `n`.
pub open spec fn pow10(n: nat) -> nat
    decreases n,
{
    if n == 0 {
        1
    } else {
        10 * pow10((n - 1) as nat)
    }
}

/// Reads a number of seconds, as [`parse_seconds`] says.
pub fn parse_duration(s: &str) -> (r: Option<Duration>)
    ensures
        r == parse_seconds(s.spec_bytes()),
        r matches Some(d) ==> d.is_valid(),
{
    let b = s.as_bytes();
    let t = crate::shared::first_index_in(s, 0x2e);
    proof {
        crate::shared::lemma_first_index_bounds(s.spec_bytes(), 0x2e);
    }
    let whole = &b[0..t];
    let frac_start = if t < b.len() { t + 1 } else { t };
    let frac = &b[frac_start..b.len()];
    assert(frac@ =~= (if t < b@.len() {
        b@.subrange(t + 1 as int, b@.len() as int)
    } else {
        seq![]
    }));
    let secs = match parse_decimal(whole, u64::MAX) {
        Some(v) => v,
        None => return None,
    };
    if frac.len() > 9 {
        return None;
    }
    let ghost padded = pad_nine(frac@);
    let mut acc: u64 = 0;
    let mut j: usize = 0;
    while j < 9
        invariant
            j <= 9,
            frac@.len() <= 9,
            b@ == s.spec_bytes(),
            t == crate::shared::first_index(s.spec_bytes(), 0x2e),
            frac@ == (if t < b@.len() {
                b@.subrange(t + 1 as int, b@.len() as int)
            } else {
                seq![]
            }),
            parse_unsigned(b@.subrange(0, t as int), u64::MAX as nat) == Some(secs as nat),
            padded == pad_nine(frac@),
            all_digits(padded.subrange(0, j as int)),
            acc as nat == digits_value(padded.subrange(0, j as int)),
            acc < pow10(j as nat),
        decreases 9 - j,
    {
        let c = if j < frac.len() {
            frac[j]
        } else {
            0x30
        };
        assert(c == padded[j as int]);
        if c < 0x30 || c > 0x39 {
            proof {
                assert(!is_digit(frac@[j as int]));
            }
            return None;
        }
        let ghost p = padded.subrange(0, j as int);
        let ghost q = padded.subrange(0, j + 1);
        assert(q.drop_last() =~= p);
        let d: u64 = (c - 0x30) as u64;
        assert(acc * 10 + d < pow10(j as nat) * 10) by (nonlinear_arith)
            requires
                acc < pow10(j as nat),
                d < 10,
        ;
        assert(pow10(j as nat) * 10 <= 1_000_000_000) by {
            assert(pow10(0) == 1);
            assert(pow10(1) == 10);
            assert(pow10(2) == 100);
            assert(pow10(3) == 1000);
            assert(pow10(4) == 10000);
            assert(pow10(5) == 100000);
            assert(pow10(6) == 1000000);
            assert(pow10(7) == 10000000);
            assert(pow10(8) == 100000000);
            assert(pow10(9) == 1000000000);
        }
        acc = acc * 10 + d;
        assert(all_digits(q)) by {
            assert forall|i: int| 0 <= i < q.len() implies is_digit(#[trigger] q[i]) by {
                if i < p.len() {
                    assert(q[i] == p[i]);
                }
            }
        }
        j = j + 1;
    }
    assert(pow10(9) == 1000000000) by {
        reveal_with_fuel(pow10, 10);
    }
    assert(padded.subrange(0, 9) =~= padded);
    assert(all_digits(frac@)) by {
        assert forall|i: int| 0 <= i < frac@.len() implies is_digit(#[trigger] frac@[i]) by {
            assert(frac@[i] == padded[i]);
        }
    }
    Some(Duration { secs, nanos: acc as u32 })
}

} // verus!
