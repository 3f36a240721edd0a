use vstd::prelude::*;
use vstd::string::StringSliceAdditionalSpecFns;
use vstd::utf8::encode_utf8;

use crate::decimal::{
    all_digits,
    digits_u64,
    digits_value,
    is_digit,
    parse_digits,
    parse_unsigned,
    unsigned_u64,
    DOT,
};

verus! {

/// Fractional digits that a decoded rate always carries.
pub const RATE_DECIMALS: u8 = 4;

/// A currency of a traded pair.
#[derive(Clone, Copy, Debug, PartialEq, Eq, Structural)]
pub enum Symbol {
    BTC,
    USD,
}

/// One observation of a currency pair.
///
/// `base` is the first currency of the pair (BTC in BTC/USD), `quote` the
/// second. `rate` is a whole number whose real value is `rate / 10^decimal`;
/// it is absent when the reading could not be decoded.
#[derive(Clone, Copy, Debug, PartialEq, Eq, Structural)]
pub struct PriceInfo {
    pub timestamp: u64,
    pub base: Symbol,
    pub quote: Symbol,
    pub rate: Option<u64>,
    pub decimal: u8,
}

impl PriceInfo {
    pub fn new(timestamp: u64, base: Symbol, quote: Symbol, rate: Option<u64>, decimal: u8) -> (r:
        Self)
        ensures
            r == (PriceInfo { timestamp, base, quote, rate, decimal }),
    {
        PriceInfo { timestamp, base, quote, rate, decimal }
    }
}

/// What the rate endpoint answers: the rate in US dollars as a decimal
/// string, and the instant of the reading in milliseconds since the epoch.
#[derive(Clone, Debug)]
pub struct DecodedBody {
    pub rate_usd: String,
    pub timestamp: u64,
}

/// `p` is the position of the first decimal point in `b`.
pub open spec fn is_first_dot(b: Seq<u8>, p: int) -> bool {
    &&& 0 <= p < b.len()
    &&& b[p] == DOT
    &&& forall|j: int| 0 <= j < p ==> b[j] != DOT
}

/// What a fraction of `n` digits is multiplied by to reach four places.
pub open spec fn frac_scale(n: int) -> nat {
    if n == 1 {
        1000
    } else if n == 2 {
        100
    } else if n == 3 {
        10
    } else {
        1
    }
}

/// A rate at four decimal places from its whole part and its (at most four)
/// fractional digits, absent when either does not parse or the sum overflows.
pub open spec fn rate_from_parts(whole: Seq<u8>, frac: Seq<u8>) -> Option<u64> {
    match (unsigned_u64(whole), digits_u64(frac)) {
        (Some(w), Some(f)) => {
            let v = w * 10000 + f * frac_scale(frac.len() as int);
            if v <= u64::MAX {
                Some(v as u64)
            } else {
                None
            }
        },
        _ => None,
    }
}

/// The end of the fraction that is kept: at most four digits after `p`.
pub open spec fn frac_end(len: int, p: int) -> int {
    if p + 5 < len {
        p + 5
    } else {
        len
    }
}

/// A decimal string read at four decimal places: the part before the first
/// point is the whole number, the first four digits after it (padded with
/// zeros when fewer) the fraction. Absent without a point or when a part does
/// not parse.
pub open spec fn decoded_rate(b: Seq<u8>) -> Option<u64> {
    if exists|p: int| is_first_dot(b, p) {
        let p = choose|p: int| is_first_dot(b, p);
        rate_from_parts(b.subrange(0, p), b.subrange(p + 1, frac_end(b.len() as int, p)))
    } else {
        None
    }
}

/// The sample that a decoded body gives: seconds from milliseconds, BTC/USD,
/// and either a rate at four places or no rate with zero places.
pub open spec fn price_info_of(rate: Seq<u8>, timestamp_ms: u64) -> PriceInfo {
    PriceInfo {
        timestamp: timestamp_ms / 1000,
        base: Symbol::BTC,
        quote: Symbol::USD,
        rate: decoded_rate(rate),
        decimal: if decoded_rate(rate) is Some {
            4
        } else {
            0
        },
    }
}

proof fn lemma_first_dot_unique(b: Seq<u8>, p: int, q: int)
    requires
        is_first_dot(b, p),
        is_first_dot(b, q),
    ensures
        p == q,
{
    if p < q {
        assert(b[p] != DOT);
    } else if q < p {
        assert(b[q] != DOT);
    }
}

/// Reads a decimal rate string at four decimal places.
pub fn decode_rate(rate: &str) -> (r: Option<u64>)
    ensures
        r == decoded_rate(rate.spec_bytes()),
{
    let b = rate.as_bytes();
    let ghost s = b@;
    let n = b.len();
    let mut pos: usize = 0;
    while pos < n && b[pos] != DOT
        invariant
            n == s.len(),
            s == b@,
            pos <= n,
            forall|j: int| 0 <= j < pos ==> s[j] != DOT,
        decreases n - pos,
    {
        pos = pos + 1;
    }
    if pos == n {
        assert(!exists|p: int| is_first_dot(s, p));
        return None;
    }
    assert(is_first_dot(s, pos as int));
    proof {
        let q = choose|p: int| is_first_dot(s, p);
        lemma_first_dot_unique(s, pos as int, q);
    }
    let end: usize = if n - pos > 5 {
        pos + 5
    } else {
        n
    };
    let whole = match parse_unsigned(b, 0, pos) {
        Some(w) => w,
        None => return None,
    };
    let frac = match parse_digits(b, pos + 1, end) {
        Some(f) => f,
        None => return None,
    };
    let ghost fs = s.subrange(pos + 1, end as int);
    let count = end - pos - 1;
    let scale: u64 = if count == 1 {
        1000
    } else if count == 2 {
        100
    } else if count == 3 {
        10
    } else {
        1
    };
    proof {
        assert(fs.len() == count);
        lemma_short_digits_bound(fs);
    }
    let scaled = frac * scale;
    if whole > (u64::MAX - scaled) / 10000 {
        return None;
    }
    Some(whole * 10000 + scaled)
}

spec fn pow10(n: nat) -> nat
    decreases n,
{
    if n == 0 {
        1
    } else {
        10 * pow10((n - 1) as nat)
    }
}

proof fn lemma_digits_below_pow10(b: Seq<u8>)
    requires
        forall|i: int| 0 <= i < b.len() ==> is_digit(#[trigger] b[i]),
    ensures
        digits_value(b) < pow10(b.len()),
    decreases b.len(),
{
    if b.len() > 0 {
        let c = b.drop_last();
        assert forall|i: int| 0 <= i < c.len() implies is_digit(#[trigger] c[i]) by {
            assert(c[i] == b[i]);
        }
        lemma_digits_below_pow10(c);
        assert(is_digit(b[b.len() - 1]));
        let x = digits_value(c);
        let p = pow10(c.len());
        let d = (b.last() - 48) as nat;
        assert(x * 10 + d < 10 * p) by (nonlinear_arith)
            requires
                x < p,
                d <= 9,
        ;
    }
}

proof fn lemma_short_digits_bound(b: Seq<u8>)
    requires
        all_digits(b),
        b.len() <= 4,
    ensures
        digits_value(b) * frac_scale(b.len() as int) <= 9999,
{
    lemma_digits_below_pow10(b);
    reveal_with_fuel(pow10, 5);
    let x = digits_value(b);
    let sc = frac_scale(b.len() as int);
    assert(sc * pow10(b.len()) == 10000);
    assert(x * sc <= 9999) by (nonlinear_arith)
        requires
            x < pow10(b.len()),
            sc * pow10(b.len()) == 10000,
    ;
}

/// A string of digits, a point, and digits decodes to the whole number times
/// 10000 plus its first four fractional digits, padded with zeros to four.
pub proof fn lemma_decimal_string_rate(whole: Seq<u8>, frac: Seq<u8>)
    requires
        all_digits(whole),
        all_digits(frac),
        digits_value(whole) * 10000 + digits_value(frac.take(if frac.len() < 4 { frac.len() as int } else { 4 }))
            * frac_scale(if frac.len() < 4 { frac.len() as int } else { 4 }) <= u64::MAX,
    ensures
        decoded_rate(whole + seq![DOT] + frac) == Some(
            (digits_value(whole) * 10000 + digits_value(frac.take(if frac.len() < 4 { frac.len() as int } else { 4 }))
                * frac_scale(if frac.len() < 4 { frac.len() as int } else { 4 })) as u64,
        ),
{
    let b = whole + seq![DOT] + frac;
    let p = whole.len() as int;
    let k = if frac.len() < 4 {
        frac.len() as int
    } else {
        4
    };
    assert forall|j: int| 0 <= j < p implies b[j] != DOT by {
        assert(b[j] == whole[j]);
        assert(is_digit(whole[j]));
    }
    assert(is_first_dot(b, p));
    let q = choose|q: int| is_first_dot(b, q);
    lemma_first_dot_unique(b, p, q);
    assert(b.subrange(0, p) =~= whole);
    assert(b.subrange(p + 1, frac_end(b.len() as int, p)) =~= frac.take(k));
    assert(is_digit(whole[0]));
    let ft = frac.take(k);
    assert forall|i: int| 0 <= i < ft.len() implies is_digit(#[trigger] ft[i]) by {
        assert(ft[i] == frac[i]);
    }
    lemma_short_digits_bound(ft);
    assert(whole[0] != 43u8);
    assert(digits_value(whole) <= u64::MAX);
    assert(unsigned_u64(whole) == Some(digits_value(whole) as u64));
    assert(all_digits(ft));
    assert(digits_u64(ft) == Some(digits_value(ft) as u64));
    assert(decoded_rate(b) == rate_from_parts(whole, ft));
}

impl DecodedBody {
    /// The sample that this body reports.
    pub fn to_price_info(&self) -> (r: PriceInfo)
        ensures
            r == price_info_of(encode_utf8(self.rate_usd@), self.timestamp),
    {
        let timestamp = self.timestamp / 1000;
        match decode_rate(self.rate_usd.as_str()) {
            Some(rate) => PriceInfo::new(timestamp, Symbol::BTC, Symbol::USD, Some(rate), RATE_DECIMALS),
            None => PriceInfo::new(timestamp, Symbol::BTC, Symbol::USD, None, 0),
        }
    }
}

} // verus!
