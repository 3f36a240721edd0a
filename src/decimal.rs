use vstd::prelude::*;
use vstd::string::StringSliceAdditionalSpecFns;

verus! {

/// The ASCII byte of the decimal point.
pub const DOT: u8 = 46;

pub open spec fn is_digit(c: u8) -> bool {
    48 <= c <= 57
}

/// A non-empty run of ASCII decimal digits.
pub open spec fn all_digits(b: Seq<u8>) -> bool {
    &&& b.len() > 0
    &&& forall|i: int| 0 <= i < b.len() ==> is_digit(#[trigger] b[i])
}

/// The number that a run of decimal digits writes, most significant first.
pub open spec fn digits_value(b: Seq<u8>) -> nat
    decreases b.len(),
{
    if b.len() == 0 {
        0
    } else {
        digits_value(b.drop_last()) * 10 + (b.last() - 48) as nat
    }
}

/// A run of digits read as a `u64`, absent when it is not all digits or does
/// not fit.
pub open spec fn digits_u64(b: Seq<u8>) -> Option<u64> {
    if all_digits(b) && digits_value(b) <= u64::MAX {
        Some(digits_value(b) as u64)
    } else {
        None
    }
}

/// An unsigned decimal integer as the standard library reads one: an optional
/// leading `+`, then at least one digit, with a value that fits in a `u64`.
pub open spec fn unsigned_u64(b: Seq<u8>) -> Option<u64> {
    if b.len() > 0 && b[0] == 43u8 {
        digits_u64(b.drop_first())
    } else {
        digits_u64(b)
    }
}

proof fn lemma_digits_value_prefix_grows(b: Seq<u8>, i: int, j: int)
    requires
        0 <= i <= j <= b.len(),
    ensures
        digits_value(b.subrange(0, i)) <= digits_value(b.subrange(0, j)),
    decreases j - i,
{
    if i < j {
        lemma_digits_value_prefix_grows(b, i, j - 1);
        assert(b.subrange(0, j).drop_last() =~= b.subrange(0, j - 1));
    }
}

/// Reads `b[lo..hi]` as a run of decimal digits.
pub fn parse_digits(b: &[u8], lo: usize, hi: usize) -> (r: Option<u64>)
    requires
        lo <= hi <= b@.len(),
    ensures
        r == digits_u64(b@.subrange(lo as int, hi as int)),
{
    let ghost s = b@.subrange(lo as int, hi as int);
    if lo == hi {
        return None;
    }
    let mut acc: u64 = 0;
    let mut i: usize = lo;
    while i < hi
        invariant
            lo <= i <= hi <= b@.len(),
            s == b@.subrange(lo as int, hi as int),
            forall|k: int| 0 <= k < i - lo ==> is_digit(#[trigger] s[k]),
            acc as nat == digits_value(s.subrange(0, i - lo)),
        decreases hi - i,
    {
        let c = b[i];
        if c < 48 || c > 57 {
            assert(!is_digit(s[i - lo]));
            return None;
        }
        let d: u64 = (c - 48) as u64;
        proof {
            assert(s.subrange(0, i - lo + 1).drop_last() =~= s.subrange(0, i - lo));
        }
        if acc > (u64::MAX - d) / 10 {
            proof {
                lemma_digits_value_prefix_grows(s, i - lo + 1, s.len() as int);
                assert(s.subrange(0, s.len() as int) =~= s);
            }
            return None;
        }
        acc = acc * 10 + d;
        i = i + 1;
    }
    proof {
        assert(s.subrange(0, s.len() as int) =~= s);
    }
    Some(acc)
}

/// Reads `b[lo..hi]` as an unsigned integer, an optional `+` then digits.
pub fn parse_unsigned(b: &[u8], lo: usize, hi: usize) -> (r: Option<u64>)
    requires
        lo <= hi <= b@.len(),
    ensures
        r == unsigned_u64(b@.subrange(lo as int, hi as int)),
{
    if lo < hi && b[lo] == 43u8 {
        proof {
            assert(b@.subrange(lo as int, hi as int).drop_first() =~= b@.subrange(lo + 1, hi as int));
        }
        parse_digits(b, lo + 1, hi)
    } else {
        parse_digits(b, lo, hi)
    }
}

/// Reads a whole string as an unsigned integer, an optional `+` then digits.
pub fn parse_u64(s: &str) -> (r: Option<u64>)
    ensures
        r == unsigned_u64(s.spec_bytes()),
{
    let b = s.as_bytes();
    proof {
        assert(b@.subrange(0, b@.len() as int) =~= b@);
    }
    parse_unsigned(b, 0, b.len())
}

} // verus!
