//! Reading command-line numbers: unsigned decimal literals over UTF-8 bytes.
use vstd::prelude::*;
use vstd::string::StringSliceAdditionalSpecFns;

verus! {

/// Byte value of the character `'0'`.
pub const DIGIT_ZERO: u8 = 48;

/// Byte value of the character `'9'`.
pub const DIGIT_NINE: u8 = 57;

/// Byte value of the character `'+'`.
pub const PLUS_SIGN: u8 = 43;

pub open spec fn is_digit_byte(b: u8) -> bool {
    DIGIT_ZERO <= b <= DIGIT_NINE
}

/// The number written by a string of decimal digits, most significant first.
pub open spec fn digits_value(d: Seq<u8>) -> nat
    decreases d.len(),
{
    if d.len() == 0 {
        0
    } else {
        digits_value(d.drop_last()) * 10 + (d.last() - DIGIT_ZERO) as nat
    }
}

/// The part of an unsigned literal that holds its digits: an optional leading
/// `+` is not one of them.
pub open spec fn unsigned_digits(b: Seq<u8>) -> Seq<u8> {
    if b.len() > 0 && b[0] == PLUS_SIGN {
        b.subrange(1, b.len() as int)
    } else {
        b
    }
}

/// `b` is an unsigned decimal literal: an optional `+`, then one or more digits.
pub open spec fn is_unsigned_decimal(b: Seq<u8>) -> bool {
    let d = unsigned_digits(b);
    &&& d.len() > 0
    &&& forall|i: int| 0 <= i < d.len() ==> is_digit_byte(#[trigger] d[i])
}

/// The number that `b` writes, if it is an unsigned decimal literal.
pub open spec fn decimal_value(b: Seq<u8>) -> Option<nat> {
    if is_unsigned_decimal(b) {
        Some(digits_value(unsigned_digits(b)))
    } else {
        None
    }
}

/// The `u32` that `b` writes; `None` where `b` is no unsigned decimal literal
/// or writes a number above `u32::MAX`.
pub open spec fn u32_value(b: Seq<u8>) -> Option<u32> {
    match decimal_value(b) {
        Some(v) => if v <= u32::MAX {
            Some(v as u32)
        } else {
            None
        },
        None => None,
    }
}

/// Reads `s` as an unsigned decimal number that fits in a `u32`.
pub fn parse_u32(s: &str) -> (r: Option<u32>)
    ensures
        r == u32_value(s.spec_bytes()),
{
    let b = s.as_bytes();
    let n = b.len();
    let mut start: usize = 0;
    if n > 0 && b[0] == PLUS_SIGN {
        start = 1;
    }
    let ghost digits = unsigned_digits(b@);
    assert(digits =~= b@.subrange(start as int, n as int));
    if start == n {
        return None;
    }
    let mut acc: u64 = 0;
    let mut overflow = false;
    let mut i: usize = start;
    while i < n
        invariant
            start < n,
            start <= i <= n,
            n == b@.len(),
            b@ == s.spec_bytes(),
            digits == b@.subrange(start as int, n as int),
            digits == unsigned_digits(b@),
            forall|k: int| start <= k < i ==> is_digit_byte(#[trigger] b@[k]),
            !overflow ==> acc == digits_value(b@.subrange(start as int, i as int)),
            overflow ==> digits_value(b@.subrange(start as int, i as int)) > u32::MAX,
            acc <= u32::MAX,
        decreases n - i,
    {
        let c = b[i];
        if c < DIGIT_ZERO || c > DIGIT_NINE {
            assert(!is_digit_byte(digits[i - start]));
            assert(!is_unsigned_decimal(b@));
            return None;
        }
        assert(b@.subrange(start as int, i + 1).drop_last() =~= b@.subrange(start as int, i as int));
        if !overflow {
            let next: u64 = acc * 10 + (c - DIGIT_ZERO) as u64;
            if next <= u32::MAX as u64 {
                acc = next;
            } else {
                overflow = true;
            }
        }
        i = i + 1;
    }
    assert(b@.subrange(start as int, n as int) =~= digits);
    if overflow {
        None
    } else {
        Some(acc as u32)
    }
}

} // verus!
