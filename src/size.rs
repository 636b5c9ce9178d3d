//! Size tokens: a decimal count followed by an optional binary unit,
//! turned into a number of 512-byte sectors.
use vstd::prelude::*;
use vstd::string::*;
use crate::text::{alphabetic, is_alphabetic_char, is_ascii_digit, to_upper, upper_of};

verus! {

/// Bytes in one sector.
pub const SECTOR_BYTES: u64 = 512;

/// Why a size token was refused.
#[derive(Clone, Copy, Debug, PartialEq, Eq, Structural)]
pub enum SizeError {
    /// The part before the unit is not a decimal number.
    InvalidNumber,
    /// The number is zero.
    ZeroSize,
    /// The unit is none of B, K, KB, M, MB, G, GB, T, TB.
    UnknownSuffix,
    /// The byte count does not fit in 64 bits.
    Overflow,
    /// Fewer than 512 bytes were asked for.
    BelowMinimum,
}

/// The first index at or after `i` that holds an alphabetic character, or the length.
pub open spec fn alpha_from(u: Seq<char>, i: int) -> int
    decreases u.len() - i,
{
    if i < 0 || i >= u.len() {
        u.len() as int
    } else if is_alphabetic_char(u[i]) {
        i
    } else {
        alpha_from(u, i + 1)
    }
}

/// Where the unit starts: the first alphabetic character, or the end.
pub open spec fn unit_start(u: Seq<char>) -> int {
    alpha_from(u, 0)
}

/// The value of a run of decimal digits.
pub open spec fn digits_value(d: Seq<char>) -> nat
    decreases d.len(),
{
    if d.len() == 0 {
        0
    } else {
        digits_value(d.drop_last()) * 10 + (d.last() as nat - '0' as nat) as nat
    }
}

pub open spec fn all_digits(d: Seq<char>) -> bool {
    forall|i: int| 0 <= i < d.len() ==> is_ascii_digit(#[trigger] d[i])
}

/// The digits of a number as `u64::from_str` reads it: an optional `+`, then
/// at least one digit.
pub open spec fn number_digits(t: Seq<char>) -> Seq<char> {
    if t.len() > 0 && t[0] == '+' {
        t.drop_first()
    } else {
        t
    }
}

/// The unsigned 64-bit number that `t` spells, if any.
pub open spec fn decimal_of(t: Seq<char>) -> Option<u64> {
    let d = number_digits(t);
    if d.len() > 0 && all_digits(d) && digits_value(d) <= u64::MAX {
        Some(digits_value(d) as u64)
    } else {
        None
    }
}

/// Bytes per unit letter.
pub open spec fn unit_bytes(c: char) -> Option<u64> {
    if c == 'B' {
        Some(1)
    } else if c == 'K' {
        Some(1024)
    } else if c == 'M' {
        Some(1048576)
    } else if c == 'G' {
        Some(1073741824)
    } else if c == 'T' {
        Some(1099511627776)
    } else {
        None
    }
}

/// Bytes per unit for an upper-case suffix: none, a unit letter, or a unit
/// letter other than `B` followed by `B`.
pub open spec fn multiplier_of(x: Seq<char>) -> Option<u64> {
    if x.len() == 0 {
        Some(1)
    } else if x.len() == 1 {
        unit_bytes(x[0])
    } else if x.len() == 2 && x[1] == 'B' && x[0] != 'B' {
        unit_bytes(x[0])
    } else {
        None
    }
}

/// Sectors for a number and an upper-case unit.
pub open spec fn sectors_from(number: Seq<char>, unit: Seq<char>) -> Result<u64, SizeError> {
    match decimal_of(number) {
        None => Err(SizeError::InvalidNumber),
        Some(n) => if n == 0 {
            Err(SizeError::ZeroSize)
        } else {
            match multiplier_of(unit) {
                None => Err(SizeError::UnknownSuffix),
                Some(m) => if n * m > u64::MAX {
                    Err(SizeError::Overflow)
                } else if (n * m) / (SECTOR_BYTES as int) == 0 {
                    Err(SizeError::BelowMinimum)
                } else {
                    Ok(((n * m) / (SECTOR_BYTES as int)) as u64)
                },
            }
        },
    }
}

/// Sectors for an upper-case size token: the part before the first
/// alphabetic character is the number, the rest the unit.
pub open spec fn sectors_of(u: Seq<char>) -> Result<u64, SizeError> {
    let p = unit_start(u);
    sectors_from(u.subrange(0, p), u.subrange(p, u.len() as int))
}

/// Reads a number as `u64::from_str` does: an optional `+`, then decimal digits.
pub fn parse_decimal(t: &str) -> (r: Option<u64>)
    ensures
        r == decimal_of(t@),
{
    let n = t.unicode_len();
    let mut i: usize = 0;
    if n > 0 && t.get_char(0) == '+' {
        i = 1;
    }
    let start = i;
    let ghost d = number_digits(t@);
    assert(d =~= t@.subrange(start as int, n as int));
    if start == n {
        return None;
    }
    let mut value: u64 = 0;
    let mut too_big = false;
    while i < n
        invariant
            n == t@.len(),
            start <= i <= n,
            d == t@.subrange(start as int, n as int),
            d == number_digits(t@),
            all_digits(t@.subrange(start as int, i as int)),
            !too_big ==> value == digits_value(t@.subrange(start as int, i as int)),
            too_big ==> digits_value(t@.subrange(start as int, i as int)) > u64::MAX,
        decreases n - i,
    {
        let c = t.get_char(i);
        if c < '0' || c > '9' {
            assert(d[i - start] == c);
            assert(!is_ascii_digit(d[i - start]));
            assert(!all_digits(d));
            return None;
        }
        let ghost pre = t@.subrange(start as int, i as int);
        let ghost next = t@.subrange(start as int, i + 1);
        assert(next.drop_last() =~= pre);
        assert(next.last() == c);
        let digit = (c as u32 - '0' as u32) as u64;
        assert(digits_value(next) == digits_value(pre) * 10 + digit);
        if too_big {
            assert(digits_value(pre) * 10 + digit > u64::MAX) by (nonlinear_arith)
                requires
                    digits_value(pre) > u64::MAX,
            ;
        } else if value > (u64::MAX - digit) / 10 {
            assert(value * 10 + digit > u64::MAX) by (nonlinear_arith)
                requires
                    value > (u64::MAX - digit) / 10,
                    digit <= 9,
            ;
            too_big = true;
        } else {
            assert(value * 10 + digit <= u64::MAX) by (nonlinear_arith)
                requires
                    value <= (u64::MAX - digit) / 10,
                    digit <= 9,
            ;
            value = value * 10 + digit;
        }
        assert(all_digits(next)) by {
            assert forall|j: int| 0 <= j < next.len() implies is_ascii_digit(#[trigger] next[j]) by {
                if j < pre.len() {
                    assert(next[j] == pre[j]);
                }
            }
        }
        i = i + 1;
    }
    if too_big {
        None
    } else {
        Some(value)
    }
}

/// Bytes per unit of an upper-case unit.
pub fn unit_multiplier(unit: &str) -> (r: Option<u64>)
    ensures
        r == multiplier_of(unit@),
{
    let len = unit.unicode_len();
    if len == 0 {
        return Some(1);
    }
    if len > 2 {
        return None;
    }
    let c = unit.get_char(0);
    if len == 2 {
        let b = unit.get_char(1);
        if b != 'B' || c == 'B' {
            return None;
        }
    }
    if c == 'B' {
        Some(1)
    } else if c == 'K' {
        Some(1024)
    } else if c == 'M' {
        Some(1048576)
    } else if c == 'G' {
        Some(1073741824)
    } else if c == 'T' {
        Some(1099511627776)
    } else {
        None
    }
}

/// Sectors for a number and an upper-case unit, with each failure typed.
pub fn sectors_of_parts(number: &str, unit: &str) -> (r: Result<u64, SizeError>)
    ensures
        r == sectors_from(number@, unit@),
{
    let count = match parse_decimal(number) {
        None => {
            return Err(SizeError::InvalidNumber);
        },
        Some(c) => c,
    };
    if count == 0 {
        return Err(SizeError::ZeroSize);
    }
    let per_unit = match unit_multiplier(unit) {
        None => {
            return Err(SizeError::UnknownSuffix);
        },
        Some(m) => m,
    };
    let bytes = match count.checked_mul(per_unit) {
        None => {
            return Err(SizeError::Overflow);
        },
        Some(b) => b,
    };
    let sectors = bytes / SECTOR_BYTES;
    if sectors == 0 {
        return Err(SizeError::BelowMinimum);
    }
    Ok(sectors)
}

/// Sectors for a size token that is already in upper case.
pub fn sectors_from_upper(u: &str) -> (r: Result<u64, SizeError>)
    ensures
        r == sectors_of(u@),
{
    let n = u.unicode_len();
    let mut p: usize = 0;
    while p < n && !alphabetic(u.get_char(p))
        invariant
            n == u@.len(),
            p <= n,
            unit_start(u@) == alpha_from(u@, p as int),
        decreases n - p,
    {
        p = p + 1;
    }
    assert(unit_start(u@) == p);
    sectors_of_parts(u.substring_char(0, p), u.substring_char(p, n))
}

/// Sectors for a size token, read without regard to case.
pub fn size_to_sectors(size: &str) -> (r: Result<u64, SizeError>)
    ensures
        r == sectors_of(upper_of(size@)),
{
    let u = to_upper(size);
    sectors_from_upper(u.as_str())
}

} // verus!
