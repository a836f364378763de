//! Decimal rendering and parsing of unsigned numbers, used for diagnostic
//! messages and for reading migration ids out of directory names.

use vstd::prelude::*;

verus! {

/// The character that prints one decimal digit value.
pub open spec fn digit_char(d: nat) -> char {
    if d == 0 {
        '0'
    } else if d == 1 {
        '1'
    } else if d == 2 {
        '2'
    } else if d == 3 {
        '3'
    } else if d == 4 {
        '4'
    } else if d == 5 {
        '5'
    } else if d == 6 {
        '6'
    } else if d == 7 {
        '7'
    } else if d == 8 {
        '8'
    } else {
        '9'
    }
}

/// Decimal rendering of a natural number, most significant digit first.
pub open spec fn dec_rep(n: nat) -> Seq<char>
    decreases n,
{
    if n < 10 {
        seq![digit_char(n)]
    } else {
        dec_rep(n / 10) + seq![digit_char(n % 10)]
    }
}

/// Decimal rendering of a signed value: a leading minus sign for negatives.
pub open spec fn dec_rep_int(i: int) -> Seq<char> {
    if i < 0 {
        seq!['-'] + dec_rep((-i) as nat)
    } else {
        dec_rep(i as nat)
    }
}

/// Whether `c` is a decimal digit.
pub open spec fn is_dec_digit(c: char) -> bool {
    48 <= c as int <= 57
}

/// The numeric value of a decimal digit character.
pub open spec fn digit_val(c: char) -> int {
    c as int - 48
}

/// Whether every character of `s` is a decimal digit.
pub open spec fn all_digits(s: Seq<char>) -> bool {
    forall|i: int| 0 <= i < s.len() ==> is_dec_digit(#[trigger] s[i])
}

/// The value of a sequence of decimal digits, most significant first.
pub open spec fn dec_val(s: Seq<char>) -> int
    decreases s.len(),
{
    if s.len() == 0 {
        0
    } else {
        dec_val(s.drop_last()) * 10 + digit_val(s.last())
    }
}

/// The digits a number is parsed from: everything after one optional leading
/// plus sign.
pub open spec fn digits_part(s: Seq<char>) -> Seq<char> {
    if s.len() > 0 && s[0] == '+' {
        s.skip(1)
    } else {
        s
    }
}

/// Why a string failed to parse as an unsigned number, mirroring the reasons
/// the standard parser distinguishes.
#[derive(Clone, Copy, Debug, PartialEq, Eq, Structural)]
pub enum NumParseError {
    /// The input was empty.
    Empty,
    /// A character other than a decimal digit was found.
    InvalidDigit,
    /// The value does not fit in the target type.
    TooLarge,
}

/// What parsing a string as a `usize` yields.
pub open spec fn spec_parse_usize(s: Seq<char>) -> Result<usize, NumParseError> {
    if s.len() == 0 {
        Err(NumParseError::Empty)
    } else if digits_part(s).len() == 0 || !all_digits(digits_part(s)) {
        Err(NumParseError::InvalidDigit)
    } else if dec_val(digits_part(s)) > usize::MAX {
        Err(NumParseError::TooLarge)
    } else {
        Ok(dec_val(digits_part(s)) as usize)
    }
}

/// A single-character string for one decimal digit value.
fn digit_str(d: u64) -> (s: &'static str)
    requires
        d < 10,
    ensures
        s@ == seq![digit_char(d as nat)],
{
    let s: &'static str = if d == 0 {
        "0"
    } else if d == 1 {
        "1"
    } else if d == 2 {
        "2"
    } else if d == 3 {
        "3"
    } else if d == 4 {
        "4"
    } else if d == 5 {
        "5"
    } else if d == 6 {
        "6"
    } else if d == 7 {
        "7"
    } else if d == 8 {
        "8"
    } else {
        "9"
    };
    proof {
        reveal_strlit("0");
        reveal_strlit("1");
        reveal_strlit("2");
        reveal_strlit("3");
        reveal_strlit("4");
        reveal_strlit("5");
        reveal_strlit("6");
        reveal_strlit("7");
        reveal_strlit("8");
        reveal_strlit("9");
        assert(s@ =~= seq![digit_char(d as nat)]);
    }
    s
}

/// The digits rendered so far in a least-significant-first digit stack.
spec fn low_digits(ds: Seq<u64>) -> Seq<char> {
    Seq::new(ds.len(), |i: int| digit_char(ds[ds.len() - 1 - i] as nat))
}

/// The part of the rendering that still has to be extracted from `m`.
spec fn dec_prefix(m: nat) -> Seq<char> {
    if m > 0 {
        dec_rep(m)
    } else {
        Seq::empty()
    }
}

/// Renders `n` in decimal.
pub fn u64_to_string(n: u64) -> (s: String)
    ensures
        s@ == dec_rep(n as nat),
{
    let mut digits: Vec<u64> = Vec::new();
    let mut m: u64 = n;
    loop
        invariant_except_break
            digits@.len() == 0 ==> m == n,
            digits@.len() > 0 ==> m > 0,
            digits@.len() > 0 || m as nat > 0 ==> dec_rep(n as nat) == dec_prefix(m as nat)
                + low_digits(digits@),
            forall|i: int| 0 <= i < digits@.len() ==> #[trigger] digits@[i] < 10,
        ensures
            dec_rep(n as nat) == low_digits(digits@),
            forall|i: int| 0 <= i < digits@.len() ==> #[trigger] digits@[i] < 10,
        decreases m,
    {
        let ghost old_digits = digits@;
        let ghost old_m = m as nat;
        let d: u64 = m % 10;
        digits.push(d);
        m = m / 10;
        proof {
            assert(low_digits(old_digits.push(d)) =~= seq![digit_char(d as nat)] + low_digits(
                old_digits,
            ));
            if old_m > 0 {
                assert(dec_prefix(old_m) == dec_prefix(m as nat) + seq![digit_char(d as nat)]);
            } else {
                // Only reachable on the very first round, with n == 0.
                assert(old_digits.len() == 0 && n == 0);
                assert(dec_rep(0) == seq![digit_char(0)]);
            }
            assert(dec_rep(n as nat) == dec_prefix(m as nat) + low_digits(digits@));
        }
        if m == 0 {
            break ;
        }
    }
    let mut s = String::new();
    let mut i: usize = digits.len();
    while i > 0
        invariant
            i <= digits@.len(),
            dec_rep(n as nat) == low_digits(digits@),
            forall|j: int| 0 <= j < digits@.len() ==> #[trigger] digits@[j] < 10,
            s@ == low_digits(digits@).take(digits@.len() - i),
        decreases i,
    {
        i = i - 1;
        let ghost k = digits@.len() - i - 1;
        s.append(digit_str(digits[i]));
        proof {
            assert(low_digits(digits@)[k] == digit_char(digits@[i as int] as nat));
            assert(s@ =~= low_digits(digits@).take(digits@.len() - i));
        }
    }
    proof {
        assert(s@ =~= low_digits(digits@));
    }
    s
}

/// Renders `n` in decimal.
pub fn usize_to_string(n: usize) -> (s: String)
    ensures
        s@ == dec_rep(n as nat),
{
    u64_to_string(n as u64)
}

/// Renders `v` in decimal, with a minus sign when negative.
pub fn i64_to_string(v: i64) -> (s: String)
    ensures
        s@ == dec_rep_int(v as int),
{
    if v >= 0 {
        u64_to_string(v as u64)
    } else {
        let mag: u64 = ((-1 - v) as u64) + 1;
        let mut s = String::from_str("-");
        let rest = u64_to_string(mag);
        s.append(rest.as_str());
        proof {
            reveal_strlit("-");
            assert(s@ =~= dec_rep_int(v as int));
        }
        s
    }
}

/// Parses `s` as an unsigned number, accepting one optional leading plus sign,
/// exactly as the standard parser does.
pub fn parse_usize(s: &str) -> (r: Result<usize, NumParseError>)
    ensures
        r == spec_parse_usize(s@),
{
    let n = s.unicode_len();
    if n == 0 {
        return Err(NumParseError::Empty);
    }
    let start: usize = if s.get_char(0) == '+' {
        1
    } else {
        0
    };
    if start == n {
        return Err(NumParseError::InvalidDigit);
    }
    let ghost ds = digits_part(s@);
    proof {
        assert(ds =~= s@.skip(start as int));
    }
    let mut val: usize = 0;
    let mut too_large = false;
    let mut i: usize = start;
    while i < n
        invariant
            start <= i <= n,
            n == s@.len(),
            start < n,
            ds == s@.skip(start as int),
            ds == digits_part(s@),
            all_digits(ds.take(i - start)),
            !too_large ==> val == dec_val(ds.take(i - start)),
            too_large ==> dec_val(ds.take(i - start)) > usize::MAX,
        decreases n - i,
    {
        let c = s.get_char(i);
        let u = c as u32;
        if u < 48 || u > 57 {
            proof {
                assert(ds[i - start] == s@[i as int]);
                assert(!is_dec_digit(ds[i - start]));
                assert(!all_digits(ds));
            }
            return Err(NumParseError::InvalidDigit);
        }
        let d: u32 = u - 48;
        let ghost prev = ds.take(i - start);
        proof {
            assert(ds.take(i + 1 - start).drop_last() =~= prev);
            assert(ds.take(i + 1 - start).last() == s@[i as int]);
        }
        if !too_large {
            if val > (usize::MAX - (d as usize)) / 10 {
                proof {
                    assert(dec_val(prev) * 10 + digit_val(s@[i as int]) > usize::MAX) by (nonlinear_arith)
                        requires
                            dec_val(prev) == val,
                            digit_val(s@[i as int]) == d,
                            0 <= d <= 9,
                            val > (usize::MAX - (d as usize)) / 10,
                    ;
                }
                too_large = true;
            } else {
                proof {
                    assert(val * 10 + d <= usize::MAX) by (nonlinear_arith)
                        requires
                            0 <= d <= 9,
                            0 <= val <= (usize::MAX - (d as usize)) / 10,
                    ;
                }
                val = val * 10 + (d as usize);
            }
        } else {
            proof {
                assert(dec_val(prev) * 10 + digit_val(s@[i as int]) > usize::MAX) by (nonlinear_arith)
                    requires
                        dec_val(prev) > usize::MAX,
                        0 <= digit_val(s@[i as int]),
                ;
            }
        }
        i = i + 1;
    }
    proof {
        assert(ds.take(n - start) =~= ds);
    }
    if too_large {
        Err(NumParseError::TooLarge)
    } else {
        Ok(val)
    }
}

} // verus!
