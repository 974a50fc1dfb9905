use vstd::prelude::*;
use vstd::string::StringExecFns;

use crate::errors::ConnectError;

verus! {

/// The decimal digit character for a value below 10.
pub open spec fn dec_digit_char(d: nat) -> char {
    if d == 0 {
        '0'
    } else if d == 1 {
        '1'
    } else if d == 2 {
        '2'
    } else if d == 3 {
        '3'
    } else if d == 4 {
        '4'
    } else if d == 5 {
        '5'
    } else if d == 6 {
        '6'
    } else if d == 7 {
        '7'
    } else if d == 8 {
        '8'
    } else {
        '9'
    }
}

/// The decimal representation of a natural number, no leading zeros except
/// for zero itself.
pub open spec fn dec_str(n: nat) -> Seq<char>
    decreases n,
{
    if n < 10 {
        seq![dec_digit_char(n)]
    } else {
        dec_str(n / 10).push(dec_digit_char(n % 10))
    }
}

/// The decimal representation of an integer: a minus sign before the
/// magnitude when it is negative.
pub open spec fn int_dec_str(x: int) -> Seq<char> {
    if x >= 0 {
        dec_str(x as nat)
    } else {
        seq!['-'] + dec_str((-x) as nat)
    }
}

/// One decimal digit as a string slice.
fn dec_digit_str(d: u128) -> (r: &'static str)
    requires
        d < 10,
    ensures
        r@ =~= seq![dec_digit_char(d as nat)],
{
    proof {
        reveal_strlit("0");
        reveal_strlit("1");
        reveal_strlit("2");
        reveal_strlit("3");
        reveal_strlit("4");
        reveal_strlit("5");
        reveal_strlit("6");
        reveal_strlit("7");
        reveal_strlit("8");
        reveal_strlit("9");
    }
    match d {
        0 => "0",
        1 => "1",
        2 => "2",
        3 => "3",
        4 => "4",
        5 => "5",
        6 => "6",
        7 => "7",
        8 => "8",
        _ => "9",
    }
}

/// The decimal string of an unsigned 128-bit value.
pub fn u128_to_dec(n: u128) -> (r: String)
    ensures
        r@ == dec_str(n as nat),
    decreases n,
{
    if n < 10 {
        String::from_str(dec_digit_str(n))
    } else {
        let mut s = u128_to_dec(n / 10);
        s.append(dec_digit_str(n % 10));
        proof {
            assert(dec_str((n / 10) as nat) + seq![dec_digit_char((n % 10) as nat)] =~= dec_str(
                (n / 10) as nat,
            ).push(dec_digit_char((n % 10) as nat)));
        }
        s
    }
}

/// The decimal string of an unsigned 32-bit value.
pub fn u32_to_dec(n: u32) -> (r: String)
    ensures
        r@ == dec_str(n as nat),
{
    u128_to_dec(n as u128)
}

/// The decimal string of an unsigned 64-bit value.
pub fn u64_to_dec(n: u64) -> (r: String)
    ensures
        r@ == dec_str(n as nat),
{
    u128_to_dec(n as u128)
}

/// The decimal string of a signed 128-bit value, a minus sign first when it
/// is negative.
pub fn i128_to_dec(x: i128) -> (r: String)
    ensures
        r@ == int_dec_str(x as int),
{
    if x >= 0 {
        u128_to_dec(x as u128)
    } else {
        let mag: u128 = ((-(x + 1)) as u128) + 1;
        assert(mag == -(x as int));
        let mut s = String::from_str("-");
        let digits = u128_to_dec(mag);
        s.append(digits.as_str());
        proof {
            reveal_strlit("-");
            assert("-"@ =~= seq!['-']);
        }
        s
    }
}

/// Whether every character is a decimal digit and there is at least one.
pub open spec fn is_dec_digits(s: Seq<char>) -> bool {
    s.len() > 0 && forall|i: int| 0 <= i < s.len() ==> '0' <= #[trigger] s[i] && s[i] <= '9'
}

/// The value of a decimal digit character; zero for any other character.
pub open spec fn digit_val(c: char) -> nat {
    if '0' <= c && c <= '9' {
        (c as nat - 48) as nat
    } else {
        0
    }
}

/// The natural number a digit string denotes.
pub open spec fn dec_val(s: Seq<char>) -> nat
    recommends
        forall|i: int| 0 <= i < s.len() ==> '0' <= #[trigger] s[i] && s[i] <= '9',
    decreases s.len(),
{
    if s.len() == 0 {
        0
    } else {
        dec_val(s.take(s.len() - 1)) * 10 + digit_val(s.last())
    }
}

/// A digit string's value never shrinks as digits are appended.
proof fn lemma_dec_val_prefix_le(s: Seq<char>, i: int, j: int)
    requires
        0 <= i <= j <= s.len(),
    ensures
        dec_val(s.take(i)) <= dec_val(s.take(j)),
    decreases j - i,
{
    if i < j {
        lemma_dec_val_prefix_le(s, i, j - 1);
        assert(s.take(j).take(j - 1) =~= s.take(j - 1));
        assert(dec_val(s.take(j)) == dec_val(s.take(j - 1)) * 10 + digit_val(s.take(j).last()));
        assert(dec_val(s.take(j - 1)) * 10 >= dec_val(s.take(j - 1))) by (nonlinear_arith);
    }
}

/// Whether a minus sign leads the string.
pub open spec fn int_str_negative(s: Seq<char>) -> bool {
    s.len() > 0 && s[0] == '-'
}

/// The digit part of a signed decimal string.
pub open spec fn int_str_digits(s: Seq<char>) -> Seq<char> {
    if int_str_negative(s) {
        s.skip(1)
    } else {
        s
    }
}

/// Whether a string is a decimal integer that fits in a signed 128-bit
/// value: an optional minus sign, then digits only, within range.
pub open spec fn valid_i128_str(s: Seq<char>) -> bool {
    &&& is_dec_digits(int_str_digits(s))
    &&& if int_str_negative(s) {
        dec_val(int_str_digits(s)) <= 0x80000000000000000000000000000000
    } else {
        dec_val(int_str_digits(s)) <= 0x7FFFFFFFFFFFFFFFFFFFFFFFFFFFFFFF
    }
}

/// The integer a signed decimal string denotes.
pub open spec fn i128_val(s: Seq<char>) -> int {
    if int_str_negative(s) {
        -(dec_val(int_str_digits(s)) as int)
    } else {
        dec_val(int_str_digits(s)) as int
    }
}

/// Parses a decimal integer with an optional leading minus sign into a
/// signed 128-bit value.  Fails, as a protocol defect, on an empty string, a
/// stray character or a value out of range.
pub fn parse_i128(s: &str) -> (r: Result<i128, ConnectError>)
    ensures
        r is Ok <==> valid_i128_str(s@),
        r matches Ok(v) ==> v as int == i128_val(s@),
        r matches Err(e) ==> e is Protocol,
{
    let n = s.unicode_len();
    let negative = n > 0 && s.get_char(0) == '-';
    let start: usize = if negative {
        1
    } else {
        0
    };
    let ghost digits = int_str_digits(s@);
    proof {
        if negative {
            assert(digits =~= s@.skip(1));
        } else {
            assert(digits =~= s@);
        }
    }
    if n == start {
        return Err(ConnectError::Protocol(String::from_str("number has no digits")));
    }
    let mut acc: u128 = 0;
    let mut i: usize = start;
    while i < n
        invariant
            n == s@.len(),
            start <= i <= n,
            start <= 1,
            n > start,
            digits == int_str_digits(s@),
            digits.len() == n - start,
            forall|k: int| 0 <= k < digits.len() ==> s@[k + start] == digits[k],
            forall|k: int| 0 <= k < i - start ==> '0' <= #[trigger] digits[k] && digits[k] <= '9',
            acc == dec_val(digits.take(i - start)),
        decreases n - i,
    {
        let c = s.get_char(i);
        let u = c as u32;
        if u < 48 || u > 57 {
            proof {
                assert(digits[i - start] == s@[i as int]);
                assert(!('0' <= digits[i - start] && digits[i - start] <= '9'));
                assert(!is_dec_digits(digits));
            }
            return Err(ConnectError::Protocol(String::from_str("number has a stray character")));
        }
        let d = (u - 48) as u128;
        let acc10 = match acc.checked_mul(10) {
            Some(v) => v,
            None => {
                proof {
                    lemma_overflow_means_invalid(digits, i - start, acc, d);
                }
                return Err(ConnectError::Protocol(String::from_str("number is out of range")));
            },
        };
        let next = match acc10.checked_add(d) {
            Some(v) => v,
            None => {
                proof {
                    lemma_overflow_means_invalid(digits, i - start, acc, d);
                }
                return Err(ConnectError::Protocol(String::from_str("number is out of range")));
            },
        };
        proof {
            assert(digits.take(i - start + 1).take(i - start) =~= digits.take(i - start));
            assert(digits.take(i - start + 1).last() == digits[i - start]);
        }
        acc = next;
        i = i + 1;
    }
    proof {
        assert(digits.take(n - start) =~= digits);
    }
    if negative {
        if acc > 0x80000000000000000000000000000000 {
            return Err(ConnectError::Protocol(String::from_str("number is out of range")));
        }
        if acc == 0x80000000000000000000000000000000 {
            Ok(i128::MIN)
        } else {
            Ok(-(acc as i128))
        }
    } else {
        if acc > 0x7FFFFFFFFFFFFFFFFFFFFFFFFFFFFFFF {
            return Err(ConnectError::Protocol(String::from_str("number is out of range")));
        }
        Ok(acc as i128)
    }
}

/// When the running value can no longer grow without leaving 128 bits, the
/// whole digit string is out of range for a signed 128-bit value.
proof fn lemma_overflow_means_invalid(digits: Seq<char>, k: int, acc: u128, d: u128)
    requires
        0 <= k < digits.len(),
        acc == dec_val(digits.take(k)),
        d == digit_val(digits[k]),
        '0' <= digits[k] && digits[k] <= '9',
        acc * 10 + d > u128::MAX,
    ensures
        dec_val(digits) > 0x80000000000000000000000000000000,
{
    assert(digits.take(k + 1).take(k) =~= digits.take(k));
    assert(digits.take(k + 1).last() == digits[k]);
    assert(dec_val(digits.take(k + 1)) == acc * 10 + d);
    lemma_dec_val_prefix_le(digits, k + 1, digits.len() as int);
    assert(digits.take(digits.len() as int) =~= digits);
}

} // verus!
