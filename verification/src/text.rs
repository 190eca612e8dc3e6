//! Decimal text: rendering a mask as digits for the query string, and reading
//! the seconds count out of the rate-limit header.

use vstd::prelude::*;
use vstd::string::StrSliceExecFns;
use vstd::string::StringExecFns;

verus! {

/// The decimal digit character for `d` (meaningful for `d < 10`).
pub open spec fn digit_char(d: nat) -> char {
    if d == 0 {
        '0'
    } else if d == 1 {
        '1'
    } else if d == 2 {
        '2'
    } else if d == 3 {
        '3'
    } else if d == 4 {
        '4'
    } else if d == 5 {
        '5'
    } else if d == 6 {
        '6'
    } else if d == 7 {
        '7'
    } else if d == 8 {
        '8'
    } else {
        '9'
    }
}

/// The decimal rendering of `n`: no sign, no leading zeros.
pub open spec fn dec_str(n: nat) -> Seq<char>
    decreases n,
{
    if n < 10 {
        seq![digit_char(n)]
    } else {
        dec_str(n / 10) + seq![digit_char(n % 10)]
    }
}

/// Whether `c` is a decimal digit.
pub open spec fn is_dec_digit(c: char) -> bool {
    48 <= c as int && c as int <= 57
}

/// The numeric value of a digit character.
pub open spec fn digit_val(c: char) -> int {
    c as int - 48
}

/// The numeric value of a digit string, most significant digit first.
pub open spec fn dec_val(s: Seq<char>) -> int
    decreases s.len(),
{
    if s.len() == 0 {
        0
    } else {
        dec_val(s.drop_last()) * 10 + digit_val(s.last())
    }
}

/// What `str::parse::<u8>` accepts of a pure digit string: at least one digit,
/// nothing but digits, and a value that fits in a byte.
pub open spec fn u8_digits(s: Seq<char>) -> Option<u8> {
    if s.len() > 0 && (forall|i: int| 0 <= i < s.len() ==> is_dec_digit(s[i])) && dec_val(s)
        <= 255 {
        Some(dec_val(s) as u8)
    } else {
        None
    }
}

/// What `str::parse::<u8>` accepts: an optional leading plus sign, then digits.
pub open spec fn u8_parse(s: Seq<char>) -> Option<u8> {
    if s.len() > 0 && s[0] == '+' {
        u8_digits(s.skip(1))
    } else {
        u8_digits(s)
    }
}

/// One-character string for the digit `d`.
fn digit_str(d: u32) -> (r: &'static str)
    requires
        d < 10,
    ensures
        r@ == seq![digit_char(d as nat)],
{
    if d == 0 {
        proof {
            reveal_strlit("0");
            assert("0"@ =~= seq![digit_char(0)]);
        }
        "0"
    } else if d == 1 {
        proof {
            reveal_strlit("1");
            assert("1"@ =~= seq![digit_char(1)]);
        }
        "1"
    } else if d == 2 {
        proof {
            reveal_strlit("2");
            assert("2"@ =~= seq![digit_char(2)]);
        }
        "2"
    } else if d == 3 {
        proof {
            reveal_strlit("3");
            assert("3"@ =~= seq![digit_char(3)]);
        }
        "3"
    } else if d == 4 {
        proof {
            reveal_strlit("4");
            assert("4"@ =~= seq![digit_char(4)]);
        }
        "4"
    } else if d == 5 {
        proof {
            reveal_strlit("5");
            assert("5"@ =~= seq![digit_char(5)]);
        }
        "5"
    } else if d == 6 {
        proof {
            reveal_strlit("6");
            assert("6"@ =~= seq![digit_char(6)]);
        }
        "6"
    } else if d == 7 {
        proof {
            reveal_strlit("7");
            assert("7"@ =~= seq![digit_char(7)]);
        }
        "7"
    } else if d == 8 {
        proof {
            reveal_strlit("8");
            assert("8"@ =~= seq![digit_char(8)]);
        }
        "8"
    } else {
        proof {
            reveal_strlit("9");
            assert("9"@ =~= seq![digit_char(9)]);
        }
        "9"
    }
}

/// Render `n` in decimal.
pub fn u32_to_dec(n: u32) -> (r: String)
    ensures
        r@ == dec_str(n as nat),
    decreases n,
{
    if n < 10 {
        String::from_str(digit_str(n))
    } else {
        let mut s = u32_to_dec(n / 10);
        s.append(digit_str(n % 10));
        proof {
            assert(s@ =~= dec_str(n as nat));
        }
        s
    }
}

/// Read a byte count the way `str::parse::<u8>` would: an optional leading
/// plus sign, then one or more decimal digits whose value fits in a byte.
pub fn parse_u8(s: &str) -> (r: Option<u8>)
    ensures
        r == u8_parse(s@),
{
    let n = s.unicode_len();
    let start: usize = if n > 0 && s.get_char(0) == '+' {
        1
    } else {
        0
    };
    let ghost digits: Seq<char> = s@.skip(start as int);
    proof {
        if start == 0 {
            assert(digits =~= s@);
        }
    }
    if start >= n {
        return None;
    }
    // `acc` follows the value of the digits read so far, saturating at 256
    // once the value can no longer fit in a byte.
    let mut acc: u32 = 0;
    let mut i: usize = start;
    while i < n
        invariant
            start <= i <= n,
            n == s@.len(),
            start == 0 || start == 1,
            (start == 1) == (s@.len() > 0 && s@[0] == '+'),
            start == 0 ==> digits == s@,
            digits == s@.skip(start as int),
            forall|k: int| 0 <= k < i - start ==> is_dec_digit(digits[k]),
            acc <= 256,
            acc <= 255 ==> acc == dec_val(digits.take(i - start)),
            acc == 256 ==> dec_val(digits.take(i - start)) > 255,
        decreases n - i,
    {
        let c = s.get_char(i);
        let cv = c as u32;
        if cv < 48 || cv > 57 {
            proof {
                assert(!(forall|k: int| 0 <= k < digits.len() ==> is_dec_digit(digits[k]))) by {
                    assert(0 <= i - start < digits.len() && !is_dec_digit(digits[i - start]));
                }
            }
            return None;
        }
        proof {
            assert(digits.take(i + 1 - start).drop_last() =~= digits.take(i - start));
            assert(digits.take(i + 1 - start).last() == digits[i - start]);
        }
        if acc >= 256 {
            acc = 256;
        } else {
            let v = acc * 10 + (cv - 48);
            acc = if v > 255 {
                256
            } else {
                v
            };
        }
        i += 1;
    }
    proof {
        assert(digits.take(n - start) =~= digits);
    }
    if acc <= 255 {
        Some(acc as u8)
    } else {
        None
    }
}

} // verus!
