//! Verified text utilities: suffix matching on strings and decimal rendering
//! of the integer-valued metric fields.

use vstd::prelude::*;
use vstd::string::StrSliceExecFns;
use vstd::string::StringExecFns;

verus! {

/// `suffix` matches the end of `s`.
pub open spec fn ends_with_spec(s: Seq<char>, suffix: Seq<char>) -> bool {
    suffix.len() <= s.len() && s.subrange(s.len() - suffix.len(), s.len() as int) == suffix
}

/// Whether the string ends with the given suffix, compared character by
/// character.
pub fn str_ends_with(s: &str, suffix: &str) -> (r: bool)
    ensures
        r == ends_with_spec(s@, suffix@),
{
    let n = s.unicode_len();
    let m = suffix.unicode_len();
    if m > n {
        return false;
    }
    let mut i: usize = 0;
    while i < m
        invariant
            m <= n,
            n == s@.len(),
            m == suffix@.len(),
            i <= m,
            forall|j: int| 0 <= j < i ==> s@[n - m + j] == suffix@[j],
        decreases m - i,
    {
        if s.get_char(n - m + i) != suffix.get_char(i) {
            proof {
                assert(s@.subrange(n - m, n as int)[i as int] == s@[n - m + i]);
            }
            return false;
        }
        i += 1;
    }
    proof {
        assert(s@.subrange(n - m, n as int) =~= suffix@);
    }
    true
}

/// The character for one decimal digit.
pub open spec fn digit_char(d: int) -> char {
    if d == 0 {
        '0'
    } else if d == 1 {
        '1'
    } else if d == 2 {
        '2'
    } else if d == 3 {
        '3'
    } else if d == 4 {
        '4'
    } else if d == 5 {
        '5'
    } else if d == 6 {
        '6'
    } else if d == 7 {
        '7'
    } else if d == 8 {
        '8'
    } else {
        '9'
    }
}

/// Decimal text of a non-negative integer, most significant digit first.
pub open spec fn dec_str(n: int) -> Seq<char>
    decreases n,
{
    if n < 10 {
        seq![digit_char(n)]
    } else {
        dec_str(n / 10) + seq![digit_char(n % 10)]
    }
}

/// Decimal text of a signed integer: a minus sign before the magnitude for
/// negative values.
pub open spec fn int_dec_str(n: int) -> Seq<char> {
    if n < 0 {
        seq!['-'] + dec_str(-n)
    } else {
        dec_str(n)
    }
}

fn digit_str(d: u64) -> (r: &'static str)
    requires
        d < 10,
    ensures
        r@ == seq![digit_char(d as int)],
{
    proof {
        reveal_strlit("0");
        reveal_strlit("1");
        reveal_strlit("2");
        reveal_strlit("3");
        reveal_strlit("4");
        reveal_strlit("5");
        reveal_strlit("6");
        reveal_strlit("7");
        reveal_strlit("8");
        reveal_strlit("9");
    }
    let r = if d == 0 {
        "0"
    } else if d == 1 {
        "1"
    } else if d == 2 {
        "2"
    } else if d == 3 {
        "3"
    } else if d == 4 {
        "4"
    } else if d == 5 {
        "5"
    } else if d == 6 {
        "6"
    } else if d == 7 {
        "7"
    } else if d == 8 {
        "8"
    } else {
        "9"
    };
    proof {
        assert(r@ =~= seq![digit_char(d as int)]);
    }
    r
}

/// Appends the decimal text of `n` to `buf`.
pub fn push_u64_decimal(buf: &mut String, n: u64)
    ensures
        final(buf)@ == old(buf)@ + dec_str(n as int),
    decreases n,
{
    if n >= 10 {
        push_u64_decimal(buf, n / 10);
    }
    buf.append(digit_str(n % 10));
    proof {
        if n >= 10 {
            assert(old(buf)@ + dec_str(n as int) =~= (old(buf)@ + dec_str(n as int / 10)) + seq![
                digit_char(n as int % 10),
            ]);
        } else {
            assert(old(buf)@ + dec_str(n as int) =~= old(buf)@ + seq![digit_char(n as int)]);
        }
    }
}

/// Appends the decimal text of `n` to `buf`, with a minus sign for negative
/// values.
pub fn push_i8_decimal(buf: &mut String, n: i8)
    ensures
        final(buf)@ == old(buf)@ + int_dec_str(n as int),
{
    if n < 0 {
        buf.append("-");
        let magnitude: i64 = -(n as i64);
        push_u64_decimal(buf, magnitude as u64);
        proof {
            reveal_strlit("-");
            assert(("-")@ =~= seq!['-']);
            assert(old(buf)@ + int_dec_str(n as int) =~= (old(buf)@ + seq!['-']) + dec_str(
                -(n as int),
            ));
        }
    } else {
        push_u64_decimal(buf, n as u64);
    }
}

/// Decimal text of `n` as an owned string.
pub fn u64_to_string(n: u64) -> (r: String)
    ensures
        r@ == dec_str(n as int),
{
    let mut buf = String::new();
    push_u64_decimal(&mut buf, n);
    proof {
        assert(Seq::<char>::empty() + dec_str(n as int) =~= dec_str(n as int));
    }
    buf
}

/// Decimal text of `n` as an owned string, with a minus sign for negative
/// values.
pub fn i8_to_string(n: i8) -> (r: String)
    ensures
        r@ == int_dec_str(n as int),
{
    let mut buf = String::new();
    push_i8_decimal(&mut buf, n);
    proof {
        assert(Seq::<char>::empty() + int_dec_str(n as int) =~= int_dec_str(n as int));
    }
    buf
}

} // verus!
