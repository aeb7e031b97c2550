//! Decimal spellings of integers: the repetition engine turns the binder
//! into a decimal literal and pastes decimal text onto identifiers, and
//! the range bounds are read back from decimal literals.

use vstd::prelude::*;
use vstd::string::*;

verus! {

/// The largest magnitude a range bound may have: fifteen decimal digits.
pub const DEC_MAX: u64 = 999_999_999_999_999;

/// The character of one decimal digit value.
pub open spec fn digit_char(d: int) -> char {
    ((48 + d) as u8) as char
}

/// The decimal digits of a non-negative integer, most significant first.
pub open spec fn dec_digits(n: int) -> Seq<char>
    decreases n,
{
    if n < 10 {
        seq![digit_char(n)]
    } else {
        dec_digits(n / 10) + seq![digit_char(n % 10)]
    }
}

/// The decimal spelling of an integer: a minus sign when negative, then
/// the digits of its magnitude.
pub open spec fn dec_chars(i: int) -> Seq<char> {
    if i < 0 {
        seq!['-'] + dec_digits(-i)
    } else {
        dec_digits(i)
    }
}

/// Is `c` a decimal digit?
pub open spec fn is_digit(c: char) -> bool {
    '0' <= c && c <= '9'
}

/// The value of a digit character.
pub open spec fn digit_val(c: char) -> int {
    c as int - 48
}

/// Does `s` spell a plain decimal number: nothing but digits, at least one?
pub open spec fn is_digits(s: Seq<char>) -> bool {
    s.len() > 0 && forall|i: int| 0 <= i < s.len() ==> is_digit(#[trigger] s[i])
}

/// The number a digit sequence spells.
pub open spec fn dec_value(s: Seq<char>) -> int
    decreases s.len(),
{
    if s.len() == 0 {
        0
    } else {
        dec_value(s.drop_last()) * 10 + digit_val(s.last())
    }
}

/// The spelling of one digit value.
fn digit_str(d: u64) -> (s: &'static str)
    requires
        d < 10,
    ensures
        s@ =~= seq![digit_char(d as int)],
{
    proof {
        reveal_strlit("0");
        reveal_strlit("1");
        reveal_strlit("2");
        reveal_strlit("3");
        reveal_strlit("4");
        reveal_strlit("5");
        reveal_strlit("6");
        reveal_strlit("7");
        reveal_strlit("8");
        reveal_strlit("9");
    }
    if d == 0 {
        "0"
    } else if d == 1 {
        "1"
    } else if d == 2 {
        "2"
    } else if d == 3 {
        "3"
    } else if d == 4 {
        "4"
    } else if d == 5 {
        "5"
    } else if d == 6 {
        "6"
    } else if d == 7 {
        "7"
    } else if d == 8 {
        "8"
    } else {
        "9"
    }
}

/// The decimal spelling of a non-negative number.
fn dec_string_u(n: u64) -> (s: String)
    ensures
        s@ == dec_digits(n as int),
    decreases n,
{
    if n < 10 {
        String::from_str(digit_str(n))
    } else {
        let mut s = dec_string_u(n / 10);
        s.append(digit_str(n % 10));
        s
    }
}

/// The decimal spelling of `i`, sign included.
pub fn dec_string(i: i64) -> (s: String)
    requires
        i != i64::MIN,
    ensures
        s@ == dec_chars(i as int),
{
    if i < 0 {
        let mut s = String::from_str("-");
        proof {
            reveal_strlit("-");
        }
        let m = dec_string_u((-i) as u64);
        s.append(&m);
        s
    } else {
        dec_string_u(i as u64)
    }
}

/// Ten to the power `k`.
pub open spec fn pow10(k: int) -> int
    decreases k,
{
    if k <= 0 {
        1
    } else {
        10 * pow10(k - 1)
    }
}

/// `pow10` is positive.
proof fn lemma_pow10_pos(k: int)
    ensures
        pow10(k) >= 1,
    decreases k,
{
    if k > 0 {
        lemma_pow10_pos(k - 1);
    }
}

/// `pow10` grows with its exponent.
proof fn lemma_pow10_le(a: int, b: int)
    requires
        0 <= a <= b,
    ensures
        pow10(a) <= pow10(b),
    decreases b - a,
{
    lemma_pow10_pos(a);
    if a < b {
        lemma_pow10_le(a, b - 1);
        lemma_pow10_pos(b - 1);
    }
}

/// Reads a decimal literal of at most fifteen digits back into a number:
/// `Some` exactly on texts that spell one.
#[verifier::loop_isolation(false)]
pub fn parse_dec(text: &String) -> (r: Option<u64>)
    ensures
        match r {
            Some(v) => is_digits(text@) && text@.len() <= 15 && v == dec_value(text@) && v
                <= DEC_MAX,
            None => !(is_digits(text@) && text@.len() <= 15),
        },
{
    let s: &str = &*text;
    let n = s.unicode_len();
    if n == 0 || n > 15 {
        return None;
    }
    let mut v: u64 = 0;
    let mut k: usize = 0;
    while k < n
        invariant
            k <= n,
            forall|i: int| 0 <= i < k ==> is_digit(#[trigger] text@[i]),
            v == dec_value(text@.take(k as int)),
            v < pow10(k as int),
        decreases n - k,
    {
        let c = s.get_char(k);
        let cu = c as u32;
        if !(cu >= 48 && cu <= 57) {
            return None;
        }
        proof {
            assert(text@.take(k + 1 as int).drop_last() =~= text@.take(k as int));
            assert(text@.take(k + 1 as int).last() == text@[k as int]);
            lemma_pow10_le(k as int, 14);
            reveal_with_fuel(pow10, 16);
            assert(pow10(14) == 100_000_000_000_000);
        }
        v = v * 10 + (cu - 48) as u64;
        k = k + 1;
    }
    proof {
        assert(text@.take(n as int) =~= text@);
        lemma_pow10_le(n as int, 15);
        reveal_with_fuel(pow10, 16);
        assert(pow10(15) == 1_000_000_000_000_000);
    }
    Some(v)
}

} // verus!
