//! Decimal notation of integers: how a number is written, and which texts
//! are read as a number.

use vstd::prelude::*;
use vstd::string::StringSliceAdditionalSpecFns;
use vstd::string::StringExecFns;

verus! {

/// Whether `c` is one of the ten decimal digits `0` to `9`.
pub open spec fn is_digit(c: char) -> bool {
    '0' <= c <= '9'
}

/// The number that the digit `c` stands for.
pub open spec fn digit_value(c: char) -> int {
    c as int - '0' as int
}

/// The digit that stands for `d`, for `d` from 0 to 9.
pub open spec fn digit_char(d: int) -> char {
    ('0' as int + d) as char
}

/// Whether every character of `s` is a decimal digit.
pub open spec fn all_digits(s: Seq<char>) -> bool {
    forall|i: int| 0 <= i < s.len() ==> is_digit(#[trigger] s[i])
}

/// The number that a run of digits stands for, the last digit counting
/// least. The empty run stands for 0.
pub open spec fn digits_value(s: Seq<char>) -> int
    decreases s.len(),
{
    if s.len() == 0 {
        0
    } else {
        10 * digits_value(s.drop_last()) + digit_value(s.last())
    }
}

/// The digits of a natural number, without leading zeros; 0 is written `0`.
pub open spec fn nat_digits(n: nat) -> Seq<char>
    decreases n,
{
    if n < 10 {
        seq![digit_char(n as int)]
    } else {
        nat_digits(n / 10).push(digit_char((n % 10) as int))
    }
}

/// The decimal notation of `n`: its digits, with `-` in front of a negative
/// number.
pub open spec fn decimal(n: int) -> Seq<char> {
    if n < 0 {
        seq!['-'] + nat_digits((-n) as nat)
    } else {
        nat_digits(n as nat)
    }
}

/// The number that a text without a sign stands for: the text is a run of
/// at least one digit.
pub open spec fn parse_unsigned(s: Seq<char>) -> Option<int> {
    if s.len() > 0 && all_digits(s) {
        Some(digits_value(s))
    } else {
        None
    }
}

/// The number read behind a sign: negated where the sign was `-`.
pub open spec fn with_sign(negative: bool, unsigned: Option<int>) -> Option<int> {
    match unsigned {
        Some(v) => Some(if negative {
            -v
        } else {
            v
        }),
        None => None,
    }
}

/// The integer that a text stands for, if it stands for one: an optional
/// sign, `+` or `-`, and then at least one digit, with nothing before,
/// between or after.
pub open spec fn parse_integer(s: Seq<char>) -> Option<int> {
    if s.len() > 0 && s[0] == '+' {
        parse_unsigned(s.skip(1))
    } else if s.len() > 0 && s[0] == '-' {
        with_sign(true, parse_unsigned(s.skip(1)))
    } else {
        parse_unsigned(s)
    }
}

/// Whether a text has the shape of an integer: an optional sign, `+` or
/// `-`, and then digits only, at least one.
pub open spec fn is_numeric(s: Seq<char>) -> bool {
    let digits = if s.len() > 0 && (s[0] == '+' || s[0] == '-') {
        s.skip(1)
    } else {
        s
    };
    digits.len() > 0 && all_digits(digits)
}

/// A text stands for an integer exactly where it has the shape of one.
pub proof fn lemma_numeric_texts_are_read(s: Seq<char>)
    ensures
        parse_integer(s) is Some <==> is_numeric(s),
{
}

/// The run of digits `s` stands for a natural number.
pub proof fn lemma_digits_value_nonnegative(s: Seq<char>)
    requires
        all_digits(s),
    ensures
        digits_value(s) >= 0,
    decreases s.len(),
{
    if s.len() > 0 {
        lemma_digits_value_nonnegative(s.drop_last());
    }
}

/// The digits of a natural number are digits, at least one of them, and
/// they stand for that number.
pub proof fn lemma_nat_digits_read_back(n: nat)
    ensures
        nat_digits(n).len() > 0,
        all_digits(nat_digits(n)),
        digits_value(nat_digits(n)) == n,
    decreases n,
{
    if n < 10 {
        let s = nat_digits(n);
        assert(s.drop_last() =~= Seq::<char>::empty());
        assert(digits_value(s.drop_last()) == 0);
    } else {
        lemma_nat_digits_read_back(n / 10);
        let head = nat_digits(n / 10);
        let s = nat_digits(n);
        assert(s.drop_last() =~= head);
        assert(s.last() == digit_char((n % 10) as int));
    }
}

/// Reading what was written gives the number back.
pub proof fn lemma_decimal_read_back(n: int)
    ensures
        parse_integer(decimal(n)) == Some(n),
{
    if n < 0 {
        let m = (-n) as nat;
        lemma_nat_digits_read_back(m);
        assert(decimal(n).skip(1) =~= nat_digits(m));
    } else {
        lemma_nat_digits_read_back(n as nat);
        assert(is_digit(nat_digits(n as nat)[0]));
    }
}

/// The text of one digit.
fn digit_text(d: u64) -> (text: &'static str)
    requires
        d < 10,
    ensures
        text@ == seq![digit_char(d as int)],
{
    proof {
        reveal_strlit("0");
        reveal_strlit("1");
        reveal_strlit("2");
        reveal_strlit("3");
        reveal_strlit("4");
        reveal_strlit("5");
        reveal_strlit("6");
        reveal_strlit("7");
        reveal_strlit("8");
        reveal_strlit("9");
    }
    let text = if d == 0 {
        "0"
    } else if d == 1 {
        "1"
    } else if d == 2 {
        "2"
    } else if d == 3 {
        "3"
    } else if d == 4 {
        "4"
    } else if d == 5 {
        "5"
    } else if d == 6 {
        "6"
    } else if d == 7 {
        "7"
    } else if d == 8 {
        "8"
    } else {
        "9"
    };
    assert(text@ =~= seq![digit_char(d as int)]);
    text
}

/// Appends the digits of `n` to `out`.
fn push_digits(out: &mut String, n: u64)
    ensures
        final(out)@ == old(out)@ + nat_digits(n as nat),
    decreases n,
{
    if n >= 10 {
        push_digits(out, n / 10);
    }
    out.append(digit_text(n % 10));
    proof {
        if n >= 10 {
            assert(old(out)@ + nat_digits((n / 10) as nat) + seq![digit_char((n % 10) as int)]
                =~= old(out)@ + nat_digits(n as nat));
        }
    }
}

/// The distance of `n` from 0.
fn magnitude(n: i64) -> (m: u64)
    ensures
        n >= 0 ==> m == n,
        n < 0 ==> m == -n,
{
    if n >= 0 {
        n as u64
    } else if n == i64::MIN {
        0x8000_0000_0000_0000u64
    } else {
        (-n) as u64
    }
}

/// Writes `n` in decimal notation.
pub fn decimal_string(n: i64) -> (text: String)
    ensures
        text@ == decimal(n as int),
{
    let mut text = String::new();
    if n < 0 {
        text.append("-");
        proof {
            reveal_strlit("-");
            assert(text@ =~= seq!['-']);
        }
    }
    push_digits(&mut text, magnitude(n));
    proof {
        if n >= 0 {
            assert(Seq::<char>::empty() + nat_digits(n as nat) =~= nat_digits(n as nat));
        }
    }
    text
}

/// ASCII code of `+`.
const PLUS_SIGN: u8 = 43;

/// ASCII code of `-`.
const MINUS_SIGN: u8 = 45;

/// ASCII code of the digit `0`.
const DIGIT_ZERO: u8 = 48;

/// ASCII code of the digit `9`.
const DIGIT_NINE: u8 = 57;

/// The largest distance from 0 that an `i64` can have: that of `i64::MIN`.
const MAX_MAGNITUDE: u64 = 0x8000_0000_0000_0000;

/// The 64-bit integer that a text stands for: the integer it stands for,
/// where that integer fits in 64 bits.
pub open spec fn parse_i64_spec(s: Seq<char>) -> Option<i64> {
    match parse_integer(s) {
        Some(v) => if i64::MIN <= v <= i64::MAX {
            Some(v as i64)
        } else {
            None
        },
        None => None,
    }
}

/// A run of digits stands for no less than any run it begins with.
pub proof fn lemma_digits_value_prefix(s: Seq<char>, k: int)
    requires
        all_digits(s),
        0 <= k <= s.len(),
    ensures
        0 <= digits_value(s.take(k)) <= digits_value(s),
    decreases s.len(),
{
    if k < s.len() {
        lemma_digits_value_prefix(s.drop_last(), k);
        lemma_digits_value_nonnegative(s.drop_last());
        assert(s.drop_last().take(k) =~= s.take(k));
    } else {
        assert(s.take(k) =~= s);
        lemma_digits_value_nonnegative(s);
    }
}

/// A text that stands for an integer holds signs and digits only, all of
/// them ASCII characters.
pub proof fn lemma_integer_text_is_ascii(s: Seq<char>)
    requires
        parse_integer(s) is Some,
    ensures
        vstd::utf8::is_ascii_chars(s),
{
    assert forall|i: int| 0 <= i < s.len() implies '\0' <= #[trigger] s[i] <= '\u{7f}' by {
        if s[0] == '+' || s[0] == '-' {
            if i > 0 {
                assert(s.skip(1)[i - 1] == s[i]);
                assert(is_digit(s.skip(1)[i - 1]));
            }
        } else {
            assert(is_digit(s[i]));
        }
    }
}

/// Reads a 64-bit integer in decimal notation: an optional sign and at
/// least one digit, and nothing else. Any other text, and a number that
/// does not fit in 64 bits, gives `None`.
pub fn parse_i64(text: &str) -> (number: Option<i64>)
    ensures
        number == parse_i64_spec(text@),
{
    broadcast use vstd::string::is_ascii_spec_bytes;

    if !text.is_ascii() {
        proof {
            if parse_integer(text@) is Some {
                lemma_integer_text_is_ascii(text@);
            }
        }
        return None;
    }
    let bytes = text.as_bytes();
    let len: usize = bytes.len();
    assert(len == text@.len());
    if len == 0 {
        return None;
    }
    let first: u8 = bytes[0];
    let negative = first == MINUS_SIGN;
    let start: usize = if first == PLUS_SIGN || first == MINUS_SIGN {
        1
    } else {
        0
    };
    let ghost digits = text@.skip(start as int);
    proof {
        assert(first == PLUS_SIGN <==> text@[0] == '+');
        assert(first == MINUS_SIGN <==> text@[0] == '-');
        assert(start == 0 ==> digits =~= text@);
        assert(parse_integer(text@) == with_sign(negative, parse_unsigned(digits)));
    }
    if start == len {
        return None;
    }
    let mut value: u64 = 0;
    let mut i: usize = start;
    while i < len
        invariant
            text.is_ascii(),
            len == text@.len(),
            bytes@ == text.spec_bytes(),
            start <= i <= len,
            digits == text@.skip(start as int),
            parse_integer(text@) == with_sign(negative, parse_unsigned(digits)),
            all_digits(digits.take(i - start)),
            value == digits_value(digits.take(i - start)),
            value <= MAX_MAGNITUDE,
        decreases len - i,
    {
        let byte: u8 = bytes[i];
        assert(digits[i - start] == text@[i as int]);
        if byte < DIGIT_ZERO || byte > DIGIT_NINE {
            assert(!all_digits(digits));
            return None;
        }
        let ghost longer = digits.take(i - start + 1);
        proof {
            assert(longer.drop_last() =~= digits.take(i - start));
            assert(longer.last() == text@[i as int]);
            assert(all_digits(longer));
            if all_digits(digits) {
                lemma_digits_value_prefix(digits, i - start + 1);
            }
        }
        if value > MAX_MAGNITUDE / 10 {
            return None;
        }
        value = value * 10 + (byte - DIGIT_ZERO) as u64;
        if value > MAX_MAGNITUDE {
            return None;
        }
        i = i + 1;
    }
    assert(digits.take(i - start) =~= digits);
    if negative {
        if value == MAX_MAGNITUDE {
            Some(i64::MIN)
        } else {
            Some(-(value as i64))
        }
    } else if value > i64::MAX as u64 {
        None
    } else {
        Some(value as i64)
    }
}

} // verus!
