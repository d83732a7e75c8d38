//! Whole numbers as decimal text: how a temperature is read from a page and
//! how it is written into a status line.

use crate::text::chars_of;
use vstd::arithmetic::div_mod::lemma_fundamental_div_mod;
use vstd::prelude::*;

verus! {

/// The character that writes the digit `d`.
pub open spec fn digit_char(d: int) -> char {
    if d == 0 {
        '0'
    } else if d == 1 {
        '1'
    } else if d == 2 {
        '2'
    } else if d == 3 {
        '3'
    } else if d == 4 {
        '4'
    } else if d == 5 {
        '5'
    } else if d == 6 {
        '6'
    } else if d == 7 {
        '7'
    } else if d == 8 {
        '8'
    } else {
        '9'
    }
}

/// Whether `c` is one of the ASCII digits `0` to `9`.
pub open spec fn is_digit(c: char) -> bool {
    '0' <= c <= '9'
}

/// The number that the digit `c` writes.
pub open spec fn digit_value(c: char) -> int {
    c as int - '0' as int
}

/// The decimal digits of `n`, most significant first, without leading zeros.
pub open spec fn decimal(n: nat) -> Seq<char>
    decreases n,
{
    if n < 10 {
        seq![digit_char(n as int)]
    } else {
        decimal(n / 10).push(digit_char((n % 10) as int))
    }
}

/// `v` in decimal, with a leading `-` where it is negative.
pub open spec fn signed_decimal(v: int) -> Seq<char> {
    if v < 0 {
        seq!['-'] + decimal((-v) as nat)
    } else {
        decimal(v as nat)
    }
}

/// `v` in decimal with its sign always written: `+` where `v` is zero or
/// more, `-` where it is negative.
pub open spec fn explicit_sign_decimal(v: int) -> Seq<char> {
    if v < 0 {
        seq!['-'] + decimal((-v) as nat)
    } else {
        seq!['+'] + decimal(v as nat)
    }
}

/// Whether `s` holds ASCII digits only.
pub open spec fn all_digits(s: Seq<char>) -> bool {
    forall|i: int| 0 <= i < s.len() ==> is_digit(#[trigger] s[i])
}

/// The number that the digits `s` write in base ten.
pub open spec fn digits_value(s: Seq<char>) -> nat
    decreases s.len(),
{
    if s.len() == 0 {
        0
    } else {
        (10 * digits_value(s.drop_last()) + digit_value(s.last())) as nat
    }
}

/// The number that `s` writes: an optional sign `+` or `-`, then one or more
/// ASCII digits and nothing else. `None` for any other text.
pub open spec fn parsed_int(s: Seq<char>) -> Option<int> {
    let negative = s.len() > 0 && s[0] == '-';
    let digits = if s.len() > 0 && (s[0] == '-' || s[0] == '+') {
        s.skip(1)
    } else {
        s
    };
    if digits.len() == 0 || !all_digits(digits) {
        None
    } else if negative {
        Some(-(digits_value(digits) as int))
    } else {
        Some(digits_value(digits) as int)
    }
}

/// The 16-bit number that `s` writes; `None` where `s` writes no number or
/// one outside the range of `i16`.
pub open spec fn parsed_i16(s: Seq<char>) -> Option<i16> {
    match parsed_int(s) {
        Some(v) => if i16::MIN <= v <= i16::MAX {
            Some(v as i16)
        } else {
            None
        },
        None => None,
    }
}

/// More digits never write a smaller number.
proof fn lemma_digits_value_grows(s: Seq<char>, k: int)
    requires
        0 <= k <= s.len(),
        all_digits(s),
    ensures
        digits_value(s.take(k)) <= digits_value(s),
    decreases s.len() - k,
{
    if k < s.len() {
        let front = s.drop_last();
        assert(is_digit(s[s.len() - 1]));
        assert forall|i: int| 0 <= i < front.len() implies is_digit(#[trigger] front[i]) by {
            assert(is_digit(s[i]));
        }
        lemma_digits_value_grows(front, k);
        assert(front.take(k) =~= s.take(k));
    } else {
        assert(s.take(k) =~= s);
    }
}

/// The 16-bit number that `text` writes in decimal.
pub fn parse_i16(text: &str) -> (number: Option<i16>)
    ensures
        number == parsed_i16(text@),
{
    let chars = chars_of(text);
    let n: usize = chars.len();
    if n == 0 {
        return None;
    }
    let negative = chars[0] == '-';
    let start: usize = if chars[0] == '-' || chars[0] == '+' {
        1
    } else {
        0
    };
    if start == n {
        return None;
    }
    let ghost digits = chars@.skip(start as int);
    proof {
        assert(chars@.skip(0) =~= chars@);
    }
    let mut value: i32 = 0;
    let mut i: usize = start;
    while i < n
        invariant
            start <= i <= n,
            n == chars.len(),
            chars@ == text@,
            negative == (chars@[0] == '-'),
            start == if chars@[0] == '-' || chars@[0] == '+' { 1usize } else { 0usize },
            digits == chars@.skip(start as int),
            digits == if start == 0 { chars@ } else { chars@.skip(1) },
            all_digits(digits.take(i - start)),
            value == digits_value(digits.take(i - start)),
            0 <= value <= 32768,
        decreases n - i,
    {
        let c = chars[i];
        let ghost seen = digits.take(i - start);
        let ghost next = digits.take(i + 1 - start);
        proof {
            assert(next.drop_last() =~= seen);
            assert(next.last() == c);
        }
        if !('0' <= c && c <= '9') {
            proof {
                assert(!is_digit(digits[i - start]));
            }
            return None;
        }
        let d: i32 = (c as u32 - '0' as u32) as i32;
        value = value * 10 + d;
        proof {
            assert forall|j: int| 0 <= j < next.len() implies is_digit(#[trigger] next[j]) by {
                if j < seen.len() {
                    assert(is_digit(seen[j]));
                }
            }
        }
        if value > 32768 {
            proof {
                if all_digits(digits) {
                    lemma_digits_value_grows(digits, i + 1 - start);
                }
            }
            return None;
        }
        i += 1;
    }
    proof {
        assert(digits.take(n - start) =~= digits);
    }
    if negative {
        Some((-value) as i16)
    } else if value <= 32767 {
        Some(value as i16)
    } else {
        None
    }
}

/// The character that writes the digit `d`.
fn digit(d: u16) -> (c: char)
    requires
        d < 10,
    ensures
        c == digit_char(d as int),
{
    if d == 0 {
        '0'
    } else if d == 1 {
        '1'
    } else if d == 2 {
        '2'
    } else if d == 3 {
        '3'
    } else if d == 4 {
        '4'
    } else if d == 5 {
        '5'
    } else if d == 6 {
        '6'
    } else if d == 7 {
        '7'
    } else if d == 8 {
        '8'
    } else {
        '9'
    }
}

/// Appends the decimal digits of `n` to `text`.
fn push_decimal(text: &mut String, n: u16)
    ensures
        final(text)@ == old(text)@ + decimal(n as nat),
    decreases n,
{
    if n >= 10 {
        push_decimal(text, n / 10);
    }
    text.push(digit(n % 10));
    proof {
        if n >= 10 {
            assert(old(text)@ + decimal((n / 10) as nat).push(digit_char((n % 10) as int))
                =~= (old(text)@ + decimal((n / 10) as nat)).push(digit_char((n % 10) as int)));
        } else {
            assert(old(text)@ + seq![digit_char(n as int)] =~= old(text)@.push(
                digit_char(n as int),
            ));
        }
    }
}

/// The size of `v` without its sign.
fn magnitude(v: i16) -> (m: u16)
    ensures
        m == if v < 0 {
            -(v as int)
        } else {
            v as int
        },
{
    let wide: i32 = v as i32;
    if wide < 0 {
        (-wide) as u16
    } else {
        wide as u16
    }
}

/// `v` in decimal, with a leading `-` where it is negative.
pub fn decimal_string(v: i16) -> (text: String)
    ensures
        text@ == signed_decimal(v as int),
{
    let mut text = String::new();
    if v < 0 {
        text.push('-');
    }
    push_decimal(&mut text, magnitude(v));
    proof {
        assert(Seq::<char>::empty().push('-') =~= seq!['-']);
        assert(Seq::<char>::empty() + decimal(v as nat) =~= decimal(v as nat));
    }
    text
}

/// `v` in decimal with its sign always written: `+` where `v` is zero or
/// more, `-` where it is negative.
pub fn explicit_sign_string(v: i16) -> (text: String)
    ensures
        text@ == explicit_sign_decimal(v as int),
{
    let mut text = String::new();
    if v < 0 {
        text.push('-');
    } else {
        text.push('+');
    }
    push_decimal(&mut text, magnitude(v));
    proof {
        assert(Seq::<char>::empty().push('-') =~= seq!['-']);
        assert(Seq::<char>::empty().push('+') =~= seq!['+']);
    }
    text
}

/// The character of a digit is a digit and writes it.
proof fn lemma_digit_char(d: int)
    requires
        0 <= d < 10,
    ensures
        is_digit(digit_char(d)),
        digit_value(digit_char(d)) == d,
{
}

/// The decimal digits of `n` are digits, at least one, and write `n`.
pub proof fn lemma_decimal_writes(n: nat)
    ensures
        decimal(n).len() > 0,
        all_digits(decimal(n)),
        digits_value(decimal(n)) == n,
    decreases n,
{
    let whole = decimal(n);
    if n >= 10 {
        let front = decimal(n / 10);
        lemma_decimal_writes(n / 10);
        lemma_digit_char((n % 10) as int);
        assert(whole.drop_last() =~= front);
        assert(whole.last() == digit_char((n % 10) as int));
        assert forall|i: int| 0 <= i < whole.len() implies is_digit(#[trigger] whole[i]) by {
            if i < front.len() {
                assert(is_digit(front[i]));
            }
        }
        lemma_fundamental_div_mod(n as int, 10);
    } else {
        lemma_digit_char(n as int);
        assert(whole.drop_last() =~= Seq::<char>::empty());
        assert(whole.last() == digit_char(n as int));
        assert(digits_value(whole.drop_last()) == 0);
    }
}

/// Reading back what was written gives the number again, with either way of
/// writing the sign.
pub proof fn lemma_parse_inverts_write(v: int)
    ensures
        parsed_int(signed_decimal(v)) == Some(v),
        parsed_int(explicit_sign_decimal(v)) == Some(v),
{
    let size: nat = if v < 0 {
        (-v) as nat
    } else {
        v as nat
    };
    let digits = decimal(size);
    lemma_decimal_writes(size);
    assert(is_digit(digits[0]));
    assert((seq!['-'] + digits).skip(1) =~= digits);
    assert((seq!['+'] + digits).skip(1) =~= digits);
}

} // verus!
