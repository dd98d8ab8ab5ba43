//! Decimal numbers in text: reading a 16-bit scale and writing one out.

use vstd::prelude::*;

verus! {

/// The ten decimal digits.
pub open spec fn is_digit(c: char) -> bool {
    '0' <= c <= '9'
}

/// What a decimal digit counts for.
pub open spec fn digit_value(c: char) -> int {
    c as int - '0' as int
}

/// Every character of `s` is a decimal digit.
pub open spec fn all_digits(s: Seq<char>) -> bool {
    forall|i: int| 0 <= i < s.len() ==> is_digit(#[trigger] s[i])
}

/// The number that a run of decimal digits writes.
pub open spec fn digits_value(s: Seq<char>) -> int
    decreases s.len(),
{
    if s.len() == 0 {
        0
    } else {
        10 * digits_value(s.drop_last()) + digit_value(s.last())
    }
}

/// `s` without one leading sign.
pub open spec fn unsigned_part(s: Seq<char>) -> Seq<char> {
    if s.len() > 0 && (s[0] == '-' || s[0] == '+') {
        s.drop_first()
    } else {
        s
    }
}

/// The integer that `s` writes in decimal: an optional `+` or `-`, then one
/// or more digits and nothing else.
pub open spec fn parse_int(s: Seq<char>) -> Option<int> {
    let body = unsigned_part(s);
    if body.len() == 0 || !all_digits(body) {
        None
    } else if s[0] == '-' {
        Some(-digits_value(body))
    } else {
        Some(digits_value(body))
    }
}

/// The 16-bit number that `s` writes, if it writes one that fits.
pub open spec fn parse_scale(s: Seq<char>) -> Option<i16> {
    match parse_int(s) {
        Some(v) => if i16::MIN <= v <= i16::MAX {
            Some(v as i16)
        } else {
            None
        },
        None => None,
    }
}

/// A run of digits counts for at least as much as any of its beginnings.
pub proof fn digits_value_grows(s: Seq<char>, k: int)
    requires
        all_digits(s),
        0 <= k <= s.len(),
    ensures
        0 <= digits_value(s.take(k)) <= digits_value(s),
    decreases s.len() - k,
{
    digits_value_nonnegative(s.take(k));
    if k < s.len() {
        let next = s.take(k + 1);
        assert(next.drop_last() =~= s.take(k));
        assert(is_digit(next.last()));
        digits_value_grows(s, k + 1);
    } else {
        assert(s.take(k) =~= s);
    }
}

/// A run of digits counts for no less than zero.
pub proof fn digits_value_nonnegative(s: Seq<char>)
    requires
        all_digits(s),
    ensures
        0 <= digits_value(s),
    decreases s.len(),
{
    if s.len() > 0 {
        assert(is_digit(s.last()));
        digits_value_nonnegative(s.drop_last());
    }
}

/// Reads a 16-bit number from its decimal text.
pub fn read_scale(text: &Vec<char>) -> (r: Option<i16>)
    ensures
        r == parse_scale(text@),
{
    let n: usize = text.len();
    if n == 0 {
        return None;
    }
    let negative: bool = text[0] == '-';
    let start: usize = if text[0] == '-' || text[0] == '+' {
        1
    } else {
        0
    };
    if start == n {
        return None;
    }
    let ghost body = unsigned_part(text@);
    assert(body =~= text@.subrange(start as int, n as int));
    let mut value: i32 = 0;
    let mut k: usize = start;
    while k < n
        invariant
            start <= k <= n,
            n == text@.len(),
            body == text@.subrange(start as int, n as int),
            body == unsigned_part(text@),
            all_digits(body.take(k - start)),
            value == digits_value(body.take(k - start)),
            0 <= value <= 32768,
        decreases n - k,
    {
        let c: char = text[k];
        if !('0' <= c && c <= '9') {
            assert(body[k - start] == c);
            return None;
        }
        let d: i32 = (c as u32 - '0' as u32) as i32;
        proof {
            let next = body.take(k + 1 - start);
            assert(next.drop_last() =~= body.take(k - start));
            assert(next.last() == c);
            assert(all_digits(next)) by {
                assert forall|i: int| 0 <= i < next.len() implies is_digit(#[trigger] next[i]) by {
                    if i < next.len() - 1 {
                        assert(next[i] == body.take(k - start)[i]);
                    }
                }
            }
        }
        let grown: i32 = 10 * value + d;
        if grown > 32768 {
            proof {
                if all_digits(body) {
                    digits_value_grows(body, k + 1 - start);
                }
            }
            return None;
        }
        value = grown;
        k += 1;
    }
    assert(body.take(n - start) =~= body);
    if negative {
        Some((0 - value) as i16)
    } else if value == 32768 {
        None
    } else {
        Some(value as i16)
    }
}

/// The character of a decimal digit.
pub open spec fn digit_char(d: int) -> char {
    ('0' as int + d) as char
}

/// The decimal digits of a natural number, without leading zeros.
pub open spec fn digits_of(n: nat) -> Seq<char>
    decreases n,
{
    if n < 10 {
        seq![digit_char(n as int)]
    } else {
        digits_of(n / 10).push(digit_char((n % 10) as int))
    }
}

/// The decimal text of an integer, with `-` before a negative one.
pub open spec fn decimal(n: int) -> Seq<char> {
    if n < 0 {
        seq!['-'] + digits_of((-n) as nat)
    } else {
        digits_of(n as nat)
    }
}

/// Appends the decimal digits of `n` to `out`.
pub fn push_digits(n: u32, out: &mut Vec<char>)
    ensures
        final(out)@ == old(out)@ + digits_of(n as nat),
    decreases n,
{
    if n >= 10 {
        push_digits(n / 10, out);
    }
    let d: u8 = (n % 10) as u8;
    let c: char = (48u8 + d) as char;
    assert(c == digit_char((n % 10) as int));
    out.push(c);
    assert(out@ =~= old(out)@ + digits_of(n as nat));
}

/// Appends the decimal text of `n` to `out`.
pub fn push_decimal(n: i16, out: &mut Vec<char>)
    ensures
        final(out)@ == old(out)@ + decimal(n as int),
{
    if n < 0 {
        out.push('-');
        let magnitude: u32 = (0 - n as i32) as u32;
        push_digits(magnitude, out);
        assert(out@ =~= old(out)@ + decimal(n as int));
    } else {
        push_digits(n as u32, out);
    }
}

} // verus!
