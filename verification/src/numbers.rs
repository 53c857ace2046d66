//! Numbers in decimal and hexadecimal notation.

use vstd::prelude::*;

verus! {

/// The value of `c` as a digit in base `radix`: `0`-`9`, then the letters in
/// either case from ten on. `None` where `c` is no digit of that base.
pub open spec fn digit_value(c: char, radix: int) -> Option<int> {
    let n = c as u32;
    let v: int = if '0' <= c <= '9' {
        n - 48
    } else if 'a' <= c <= 'z' {
        n - 97 + 10
    } else if 'A' <= c <= 'Z' {
        n - 65 + 10
    } else {
        -1
    };
    if 0 <= v < radix {
        Some(v)
    } else {
        None
    }
}

/// The number that the digits `s` write in base `radix`; `None` where a
/// character of `s` is no digit. The empty string writes 0.
pub open spec fn digits_value(s: Seq<char>, radix: int) -> Option<int>
    decreases s.len(),
{
    if s.len() == 0 {
        Some(0)
    } else {
        match (digits_value(s.drop_last(), radix), digit_value(s.last(), radix)) {
            (Some(high), Some(digit)) => Some(high * radix + digit),
            _ => None,
        }
    }
}

/// The number that `s` writes in base `radix`, as std's `from_str_radix`
/// reads an unsigned integer: an optional `+`, then at least one digit, and
/// nothing else; `None` for any other text and for a number above `max`.
pub open spec fn unsigned_value(s: Seq<char>, radix: int, max: int) -> Option<int> {
    let digits = if s.len() > 0 && s[0] == '+' {
        s.drop_first()
    } else {
        s
    };
    if digits.len() == 0 {
        None
    } else {
        match digits_value(digits, radix) {
            Some(v) => if v <= max {
                Some(v)
            } else {
                None
            },
            None => None,
        }
    }
}

/// A number is at least the number that any prefix of its digits writes.
pub proof fn lemma_digits_value_prefix(s: Seq<char>, radix: int, n: int)
    requires
        0 <= n <= s.len(),
        radix >= 1,
        digits_value(s, radix) is Some,
    ensures
        digits_value(s.take(n), radix) matches Some(v) && 0 <= v <= digits_value(s, radix)->0,
    decreases s.len(),
{
    if n == s.len() {
        assert(s.take(n) =~= s);
        lemma_digits_value_nonnegative(s, radix);
    } else {
        lemma_digits_value_prefix(s.drop_last(), radix, n);
        assert(s.drop_last().take(n) =~= s.take(n));
        let high = digits_value(s.drop_last(), radix)->0;
        lemma_digits_value_nonnegative(s.drop_last(), radix);
        assert(high * radix >= high) by (nonlinear_arith)
            requires
                high >= 0,
                radix >= 1,
        ;
    }
}

/// No digits write a negative number.
pub proof fn lemma_digits_value_nonnegative(s: Seq<char>, radix: int)
    requires
        radix >= 1,
        digits_value(s, radix) is Some,
    ensures
        digits_value(s, radix)->0 >= 0,
    decreases s.len(),
{
    if s.len() > 0 {
        lemma_digits_value_nonnegative(s.drop_last(), radix);
        let high = digits_value(s.drop_last(), radix)->0;
        assert(high * radix >= 0) by (nonlinear_arith)
            requires
                high >= 0,
                radix >= 1,
        ;
    }
}

/// The value of `c` as a digit in base `radix`.
pub fn digit(c: char, radix: u32) -> (r: Option<u32>)
    requires
        2 <= radix <= 36,
    ensures
        match r {
            Some(v) => digit_value(c, radix as int) == Some(v as int),
            None => digit_value(c, radix as int) is None,
        },
{
    let n: u32 = c as u32;
    let v: u32 = if '0' <= c && c <= '9' {
        n - 48
    } else if 'a' <= c && c <= 'z' {
        n - 97 + 10
    } else if 'A' <= c && c <= 'Z' {
        n - 65 + 10
    } else {
        return None;
    };
    if v < radix {
        Some(v)
    } else {
        None
    }
}

/// Reads an unsigned number in base `radix` that is at most `max`.
pub fn parse_unsigned(s: &[char], radix: u32, max: usize) -> (r: Option<usize>)
    requires
        2 <= radix <= 36,
    ensures
        match r {
            Some(v) => unsigned_value(s@, radix as int, max as int) == Some(v as int),
            None => unsigned_value(s@, radix as int, max as int) is None,
        },
{
    let start: usize = if s.len() > 0 && s[0] == '+' { 1 } else { 0 };
    if start == s.len() {
        return None;
    }
    let ghost digits = s@.skip(start as int);
    proof {
        if start == 1 {
            assert(digits =~= s@.drop_first());
        } else {
            assert(digits =~= s@);
        }
        assert(digits.take(0) =~= Seq::<char>::empty());
    }
    let mut value: usize = 0;
    let mut i: usize = start;
    while i < s.len()
        invariant
            start <= i <= s@.len(),
            2 <= radix <= 36,
            digits == s@.skip(start as int),
            digits.len() > 0,
            digits == (if s@.len() > 0 && s@[0] == '+' {
                s@.drop_first()
            } else {
                s@
            }),
            digits_value(digits.take(i - start), radix as int) == Some(value as int),
            value <= max,
        decreases s@.len() - i,
    {
        let ghost seen = digits.take(i - start);
        let ghost next = digits.take(i + 1 - start);
        proof {
            assert(next.drop_last() =~= seen);
            assert(next.last() == s@[i as int]);
        }
        let d = match digit(s[i], radix) {
            Some(d) => d,
            None => {
                proof {
                    assert(digits_value(next, radix as int) is None);
                    if digits_value(digits, radix as int) is Some {
                        lemma_digits_value_prefix(digits, radix as int, i + 1 - start);
                    }
                }
                return None;
            },
        };
        assert(digits_value(next, radix as int) == Some(value * radix + d));
        let grown = if d as usize <= max && value <= (max - d as usize) / radix as usize {
            assert(value * radix + d <= max) by (nonlinear_arith)
                requires
                    d <= max,
                    value <= (max - d) / (radix as int),
                    radix >= 2,
                    value >= 0,
            ;
            Some(value * radix as usize + d as usize)
        } else {
            None
        };
        match grown {
            Some(v) => {
                value = v;
            },
            None => {
                proof {
                    assert(value * radix + d > max) by (nonlinear_arith)
                        requires
                            d > max || value > (max - d) / (radix as int),
                            radix >= 2,
                            value >= 0,
                            d >= 0,
                    ;
                    if digits_value(digits, radix as int) is Some {
                        lemma_digits_value_prefix(digits, radix as int, i + 1 - start);
                    }
                }
                return None;
            },
        }
        i += 1;
    }
    proof {
        assert(digits.take(digits.len() as int) =~= digits);
    }
    Some(value)
}

/// The character that writes the digit `d` of a decimal number.
pub open spec fn decimal_digit(d: int) -> char {
    ((48 + d) as u8) as char
}

/// `n` in decimal notation, without leading zeros.
pub open spec fn decimal(n: nat) -> Seq<char>
    decreases n,
{
    if n < 10 {
        seq![decimal_digit(n as int)]
    } else {
        decimal(n / 10).push(decimal_digit((n % 10) as int))
    }
}

/// Appends `n` in decimal notation to `out`.
pub fn push_decimal(out: &mut Vec<char>, n: usize)
    ensures
        final(out)@ == old(out)@ + decimal(n as nat),
    decreases n,
{
    if n >= 10 {
        push_decimal(out, n / 10);
    }
    let d: u8 = (n % 10) as u8;
    out.push((48 + d) as char);
    assert(out@ =~= old(out)@ + decimal(n as nat));
}

/// The character that writes the digit `d` of a hexadecimal number, in
/// upper case.
pub open spec fn hex_digit(d: int) -> char {
    if d < 10 {
        ((48 + d) as u8) as char
    } else {
        ((55 + d) as u8) as char
    }
}

/// A byte as two hexadecimal digits in upper case.
pub open spec fn hex_byte(b: u8) -> Seq<char> {
    seq![hex_digit(b as int / 16), hex_digit(b as int % 16)]
}

/// Appends `b` as two hexadecimal digits in upper case to `out`.
pub fn push_hex_byte(out: &mut Vec<char>, b: u8)
    ensures
        final(out)@ == old(out)@ + hex_byte(b),
{
    let high: u8 = b / 16;
    let low: u8 = b % 16;
    out.push(hex_char(high));
    out.push(hex_char(low));
    assert(out@ =~= old(out)@ + hex_byte(b));
}

fn hex_char(d: u8) -> (r: char)
    requires
        d < 16,
    ensures
        r == hex_digit(d as int),
{
    if d < 10 {
        (48 + d) as char
    } else {
        (55 + d) as char
    }
}

} // verus!
