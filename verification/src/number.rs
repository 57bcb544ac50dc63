//! Unsigned numbers written in a positional notation.
//!
//! A numeral is an optional `+` followed by at least one digit of the radix.
//! Anything else, and any numeral whose value is over the limit asked for, is
//! no number: a leading `-` is refused like any other non-digit.

use vstd::prelude::*;
use vstd::arithmetic::mul::lemma_mul_inequality;
use crate::text::is_whitespace;

verus! {

/// The value of `c` read as a digit: `0`-`9`, then the letters of either
/// case from ten on. `None` where `c` is no digit of `radix`.
pub open spec fn digit_value(c: char, radix: nat) -> Option<nat> {
    let v: int = if '0' <= c && c <= '9' {
        c as int - '0' as int
    } else if 'a' <= c && c <= 'z' {
        c as int - 'a' as int + 10
    } else if 'A' <= c && c <= 'Z' {
        c as int - 'A' as int + 10
    } else {
        36
    };
    if v < radix {
        Some(v as nat)
    } else {
        None
    }
}

/// True when every character of `s` is a digit of `radix`.
pub open spec fn all_digits(s: Seq<char>, radix: nat) -> bool {
    forall|i: int| 0 <= i < s.len() ==> (#[trigger] digit_value(s[i], radix)) is Some
}

/// The value of the digit string `s`, most significant digit first.
pub open spec fn digits_value(s: Seq<char>, radix: nat) -> nat
    decreases s.len(),
{
    if s.len() == 0 {
        0
    } else {
        digits_value(s.drop_last(), radix) * radix + digit_value(s.last(), radix).unwrap_or(0)
    }
}

/// The digits of a numeral: `s` without its leading `+`, if it has one.
pub open spec fn unsigned_digits(s: Seq<char>) -> Seq<char> {
    if s.len() > 0 && s[0] == '+' {
        s.skip(1)
    } else {
        s
    }
}

/// The number that `s` denotes in `radix`, if it is a numeral whose value
/// is at most `max`.
pub open spec fn parse_unsigned(s: Seq<char>, radix: nat, max: nat) -> Option<nat> {
    let d = unsigned_digits(s);
    if d.len() > 0 && all_digits(d, radix) && digits_value(d, radix) <= max {
        Some(digits_value(d, radix))
    } else {
        None
    }
}

/// The character that stands for the digit `d`, for `d` below ten.
pub open spec fn decimal_digit(d: nat) -> char {
    (d + '0' as nat) as char
}

/// The shortest decimal numeral of `n`.
pub open spec fn decimal(n: nat) -> Seq<char>
    decreases n,
{
    if n < 10 {
        seq![decimal_digit(n)]
    } else {
        decimal(n / 10).push(decimal_digit(n % 10))
    }
}

/// A longer digit string is worth at least as much as any of its prefixes.
pub proof fn lemma_digits_value_prefix(s: Seq<char>, k: int, radix: nat)
    requires
        0 <= k <= s.len(),
        radix >= 1,
    ensures
        digits_value(s.take(k), radix) <= digits_value(s, radix),
    decreases s.len() - k,
{
    if k == s.len() {
        assert(s.take(k) =~= s);
    } else {
        let t = s.drop_last();
        assert(t.take(k) =~= s.take(k));
        lemma_digits_value_prefix(t, k, radix);
        let v = digits_value(t, radix);
        assert(v <= v * radix) by {
            lemma_mul_inequality(1, radix as int, v as int);
        }
    }
}

/// The shortest decimal numeral of `n` is a non-empty digit string without
/// whitespace or sign, and its value is `n`.
pub proof fn lemma_decimal(n: nat)
    ensures
        decimal(n).len() > 0,
        all_digits(decimal(n), 10),
        digits_value(decimal(n), 10) == n,
        forall|i: int|
            0 <= i < decimal(n).len() ==> '0' <= (#[trigger] decimal(n)[i]) && decimal(n)[i]
                <= '9',
    decreases n,
{
    let s = decimal(n);
    if n < 10 {
        assert(s.drop_last() =~= Seq::<char>::empty());
        assert(digit_value(s[0], 10) == Some(n));
        assert(digits_value(s.drop_last(), 10) == 0);
    } else {
        lemma_decimal(n / 10);
        let t = decimal(n / 10);
        assert(s.drop_last() =~= t);
        assert(digit_value(s.last(), 10) == Some(n % 10));
        assert forall|i: int| 0 <= i < s.len() implies (#[trigger] digit_value(s[i], 10)) is Some
            && '0' <= s[i] && s[i] <= '9' by {
            if i < t.len() {
                assert(s[i] == t[i]);
                assert(digit_value(t[i], 10) is Some);
            }
        }
    }
}

/// A decimal digit is no whitespace.
pub proof fn lemma_digit_is_no_whitespace(c: char)
    requires
        digit_value(c, 10) is Some,
    ensures
        !is_whitespace(c),
{
}

/// A non-empty digit string whose value is within the limit denotes its
/// value.
pub proof fn lemma_parse_digits(digits: Seq<char>, radix: nat, max: nat)
    requires
        radix <= 36,
        digits.len() > 0,
        all_digits(digits, radix),
        digits_value(digits, radix) <= max,
    ensures
        parse_unsigned(digits, radix, max) == Some(digits_value(digits, radix)),
{
    assert(digit_value(digits[0], radix) is Some);
    assert(digits[0] != '+');
}

/// A string that holds a character that is no digit, other than a `+` in
/// front, denotes no number; nor does the empty string, nor a lone `+`.
pub proof fn lemma_parse_rejects(s: Seq<char>, radix: nat, max: nat)
    requires
        s.len() == 0 || (s.len() == 1 && s[0] == '+') || exists|i: int|
            0 <= i < s.len() && digit_value(s[i], radix) is None && !(i == 0 && s[0] == '+'),
    ensures
        parse_unsigned(s, radix, max) is None,
{
    let d = unsigned_digits(s);
    if d.len() > 0 {
        let i = choose|i: int|
            0 <= i < s.len() && digit_value(s[i], radix) is None && !(i == 0 && s[0] == '+');
        if s[0] == '+' {
            assert(d[i - 1] == s[i]);
            assert(digit_value(d[i - 1], radix) is None);
        } else {
            assert(digit_value(d[i], radix) is None);
        }
    }
}

/// Reads one character as a digit of `radix`.
pub fn digit_of(c: char, radix: u32) -> (r: Option<u32>)
    requires
        2 <= radix <= 36,
    ensures
        r.is_some() == digit_value(c, radix as nat).is_some(),
        r.is_some() ==> r.unwrap() == digit_value(c, radix as nat).unwrap(),
        r.is_some() ==> r.unwrap() < radix,
{
    let v: u32 = if '0' <= c && c <= '9' {
        c as u32 - '0' as u32
    } else if 'a' <= c && c <= 'z' {
        c as u32 - 'a' as u32 + 10
    } else if 'A' <= c && c <= 'Z' {
        c as u32 - 'A' as u32 + 10
    } else {
        36
    };
    if v < radix {
        Some(v)
    } else {
        None
    }
}

/// Reads `chars[from..to]` as a numeral of `radix` with a value of at most
/// `max`.
pub fn parse_range(chars: &Vec<char>, from: usize, to: usize, radix: u32, max: u64) -> (r: Option<
    u64,
>)
    requires
        from <= to <= chars.len(),
        2 <= radix <= 36,
    ensures
        match r {
            Some(n) => parse_unsigned(
                chars@.subrange(from as int, to as int),
                radix as nat,
                max as nat,
            ) == Some(n as nat),
            None => parse_unsigned(
                chars@.subrange(from as int, to as int),
                radix as nat,
                max as nat,
            ) is None,
        },
{
    let ghost s = chars@.subrange(from as int, to as int);
    let start: usize = if from < to && chars[from] == '+' {
        from + 1
    } else {
        from
    };
    let ghost d = chars@.subrange(start as int, to as int);
    proof {
        if from < to {
            assert(s[0] == chars[from as int]);
        }
        assert(unsigned_digits(s) =~= d);
    }
    if start == to {
        return None;
    }
    let mut acc: u64 = 0;
    let mut at: usize = start;
    while at < to
        invariant
            from <= start <= at <= to <= chars.len(),
            2 <= radix <= 36,
            d == chars@.subrange(start as int, to as int),
            d == unsigned_digits(chars@.subrange(from as int, to as int)),
            all_digits(d.take(at - start), radix as nat),
            acc == digits_value(d.take(at - start), radix as nat),
            acc <= max,
        decreases to - at,
    {
        let ghost prefix = d.take(at - start);
        let ghost next = d.take(at - start + 1);
        proof {
            assert(next.drop_last() =~= prefix);
            assert(next.last() == chars[at as int]);
        }
        let digit: u32 = match digit_of(chars[at], radix) {
            Some(v) => v,
            None => {
                proof {
                    assert(d[at - start] == chars[at as int]);
                }
                return None;
            },
        };
        assert(acc * radix + digit <= u128::MAX) by (nonlinear_arith)
            requires
                acc <= u64::MAX,
                radix <= 36,
                digit < 36,
        ;
        let wide: u128 = acc as u128 * radix as u128 + digit as u128;
        if wide > max as u128 {
            proof {
                assert(wide == digits_value(next, radix as nat)) by (nonlinear_arith)
                    requires
                        wide == acc as u128 * radix as u128 + digit as u128,
                        acc as nat * radix as nat + digit as nat == digits_value(
                            next,
                            radix as nat,
                        ),
                        acc <= u64::MAX,
                        radix <= 36,
                        digit < 36,
                ;
                lemma_digits_value_prefix(d, at - start + 1, radix as nat);
            }
            return None;
        }
        proof {
            assert(wide == acc as nat * radix as nat + digit as nat) by (nonlinear_arith)
                requires
                    wide == acc as u128 * radix as u128 + digit as u128,
                    acc <= u64::MAX,
                    radix <= 36,
                    digit < 36,
            ;
            assert forall|i: int| 0 <= i < next.len() implies (#[trigger] digit_value(
                next[i],
                radix as nat,
            )) is Some by {
                if i < prefix.len() {
                    assert(next[i] == prefix[i]);
                    assert(digit_value(prefix[i], radix as nat) is Some);
                }
            }
        }
        acc = wide as u64;
        at = at + 1;
    }
    proof {
        assert(d.take(to - start) =~= d);
    }
    Some(acc)
}

} // verus!
