//! The grammar of numeric configuration values: a value that starts with
//! `0x` or `0X` is a hexadecimal literal, any other value is a decimal
//! literal. A literal is one or more digits of its base and has to fit in
//! 64 bits.

use vstd::prelude::*;
use vstd::string::*;

verus! {

/// The value of `c` as a digit of base `radix`, if it is one.
/// Letters count in either case.
pub open spec fn digit_value(c: char, radix: int) -> Option<int> {
    let code = c as int;
    let d = if 48 <= code <= 57 {
        code - 48
    } else if 97 <= code <= 102 {
        code - 87
    } else if 65 <= code <= 70 {
        code - 55
    } else {
        radix
    };
    if d < radix {
        Some(d)
    } else {
        None
    }
}

/// Every character of `s` is a digit of base `radix`.
pub open spec fn is_digits(s: Seq<char>, radix: int) -> bool {
    forall|i: int| 0 <= i < s.len() ==> (#[trigger] digit_value(s[i], radix)) is Some
}

/// The number that the digits `s` write in base `radix`.
pub open spec fn digits_value(s: Seq<char>, radix: int) -> int
    decreases s.len(),
{
    if s.len() == 0 {
        0
    } else {
        digits_value(s.drop_last(), radix) * radix + match digit_value(s.last(), radix) {
            Some(d) => d,
            None => 0,
        }
    }
}

/// The value of `s` read as a literal of base `radix`: `None` unless `s` is
/// one or more digits whose number fits in 64 bits.
pub open spec fn literal_value(s: Seq<char>, radix: int) -> Option<u64> {
    if s.len() > 0 && is_digits(s, radix) && digits_value(s, radix) <= u64::MAX {
        Some(digits_value(s, radix) as u64)
    } else {
        None
    }
}

/// `s` starts with `0x` or `0X`.
pub open spec fn has_hex_prefix(s: Seq<char>) -> bool {
    s.len() >= 2 && s[0] == '0' && (s[1] == 'x' || s[1] == 'X')
}

/// The number that a configuration value stands for, if it is a literal.
pub open spec fn numeric_value(s: Seq<char>) -> Option<u64> {
    if has_hex_prefix(s) {
        literal_value(s.skip(2), 16)
    } else {
        literal_value(s, 10)
    }
}

/// The digits of a base of at least one never write a negative number, and
/// no prefix of them writes a larger number than all of them.
proof fn lemma_prefix_value(s: Seq<char>, k: int, radix: int)
    requires
        radix >= 1,
        0 <= k <= s.len(),
    ensures
        0 <= digits_value(s.take(k), radix) <= digits_value(s, radix),
    decreases s.len(),
{
    if k == s.len() {
        assert(s.take(k) =~= s);
        if s.len() > 0 {
            lemma_prefix_value(s.drop_last(), k - 1, radix);
            let x = digits_value(s.drop_last(), radix);
            assert(s.drop_last().take(k - 1) =~= s.drop_last());
            assert(x * radix >= 0) by (nonlinear_arith)
                requires
                    x >= 0,
                    radix >= 1,
            ;
        }
    } else {
        lemma_prefix_value(s.drop_last(), k, radix);
        assert(s.drop_last().take(k) =~= s.take(k));
        let x = digits_value(s.drop_last(), radix);
        assert(x * radix >= x) by (nonlinear_arith)
            requires
                x >= 0,
                radix >= 1,
        ;
    }
}

/// The value of `c` as a digit of base `radix`.
fn digit_of(c: char, radix: u64) -> (r: Option<u64>)
    ensures
        match r {
            Some(d) => digit_value(c, radix as int) == Some(d as int),
            None => digit_value(c, radix as int) is None,
        },
{
    let code = c as u32;
    let d: u64 = if 48 <= code && code <= 57 {
        (code - 48) as u64
    } else if 97 <= code && code <= 102 {
        (code - 87) as u64
    } else if 65 <= code && code <= 70 {
        (code - 55) as u64
    } else {
        radix
    };
    if d < radix {
        Some(d)
    } else {
        None
    }
}

/// Reads the characters of `s` from position `from` on as a literal of
/// base `radix`. There is no literal beyond the end of `s`.
pub fn parse_radix(s: &str, from: usize, radix: u64) -> (r: Option<u64>)
    ensures
        from <= s@.len() ==> r == literal_value(s@.skip(from as int), radix as int),
        from > s@.len() ==> r is None,
{
    let n = s.unicode_len();
    let ghost digits = s@.skip(from as int);
    if from >= n {
        return None;
    }
    let mut acc: u64 = 0;
    let mut i: usize = from;
    assert(digits.take(0) =~= Seq::<char>::empty());
    while i < n
        invariant
            n == s@.len(),
            from <= i <= n,
            digits == s@.skip(from as int),
            is_digits(digits.take(i - from), radix as int),
            acc == digits_value(digits.take(i - from), radix as int),
        decreases n - i,
    {
        let c = s.get_char(i);
        let ghost k = i - from;
        assert(digits[k] == c);
        assert(digits.take(k + 1).drop_last() =~= digits.take(k));
        assert(digits.take(k + 1).last() == c);
        match digit_of(c, radix) {
            None => {
                return None;
            },
            Some(d) => {
                let shifted = match acc.checked_mul(radix) {
                    Some(m) => m.checked_add(d),
                    None => None,
                };
                match shifted {
                    Some(v) => {
                        acc = v;
                    },
                    None => {
                        proof {
                            if is_digits(digits, radix as int) {
                                lemma_prefix_value(digits, k + 1, radix as int);
                            }
                        }
                        return None;
                    },
                }
            },
        }
        i += 1;
    }
    assert(digits.take(n - from) =~= digits);
    Some(acc)
}

/// Reads a configuration value as a number: in base 16 behind a `0x` or
/// `0X` prefix, in base 10 otherwise.
pub fn parse_numeric(value: &str) -> (r: Option<u64>)
    ensures
        r == numeric_value(value@),
{
    let n = value.unicode_len();
    if n >= 2 && value.get_char(0) == '0' && (value.get_char(1) == 'x' || value.get_char(1)
        == 'X') {
        parse_radix(value, 2, 16)
    } else {
        assert(value@.skip(0) =~= value@);
        parse_radix(value, 0, 10)
    }
}

/// A value without the hexadecimal prefix is read in base 10.
pub proof fn law_unprefixed_is_decimal(s: Seq<char>)
    requires
        !has_hex_prefix(s),
    ensures
        numeric_value(s) == literal_value(s, 10),
{
}

/// Behind the hexadecimal prefix the rest of the value is read in base 16.
pub proof fn law_prefixed_is_hexadecimal(prefix: Seq<char>, rest: Seq<char>)
    requires
        prefix == seq!['0', 'x'] || prefix == seq!['0', 'X'],
    ensures
        numeric_value(prefix + rest) == literal_value(rest, 16),
{
    assert((prefix + rest).skip(2) =~= rest);
}

/// A value is refused exactly when it is neither a decimal literal without
/// the prefix nor the prefix followed by a hexadecimal literal.
pub proof fn law_refused_values(s: Seq<char>)
    ensures
        numeric_value(s) is None <==> !(!has_hex_prefix(s) && literal_value(s, 10) is Some)
            && !(has_hex_prefix(s) && literal_value(s.skip(2), 16) is Some),
{
}

/// A literal of one more digit: the value so far moves up one place.
pub proof fn law_literal_step(s: Seq<char>, c: char, radix: int)
    requires
        radix >= 1,
        is_digits(s, radix),
        digit_value(c, radix) is Some,
    ensures
        is_digits(s.push(c), radix),
        digits_value(s.push(c), radix) == digits_value(s, radix) * radix + digit_value(
            c,
            radix,
        )->0,
{
    assert(s.push(c).drop_last() =~= s);
    assert forall|i: int| 0 <= i < s.push(c).len() implies (#[trigger] digit_value(
        s.push(c)[i],
        radix,
    )) is Some by {
        if i < s.len() {
            assert(s.push(c)[i] == s[i]);
        }
    }
}

} // verus!
