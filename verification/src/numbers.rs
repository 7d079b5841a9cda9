//! Unsigned numbers as text: reading them in a radix, and writing them in
//! decimal.

use vstd::prelude::*;
use crate::text::string_of;

verus! {

/// What a character is worth as a digit, before the radix is applied.
pub open spec fn raw_digit(c: char) -> Option<nat> {
    if '0' <= c && c <= '9' {
        Some((c as u32 - '0' as u32) as nat)
    } else if 'a' <= c && c <= 'z' {
        Some((c as u32 - 'a' as u32 + 10) as nat)
    } else if 'A' <= c && c <= 'Z' {
        Some((c as u32 - 'A' as u32 + 10) as nat)
    } else {
        None
    }
}

/// What a character is worth as a digit of the given radix.
pub open spec fn digit_value(c: char, radix: nat) -> Option<nat> {
    match raw_digit(c) {
        Some(d) => if d < radix {
            Some(d)
        } else {
            None
        },
        None => None,
    }
}

/// The value of a run of digits, most significant first. The empty run is
/// worth zero; a run with a character that is no digit is worth nothing.
pub open spec fn digits_value(s: Seq<char>, radix: nat) -> Option<nat>
    decreases s.len(),
{
    if s.len() == 0 {
        Some(0)
    } else {
        match (digits_value(s.drop_last(), radix), digit_value(s.last(), radix)) {
            (Some(high), Some(low)) => Some(high * radix + low),
            _ => None,
        }
    }
}

/// The value of an unsigned number: an optional `+`, then at least one
/// digit, and nothing else.
pub open spec fn unsigned_value(s: Seq<char>, radix: nat) -> Option<nat> {
    let digits = if s.len() > 0 && s[0] == '+' {
        s.drop_first()
    } else {
        s
    };
    if digits.len() == 0 {
        None
    } else {
        digits_value(digits, radix)
    }
}

/// The value of an unsigned number, where it is at most `max`.
pub open spec fn unsigned_value_up_to(s: Seq<char>, radix: nat, max: nat) -> Option<nat> {
    match unsigned_value(s, radix) {
        Some(value) => if value <= max {
            Some(value)
        } else {
            None
        },
        None => None,
    }
}

/// A run with a character that is no digit is worth nothing, however it
/// goes on; a run that is worth something grows with each digit.
pub proof fn lemma_digits_value_prefix(s: Seq<char>, radix: nat, k: int)
    requires
        0 <= k <= s.len(),
        radix >= 1,
    ensures
        digits_value(s.take(k), radix) is None ==> digits_value(s, radix) is None,
        digits_value(s, radix) is Some ==> digits_value(s.take(k), radix).unwrap()
            <= digits_value(s, radix).unwrap(),
    decreases s.len() - k,
{
    if k == s.len() {
        assert(s.take(k) =~= s);
    } else {
        lemma_digits_value_prefix(s, radix, k + 1);
        let longer = s.take(k + 1);
        assert(longer.drop_last() =~= s.take(k));
        if digits_value(longer, radix) is Some {
            let high = digits_value(s.take(k), radix).unwrap();
            assert(high * radix >= high) by (nonlinear_arith)
                requires
                    radix >= 1,
                    high >= 0,
            ;
        }
    }
}

/// A digit that does not fit behind the digits read so far takes the
/// value above the bound.
proof fn lemma_step_overflows(acc: int, wide: int, low: int, max: int)
    requires
        acc >= 0,
        wide >= 2,
        low >= 0,
        low > max || acc > (max - low) / wide,
    ensures
        acc * wide + low > max,
{
    if low <= max {
        assert(acc * wide + low > max) by (nonlinear_arith)
            requires
                acc >= (max - low) / wide + 1,
                wide >= 2,
                low <= max,
        ;
    } else {
        assert(acc * wide >= 0) by (nonlinear_arith)
            requires
                acc >= 0,
                wide >= 2,
        ;
    }
}

/// A digit that fits behind the digits read so far keeps the value within
/// the bound.
proof fn lemma_step_fits(acc: int, wide: int, low: int, max: int)
    requires
        acc >= 0,
        wide >= 2,
        0 <= low <= max,
        acc <= (max - low) / wide,
    ensures
        0 <= acc * wide + low <= max,
{
    assert(acc * wide + low <= max && acc * wide >= 0) by (nonlinear_arith)
        requires
            0 <= acc <= (max - low) / wide,
            wide >= 2,
            0 <= low <= max,
    ;
}

/// What a character is worth as a digit of the given radix.
fn digit_of(c: char, radix: u32) -> (digit: Option<u32>)
    requires
        2 <= radix <= 36,
    ensures
        digit.is_some() == digit_value(c, radix as nat).is_some(),
        digit.is_some() ==> digit.unwrap() as nat == digit_value(c, radix as nat).unwrap(),
        digit.is_some() ==> digit.unwrap() < radix,
{
    let n: u32 = c as u32;
    let raw: u32 = if c >= '0' && c <= '9' {
        n - 48
    } else if c >= 'a' && c <= 'z' {
        n - 97 + 10
    } else if c >= 'A' && c <= 'Z' {
        n - 65 + 10
    } else {
        return None;
    };
    if raw < radix {
        Some(raw)
    } else {
        None
    }
}

/// Whether a text is an unsigned number in the given radix, however large.
pub fn is_unsigned(v: &[char], radix: u32) -> (valid: bool)
    requires
        2 <= radix <= 36,
    ensures
        valid == unsigned_value(v@, radix as nat).is_some(),
{
    let start: usize = if v.len() > 0 && v[0] == '+' {
        1
    } else {
        0
    };
    let ghost digits = v@.skip(start as int);
    assert(start == 1 ==> digits =~= v@.drop_first());
    assert(start == 0 ==> digits =~= v@);
    if start == v.len() {
        return false;
    }
    let mut i: usize = start;
    assert(digits.take(0) =~= Seq::<char>::empty());
    while i < v.len()
        invariant
            start <= i <= v.len(),
            2 <= radix <= 36,
            digits == v@.skip(start as int),
            unsigned_value(v@, radix as nat) == digits_value(digits, radix as nat),
            digits_value(digits.take(i - start), radix as nat) is Some,
        decreases v.len() - i,
    {
        proof {
            let longer = digits.take(i - start + 1);
            assert(longer.drop_last() =~= digits.take(i - start));
            assert(longer.last() == v@[i as int]);
            lemma_digits_value_prefix(digits, radix as nat, i - start + 1);
        }
        if digit_of(v[i], radix).is_none() {
            return false;
        }
        i += 1;
    }
    assert(digits.take(v.len() - start) =~= digits);
    true
}

/// Reads an unsigned number in the given radix. `None` where the text is no
/// number or the number is above `max`.
pub fn parse_unsigned(v: &[char], radix: u32, max: u128) -> (value: Option<u128>)
    requires
        2 <= radix <= 36,
    ensures
        value.is_some() == unsigned_value_up_to(v@, radix as nat, max as nat).is_some(),
        value.is_some() ==> value.unwrap() as nat == unsigned_value_up_to(
            v@,
            radix as nat,
            max as nat,
        ).unwrap(),
{
    let start: usize = if v.len() > 0 && v[0] == '+' {
        1
    } else {
        0
    };
    let ghost digits = v@.skip(start as int);
    assert(start == 1 ==> digits =~= v@.drop_first());
    assert(start == 0 ==> digits =~= v@);
    if start == v.len() {
        return None;
    }
    let mut acc: u128 = 0;
    let mut i: usize = start;
    assert(digits.take(0) =~= Seq::<char>::empty());
    while i < v.len()
        invariant
            start <= i <= v.len(),
            2 <= radix <= 36,
            digits == v@.skip(start as int),
            unsigned_value(v@, radix as nat) == digits_value(digits, radix as nat),
            digits_value(digits.take(i - start), radix as nat) == Some(acc as nat),
            acc <= max,
        decreases v.len() - i,
    {
        let ghost shorter = digits.take(i - start);
        let ghost longer = digits.take(i - start + 1);
        proof {
            assert(longer.drop_last() =~= shorter);
            assert(longer.last() == v@[i as int]);
            lemma_digits_value_prefix(digits, radix as nat, i - start + 1);
        }
        let digit = match digit_of(v[i], radix) {
            Some(digit) => digit,
            None => {
                return None;
            },
        };
        let wide: u128 = radix as u128;
        let low: u128 = digit as u128;
        if low > max || acc > (max - low) / wide {
            proof {
                lemma_step_overflows(acc as int, wide as int, low as int, max as int);
                assert(digits_value(longer, radix as nat) == Some((acc * wide + low) as nat));
            }
            return None;
        }
        proof {
            lemma_step_fits(acc as int, wide as int, low as int, max as int);
            assert(digits_value(longer, radix as nat) == Some((acc * wide + low) as nat));
        }
        acc = acc * wide + low;
        i += 1;
    }
    assert(digits.take(v.len() - start) =~= digits);
    Some(acc)
}

/// The character that stands for a digit below ten.
pub open spec fn decimal_digit(d: nat) -> char {
    ((d + 48) as u8) as char
}

/// A number written in decimal, without sign or leading zeros.
pub open spec fn decimal_text(n: nat) -> Seq<char>
    decreases n,
{
    if n < 10 {
        seq![decimal_digit(n)]
    } else {
        decimal_text(n / 10).push(decimal_digit(n % 10))
    }
}

/// A number written in decimal.
pub fn decimal_string(n: u64) -> (text: String)
    ensures
        text@ == decimal_text(n as nat),
{
    let mut reversed: Vec<char> = Vec::new();
    let mut rest: u64 = n;
    while rest >= 10
        invariant
            decimal_text(n as nat) == decimal_text(rest as nat) + reversed@.reverse(),
        decreases rest,
    {
        let low: u8 = (rest % 10) as u8;
        let c: char = (low + 48) as char;
        proof {
            let tail = reversed@.reverse();
            assert(reversed@.push(c).reverse() =~= seq![c] + tail);
            assert(decimal_text(rest as nat) == decimal_text((rest / 10) as nat).push(c));
            assert(decimal_text((rest / 10) as nat).push(c) + tail =~= decimal_text(
                (rest / 10) as nat,
            ) + (seq![c] + tail));
        }
        reversed.push(c);
        rest = rest / 10;
    }
    let first: char = ((rest as u8) + 48) as char;
    let mut digits: Vec<char> = Vec::new();
    digits.push(first);
    let mut k: usize = reversed.len();
    while k > 0
        invariant
            k <= reversed.len(),
            digits@ == seq![first] + reversed@.reverse().take(reversed.len() - k),
        decreases k,
    {
        k -= 1;
        proof {
            let tail = reversed@.reverse();
            assert(tail[reversed.len() - 1 - k] == reversed@[k as int]);
            assert(tail.take(reversed.len() - k) =~= tail.take(reversed.len() - 1 - k).push(
                reversed@[k as int],
            ));
        }
        digits.push(reversed[k]);
    }
    assert(reversed@.reverse().take(reversed.len() as int) =~= reversed@.reverse());
    string_of(digits.as_slice())
}

} // verus!
