//! Short keys: a number written in base 36 and cut to a wanted length.

use vstd::prelude::*;
use vstd::arithmetic::div_mod::lemma_div_denominator;

verus! {

/// How many symbols the alphabet of short keys has: `0`-`9`, then `a`-`z`.
pub const ALPHABET_SIZE: u64 = 36;

/// The length that key generation starts with.
pub const DEFAULT_SHORTENED_LENGTH: usize = 8;

/// The symbol for the digit `d`: `0`-`9` for 0-9, `a`-`z` for 10-35.
pub open spec fn digit_symbol(d: int) -> char {
    if d < 10 {
        (d + 0x30) as char
    } else {
        (d + 0x57) as char
    }
}

/// 36 to the power of `e`.
pub open spec fn pow36(e: nat) -> nat
    decreases e,
{
    if e == 0 {
        1
    } else {
        36 * pow36((e - 1) as nat)
    }
}

/// How many base-36 digits `n` has; zero has one.
pub open spec fn digit_count(n: nat) -> nat
    decreases n,
{
    if n < 36 {
        1
    } else {
        1 + digit_count(n / 36)
    }
}

/// The base-36 digit of `n` that has the weight `36^place`.
pub open spec fn digit_at(n: nat, place: nat) -> int {
    ((n / pow36(place)) % 36) as int
}

/// `n` in base 36, most significant digit first and without leading zeros,
/// cut to its `len` least significant digits where it has more than `len`.
/// Where it has fewer, nothing is added in front.
pub open spec fn short_form(n: nat, len: nat) -> Seq<char> {
    let kept = if digit_count(n) <= len {
        digit_count(n)
    } else {
        len
    };
    Seq::new(kept, |i: int| digit_symbol(digit_at(n, (kept - 1 - i) as nat)))
}

/// Every power of 36 is positive.
pub proof fn lemma_pow36_positive(e: nat)
    ensures
        pow36(e) > 0,
    decreases e,
{
    if e > 0 {
        lemma_pow36_positive((e - 1) as nat);
    }
}

/// 36 to the power of 13 is more than 64 bits hold.
pub proof fn lemma_pow36_of_13()
    ensures
        pow36(13) > u64::MAX,
{
    reveal_with_fuel(pow36, 14);
}

/// A larger exponent gives a larger power of 36.
pub proof fn lemma_pow36_grows(a: nat, b: nat)
    ensures
        a < b ==> pow36(a) < pow36(b),
        a <= b ==> pow36(a) <= pow36(b),
    decreases b,
{
    if a < b {
        lemma_pow36_grows(a, (b - 1) as nat);
        lemma_pow36_positive((b - 1) as nat);
    }
}

/// There are 2 821 109 907 456 strings of length eight.
pub proof fn lemma_pow36_of_8()
    ensures
        pow36(8) == 2_821_109_907_456,
{
    reveal_with_fuel(pow36, 9);
}

/// `c` is one of the 36 symbols of the alphabet.
pub open spec fn is_symbol(c: char) -> bool {
    ||| 0x30 <= c as u32 <= 0x39
    ||| 0x61 <= c as u32 <= 0x7a
}

/// A number below 36 to the power of `places` has at most `places` digits.
pub proof fn lemma_digit_count_bound(n: nat, places: nat)
    requires
        places >= 1,
        n < pow36(places),
    ensures
        digit_count(n) <= places,
    decreases places,
{
    reveal_with_fuel(pow36, 2);
    if n >= 36 {
        lemma_digit_count_bound(n / 36, (places - 1) as nat);
    }
}

/// A short form has at most `len` symbols and, unless `len` is zero, at
/// least one; it never has more symbols than the number has digits; and each
/// of its symbols is of the alphabet.
pub proof fn lemma_short_form_shape(n: nat, len: nat)
    ensures
        short_form(n, len).len() <= len,
        short_form(n, len).len() <= digit_count(n),
        len > 0 ==> short_form(n, len).len() >= 1,
        forall|i: int|
            0 <= i < short_form(n, len).len() ==> is_symbol(#[trigger] short_form(n, len)[i]),
{
    assert forall|i: int| 0 <= i < short_form(n, len).len() implies is_symbol(
        #[trigger] short_form(n, len)[i],
    ) by {
        let kept = short_form(n, len).len();
        let d = digit_at(n, (kept - 1 - i) as nat);
        assert(short_form(n, len)[i] == digit_symbol(d));
    }
}

/// A number of 64 bits has at most 13 digits, so a target length beyond 13
/// gives the same short form as the target length 13: the whole number.
pub proof fn lemma_thirteen_digits_hold_64_bits(n: nat, len: nat)
    requires
        n <= u64::MAX,
        len >= 13,
    ensures
        digit_count(n) <= 13,
        short_form(n, len) == short_form(n, 13),
{
    lemma_pow36_of_13();
    lemma_digit_count_bound(n, 13);
}

fn symbol(d: u64) -> (c: char)
    requires
        d < 36,
    ensures
        c == digit_symbol(d as int),
{
    if d < 10 {
        (d as u8 + 0x30) as char
    } else {
        (d as u8 + 0x57) as char
    }
}

/// Writes `number` in base 36 and keeps at most its `len` last digits.
pub fn as_characters(number: u64, len: usize) -> (key: String)
    ensures
        key@ == short_form(number as nat, len as nat),
{
    let ghost n = number as nat;
    let mut reversed: Vec<char> = Vec::new();
    let mut rest: u64 = number;
    reversed.push(symbol(rest % ALPHABET_SIZE));
    rest = rest / ALPHABET_SIZE;
    assert(pow36(1) == 36 && pow36(0) == 1) by {
        reveal_with_fuel(pow36, 2);
    }
    assert(digit_at(n, 0) == n % 36);
    while rest != 0
        invariant
            reversed@.len() >= 1,
            rest == n / pow36(reversed@.len()),
            n == number,
            forall|j: int|
                0 <= j < reversed@.len() ==> reversed@[j] == digit_symbol(
                    #[trigger] digit_at(n, j as nat),
                ),
            digit_count(n) == reversed@.len() + if rest == 0 {
                0
            } else {
                digit_count(rest as nat)
            },
        decreases rest,
    {
        let ghost k = reversed@.len();
        proof {
            lemma_pow36_positive(k);
            lemma_div_denominator(n as int, pow36(k) as int, 36);
        }
        reversed.push(symbol(rest % ALPHABET_SIZE));
        rest = rest / ALPHABET_SIZE;
    }
    if reversed.len() > len {
        reversed.truncate(len);
    }
    let mut key = String::new();
    let mut i: usize = reversed.len();
    let ghost kept = reversed@.len() as int;
    while i > 0
        invariant
            i <= reversed@.len(),
            kept == reversed@.len(),
            key@.len() == kept - i,
            forall|j: int| 0 <= j < key@.len() ==> key@[j] == reversed@[kept - 1 - j],
        decreases i,
    {
        i -= 1;
        key.push(reversed[i]);
    }
    key
}

} // verus!
