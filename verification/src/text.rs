//! Decimal and hexadecimal text of integers and of fixed-point numbers.
//!
//! Every function here has two halves: a spec function that says which
//! characters a number is written with, and an executable function that appends
//! exactly those characters to a `String`.

use vstd::prelude::*;
use vstd::string::*;

verus! {

/// The character of one digit, `0` to `9` and then `a` to `f`. A digit
/// beyond fifteen is shown as `f`.
pub open spec fn digit_char(d: int) -> char {
    if d == 0 {
        '0'
    } else if d == 1 {
        '1'
    } else if d == 2 {
        '2'
    } else if d == 3 {
        '3'
    } else if d == 4 {
        '4'
    } else if d == 5 {
        '5'
    } else if d == 6 {
        '6'
    } else if d == 7 {
        '7'
    } else if d == 8 {
        '8'
    } else if d == 9 {
        '9'
    } else if d == 10 {
        'a'
    } else if d == 11 {
        'b'
    } else if d == 12 {
        'c'
    } else if d == 13 {
        'd'
    } else if d == 14 {
        'e'
    } else {
        'f'
    }
}

/// The digits of `n` in base `base`, most significant first, with zeros in
/// front until there are at least `width` of them. A number that needs more
/// digits than `width` gets them all; zero in width zero is still one digit.
pub open spec fn radix_text(n: nat, base: nat, width: nat) -> Seq<char>
    decreases n, width,
    via radix_text_terminates
{
    if base < 2 {
        Seq::<char>::empty()
    } else if n < base && width <= 1 {
        seq![digit_char(n as int)]
    } else {
        let rest: nat = if width == 0 { 0 } else { (width - 1) as nat };
        radix_text(n / base, base, rest).push(digit_char((n % base) as int))
    }
}

/// The number shrinks with every digit taken off it, so `radix_text` ends.
#[via_fn]
proof fn radix_text_terminates(n: nat, base: nat, width: nat) {
    if base >= 2 && n > 0 {
        lemma_quotient_smaller(n, base);
    }
}

/// Dividing a positive number by two or more makes it smaller.
pub proof fn lemma_quotient_smaller(n: nat, base: nat)
    requires
        n > 0,
        base >= 2,
    ensures
        n / base < n,
{
    assert(n / base < n) by (nonlinear_arith)
        requires
            n > 0,
            base >= 2,
    ;
}

/// `base` to the power `exponent`.
pub open spec fn power(base: nat, exponent: nat) -> nat
    decreases exponent,
{
    if exponent == 0 {
        1
    } else {
        base * power(base, (exponent - 1) as nat)
    }
}

/// A number below `base` to the power `width` is written with exactly
/// `width` digits.
pub proof fn lemma_radix_text_len(n: nat, base: nat, width: nat)
    requires
        base >= 2,
        width >= 1,
        n < power(base, width),
    ensures
        radix_text(n, base, width).len() == width,
    decreases width,
{
    let rest = (width - 1) as nat;
    if width == 1 {
        assert(power(base, 1) == base) by {
            reveal_with_fuel(power, 2);
            assert(base * 1 == base);
        }
    } else {
        assert(n / base < power(base, rest)) by (nonlinear_arith)
            requires
                n < base * power(base, rest),
                base >= 2,
        ;
        lemma_radix_text_len(n / base, base, rest);
    }
}

/// The decimal digits of `n`, without leading zeros.
pub open spec fn nat_text(n: nat) -> Seq<char> {
    radix_text(n, 10, 1)
}

/// The decimal text of `n`, with a minus sign in front of a negative number.
pub open spec fn int_text(n: int) -> Seq<char> {
    if n < 0 {
        seq!['-'] + nat_text((-n) as nat)
    } else {
        nat_text(n as nat)
    }
}

/// Ten to the power `e`.
pub open spec fn pow10(e: nat) -> int
    decreases e,
{
    if e == 0 {
        1
    } else {
        10 * pow10((e - 1) as nat)
    }
}

/// The number of whole `unit`s that is nearest to `magnitude`; halfway
/// between two, the even one.
pub open spec fn nearest_count(magnitude: int, unit: int) -> int {
    let below = magnitude / unit;
    let rest = magnitude % unit;
    if 2 * rest > unit || (2 * rest == unit && below % 2 == 1) {
        below + 1
    } else {
        below
    }
}

/// The text of the fixed-point number `value / 10^scale` with exactly `places`
/// digits after the point (`places <= scale`), rounded to the nearest number
/// that they can show, and to the even one of two that are equally near.
/// With `places == 0` there is no point. A negative number keeps its sign
/// where it rounds to zero.
pub open spec fn fixed_text(value: int, scale: nat, places: nat) -> Seq<char> {
    let magnitude = if value < 0 { -value } else { value };
    let count = nearest_count(magnitude, pow10((scale - places) as nat));
    let whole = (count / pow10(places)) as nat;
    let fraction = (count % pow10(places)) as nat;
    let sign = if value < 0 { seq!['-'] } else { Seq::<char>::empty() };
    if places == 0 {
        sign + nat_text(whole)
    } else {
        sign + nat_text(whole) + seq!['.'] + radix_text(fraction, 10, places)
    }
}

/// The shortest exact text of the fixed-point number `value / 10^scale`:
/// zeros at the end of the fraction are dropped, and so is the point where
/// nothing follows it.
pub open spec fn trimmed_text(value: int, scale: nat) -> Seq<char>
    decreases scale,
{
    if scale == 0 {
        int_text(value)
    } else if value % 10 == 0 {
        trimmed_text(value / 10, (scale - 1) as nat)
    } else {
        fixed_text(value, scale, scale)
    }
}

/// The largest exponent whose power of ten an unsigned 64-bit integer holds.
pub const MAX_POW10_EXPONENT: u32 = 19;

/// Powers of ten grow with the exponent, and the nineteenth still fits in 64 bits.
pub proof fn lemma_pow10_bounds(e: nat)
    ensures
        pow10(e) >= 1,
        e <= 19 ==> pow10(e) <= 10_000_000_000_000_000_000,
    decreases e,
{
    if e > 0 {
        lemma_pow10_bounds((e - 1) as nat);
    }
    if e <= 19 {
        lemma_pow10_increases(e, 19);
        assert(pow10(19) == 10_000_000_000_000_000_000) by {
            reveal_with_fuel(pow10, 20);
        }
    }
}

/// A larger exponent gives a larger power of ten.
pub proof fn lemma_pow10_increases(a: nat, b: nat)
    requires
        a <= b,
    ensures
        1 <= pow10(a) <= pow10(b),
        a < b ==> 10 * pow10(a) <= pow10(b),
    decreases b,
{
    if a < b {
        lemma_pow10_increases(a, (b - 1) as nat);
    } else if a > 0 {
        lemma_pow10_increases((a - 1) as nat, (a - 1) as nat);
    }
}

/// The product of two powers of ten is the power of the sum of their exponents.
pub proof fn lemma_pow10_adds(a: nat, b: nat)
    ensures
        pow10(a) * pow10(b) == pow10(a + b),
    decreases a,
{
    if a > 0 {
        lemma_pow10_adds((a - 1) as nat, b);
        assert(10 * pow10((a - 1) as nat) * pow10(b) == 10 * (pow10((a - 1) as nat) * pow10(b)))
            by (nonlinear_arith);
    }
}

/// Ten to the power `e`, computed.
pub fn pow10_u64(e: u32) -> (p: u64)
    requires
        e <= MAX_POW10_EXPONENT,
    ensures
        p == pow10(e as nat),
{
    let mut p: u64 = 1;
    let mut i: u32 = 0;
    while i < e
        invariant
            i <= e <= MAX_POW10_EXPONENT,
            p == pow10(i as nat),
        decreases e - i,
    {
        proof {
            lemma_pow10_bounds((i + 1) as nat);
        }
        p = p * 10;
        i = i + 1;
    }
    p
}

/// The one-character string of a digit.
pub fn digit_str(d: u8) -> (s: &'static str)
    ensures
        s@ == seq![digit_char(d as int)],
{
    proof {
        reveal_strlit("0");
        reveal_strlit("1");
        reveal_strlit("2");
        reveal_strlit("3");
        reveal_strlit("4");
        reveal_strlit("5");
        reveal_strlit("6");
        reveal_strlit("7");
        reveal_strlit("8");
        reveal_strlit("9");
        reveal_strlit("a");
        reveal_strlit("b");
        reveal_strlit("c");
        reveal_strlit("d");
        reveal_strlit("e");
        reveal_strlit("f");
    }
    let s: &'static str = match d {
        0 => "0",
        1 => "1",
        2 => "2",
        3 => "3",
        4 => "4",
        5 => "5",
        6 => "6",
        7 => "7",
        8 => "8",
        9 => "9",
        10 => "a",
        11 => "b",
        12 => "c",
        13 => "d",
        14 => "e",
        _ => "f",
    };
    s
}

/// Appends the digits of `n` in base `base`, at least `width` of them.
pub fn push_radix(out: &mut String, n: u128, base: u8, width: usize)
    requires
        2 <= base <= 16,
    ensures
        final(out)@ == old(out)@ + radix_text(n as nat, base as nat, width as nat),
    decreases n, width,
{
    let wide: u128 = base as u128;
    if n >= wide || width > 1 {
        let rest: usize = if width == 0 { 0 } else { width - 1 };
        proof {
            if n > 0 {
                lemma_quotient_smaller(n as nat, base as nat);
            }
        }
        push_radix(out, n / wide, base, rest);
    }
    out.append(digit_str((n % wide) as u8));
    proof {
        if n < wide {
            assert(n % wide == n) by (nonlinear_arith)
                requires
                    0 <= n < wide,
            ;
        }
    }
}

/// Appends the decimal digits of `n`.
pub fn push_nat(out: &mut String, n: u128)
    ensures
        final(out)@ == old(out)@ + nat_text(n as nat),
{
    push_radix(out, n, 10, 1);
}

/// The distance of `value` from zero.
pub fn magnitude_of(value: i128) -> (m: u128)
    ensures
        m == (if value < 0 { -value } else { value as int }),
{
    if value < 0 {
        ((-(value + 1)) as u128) + 1
    } else {
        value as u128
    }
}

/// Appends the decimal text of `n`.
pub fn push_int(out: &mut String, n: i128)
    ensures
        final(out)@ == old(out)@ + int_text(n as int),
{
    if n < 0 {
        out.append("-");
        proof {
            reveal_strlit("-");
        }
    }
    push_nat(out, magnitude_of(n));
}

/// The number with the given distance from zero, below zero if `negative`.
pub open spec fn signed(negative: bool, magnitude: int) -> int {
    if negative {
        -magnitude
    } else {
        magnitude
    }
}

/// Appends the number `signed(negative, magnitude) / 10^scale` with exactly
/// `places` digits after the point.
pub fn push_fixed_parts(out: &mut String, negative: bool, magnitude: u128, scale: u32, places: u32)
    requires
        places <= scale <= MAX_POW10_EXPONENT,
        negative ==> magnitude > 0,
    ensures
        final(out)@ == old(out)@ + fixed_text(
            signed(negative, magnitude as int),
            scale as nat,
            places as nat,
        ),
{
    let unit: u128 = pow10_u64(scale - places) as u128;
    let part: u128 = pow10_u64(places) as u128;
    proof {
        lemma_pow10_bounds(places as nat);
        lemma_pow10_bounds((scale - places) as nat);
        reveal_strlit("-");
        reveal_strlit(".");
    }
    let below: u128 = magnitude / unit;
    let rest: u128 = magnitude % unit;
    proof {
        if unit >= 2 {
            assert(below <= magnitude / 2) by (nonlinear_arith)
                requires
                    below == magnitude / unit,
                    unit >= 2,
                    magnitude >= 0,
            ;
        }
    }
    let count: u128 = if 2 * rest > unit || (2 * rest == unit && below % 2 == 1) {
        below + 1
    } else {
        below
    };
    if negative {
        out.append("-");
    }
    push_nat(out, count / part);
    if places > 0 {
        out.append(".");
        push_radix(out, count % part, 10, places as usize);
    }
    assert(out@ =~= old(out)@ + fixed_text(
        signed(negative, magnitude as int),
        scale as nat,
        places as nat,
    ));
}

/// Appends `value / 10^scale` with exactly `places` digits after the point.
pub fn push_fixed(out: &mut String, value: i128, scale: u32, places: u32)
    requires
        places <= scale <= MAX_POW10_EXPONENT,
    ensures
        final(out)@ == old(out)@ + fixed_text(value as int, scale as nat, places as nat),
{
    push_fixed_parts(out, value < 0, magnitude_of(value), scale, places);
}

/// Appends the shortest exact text of `signed(negative, magnitude) / 10^scale`.
pub fn push_trimmed_parts(out: &mut String, negative: bool, magnitude: u128, scale: u32)
    requires
        scale <= MAX_POW10_EXPONENT,
        negative ==> magnitude > 0,
    ensures
        final(out)@ == old(out)@ + trimmed_text(signed(negative, magnitude as int), scale as nat),
    decreases scale,
{
    if scale == 0 {
        proof {
            reveal_strlit("-");
        }
        if negative {
            out.append("-");
        }
        push_nat(out, magnitude);
    } else if magnitude % 10 == 0 {
        push_trimmed_parts(out, negative, magnitude / 10, scale - 1);
    } else {
        push_fixed_parts(out, negative, magnitude, scale, scale);
    }
}

/// Appends the shortest exact text of `value / 10^scale`.
pub fn push_trimmed(out: &mut String, value: i128, scale: u32)
    requires
        scale <= MAX_POW10_EXPONENT,
    ensures
        final(out)@ == old(out)@ + trimmed_text(value as int, scale as nat),
{
    push_trimmed_parts(out, value < 0, magnitude_of(value), scale);
}

/// Appends the shortest exact text of `-value / 10^scale`.
pub fn push_trimmed_opposite(out: &mut String, value: i128, scale: u32)
    requires
        scale <= MAX_POW10_EXPONENT,
    ensures
        final(out)@ == old(out)@ + trimmed_text(-(value as int), scale as nat),
{
    push_trimmed_parts(out, value > 0, magnitude_of(value), scale);
}

} // verus!
