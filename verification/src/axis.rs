//! The value axis: its interval, the precision of its labels and its range.
//!
//! All quantities are fixed-point values in millionths. The interval is a
//! twentieth of the least power of ten that is not below the span of the data,
//! so at most twenty intervals cover the data. The least interval is five
//! millionths, the smallest twentieth of a power of ten that is a whole number
//! of millionths; it also serves where no item has a positive sum.

use crate::data::{
    lemma_sum_within_magnitude, magnitude, stacked_sum, ItemView, MAX_MAGNITUDE, VALUE_DIGITS,
    VALUE_ONE,
};
use crate::text::{lemma_pow10_adds, lemma_pow10_bounds, lemma_pow10_increases, pow10};
use vstd::prelude::*;

verus! {

/// The most intervals that the axis is divided into.
pub const MAX_INTERVALS: u32 = 20;

/// The exponent of the power of ten from which the least interval is taken.
pub const MIN_DECADE: u32 = 2;

/// The largest stacked sum among `items`, or zero where none is positive.
pub open spec fn axis_top(items: Seq<ItemView>) -> int
    decreases items.len(),
{
    if items.len() == 0 {
        0
    } else {
        let before = axis_top(items.drop_last());
        let sum = stacked_sum(items.last().values);
        if sum > before {
            sum
        } else {
            before
        }
    }
}

/// Whether `e` is the exponent of the least power of ten that is not below
/// `span`, or `MIN_DECADE` where that power would be smaller.
pub open spec fn is_decade(span: int, e: nat) -> bool {
    &&& e >= MIN_DECADE
    &&& pow10(e) >= span
    &&& e == MIN_DECADE || pow10((e - 1) as nat) < span
}

/// The exponent that `is_decade` describes.
pub open spec fn decade(span: int) -> nat {
    choose|e: nat| is_decade(span, e)
}

/// The interval between two ticks of an axis that spans `span`.
pub open spec fn axis_interval(span: int) -> int {
    pow10(decade(span)) / (MAX_INTERVALS as int)
}

/// The number of digits after the point that a tick label needs: as many as
/// the interval has.
pub open spec fn axis_decimal_places(span: int) -> nat {
    let e = decade(span);
    if e < VALUE_DIGITS + MIN_DECADE {
        (VALUE_DIGITS + MIN_DECADE - e) as nat
    } else {
        0
    }
}

/// The least multiple of `step` that is not below `value`.
pub open spec fn round_up(value: int, step: int) -> int {
    (value + step - 1) / step * step
}

/// The upper end of the axis: the span rounded up to a whole number of
/// intervals. The lower end is zero.
pub open spec fn axis_max(span: int) -> int {
    round_up(span, axis_interval(span))
}

/// Only one exponent is the decade of a span.
pub proof fn lemma_decade_unique(span: int, a: nat, b: nat)
    requires
        is_decade(span, a),
        is_decade(span, b),
    ensures
        a == b,
{
    if a < b {
        lemma_pow10_increases(a, (b - 1) as nat);
    } else if b < a {
        lemma_pow10_increases(b, (a - 1) as nat);
    }
}

/// An exponent that `is_decade` accepts is the decade.
pub proof fn lemma_decade_is(span: int, e: nat)
    requires
        is_decade(span, e),
    ensures
        decade(span) == e,
{
    lemma_decade_unique(span, e, decade(span));
}

/// A power of ten from the hundred on is twenty times a whole number.
pub proof fn lemma_pow10_twentieths(e: nat)
    requires
        e >= MIN_DECADE,
    ensures
        pow10(e) == 20 * (pow10(e) / 20),
        pow10(e) / 20 >= 5,
        pow10(e) / 20 == 5 * pow10((e - 2) as nat),
{
    reveal_with_fuel(pow10, 3);
    lemma_pow10_bounds((e - 2) as nat);
}

/// Rounding up gives a multiple of the step, not below the value and less
/// than a step above it.
pub proof fn lemma_round_up(value: int, step: int)
    requires
        step > 0,
    ensures
        round_up(value, step) % step == 0,
        value <= round_up(value, step) < value + step,
        value >= 0 ==> round_up(value, step) / step >= 0,
        round_up(value, step) / step == (value + step - 1) / step,
{
    let q = (value + step - 1) / step;
    vstd::arithmetic::div_mod::lemma_fundamental_div_mod(value + step - 1, step);
    vstd::arithmetic::div_mod::lemma_mod_bound(value + step - 1, step);
    vstd::arithmetic::div_mod::lemma_mod_multiples_basic(q, step);
    vstd::arithmetic::div_mod::lemma_div_multiples_vanish(q, step);
    assert(step * q == q * step) by (nonlinear_arith);
    if value >= 0 {
        vstd::arithmetic::div_mod::lemma_div_pos_is_pos(value + step - 1, step);
    }
}

/// The largest stacked sum is not below zero nor below any item's sum, and
/// where no item is oversized it stays within `MAX_MAGNITUDE`.
pub proof fn lemma_axis_top(items: Seq<ItemView>)
    ensures
        axis_top(items) >= 0,
        forall|i: int|
            0 <= i < items.len() ==> stacked_sum(#[trigger] items[i].values) <= axis_top(items),
        (forall|i: int|
            0 <= i < items.len() ==> magnitude(#[trigger] items[i].values) <= MAX_MAGNITUDE)
            ==> axis_top(items) <= MAX_MAGNITUDE,
    decreases items.len(),
{
    if items.len() > 0 {
        let front = items.drop_last();
        lemma_axis_top(front);
        lemma_sum_within_magnitude(items.last().values);
        assert forall|i: int| 0 <= i < items.len() implies stacked_sum(#[trigger] items[i].values)
            <= axis_top(items) by {
            if i < front.len() {
                assert(front[i] == items[i]);
            }
        }
        if forall|i: int|
            0 <= i < items.len() ==> magnitude(#[trigger] items[i].values) <= MAX_MAGNITUDE {
            assert forall|i: int| 0 <= i < front.len() implies magnitude(#[trigger] front[i].values)
                <= MAX_MAGNITUDE by {
                assert(front[i] == items[i]);
            }
        }
    }
}

/// The first exponent from `e` on whose power of ten is not below `span`.
pub open spec fn least_decade_from(span: int, e: nat) -> nat
    decreases 18 - e,
{
    if e >= 18 || pow10(e) >= span {
        e
    } else {
        least_decade_from(span, e + 1)
    }
}

/// Searching upwards from an exponent whose predecessor is too small finds
/// the decade.
pub proof fn lemma_least_decade_from(span: int, e: nat)
    requires
        span <= pow10(18),
        MIN_DECADE <= e <= 18,
        e == MIN_DECADE || pow10((e - 1) as nat) < span,
    ensures
        is_decade(span, least_decade_from(span, e)),
        least_decade_from(span, e) <= 18,
    decreases 18 - e,
{
    if e < 18 && pow10(e) < span {
        lemma_least_decade_from(span, e + 1);
    }
}

/// The axis of a span within `MAX_MAGNITUDE`: the interval is positive, the
/// top is a whole number of intervals, at most `MAX_INTERVALS` of them, and
/// not below the span.
pub proof fn lemma_axis_of_span(span: int)
    requires
        0 <= span <= MAX_MAGNITUDE,
    ensures
        MIN_DECADE <= decade(span) <= 18,
        is_decade(span, decade(span)),
        5 <= axis_interval(span) <= 50_000_000_000_000_000,
        axis_interval(span) * MAX_INTERVALS == pow10(decade(span)),
        span <= axis_max(span) <= MAX_INTERVALS * axis_interval(span),
        axis_max(span) % axis_interval(span) == 0,
        axis_max(span) < span + axis_interval(span),
        axis_decimal_places(span) <= VALUE_DIGITS,
{
    lemma_pow10_bounds(18);
    assert(pow10(18) == 1_000_000_000_000_000_000) by {
        reveal_with_fuel(pow10, 19);
    }
    assert(pow10(2) == 100) by {
        reveal_with_fuel(pow10, 3);
    }
    // Some exponent between the least and eighteen is the decade.
    let e = least_decade_from(span, MIN_DECADE as nat);
    lemma_least_decade_from(span, MIN_DECADE as nat);
    lemma_decade_is(span, e);
    lemma_pow10_twentieths(e);
    lemma_pow10_increases(e, 18);
    let step = axis_interval(span);
    lemma_round_up(span, step);
    let count = (span + step - 1) / step;
    assert(count <= 20) by (nonlinear_arith)
        requires
            count * step < span + step,
            span <= 20 * step,
            step > 0,
    ;
    assert(count * step <= 20 * step) by (nonlinear_arith)
        requires
            count <= 20,
            step > 0,
    ;
}

/// The tick labels show the interval exactly, with no digit to spare:
/// written with that many digits after the point the interval has no
/// remainder, and with one digit less, where there is one, it has.
pub proof fn lemma_decimal_places_fit_interval(span: int)
    requires
        0 <= span <= MAX_MAGNITUDE,
    ensures
        (axis_interval(span) * pow10(axis_decimal_places(span))) % (VALUE_ONE as int) == 0,
        axis_decimal_places(span) > 0 ==> (axis_interval(span) * pow10(
            (axis_decimal_places(span) - 1) as nat,
        )) % (VALUE_ONE as int) != 0,
{
    lemma_axis_of_span(span);
    let e = decade(span);
    let places = axis_decimal_places(span);
    let low = (e - 2) as nat;
    lemma_pow10_twentieths(e);
    assert(pow10(6) == 1_000_000 && pow10(5) == 100_000) by {
        reveal_with_fuel(pow10, 7);
    }
    if places > 0 {
        lemma_pow10_adds(low, places);
        lemma_pow10_adds(low, (places - 1) as nat);
        assert(axis_interval(span) * pow10(places) == 5 * pow10(6)) by (nonlinear_arith)
            requires
                axis_interval(span) == 5 * pow10(low),
                pow10(low) * pow10(places) == pow10(6),
        ;
        assert(axis_interval(span) * pow10((places - 1) as nat) == 5 * pow10(5))
            by (nonlinear_arith)
            requires
                axis_interval(span) == 5 * pow10(low),
                pow10(low) * pow10((places - 1) as nat) == pow10(5),
        ;
    } else {
        let over = (low - 6) as nat;
        lemma_pow10_adds(over, 6);
        assert(axis_interval(span) * pow10(0) == (5 * pow10(over)) * 1_000_000)
            by (nonlinear_arith)
            requires
                axis_interval(span) == 5 * pow10(low),
                pow10(over) * 1_000_000 == pow10(low),
                pow10(0) == 1,
        ;
        vstd::arithmetic::div_mod::lemma_mod_multiples_basic(5 * pow10(over), 1_000_000);
    }
}

/// The decade of a span that an item's values can reach, computed.
pub fn decade_of(span: u64) -> (e: u32)
    requires
        span <= MAX_MAGNITUDE,
    ensures
        is_decade(span as int, e as nat),
        e == decade(span as int),
        MIN_DECADE <= e <= 18,
{
    let mut e: u32 = MIN_DECADE;
    let mut power: u64 = 100;
    proof {
        reveal_with_fuel(pow10, 3);
    }
    while power < span
        invariant
            MIN_DECADE <= e <= 18,
            power == pow10(e as nat),
            span <= MAX_MAGNITUDE,
            e == MIN_DECADE || pow10((e - 1) as nat) < span,
        decreases 18 - e,
    {
        proof {
            lemma_pow10_bounds(18);
            if e >= 18 {
                lemma_pow10_increases(18, e as nat);
            }
            lemma_pow10_increases((e + 1) as nat, 18);
            assert(pow10(18) == 1_000_000_000_000_000_000) by {
                reveal_with_fuel(pow10, 19);
            }
        }
        power = power * 10;
        e = e + 1;
    }
    proof {
        lemma_decade_is(span as int, e as nat);
    }
    e
}

} // verus!
