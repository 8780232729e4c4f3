//! Category colours: hues that step by the golden ratio, turned into RGB.
//!
//! A hue is a fraction of the colour wheel, held as a whole number of
//! `1 / HUE_ONE`. Saturation and value are whole percents.

use crate::tool::StackedBarChartTool;
use vstd::prelude::*;

verus! {

/// The number of hue steps in one turn of the colour wheel.
pub const HUE_ONE: u64 = 1_000_000_000_000_000;

/// The conjugate of the golden ratio, 0.618033988749895, in hue steps.
pub const GOLDEN_RATIO_CONJUGATE: u64 = 618_033_988_749_895;

/// Saturation and value at their full strength, in percent.
pub const PERCENT_ONE: u8 = 100;

/// The saturation of every category colour, in percent.
pub const CATEGORY_SATURATION: u8 = 50;

/// The value (brightness) of every category colour, in percent.
pub const CATEGORY_VALUE: u8 = 50;

/// The hue that follows `hue`: one golden-ratio step further round the wheel.
pub open spec fn next_hue(hue: int) -> int {
    (hue + GOLDEN_RATIO_CONJUGATE) % (HUE_ONE as int)
}

/// The hue of the category with index `index`, when the first one has hue `seed`.
pub open spec fn hue_at(seed: int, index: nat) -> int
    decreases index,
{
    if index == 0 {
        seed
    } else {
        next_hue(hue_at(seed, (index - 1) as nat))
    }
}

/// A colour channel as the packing sees it: `numerator / denominator` of full
/// strength, scaled to 256 and rounded down.
pub open spec fn channel(numerator: int, denominator: int) -> int {
    256 * numerator / denominator
}

/// Red, green and blue packed into one number, red highest.
pub open spec fn pack_rgb(r: u32, g: u32, b: u32) -> u32 {
    (r << 16) | (g << 8) | b
}

/// The packed RGB colour of a hue `h / HUE_ONE` at saturation `s` percent and
/// value `v` percent.
///
/// The wheel has six sectors. Within a sector, `f` says how far the hue has
/// got through it. The strongest channel is `v`, the weakest `v (1 - s)`;
/// the third falls as `v (1 - f s)` in the odd sectors and rises as
/// `v (1 - (1 - f) s)` in the even ones.
pub open spec fn hsv_rgb(h: int, s: int, v: int) -> u32 {
    let one = HUE_ONE as int;
    let sector = 6 * h / one;
    let f = 6 * h % one;
    let top = channel(v, 100) as u32;
    let p = channel(v * (100 - s), 10_000) as u32;
    let q = channel(v * (100 * one - f * s), 10_000 * one) as u32;
    let t = channel(v * (100 * one - (one - f) * s), 10_000 * one) as u32;
    if sector == 0 {
        pack_rgb(top, t, p)
    } else if sector == 1 {
        pack_rgb(q, top, p)
    } else if sector == 2 {
        pack_rgb(p, top, t)
    } else if sector == 3 {
        pack_rgb(p, q, top)
    } else if sector == 4 {
        pack_rgb(t, p, top)
    } else {
        pack_rgb(top, p, q)
    }
}

/// The hue one golden-ratio step after `hue`.
pub fn step_hue(hue: u64) -> (next: u64)
    requires
        hue < HUE_ONE,
    ensures
        next == next_hue(hue as int),
        next < HUE_ONE,
{
    (hue + GOLDEN_RATIO_CONJUGATE) % HUE_ONE
}

/// Each hue is the one before it plus the golden-ratio conjugate, modulo one
/// turn of the wheel: the hue of index `index` is `seed` plus `index` such
/// steps, and it lies on the wheel.
pub proof fn lemma_hue_spacing(seed: int, index: nat)
    requires
        0 <= seed < HUE_ONE,
    ensures
        0 <= hue_at(seed, index) < HUE_ONE,
        hue_at(seed, index + 1) == (hue_at(seed, index) + GOLDEN_RATIO_CONJUGATE) % (
        HUE_ONE as int),
        hue_at(seed, index) == (seed + index * GOLDEN_RATIO_CONJUGATE) % (HUE_ONE as int),
    decreases index,
{
    let one = HUE_ONE as int;
    let g = GOLDEN_RATIO_CONJUGATE as int;
    if index > 0 {
        let before = (index - 1) as nat;
        lemma_hue_spacing(seed, before);
        let a = seed + before * g;
        assert(seed + index * g == a + g) by (nonlinear_arith)
            requires
                a == seed + before * g,
                before == index - 1,
        ;
        vstd::arithmetic::div_mod::lemma_add_mod_noop(a, g, one);
        vstd::arithmetic::div_mod::lemma_small_mod(g as nat, one as nat);
    }
}

/// At half saturation and half value every channel of a colour lies between
/// a quarter and a half of full strength, so the packed colour fits in six
/// hexadecimal digits.
pub proof fn lemma_category_color_fits(h: int)
    requires
        0 <= h < HUE_ONE,
    ensures
        hsv_rgb(h, CATEGORY_SATURATION as int, CATEGORY_VALUE as int) < 0x100_0000,
{
    let one = HUE_ONE as int;
    let f = 6 * h % one;
    let top = channel(50, 100);
    let p = channel(50 * (100 - 50), 10_000);
    let q = channel(50 * (100 * one - f * 50), 10_000 * one);
    let t = channel(50 * (100 * one - (one - f) * 50), 10_000 * one);
    assert(64 <= q <= 128 && 64 <= t <= 128) by {
        let falling = 256 * (50 * (100 * one - f * 50));
        let rising = 256 * (50 * (100 * one - (one - f) * 50));
        let whole = 10_000 * one;
        vstd::arithmetic::div_mod::lemma_div_is_ordered(64 * whole, falling, whole);
        vstd::arithmetic::div_mod::lemma_div_is_ordered(falling, 128 * whole, whole);
        vstd::arithmetic::div_mod::lemma_div_is_ordered(64 * whole, rising, whole);
        vstd::arithmetic::div_mod::lemma_div_is_ordered(rising, 128 * whole, whole);
        vstd::arithmetic::div_mod::lemma_div_multiples_vanish(64, whole);
        vstd::arithmetic::div_mod::lemma_div_multiples_vanish(128, whole);
    }
    assert forall|r: u32, g: u32, b: u32| r <= 128 && g <= 128 && b <= 128 implies #[trigger] pack_rgb(
        r,
        g,
        b,
    ) < 0x100_0000 by {
        assert((r << 16) | (g << 8) | b < 0x100_0000) by (bit_vector)
            requires
                r <= 128,
                g <= 128,
                b <= 128,
        ;
    }
}

impl StackedBarChartTool {
    /// Converts a colour from hue, saturation and value to packed RGB.
    pub fn hsv_to_rgb(h: u64, s: u8, v: u8) -> (rgb: u32)
        requires
            h < HUE_ONE,
            s <= PERCENT_ONE,
            v <= PERCENT_ONE,
        ensures
            rgb == hsv_rgb(h as int, s as int, v as int),
    {
        let one: u128 = HUE_ONE as u128;
        let h6: u128 = 6 * (h as u128);
        let sector: u128 = h6 / one;
        let f: u128 = h6 % one;
        let sw: u128 = s as u128;
        let vw: u128 = v as u128;
        let full: u128 = 100 * one;
        assert(f * sw <= full) by (nonlinear_arith)
            requires
                f < one,
                sw <= 100,
                full == 100 * one,
        ;
        assert((one - f) * sw <= full) by (nonlinear_arith)
            requires
                f < one,
                sw <= 100,
                full == 100 * one,
        ;
        let falling: u128 = full - f * sw;
        let rising: u128 = full - (one - f) * sw;
        assert(vw * falling <= 100 * full && vw * rising <= 100 * full) by (nonlinear_arith)
            requires
                vw <= 100,
                falling <= full,
                rising <= full,
        ;
        assert(vw * (100 - sw) <= 10000) by (nonlinear_arith)
            requires
                vw <= 100,
                sw <= 100,
        ;
        let top: u32 = (256 * vw / 100) as u32;
        let p: u32 = (256 * (vw * (100 - sw)) / 10000) as u32;
        let q: u32 = (256 * (vw * falling) / (10000 * one)) as u32;
        let t: u32 = (256 * (vw * rising) / (10000 * one)) as u32;
        if sector == 0 {
            (top << 16) | (t << 8) | p
        } else if sector == 1 {
            (q << 16) | (top << 8) | p
        } else if sector == 2 {
            (p << 16) | (top << 8) | t
        } else if sector == 3 {
            (p << 16) | (q << 8) | top
        } else if sector == 4 {
            (t << 16) | (p << 8) | top
        } else {
            (top << 16) | (p << 8) | q
        }
    }
}

} // verus!
