//! The arithmetic of the RGB to HSL conversion, of its inverse and of mixing, over
//! integers: each quantity is kept as a fraction with a fixed denominator and rounded once.
use vstd::prelude::*;

use crate::ratio::round_div;

verus! {

/// The largest of three channels.
pub open spec fn max3(a: int, b: int, c: int) -> int {
    if a >= b && a >= c {
        a
    } else if b >= c {
        b
    } else {
        c
    }
}

/// The smallest of three channels.
pub open spec fn min3(a: int, b: int, c: int) -> int {
    if a <= b && a <= c {
        a
    } else if b <= c {
        b
    } else {
        c
    }
}

/// The lightness of the color with channels `r, g, b` (numerators over 255),
/// as a numerator over 255: the mean of the largest and smallest channel, rounded.
pub open spec fn lightness_of(r: int, g: int, b: int) -> int {
    round_div(max3(r, g, b) + min3(r, g, b), 2)
}

/// The saturation of a color whose channels are not all equal, as a numerator over 255:
/// `(max - min) / (max + min)` below half lightness and `(max - min) / (2 - max - min)`
/// from half lightness on, over fractions of 255, rounded.
pub open spec fn saturation_of(r: int, g: int, b: int) -> int {
    let hi = max3(r, g, b);
    let lo = min3(r, g, b);
    if hi + lo < 255 {
        round_div(255 * (hi - lo), hi + lo)
    } else {
        round_div(255 * (hi - lo), 510 - hi - lo)
    }
}

/// The hue of a color whose channels are not all equal, in whole degrees in `[0, 360)`.
///
/// With `d = max - min`, the hue is `60 * (g - b) / d` where red is largest,
/// `120 + 60 * (b - r) / d` where green is, and `240 + 60 * (r - g) / d` where blue is;
/// a hue at or below 0 is turned on by 360, and the result is rounded.
/// `sixtieths` is that hue times `d`.
pub open spec fn hue_of(r: int, g: int, b: int) -> int {
    let hi = max3(r, g, b);
    let d = hi - min3(r, g, b);
    let sixtieths = if hi == r {
        60 * (g - b)
    } else if hi == g {
        120 * d + 60 * (b - r)
    } else {
        240 * d + 60 * (r - g)
    };
    let turned = if sixtieths <= 0 {
        sixtieths + 360 * d
    } else {
        sixtieths
    };
    round_div(turned, d) % 360
}

/// How far, out of 60, a channel sits from the low to the high level at hue position `v`
/// degrees: the trapezoid that rises over `[0, 60]`, stays up to 180, falls back by 240
/// and stays down to 360.
pub open spec fn ramp(v: int) -> int {
    let p = v % 360;
    if p > 240 {
        0
    } else if p > 180 {
        240 - p
    } else if p > 60 {
        60
    } else {
        p
    }
}

/// The high channel level of a color with saturation `s` and lightness `l`
/// (numerators over 255), as a numerator over 255 * 255:
/// `l * (1 + s)` below half lightness, `l + s - l * s` from it on.
pub open spec fn temp_high(s: int, l: int) -> int {
    if l < 128 {
        l * (255 + s)
    } else {
        255 * (l + s) - l * s
    }
}

/// The low channel level, `2 * l - temp_high`, over 255 * 255.
pub open spec fn temp_low(s: int, l: int) -> int {
    510 * l - temp_high(s, l)
}

/// A channel at hue position `v` between the levels `t_low` and `t_high`
/// (over 255 * 255), as a rounded numerator over 255.
pub open spec fn channel_value(v: int, t_high: int, t_low: int) -> int {
    round_div(60 * t_low + (t_high - t_low) * ramp(v), 15300)
}

/// The channel at hue position `v` of the color with saturation `s` and lightness `l`.
pub open spec fn channel_of(v: int, s: int, l: int) -> int {
    channel_value(v, temp_high(s, l), temp_low(s, l))
}

/// The share, as a numerator over 255, that the left color takes in each RGB channel
/// of a mix with the weight `w` (a numerator over 255) between colors whose alphas
/// are `a_lhs` and `a_rhs`.
///
/// With `w' = 2 * w / 255 - 1` and `a' = (a_lhs - a_rhs) / 255`, the combined weight is
/// `(w' + a') / (1 + w' * a')`, or `w'` where `w' * a' == -1`; the share is that weight
/// brought from `[-1, 1]` onto `[0, 1]` and rounded. Below, `big_w = 255 * w'` and
/// `big_a = 255 * a'`, and the fractions are cleared of their denominators.
pub open spec fn blend_weight(w: int, a_lhs: int, a_rhs: int) -> int {
    let big_w = 2 * w - 255;
    let big_a = a_lhs - a_rhs;
    if big_w * big_a == -65025 {
        w
    } else {
        round_div(255 * w * (255 + big_a), 65025 + big_w * big_a)
    }
}

/// A rounded quotient stays at or below `k` where the exact one does.
pub proof fn lemma_round_div_at_most(num: int, den: int, k: int)
    requires
        0 <= num,
        0 < den,
        num <= k * den,
    ensures
        0 <= round_div(num, den) <= k,
{
    assert(2 * num + den < (2 * den) * (k + 1)) by (nonlinear_arith)
        requires
            0 < den,
            num <= k * den,
    ;
    assert(0 <= (2 * num + den) / (2 * den) < k + 1) by (nonlinear_arith)
        requires
            0 <= num,
            0 < den,
            2 * num + den < (2 * den) * (k + 1),
    ;
}

/// The two levels of a saturated color lie between 0 and 255 * 255, low below high.
pub proof fn lemma_levels(s: int, l: int)
    requires
        0 <= s <= 255,
        0 <= l <= 255,
    ensures
        0 <= temp_low(s, l) <= temp_high(s, l) <= 65025,
        temp_high(s, l) - temp_low(s, l) == if l < 128 {
            2 * l * s
        } else {
            2 * s * (255 - l)
        },
{
    let p = l * s;
    assert(l * (255 + s) == 255 * l + p && 0 <= p <= 255 * l && 2 * l * s == 2 * p)
        by (nonlinear_arith)
        requires
            0 <= s <= 255,
            0 <= l <= 255,
            p == l * s,
    ;
    assert(128 <= l ==> 128 * s <= p && 2 * s * (255 - l) == 510 * s - 2 * p && 255 * s - p
        <= 255 * (255 - l)) by (nonlinear_arith)
        requires
            0 <= s <= 255,
            0 <= l <= 255,
            p == l * s,
    ;
}

/// A channel between two levels is a numerator over 255.
pub proof fn lemma_channel_value_bounds(v: int, t_high: int, t_low: int)
    requires
        0 <= t_low <= t_high <= 65025,
    ensures
        0 <= 60 * t_low + (t_high - t_low) * ramp(v) <= 60 * t_high,
        0 <= channel_value(v, t_high, t_low) <= 255,
{
    let w = ramp(v);
    assert(0 <= w <= 60);
    assert(0 <= (t_high - t_low) * w <= (t_high - t_low) * 60) by (nonlinear_arith)
        requires
            0 <= w <= 60,
            0 <= t_high - t_low,
    ;
    lemma_round_div_at_most(60 * t_low + (t_high - t_low) * w, 15300, 255);
}

/// The channel at hue position `val` degrees between the levels `temp_1` (high)
/// and `temp_2` (low), given over 255 * 255.
pub(crate) fn to_rgb_value(val: u16, temp_1: u32, temp_2: u32) -> (r: u8)
    requires
        val < 360,
        temp_2 <= temp_1 <= 65025,
    ensures
        r == channel_value(val as int, temp_1 as int, temp_2 as int),
{
    proof {
        lemma_channel_value_bounds(val as int, temp_1 as int, temp_2 as int);
    }
    let w: u32 = if val > 240 {
        0
    } else if val > 180 {
        240 - val as u32
    } else if val > 60 {
        60
    } else {
        val as u32
    };
    assert(w == ramp(val as int));
    let level: u32 = 60 * temp_2 + (temp_1 - temp_2) * w;
    ((2 * level + 60 * 255) / (2 * 60 * 255)) as u8
}


/// The terms of `blend_weight` stay in range, and the share is a numerator over 255.
pub proof fn lemma_blend_weight(w: int, a_lhs: int, a_rhs: int)
    requires
        0 <= w <= 255,
        0 <= a_lhs <= 255,
        0 <= a_rhs <= 255,
    ensures
        -65025 <= (2 * w - 255) * (a_lhs - a_rhs) <= 65025,
        0 <= 255 * w <= 65025,
        0 <= 255 * w * (255 + (a_lhs - a_rhs)) <= 33162750,
        (2 * w - 255) * (a_lhs - a_rhs) == -65025 <==> ((w == 0 && a_lhs == 255 && a_rhs == 0)
            || (w == 255 && a_lhs == 0 && a_rhs == 255)),
        (2 * w - 255) * (a_lhs - a_rhs) != -65025 ==> 255 * w * (255 + (a_lhs - a_rhs)) <= 255
            * (65025 + (2 * w - 255) * (a_lhs - a_rhs)),
        0 <= blend_weight(w, a_lhs, a_rhs) <= 255,
{
    let big_w = 2 * w - 255;
    let big_a = a_lhs - a_rhs;
    assert(-65025 <= big_w * big_a <= 65025) by (nonlinear_arith)
        requires
            -255 <= big_w <= 255,
            -255 <= big_a <= 255,
    ;
    assert(0 <= 255 * w * (255 + big_a) <= 33162750) by (nonlinear_arith)
        requires
            0 <= w <= 255,
            0 <= 255 + big_a <= 510,
    ;
    assert(65025 + big_w * big_a - w * (255 + big_a) == (255 - w) * (255 - big_a))
        by (nonlinear_arith)
        requires
            big_w == 2 * w - 255,
    ;
    assert(0 <= (255 - w) * (255 - big_a)) by (nonlinear_arith)
        requires
            w <= 255,
            big_a <= 255,
    ;
    assert(255 * w * (255 + big_a) == 255 * (w * (255 + big_a))) by (nonlinear_arith);
    assert(big_w * big_a == -65025 <==> ((w == 0 && a_lhs == 255 && a_rhs == 0) || (w == 255
        && a_lhs == 0 && a_rhs == 255))) by (nonlinear_arith)
        requires
            big_w == 2 * w - 255,
            big_a == a_lhs - a_rhs,
            0 <= w <= 255,
            0 <= a_lhs <= 255,
            0 <= a_rhs <= 255,
    ;
    if big_w * big_a != -65025 {
        lemma_round_div_at_most(255 * w * (255 + big_a), 65025 + big_w * big_a, 255);
    }
}

} // verus!
