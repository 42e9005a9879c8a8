//! Facts that relate the operations to each other.
use vstd::prelude::*;

use crate::angle::Angle;
use crate::convert::{blend_weight, lemma_round_div_at_most};
use crate::hsl::HSL;
use crate::hsla::HSLA;
use crate::ratio::{byte_of_percentage, percentage_of_byte, round_div, scaled, Ratio};
use crate::rgb::RGB;
use crate::rgba::RGBA;

verus! {

/// A grey converts to HSL with hue 0, saturation 0, and its channel as lightness,
/// so that its lightness percentage is the percentage of its channel.
pub proof fn lemma_grey_to_hsl(k: Ratio)
    ensures
        (RGB { r: k, g: k, b: k }).hsl_model() == (HSL {
            h: Angle::from_degrees(0),
            s: Ratio(0),
            l: k,
        }),
        percentage_of_byte((RGB { r: k, g: k, b: k }).hsl_model().l@) == percentage_of_byte(k@),
{
}

/// A grey comes back unchanged from HSL.
pub proof fn lemma_grey_round_trip(k: Ratio)
    ensures
        (RGB { r: k, g: k, b: k }).hsl_model().rgb_model() == (RGB { r: k, g: k, b: k }),
{
}

/// Saturating an HSL color by `x` percent and desaturating it by as much gives the
/// color back, where the saturation does not reach full.
pub proof fn lemma_saturate_desaturate(c: HSL, x: u8)
    requires
        c.s@ + byte_of_percentage(x as int) <= 255,
    ensures
        c.saturated(x).desaturated(x) == c,
{
}

/// The same for an HSLA color, whose alpha is left alone.
pub proof fn lemma_saturate_desaturate_alpha(c: HSLA, x: u8)
    requires
        c.s@ + byte_of_percentage(x as int) <= 255,
    ensures
        c.saturated(x).desaturated(x) == c,
{
}

/// Scaling by a full ratio keeps a channel; scaling by nothing leaves nothing.
proof fn lemma_scaled_ends(x: int)
    requires
        0 <= x <= 255,
    ensures
        scaled(x, 255) == x,
        scaled(x, 0) == 0,
{
    assert(x * 255 == 255 * x);
    assert(x * 0 == 0);
    vstd::arithmetic::div_mod::lemma_fundamental_div_mod_converse(2 * (x * 255) + 255, 510, x, 255);
    vstd::arithmetic::div_mod::lemma_fundamental_div_mod_converse(2 * (x * 0) + 255, 510, 0, 255);
}

/// A mix at weight 100 gives the first color, at weight 0 the second one.
pub proof fn lemma_mix_full_weights(lhs: RGBA, rhs: RGBA)
    ensures
        lhs.mixed(rhs, 100) == lhs,
        lhs.mixed(rhs, 0) == rhs,
{
    let big_a = lhs.a@ - rhs.a@;
    vstd::arithmetic::div_mod::lemma_fundamental_div_mod_converse(51100, 200, 255, 100);
    vstd::arithmetic::div_mod::lemma_fundamental_div_mod_converse(100, 200, 0, 100);
    assert(byte_of_percentage(100) == 255);
    assert(byte_of_percentage(0) == 0);
    // At weight 100 the first color takes every channel.
    if 255 * big_a != -65025 {
        let x = 255 + big_a;
        assert(0 < x);
        assert(2 * (255 * 255 * x) + (65025 + 255 * big_a) == 255 * (2 * (65025 + 255 * big_a))
            + 255 * x) by (nonlinear_arith)
            requires
                x == 255 + big_a,
        ;
        vstd::arithmetic::div_mod::lemma_fundamental_div_mod_converse(
            2 * (255 * 255 * x) + (65025 + 255 * big_a),
            2 * (65025 + 255 * big_a),
            255,
            255 * x,
        );
        assert(round_div(255 * 255 * x, 65025 + 255 * big_a) == 255);
    }
    assert(blend_weight(255, lhs.a@, rhs.a@) == 255);
    // At weight 0 the second color takes every channel.
    if -255 * big_a != -65025 {
        let den = 65025 + (-255) * big_a;
        assert(255 * 0 * (255 + big_a) == 0) by (nonlinear_arith);
        assert(0 < den);
        vstd::arithmetic::div_mod::lemma_fundamental_div_mod_converse(
            2 * (255 * 0 * (255 + big_a)) + den,
            2 * den,
            0,
            den,
        );
    }
    assert(blend_weight(0, lhs.a@, rhs.a@) == 0);
    lemma_scaled_ends(lhs.r@);
    lemma_scaled_ends(lhs.g@);
    lemma_scaled_ends(lhs.b@);
    lemma_scaled_ends(lhs.a@);
    lemma_scaled_ends(rhs.r@);
    lemma_scaled_ends(rhs.g@);
    lemma_scaled_ends(rhs.b@);
    lemma_scaled_ends(rhs.a@);
}

} // verus!
