//! Colors by red, green, blue and alpha, and the mixing of colors.
use vstd::prelude::*;

use crate::color::{Color, IntoRgba};
use crate::convert::{blend_weight, lemma_blend_weight};
use crate::css::{decimal, fraction_text, push_decimal, push_fraction};
use crate::hsl::HSL;
use crate::hsla::HSLA;
use crate::ratio::{
    byte_of_percentage,
    lemma_scaled_bounds,
    saturating_difference,
    saturating_sum,
    scaled,
    Ratio,
};
use crate::rgb::RGB;

verus! {

/// A color given by how much red, green and blue it holds, and its alpha.
#[derive(Debug, Clone, Copy, PartialEq, Eq, Structural)]
pub struct RGBA {
    /// Red.
    pub r: Ratio,
    /// Green.
    pub g: Ratio,
    /// Blue.
    pub b: Ratio,
    /// Alpha: 0 is transparent, 1 is opaque.
    pub a: Ratio,
}

impl RGBA {
    /// The color with the channels `r / 255`, `g / 255`, `b / 255` and alpha `a / 255`.
    pub fn new(r: u8, g: u8, b: u8, a: u8) -> (c: RGBA)
        ensures
            c.r@ == r,
            c.g@ == g,
            c.b@ == b,
            c.a@ == a,
    {
        RGBA {
            r: Ratio::from_u8(r),
            g: Ratio::from_u8(g),
            b: Ratio::from_u8(b),
            a: Ratio::from_u8(a),
        }
    }

    /// The red, green and blue channels, without the alpha.
    pub open spec fn rgb_part(self) -> RGB {
        RGB { r: self.r, g: self.g, b: self.b }
    }

    /// The HSLA color that this one stands for, with the same alpha; saturation and
    /// lightness are brought to whole percentages.
    pub open spec fn hsla_model(self) -> HSLA {
        self.rgb_part().hsl_model().hsla_model(self.a)
    }

    /// The grey of the same lightness in HSL, with the same alpha.
    pub open spec fn greyed(self) -> RGBA {
        let c = self.rgb_part().hsl_model().greyed().rgb_model();
        RGBA { r: c.r, g: c.g, b: c.b, a: self.a }
    }

    /// `self` mixed with `other` at `weight` percent for `self`.
    ///
    /// The weight `w` is the percentage as a ratio. Each color channel takes the share
    /// `blend_weight` of `self` and the rest of `other`; the alpha takes `w` of `self`
    /// and the rest of `other`. Products are rounded and sums held at 1.
    pub open spec fn mixed(self, other: RGBA, weight: u8) -> RGBA {
        let w = byte_of_percentage(weight as int);
        let lhs = blend_weight(w, self.a@, other.a@);
        RGBA {
            r: Ratio(saturating_sum(scaled(self.r@, lhs), scaled(other.r@, 255 - lhs)) as u8),
            g: Ratio(saturating_sum(scaled(self.g@, lhs), scaled(other.g@, 255 - lhs)) as u8),
            b: Ratio(saturating_sum(scaled(self.b@, lhs), scaled(other.b@, 255 - lhs)) as u8),
            a: Ratio(saturating_sum(scaled(self.a@, w), scaled(other.a@, 255 - w)) as u8),
        }
    }

    /// `self` mixed with opaque white at `weight` percent for `self`.
    pub open spec fn tinted(self, weight: u8) -> RGBA {
        self.mixed(RGBA { r: Ratio(255), g: Ratio(255), b: Ratio(255), a: Ratio(255) }, weight)
    }

    /// `self` mixed with opaque black at `weight` percent for `self`.
    pub open spec fn shaded(self, weight: u8) -> RGBA {
        self.mixed(RGBA { r: Ratio(0), g: Ratio(0), b: Ratio(0), a: Ratio(255) }, weight)
    }

    /// The CSS text of this color.
    pub open spec fn css_text(self) -> Seq<char> {
        "rgba("@ + decimal(self.r@ as nat) + ", "@ + decimal(self.g@ as nat) + ", "@ + decimal(
            self.b@ as nat,
        ) + ", "@ + fraction_text(self.a@) + ")"@
    }

    /// Renders this color as CSS text.
    pub fn to_css(self) -> (text: String)
        ensures
            text@ == self.css_text(),
    {
        let mut text = String::new();
        text.append("rgba(");
        push_decimal(&mut text, self.r.as_u8() as u16);
        text.append(", ");
        push_decimal(&mut text, self.g.as_u8() as u16);
        text.append(", ");
        push_decimal(&mut text, self.b.as_u8() as u16);
        text.append(", ");
        push_fraction(&mut text, self.a.as_u8());
        text.append(")");
        assert(text@ =~= self.css_text());
        text
    }

    /// Converts this color to RGB.
    pub fn to_rgb(self) -> (c: RGB)
        ensures
            c == self.rgb_part(),
    {
        RGB::new(self.r.as_u8(), self.g.as_u8(), self.b.as_u8())
    }

    /// Converts this color to RGBA.
    pub fn to_rgba(self) -> (c: RGBA)
        ensures
            c == self,
    {
        self
    }

    /// Converts this color to HSL.
    pub fn to_hsl(self) -> (c: HSL)
        ensures
            c == self.rgb_part().hsl_model(),
    {
        self.to_rgb().to_hsl()
    }

    /// Converts this color to HSLA.
    pub fn to_hsla(self) -> (c: HSLA)
        ensures
            c == self.hsla_model(),
    {
        self.to_hsl().quantized_with_alpha(self.a)
    }

    /// Raises the saturation by `amount` percent, by way of HSLA.
    pub fn saturate(self, amount: u8) -> (c: RGBA)
        ensures
            c == self.hsla_model().saturated(amount).rgba_model(),
    {
        self.to_hsla().saturate(amount).to_rgba()
    }

    /// Lowers the saturation by `amount` percent, by way of HSLA.
    pub fn desaturate(self, amount: u8) -> (c: RGBA)
        ensures
            c == self.hsla_model().desaturated(amount).rgba_model(),
    {
        self.to_hsla().desaturate(amount).to_rgba()
    }

    /// Raises the lightness by `amount` percent, by way of HSLA.
    pub fn lighten(self, amount: u8) -> (c: RGBA)
        ensures
            c == self.hsla_model().lightened(amount).rgba_model(),
    {
        self.to_hsla().lighten(amount).to_rgba()
    }

    /// Lowers the lightness by `amount` percent, by way of HSLA.
    pub fn darken(self, amount: u8) -> (c: RGBA)
        ensures
            c == self.hsla_model().darkened(amount).rgba_model(),
    {
        self.to_hsla().darken(amount).to_rgba()
    }

    /// Raises the alpha by `amount`.
    pub fn fadein(self, amount: u8) -> (c: RGBA)
        ensures
            c == (RGBA { a: Ratio(saturating_sum(self.a@, amount as int) as u8), ..self }),
    {
        let RGBA { r, g, b, a } = self;
        RGBA { r, g, b, a: a.saturating_add(Ratio::from_u8(amount)) }
    }

    /// Lowers the alpha by `amount`.
    pub fn fadeout(self, amount: u8) -> (c: RGBA)
        ensures
            c == (RGBA { a: Ratio(saturating_difference(self.a@, amount as int) as u8), ..self }),
    {
        let RGBA { r, g, b, a } = self;
        RGBA { r, g, b, a: a.saturating_sub(Ratio::from_u8(amount)) }
    }

    /// Sets the alpha to `amount`.
    pub fn fade(self, amount: u8) -> (c: RGBA)
        ensures
            c == (RGBA { a: Ratio(amount), ..self }),
    {
        let RGBA { r, g, b, a: _ } = self;
        RGBA { r, g, b, a: Ratio::from_u8(amount) }
    }

    /// Turns the hue by `amount` degrees and gives the result in RGB.
    pub fn spin(self, amount: i16) -> (c: RGB)
        requires
            amount < 360,
        ensures
            c == self.rgb_part().hsl_model().spun(amount as int),
    {
        self.to_hsl().spin(amount).to_rgb()
    }

    /// Mixes this color with `other`, weighing this one by `weight` percent.
    ///
    /// The weight and the difference of the alphas give together the share of each color
    /// in the red, green and blue channels, as CSS preprocessors mix colors.
    pub fn mix<T: IntoRgba>(self, other: T, weight: u8) -> (c: RGBA)
        ensures
            c == self.mixed(other.rgba_form(), weight),
    {
        let RGBA { r: r_lhs, g: g_lhs, b: b_lhs, a: a_lhs } = self;
        let RGBA { r: r_rhs, g: g_rhs, b: b_rhs, a: a_rhs } = other.into_rgba();

        let ratio_weight = Ratio::from_percentage(weight);
        let wt: u8 = ratio_weight.as_u8();
        proof {
            lemma_blend_weight(wt as int, a_lhs@, a_rhs@);
        }

        // The weight, and the difference of the alphas, on [-1, 1] and times 255.
        let w: i32 = 2 * (wt as i32) - 255;
        let a: i32 = a_lhs.as_u8() as i32 - a_rhs.as_u8() as i32;

        // Where the product of the two is -1 the combined weight is the weight itself;
        // otherwise it is (w + a) / (1 + w * a), taken onto [0, 1].
        let share: u8 = if w * a == -65025 {
            wt
        } else {
            let numerator: u64 = 255 * (wt as u64) * ((255 + a) as u64);
            let denominator: u64 = (65025 + w * a) as u64;
            ((2 * numerator + denominator) / (2 * denominator)) as u8
        };
        assert(share == blend_weight(wt as int, a_lhs@, a_rhs@));

        let rgb_weight_lhs = Ratio::from_u8(share);
        let rgb_weight_rhs = Ratio::from_u8(255).saturating_sub(rgb_weight_lhs);

        let alpha_weight_lhs = ratio_weight;
        let alpha_weight_rhs = Ratio::from_u8(255).saturating_sub(alpha_weight_lhs);

        proof {
            lemma_scaled_bounds(r_lhs@, share as int);
            lemma_scaled_bounds(g_lhs@, share as int);
            lemma_scaled_bounds(b_lhs@, share as int);
            lemma_scaled_bounds(a_lhs@, wt as int);
            lemma_scaled_bounds(r_rhs@, 255 - share);
            lemma_scaled_bounds(g_rhs@, 255 - share);
            lemma_scaled_bounds(b_rhs@, 255 - share);
            lemma_scaled_bounds(a_rhs@, 255 - wt);
        }
        RGBA {
            r: r_lhs.product(rgb_weight_lhs).saturating_add(r_rhs.product(rgb_weight_rhs)),
            g: g_lhs.product(rgb_weight_lhs).saturating_add(g_rhs.product(rgb_weight_rhs)),
            b: b_lhs.product(rgb_weight_lhs).saturating_add(b_rhs.product(rgb_weight_rhs)),
            a: a_lhs.product(alpha_weight_lhs).saturating_add(a_rhs.product(alpha_weight_rhs)),
        }
    }

    /// Mixes this color with opaque white, weighing this one by `weight` percent.
    pub fn tint(self, weight: u8) -> (c: RGBA)
        ensures
            c == self.tinted(weight),
    {
        self.mix(RGBA::new(255, 255, 255, 255), weight)
    }

    /// Mixes this color with opaque black, weighing this one by `weight` percent.
    pub fn shade(self, weight: u8) -> (c: RGBA)
        ensures
            c == self.shaded(weight),
    {
        self.mix(RGBA::new(0, 0, 0, 255), weight)
    }

    /// Removes all saturation, by way of HSL; the alpha is kept.
    pub fn greyscale(self) -> (c: RGBA)
        ensures
            c == self.greyed(),
    {
        let RGB { r, g, b } = self.to_hsl().greyscale().to_rgb();
        RGBA { r, g, b, a: self.a }
    }
}



impl Color for RGBA {
    type Alpha = RGBA;

    open spec fn as_rgb(self) -> RGB {
        self.rgb_part()
    }

    open spec fn as_rgba(self) -> RGBA {
        self
    }

    open spec fn as_hsl(self) -> HSL {
        self.rgb_part().hsl_model()
    }

    open spec fn as_hsla(self) -> HSLA {
        self.hsla_model()
    }

    open spec fn css(self) -> Seq<char> {
        self.css_text()
    }

    open spec fn saturate_result(self, amount: u8) -> Self {
        self.hsla_model().saturated(amount).rgba_model()
    }

    open spec fn desaturate_result(self, amount: u8) -> Self {
        self.hsla_model().desaturated(amount).rgba_model()
    }

    open spec fn lighten_result(self, amount: u8) -> Self {
        self.hsla_model().lightened(amount).rgba_model()
    }

    open spec fn darken_result(self, amount: u8) -> Self {
        self.hsla_model().darkened(amount).rgba_model()
    }

    open spec fn fadein_result(self, amount: u8) -> Self {
        (RGBA { a: Ratio(saturating_sum(self.a@, amount as int) as u8), ..self })
    }

    open spec fn fadeout_result(self, amount: u8) -> Self {
        (RGBA { a: Ratio(saturating_difference(self.a@, amount as int) as u8), ..self })
    }

    open spec fn fade_result(self, amount: u8) -> Self::Alpha {
        (RGBA { a: Ratio(amount), ..self })
    }

    open spec fn spin_result(self, amount: int) -> RGB {
        self.rgb_part().hsl_model().spun(amount)
    }

    open spec fn mix_result(self, other: RGBA, weight: u8) -> Self::Alpha {
        self.mixed(other, weight)
    }

    open spec fn tint_result(self, weight: u8) -> RGBA {
        self.tinted(weight)
    }

    open spec fn shade_result(self, weight: u8) -> RGBA {
        self.shaded(weight)
    }

    open spec fn greyscale_result(self) -> Self {
        self.greyed()
    }

    fn to_css(self) -> (text: String) {
        RGBA::to_css(self)
    }

    fn to_rgb(self) -> (c: RGB) {
        RGBA::to_rgb(self)
    }

    fn to_rgba(self) -> (c: RGBA) {
        RGBA::to_rgba(self)
    }

    fn to_hsl(self) -> (c: HSL) {
        RGBA::to_hsl(self)
    }

    fn to_hsla(self) -> (c: HSLA) {
        RGBA::to_hsla(self)
    }

    fn saturate(self, amount: u8) -> (c: RGBA) {
        RGBA::saturate(self, amount)
    }

    fn desaturate(self, amount: u8) -> (c: RGBA) {
        RGBA::desaturate(self, amount)
    }

    fn lighten(self, amount: u8) -> (c: RGBA) {
        RGBA::lighten(self, amount)
    }

    fn darken(self, amount: u8) -> (c: RGBA) {
        RGBA::darken(self, amount)
    }

    fn fadein(self, amount: u8) -> (c: RGBA) {
        RGBA::fadein(self, amount)
    }

    fn fadeout(self, amount: u8) -> (c: RGBA) {
        RGBA::fadeout(self, amount)
    }

    fn fade(self, amount: u8) -> (c: RGBA) {
        RGBA::fade(self, amount)
    }

    fn spin(self, amount: i16) -> (c: RGB) {
        RGBA::spin(self, amount)
    }

    fn mix<T: IntoRgba>(self, other: T, weight: u8) -> (c: RGBA) {
        RGBA::mix(self, other, weight)
    }

    fn tint(self, weight: u8) -> (c: RGBA) {
        RGBA::tint(self, weight)
    }

    fn shade(self, weight: u8) -> (c: RGBA) {
        RGBA::shade(self, weight)
    }

    fn greyscale(self) -> (c: RGBA) {
        RGBA::greyscale(self)
    }
}

impl IntoRgba for RGBA {
    open spec fn rgba_form(self) -> RGBA {
        self.as_rgba()
    }

    fn into_rgba(self) -> (c: RGBA) {
        RGBA::to_rgba(self)
    }
}

} // verus!
