//! Colors by red, green and blue.
use vstd::prelude::*;

use crate::angle::Angle;
use crate::color::{Color, IntoRgba};
use crate::convert::{
    hue_of,
    lemma_round_div_at_most,
    lightness_of,
    max3,
    min3,
    saturation_of,
};
use crate::css::{decimal, push_decimal};
use crate::hsl::HSL;
use crate::hsla::HSLA;
use crate::ratio::Ratio;
use crate::rgba::RGBA;

verus! {

broadcast use Angle::lemma_from_degrees;

/// A color given by how much red, green and blue it holds.
#[derive(Debug, Clone, Copy, PartialEq, Eq, Structural)]
pub struct RGB {
    /// Red.
    pub r: Ratio,
    /// Green.
    pub g: Ratio,
    /// Blue.
    pub b: Ratio,
}

impl RGB {
    /// The color with the channels `r / 255`, `g / 255`, `b / 255`.
    pub fn new(r: u8, g: u8, b: u8) -> (c: RGB)
        ensures
            c.r@ == r,
            c.g@ == g,
            c.b@ == b,
    {
        RGB { r: Ratio::from_u8(r), g: Ratio::from_u8(g), b: Ratio::from_u8(b) }
    }

    /// The HSL color that this one stands for. A grey (all channels equal) has hue 0,
    /// saturation 0 and its channel as lightness; any other color has the hue,
    /// saturation and lightness of `hue_of`, `saturation_of` and `lightness_of`.
    pub open spec fn hsl_model(self) -> HSL {
        let (r, g, b) = (self.r@, self.g@, self.b@);
        if r == g && g == b {
            HSL { h: Angle::from_degrees(0), s: Ratio(0), l: self.r }
        } else {
            HSL {
                h: Angle::from_degrees(hue_of(r, g, b)),
                s: Ratio(saturation_of(r, g, b) as u8),
                l: Ratio(lightness_of(r, g, b) as u8),
            }
        }
    }

    /// The opaque RGBA color with the same channels.
    pub open spec fn opaque(self) -> RGBA {
        RGBA { r: self.r, g: self.g, b: self.b, a: Ratio(255) }
    }

    /// The CSS text of this color.
    pub open spec fn css_text(self) -> Seq<char> {
        "rgb("@ + decimal(self.r@ as nat) + ", "@ + decimal(self.g@ as nat) + ", "@ + decimal(
            self.b@ as nat,
        ) + ")"@
    }

    /// Renders this color as CSS text.
    pub fn to_css(self) -> (text: String)
        ensures
            text@ == self.css_text(),
    {
        let mut text = String::new();
        text.append("rgb(");
        push_decimal(&mut text, self.r.as_u8() as u16);
        text.append(", ");
        push_decimal(&mut text, self.g.as_u8() as u16);
        text.append(", ");
        push_decimal(&mut text, self.b.as_u8() as u16);
        text.append(")");
        assert(text@ =~= self.css_text());
        text
    }

    /// Converts this color to RGB.
    pub fn to_rgb(self) -> (c: RGB)
        ensures
            c == self,
    {
        self
    }

    /// Converts this color to RGBA.
    pub fn to_rgba(self) -> (c: RGBA)
        ensures
            c == self.opaque(),
    {
        RGBA::new(self.r.as_u8(), self.g.as_u8(), self.b.as_u8(), 255)
    }

    /// Converts this color to HSL.
    #[verifier::rlimit(60)]
    pub fn to_hsl(self) -> (c: HSL)
        ensures
            c == self.hsl_model(),
    {
        let RGB { r, g, b } = self;

        // A grey has neither hue nor saturation; its channel is its lightness.
        if r == g && g == b {
            return HSL { h: Angle::new(0), s: Ratio::from_u8(0), l: r };
        }
        let r: u32 = self.r.as_u8() as u32;
        let g: u32 = self.g.as_u8() as u32;
        let b: u32 = self.b.as_u8() as u32;

        let max: u32 = if r > g && r > b {
            r
        } else if g > b {
            g
        } else {
            b
        };
        let min: u32 = if r < g && r < b {
            r
        } else if g < b {
            g
        } else {
            b
        };
        assert(max == max3(r as int, g as int, b as int));
        assert(min == min3(r as int, g as int, b as int));
        let sum: u32 = max + min;
        let delta: u32 = max - min;
        assert(0 < delta);

        // The lightness is the mean of the largest and smallest channel.
        let lightness: u32 = (2 * sum + 2) / 4;

        // The saturation divides the spread by the sum below half lightness, and by what
        // the sum leaves to 2 from half lightness on.
        let saturation: u32 = if sum < 255 {
            proof {
                lemma_round_div_at_most(255 * delta as int, sum as int, 255);
            }
            (510 * delta + sum) / (2 * sum)
        } else {
            let rest: u32 = 510 - sum;
            proof {
                lemma_round_div_at_most(255 * delta as int, rest as int, 255);
            }
            (510 * delta + rest) / (2 * rest)
        };

        // The hue, times the spread: the sextant of the largest channel, plus where the
        // other two lie against each other; a hue at or below 0 is turned on by 360.
        let sixtieths: u32 = if max == r {
            if g > b {
                60 * (g - b)
            } else {
                360 * delta - 60 * (b - g)
            }
        } else if max == g {
            120 * delta + 60 * b - 60 * r
        } else {
            240 * delta + 60 * r - 60 * g
        };
        proof {
            lemma_round_div_at_most(sixtieths as int, delta as int, 360);
        }
        let hue: u32 = ((2 * sixtieths + delta) / (2 * delta)) % 360;
        assert(hue == hue_of(r as int, g as int, b as int));
        assert(saturation == saturation_of(r as int, g as int, b as int));

        HSL {
            h: Angle::new(hue as u16),
            s: Ratio::from_u8(saturation as u8),
            l: Ratio::from_u8(lightness as u8),
        }
    }

    /// Converts this color to HSLA.
    pub fn to_hsla(self) -> (c: HSLA)
        ensures
            c == self.hsl_model().hsla_model(Ratio(255)),
    {
        self.to_hsl().to_hsla()
    }

    /// Raises the saturation by `amount` percent, by way of HSL.
    pub fn saturate(self, amount: u8) -> (c: RGB)
        ensures
            c == self.hsl_model().saturated(amount).rgb_model(),
    {
        self.to_hsl().saturate(amount).to_rgb()
    }

    /// Lowers the saturation by `amount` percent, by way of HSL.
    pub fn desaturate(self, amount: u8) -> (c: RGB)
        ensures
            c == self.hsl_model().desaturated(amount).rgb_model(),
    {
        self.to_hsl().desaturate(amount).to_rgb()
    }

    /// Raises the lightness by `amount` percent, by way of HSL.
    pub fn lighten(self, amount: u8) -> (c: RGB)
        ensures
            c == self.hsl_model().lightened(amount).rgb_model(),
    {
        self.to_hsl().lighten(amount).to_rgb()
    }

    /// Lowers the lightness by `amount` percent, by way of HSL.
    pub fn darken(self, amount: u8) -> (c: RGB)
        ensures
            c == self.hsl_model().darkened(amount).rgb_model(),
    {
        self.to_hsl().darken(amount).to_rgb()
    }

    /// An RGB color has no alpha: it is returned as it is.
    pub fn fadein(self, amount: u8) -> (c: RGB)
        ensures
            c == self,
    {
        self
    }

    /// An RGB color has no alpha: it is returned as it is.
    pub fn fadeout(self, amount: u8) -> (c: RGB)
        ensures
            c == self,
    {
        self
    }

    /// The RGBA color with these channels and the alpha `amount`.
    pub fn fade(self, amount: u8) -> (c: RGBA)
        ensures
            c == (RGBA { r: self.r, g: self.g, b: self.b, a: Ratio(amount) }),
    {
        RGBA::new(self.r.as_u8(), self.g.as_u8(), self.b.as_u8(), amount)
    }

    /// Turns the hue by `amount` degrees and gives the result in RGB.
    pub fn spin(self, amount: i16) -> (c: RGB)
        requires
            amount < 360,
        ensures
            c == self.hsl_model().spun(amount as int),
    {
        self.to_hsl().spin(amount).to_rgb()
    }

    /// Mixes this color with `other`, weighing this one by `weight` percent.
    pub fn mix<T: IntoRgba>(self, other: T, weight: u8) -> (c: RGBA)
        ensures
            c == self.opaque().mixed(other.rgba_form(), weight),
    {
        self.to_rgba().mix(other, weight)
    }

    /// Mixes this color with opaque white, weighing this one by `weight` percent.
    pub fn tint(self, weight: u8) -> (c: RGBA)
        ensures
            c == self.opaque().tinted(weight),
    {
        self.to_rgba().tint(weight)
    }

    /// Mixes this color with opaque black, weighing this one by `weight` percent.
    pub fn shade(self, weight: u8) -> (c: RGBA)
        ensures
            c == self.opaque().shaded(weight),
    {
        self.to_rgba().shade(weight)
    }

    /// Removes all saturation.
    pub fn greyscale(self) -> (c: RGB)
        ensures
            c == self.hsl_model().greyed().rgb_model(),
    {
        self.to_hsl().greyscale().to_rgb()
    }
}



impl Color for RGB {
    type Alpha = RGBA;

    open spec fn as_rgb(self) -> RGB {
        self
    }

    open spec fn as_rgba(self) -> RGBA {
        self.opaque()
    }

    open spec fn as_hsl(self) -> HSL {
        self.hsl_model()
    }

    open spec fn as_hsla(self) -> HSLA {
        self.hsl_model().hsla_model(Ratio(255))
    }

    open spec fn css(self) -> Seq<char> {
        self.css_text()
    }

    open spec fn saturate_result(self, amount: u8) -> Self {
        self.hsl_model().saturated(amount).rgb_model()
    }

    open spec fn desaturate_result(self, amount: u8) -> Self {
        self.hsl_model().desaturated(amount).rgb_model()
    }

    open spec fn lighten_result(self, amount: u8) -> Self {
        self.hsl_model().lightened(amount).rgb_model()
    }

    open spec fn darken_result(self, amount: u8) -> Self {
        self.hsl_model().darkened(amount).rgb_model()
    }

    open spec fn fadein_result(self, amount: u8) -> Self {
        self
    }

    open spec fn fadeout_result(self, amount: u8) -> Self {
        self
    }

    open spec fn fade_result(self, amount: u8) -> Self::Alpha {
        (RGBA { r: self.r, g: self.g, b: self.b, a: Ratio(amount) })
    }

    open spec fn spin_result(self, amount: int) -> RGB {
        self.hsl_model().spun(amount)
    }

    open spec fn mix_result(self, other: RGBA, weight: u8) -> Self::Alpha {
        self.opaque().mixed(other, weight)
    }

    open spec fn tint_result(self, weight: u8) -> RGBA {
        self.opaque().tinted(weight)
    }

    open spec fn shade_result(self, weight: u8) -> RGBA {
        self.opaque().shaded(weight)
    }

    open spec fn greyscale_result(self) -> Self {
        self.hsl_model().greyed().rgb_model()
    }

    fn to_css(self) -> (text: String) {
        RGB::to_css(self)
    }

    fn to_rgb(self) -> (c: RGB) {
        RGB::to_rgb(self)
    }

    fn to_rgba(self) -> (c: RGBA) {
        RGB::to_rgba(self)
    }

    fn to_hsl(self) -> (c: HSL) {
        RGB::to_hsl(self)
    }

    fn to_hsla(self) -> (c: HSLA) {
        RGB::to_hsla(self)
    }

    fn saturate(self, amount: u8) -> (c: RGB) {
        RGB::saturate(self, amount)
    }

    fn desaturate(self, amount: u8) -> (c: RGB) {
        RGB::desaturate(self, amount)
    }

    fn lighten(self, amount: u8) -> (c: RGB) {
        RGB::lighten(self, amount)
    }

    fn darken(self, amount: u8) -> (c: RGB) {
        RGB::darken(self, amount)
    }

    fn fadein(self, amount: u8) -> (c: RGB) {
        RGB::fadein(self, amount)
    }

    fn fadeout(self, amount: u8) -> (c: RGB) {
        RGB::fadeout(self, amount)
    }

    fn fade(self, amount: u8) -> (c: RGBA) {
        RGB::fade(self, amount)
    }

    fn spin(self, amount: i16) -> (c: RGB) {
        RGB::spin(self, amount)
    }

    fn mix<T: IntoRgba>(self, other: T, weight: u8) -> (c: RGBA) {
        RGB::mix(self, other, weight)
    }

    fn tint(self, weight: u8) -> (c: RGBA) {
        RGB::tint(self, weight)
    }

    fn shade(self, weight: u8) -> (c: RGBA) {
        RGB::shade(self, weight)
    }

    fn greyscale(self) -> (c: RGB) {
        RGB::greyscale(self)
    }
}

impl IntoRgba for RGB {
    open spec fn rgba_form(self) -> RGBA {
        self.as_rgba()
    }

    fn into_rgba(self) -> (c: RGBA) {
        RGB::to_rgba(self)
    }
}

} // verus!
