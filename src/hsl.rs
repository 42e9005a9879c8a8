//! Colors by hue, saturation and lightness.
use vstd::prelude::*;

use crate::angle::Angle;
use crate::color::{Color, IntoRgba};
use crate::convert::{channel_of, lemma_channel_value_bounds, lemma_levels, to_rgb_value};
use crate::css::{decimal, push_decimal};
use crate::hsla::HSLA;
use crate::ratio::{
    byte_of_percentage,
    percentage_of_byte,
    saturating_difference,
    saturating_sum,
    Ratio,
};
use crate::rgb::RGB;
use crate::rgba::RGBA;

verus! {

broadcast use Angle::lemma_from_degrees;

/// A ratio brought to the nearest whole percentage and back.
pub open spec fn requantized(x: Ratio) -> Ratio {
    Ratio(byte_of_percentage(percentage_of_byte(x@)) as u8)
}

/// A color given by hue, saturation and lightness.
#[derive(Debug, Clone, Copy, PartialEq, Eq, Structural)]
pub struct HSL {
    /// Hue, on the color wheel: 0 is red, 120 green, 240 blue.
    pub h: Angle,
    /// Saturation: 0 is grey, 1 is full color.
    pub s: Ratio,
    /// Lightness: 0 is black, 1 is white.
    pub l: Ratio,
}

impl HSL {
    /// The color of hue `h` degrees (modulo 360), saturation `s` percent and lightness
    /// `l` percent. Percentages above 100 are taken as they come, up to a full ratio.
    pub fn new(h: u16, s: u8, l: u8) -> (c: HSL)
        ensures
            c.h == Angle::from_degrees(h as int),
            c.h@ == h % 360,
            c.s@ == byte_of_percentage(s as int),
            c.l@ == byte_of_percentage(l as int),
    {
        HSL { h: Angle::new(h), s: Ratio::from_percentage(s), l: Ratio::from_percentage(l) }
    }

    /// The RGB color that this one stands for: grey at the lightness where the saturation
    /// is 0, else each channel read off the hue turned by 120 degrees for red, as it is
    /// for green and turned back by 120 degrees for blue.
    pub open spec fn rgb_model(self) -> RGB {
        if self.s@ == 0 {
            RGB { r: self.l, g: self.l, b: self.l }
        } else {
            RGB {
                r: Ratio(channel_of(self.h@ + 120, self.s@, self.l@) as u8),
                g: Ratio(channel_of(self.h@, self.s@, self.l@) as u8),
                b: Ratio(channel_of(self.h@ - 120, self.s@, self.l@) as u8),
            }
        }
    }

    /// The opaque RGBA color that this one stands for.
    pub open spec fn opaque_rgba(self) -> RGBA {
        let c = self.rgb_model();
        RGBA { r: c.r, g: c.g, b: c.b, a: Ratio(255) }
    }

    /// This color with the alpha `a`, saturation and lightness brought to whole percentages.
    pub open spec fn hsla_model(self, a: Ratio) -> HSLA {
        HSLA { h: self.h, s: requantized(self.s), l: requantized(self.l), a }
    }

    /// The saturation raised by `amount` percent.
    pub open spec fn saturated(self, amount: u8) -> HSL {
        HSL {
            s: Ratio(saturating_sum(self.s@, byte_of_percentage(amount as int)) as u8),
            ..self
        }
    }

    /// The saturation lowered by `amount` percent.
    pub open spec fn desaturated(self, amount: u8) -> HSL {
        HSL {
            s: Ratio(saturating_difference(self.s@, byte_of_percentage(amount as int)) as u8),
            ..self
        }
    }

    /// The lightness raised by `amount` percent.
    pub open spec fn lightened(self, amount: u8) -> HSL {
        HSL {
            l: Ratio(saturating_sum(self.l@, byte_of_percentage(amount as int)) as u8),
            ..self
        }
    }

    /// The lightness lowered by `amount` percent.
    pub open spec fn darkened(self, amount: u8) -> HSL {
        HSL {
            l: Ratio(saturating_difference(self.l@, byte_of_percentage(amount as int)) as u8),
            ..self
        }
    }

    /// The hue turned by `amount` degrees, in RGB.
    pub open spec fn spun(self, amount: int) -> RGB {
        HSL { h: Angle::from_degrees(self.h@ + amount), ..self }.rgb_model()
    }

    /// The saturation set to 0.
    pub open spec fn greyed(self) -> HSL {
        HSL { s: Ratio(0), ..self }
    }

    /// `hsla_model` as executable code.
    pub fn quantized_with_alpha(self, a: Ratio) -> (c: HSLA)
        ensures
            c == self.hsla_model(a),
    {
        HSLA {
            h: self.h,
            s: Ratio::from_percentage(self.s.as_percentage()),
            l: Ratio::from_percentage(self.l.as_percentage()),
            a,
        }
    }

    /// The CSS text of this color.
    pub open spec fn css_text(self) -> Seq<char> {
        "hsl("@ + decimal(self.h@ as nat) + ", "@ + decimal(percentage_of_byte(self.s@) as nat)
            + "%, "@ + decimal(percentage_of_byte(self.l@) as nat) + "%)"@
    }

    /// Renders this color as CSS text.
    pub fn to_css(self) -> (text: String)
        ensures
            text@ == self.css_text(),
    {
        let mut text = String::new();
        text.append("hsl(");
        push_decimal(&mut text, self.h.degrees());
        text.append(", ");
        push_decimal(&mut text, self.s.as_percentage() as u16);
        text.append("%, ");
        push_decimal(&mut text, self.l.as_percentage() as u16);
        text.append("%)");
        assert(text@ =~= self.css_text());
        text
    }

    /// Converts this color to RGB.
    pub fn to_rgb(self) -> (c: RGB)
        ensures
            c == self.rgb_model(),
    {
        let hue = self.h;
        let s: u32 = self.s.as_u8() as u32;
        let l: u32 = self.l.as_u8() as u32;

        // Without saturation the color is the grey of its lightness.
        if s == 0 {
            return RGB { r: self.l, g: self.l, b: self.l };
        }
        proof {
            lemma_levels(s as int, l as int);
        }
        // The high and low channel levels, over 255 * 255.
        let temp_1: u32 = if l < 128 {
            l * (255 + s)
        } else {
            255 * (l + s) - l * s
        };
        let temp_2: u32 = 510 * l - temp_1;

        // Red reads the hue a third of a turn on, blue a third of a turn back.
        let rotation = Angle::new(120);
        let temporary_r = (hue + rotation).degrees();
        let temporary_g = hue.degrees();
        let temporary_b = (hue - rotation).degrees();

        let red = to_rgb_value(temporary_r, temp_1, temp_2);
        let green = to_rgb_value(temporary_g, temp_1, temp_2);
        let blue = to_rgb_value(temporary_b, temp_1, temp_2);
        proof {
            assert((hue@ + 120) % 360 % 360 == (hue@ + 120) % 360);
            assert((hue@ - 120) % 360 % 360 == (hue@ - 120) % 360);
            assert(hue@ % 360 == hue@);
            lemma_channel_value_bounds(hue@ + 120, temp_1 as int, temp_2 as int);
            lemma_channel_value_bounds(hue@, temp_1 as int, temp_2 as int);
            lemma_channel_value_bounds(hue@ - 120, temp_1 as int, temp_2 as int);
        }
        RGB { r: Ratio::from_u8(red), g: Ratio::from_u8(green), b: Ratio::from_u8(blue) }
    }

    /// Converts this color to RGBA.
    pub fn to_rgba(self) -> (c: RGBA)
        ensures
            c == self.opaque_rgba(),
    {
        let RGB { r, g, b } = self.to_rgb();
        RGBA { r, g, b, a: Ratio::from_u8(255) }
    }

    /// Converts this color to HSL.
    pub fn to_hsl(self) -> (c: HSL)
        ensures
            c == self,
    {
        self
    }

    /// Converts this color to HSLA.
    pub fn to_hsla(self) -> (c: HSLA)
        ensures
            c == self.hsla_model(Ratio(255)),
    {
        self.quantized_with_alpha(Ratio::from_u8(255))
    }

    /// Raises the saturation by `amount` percent.
    pub fn saturate(self, amount: u8) -> (c: HSL)
        ensures
            c == self.saturated(amount),
    {
        let HSL { h, s, l } = self;
        HSL { h, s: s.saturating_add(Ratio::from_percentage(amount)), l }
    }

    /// Lowers the saturation by `amount` percent.
    pub fn desaturate(self, amount: u8) -> (c: HSL)
        ensures
            c == self.desaturated(amount),
    {
        let HSL { h, s, l } = self;
        HSL { h, s: s.saturating_sub(Ratio::from_percentage(amount)), l }
    }

    /// Raises the lightness by `amount` percent.
    pub fn lighten(self, amount: u8) -> (c: HSL)
        ensures
            c == self.lightened(amount),
    {
        let HSL { h, s, l } = self;
        HSL { h, s, l: l.saturating_add(Ratio::from_percentage(amount)) }
    }

    /// Lowers the lightness by `amount` percent.
    pub fn darken(self, amount: u8) -> (c: HSL)
        ensures
            c == self.darkened(amount),
    {
        let HSL { h, s, l } = self;
        HSL { h, s, l: l.saturating_sub(Ratio::from_percentage(amount)) }
    }

    /// An HSL color has no alpha: it is returned as it is.
    pub fn fadein(self, amount: u8) -> (c: HSL)
        ensures
            c == self,
    {
        self
    }

    /// An HSL color has no alpha: it is returned as it is.
    pub fn fadeout(self, amount: u8) -> (c: HSL)
        ensures
            c == self,
    {
        self
    }

    /// The HSLA color with this hue, saturation and lightness and the alpha `amount`.
    pub fn fade(self, amount: u8) -> (c: HSLA)
        ensures
            c == (HSLA { h: self.h, s: self.s, l: self.l, a: Ratio(amount) }),
    {
        let HSL { h, s, l } = self;
        HSLA { h, s, l, a: Ratio::from_u8(amount) }
    }

    /// Turns the hue by `amount` degrees and gives the result in RGB.
    pub fn spin(self, amount: i16) -> (c: RGB)
        requires
            amount < 360,
        ensures
            c == self.spun(amount as int),
    {
        let HSL { h, s, l } = self;
        let new_hue = if amount < 0 {
            let back: u16 = (0 - amount as i32) as u16;
            h - Angle::new(back)
        } else {
            h + Angle::new(amount as u16)
        };
        proof {
            assert(new_hue@ == (h@ + amount) % 360);
            Angle::lemma_view_injective(new_hue, Angle::from_degrees(h@ + amount));
        }
        HSL { h: new_hue, s, l }.to_rgb()
    }

    /// Mixes this color with `other`, weighing this one by `weight` percent.
    pub fn mix<T: IntoRgba>(self, other: T, weight: u8) -> (c: HSLA)
        ensures
            c == self.hsla_model(Ratio(255)).rgba_model().mixed(
                other.rgba_form(),
                weight,
            ).hsla_model(),
    {
        self.to_hsla().mix(other, weight)
    }

    /// Mixes this color with opaque white, weighing this one by `weight` percent.
    pub fn tint(self, weight: u8) -> (c: RGBA)
        ensures
            c == self.opaque_rgba().tinted(weight),
    {
        self.to_rgba().tint(weight)
    }

    /// Mixes this color with opaque black, weighing this one by `weight` percent.
    pub fn shade(self, weight: u8) -> (c: RGBA)
        ensures
            c == self.opaque_rgba().shaded(weight),
    {
        self.to_rgba().shade(weight)
    }

    /// Removes all saturation.
    pub fn greyscale(self) -> (c: HSL)
        ensures
            c == self.greyed(),
    {
        let HSL { h, s: _, l } = self;
        HSL { h, s: Ratio::from_u8(0), l }
    }
}



impl Color for HSL {
    type Alpha = HSLA;

    open spec fn as_rgb(self) -> RGB {
        self.rgb_model()
    }

    open spec fn as_rgba(self) -> RGBA {
        self.opaque_rgba()
    }

    open spec fn as_hsl(self) -> HSL {
        self
    }

    open spec fn as_hsla(self) -> HSLA {
        self.hsla_model(Ratio(255))
    }

    open spec fn css(self) -> Seq<char> {
        self.css_text()
    }

    open spec fn saturate_result(self, amount: u8) -> Self {
        self.saturated(amount)
    }

    open spec fn desaturate_result(self, amount: u8) -> Self {
        self.desaturated(amount)
    }

    open spec fn lighten_result(self, amount: u8) -> Self {
        self.lightened(amount)
    }

    open spec fn darken_result(self, amount: u8) -> Self {
        self.darkened(amount)
    }

    open spec fn fadein_result(self, amount: u8) -> Self {
        self
    }

    open spec fn fadeout_result(self, amount: u8) -> Self {
        self
    }

    open spec fn fade_result(self, amount: u8) -> Self::Alpha {
        (HSLA { h: self.h, s: self.s, l: self.l, a: Ratio(amount) })
    }

    open spec fn spin_result(self, amount: int) -> RGB {
        self.spun(amount)
    }

    open spec fn mix_result(self, other: RGBA, weight: u8) -> Self::Alpha {
        self.hsla_model(Ratio(255)).rgba_model().mixed(other, weight).hsla_model()
    }

    open spec fn tint_result(self, weight: u8) -> RGBA {
        self.opaque_rgba().tinted(weight)
    }

    open spec fn shade_result(self, weight: u8) -> RGBA {
        self.opaque_rgba().shaded(weight)
    }

    open spec fn greyscale_result(self) -> Self {
        self.greyed()
    }

    fn to_css(self) -> (text: String) {
        HSL::to_css(self)
    }

    fn to_rgb(self) -> (c: RGB) {
        HSL::to_rgb(self)
    }

    fn to_rgba(self) -> (c: RGBA) {
        HSL::to_rgba(self)
    }

    fn to_hsl(self) -> (c: HSL) {
        HSL::to_hsl(self)
    }

    fn to_hsla(self) -> (c: HSLA) {
        HSL::to_hsla(self)
    }

    fn saturate(self, amount: u8) -> (c: HSL) {
        HSL::saturate(self, amount)
    }

    fn desaturate(self, amount: u8) -> (c: HSL) {
        HSL::desaturate(self, amount)
    }

    fn lighten(self, amount: u8) -> (c: HSL) {
        HSL::lighten(self, amount)
    }

    fn darken(self, amount: u8) -> (c: HSL) {
        HSL::darken(self, amount)
    }

    fn fadein(self, amount: u8) -> (c: HSL) {
        HSL::fadein(self, amount)
    }

    fn fadeout(self, amount: u8) -> (c: HSL) {
        HSL::fadeout(self, amount)
    }

    fn fade(self, amount: u8) -> (c: HSLA) {
        HSL::fade(self, amount)
    }

    fn spin(self, amount: i16) -> (c: RGB) {
        HSL::spin(self, amount)
    }

    fn mix<T: IntoRgba>(self, other: T, weight: u8) -> (c: HSLA) {
        HSL::mix(self, other, weight)
    }

    fn tint(self, weight: u8) -> (c: RGBA) {
        HSL::tint(self, weight)
    }

    fn shade(self, weight: u8) -> (c: RGBA) {
        HSL::shade(self, weight)
    }

    fn greyscale(self) -> (c: HSL) {
        HSL::greyscale(self)
    }
}

impl IntoRgba for HSL {
    open spec fn rgba_form(self) -> RGBA {
        self.as_rgba()
    }

    fn into_rgba(self) -> (c: RGBA) {
        HSL::to_rgba(self)
    }
}

} // verus!
