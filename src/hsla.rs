//! Colors by hue, saturation, lightness and alpha.
use vstd::prelude::*;

use crate::angle::Angle;
use crate::color::{Color, IntoRgba};
use crate::css::{decimal, fraction_text, push_decimal, push_fraction};
use crate::hsl::HSL;
use crate::ratio::{
    byte_of_percentage,
    percentage_of_byte,
    saturating_difference,
    saturating_sum,
    Ratio,
};
use crate::rgb::RGB;
use crate::rgba::RGBA;

verus! {

/// A color given by hue, saturation, lightness and alpha.
#[derive(Debug, Clone, Copy, PartialEq, Eq, Structural)]
pub struct HSLA {
    /// Hue, on the color wheel: 0 is red, 120 green, 240 blue.
    pub h: Angle,
    /// Saturation: 0 is grey, 1 is full color.
    pub s: Ratio,
    /// Lightness: 0 is black, 1 is white.
    pub l: Ratio,
    /// Alpha: 0 is transparent, 1 is opaque.
    pub a: Ratio,
}

impl HSLA {
    /// The color of hue `h` degrees (modulo 360), saturation `s` percent, lightness
    /// `l` percent and alpha `a / 255`.
    pub fn new(h: u16, s: u8, l: u8, a: u8) -> (c: HSLA)
        ensures
            c.h == Angle::from_degrees(h as int),
            c.h@ == h % 360,
            c.s@ == byte_of_percentage(s as int),
            c.l@ == byte_of_percentage(l as int),
            c.a@ == a,
    {
        HSLA {
            h: Angle::new(h),
            s: Ratio::from_percentage(s),
            l: Ratio::from_percentage(l),
            a: Ratio::from_u8(a),
        }
    }

    /// The hue, saturation and lightness, without the alpha.
    pub open spec fn hsl_part(self) -> HSL {
        HSL { h: self.h, s: self.s, l: self.l }
    }

    /// The RGBA color that this one stands for, with the same alpha.
    pub open spec fn rgba_model(self) -> RGBA {
        let c = self.hsl_part().rgb_model();
        RGBA { r: c.r, g: c.g, b: c.b, a: self.a }
    }

    /// The saturation raised by `amount` percent.
    pub open spec fn saturated(self, amount: u8) -> HSLA {
        HSLA {
            s: Ratio(saturating_sum(self.s@, byte_of_percentage(amount as int)) as u8),
            ..self
        }
    }

    /// The saturation lowered by `amount` percent.
    pub open spec fn desaturated(self, amount: u8) -> HSLA {
        HSLA {
            s: Ratio(saturating_difference(self.s@, byte_of_percentage(amount as int)) as u8),
            ..self
        }
    }

    /// The lightness raised by `amount` percent.
    pub open spec fn lightened(self, amount: u8) -> HSLA {
        HSLA {
            l: Ratio(saturating_sum(self.l@, byte_of_percentage(amount as int)) as u8),
            ..self
        }
    }

    /// The lightness lowered by `amount` percent.
    pub open spec fn darkened(self, amount: u8) -> HSLA {
        HSLA {
            l: Ratio(saturating_difference(self.l@, byte_of_percentage(amount as int)) as u8),
            ..self
        }
    }

    /// The saturation set to 0.
    pub open spec fn greyed(self) -> HSLA {
        HSLA { s: Ratio(0), ..self }
    }

    /// The CSS text of this color.
    pub open spec fn css_text(self) -> Seq<char> {
        "hsla("@ + decimal(self.h@ as nat) + ", "@ + decimal(percentage_of_byte(self.s@) as nat)
            + "%, "@ + decimal(percentage_of_byte(self.l@) as nat) + "%, "@ + fraction_text(
            self.a@,
        ) + ")"@
    }

    /// Renders this color as CSS text.
    pub fn to_css(self) -> (text: String)
        ensures
            text@ == self.css_text(),
    {
        let mut text = String::new();
        text.append("hsla(");
        push_decimal(&mut text, self.h.degrees());
        text.append(", ");
        push_decimal(&mut text, self.s.as_percentage() as u16);
        text.append("%, ");
        push_decimal(&mut text, self.l.as_percentage() as u16);
        text.append("%, ");
        push_fraction(&mut text, self.a.as_u8());
        text.append(")");
        assert(text@ =~= self.css_text());
        text
    }

    /// Converts this color to RGB.
    pub fn to_rgb(self) -> (c: RGB)
        ensures
            c == self.hsl_part().rgb_model(),
    {
        self.to_hsl().to_rgb()
    }

    /// Converts this color to RGBA.
    pub fn to_rgba(self) -> (c: RGBA)
        ensures
            c == self.rgba_model(),
    {
        let RGB { r, g, b } = self.to_rgb();
        RGBA { r, g, b, a: self.a }
    }

    /// Converts this color to HSL.
    pub fn to_hsl(self) -> (c: HSL)
        ensures
            c == self.hsl_part(),
    {
        let HSLA { h, s, l, .. } = self;
        HSL { h, s, l }
    }

    /// Converts this color to HSLA.
    pub fn to_hsla(self) -> (c: HSLA)
        ensures
            c == self,
    {
        self
    }

    /// Raises the saturation by `amount` percent.
    pub fn saturate(self, amount: u8) -> (c: HSLA)
        ensures
            c == self.saturated(amount),
    {
        let HSLA { h, s, l, a } = self;
        HSLA { h, s: s.saturating_add(Ratio::from_percentage(amount)), l, a }
    }

    /// Lowers the saturation by `amount` percent.
    pub fn desaturate(self, amount: u8) -> (c: HSLA)
        ensures
            c == self.desaturated(amount),
    {
        let HSLA { h, s, l, a } = self;
        HSLA { h, s: s.saturating_sub(Ratio::from_percentage(amount)), l, a }
    }

    /// Raises the lightness by `amount` percent.
    pub fn lighten(self, amount: u8) -> (c: HSLA)
        ensures
            c == self.lightened(amount),
    {
        let HSLA { h, s, l, a } = self;
        HSLA { h, s, l: l.saturating_add(Ratio::from_percentage(amount)), a }
    }

    /// Lowers the lightness by `amount` percent.
    pub fn darken(self, amount: u8) -> (c: HSLA)
        ensures
            c == self.darkened(amount),
    {
        let HSLA { h, s, l, a } = self;
        HSLA { h, s, l: l.saturating_sub(Ratio::from_percentage(amount)), a }
    }

    /// Raises the alpha by `amount`.
    pub fn fadein(self, amount: u8) -> (c: HSLA)
        ensures
            c == (HSLA { a: Ratio(saturating_sum(self.a@, amount as int) as u8), ..self }),
    {
        let HSLA { h, s, l, a } = self;
        HSLA { h, s, l, a: a.saturating_add(Ratio::from_u8(amount)) }
    }

    /// Lowers the alpha by `amount`.
    pub fn fadeout(self, amount: u8) -> (c: HSLA)
        ensures
            c == (HSLA { a: Ratio(saturating_difference(self.a@, amount as int) as u8), ..self }),
    {
        let HSLA { h, s, l, a } = self;
        HSLA { h, s, l, a: a.saturating_sub(Ratio::from_u8(amount)) }
    }

    /// Sets the alpha to `amount`.
    pub fn fade(self, amount: u8) -> (c: HSLA)
        ensures
            c == (HSLA { a: Ratio(amount), ..self }),
    {
        let HSLA { h, s, l, .. } = self;
        HSLA { h, s, l, a: Ratio::from_u8(amount) }
    }

    /// Turns the hue by `amount` degrees and gives the result in RGB.
    pub fn spin(self, amount: i16) -> (c: RGB)
        requires
            amount < 360,
        ensures
            c == self.hsl_part().spun(amount as int),
    {
        self.to_hsl().spin(amount)
    }

    /// Mixes this color with `other`, weighing this one by `weight` percent.
    pub fn mix<T: IntoRgba>(self, other: T, weight: u8) -> (c: HSLA)
        ensures
            c == self.rgba_model().mixed(other.rgba_form(), weight).hsla_model(),
    {
        self.to_rgba().mix(other, weight).to_hsla()
    }

    /// Mixes this color with opaque white, weighing this one by `weight` percent.
    pub fn tint(self, weight: u8) -> (c: RGBA)
        ensures
            c == self.rgba_model().tinted(weight),
    {
        self.to_rgba().tint(weight)
    }

    /// Mixes this color with opaque black, weighing this one by `weight` percent.
    pub fn shade(self, weight: u8) -> (c: RGBA)
        ensures
            c == self.rgba_model().shaded(weight),
    {
        self.to_rgba().shade(weight)
    }

    /// Removes all saturation; hue, lightness and alpha are kept.
    pub fn greyscale(self) -> (c: HSLA)
        ensures
            c == self.greyed(),
    {
        let HSLA { h, s: _, l, a } = self;
        HSLA { h, s: Ratio::from_u8(0), l, a }
    }
}



impl Color for HSLA {
    type Alpha = HSLA;

    open spec fn as_rgb(self) -> RGB {
        self.hsl_part().rgb_model()
    }

    open spec fn as_rgba(self) -> RGBA {
        self.rgba_model()
    }

    open spec fn as_hsl(self) -> HSL {
        self.hsl_part()
    }

    open spec fn as_hsla(self) -> HSLA {
        self
    }

    open spec fn css(self) -> Seq<char> {
        self.css_text()
    }

    open spec fn saturate_result(self, amount: u8) -> Self {
        self.saturated(amount)
    }

    open spec fn desaturate_result(self, amount: u8) -> Self {
        self.desaturated(amount)
    }

    open spec fn lighten_result(self, amount: u8) -> Self {
        self.lightened(amount)
    }

    open spec fn darken_result(self, amount: u8) -> Self {
        self.darkened(amount)
    }

    open spec fn fadein_result(self, amount: u8) -> Self {
        (HSLA { a: Ratio(saturating_sum(self.a@, amount as int) as u8), ..self })
    }

    open spec fn fadeout_result(self, amount: u8) -> Self {
        (HSLA { a: Ratio(saturating_difference(self.a@, amount as int) as u8), ..self })
    }

    open spec fn fade_result(self, amount: u8) -> Self::Alpha {
        (HSLA { a: Ratio(amount), ..self })
    }

    open spec fn spin_result(self, amount: int) -> RGB {
        self.hsl_part().spun(amount)
    }

    open spec fn mix_result(self, other: RGBA, weight: u8) -> Self::Alpha {
        self.rgba_model().mixed(other, weight).hsla_model()
    }

    open spec fn tint_result(self, weight: u8) -> RGBA {
        self.rgba_model().tinted(weight)
    }

    open spec fn shade_result(self, weight: u8) -> RGBA {
        self.rgba_model().shaded(weight)
    }

    open spec fn greyscale_result(self) -> Self {
        self.greyed()
    }

    fn to_css(self) -> (text: String) {
        HSLA::to_css(self)
    }

    fn to_rgb(self) -> (c: RGB) {
        HSLA::to_rgb(self)
    }

    fn to_rgba(self) -> (c: RGBA) {
        HSLA::to_rgba(self)
    }

    fn to_hsl(self) -> (c: HSL) {
        HSLA::to_hsl(self)
    }

    fn to_hsla(self) -> (c: HSLA) {
        HSLA::to_hsla(self)
    }

    fn saturate(self, amount: u8) -> (c: HSLA) {
        HSLA::saturate(self, amount)
    }

    fn desaturate(self, amount: u8) -> (c: HSLA) {
        HSLA::desaturate(self, amount)
    }

    fn lighten(self, amount: u8) -> (c: HSLA) {
        HSLA::lighten(self, amount)
    }

    fn darken(self, amount: u8) -> (c: HSLA) {
        HSLA::darken(self, amount)
    }

    fn fadein(self, amount: u8) -> (c: HSLA) {
        HSLA::fadein(self, amount)
    }

    fn fadeout(self, amount: u8) -> (c: HSLA) {
        HSLA::fadeout(self, amount)
    }

    fn fade(self, amount: u8) -> (c: HSLA) {
        HSLA::fade(self, amount)
    }

    fn spin(self, amount: i16) -> (c: RGB) {
        HSLA::spin(self, amount)
    }

    fn mix<T: IntoRgba>(self, other: T, weight: u8) -> (c: HSLA) {
        HSLA::mix(self, other, weight)
    }

    fn tint(self, weight: u8) -> (c: RGBA) {
        HSLA::tint(self, weight)
    }

    fn shade(self, weight: u8) -> (c: RGBA) {
        HSLA::shade(self, weight)
    }

    fn greyscale(self) -> (c: HSLA) {
        HSLA::greyscale(self)
    }
}

impl IntoRgba for HSLA {
    open spec fn rgba_form(self) -> RGBA {
        self.as_rgba()
    }

    fn into_rgba(self) -> (c: RGBA) {
        HSLA::to_rgba(self)
    }
}

} // verus!
