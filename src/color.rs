//! The operations that every color model supports.
use vstd::prelude::*;

use crate::hsl::HSL;
use crate::hsla::HSLA;
use crate::rgb::RGB;
use crate::rgba::RGBA;

verus! {

/// A color that `mix` can take as the other color: anything with an RGBA form.
pub trait IntoRgba: Sized {
    /// This color in the RGBA model.
    spec fn rgba_form(self) -> RGBA;

    /// Converts `self` to RGBA; a color without alpha is fully opaque.
    fn into_rgba(self) -> (c: RGBA)
        ensures
            c == self.rgba_form(),
    ;
}

/// Conversions between the color models, and the transformations that each of them
/// supports.
///
/// Each model states in `as_rgb`, `as_rgba`, `as_hsl`, `as_hsla` and `css` what its
/// conversions and its text give, and in the `..._result` functions what each
/// transformation returns. Every model also carries the same operations as methods of
/// its own, with the same contracts; its impl of this trait hands each call on to them.
pub trait Color: Sized {
    /// The model of the same kind that carries an alpha channel.
    type Alpha;

    /// This color in the RGB model.
    spec fn as_rgb(self) -> RGB;

    /// This color in the RGBA model.
    spec fn as_rgba(self) -> RGBA;

    /// This color in the HSL model.
    spec fn as_hsl(self) -> HSL;

    /// This color in the HSLA model.
    spec fn as_hsla(self) -> HSLA;

    /// The CSS text of this color.
    spec fn css(self) -> Seq<char>;

    /// What `saturate` returns.
    spec fn saturate_result(self, amount: u8) -> Self;

    /// What `desaturate` returns.
    spec fn desaturate_result(self, amount: u8) -> Self;

    /// What `lighten` returns.
    spec fn lighten_result(self, amount: u8) -> Self;

    /// What `darken` returns.
    spec fn darken_result(self, amount: u8) -> Self;

    /// What `fadein` returns.
    spec fn fadein_result(self, amount: u8) -> Self;

    /// What `fadeout` returns.
    spec fn fadeout_result(self, amount: u8) -> Self;

    /// What `fade` returns.
    spec fn fade_result(self, amount: u8) -> Self::Alpha;

    /// What `spin` returns.
    spec fn spin_result(self, amount: int) -> RGB;

    /// What `mix` returns.
    spec fn mix_result(self, other: RGBA, weight: u8) -> Self::Alpha;

    /// What `tint` returns.
    spec fn tint_result(self, weight: u8) -> RGBA;

    /// What `shade` returns.
    spec fn shade_result(self, weight: u8) -> RGBA;

    /// What `greyscale` returns.
    spec fn greyscale_result(self) -> Self;

    /// Renders `self` as CSS text: `rgb(R, G, B)`, `rgba(R, G, B, A)`, `hsl(H, S%, L%)` or
    /// `hsla(H, S%, L%, A)`, with the alpha `A` as a fraction with two decimals.
    fn to_css(self) -> (text: String)
        ensures
            text@ == self.css(),
    ;

    /// Converts `self` to RGB; an alpha channel is dropped.
    fn to_rgb(self) -> (c: RGB)
        ensures
            c == self.as_rgb(),
    ;

    /// Converts `self` to RGBA; a color without alpha is fully opaque.
    fn to_rgba(self) -> (c: RGBA)
        ensures
            c == self.as_rgba(),
    ;

    /// Converts `self` to HSL; an alpha channel is dropped.
    fn to_hsl(self) -> (c: HSL)
        ensures
            c == self.as_hsl(),
    ;

    /// Converts `self` to HSLA; a color without alpha is fully opaque.
    fn to_hsla(self) -> (c: HSLA)
        ensures
            c == self.as_hsla(),
    ;

    /// Raises the saturation by `amount` percent, in the HSL model.
    fn saturate(self, amount: u8) -> (c: Self)
        ensures
            c == self.saturate_result(amount),
    ;

    /// Lowers the saturation by `amount` percent, in the HSL model.
    fn desaturate(self, amount: u8) -> (c: Self)
        ensures
            c == self.desaturate_result(amount),
    ;

    /// Raises the lightness by `amount` percent, in the HSL model.
    fn lighten(self, amount: u8) -> (c: Self)
        ensures
            c == self.lighten_result(amount),
    ;

    /// Lowers the lightness by `amount` percent, in the HSL model.
    fn darken(self, amount: u8) -> (c: Self)
        ensures
            c == self.darken_result(amount),
    ;

    /// Raises the alpha by `amount` (over 255); a color without alpha is returned as it is.
    fn fadein(self, amount: u8) -> (c: Self)
        ensures
            c == self.fadein_result(amount),
    ;

    /// Lowers the alpha by `amount` (over 255); a color without alpha is returned as it is.
    fn fadeout(self, amount: u8) -> (c: Self)
        ensures
            c == self.fadeout_result(amount),
    ;

    /// Sets the alpha to `amount` (over 255), in the model of the same kind that has alpha.
    fn fade(self, amount: u8) -> (c: Self::Alpha)
        ensures
            c == self.fade_result(amount),
    ;

    /// Turns the hue by `amount` degrees, backwards where it is negative, and returns the
    /// result in RGB. A turn of 360 degrees or more is a caller's mistake.
    fn spin(self, amount: i16) -> (c: RGB)
        requires
            amount < 360,
        ensures
            c == self.spin_result(amount as int),
    ;

    /// Mixes `self` with `other`, weighing `self` by `weight` percent and taking both
    /// alphas into account.
    fn mix<T: IntoRgba>(self, other: T, weight: u8) -> (c: Self::Alpha)
        ensures
            c == self.mix_result(other.rgba_form(), weight),
    ;

    /// Mixes `self` with opaque white, weighing `self` by `weight` percent.
    fn tint(self, weight: u8) -> (c: RGBA)
        ensures
            c == self.tint_result(weight),
    ;

    /// Mixes `self` with opaque black, weighing `self` by `weight` percent.
    fn shade(self, weight: u8) -> (c: RGBA)
        ensures
            c == self.shade_result(weight),
    ;

    /// Removes all saturation, in the HSL model, keeping hue, lightness and any alpha.
    fn greyscale(self) -> (c: Self)
        ensures
            c == self.greyscale_result(),
    ;
}

} // verus!
