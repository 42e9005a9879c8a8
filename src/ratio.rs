//! Values between 0 and 1 held as numerators over 255, and the rounding rules for them.
use vstd::prelude::*;

verus! {

/// `num / den` rounded to the nearest integer, with halves rounded up.
pub open spec fn round_div(num: int, den: int) -> int
    recommends
        den > 0,
{
    (2 * num + den) / (2 * den)
}

/// The numerator over 255 that stands for `p` percent: `p * 255 / 100` rounded,
/// and 255 where a percentage above 100 would go past it.
pub open spec fn byte_of_percentage(p: int) -> int {
    let b = round_div(p * 255, 100);
    if b > 255 {
        255
    } else {
        b
    }
}

/// The percentage that the numerator `n` over 255 stands for: `n * 100 / 255` rounded.
pub open spec fn percentage_of_byte(n: int) -> int {
    round_div(n * 100, 255)
}

/// The product of two fractions over 255, as a fraction over 255, rounded.
pub open spec fn scaled(a: int, b: int) -> int {
    round_div(a * b, 255)
}

/// `a + b`, held at 255.
pub open spec fn saturating_sum(a: int, b: int) -> int {
    if a + b > 255 {
        255
    } else {
        a + b
    }
}

/// `a - b`, held at 0.
pub open spec fn saturating_difference(a: int, b: int) -> int {
    if a < b {
        0
    } else {
        a - b
    }
}

pub proof fn lemma_scaled_bounds(a: int, b: int)
    requires
        0 <= a <= 255,
        0 <= b <= 255,
    ensures
        0 <= a * b <= 65025,
        0 <= scaled(a, b) <= a,
        0 <= scaled(a, b) <= b,
{
    assert(0 <= a * b <= 65025) by (nonlinear_arith)
        requires
            0 <= a <= 255,
            0 <= b <= 255,
    ;
    assert(2 * (a * b) + 255 < 510 * (a + 1)) by (nonlinear_arith)
        requires
            0 <= a <= 255,
            0 <= b <= 255,
    ;
    assert(2 * (a * b) + 255 < 510 * (b + 1)) by (nonlinear_arith)
        requires
            0 <= a <= 255,
            0 <= b <= 255,
    ;
}

/// A value between 0 and 1, held as a numerator over 255.
///
/// Sums and differences saturate at the ends of the range; products are
/// rounded to the nearest numerator.
#[derive(Debug, Clone, Copy, PartialEq, Eq, Structural)]
pub struct Ratio(pub u8);

impl View for Ratio {
    type V = int;

    open spec fn view(&self) -> int {
        self.0 as int
    }
}

impl Ratio {
    /// The ratio `n / 255`.
    pub fn from_u8(n: u8) -> (r: Ratio)
        ensures
            r@ == n,
    {
        Ratio(n)
    }

    /// The ratio that stands for `p` percent. Percentages above 100 are not
    /// refused: they give 255 once the scaled value passes it.
    pub fn from_percentage(p: u8) -> (r: Ratio)
        ensures
            r@ == byte_of_percentage(p as int),
    {
        let p32: u32 = p as u32;
        let b: u32 = (510 * p32 + 100) / 200;
        if b > 255 {
            Ratio(255)
        } else {
            Ratio(b as u8)
        }
    }

    /// The numerator over 255.
    pub fn as_u8(self) -> (r: u8)
        ensures
            r == self@,
    {
        self.0
    }

    /// The ratio as a rounded percentage, 0 to 100.
    pub fn as_percentage(self) -> (r: u8)
        ensures
            r == percentage_of_byte(self@),
            r <= 100,
    {
        let n: u32 = self.0 as u32;
        ((200 * n + 255) / 510) as u8
    }
}

impl Ratio {
    /// The sum, held at 1.
    pub fn saturating_add(self, other: Ratio) -> (r: Ratio)
        ensures
            r@ == saturating_sum(self@, other@),
    {
        Ratio(self.0.saturating_add(other.0))
    }

    /// The difference, held at 0.
    pub fn saturating_sub(self, other: Ratio) -> (r: Ratio)
        ensures
            r@ == saturating_difference(self@, other@),
    {
        Ratio(self.0.saturating_sub(other.0))
    }

    /// The product, rounded to the nearest numerator.
    pub fn product(self, other: Ratio) -> (r: Ratio)
        ensures
            r@ == scaled(self@, other@),
    {
        proof {
            lemma_scaled_bounds(self@, other@);
        }
        let product: u32 = (self.0 as u32) * (other.0 as u32);
        Ratio(((2 * product + 255) / 510) as u8)
    }
}

} // verus!
