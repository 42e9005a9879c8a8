//! Colors in the RGB, RGBA, HSL and HSLA models, the conversions between them, and
//! the color operations of CSS preprocessors: saturate, lighten, fade, spin, mix,
//! tint, shade and greyscale.
pub mod angle;
pub mod color;
pub mod convert;
pub mod css;
pub mod hsl;
pub mod hsla;
pub mod laws;
pub mod ratio;
pub mod rgb;
pub mod rgba;

pub use color::Color;
pub use hsl::HSL;
pub use hsla::HSLA;
pub use rgb::RGB;
pub use rgba::RGBA;
