use css_colors::angle::Angle;
use css_colors::ratio::Ratio;
use css_colors::{Color, HSL, HSLA, RGB, RGBA};

fn near_u8(lhs: u8, rhs: u8) -> bool {
    (lhs as i32 - rhs as i32).abs() <= 1
}

fn near_u16(lhs: u16, rhs: u16) -> bool {
    (lhs as i32 - rhs as i32).abs() <= 1
}

fn near_rgb(lhs: RGB, rhs: RGB) -> bool {
    near_u8(lhs.r.as_u8(), rhs.r.as_u8())
        && near_u8(lhs.g.as_u8(), rhs.g.as_u8())
        && near_u8(lhs.b.as_u8(), rhs.b.as_u8())
}

fn near_rgba(lhs: RGBA, rhs: RGBA) -> bool {
    near_u8(lhs.r.as_u8(), rhs.r.as_u8())
        && near_u8(lhs.g.as_u8(), rhs.g.as_u8())
        && near_u8(lhs.b.as_u8(), rhs.b.as_u8())
        && lhs.a == rhs.a
}

fn near_hsl(lhs: HSL, rhs: HSL) -> bool {
    near_u16(lhs.h.degrees(), rhs.h.degrees())
        && near_u8(lhs.s.as_percentage(), rhs.s.as_percentage())
        && near_u8(lhs.l.as_percentage(), rhs.l.as_percentage())
}

fn near_hsla(lhs: HSLA, rhs: HSLA) -> bool {
    near_u16(lhs.h.degrees(), rhs.h.degrees())
        && near_u8(lhs.s.as_percentage(), rhs.s.as_percentage())
        && near_u8(lhs.l.as_percentage(), rhs.l.as_percentage())
        && lhs.a == rhs.a
}

fn assert_near_rgb(lhs: RGB, rhs: RGB) {
    assert!(near_rgb(lhs, rhs), "lhs: {}, rhs: {}", lhs.to_css(), rhs.to_css());
}

fn assert_near_rgba(lhs: RGBA, rhs: RGBA) {
    assert!(near_rgba(lhs, rhs), "lhs: {}, rhs: {}", lhs.to_css(), rhs.to_css());
}

fn assert_near_hsl(lhs: HSL, rhs: HSL) {
    assert!(near_hsl(lhs, rhs), "lhs: {}, rhs: {}", lhs.to_css(), rhs.to_css());
}

fn assert_near_hsla(lhs: HSLA, rhs: HSLA) {
    assert!(near_hsla(lhs, rhs), "lhs: {}, rhs: {}", lhs.to_css(), rhs.to_css());
}

#[test]
fn can_create_color_structs() {
    assert_eq!(
        RGB::new(5, 10, 15),
        RGB {
            r: Ratio::from_u8(5),
            g: Ratio::from_u8(10),
            b: Ratio::from_u8(15),
        }
    );
    assert_eq!(
        RGBA::new(5, 10, 15, 255),
        RGBA {
            r: Ratio::from_u8(5),
            g: Ratio::from_u8(10),
            b: Ratio::from_u8(15),
            a: Ratio::from_u8(255),
        }
    );
    assert_eq!(
        HSL::new(6, 93, 71),
        HSL {
            h: Angle::new(6),
            s: Ratio::from_percentage(93),
            l: Ratio::from_percentage(71)
        }
    );
    assert_eq!(
        HSLA::new(6, 93, 71, 255),
        HSLA {
            h: Angle::new(6),
            s: Ratio::from_percentage(93),
            l: Ratio::from_percentage(71),
            a: Ratio::from_u8(255),
        }
    );
}

#[test]
fn can_saturate() {
    assert_eq!(HSL::new(9, 35, 50).saturate(20), HSL::new(9, 55, 50));
    assert_eq!(
        HSLA::new(9, 35, 50, 255).saturate(20),
        HSLA::new(9, 55, 50, 255)
    );

    assert_near_rgb(RGB::new(172, 96, 83).saturate(20), RGB::new(197, 78, 57));
    assert_near_rgba(
        RGBA::new(172, 96, 83, 255).saturate(20),
        RGBA::new(197, 78, 57, 255),
    );
}

#[test]
fn can_desaturate() {
    assert_eq!(HSL::new(9, 55, 50).desaturate(20), HSL::new(9, 35, 50));
    assert_eq!(
        HSLA::new(9, 55, 50, 255).desaturate(20),
        HSLA::new(9, 35, 50, 255)
    );
    assert_near_rgb(RGB::new(197, 78, 57).desaturate(20), RGB::new(172, 96, 83));
    assert_near_rgba(
        RGBA::new(197, 78, 57, 255).desaturate(20),
        RGBA::new(172, 96, 83, 255),
    );
}

#[test]
fn can_lighten() {
    assert_eq!(HSL::new(9, 35, 50).lighten(20), HSL::new(9, 35, 70));
    assert_eq!(
        HSLA::new(9, 35, 50, 255).lighten(20),
        HSLA::new(9, 35, 70, 255)
    );
    assert_near_rgb(RGB::new(172, 96, 83).lighten(20), RGB::new(205, 160, 152));
    assert_near_rgba(
        RGBA::new(172, 96, 83, 255).lighten(20),
        RGBA::new(205, 160, 152, 255),
    );
}

#[test]
fn can_darken() {
    assert_eq!(HSL::new(9, 35, 70).darken(20), HSL::new(9, 35, 50));
    assert_eq!(
        HSLA::new(9, 35, 70, 255).darken(20),
        HSLA::new(9, 35, 50, 255)
    );
    assert_near_rgb(RGB::new(205, 160, 152).darken(20), RGB::new(172, 96, 83));
    assert_near_rgba(
        RGBA::new(205, 160, 152, 255).darken(20),
        RGBA::new(172, 96, 83, 255),
    );
}

#[test]
fn can_fadein() {
    assert_eq!(HSL::new(9, 35, 50).fadein(20), HSL::new(9, 35, 50));
    assert_eq!(
        HSLA::new(9, 35, 50, 128).fadein(20),
        HSLA::new(9, 35, 50, 148)
    );
    assert_eq!(RGB::new(172, 96, 83).fadein(20), RGB::new(172, 96, 83));
    assert_eq!(
        RGBA::new(172, 96, 83, 128).fadein(20),
        RGBA::new(172, 96, 83, 148)
    );
}

#[test]
fn can_fadeout() {
    assert_eq!(HSL::new(9, 35, 50).fadeout(20), HSL::new(9, 35, 50));
    assert_eq!(RGB::new(172, 96, 83).fadeout(20), RGB::new(172, 96, 83));
    assert_eq!(
        HSLA::new(9, 35, 50, 148).fadeout(20),
        HSLA::new(9, 35, 50, 128)
    );
    assert_eq!(
        RGBA::new(172, 96, 83, 148).fadeout(20),
        RGBA::new(172, 96, 83, 128)
    );
}

#[test]
fn can_fade() {
    let faded_color = RGBA::new(23, 98, 119, 50);

    assert_eq!(RGB::new(23, 98, 119).fade(50), faded_color);
    assert_eq!(RGBA::new(23, 98, 119, 255).fade(50), faded_color);
    assert_eq!(HSL::new(193, 67, 28).fade(50), faded_color.to_hsla());
    assert_eq!(HSLA::new(193, 67, 28, 255).fade(50), faded_color.to_hsla());
}

#[test]
fn can_spin_forward() {
    assert_near_rgb(RGB::new(75, 207, 23).spin(100), RGB::new(23, 136, 207));
    assert_near_rgb(RGBA::new(75, 207, 23, 255).spin(100), RGB::new(23, 136, 207));
    assert_near_rgb(HSL::new(10, 90, 50).spin(30), RGB::new(242, 166, 13));
    assert_near_rgb(HSLA::new(10, 90, 50, 255).spin(30), RGB::new(242, 166, 13));
}

#[test]
fn can_spin_backwards() {
    assert_near_rgb(RGB::new(75, 207, 23).spin(-100), RGB::new(207, 32, 23));
    assert_near_rgb(RGBA::new(75, 207, 23, 255).spin(-100), RGB::new(207, 32, 23));
    assert_near_rgb(HSL::new(10, 90, 50).spin(-30), RGB::new(242, 13, 89));
    assert_near_rgb(HSLA::new(10, 90, 50, 255).spin(-30), RGB::new(242, 13, 89));
}

#[test]
fn can_mix() {
    let red = RGBA::new(100, 0, 0, 255);
    let green = RGBA::new(0, 100, 0, 255);
    let brown = RGBA::new(50, 50, 0, 255);

    assert_near_rgba(red.mix(green, 50), brown);
}

#[test]
fn can_mix_single_color() {
    let red = RGBA::new(100, 0, 0, 255);
    let green = RGBA::new(0, 100, 0, 127);

    assert_near_rgba(red.mix(green, 100), red);
    assert_near_rgba(red.mix(green, 0), green);
    assert_near_rgba(green.mix(red, 100), green);
    assert_near_rgba(green.mix(red, 0), red);
}

#[test]
fn can_mix_with_alpha() {
    let red = RGBA::new(100, 0, 0, 255);
    let green = RGBA::new(0, 100, 0, 127);
    let brown = RGBA::new(75, 25, 0, 191);

    assert_near_rgba(red.mix(green, 50), brown);
    assert_near_rgba(green.mix(red, 50), brown);
}

#[test]
fn can_tint() {
    assert_eq!(
        RGBA::new(0, 0, 255, 128).tint(50),
        RGBA::new(191, 191, 255, 191)
    );
    assert_near_rgba(RGB::new(0, 0, 255).tint(50), RGBA::new(128, 128, 255, 255));
    assert_near_rgba(HSL::new(6, 93, 71).tint(50), RGBA::new(253, 191, 184, 255));
    assert_near_rgba(
        HSLA::new(6, 93, 71, 128).tint(50),
        RGBA::new(254, 223, 219, 191),
    );
}

#[test]
fn can_shade() {
    assert_eq!(
        RGBA::new(0, 0, 255, 128).shade(50),
        RGBA::new(0, 0, 64, 191)
    );

    assert_near_rgba(RGB::new(0, 0, 255).shade(50), RGBA::new(0, 0, 128, 255));

    assert_near_rgba(HSL::new(6, 93, 71).shade(50), RGBA::new(125, 63, 56, 255));

    assert_near_rgba(
        HSLA::new(6, 93, 71, 128).shade(50),
        RGBA::new(63, 32, 28, 191),
    );
}

#[test]
fn can_greyscale() {
    assert_eq!(RGB::new(128, 242, 13).greyscale(), RGB::new(128, 128, 128));
    assert_eq!(
        RGBA::new(128, 242, 13, 255).greyscale(),
        RGBA::new(128, 128, 128, 255)
    );
    assert_eq!(HSL::new(90, 90, 50).greyscale(), HSL::new(90, 0, 50));
    assert_eq!(
        HSLA::new(90, 90, 50, 255).greyscale(),
        HSLA::new(90, 0, 50, 255)
    );
}

#[test]
fn can_clone() {
    let rgb_color = RGB::new(5, 10, 15);
    let rgba_color = RGBA::new(5, 10, 15, 255);
    let hsl_color = HSL::new(6, 93, 71);
    let hsla_color = HSLA::new(6, 93, 71, 255);

    assert_eq!(rgb_color, rgb_color.clone());
    assert_eq!(rgba_color, rgba_color.clone());
    assert_eq!(hsl_color, hsl_color.clone());
    assert_eq!(hsla_color, hsla_color.clone());
}

#[test]
fn can_copy() {
    let rgb_color = RGB::new(172, 95, 82);
    let rgba_color = RGBA::new(172, 95, 82, 255);
    let hsl_color = HSL::new(9, 35, 50);
    let hsla_color = HSLA::new(9, 35, 50, 255);

    let copied_rgb_color = rgb_color;
    let copied_rgba_color = rgba_color;
    let copied_hsl_color = hsl_color;
    let copied_hsla_color = hsla_color;

    assert_eq!(rgb_color, copied_rgb_color);
    assert_eq!(rgba_color, copied_rgba_color);
    assert_eq!(hsl_color, copied_hsl_color);
    assert_eq!(hsla_color, copied_hsla_color);
}

#[test]
fn can_debug() {
    let rgb_value = format!("{:?}", RGB::new(5, 10, 15));
    let rgba_value = format!("{:?}", RGBA::new(5, 10, 15, 255));
    let hsl_value = format!("{:?}", HSL::new(6, 93, 71));
    let hsla_value = format!("{:?}", HSLA::new(6, 93, 71, 255));

    assert_eq!(rgb_value, "RGB { r: Ratio(5), g: Ratio(10), b: Ratio(15) }");
    assert_eq!(
        rgba_value,
        "RGBA { r: Ratio(5), g: Ratio(10), b: Ratio(15), a: Ratio(255) }"
    );
    assert_eq!(
        hsl_value,
        "HSL { h: Angle { degrees: 6 }, s: Ratio(237), l: Ratio(181) }"
    );
    assert_eq!(
        hsla_value,
        "HSLA { h: Angle { degrees: 6 }, s: Ratio(237), l: Ratio(181), a: Ratio(255) }"
    );
}

#[test]
fn can_convert_to_css() {
    let rgb = RGB::new(5, 10, 255);
    let rgba = RGBA::new(5, 10, 255, 255);
    let hsl = HSL::new(6, 93, 71);
    let hsla = HSLA::new(6, 93, 71, 255);

    assert_eq!(rgb.to_css(), "rgb(5, 10, 255)");
    assert_eq!(rgba.to_css(), "rgba(5, 10, 255, 1.00)");
    assert_eq!(hsl.to_css(), "hsl(6, 93%, 71%)");
    assert_eq!(hsla.to_css(), "hsla(6, 93%, 71%, 1.00)");
}

#[test]
fn can_print_in_css() {
    let printed_rgb = format!("{}", RGB::new(5, 10, 255).to_css());
    let printed_rgba = format!("{}", RGBA::new(5, 10, 255, 255).to_css());
    let printed_hsl = format!("{}", HSL::new(6, 93, 71).to_css());
    let printed_hsla = format!("{}", HSLA::new(6, 93, 71, 255).to_css());

    assert_eq!(printed_rgb, "rgb(5, 10, 255)");
    assert_eq!(printed_rgba, "rgba(5, 10, 255, 1.00)");
    assert_eq!(printed_hsl, "hsl(6, 93%, 71%)");
    assert_eq!(printed_hsla, "hsla(6, 93%, 71%, 1.00)");
}

#[test]
fn can_be_displayed() {
    let rgb = RGB::new(5, 10, 255);
    let rgba = RGBA::new(5, 10, 255, 190);
    let hsl = HSL::new(6, 93, 71);
    let hsla = HSLA::new(6, 93, 71, 255);

    assert_eq!("rgb(5, 10, 255)".to_owned(), format!("{}", rgb.to_css()));
    assert_eq!("rgba(5, 10, 255, 0.75)".to_owned(), format!("{}", rgba.to_css()));
    assert_eq!("hsl(6, 93%, 71%)".to_owned(), format!("{}", hsl.to_css()));
    assert_eq!("hsla(6, 93%, 71%, 1.00)".to_owned(), format!("{}", hsla.to_css()));
}

#[test]
fn can_be_stringified() {
    let rgb = RGB::new(5, 10, 255);
    let rgba = RGBA::new(5, 10, 255, 128);
    let hsl = HSL::new(6, 93, 71);
    let hsla = HSLA::new(6, 93, 71, 128);

    assert_eq!(String::from("rgb(5, 10, 255)"), rgb.to_css());
    assert_eq!(String::from("rgba(5, 10, 255, 0.50)"), rgba.to_css());
    assert_eq!(String::from("hsl(6, 93%, 71%)"), hsl.to_css());
    assert_eq!(String::from("hsla(6, 93%, 71%, 0.50)"), hsla.to_css());
}
