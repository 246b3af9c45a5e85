use mundy::css_color::parse_css_color;
use mundy::Srgba;

fn color(red: u8, green: u8, blue: u8, alpha: u8) -> Srgba {
    Srgba {
        red,
        green,
        blue,
        alpha,
    }
}

#[test]
fn parses_the_rgb_form_with_implicit_alpha() {
    assert_eq!(parse_css_color(b"rgb(255, 0, 0)"), Some(color(255, 0, 0, 255)));
    assert_eq!(parse_css_color(b"rgb(0, 120, 215)"), Some(color(0, 120, 215, 255)));
    assert_eq!(parse_css_color(b"rgb(0, 0, 0)"), Some(color(0, 0, 0, 255)));
}

#[test]
fn parses_the_rgba_form_with_fractional_alpha() {
    assert_eq!(parse_css_color(b"rgba(0, 120, 215, 1)"), Some(color(0, 120, 215, 255)));
    assert_eq!(parse_css_color(b"rgba(0, 0, 0, 0)"), Some(color(0, 0, 0, 0)));
    // 0.5 * 255 = 127.5 rounds half away from zero.
    assert_eq!(parse_css_color(b"rgba(1, 2, 3, 0.5)"), Some(color(1, 2, 3, 128)));
    // 0.25 * 255 = 63.75 rounds to 64.
    assert_eq!(parse_css_color(b"rgba(1, 2, 3, 0.25)"), Some(color(1, 2, 3, 64)));
    // A fraction may start with the decimal point.
    assert_eq!(parse_css_color(b"rgba(1, 2, 3, .5)"), Some(color(1, 2, 3, 128)));
}

#[test]
fn fractional_components_round_to_the_nearest_channel() {
    assert_eq!(parse_css_color(b"rgb(128.5, 0.4, 0.6)"), Some(color(129, 0, 1, 255)));
    // A trailing decimal point is still a number.
    assert_eq!(parse_css_color(b"rgb(12., 0, 0)"), Some(color(12, 0, 0, 255)));
}

#[test]
fn out_of_scale_components_are_clamped() {
    assert_eq!(parse_css_color(b"rgb(300, 0, 0)"), Some(color(255, 0, 0, 255)));
    assert_eq!(parse_css_color(b"rgba(0, 0, 0, 3.7)"), Some(color(0, 0, 0, 255)));
}

#[test]
fn malformed_values_parse_to_nothing() {
    // Only the legacy comma-space serialization is accepted.
    assert_eq!(parse_css_color(b"rgb(255,0,0)"), None);
    assert_eq!(parse_css_color(b"hsl(120, 50%, 50%)"), None);
    assert_eq!(parse_css_color(b"rgb(1, 2)"), None);
    assert_eq!(parse_css_color(b"rgba(1, 2, 3)"), None);
    assert_eq!(parse_css_color(b"rgb(1, 2, 3, 4)"), None);
    assert_eq!(parse_css_color(b"rgb(1, 2, x)"), None);
    assert_eq!(parse_css_color(b"rgb(1, 2, .)"), None);
    assert_eq!(parse_css_color(b"rgb(1, 2, 3"), None);
    assert_eq!(parse_css_color(b""), None);
    assert_eq!(parse_css_color(b"rgb(-1, 0, 0)"), None);
    assert_eq!(parse_css_color(b"rgb(1.2.3, 0, 0)"), None);
}
