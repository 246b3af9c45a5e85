use mundy::android::AndroidReadings;
use mundy::freedesktop::PortalSetting;
use mundy::macos::{AppearanceMatch, MacosReadings};
use mundy::windows::WindowsReadings;
use mundy::{
    AccentColor, ColorScheme, Contrast, Duration, Interest, Preference, ReducedMotion,
    ReducedTransparency, Srgba,
};

#[test]
fn portal_color_scheme_values() {
    assert_eq!(
        mundy::freedesktop::parse_color_scheme(Some(1)),
        ColorScheme::Dark
    );
    assert_eq!(
        mundy::freedesktop::parse_color_scheme(Some(2)),
        ColorScheme::Light
    );
    assert_eq!(
        mundy::freedesktop::parse_color_scheme(Some(0)),
        ColorScheme::NoPreference
    );
    // Unknown values are treated as no preference.
    assert_eq!(
        mundy::freedesktop::parse_color_scheme(Some(7)),
        ColorScheme::NoPreference
    );
    assert_eq!(
        mundy::freedesktop::parse_color_scheme(None),
        ColorScheme::NoPreference
    );
}

#[test]
fn portal_contrast_values() {
    assert_eq!(mundy::freedesktop::parse_contrast(Some(1)), Contrast::More);
    assert_eq!(
        mundy::freedesktop::parse_contrast(Some(0)),
        Contrast::NoPreference
    );
    assert_eq!(
        mundy::freedesktop::parse_contrast(None),
        Contrast::NoPreference
    );
}

#[test]
fn portal_animations_and_double_click() {
    assert_eq!(
        mundy::freedesktop::parse_enable_animations(Some(false)),
        ReducedMotion::Reduce
    );
    assert_eq!(
        mundy::freedesktop::parse_enable_animations(Some(true)),
        ReducedMotion::NoPreference
    );
    assert_eq!(
        mundy::freedesktop::parse_double_click(Some(400)).0,
        Some(Duration::from_millis(400))
    );
    // A negative millisecond count means no usable interval.
    assert_eq!(mundy::freedesktop::parse_double_click(Some(-1)).0, None);
    assert_eq!(mundy::freedesktop::parse_double_click(None).0, None);
}

#[test]
fn portal_settings_outside_the_interest_are_ignored() {
    let delta = mundy::freedesktop::setting_to_delta(
        Interest::contrast(),
        PortalSetting::ColorScheme(Some(1)),
    );
    assert!(delta.is_none());
    let delta = mundy::freedesktop::setting_to_delta(
        Interest::color_scheme(),
        PortalSetting::ColorScheme(Some(1)),
    );
    assert!(matches!(
        delta,
        Some(Preference::ColorScheme(ColorScheme::Dark))
    ));
    assert!(
        mundy::freedesktop::setting_to_delta(Interest::all(), PortalSetting::Unknown).is_none()
    );
}

#[test]
fn portal_initial_snapshot_folds_the_readings() {
    let settings = vec![
        PortalSetting::ColorScheme(Some(1)),
        PortalSetting::Contrast(Some(1)),
        PortalSetting::DoubleClick(Some(500)),
    ];
    let interest = Interest::color_scheme().union(Interest::double_click_interval());
    let initial = mundy::freedesktop::initial_preferences(interest, &settings);
    assert_eq!(initial.color_scheme, ColorScheme::Dark);
    // Contrast was not asked for, so its reading is ignored.
    assert_eq!(initial.contrast, Contrast::NoPreference);
    assert_eq!(
        initial.double_click_interval.0,
        Some(Duration::from_millis(500))
    );
}

#[test]
fn windows_foreground_lightness_tells_the_scheme() {
    let white = Srgba {
        red: 255,
        green: 255,
        blue: 255,
        alpha: 255,
    };
    let black = Srgba {
        red: 0,
        green: 0,
        blue: 0,
        alpha: 255,
    };
    assert!(mundy::windows::is_color_light(&white));
    assert!(!mundy::windows::is_color_light(&black));
    // A light foreground means the theme itself is dark.
    assert_eq!(
        mundy::windows::read_color_scheme(Some(white)),
        ColorScheme::Dark
    );
    assert_eq!(
        mundy::windows::read_color_scheme(Some(black)),
        ColorScheme::Light
    );
    assert_eq!(
        mundy::windows::read_color_scheme(None),
        ColorScheme::NoPreference
    );
}

#[test]
fn windows_readings_fill_the_snapshot() {
    let readings = WindowsReadings {
        foreground: Some(Srgba {
            red: 255,
            green: 255,
            blue: 255,
            alpha: 255,
        }),
        high_contrast: Some(true),
        accent: Some(Srgba {
            red: 0,
            green: 120,
            blue: 215,
            alpha: 255,
        }),
        animations_enabled: Some(false),
        advanced_effects_enabled: Some(false),
        double_click_millis: Some(500),
    };
    let prefs = mundy::windows::read_preferences(Interest::all(), &readings);
    assert_eq!(prefs.color_scheme, ColorScheme::Dark);
    assert_eq!(prefs.contrast, Contrast::More);
    assert_eq!(prefs.reduced_motion, ReducedMotion::Reduce);
    assert_eq!(prefs.reduced_transparency, ReducedTransparency::Reduce);
    assert_eq!(
        prefs.accent_color,
        AccentColor(Some(Srgba {
            red: 0,
            green: 120,
            blue: 215,
            alpha: 255,
        }))
    );
    assert_eq!(
        prefs.double_click_interval.0,
        Some(Duration::from_millis(500))
    );

    let uninterested = mundy::windows::read_preferences(Interest::default(), &readings);
    assert_eq!(uninterested.color_scheme, ColorScheme::NoPreference);
    assert_eq!(uninterested.accent_color, AccentColor(None));
}

#[test]
fn macos_appearance_match_tells_the_scheme() {
    assert_eq!(
        mundy::macos::to_color_scheme(Some(AppearanceMatch::Dark)),
        ColorScheme::Dark
    );
    assert_eq!(
        mundy::macos::to_color_scheme(Some(AppearanceMatch::Other)),
        ColorScheme::Light
    );
    assert_eq!(
        mundy::macos::to_color_scheme(None),
        ColorScheme::NoPreference
    );
}

#[test]
fn macos_readings_fill_the_snapshot() {
    let readings = MacosReadings {
        appearance: Some(AppearanceMatch::Dark),
        increase_contrast: Some(true),
        reduce_motion: Some(false),
        reduce_transparency: Some(true),
        accent_color: Some(Srgba {
            red: 10,
            green: 20,
            blue: 30,
            alpha: 255,
        }),
        double_click_interval: Some(Duration::from_millis(500)),
    };
    let prefs = mundy::macos::get_preferences(Interest::all(), &readings);
    assert_eq!(prefs.color_scheme, ColorScheme::Dark);
    assert_eq!(prefs.contrast, Contrast::More);
    assert_eq!(prefs.reduced_motion, ReducedMotion::NoPreference);
    assert_eq!(prefs.reduced_transparency, ReducedTransparency::Reduce);
    assert_eq!(
        prefs.double_click_interval.0,
        Some(Duration::from_millis(500))
    );
}

#[test]
fn android_argb_colors_unpack_by_channel() {
    let color = mundy::android::unpack_argb(0x80FF7F00);
    assert_eq!(color.alpha, 0x80);
    assert_eq!(color.red, 0xFF);
    assert_eq!(color.green, 0x7F);
    assert_eq!(color.blue, 0x00);
}

#[test]
fn android_readings_fill_the_snapshot() {
    let readings = AndroidReadings {
        night_mode: Some(true),
        high_contrast: Some(false),
        prefers_reduced_motion: Some(true),
        accent_color_argb: Some(0xFF102030),
    };
    let prefs = mundy::android::get_preferences(Interest::all(), &readings);
    assert_eq!(prefs.color_scheme, ColorScheme::Dark);
    assert_eq!(prefs.contrast, Contrast::NoPreference);
    assert_eq!(prefs.reduced_motion, ReducedMotion::Reduce);
    assert_eq!(
        prefs.accent_color,
        AccentColor(Some(Srgba {
            red: 0x10,
            green: 0x20,
            blue: 0x30,
            alpha: 0xFF,
        }))
    );
    let night_off = AndroidReadings {
        night_mode: Some(false),
        ..readings
    };
    assert_eq!(
        mundy::android::get_preferences(Interest::all(), &night_off).color_scheme,
        ColorScheme::Light
    );
}

#[test]
fn web_media_queries_pick_the_first_match() {
    // prefers-contrast: the keyword queries fire in order; the catch-all
    // maps any future keyword to no preference.
    let queries = vec![
        (false, Contrast::More),
        (true, Contrast::Less),
        (false, Contrast::Custom),
        (false, Contrast::NoPreference),
    ];
    assert_eq!(
        mundy::web::multi_query_value(&queries, Contrast::NoPreference),
        Contrast::Less
    );
    let none_match = vec![
        (false, Contrast::More),
        (false, Contrast::Less),
        (false, Contrast::Custom),
    ];
    assert_eq!(
        mundy::web::multi_query_value(&none_match, Contrast::NoPreference),
        Contrast::NoPreference
    );
    assert_eq!(
        mundy::web::bool_query_value(true, ReducedMotion::Reduce, ReducedMotion::NoPreference),
        ReducedMotion::Reduce
    );
    assert_eq!(
        mundy::web::bool_query_value(false, ReducedMotion::Reduce, ReducedMotion::NoPreference),
        ReducedMotion::NoPreference
    );
}

#[test]
fn interest_superset_and_union() {
    let both = Interest::color_scheme().union(Interest::contrast());
    assert!(both.is(Interest::color_scheme()));
    assert!(both.is(Interest::contrast()));
    assert!(!Interest::color_scheme().is(both));
    assert!(Interest::all().is(both));
    assert!(!both.is_empty());
    assert!(Interest::default().is_empty());
    // The superset test is not an intersection test.
    assert!(!Interest::color_scheme().is(Interest::contrast().union(Interest::color_scheme())));
}
