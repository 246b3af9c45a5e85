//! Interpretation of the Windows settings readings.
//!
//! On Windows the driver re-reads every setting through `UISettings`,
//! `AccessibilitySettings` and `GetDoubleClickTime` whenever a
//! `WM_SETTINGCHANGE` message arrives on the hook thread. It hands the raw
//! readings over as a [`WindowsReadings`] value — `None` where the WinRT
//! call failed or the settings object was unavailable — and the meaning of
//! every reading is decided here.

use vstd::prelude::*;

use crate::AccentColor;
use crate::AvailablePreferences;
use crate::ColorScheme;
use crate::Contrast;
use crate::DoubleClickInterval;
use crate::Duration;
use crate::Interest;
use crate::ReducedMotion;
use crate::ReducedTransparency;
use crate::Srgba;

verus! {

/// The raw readings one settings pass produces. `None` stands for a failed
/// call or an unavailable settings object; such readings leave the field at
/// its default.
#[derive(Debug, Clone, Copy)]
pub struct WindowsReadings {
    /// The foreground color, whose lightness tells the color scheme.
    pub foreground: Option<Srgba>,
    /// Whether high contrast is switched on.
    pub high_contrast: Option<bool>,
    /// The system accent color.
    pub accent: Option<Srgba>,
    /// Whether animations are enabled.
    pub animations_enabled: Option<bool>,
    /// Whether advanced visual effects (transparency) are enabled.
    pub advanced_effects_enabled: Option<bool>,
    /// The double-click time in milliseconds.
    pub double_click_millis: Option<u32>,
}

/// The lightness test the platform documentation recommends: a color
/// counts as light when `5 G + 2 R + B` exceeds `8 * 128`.
pub open spec fn spec_is_color_light(color: Srgba) -> bool {
    5 * color.green + 2 * color.red + color.blue > 8 * 128
}

/// Tests whether a color is perceived as light.
pub fn is_color_light(color: &Srgba) -> (r: bool)
    ensures
        r == spec_is_color_light(*color),
{
    ((5 * (color.green as u16)) + (2 * (color.red as u16)) + (color.blue as u16)) > (8 * 128)
}

/// How the foreground color reads: a light foreground means the theme is
/// dark, a dark foreground means it is light, no reading means no
/// preference.
pub open spec fn spec_color_scheme(foreground: Option<Srgba>) -> ColorScheme {
    match foreground {
        Some(c) => if spec_is_color_light(c) {
            ColorScheme::Dark
        } else {
            ColorScheme::Light
        },
        None => ColorScheme::NoPreference,
    }
}

/// Reads the color scheme off the foreground color.
#[verifier::when_used_as_spec(spec_color_scheme)]
pub fn read_color_scheme(foreground: Option<Srgba>) -> (r: ColorScheme)
    ensures
        r == spec_color_scheme(foreground),
{
    match foreground {
        Some(c) => if is_color_light(&c) {
            ColorScheme::Dark
        } else {
            ColorScheme::Light
        },
        None => ColorScheme::NoPreference,
    }
}

/// The whole snapshot one settings pass means, honoring the interest gate:
/// every field the interest covers holds its reading's meaning, every other
/// field stays default.
pub open spec fn spec_preferences(interest: Interest, readings: WindowsReadings) -> AvailablePreferences {
    AvailablePreferences {
        color_scheme: if interest.spec_is(Interest(crate::interest::COLOR_SCHEME_BIT)) {
            spec_color_scheme(readings.foreground)
        } else {
            ColorScheme::NoPreference
        },
        contrast: if interest.spec_is(Interest(crate::interest::CONTRAST_BIT)) {
            match readings.high_contrast {
                Some(true) => Contrast::More,
                _ => Contrast::NoPreference,
            }
        } else {
            Contrast::NoPreference
        },
        reduced_motion: if interest.spec_is(Interest(crate::interest::REDUCED_MOTION_BIT)) {
            match readings.animations_enabled {
                Some(false) => ReducedMotion::Reduce,
                _ => ReducedMotion::NoPreference,
            }
        } else {
            ReducedMotion::NoPreference
        },
        reduced_transparency: if interest.spec_is(
            Interest(crate::interest::REDUCED_TRANSPARENCY_BIT),
        ) {
            match readings.advanced_effects_enabled {
                Some(false) => ReducedTransparency::Reduce,
                _ => ReducedTransparency::NoPreference,
            }
        } else {
            ReducedTransparency::NoPreference
        },
        accent_color: if interest.spec_is(Interest(crate::interest::ACCENT_COLOR_BIT)) {
            AccentColor(readings.accent)
        } else {
            AccentColor(None)
        },
        double_click_interval: if interest.spec_is(
            Interest(crate::interest::DOUBLE_CLICK_INTERVAL_BIT),
        ) {
            match readings.double_click_millis {
                Some(ms) => DoubleClickInterval(
                    Some(Duration { nanos: (ms * (crate::time::NANOS_PER_MILLI as int)) as u128 }),
                ),
                None => DoubleClickInterval(None),
            }
        } else {
            DoubleClickInterval(None)
        },
    }
}

/// Builds the full snapshot from one pass over the Windows settings.
pub fn read_preferences(interest: Interest, readings: &WindowsReadings) -> (r: AvailablePreferences)
    ensures
        r == spec_preferences(interest, *readings),
{
    let mut preferences = AvailablePreferences::default();
    if interest.is(Interest::color_scheme()) {
        preferences.color_scheme = read_color_scheme(readings.foreground);
    }
    if interest.is(Interest::contrast()) {
        preferences.contrast = match readings.high_contrast {
            Some(true) => Contrast::More,
            _ => Contrast::NoPreference,
        };
    }
    if interest.is(Interest::reduced_motion()) {
        preferences.reduced_motion = match readings.animations_enabled {
            Some(false) => ReducedMotion::Reduce,
            _ => ReducedMotion::NoPreference,
        };
    }
    if interest.is(Interest::reduced_transparency()) {
        preferences.reduced_transparency = match readings.advanced_effects_enabled {
            Some(false) => ReducedTransparency::Reduce,
            _ => ReducedTransparency::NoPreference,
        };
    }
    if interest.is(Interest::accent_color()) {
        preferences.accent_color = AccentColor(readings.accent);
    }
    if interest.is(Interest::double_click_interval()) {
        preferences.double_click_interval = match readings.double_click_millis {
            Some(ms) => DoubleClickInterval(Some(Duration::from_millis(ms as u64))),
            None => DoubleClickInterval(None),
        };
    }
    preferences
}

} // verus!
