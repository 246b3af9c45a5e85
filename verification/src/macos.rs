//! Interpretation of the macOS readings.
//!
//! On macOS the appearance comes from the application object, the
//! accessibility switches from the shared workspace, the accent color from
//! the control accent color, and the double-click interval from the event
//! system. The driver performs those calls — on the main thread, as the
//! platform demands — and hands the plain results over as a
//! [`MacosReadings`]; what they mean is decided here.

use vstd::prelude::*;

use crate::delta::AccessibilityPreferences;
use crate::AccentColor;
use crate::AvailablePreferences;
use crate::ColorScheme;
use crate::Contrast;
use crate::DoubleClickInterval;
use crate::Duration;
use crate::Interest;
use crate::ReducedMotion;
use crate::ReducedTransparency;
use crate::Srgba;

verus! {

/// The outcome of matching the effective appearance against the aqua and
/// dark-aqua appearance names.
#[derive(Debug, Clone, Copy, PartialEq, Eq, Structural)]
pub enum AppearanceMatch {
    /// The best match was the dark appearance.
    Dark,
    /// The best match was some other appearance.
    Other,
}

/// The raw readings one pass over the macOS settings produces. `None`
/// stands for a value that could not be read; such readings leave the
/// field at its default.
#[derive(Debug, Clone, Copy)]
pub struct MacosReadings {
    /// The best appearance match, `None` when no match was found.
    pub appearance: Option<AppearanceMatch>,
    /// Whether the user asked for increased contrast.
    pub increase_contrast: Option<bool>,
    /// Whether the user asked for reduced motion.
    pub reduce_motion: Option<bool>,
    /// Whether the user asked for reduced transparency.
    pub reduce_transparency: Option<bool>,
    /// The control accent color, converted to sRGB.
    pub accent_color: Option<Srgba>,
    /// The double-click interval.
    pub double_click_interval: Option<Duration>,
}

/// How an appearance match reads: the dark appearance means dark mode, any
/// other match means light mode, no match means no preference.
pub open spec fn spec_color_scheme(appearance: Option<AppearanceMatch>) -> ColorScheme {
    match appearance {
        Some(AppearanceMatch::Dark) => ColorScheme::Dark,
        Some(AppearanceMatch::Other) => ColorScheme::Light,
        None => ColorScheme::NoPreference,
    }
}

/// Reads the color scheme off the appearance match.
#[verifier::when_used_as_spec(spec_color_scheme)]
pub fn to_color_scheme(appearance: Option<AppearanceMatch>) -> (r: ColorScheme)
    ensures
        r == spec_color_scheme(appearance),
{
    match appearance {
        Some(AppearanceMatch::Dark) => ColorScheme::Dark,
        Some(AppearanceMatch::Other) => ColorScheme::Light,
        None => ColorScheme::NoPreference,
    }
}

/// The accessibility delta one workspace notification means: the three
/// switches re-read together, absent readings counting as no preference.
pub open spec fn spec_accessibility(readings: MacosReadings) -> AccessibilityPreferences {
    AccessibilityPreferences {
        contrast: match readings.increase_contrast {
            Some(true) => Contrast::More,
            _ => Contrast::NoPreference,
        },
        reduced_motion: match readings.reduce_motion {
            Some(true) => ReducedMotion::Reduce,
            _ => ReducedMotion::NoPreference,
        },
        reduced_transparency: match readings.reduce_transparency {
            Some(true) => ReducedTransparency::Reduce,
            _ => ReducedTransparency::NoPreference,
        },
    }
}

/// Builds the grouped accessibility value from the three switches.
pub fn accessibility_preferences(readings: &MacosReadings) -> (r: AccessibilityPreferences)
    ensures
        r == spec_accessibility(*readings),
{
    AccessibilityPreferences {
        contrast: match readings.increase_contrast {
            Some(true) => Contrast::More,
            _ => Contrast::NoPreference,
        },
        reduced_motion: match readings.reduce_motion {
            Some(true) => ReducedMotion::Reduce,
            _ => ReducedMotion::NoPreference,
        },
        reduced_transparency: match readings.reduce_transparency {
            Some(true) => ReducedTransparency::Reduce,
            _ => ReducedTransparency::NoPreference,
        },
    }
}

/// The whole snapshot one settings pass means, honoring the interest gate.
pub open spec fn spec_preferences(interest: Interest, readings: MacosReadings) -> AvailablePreferences {
    let accessibility = spec_accessibility(readings);
    AvailablePreferences {
        color_scheme: if interest.spec_is(Interest(crate::interest::COLOR_SCHEME_BIT)) {
            spec_color_scheme(readings.appearance)
        } else {
            ColorScheme::NoPreference
        },
        contrast: if interest.spec_is(Interest(crate::interest::CONTRAST_BIT)) {
            accessibility.contrast
        } else {
            Contrast::NoPreference
        },
        reduced_motion: if interest.spec_is(Interest(crate::interest::REDUCED_MOTION_BIT)) {
            accessibility.reduced_motion
        } else {
            ReducedMotion::NoPreference
        },
        reduced_transparency: if interest.spec_is(
            Interest(crate::interest::REDUCED_TRANSPARENCY_BIT),
        ) {
            accessibility.reduced_transparency
        } else {
            ReducedTransparency::NoPreference
        },
        accent_color: if interest.spec_is(Interest(crate::interest::ACCENT_COLOR_BIT)) {
            AccentColor(readings.accent_color)
        } else {
            AccentColor(None)
        },
        double_click_interval: if interest.spec_is(
            Interest(crate::interest::DOUBLE_CLICK_INTERVAL_BIT),
        ) {
            DoubleClickInterval(readings.double_click_interval)
        } else {
            DoubleClickInterval(None)
        },
    }
}

/// Builds the full snapshot from one pass over the macOS settings.
pub fn get_preferences(interest: Interest, readings: &MacosReadings) -> (r: AvailablePreferences)
    ensures
        r == spec_preferences(interest, *readings),
{
    let accessibility = accessibility_preferences(readings);
    let mut preferences = AvailablePreferences::default();
    if interest.is(Interest::color_scheme()) {
        preferences.color_scheme = to_color_scheme(readings.appearance);
    }
    if interest.is(Interest::contrast()) {
        preferences.contrast = accessibility.contrast;
    }
    if interest.is(Interest::reduced_motion()) {
        preferences.reduced_motion = accessibility.reduced_motion;
    }
    if interest.is(Interest::reduced_transparency()) {
        preferences.reduced_transparency = accessibility.reduced_transparency;
    }
    if interest.is(Interest::accent_color()) {
        preferences.accent_color = AccentColor(readings.accent_color);
    }
    if interest.is(Interest::double_click_interval()) {
        preferences.double_click_interval = DoubleClickInterval(readings.double_click_interval);
    }
    preferences
}

} // verus!
