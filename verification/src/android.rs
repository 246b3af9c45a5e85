//! Interpretation of the Android readings.
//!
//! On Android the driver reaches the platform through the JVM: night mode,
//! high contrast, the animation scales and the accent color are read by
//! small Java calls. The driver hands the plain results over as an
//! [`AndroidReadings`] — `None` where a call failed — and what they mean is
//! decided here. The accent color arrives packed as an `#AARRGGBB` color
//! integer, the encoding the platform defines for color values.

use vstd::prelude::*;

use crate::AccentColor;
use crate::AvailablePreferences;
use crate::ColorScheme;
use crate::Contrast;
use crate::Interest;
use crate::ReducedMotion;
use crate::Srgba;

verus! {

/// The raw readings one pass over the Android settings produces. `None`
/// stands for a failed call; such readings leave the field at its default.
#[derive(Debug, Clone, Copy)]
pub struct AndroidReadings {
    /// Whether night mode is active.
    pub night_mode: Option<bool>,
    /// Whether high text contrast is enabled.
    pub high_contrast: Option<bool>,
    /// Whether the user prefers reduced motion.
    pub prefers_reduced_motion: Option<bool>,
    /// The accent color, packed as `#AARRGGBB`.
    pub accent_color_argb: Option<u32>,
}

/// The channels of a packed `#AARRGGBB` color integer.
pub open spec fn spec_unpack_argb(color: u32) -> Srgba {
    Srgba {
        red: ((color >> 16) & 0xff) as u8,
        green: ((color >> 8) & 0xff) as u8,
        blue: (color & 0xff) as u8,
        alpha: ((color >> 24) & 0xff) as u8,
    }
}

/// Unpacks a `#AARRGGBB` color integer into its channels.
#[verifier::when_used_as_spec(spec_unpack_argb)]
pub fn unpack_argb(color: u32) -> (r: Srgba)
    ensures
        r == spec_unpack_argb(color),
{
    let alpha = ((color >> 24) & 0xff) as u8;
    let red = ((color >> 16) & 0xff) as u8;
    let green = ((color >> 8) & 0xff) as u8;
    let blue = (color & 0xff) as u8;
    Srgba { red, green, blue, alpha }
}

/// The whole snapshot one readings pass means, honoring the interest gate.
/// Android reports no reduced-transparency or double-click preference, so
/// those fields always stay default.
pub open spec fn spec_preferences(interest: Interest, readings: AndroidReadings) -> AvailablePreferences {
    AvailablePreferences {
        color_scheme: if interest.spec_is(Interest(crate::interest::COLOR_SCHEME_BIT)) {
            match readings.night_mode {
                Some(true) => ColorScheme::Dark,
                Some(false) => ColorScheme::Light,
                None => ColorScheme::NoPreference,
            }
        } else {
            ColorScheme::NoPreference
        },
        contrast: if interest.spec_is(Interest(crate::interest::CONTRAST_BIT)) {
            match readings.high_contrast {
                Some(true) => Contrast::More,
                _ => Contrast::NoPreference,
            }
        } else {
            Contrast::NoPreference
        },
        reduced_motion: if interest.spec_is(Interest(crate::interest::REDUCED_MOTION_BIT)) {
            match readings.prefers_reduced_motion {
                Some(true) => ReducedMotion::Reduce,
                _ => ReducedMotion::NoPreference,
            }
        } else {
            ReducedMotion::NoPreference
        },
        reduced_transparency: crate::ReducedTransparency::NoPreference,
        accent_color: if interest.spec_is(Interest(crate::interest::ACCENT_COLOR_BIT)) {
            match readings.accent_color_argb {
                Some(argb) => AccentColor(Some(spec_unpack_argb(argb))),
                None => AccentColor(None),
            }
        } else {
            AccentColor(None)
        },
        double_click_interval: crate::DoubleClickInterval(None),
    }
}

/// Builds the full snapshot from one pass over the Android settings.
pub fn get_preferences(interest: Interest, readings: &AndroidReadings) -> (r: AvailablePreferences)
    ensures
        r == spec_preferences(interest, *readings),
{
    let mut preferences = AvailablePreferences::default();
    if interest.is(Interest::color_scheme()) {
        preferences.color_scheme = match readings.night_mode {
            Some(true) => ColorScheme::Dark,
            Some(false) => ColorScheme::Light,
            None => ColorScheme::NoPreference,
        };
    }
    if interest.is(Interest::contrast()) {
        preferences.contrast = match readings.high_contrast {
            Some(true) => Contrast::More,
            _ => Contrast::NoPreference,
        };
    }
    if interest.is(Interest::reduced_motion()) {
        preferences.reduced_motion = match readings.prefers_reduced_motion {
            Some(true) => ReducedMotion::Reduce,
            _ => ReducedMotion::NoPreference,
        };
    }
    if interest.is(Interest::accent_color()) {
        preferences.accent_color = match readings.accent_color_argb {
            Some(argb) => AccentColor(Some(unpack_argb(argb))),
            None => AccentColor(None),
        };
    }
    preferences
}

} // verus!
