//! Interpretation of XDG settings-portal values.
//!
//! On Linux the preferences come from the desktop portal's `Settings`
//! interface: an initial `Read` per key and a `SettingChanged` signal
//! stream. The D-Bus transport and the variant decoding are the platform
//! collaborator's side; it hands each setting over as a [`PortalSetting`]
//! holding the plainly decoded value (`None` where the value had an
//! unexpected type). Everything the portal values mean is decided here.

use vstd::prelude::*;

use crate::delta::fold_deltas;
use crate::AvailablePreferences;
use crate::ColorScheme;
use crate::Contrast;
use crate::DoubleClickInterval;
use crate::Duration;
use crate::Interest;
use crate::Preference;
use crate::ReducedMotion;
use crate::Srgba;

verus! {

/// One portal setting, classified by namespace and key, with its raw value.
///
/// `Unknown` stands for any `(namespace, key)` pair the library does not
/// monitor; such settings never change a snapshot.
#[derive(Debug, Clone, Copy)]
pub enum PortalSetting {
    /// `org.freedesktop.appearance color-scheme`, as an unsigned integer.
    ColorScheme(Option<u32>),
    /// `org.freedesktop.appearance contrast`, as an unsigned integer.
    Contrast(Option<u32>),
    /// `org.gnome.desktop.interface enable-animations`, as a boolean.
    EnableAnimations(Option<bool>),
    /// `org.freedesktop.appearance accent-color`, quantized from its RGB
    /// doubles with full alpha; `None` also when any component was out of
    /// range.
    AccentColor(Option<Srgba>),
    /// `org.gnome.desktop.peripherals.mouse double-click`, as a signed
    /// integer of milliseconds.
    DoubleClick(Option<i32>),
    /// Any other setting.
    Unknown,
}

/// How a `color-scheme` portal value reads: `1` prefers dark, `2` prefers
/// light, everything else (unknown values included) means no preference.
pub open spec fn spec_color_scheme(value: Option<u32>) -> ColorScheme {
    match value {
        Some(1u32) => ColorScheme::Dark,
        Some(2u32) => ColorScheme::Light,
        _ => ColorScheme::NoPreference,
    }
}

/// Parses the `color-scheme` portal value.
#[verifier::when_used_as_spec(spec_color_scheme)]
pub fn parse_color_scheme(value: Option<u32>) -> (r: ColorScheme)
    ensures
        r == spec_color_scheme(value),
{
    match value {
        Some(1) => ColorScheme::Dark,
        Some(2) => ColorScheme::Light,
        _ => ColorScheme::NoPreference,
    }
}

/// How a `contrast` portal value reads: `1` asks for higher contrast,
/// everything else (unknown values included) means no preference.
pub open spec fn spec_contrast(value: Option<u32>) -> Contrast {
    match value {
        Some(1u32) => Contrast::More,
        _ => Contrast::NoPreference,
    }
}

/// Parses the `contrast` portal value.
#[verifier::when_used_as_spec(spec_contrast)]
pub fn parse_contrast(value: Option<u32>) -> (r: Contrast)
    ensures
        r == spec_contrast(value),
{
    match value {
        Some(1) => Contrast::More,
        _ => Contrast::NoPreference,
    }
}

/// How an `enable-animations` value reads: animations switched off means
/// reduced motion; enabled or undecodable means no preference.
pub open spec fn spec_enable_animations(value: Option<bool>) -> ReducedMotion {
    match value {
        Some(false) => ReducedMotion::Reduce,
        _ => ReducedMotion::NoPreference,
    }
}

/// Parses the `enable-animations` setting.
#[verifier::when_used_as_spec(spec_enable_animations)]
pub fn parse_enable_animations(value: Option<bool>) -> (r: ReducedMotion)
    ensures
        r == spec_enable_animations(value),
{
    match value {
        Some(false) => ReducedMotion::Reduce,
        _ => ReducedMotion::NoPreference,
    }
}

/// How a `double-click` value reads: a non-negative millisecond count is
/// the interval; a negative or undecodable value means none.
pub open spec fn spec_double_click(value: Option<i32>) -> DoubleClickInterval {
    match value {
        Some(ms) => if ms >= 0 {
            DoubleClickInterval(
                Some(Duration { nanos: (ms * (crate::time::NANOS_PER_MILLI as int)) as u128 }),
            )
        } else {
            DoubleClickInterval(None)
        },
        None => DoubleClickInterval(None),
    }
}

/// Parses the `double-click` setting.
#[verifier::when_used_as_spec(spec_double_click)]
pub fn parse_double_click(value: Option<i32>) -> (r: DoubleClickInterval)
    ensures
        r == spec_double_click(value),
{
    match value {
        Some(ms) => if ms >= 0 {
            DoubleClickInterval(Some(Duration::from_millis(ms as u64)))
        } else {
            DoubleClickInterval(None)
        },
        None => DoubleClickInterval(None),
    }
}

/// The delta a portal setting gives rise to, given the caller's interest:
/// `None` for unknown settings and for preferences the caller did not ask
/// to monitor.
pub open spec fn spec_setting_delta(interest: Interest, setting: PortalSetting) -> Option<
    Preference,
> {
    match setting {
        PortalSetting::ColorScheme(v) => if interest.spec_is(
            Interest(crate::interest::COLOR_SCHEME_BIT),
        ) {
            Some(Preference::ColorScheme(spec_color_scheme(v)))
        } else {
            None
        },
        PortalSetting::Contrast(v) => if interest.spec_is(
            Interest(crate::interest::CONTRAST_BIT),
        ) {
            Some(Preference::Contrast(spec_contrast(v)))
        } else {
            None
        },
        PortalSetting::EnableAnimations(v) => if interest.spec_is(
            Interest(crate::interest::REDUCED_MOTION_BIT),
        ) {
            Some(Preference::ReducedMotion(spec_enable_animations(v)))
        } else {
            None
        },
        PortalSetting::AccentColor(v) => if interest.spec_is(
            Interest(crate::interest::ACCENT_COLOR_BIT),
        ) {
            Some(Preference::AccentColor(crate::AccentColor(v)))
        } else {
            None
        },
        PortalSetting::DoubleClick(v) => if interest.spec_is(
            Interest(crate::interest::DOUBLE_CLICK_INTERVAL_BIT),
        ) {
            Some(Preference::DoubleClickInterval(spec_double_click(v)))
        } else {
            None
        },
        PortalSetting::Unknown => None,
    }
}

/// Classifies one portal setting into the delta it means, honoring the
/// interest gate: settings outside the caller's interest, like unknown
/// settings, yield nothing.
pub fn setting_to_delta(interest: Interest, setting: PortalSetting) -> (r: Option<Preference>)
    ensures
        r == spec_setting_delta(interest, setting),
{
    match setting {
        PortalSetting::ColorScheme(v) => if interest.is(Interest::color_scheme()) {
            Some(Preference::ColorScheme(parse_color_scheme(v)))
        } else {
            None
        },
        PortalSetting::Contrast(v) => if interest.is(Interest::contrast()) {
            Some(Preference::Contrast(parse_contrast(v)))
        } else {
            None
        },
        PortalSetting::EnableAnimations(v) => if interest.is(Interest::reduced_motion()) {
            Some(Preference::ReducedMotion(parse_enable_animations(v)))
        } else {
            None
        },
        PortalSetting::AccentColor(v) => if interest.is(Interest::accent_color()) {
            Some(Preference::AccentColor(crate::AccentColor(v)))
        } else {
            None
        },
        PortalSetting::DoubleClick(v) => if interest.is(Interest::double_click_interval()) {
            Some(Preference::DoubleClickInterval(parse_double_click(v)))
        } else {
            None
        },
        PortalSetting::Unknown => None,
    }
}

/// What applying one classified setting to a snapshot yields: the delta it
/// means applied to the snapshot, or the snapshot unchanged when it means
/// none.
pub open spec fn spec_apply_setting(
    interest: Interest,
    p: AvailablePreferences,
    setting: PortalSetting,
) -> AvailablePreferences {
    match spec_setting_delta(interest, setting) {
        Some(d) => d.spec_apply(p),
        None => p,
    }
}

/// Applies one incoming portal setting to the accumulator, exactly when the
/// caller's interest covers it.
pub fn apply_setting(interest: Interest, preferences: &mut AvailablePreferences, setting: PortalSetting)
    ensures
        *final (preferences) == spec_apply_setting(interest, *old(preferences), setting),
{
    if let Some(delta) = setting_to_delta(interest, setting) {
        *preferences = delta.apply(*preferences);
    }
}

/// Builds the initial snapshot from the portal settings that were read at
/// stream start: every setting the interest covers is applied to the
/// default snapshot, in reading order. The result equals folding the
/// settings' deltas over the default snapshot.
pub fn initial_preferences(interest: Interest, settings: &Vec<PortalSetting>) -> (r:
    AvailablePreferences)
    ensures
        r == fold_deltas(
            AvailablePreferences::spec_default(),
            settings_deltas(interest, settings@),
        ),
{
    let mut preferences = AvailablePreferences::default();
    let mut i: usize = 0;
    while i < settings.len()
        invariant
            i <= settings@.len(),
            preferences == fold_deltas(
                AvailablePreferences::spec_default(),
                settings_deltas(interest, settings@.take(i as int)),
            ),
        decreases settings@.len() - i,
    {
        proof {
            lemma_settings_deltas_take(interest, settings@, i as int);
        }
        apply_setting(interest, &mut preferences, settings[i]);
        i = i + 1;
    }
    proof {
        assert(settings@.take(settings@.len() as int) =~= settings@);
    }
    preferences
}

/// The deltas a sequence of classified settings means, in order, with the
/// settings outside the interest dropped.
pub open spec fn settings_deltas(interest: Interest, settings: Seq<PortalSetting>) -> Seq<
    Preference,
>
    decreases settings.len(),
{
    if settings.len() == 0 {
        Seq::empty()
    } else {
        let rest = settings_deltas(interest, settings.drop_last());
        match spec_setting_delta(interest, settings.last()) {
            Some(d) => rest.push(d),
            None => rest,
        }
    }
}

/// Taking one more setting extends the delta sequence by that setting's
/// delta, if it has one.
proof fn lemma_settings_deltas_take(interest: Interest, settings: Seq<PortalSetting>, i: int)
    requires
        0 <= i < settings.len(),
    ensures
        settings_deltas(interest, settings.take(i + 1)) == (match spec_setting_delta(
            interest,
            settings[i],
        ) {
            Some(d) => settings_deltas(interest, settings.take(i)).push(d),
            None => settings_deltas(interest, settings.take(i)),
        }),
        (match spec_setting_delta(interest, settings[i]) {
            Some(d) => fold_deltas(
                AvailablePreferences::spec_default(),
                settings_deltas(interest, settings.take(i)).push(d),
            ) == d.spec_apply(
                fold_deltas(
                    AvailablePreferences::spec_default(),
                    settings_deltas(interest, settings.take(i)),
                ),
            ),
            None => true,
        }),
{
    assert(settings.take(i + 1).drop_last() =~= settings.take(i));
    assert(settings.take(i + 1).last() == settings[i]);
    match spec_setting_delta(interest, settings[i]) {
        Some(d) => {
            let s = settings_deltas(interest, settings.take(i));
            assert(s.push(d).drop_last() =~= s);
            assert(s.push(d).last() == d);
        },
        None => {},
    }
}

} // verus!
