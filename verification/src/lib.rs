//! Reads system-level accessibility and UI preferences (color scheme,
//! contrast, reduced motion, reduced transparency, accent color, double-click
//! interval) and unifies the per-platform notification mechanisms into one
//! deduplicated sequence of preference snapshots.
//!
//! The verified core models every platform source as a push source of
//! single-field deltas: the stream machinery folds deltas into snapshots,
//! suppresses consecutive duplicates, and guarantees an initial value.

use vstd::prelude::*;

pub mod android;
pub mod callback;
pub mod callback_utils;
pub mod color;
pub mod css_color;
pub mod dedup;
pub mod delta;
pub mod either;
pub mod freedesktop;
pub mod hook;
pub mod interest;
pub mod macos;
pub mod stream;
pub mod time;
pub mod web;
pub mod windows;

pub use callback::Subscription;
pub use color::Srgba;
pub use delta::Preference;
pub use either::Either;
pub use either::Left;
pub use either::Right;
pub use interest::Interest;
pub use stream::PreferencesStream;
pub use time::Duration;

verus! {

/// The user's preference for either light or dark mode.
#[derive(Debug, Clone, Copy, PartialEq, Eq, Structural)]
pub enum ColorScheme {
    /// The user has not expressed an active preference, the platform does not
    /// support a color scheme preference, or retrieval failed.
    NoPreference,
    /// The user prefers an interface with a light appearance.
    Light,
    /// The user prefers an interface with a dark appearance.
    Dark,
}

impl ColorScheme {
    pub fn is_no_preference(self) -> (r: bool)
        ensures
            r == (self == ColorScheme::NoPreference),
    {
        matches!(self, ColorScheme::NoPreference)
    }

    pub fn is_dark(self) -> (r: bool)
        ensures
            r == (self == ColorScheme::Dark),
    {
        matches!(self, ColorScheme::Dark)
    }

    pub fn is_light(self) -> (r: bool)
        ensures
            r == (self == ColorScheme::Light),
    {
        matches!(self, ColorScheme::Light)
    }
}

impl Default for ColorScheme {
    fn default() -> (r: ColorScheme)
        ensures
            r == ColorScheme::NoPreference,
    {
        ColorScheme::NoPreference
    }
}

/// The user's preferred contrast level.
#[derive(Debug, Clone, Copy, PartialEq, Eq, Structural)]
pub enum Contrast {
    /// The user has not expressed an active preference, the platform does not
    /// support a contrast preference, or retrieval failed.
    NoPreference,
    /// The user prefers an interface with a higher level of contrast.
    More,
    /// The user prefers an interface with a lower level of contrast.
    Less,
    /// The user has configured a specific set of colors (forced color mode)
    /// whose contrast matches neither `More` nor `Less`.
    Custom,
}

impl Contrast {
    pub fn is_no_preference(self) -> (r: bool)
        ensures
            r == (self == Contrast::NoPreference),
    {
        matches!(self, Contrast::NoPreference)
    }

    pub fn is_more(self) -> (r: bool)
        ensures
            r == (self == Contrast::More),
    {
        matches!(self, Contrast::More)
    }

    pub fn is_less(self) -> (r: bool)
        ensures
            r == (self == Contrast::Less),
    {
        matches!(self, Contrast::Less)
    }

    pub fn is_custom(self) -> (r: bool)
        ensures
            r == (self == Contrast::Custom),
    {
        matches!(self, Contrast::Custom)
    }
}

impl Default for Contrast {
    fn default() -> (r: Contrast)
        ensures
            r == Contrast::NoPreference,
    {
        Contrast::NoPreference
    }
}

/// The user prefers a minimal amount of motion.
#[derive(Debug, Clone, Copy, PartialEq, Eq, Structural)]
pub enum ReducedMotion {
    /// The user has not expressed an active preference, the platform does not
    /// support a reduced motion preference, or retrieval failed.
    NoPreference,
    /// The user prefers a minimal amount of motion.
    Reduce,
}

impl ReducedMotion {
    pub fn is_no_preference(self) -> (r: bool)
        ensures
            r == (self == ReducedMotion::NoPreference),
    {
        matches!(self, ReducedMotion::NoPreference)
    }

    pub fn is_reduce(self) -> (r: bool)
        ensures
            r == (self == ReducedMotion::Reduce),
    {
        matches!(self, ReducedMotion::Reduce)
    }
}

impl Default for ReducedMotion {
    fn default() -> (r: ReducedMotion)
        ensures
            r == ReducedMotion::NoPreference,
    {
        ReducedMotion::NoPreference
    }
}

/// The user prefers interfaces without transparent or semitransparent
/// backgrounds.
#[derive(Debug, Clone, Copy, PartialEq, Eq, Structural)]
pub enum ReducedTransparency {
    /// The user has not expressed an active preference, the platform does not
    /// support a reduced transparency preference, or retrieval failed.
    NoPreference,
    /// The user prefers an interface without transparent backgrounds.
    Reduce,
}

impl ReducedTransparency {
    pub fn is_no_preference(self) -> (r: bool)
        ensures
            r == (self == ReducedTransparency::NoPreference),
    {
        matches!(self, ReducedTransparency::NoPreference)
    }

    pub fn is_reduce(self) -> (r: bool)
        ensures
            r == (self == ReducedTransparency::Reduce),
    {
        matches!(self, ReducedTransparency::Reduce)
    }
}

impl Default for ReducedTransparency {
    fn default() -> (r: ReducedTransparency)
        ensures
            r == ReducedTransparency::NoPreference,
    {
        ReducedTransparency::NoPreference
    }
}

/// The user's current system-wide accent color preference.
///
/// `None` means the platform reported no usable accent color (or none was
/// requested).
#[derive(Debug, Clone, Copy)]
pub struct AccentColor(pub Option<Srgba>);

impl PartialEq for AccentColor {
    fn eq(&self, other: &AccentColor) -> (r: bool)
        ensures
            r == (self.0 == other.0),
    {
        match (&self.0, &other.0) {
            (None, None) => true,
            (Some(a), Some(b)) => a == b,
            _ => false,
        }
    }
}

impl vstd::std_specs::cmp::PartialEqSpecImpl for AccentColor {
    open spec fn obeys_eq_spec() -> bool {
        true
    }

    open spec fn eq_spec(&self, other: &AccentColor) -> bool {
        self.0 == other.0
    }
}

impl Default for AccentColor {
    fn default() -> (r: AccentColor)
        ensures
            r.0 is None,
    {
        AccentColor(None)
    }
}

/// The maximum time between the first and second click of a double click.
///
/// `None` means the platform reported no such setting (or none was
/// requested).
#[derive(Debug, Clone, Copy)]
pub struct DoubleClickInterval(pub Option<Duration>);

impl PartialEq for DoubleClickInterval {
    fn eq(&self, other: &DoubleClickInterval) -> (r: bool)
        ensures
            r == (self.0 == other.0),
    {
        match (&self.0, &other.0) {
            (None, None) => true,
            (Some(a), Some(b)) => a == b,
            _ => false,
        }
    }
}

impl vstd::std_specs::cmp::PartialEqSpecImpl for DoubleClickInterval {
    open spec fn obeys_eq_spec() -> bool {
        true
    }

    open spec fn eq_spec(&self, other: &DoubleClickInterval) -> bool {
        self.0 == other.0
    }
}

impl Default for DoubleClickInterval {
    fn default() -> (r: DoubleClickInterval)
        ensures
            r.0 is None,
    {
        DoubleClickInterval(None)
    }
}

/// The snapshot accumulator: the internal collection of preference values a
/// stream folds deltas into. One full copy crosses the stream boundary per
/// emission, converted to [`Preferences`].
#[derive(Debug, Clone, Copy)]
pub struct AvailablePreferences {
    pub color_scheme: ColorScheme,
    pub contrast: Contrast,
    pub reduced_motion: ReducedMotion,
    pub reduced_transparency: ReducedTransparency,
    pub accent_color: AccentColor,
    pub double_click_interval: DoubleClickInterval,
}

impl AvailablePreferences {
    /// The default snapshot value: no preference expressed for any field.
    pub open spec fn spec_default() -> AvailablePreferences {
        AvailablePreferences {
            color_scheme: ColorScheme::NoPreference,
            contrast: Contrast::NoPreference,
            reduced_motion: ReducedMotion::NoPreference,
            reduced_transparency: ReducedTransparency::NoPreference,
            accent_color: AccentColor(None),
            double_click_interval: DoubleClickInterval(None),
        }
    }

    /// True iff every field holds its default "no preference expressed"
    /// value.
    pub open spec fn is_default(self) -> bool {
        &&& self.color_scheme == ColorScheme::NoPreference
        &&& self.contrast == Contrast::NoPreference
        &&& self.reduced_motion == ReducedMotion::NoPreference
        &&& self.reduced_transparency == ReducedTransparency::NoPreference
        &&& self.accent_color.0 is None
        &&& self.double_click_interval.0 is None
    }
}

impl PartialEq for AvailablePreferences {
    fn eq(&self, other: &AvailablePreferences) -> (r: bool)
        ensures
            r == (*self =~= *other),
    {
        self.color_scheme == other.color_scheme && self.contrast == other.contrast
            && self.reduced_motion == other.reduced_motion && self.reduced_transparency
            == other.reduced_transparency && self.accent_color == other.accent_color
            && self.double_click_interval == other.double_click_interval
    }
}

impl vstd::std_specs::cmp::PartialEqSpecImpl for AvailablePreferences {
    open spec fn obeys_eq_spec() -> bool {
        true
    }

    open spec fn eq_spec(&self, other: &AvailablePreferences) -> bool {
        *self =~= *other
    }
}

impl Default for AvailablePreferences {
    /// The default snapshot: no preference expressed for any field.
    fn default() -> (r: AvailablePreferences)
        ensures
            r == AvailablePreferences::spec_default(),
            r.is_default(),
    {
        AvailablePreferences {
            color_scheme: ColorScheme::NoPreference,
            contrast: Contrast::NoPreference,
            reduced_motion: ReducedMotion::NoPreference,
            reduced_transparency: ReducedTransparency::NoPreference,
            accent_color: AccentColor(None),
            double_click_interval: DoubleClickInterval(None),
        }
    }
}

/// A collection of preferences retrieved from a stream or subscription.
///
/// Which fields carry real values is determined by the [`Interest`] given
/// when the stream or subscription was created; the rest stay at their
/// defaults. Two snapshots with equal field values are equal.
#[derive(Debug, Clone, Copy)]
pub struct Preferences {
    /// The user's preference for either light or dark mode.
    pub color_scheme: ColorScheme,
    /// The user's preferred contrast level.
    pub contrast: Contrast,
    /// The user's reduced motion preference.
    pub reduced_motion: ReducedMotion,
    /// The user's reduced transparency preference.
    pub reduced_transparency: ReducedTransparency,
    /// The user's current system-wide accent color preference.
    pub accent_color: AccentColor,
    /// The maximum time between two clicks of a double click.
    pub double_click_interval: DoubleClickInterval,
}

impl PartialEq for Preferences {
    fn eq(&self, other: &Preferences) -> (r: bool)
        ensures
            r == (*self =~= *other),
    {
        self.color_scheme == other.color_scheme && self.contrast == other.contrast
            && self.reduced_motion == other.reduced_motion && self.reduced_transparency
            == other.reduced_transparency && self.accent_color == other.accent_color
            && self.double_click_interval == other.double_click_interval
    }
}

impl vstd::std_specs::cmp::PartialEqSpecImpl for Preferences {
    open spec fn obeys_eq_spec() -> bool {
        true
    }

    open spec fn eq_spec(&self, other: &Preferences) -> bool {
        *self =~= *other
    }
}

impl Default for Preferences {
    /// The default snapshot: no preference expressed for any field.
    fn default() -> (r: Preferences)
        ensures
            r.color_scheme == ColorScheme::NoPreference,
            r.contrast == Contrast::NoPreference,
            r.reduced_motion == ReducedMotion::NoPreference,
            r.reduced_transparency == ReducedTransparency::NoPreference,
            r.accent_color.0 is None,
            r.double_click_interval.0 is None,
    {
        Preferences {
            color_scheme: ColorScheme::NoPreference,
            contrast: Contrast::NoPreference,
            reduced_motion: ReducedMotion::NoPreference,
            reduced_transparency: ReducedTransparency::NoPreference,
            accent_color: AccentColor(None),
            double_click_interval: DoubleClickInterval(None),
        }
    }
}

impl Preferences {
    /// What converting an accumulator snapshot yields: the same value in
    /// every field.
    pub open spec fn spec_from_available(value: AvailablePreferences) -> Preferences {
        Preferences {
            color_scheme: value.color_scheme,
            contrast: value.contrast,
            reduced_motion: value.reduced_motion,
            reduced_transparency: value.reduced_transparency,
            accent_color: value.accent_color,
            double_click_interval: value.double_click_interval,
        }
    }

    /// Converts an accumulator snapshot into the public snapshot type.
    #[verifier::when_used_as_spec(spec_from_available)]
    pub fn from_available(value: AvailablePreferences) -> (r: Preferences)
        ensures
            r == Preferences::spec_from_available(value),
    {
        Preferences {
            color_scheme: value.color_scheme,
            contrast: value.contrast,
            reduced_motion: value.reduced_motion,
            reduced_transparency: value.reduced_transparency,
            accent_color: value.accent_color,
            double_click_interval: value.double_click_interval,
        }
    }

    /// The decision core of the one-shot blocking read: an empty interest
    /// short-circuits to the default snapshot without any native work or
    /// waiting; otherwise the outcome of racing the platform read against
    /// the timeout decides — the snapshot that won, or `None` exactly when
    /// the timeout did.
    pub fn once_outcome(interest: Interest, raced: Option<AvailablePreferences>) -> (r: Option<
        Preferences,
    >)
        ensures
            interest.spec_is_empty() ==> r == Some(
                Preferences::spec_from_available(AvailablePreferences::spec_default()),
            ),
            !interest.spec_is_empty() ==> r == (match raced {
                Some(p) => Some(Preferences::spec_from_available(p)),
                None => None::<Preferences>,
            }),
    {
        if interest.is_empty() {
            return Some(Preferences::default());
        }
        match raced {
            Some(p) => Some(Preferences::from_available(p)),
            None => None,
        }
    }
}

/// When certain preferences change, the OS calls back into the embedding
/// application (on Android, the configuration-change handler the embedder
/// must override); the embedder forwards that call here. Returns the
/// callbacks registered with the process-wide hook, in subscription order;
/// the driver invokes each one in turn.
pub fn on_configuration_changed<T>(registry: &hook::SharedHook<T>) -> (r: Vec<&T>)
    ensures
        r@.len() == registry.callbacks.values().len(),
        forall|i: int| 0 <= i < r@.len() ==> *r@[i] == registry.callbacks.values()[i],
{
    registry.callbacks_in_order()
}

} // verus!
