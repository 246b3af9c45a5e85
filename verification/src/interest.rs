//! The set of preference kinds a caller wants retrieved and monitored.

use vstd::prelude::*;

verus! {

/// Interest used when creating a stream or a subscription.
/// It indicates which preferences should be retrieved and monitored.
///
/// Each supported preference kind occupies one bit; `Interest::All` is the
/// union of every kind. An empty interest short-circuits all monitoring.
#[derive(Debug, Clone, Copy, PartialEq, Eq, Structural)]
pub struct Interest(pub u8);

/// Bit assigned to the `ColorScheme` preference.
pub const COLOR_SCHEME_BIT: u8 = 1;

/// Bit assigned to the `Contrast` preference.
pub const CONTRAST_BIT: u8 = 2;

/// Bit assigned to the `ReducedMotion` preference.
pub const REDUCED_MOTION_BIT: u8 = 4;

/// Bit assigned to the `ReducedTransparency` preference.
pub const REDUCED_TRANSPARENCY_BIT: u8 = 8;

/// Bit assigned to the `AccentColor` preference.
pub const ACCENT_COLOR_BIT: u8 = 16;

/// Bit assigned to the `DoubleClickInterval` preference.
pub const DOUBLE_CLICK_INTERVAL_BIT: u8 = 32;

/// Union of all the bits above.
pub const ALL_BITS: u8 = 63;

impl Interest {
    /// Interest in the `ColorScheme` preference.
    pub fn color_scheme() -> (r: Interest)
        ensures
            r.0 == COLOR_SCHEME_BIT,
    {
        Interest(COLOR_SCHEME_BIT)
    }

    /// Interest in the `Contrast` preference.
    pub fn contrast() -> (r: Interest)
        ensures
            r.0 == CONTRAST_BIT,
    {
        Interest(CONTRAST_BIT)
    }

    /// Interest in the `ReducedMotion` preference.
    pub fn reduced_motion() -> (r: Interest)
        ensures
            r.0 == REDUCED_MOTION_BIT,
    {
        Interest(REDUCED_MOTION_BIT)
    }

    /// Interest in the `ReducedTransparency` preference.
    pub fn reduced_transparency() -> (r: Interest)
        ensures
            r.0 == REDUCED_TRANSPARENCY_BIT,
    {
        Interest(REDUCED_TRANSPARENCY_BIT)
    }

    /// Interest in the `AccentColor` preference.
    pub fn accent_color() -> (r: Interest)
        ensures
            r.0 == ACCENT_COLOR_BIT,
    {
        Interest(ACCENT_COLOR_BIT)
    }

    /// Interest in the `DoubleClickInterval` preference.
    pub fn double_click_interval() -> (r: Interest)
        ensures
            r.0 == DOUBLE_CLICK_INTERVAL_BIT,
    {
        Interest(DOUBLE_CLICK_INTERVAL_BIT)
    }

    /// A shortcut for all available preferences.
    pub fn all() -> (r: Interest)
        ensures
            r.0 == ALL_BITS,
    {
        Interest(ALL_BITS)
    }

    /// True iff every flag set in `other` is also set in `self`.
    pub open spec fn spec_is(self, other: Interest) -> bool {
        (other.0 & self.0) == other.0
    }

    /// Tests if `self` is a superset of `other`.
    /// In other words: tests if all flags set in `other` are set in `self`.
    #[verifier::when_used_as_spec(spec_is)]
    pub fn is(self, other: Interest) -> (r: bool)
        ensures
            r == self.spec_is(other),
    {
        (other.0 & self.0) == other.0
    }

    /// True iff no flags are set.
    pub open spec fn spec_is_empty(self) -> bool {
        self.0 == 0
    }

    /// Tests if `self` is empty.
    /// In other words: tests if no flags are set.
    #[verifier::when_used_as_spec(spec_is_empty)]
    pub fn is_empty(self) -> (r: bool)
        ensures
            r == self.spec_is_empty(),
    {
        self.0 == 0
    }

    /// Combines two interests into one that covers both.
    pub fn union(self, other: Interest) -> (r: Interest)
        ensures
            r.0 == (self.0 | other.0),
            r.spec_is(self),
            r.spec_is(other),
    {
        let a = self.0;
        let b = other.0;
        let c = a | b;
        assert((a & c) == a && (b & c) == b) by (bit_vector)
            requires
                c == (a | b),
        ;
        Interest(c)
    }
}

impl Default for Interest {
    /// The default interest is empty: nothing is monitored.
    fn default() -> (r: Interest)
        ensures
            r.spec_is_empty(),
    {
        Interest(0)
    }
}

} // verus!
