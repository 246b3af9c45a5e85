//! Change notifications and their accumulation into snapshots.
//!
//! A delta is the unit a native platform source emits: usually one changed
//! field's new value, in the shape the platform's notification has. The
//! stream core folds deltas into the last known full snapshot, strictly in
//! arrival order.

use vstd::prelude::*;

use crate::AccentColor;
use crate::AvailablePreferences;
use crate::ColorScheme;
use crate::Contrast;
use crate::DoubleClickInterval;
use crate::ReducedMotion;
use crate::ReducedTransparency;

verus! {

/// The accessibility preferences some platforms report in one native
/// notification.
#[derive(Debug, Clone, Copy)]
pub struct AccessibilityPreferences {
    pub contrast: Contrast,
    pub reduced_motion: ReducedMotion,
    pub reduced_transparency: ReducedTransparency,
}

/// A change notification produced by a native observer. Each variant
/// carries the new value of one field, with two exceptions mirroring how
/// platforms actually notify: `Accessibility` carries the three
/// accessibility fields one native notification reports together, and
/// `Snapshot` carries a whole re-read snapshot, for platforms whose only
/// notification is "something changed" and that answer it by reading every
/// setting again.
#[derive(Debug, Clone, Copy)]
pub enum Preference {
    ColorScheme(ColorScheme),
    Contrast(Contrast),
    ReducedMotion(ReducedMotion),
    ReducedTransparency(ReducedTransparency),
    AccentColor(AccentColor),
    DoubleClickInterval(DoubleClickInterval),
    Accessibility(AccessibilityPreferences),
    Snapshot(AvailablePreferences),
}

impl Preference {
    /// The snapshot that results from applying this delta: the carried
    /// fields are replaced, every other field is kept.
    pub open spec fn spec_apply(self, p: AvailablePreferences) -> AvailablePreferences {
        match self {
            Preference::ColorScheme(v) => AvailablePreferences { color_scheme: v, ..p },
            Preference::Contrast(v) => AvailablePreferences { contrast: v, ..p },
            Preference::ReducedMotion(v) => AvailablePreferences { reduced_motion: v, ..p },
            Preference::ReducedTransparency(v) => AvailablePreferences {
                reduced_transparency: v,
                ..p
            },
            Preference::AccentColor(v) => AvailablePreferences { accent_color: v, ..p },
            Preference::DoubleClickInterval(v) => AvailablePreferences {
                double_click_interval: v,
                ..p
            },
            Preference::Accessibility(v) => AvailablePreferences {
                contrast: v.contrast,
                reduced_motion: v.reduced_motion,
                reduced_transparency: v.reduced_transparency,
                ..p
            },
            Preference::Snapshot(v) => v,
        }
    }

    /// Applies this delta to a snapshot, replacing the fields it carries.
    #[verifier::when_used_as_spec(spec_apply)]
    pub fn apply(self, preferences: AvailablePreferences) -> (r: AvailablePreferences)
        ensures
            r == self.spec_apply(preferences),
    {
        let mut preferences = preferences;
        match self {
            Preference::ColorScheme(v) => {
                preferences.color_scheme = v;
            },
            Preference::Contrast(v) => {
                preferences.contrast = v;
            },
            Preference::ReducedMotion(v) => {
                preferences.reduced_motion = v;
            },
            Preference::ReducedTransparency(v) => {
                preferences.reduced_transparency = v;
            },
            Preference::AccentColor(v) => {
                preferences.accent_color = v;
            },
            Preference::DoubleClickInterval(v) => {
                preferences.double_click_interval = v;
            },
            Preference::Accessibility(v) => {
                preferences.contrast = v.contrast;
                preferences.reduced_motion = v.reduced_motion;
                preferences.reduced_transparency = v.reduced_transparency;
            },
            Preference::Snapshot(v) => {
                preferences = v;
            },
        }
        preferences
    }
}

/// The strict left-fold of a delta sequence over a seed snapshot: the state
/// the accumulator holds after the whole sequence has arrived, one fold step
/// per delta, in order.
pub open spec fn fold_deltas(seed: AvailablePreferences, deltas: Seq<Preference>) -> AvailablePreferences
    decreases deltas.len(),
{
    if deltas.len() == 0 {
        seed
    } else {
        fold_deltas(seed, deltas.drop_last()).spec_apply_of(deltas.last())
    }
}

impl AvailablePreferences {
    /// Helper spelling of `Preference::spec_apply` with the receiver swapped,
    /// so folds read left to right.
    pub open spec fn spec_apply_of(self, delta: Preference) -> AvailablePreferences {
        delta.spec_apply(self)
    }
}

/// Folds a whole delta sequence into a seed snapshot, in order.
///
/// This is the batch form of the scan step the stream core performs once per
/// incoming delta.
pub fn apply_all(seed: AvailablePreferences, deltas: &Vec<Preference>) -> (r: AvailablePreferences)
    ensures
        r == fold_deltas(seed, deltas@),
{
    let mut acc = seed;
    let mut i: usize = 0;
    while i < deltas.len()
        invariant
            i <= deltas@.len(),
            acc == fold_deltas(seed, deltas@.take(i as int)),
        decreases deltas@.len() - i,
    {
        proof {
            assert(deltas@.take(i + 1).drop_last() =~= deltas@.take(i as int));
            assert(deltas@.take(i + 1).last() == deltas@[i as int]);
        }
        acc = deltas[i].apply(acc);
        i = i + 1;
    }
    proof {
        assert(deltas@.take(deltas@.len() as int) =~= deltas@);
    }
    acc
}

/// Applying the same delta twice in a row changes nothing the second time:
/// a delta replaces whole fields, so the second application finds them
/// already at their final values.
pub proof fn lemma_apply_idempotent(p: AvailablePreferences, d: Preference)
    ensures
        d.spec_apply(d.spec_apply(p)) == d.spec_apply(p),
{
}

/// Two deltas that touch no common field may be applied in either order:
/// the resulting snapshot is the same. Order is visible only between deltas
/// that overlap, where the later one wins on the shared fields.
pub proof fn lemma_apply_commutes_on_distinct_fields(
    p: AvailablePreferences,
    d1: Preference,
    d2: Preference,
)
    requires
        !overlapping(d1, d2),
    ensures
        d2.spec_apply(d1.spec_apply(p)) == d1.spec_apply(d2.spec_apply(p)),
{
}

/// True iff the two deltas carry at least one preference field in common.
/// A whole-snapshot delta overlaps everything.
pub open spec fn overlapping(d1: Preference, d2: Preference) -> bool {
    match (d1, d2) {
        (Preference::Snapshot(_), _) => true,
        (_, Preference::Snapshot(_)) => true,
        (Preference::ColorScheme(_), Preference::ColorScheme(_)) => true,
        (Preference::Contrast(_), Preference::Contrast(_)) => true,
        (Preference::ReducedMotion(_), Preference::ReducedMotion(_)) => true,
        (Preference::ReducedTransparency(_), Preference::ReducedTransparency(_)) => true,
        (Preference::AccentColor(_), Preference::AccentColor(_)) => true,
        (Preference::DoubleClickInterval(_), Preference::DoubleClickInterval(_)) => true,
        (Preference::Accessibility(_), Preference::Accessibility(_)) => true,
        (Preference::Accessibility(_), Preference::Contrast(_)) => true,
        (Preference::Accessibility(_), Preference::ReducedMotion(_)) => true,
        (Preference::Accessibility(_), Preference::ReducedTransparency(_)) => true,
        (Preference::Contrast(_), Preference::Accessibility(_)) => true,
        (Preference::ReducedMotion(_), Preference::Accessibility(_)) => true,
        (Preference::ReducedTransparency(_), Preference::Accessibility(_)) => true,
        _ => false,
    }
}

} // verus!
