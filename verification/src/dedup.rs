//! Suppression of consecutive equal snapshots.
//!
//! Several platforms raise broader-than-necessary change notifications, and
//! merging per-field sources reconstructs a full snapshot per delta even when
//! the value did not change. The dedup step collapses every run of equal
//! consecutive snapshots to its first element.

use vstd::prelude::*;

use crate::Preferences;

verus! {

/// The dedup state: the last snapshot that was emitted, if any.
#[derive(Debug, Clone, Copy)]
pub struct Dedup {
    /// The most recent snapshot pushed through, against which the next one
    /// is compared.
    pub current: Option<Preferences>,
}

impl Dedup {
    /// A fresh dedup state: the next snapshot is always emitted.
    pub fn new() -> (r: Dedup)
        ensures
            r.current is None,
    {
        Dedup { current: None }
    }

    /// Feeds the next snapshot through the dedup step.
    ///
    /// Emits `next` exactly when it differs from the previously seen
    /// snapshot (or none was seen yet); a suppressed duplicate yields
    /// `None`, telling the driver to request the next inner item at once.
    pub fn push(&mut self, next: Preferences) -> (r: Option<Preferences>)
        ensures
            final (self).current == Some(next),
            r == (if old(self).current == Some(next) {
                None::<Preferences>
            } else {
                Some(next)
            }),
    {
        let suppress = match &self.current {
            Some(cur) => *cur == next,
            None => false,
        };
        self.current = Some(next);
        if suppress {
            None
        } else {
            Some(next)
        }
    }
}

/// The last element of a sequence, if any.
pub open spec fn last_of(s: Seq<Preferences>) -> Option<Preferences> {
    if s.len() == 0 {
        None
    } else {
        Some(s.last())
    }
}

/// What feeding a whole sequence of snapshots through a fresh dedup state
/// emits: every run of equal consecutive snapshots collapsed to its first
/// element.
pub open spec fn dedup_seq(items: Seq<Preferences>) -> Seq<Preferences>
    decreases items.len(),
{
    if items.len() == 0 {
        Seq::empty()
    } else if last_of(items.drop_last()) == Some(items.last()) {
        dedup_seq(items.drop_last())
    } else {
        dedup_seq(items.drop_last()).push(items.last())
    }
}

/// Feeds a whole sequence of snapshots through a fresh dedup state and
/// collects the emissions.
pub fn dedup_all(items: &Vec<Preferences>) -> (r: Vec<Preferences>)
    ensures
        r@ == dedup_seq(items@),
{
    let mut state = Dedup::new();
    let mut out: Vec<Preferences> = Vec::new();
    let mut i: usize = 0;
    while i < items.len()
        invariant
            i <= items@.len(),
            out@ == dedup_seq(items@.take(i as int)),
            state.current == last_of(items@.take(i as int)),
        decreases items@.len() - i,
    {
        proof {
            assert(items@.take(i + 1).drop_last() =~= items@.take(i as int));
            assert(items@.take(i + 1).last() == items@[i as int]);
        }
        let emitted = state.push(items[i]);
        if let Some(p) = emitted {
            out.push(p);
        }
        i = i + 1;
    }
    proof {
        assert(items@.take(items@.len() as int) =~= items@);
    }
    out
}

/// A deduplicated sequence is never empty when its input is not, and it
/// always ends on the input's last element: suppression only ever drops an
/// element equal to the one already emitted before it.
pub proof fn lemma_dedup_last(items: Seq<Preferences>)
    requires
        items.len() > 0,
    ensures
        dedup_seq(items).len() > 0,
        dedup_seq(items).last() == items.last(),
    decreases items.len(),
{
    if items.len() > 1 && last_of(items.drop_last()) == Some(items.last()) {
        lemma_dedup_last(items.drop_last());
    }
}

/// No two consecutive snapshots of a deduplicated sequence are equal: of any
/// run of equal consecutive inputs, exactly the first is emitted.
pub proof fn lemma_dedup_no_consecutive_duplicates(items: Seq<Preferences>)
    ensures
        forall|i: int|
            0 <= i < dedup_seq(items).len() - 1 ==> #[trigger] dedup_seq(items)[i] != dedup_seq(
                items,
            )[i + 1],
    decreases items.len(),
{
    if items.len() > 0 {
        let prev = dedup_seq(items.drop_last());
        let out = dedup_seq(items);
        lemma_dedup_no_consecutive_duplicates(items.drop_last());
        if last_of(items.drop_last()) != Some(items.last()) {
            assert forall|i: int| 0 <= i < out.len() - 1 implies #[trigger] out[i] != out[i + 1] by {
                if i < prev.len() - 1 {
                    assert(out[i] == prev[i]);
                    assert(out[i + 1] == prev[i + 1]);
                } else {
                    lemma_dedup_last(items.drop_last());
                    assert(out[i] == prev.last());
                    assert(out[i + 1] == items.last());
                }
            }
        }
    }
}

} // verus!
