//! A process-wide native hook shared by all subscribers.
//!
//! Several platforms allow only one native registration for "preferences
//! changed" per process. All logical subscribers share it: the first
//! subscriber triggers the real native registration, the last subscriber's
//! removal triggers the real native unregistration, everyone in between only
//! joins or leaves the callback registry.
//!
//! The hook itself cannot perform the native call; it decides, and reports
//! the decision to its driver. The `registrations` and `unregistrations`
//! counters record exactly how many native calls were ordered, which is what
//! the teardown laws below speak about.

use vstd::prelude::*;

use crate::callback_utils::CallbackHandle;
use crate::callback_utils::Callbacks;
use crate::callback_utils::OverflowError;

verus! {

/// The shared state behind one process-wide native hook: the fan-out
/// registry plus the account of native register/unregister calls ordered so
/// far.
#[derive(Debug)]
pub struct SharedHook<T> {
    /// The subscribers the one native event is fanned out to.
    pub callbacks: Callbacks<T>,
    /// How many native registrations this hook has ordered.
    pub registrations: usize,
    /// How many native unregistrations this hook has ordered.
    pub unregistrations: usize,
}

/// How one hook operation accounts for native calls, whatever the
/// operation was: a native registration is ordered exactly when the
/// subscriber set goes from empty to occupied, a native unregistration
/// exactly when it goes from occupied to empty. Both [`SharedHook::subscribe`]
/// and [`SharedHook::unsubscribe`] guarantee this relation between their
/// old and new state.
pub open spec fn hook_step<T>(pre: SharedHook<T>, post: SharedHook<T>) -> bool {
    &&& post.registrations == pre.registrations + (
    if pre.callbacks.entries().len() == 0 && post.callbacks.entries().len() > 0 {
        1int
    } else {
        0int
    })
    &&& post.unregistrations == pre.unregistrations + (
    if pre.callbacks.entries().len() > 0 && post.callbacks.entries().len() == 0 {
        1int
    } else {
        0int
    })
}

impl<T> SharedHook<T> {
    /// The hook invariant: the registry is well formed, and the native
    /// registration is outstanding exactly while subscribers exist — so
    /// native calls always come in register/unregister pairs and at most one
    /// registration is ever live.
    pub open spec fn wf(self) -> bool {
        &&& self.callbacks.wf()
        &&& self.unregistrations <= self.registrations
        &&& self.registrations < self.callbacks.next_handle
        &&& (self.callbacks.entries().len() > 0 ==> self.registrations == self.unregistrations
            + 1)
        &&& (self.callbacks.entries().len() == 0 ==> self.registrations == self.unregistrations)
    }

    /// A fresh hook: no subscribers, no native call ordered yet.
    pub fn new() -> (r: SharedHook<T>)
        ensures
            r.wf(),
            r.callbacks.entries().len() == 0,
            r.registrations == 0,
            r.unregistrations == 0,
    {
        SharedHook { callbacks: Callbacks::new(), registrations: 0, unregistrations: 0 }
    }

    /// Adds a subscriber. The returned flag tells the driver whether it must
    /// perform the real native registration now — true exactly for the first
    /// subscriber of a currently empty hook. Fails only on handle-counter
    /// exhaustion, leaving everything unchanged.
    pub fn subscribe(&mut self, value: T) -> (r: Result<(CallbackHandle, bool), OverflowError>)
        requires
            old(self).wf(),
        ensures
            final (self).wf(),
            hook_step(*old(self), *final (self)),
            r is Ok <==> old(self).callbacks.next_handle < usize::MAX,
            (match r {
                Ok((handle, register_now)) => {
                    &&& handle.0 == old(self).callbacks.next_handle
                    &&& final (self).callbacks.entries() =~= old(self).callbacks.entries().push(
                        (handle.0, value),
                    )
                    &&& register_now == (old(self).callbacks.entries().len() == 0)
                    &&& final (self).registrations == old(self).registrations + (
                    if register_now {
                        1int
                    } else {
                        0int
                    })
                    &&& final (self).unregistrations == old(self).unregistrations
                },
                Err(_) => *final (self) == *old(self),
            }),
    {
        let register_now = self.callbacks.is_empty();
        let handle = match self.callbacks.add(value) {
            Ok(handle) => handle,
            Err(e) => {
                return Err(e);
            },
        };
        if register_now {
            self.registrations = self.registrations + 1;
        }
        Ok((handle, register_now))
    }

    /// Removes a subscriber. The returned flag tells the driver whether it
    /// must perform the real native unregistration now — true exactly when
    /// this removal took the last subscriber away. Removing a stale or
    /// default handle changes nothing.
    pub fn unsubscribe(&mut self, handle: CallbackHandle) -> (r: bool)
        requires
            old(self).wf(),
        ensures
            final (self).wf(),
            hook_step(*old(self), *final (self)),
            final (self).callbacks.entries() =~= old(self).callbacks.entries().filter(
                |e: (usize, T)| e.0 != handle.0,
            ),
            r == (old(self).callbacks.entries().len() > 0 && final (self).callbacks.entries().len()
                == 0),
            final (self).unregistrations == old(self).unregistrations + (
            if r {
                1int
            } else {
                0int
            }),
            final (self).registrations == old(self).registrations,
            final (self).callbacks.next_handle == old(self).callbacks.next_handle,
    {
        let was_subscribed = !self.callbacks.is_empty();
        self.callbacks.remove(handle);
        let unregister_now = was_subscribed && self.callbacks.is_empty();
        if unregister_now {
            self.unregistrations = self.unregistrations + 1;
        }
        unregister_now
    }

    /// The callbacks to invoke when the one native event fires, in
    /// subscription order.
    pub fn callbacks_in_order(&self) -> (r: Vec<&T>)
        ensures
            r@.len() == self.callbacks.values().len(),
            forall|i: int| 0 <= i < r@.len() ==> *r@[i] == self.callbacks.values()[i],
    {
        self.callbacks.iter()
    }
}

/// At most one native registration is ever outstanding, and every native
/// unregistration answers exactly one earlier registration: the counters
/// never drift apart by more than the one live registration.
pub proof fn lemma_native_calls_paired<T>(h: SharedHook<T>)
    requires
        h.wf(),
    ensures
        h.unregistrations <= h.registrations <= h.unregistrations + 1,
        h.registrations == h.unregistrations + 1 <==> h.callbacks.entries().len() > 0,
{
}

/// Guard teardown exactly-once: take any chain of hook states produced by
/// subscribe and unsubscribe operations — `hs[0]` before the first
/// operation, one further state per operation — that starts with no
/// subscribers, keeps at least one subscriber at every point in between,
/// and ends with none. However many overlapping subscribers the chain had,
/// exactly one native registration and exactly one native unregistration
/// were ordered in total.
pub proof fn lemma_teardown_exactly_once<T>(hs: Seq<SharedHook<T>>)
    requires
        hs.len() >= 3,
        hs[0].callbacks.entries().len() == 0,
        forall|k: int| 0 <= k < hs.len() - 1 ==> hook_step(#[trigger] hs[k], hs[k + 1]),
        forall|k: int| 1 <= k < hs.len() - 1 ==> (#[trigger] hs[k]).callbacks.entries().len() > 0,
        hs.last().callbacks.entries().len() == 0,
    ensures
        hs.last().registrations == hs[0].registrations + 1,
        hs.last().unregistrations == hs[0].unregistrations + 1,
{
    lemma_session_middle(hs, hs.len() - 2);
    assert(hook_step(hs[hs.len() - 2], hs[hs.len() - 1]));
}

/// Helper for [`lemma_teardown_exactly_once`]: after the first operation
/// and up to any point still inside the session, exactly one registration
/// and no unregistration have been ordered.
proof fn lemma_session_middle<T>(hs: Seq<SharedHook<T>>, k: int)
    requires
        hs.len() >= 3,
        1 <= k <= hs.len() - 2,
        hs[0].callbacks.entries().len() == 0,
        forall|j: int| 0 <= j < hs.len() - 1 ==> hook_step(#[trigger] hs[j], hs[j + 1]),
        forall|j: int| 1 <= j < hs.len() - 1 ==> (#[trigger] hs[j]).callbacks.entries().len() > 0,
    ensures
        hs[k].registrations == hs[0].registrations + 1,
        hs[k].unregistrations == hs[0].unregistrations,
    decreases k,
{
    if k == 1 {
        assert(hook_step(hs[0], hs[1]));
    } else {
        lemma_session_middle(hs, k - 1);
        assert(hook_step(hs[k - 1], hs[k]));
    }
}

} // verus!
