//! A registry of callbacks keyed by monotonically increasing handles.
//!
//! Platforms whose native notification API supports only a single global
//! callback fan that one event out to all registered entries. The registry
//! is optimized for iteration and adding while being slow on removal.
//!
//! Handle values are never reused within the registry's lifetime, and the
//! default handle is distinct from every issued handle, so removing a stale
//! or default handle is always a safe no-op.

use vstd::prelude::*;

verus! {

/// The value of the reserved invalid handle: it never matches any entry.
pub const INVALID_HANDLE: usize = 0;

/// The first handle ever issued. It is distinct from [`INVALID_HANDLE`] so
/// that a default-initialized handle can never remove the first entry.
pub const FIRST_HANDLE: usize = 1;

/// An opaque handle used to remove a callback.
#[derive(Debug, Clone, Copy, PartialEq, Eq, Structural)]
#[must_use]
pub struct CallbackHandle(pub usize);

impl Default for CallbackHandle {
    /// The default handle is the reserved invalid one: removing it is a
    /// no-op.
    fn default() -> (r: CallbackHandle)
        ensures
            r.0 == INVALID_HANDLE,
    {
        CallbackHandle(INVALID_HANDLE)
    }
}

/// The error returned when the handle counter is exhausted. This signals a
/// pathological number of subscriptions over the registry's lifetime and is
/// unrecoverable.
#[derive(Debug, Clone, Copy)]
pub struct OverflowError;

/// One registered entry: the handle it was issued and the callback value.
#[derive(Debug)]
pub struct Callback<T> {
    pub handle: usize,
    pub value: T,
}

/// A collection of callbacks optimized for iteration and adding while being
/// slow on removal.
#[derive(Debug)]
pub struct Callbacks<T> {
    pub callbacks: Vec<Callback<T>>,
    pub next_handle: usize,
}

impl<T> Callbacks<T> {
    /// The registered entries as (handle, value) pairs, in insertion order.
    pub open spec fn entries(self) -> Seq<(usize, T)> {
        self.callbacks@.map_values(|c: Callback<T>| (c.handle, c.value))
    }

    /// The registered callback values, in insertion order.
    pub open spec fn values(self) -> Seq<T> {
        self.callbacks@.map_values(|c: Callback<T>| c.value)
    }

    /// The registry invariant: the next handle is past every issued handle,
    /// issued handles are at least [`FIRST_HANDLE`], and they increase
    /// strictly in insertion order — so no handle is ever reused and no two
    /// entries share one.
    pub open spec fn wf(self) -> bool {
        &&& self.next_handle >= FIRST_HANDLE
        &&& forall|i: int|
            0 <= i < self.entries().len() ==> FIRST_HANDLE <= (#[trigger] self.entries()[i]).0
                < self.next_handle
        &&& forall|i: int, j: int|
            0 <= i < j < self.entries().len() ==> (#[trigger] self.entries()[i]).0 < (
            #[trigger] self.entries()[j]).0
    }

    /// Creates an empty registry. The first issued handle will be
    /// [`FIRST_HANDLE`], not the invalid one.
    pub fn new() -> (r: Callbacks<T>)
        ensures
            r.wf(),
            r.entries().len() == 0,
            r.next_handle == FIRST_HANDLE,
    {
        Callbacks { callbacks: Vec::new(), next_handle: FIRST_HANDLE }
    }

    /// True iff no callbacks are registered.
    pub fn is_empty(&self) -> (r: bool)
        ensures
            r == (self.entries().len() == 0),
    {
        self.callbacks.len() == 0
    }

    /// The number of registered callbacks.
    pub fn len(&self) -> (r: usize)
        ensures
            r == self.entries().len(),
    {
        self.callbacks.len()
    }

    /// Registers a callback and returns the handle that removes it.
    ///
    /// Fails exactly when the handle counter is exhausted; the registry is
    /// unchanged in that case. On success the entry is appended under a
    /// fresh handle that no past or future entry shares.
    pub fn add(&mut self, value: T) -> (r: Result<CallbackHandle, OverflowError>)
        requires
            old(self).wf(),
        ensures
            final (self).wf(),
            r is Ok <==> old(self).next_handle < usize::MAX,
            (match r {
                Ok(handle) => {
                    &&& handle.0 == old(self).next_handle
                    &&& final (self).entries() =~= old(self).entries().push((handle.0, value))
                    &&& final (self).next_handle == old(self).next_handle + 1
                },
                Err(_) => *final (self) == *old(self),
            }),
    {
        let handle = self.next_handle;
        let next = match self.next_handle.checked_add(1) {
            Some(next) => next,
            None => {
                return Err(OverflowError);
            },
        };
        self.next_handle = next;
        self.callbacks.push(Callback { handle, value });
        proof {
            assert(self.entries() =~= old(self).entries().push((handle, value)));
        }
        Ok(CallbackHandle(handle))
    }

    /// The registered callback values in insertion order, for fanning one
    /// native event out to every subscriber.
    pub fn iter(&self) -> (r: Vec<&T>)
        ensures
            r@.len() == self.values().len(),
            forall|i: int| 0 <= i < r@.len() ==> *r@[i] == self.values()[i],
    {
        let mut out: Vec<&T> = Vec::new();
        let mut i: usize = 0;
        while i < self.callbacks.len()
            invariant
                i <= self.callbacks@.len(),
                out@.len() == i,
                forall|j: int| 0 <= j < i ==> *out@[j] == self.values()[j],
            decreases self.callbacks@.len() - i,
        {
            out.push(&self.callbacks[i].value);
            i = i + 1;
        }
        out
    }

    /// Removes the entry the handle was issued for, if it is still present.
    ///
    /// Exactly the entries whose handle differs survive, in their original
    /// order. Removing an already-removed, never-issued or default handle
    /// changes nothing.
    pub fn remove(&mut self, handle: CallbackHandle)
        requires
            old(self).wf(),
        ensures
            final (self).wf(),
            final (self).entries() =~= old(self).entries().filter(
                |e: (usize, T)| e.0 != handle.0,
            ),
            final (self).next_handle == old(self).next_handle,
    {
        let ghost pred = |e: (usize, T)| e.0 != handle.0;
        let mut i: usize = 0;
        while i < self.callbacks.len()
            invariant
                i <= self.callbacks@.len(),
                *self == *old(self),
                old(self).wf(),
                pred == (|e: (usize, T)| e.0 != handle.0),
                forall|j: int| 0 <= j < i ==> (#[trigger] old(self).entries()[j]).0 != handle.0,
            decreases self.callbacks@.len() - i,
        {
            if self.callbacks[i].handle == handle.0 {
                proof {
                    let entries = old(self).entries();
                    let idx = i as int;
                    assert forall|j: int|
                        0 <= j < entries.len() && j != idx implies (#[trigger] entries[j]).0
                        != handle.0 by {
                        if j > idx {
                            assert(entries[idx].0 < entries[j].0);
                        }
                    }
                }
                self.callbacks.remove(i);
                proof {
                    lemma_remove_index_is_filter(old(self).entries(), i as int, handle.0);
                    assert(self.entries() =~= old(self).entries().remove(i as int));
                }
                return ;
            }
            i = i + 1;
        }
        proof {
            lemma_filter_keeps_all(old(self).entries(), pred);
        }
    }
}

/// Registry handle uniqueness: no two entries ever share a handle, however
/// the registry was built up.
pub proof fn lemma_handles_unique<T>(c: Callbacks<T>, i: int, j: int)
    requires
        c.wf(),
        0 <= i < c.entries().len(),
        0 <= j < c.entries().len(),
        i != j,
    ensures
        c.entries()[i].0 != c.entries()[j].0,
{
}

/// Removing a handle that was never issued — the reserved default handle in
/// particular — is a no-op: every entry survives, including the first.
pub proof fn lemma_remove_never_issued_is_noop<T>(c: Callbacks<T>, handle: usize)
    requires
        c.wf(),
        handle < FIRST_HANDLE || handle >= c.next_handle,
    ensures
        c.entries().filter(|e: (usize, T)| e.0 != handle) =~= c.entries(),
{
    let pred = |e: (usize, T)| e.0 != handle;
    assert forall|i: int| 0 <= i < c.entries().len() implies pred(#[trigger] c.entries()[i]) by {
        assert(FIRST_HANDLE <= c.entries()[i].0 < c.next_handle);
    }
    lemma_filter_keeps_all(c.entries(), pred);
}

/// Filtering with a predicate every element satisfies keeps the sequence as
/// it is.
proof fn lemma_filter_keeps_all<T>(s: Seq<(usize, T)>, pred: spec_fn((usize, T)) -> bool)
    requires
        forall|i: int| 0 <= i < s.len() ==> pred(#[trigger] s[i]),
    ensures
        s.filter(pred) =~= s,
    decreases s.len(),
{
    reveal(Seq::filter);
    if s.len() > 0 {
        lemma_filter_keeps_all(s.drop_last(), pred);
    }
}

/// In a sequence of entries with pairwise distinct handles, dropping the one
/// entry that carries `handle` is the same as filtering that handle out.
proof fn lemma_remove_index_is_filter<T>(s: Seq<(usize, T)>, idx: int, handle: usize)
    requires
        0 <= idx < s.len(),
        s[idx].0 == handle,
        forall|j: int| 0 <= j < s.len() && j != idx ==> (#[trigger] s[j]).0 != handle,
    ensures
        s.filter(|e: (usize, T)| e.0 != handle) =~= s.remove(idx),
{
    reveal(Seq::filter);
    let pred = |e: (usize, T)| e.0 != handle;
    let a = s.take(idx);
    let x = seq![s[idx]];
    let b = s.skip(idx + 1);
    assert(s =~= a + x + b);
    Seq::filter_distributes_over_add(a + x, b, pred);
    Seq::filter_distributes_over_add(a, x, pred);
    assert(x.drop_last() =~= Seq::<(usize, T)>::empty());
    assert(x.last() == s[idx]);
    assert(!pred(x.last()));
    assert(x.drop_last().filter(pred) =~= Seq::<(usize, T)>::empty());
    assert(x.filter(pred) =~= Seq::<(usize, T)>::empty());
    lemma_filter_keeps_all(a, pred);
    lemma_filter_keeps_all(b, pred);
    assert(s.filter(pred) == a.filter(pred) + x.filter(pred) + b.filter(pred));
    assert(s.remove(idx) =~= a + b);
    assert(a.filter(pred) + x.filter(pred) + b.filter(pred) =~= a + b);
}

} // verus!
