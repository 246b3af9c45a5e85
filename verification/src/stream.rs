//! The unified preference stream, as an explicit state machine.
//!
//! Every platform backend is an external collaborator that, given an
//! interest set, produces an initial snapshot and a push source of deltas.
//! The machine here turns those inputs — fed in as
//! [`StreamEvent`]s, in arrival order — into the canonical deduplicated
//! sequence of full snapshots:
//!
//! * the first emission is always the initial snapshot, before any change
//!   notification is surfaced;
//! * each delta is folded into the last accumulator value, one fold step per
//!   delta, never batched, never reordered;
//! * consecutive equal snapshots are collapsed to the first of the run;
//! * native failure degrades to a single default-valued emission, never to a
//!   stream error.
//!
//! The driver that owns the native registration performs the actual waiting
//! and hands each event to [`PreferencesStream::next_event`]; everything the
//! machine decides is verified here.

use vstd::prelude::*;

use crate::dedup::Dedup;
use crate::delta::fold_deltas;
use crate::delta::Preference;
use crate::AvailablePreferences;
use crate::Interest;
use crate::Preferences;

verus! {

/// The phase a preference stream is in.
#[derive(Debug, Clone, Copy, PartialEq, Eq, Structural)]
pub enum StreamState {
    /// The initial snapshot fetch and the native registration are still
    /// outstanding; nothing has been emitted.
    Connecting,
    /// The initial snapshot was emitted and a native source keeps feeding
    /// deltas.
    Live,
    /// Terminal: the native source closed, the consumer dropped the stream,
    /// or the stream was degraded to its single emission.
    Closed,
}

/// One observation the driver hands to the stream machine.
#[derive(Debug, Clone, Copy)]
pub enum StreamEvent {
    /// Connection finished. `initial` is the snapshot that was fetched;
    /// `has_native` says whether a native change source was registered.
    /// When setup fails entirely, the driver reports the default snapshot
    /// with `has_native: false`: failure degrades, it is never surfaced.
    Connected { initial: AvailablePreferences, has_native: bool },
    /// The native source delivered a change notification.
    Delta(Preference),
    /// The native source closed.
    SourceClosed,
    /// The consumer dropped the stream.
    Dropped,
}

/// The verified core of a preference stream: accumulator, dedup state and
/// phase. Created by [`PreferencesStream::new`], driven by
/// [`PreferencesStream::next_event`].
#[derive(Debug, Clone, Copy)]
pub struct PreferencesStream {
    /// The interest the stream was created for. The driver registers native
    /// sources for exactly these preference kinds.
    pub interest: Interest,
    /// The phase the stream is in.
    pub state: StreamState,
    /// The accumulator the deltas are folded into.
    pub acc: AvailablePreferences,
    /// The dedup state guarding emissions.
    pub dedup: Dedup,
}

impl PreferencesStream {
    /// The machine a fresh stream starts in.
    pub open spec fn spec_new(interest: Interest) -> PreferencesStream {
        PreferencesStream {
            interest,
            state: StreamState::Connecting,
            acc: AvailablePreferences::spec_default(),
            dedup: Dedup { current: None },
        }
    }

    /// What one event does to the machine, and what it emits.
    ///
    /// This is the whole contract of the stream core; `next_event` is its
    /// executable form.
    pub open spec fn spec_step(self, event: StreamEvent) -> (PreferencesStream, Option<
        Preferences,
    >) {
        match (self.state, event) {
            (StreamState::Connecting, StreamEvent::Connected { initial, has_native }) => {
                let snapshot = Preferences::spec_from_available(initial);
                (
                    PreferencesStream {
                        state: if has_native {
                            StreamState::Live
                        } else {
                            StreamState::Closed
                        },
                        acc: initial,
                        dedup: Dedup { current: Some(snapshot) },
                        ..self
                    },
                    Some(snapshot),
                )
            },
            (StreamState::Live, StreamEvent::Delta(d)) => {
                let acc = d.spec_apply(self.acc);
                let snapshot = Preferences::spec_from_available(acc);
                let emission = if self.dedup.current == Some(snapshot) {
                    None
                } else {
                    Some(snapshot)
                };
                (
                    PreferencesStream { acc, dedup: Dedup { current: Some(snapshot) }, ..self },
                    emission,
                )
            },
            (StreamState::Live, StreamEvent::SourceClosed) => {
                (PreferencesStream { state: StreamState::Closed, ..self }, None)
            },
            (_, StreamEvent::Dropped) => {
                (PreferencesStream { state: StreamState::Closed, ..self }, None)
            },
            _ => (self, None),
        }
    }

    /// Creates the machine for a stream over `interest`. No emission happens
    /// until the driver reports [`StreamEvent::Connected`].
    pub fn new(interest: Interest) -> (r: PreferencesStream)
        ensures
            r == PreferencesStream::spec_new(interest),
    {
        PreferencesStream {
            interest,
            state: StreamState::Connecting,
            acc: AvailablePreferences::default(),
            dedup: Dedup::new(),
        }
    }

    /// The short-circuit decision at stream start: an empty interest starts
    /// no native registration and no background work; the driver reports
    /// `Connected` with the default snapshot and no native source instead.
    pub fn wants_native(&self) -> (r: bool)
        ensures
            r == !self.interest.spec_is_empty(),
    {
        !self.interest.is_empty()
    }

    /// True iff the stream reached its terminal phase; the driver then tears
    /// its native registrations down.
    pub fn is_closed(&self) -> (r: bool)
        ensures
            r == (self.state == StreamState::Closed),
    {
        matches!(self.state, StreamState::Closed)
    }

    /// Feeds one event into the machine and returns what it emits, exactly
    /// as [`PreferencesStream::spec_step`] prescribes.
    pub fn next_event(&mut self, event: StreamEvent) -> (r: Option<Preferences>)
        ensures
            *final (self) == old(self).spec_step(event).0,
            r == old(self).spec_step(event).1,
    {
        match (self.state, event) {
            (StreamState::Connecting, StreamEvent::Connected { initial, has_native }) => {
                let snapshot = Preferences::from_available(initial);
                self.state = if has_native {
                    StreamState::Live
                } else {
                    StreamState::Closed
                };
                self.acc = initial;
                self.dedup.current = Some(snapshot);
                Some(snapshot)
            },
            (StreamState::Live, StreamEvent::Delta(d)) => {
                self.acc = d.apply(self.acc);
                let snapshot = Preferences::from_available(self.acc);
                self.dedup.push(snapshot)
            },
            (StreamState::Live, StreamEvent::SourceClosed) => {
                self.state = StreamState::Closed;
                None
            },
            (_, StreamEvent::Dropped) => {
                self.state = StreamState::Closed;
                None
            },
            _ => None,
        }
    }
}

/// What a whole event sequence does to a machine: the final machine and the
/// emissions, in order.
pub open spec fn spec_run(m: PreferencesStream, events: Seq<StreamEvent>) -> (PreferencesStream, Seq<
    Preferences,
>)
    decreases events.len(),
{
    if events.len() == 0 {
        (m, Seq::empty())
    } else {
        let prefix = spec_run(m, events.drop_last());
        let step = prefix.0.spec_step(events.last());
        (
            step.0,
            match step.1 {
                Some(p) => prefix.1.push(p),
                None => prefix.1,
            },
        )
    }
}

/// Runs a fresh stream over a whole event sequence and collects the
/// emissions.
pub fn run_events(interest: Interest, events: &Vec<StreamEvent>) -> (r: Vec<Preferences>)
    ensures
        r@ == spec_run(PreferencesStream::spec_new(interest), events@).1,
{
    let mut machine = PreferencesStream::new(interest);
    let mut out: Vec<Preferences> = Vec::new();
    let mut i: usize = 0;
    while i < events.len()
        invariant
            i <= events@.len(),
            machine == spec_run(PreferencesStream::spec_new(interest), events@.take(i as int)).0,
            out@ == spec_run(PreferencesStream::spec_new(interest), events@.take(i as int)).1,
        decreases events@.len() - i,
    {
        proof {
            assert(events@.take(i + 1).drop_last() =~= events@.take(i as int));
            assert(events@.take(i + 1).last() == events@[i as int]);
        }
        let emitted = machine.next_event(events[i]);
        if let Some(p) = emitted {
            out.push(p);
        }
        i = i + 1;
    }
    proof {
        assert(events@.take(events@.len() as int) =~= events@);
    }
    out
}

/// The invariant every run from a fresh machine maintains: while connecting
/// nothing was emitted, the dedup state always matches the last emission,
/// a live accumulator always matches the dedup state, and no two
/// consecutive emissions are equal.
pub open spec fn run_inv(m: PreferencesStream, emissions: Seq<Preferences>) -> bool {
    &&& (m.state == StreamState::Connecting ==> m.dedup.current is None && emissions.len() == 0)
    &&& (emissions.len() == 0 ==> m.dedup.current is None)
    &&& (emissions.len() > 0 ==> m.dedup.current == Some(emissions.last()))
    &&& (m.state == StreamState::Live ==> m.dedup.current == Some(
        Preferences::spec_from_available(m.acc),
    ))
    &&& (forall|i: int|
        0 <= i < emissions.len() - 1 ==> #[trigger] emissions[i] != emissions[i + 1])
}

/// Every run from a fresh machine satisfies [`run_inv`]. In particular the
/// emitted sequence never contains two consecutive equal snapshots, whatever
/// the native sources deliver.
pub proof fn lemma_run_invariant(interest: Interest, events: Seq<StreamEvent>)
    ensures
        run_inv(
            spec_run(PreferencesStream::spec_new(interest), events).0,
            spec_run(PreferencesStream::spec_new(interest), events).1,
        ),
    decreases events.len(),
{
    if events.len() > 0 {
        lemma_run_invariant(interest, events.drop_last());
        let prefix = spec_run(PreferencesStream::spec_new(interest), events.drop_last());
        let m1 = prefix.0;
        let es = prefix.1;
        let step = m1.spec_step(events.last());
        let out = spec_run(PreferencesStream::spec_new(interest), events).1;
        match step.1 {
            Some(p) => {
                assert(out =~= es.push(p));
                assert forall|i: int| 0 <= i < out.len() - 1 implies #[trigger] out[i] != out[i
                    + 1] by {
                    if i < es.len() - 1 {
                        assert(out[i] == es[i]);
                        assert(out[i + 1] == es[i + 1]);
                    } else {
                        assert(out[i] == es.last());
                        assert(out[i + 1] == p);
                    }
                }
            },
            None => {
                assert(out =~= es);
            },
        }
    }
}

/// Dedup idempotence at the machine level: a delta that does not change the
/// snapshot value — in particular the same delta fed twice in a row — is
/// emitted at most once; the repeat yields no emission.
pub proof fn lemma_duplicate_delta_suppressed(m: PreferencesStream, d: Preference)
    requires
        m.state == StreamState::Live,
    ensures
        m.spec_step(StreamEvent::Delta(d)).0.spec_step(StreamEvent::Delta(d)).1 is None,
{
    crate::delta::lemma_apply_idempotent(m.acc, d);
}

/// Initial-value guarantee: the moment connection finishes, the machine
/// emits the initial snapshot — no native change event is needed for the
/// first item.
pub proof fn lemma_initial_value(m: PreferencesStream, initial: AvailablePreferences, has_native: bool)
    requires
        m.state == StreamState::Connecting,
    ensures
        m.spec_step(StreamEvent::Connected { initial, has_native }).1 == Some(
            Preferences::spec_from_available(initial),
        ),
{
}

/// While connecting, nothing but the connection result produces an
/// emission: the first emitted item is always the initial snapshot.
pub proof fn lemma_nothing_before_connected(m: PreferencesStream, event: StreamEvent)
    requires
        m.state == StreamState::Connecting,
        !(event is Connected),
    ensures
        m.spec_step(event).1 is None,
{
}

/// A closed stream is terminal: whatever else the driver feeds in, the
/// machine stays closed and never emits again.
pub proof fn lemma_closed_is_terminal(m: PreferencesStream, events: Seq<StreamEvent>)
    requires
        m.state == StreamState::Closed,
    ensures
        spec_run(m, events).0.state == StreamState::Closed,
        spec_run(m, events).1.len() == 0,
    decreases events.len(),
{
    if events.len() > 0 {
        lemma_closed_is_terminal(m, events.drop_last());
    }
}

/// Runs compose: running a concatenation equals running the first part and
/// then the second from where the first left off, with the emissions
/// concatenated in order.
pub proof fn lemma_run_append(m: PreferencesStream, a: Seq<StreamEvent>, b: Seq<StreamEvent>)
    ensures
        spec_run(m, a + b).0 == spec_run(spec_run(m, a).0, b).0,
        spec_run(m, a + b).1 =~= spec_run(m, a).1 + spec_run(spec_run(m, a).0, b).1,
    decreases b.len(),
{
    if b.len() == 0 {
        assert(a + b =~= a);
        assert(spec_run(m, a).1 + spec_run(spec_run(m, a).0, b).1 =~= spec_run(m, a).1);
    } else {
        lemma_run_append(m, a, b.drop_last());
        assert((a + b).drop_last() =~= a + b.drop_last());
        assert((a + b).last() == b.last());
    }
}

/// Degradation on failure: when native subscription setup fails, the
/// driver reports the connection without a native source, and the stream
/// falls back to a single-element sequence — whatever snapshot was
/// salvaged, once — and is closed from then on, whatever else arrives.
/// Failure is never surfaced as a stream error.
pub proof fn lemma_degraded_stream(
    interest: Interest,
    initial: AvailablePreferences,
    rest: Seq<StreamEvent>,
)
    ensures
        ({
            let connect = StreamEvent::Connected { initial, has_native: false };
            let run = spec_run(PreferencesStream::spec_new(interest), seq![connect] + rest);
            &&& run.1 =~= seq![Preferences::spec_from_available(initial)]
            &&& run.0.state == StreamState::Closed
        }),
{
    let connect = StreamEvent::Connected { initial, has_native: false };
    let m0 = PreferencesStream::spec_new(interest);
    lemma_run_append(m0, seq![connect], rest);
    assert(seq![connect].last() == connect);
    assert(seq![connect].drop_last().len() == 0);
    let after = spec_run(m0, seq![connect]).0;
    assert(spec_run(m0, seq![connect].drop_last()).0 == m0);
    assert(after == m0.spec_step(connect).0);
    assert(after.state == StreamState::Closed);
    assert(spec_run(m0, seq![connect]).1 =~= seq![Preferences::spec_from_available(initial)]);
    lemma_closed_is_terminal(after, rest);
}

/// Empty-interest short circuit, stream half: an empty interest starts no
/// native work, so the driver reports the degraded connection with the
/// default snapshot, and the stream yields exactly one default-valued item
/// and then ends.
pub proof fn lemma_empty_interest_stream(interest: Interest, rest: Seq<StreamEvent>)
    requires
        interest.spec_is_empty(),
    ensures
        ({
            let connect = StreamEvent::Connected {
                initial: AvailablePreferences::spec_default(),
                has_native: false,
            };
            let run = spec_run(PreferencesStream::spec_new(interest), seq![connect] + rest);
            &&& run.1 =~= seq![
                Preferences::spec_from_available(AvailablePreferences::spec_default()),
            ]
            &&& run.0.state == StreamState::Closed
        }),
{
    lemma_degraded_stream(interest, AvailablePreferences::spec_default(), rest);
}

/// Fold correctness: connecting with seed snapshot `s0` and then feeding any
/// finite delta sequence leaves the accumulator at exactly the strict
/// left-fold of the deltas over `s0`, and the last emitted snapshot shows
/// that fold's value.
pub proof fn lemma_fold_correctness(
    interest: Interest,
    s0: AvailablePreferences,
    deltas: Seq<Preference>,
)
    ensures
        ({
            let events = seq![
                StreamEvent::Connected { initial: s0, has_native: true },
            ] + deltas.map_values(|d: Preference| StreamEvent::Delta(d));
            let run = spec_run(PreferencesStream::spec_new(interest), events);
            &&& run.0.state == StreamState::Live
            &&& run.0.acc == fold_deltas(s0, deltas)
            &&& run.1.len() > 0
            &&& run.1.last() == Preferences::spec_from_available(fold_deltas(s0, deltas))
        }),
    decreases deltas.len(),
{
    let m0 = PreferencesStream::spec_new(interest);
    let connect = StreamEvent::Connected { initial: s0, has_native: true };
    let events = seq![connect] + deltas.map_values(|d: Preference| StreamEvent::Delta(d));
    if deltas.len() == 0 {
        assert(events =~= seq![connect]);
        assert(events.drop_last().len() == 0);
        assert(events.last() == connect);
        assert(spec_run(m0, events).0 == m0.spec_step(connect).0);
        assert(fold_deltas(s0, deltas) == s0);
    } else {
        lemma_fold_correctness(interest, s0, deltas.drop_last());
        lemma_run_invariant(interest, events.drop_last());
        let prev_events = seq![connect] + deltas.drop_last().map_values(
            |d: Preference| StreamEvent::Delta(d),
        );
        assert(events.drop_last() =~= prev_events);
        assert(events.last() == StreamEvent::Delta(deltas.last()));
        let prefix = spec_run(m0, events.drop_last());
        let m1 = prefix.0;
        assert(m1.acc == fold_deltas(s0, deltas.drop_last()));
        assert(fold_deltas(s0, deltas) == deltas.last().spec_apply(m1.acc));
    }
}

} // verus!
