//! The callback subscription layer.
//!
//! A subscription adapts the unified stream into repeated invocations of a
//! user callback: a background consumer drains the stream one item at a
//! time — so invocations are sequential and never overlap — until the
//! stream ends or the subscription is cancelled. The waiting and the
//! spawning are the driver's side; the decisions are verified here.

use vstd::prelude::*;

use crate::Interest;
use crate::Preferences;

verus! {

/// What the subscription's consumer loop receives: either the next snapshot
/// from the unified stream, or the shutdown signal the subscription's
/// cancellation sends. The race between them is decided by arrival order.
#[derive(Debug, Clone, Copy)]
pub enum Message {
    Preferences(Preferences),
    Shutdown,
}

/// What the consumer loop does with one message.
#[derive(Debug, Clone, Copy)]
pub enum CallbackAction {
    /// Invoke the user callback with this snapshot, then wait for the next
    /// message.
    Invoke(Preferences),
    /// Stop the loop; the callback is never invoked again.
    Stop,
}

/// The consumer loop body: a snapshot is handed to the callback, the
/// shutdown signal ends the loop.
pub fn subscription_step(message: Message) -> (r: CallbackAction)
    ensures
        r == (match message {
            Message::Preferences(p) => CallbackAction::Invoke(p),
            Message::Shutdown => CallbackAction::Stop,
        }),
{
    match message {
        Message::Preferences(preferences) => CallbackAction::Invoke(preferences),
        Message::Shutdown => CallbackAction::Stop,
    }
}

/// A subscription for preferences. Dropping it cancels the background
/// consumer and releases every associated resource.
///
/// `active` says whether a background consumer exists at all: a
/// subscription over an empty interest owns nothing, its callback is never
/// invoked, and cancelling it is a no-op.
#[derive(Debug, Clone, Copy)]
pub struct Subscription {
    /// Whether a background consumer (and its cancellation channel) exists.
    pub active: bool,
}

impl Subscription {
    /// The subscribe-time decision: an empty interest short-circuits — no
    /// stream, no background consumer, no callback invocation, nothing to
    /// cancel. Any other interest gets exactly one background consumer.
    pub fn new(interest: Interest) -> (r: Subscription)
        ensures
            r.active == !interest.spec_is_empty(),
    {
        Subscription { active: !interest.is_empty() }
    }

    /// Cancels the subscription. Returns whether a shutdown signal must be
    /// sent now: true at most once, on the first cancellation of an active
    /// subscription — cancelling twice, or cancelling an inactive
    /// subscription, does nothing.
    pub fn cancel(&mut self) -> (r: bool)
        ensures
            !final (self).active,
            r == old(self).active,
    {
        let was_active = self.active;
        self.active = false;
        was_active
    }
}

} // verus!
