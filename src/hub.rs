use vstd::prelude::*;

use tokio::sync::broadcast::Sender;

use crate::envelope::Message;

verus! {

#[verifier::external_type_specification]
#[verifier::external_body]
#[verifier::reject_recursive_types(T)]
pub struct ExSender<T>(tokio::sync::broadcast::Sender<T>);

/// How many envelopes each subscriber may at least fall behind before it
/// loses the oldest ones (the channel rounds it up to a power of two).
pub const BACKLOG: usize = 100;

/// Relies on tokio::sync::broadcast::Sender::new, which panics on a capacity
/// of zero or above `usize::MAX / 2` and otherwise opens a channel that has no
/// receiver yet.
#[verifier::external_body]
fn open_channel(capacity: usize) -> Sender<Message>
    requires
        0 < capacity <= usize::MAX / 2,
{
    Sender::new(capacity)
}

/// Relies on tokio::sync::broadcast::Sender::send, which hands the envelope
/// to every receiver subscribed at that moment and fails only where there is
/// none. Who is subscribed depends on other tasks, so nothing is stated of it.
#[verifier::external_body]
fn send_to_subscribers(sender: &Sender<Message>, m: Message) {
    let _ = sender.send(m);
}

/// The one fan-out point that every session subscribes to. It knows nothing
/// of clients: a subscription is the only handle on it.
pub struct Hub {
    sender: Sender<Message>,
    backlog: usize,
}

impl Hub {
    pub closed spec fn backlog_spec(&self) -> usize {
        self.backlog
    }

    /// A hub whose subscribers each keep a backlog of [`BACKLOG`] envelopes.
    pub fn new() -> (r: Hub)
        ensures
            r.backlog_spec() == BACKLOG,
    {
        Hub { sender: open_channel(BACKLOG), backlog: BACKLOG }
    }

    /// How many envelopes a subscriber may at least fall behind.
    pub fn backlog(&self) -> (r: usize)
        ensures
            r == self.backlog_spec(),
    {
        self.backlog
    }

    /// Delivers an envelope to every current subscriber. Publishing never
    /// fails: with nobody subscribed the envelope is dropped.
    pub fn publish(&self, m: Message) {
        send_to_subscribers(&self.sender, m)
    }

    /// The sending half of the hub's channel, from which subscriptions are
    /// taken.
    pub fn sender(&self) -> &Sender<Message> {
        &self.sender
    }
}

} // verus!
