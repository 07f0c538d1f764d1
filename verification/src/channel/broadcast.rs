//! Broadcast: every subscriber sees every message sent after it subscribed.

use crate::channel::Channel;
use tokio::sync::broadcast;
use vstd::prelude::*;

verus! {

#[verifier::external_type_specification]
#[verifier::external_body]
#[verifier::reject_recursive_types(T)]
pub struct ExBroadcastSender<T>(tokio::sync::broadcast::Sender<T>);

#[verifier::external_type_specification]
#[verifier::external_body]
#[verifier::reject_recursive_types(T)]
pub struct ExBroadcastReceiver<T>(tokio::sync::broadcast::Receiver<T>);

/// The largest buffer that a broadcast channel can be made with.
pub open spec fn max_buffer() -> int {
    (usize::MAX / 2) as int
}

/// `tokio::sync::broadcast::channel`: a new broadcast channel. It panics on a
/// capacity of zero and on one above `usize::MAX / 2`, and it allocates the
/// buffer at once; that the memory is there is not part of the contract.
/// Nothing is claimed of the two ends.
#[verifier::external_body]
fn broadcast_pair<T: Clone>(buffer: usize) -> (ends: (broadcast::Sender<T>, broadcast::Receiver<T>))
    requires
        0 < buffer <= max_buffer(),
{
    broadcast::channel(buffer)
}

/// `Clone::clone` of `tokio::sync::broadcast::Sender`: one more handle on the
/// channel of `sender`, equal to it as a value.
#[verifier::external_body]
fn clone_sender<T>(sender: &broadcast::Sender<T>) -> (copy: broadcast::Sender<T>)
    ensures
        copy == *sender,
{
    sender.clone()
}

/// `tokio::sync::broadcast::Sender::subscribe`: a new receiver, which sees what
/// is sent from now on.
#[verifier::external_body]
fn subscribe<T>(sender: &broadcast::Sender<T>) -> broadcast::Receiver<T> {
    sender.subscribe()
}

/// `tokio::sync::broadcast::Sender::receiver_count`: how many receivers are
/// alive, which their holders decide.
#[verifier::external_body]
fn receiver_count<T>(sender: &broadcast::Sender<T>) -> usize {
    sender.receiver_count()
}

/// A broadcast channel. It keeps the sender; receivers are made on request.
#[verifier::reject_recursive_types(T)]
pub struct BroadcastChannel<T> {
    sender: broadcast::Sender<T>,
}

impl<T: Send + Clone> BroadcastChannel<T> {
    /// The sender that every call of `sender` hands out a copy of.
    pub closed spec fn sender_end(&self) -> broadcast::Sender<T> {
        self.sender
    }

    /// A channel that keeps the last `buffer` messages for those who lag.
    pub fn new(buffer: usize) -> (channel: Self)
        requires
            0 < buffer <= max_buffer(),
    {
        let (sender, _receiver) = broadcast_pair(buffer);
        Self { sender }
    }

    /// Whether a channel with so many subscribers is closed: it is while it
    /// has none, since a message sent then reaches no one.
    pub fn closed_with(subscribers: usize) -> (closed: bool)
        ensures
            closed == (subscribers == 0),
    {
        subscribers == 0
    }
}

impl<T: Send + Clone> Channel for BroadcastChannel<T> {
    type Sender = broadcast::Sender<T>;

    type Receiver = broadcast::Receiver<T>;

    /// The channel is made of handles of the outside queue and nothing
    /// ghost.
    open spec fn plain() -> bool {
        true
    }

    open spec fn fresh(&self) -> bool {
        true
    }

    /// Every request hands out a copy of the one sender.
    open spec fn gives_sender(&self, sender: Self::Sender) -> bool {
        sender == self.sender_end()
    }

    /// Every request hands out a new subscription and changes nothing.
    open spec fn gives_receiver(&self, after: Self, receiver: Self::Receiver) -> bool {
        after == *self
    }

    fn create() -> (channel: Self) {
        Self::new(1024)
    }

    fn sender(&self) -> (sender: Self::Sender) {
        clone_sender(&self.sender)
    }

    fn receiver(&mut self) -> (receiver: Self::Receiver) {
        subscribe(&self.sender)
    }

    /// Closed while nobody is subscribed, which the holders of the receivers
    /// decide.
    fn is_closed(&self) -> bool {
        Self::closed_with(receiver_count(&self.sender))
    }
}

} // verus!
