//! Watch: receivers see the latest value.

use crate::channel::Channel;
use tokio::sync::watch;
use vstd::prelude::*;

verus! {

#[verifier::external_type_specification]
#[verifier::external_body]
#[verifier::reject_recursive_types(T)]
pub struct ExWatchSender<T>(tokio::sync::watch::Sender<T>);

#[verifier::external_type_specification]
#[verifier::external_body]
#[verifier::reject_recursive_types(T)]
pub struct ExWatchReceiver<T>(tokio::sync::watch::Receiver<T>);

/// `tokio::sync::watch::channel`: a new watch channel that holds `init`.
/// Nothing is claimed of the two ends.
#[verifier::external_body]
fn watch_pair<T>(init: T) -> (ends: (watch::Sender<T>, watch::Receiver<T>)) {
    watch::channel(init)
}

/// `Clone::clone` of `tokio::sync::watch::Sender`: one more handle on the
/// channel of `sender`, equal to it as a value.
#[verifier::external_body]
fn clone_sender<T>(sender: &watch::Sender<T>) -> (copy: watch::Sender<T>)
    ensures
        copy == *sender,
{
    sender.clone()
}

/// `Clone::clone` of `tokio::sync::watch::Receiver`: one more handle on the
/// channel of `receiver`, which has seen what `receiver` has seen; equal to it
/// as a value.
#[verifier::external_body]
fn clone_receiver<T>(receiver: &watch::Receiver<T>) -> (copy: watch::Receiver<T>)
    ensures
        copy == *receiver,
{
    receiver.clone()
}

/// `tokio::sync::watch::Receiver::is_closed`: whether every sender was
/// dropped, which their holders decide.
#[verifier::external_body]
fn receiver_closed<T>(receiver: &watch::Receiver<T>) -> bool {
    receiver.is_closed()
}

/// `tokio::sync::watch::Sender::send_replace`: makes `value` the latest value
/// of the channel, with or without receivers, and returns the value that was
/// the latest before, of which nothing is claimed. It waits as long as a
/// receiver keeps a borrow of the value.
#[verifier::external_body]
pub(crate) fn replace_latest<T>(sender: &watch::Sender<T>, value: T) -> T {
    sender.send_replace(value)
}

/// A watch channel that starts without a value. It keeps a sender and a
/// receiver and hands out copies of them.
#[verifier::reject_recursive_types(T)]
pub struct WatchChannel<T> {
    sender: watch::Sender<Option<T>>,
    receiver: watch::Receiver<Option<T>>,
}

impl<T: Send + Sync> WatchChannel<T> {
    /// The sender that every call of `sender` hands out a copy of.
    pub closed spec fn sender_end(&self) -> watch::Sender<Option<T>> {
        self.sender
    }

    /// The receiver that every call of `receiver` hands out a copy of. It has
    /// seen no value, so a copy finds the latest value new.
    pub closed spec fn receiver_end(&self) -> watch::Receiver<Option<T>> {
        self.receiver
    }
}

impl<T: Send + Sync> Channel for WatchChannel<T> {
    type Sender = watch::Sender<Option<T>>;

    type Receiver = watch::Receiver<Option<T>>;

    /// The channel is made of handles of the outside queue and nothing
    /// ghost.
    open spec fn plain() -> bool {
        true
    }

    open spec fn fresh(&self) -> bool {
        true
    }

    /// Every request hands out a copy of the one sender.
    open spec fn gives_sender(&self, sender: Self::Sender) -> bool {
        sender == self.sender_end()
    }

    /// Every request hands out a copy of the one receiver and changes nothing.
    open spec fn gives_receiver(&self, after: Self, receiver: Self::Receiver) -> bool {
        &&& receiver == self.receiver_end()
        &&& after == *self
    }

    fn create() -> (channel: Self) {
        let (sender, receiver) = watch_pair(None);
        Self { sender, receiver }
    }

    fn sender(&self) -> (sender: Self::Sender) {
        clone_sender(&self.sender)
    }

    fn receiver(&mut self) -> (receiver: Self::Receiver) {
        clone_receiver(&self.receiver)
    }

    /// Closed once no sender is left, so not while the channel itself keeps
    /// one.
    fn is_closed(&self) -> bool {
        receiver_closed(&self.receiver)
    }
}

} // verus!
