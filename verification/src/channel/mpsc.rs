//! Point-to-point queues: many senders, one receiver.

use crate::channel::Channel;
use tokio::sync::mpsc;
use vstd::prelude::*;

verus! {

#[verifier::external_type_specification]
#[verifier::external_body]
#[verifier::reject_recursive_types(T)]
pub struct ExSender<T>(tokio::sync::mpsc::Sender<T>);

#[verifier::external_type_specification]
#[verifier::external_body]
#[verifier::reject_recursive_types(T)]
pub struct ExReceiver<T>(tokio::sync::mpsc::Receiver<T>);

#[verifier::external_type_specification]
#[verifier::external_body]
#[verifier::reject_recursive_types(T)]
pub struct ExUnboundedSender<T>(tokio::sync::mpsc::UnboundedSender<T>);

#[verifier::external_type_specification]
#[verifier::external_body]
#[verifier::reject_recursive_types(T)]
pub struct ExUnboundedReceiver<T>(tokio::sync::mpsc::UnboundedReceiver<T>);

/// The largest buffer that a bounded queue can be made with.
pub open spec fn max_buffer() -> int {
    (usize::MAX / 8) as int
}

/// `tokio::sync::mpsc::channel`: a new bounded queue. It panics on a buffer of
/// zero and on one above `Semaphore::MAX_PERMITS`, which is `usize::MAX >> 3`.
/// Nothing is claimed of the two ends.
#[verifier::external_body]
fn bounded_pair<T>(buffer: usize) -> (ends: (mpsc::Sender<T>, mpsc::Receiver<T>))
    requires
        0 < buffer <= max_buffer(),
{
    mpsc::channel(buffer)
}

/// `Clone::clone` of `tokio::sync::mpsc::Sender`: one more handle on the
/// channel of `sender`, equal to it as a value.
#[verifier::external_body]
fn clone_sender<T>(sender: &mpsc::Sender<T>) -> (copy: mpsc::Sender<T>)
    ensures
        copy == *sender,
{
    sender.clone()
}

/// `tokio::sync::mpsc::Sender::is_closed`: whether the receiver was dropped or
/// closed, which other holders decide.
#[verifier::external_body]
fn sender_closed<T>(sender: &mpsc::Sender<T>) -> bool {
    sender.is_closed()
}

/// A bounded queue that keeps its sender and, until it is asked for, its
/// receiver.
#[verifier::reject_recursive_types(T)]
pub struct MpscChannel<T> {
    sender: mpsc::Sender<T>,
    receiver: Option<mpsc::Receiver<T>>,
}

impl<T: Send> MpscChannel<T> {
    /// The sender that every call of `sender` hands out a copy of.
    pub closed spec fn sender_end(&self) -> mpsc::Sender<T> {
        self.sender
    }

    /// The receiver, as long as nobody has asked for it.
    pub closed spec fn receiver_end(&self) -> Option<mpsc::Receiver<T>> {
        self.receiver
    }

    pub fn new(buffer: usize) -> (channel: Self)
        requires
            0 < buffer <= max_buffer(),
        ensures
            channel.receiver_end() is Some,
    {
        let (sender, receiver) = bounded_pair(buffer);
        Self { sender, receiver: Some(receiver) }
    }

    /// Takes the channel apart into the sender and the receiver, if it is
    /// still there.
    pub fn into_inner(self) -> (ends: (mpsc::Sender<T>, Option<mpsc::Receiver<T>>))
        ensures
            ends.0 == self.sender_end(),
            ends.1 == self.receiver_end(),
    {
        (self.sender, self.receiver)
    }
}

impl<T: Send> Channel for MpscChannel<T> {
    type Sender = mpsc::Sender<T>;

    type Receiver = mpsc::Receiver<T>;

    /// The channel is made of handles of the outside queue and nothing
    /// ghost.
    open spec fn plain() -> bool {
        true
    }

    open spec fn fresh(&self) -> bool {
        self.receiver_end() is Some
    }

    /// Every request hands out a copy of the one sender.
    open spec fn gives_sender(&self, sender: Self::Sender) -> bool {
        sender == self.sender_end()
    }

    /// The first request hands out the receiver that was held and leaves none.
    /// With none held the request hands out a stand-in, of which nothing is
    /// known here.
    open spec fn gives_receiver(&self, after: Self, receiver: Self::Receiver) -> bool {
        &&& after.sender_end() == self.sender_end()
        &&& after.receiver_end() is None
        &&& self.receiver_end() matches Some(held) ==> receiver == held
    }

    fn create() -> (channel: Self) {
        Self::new(1024)
    }

    fn sender(&self) -> (sender: Self::Sender) {
        clone_sender(&self.sender)
    }

    /// The receiver itself on the first request; afterwards the receiver of a
    /// channel that has no sender, which reports the end at once.
    fn receiver(&mut self) -> (receiver: Self::Receiver) {
        match self.receiver.take() {
            Some(held) => held,
            None => {
                let (_sender, stand_in) = bounded_pair(1);
                stand_in
            },
        }
    }

    fn is_closed(&self) -> bool {
        sender_closed(&self.sender)
    }
}

/// `tokio::sync::mpsc::unbounded_channel`: a new queue without a bound.
/// Nothing is claimed of the two ends.
#[verifier::external_body]
fn unbounded_pair<T>() -> (ends: (mpsc::UnboundedSender<T>, mpsc::UnboundedReceiver<T>)) {
    mpsc::unbounded_channel()
}

/// `Clone::clone` of `tokio::sync::mpsc::UnboundedSender`: one more handle on
/// the channel of `sender`, equal to it as a value.
#[verifier::external_body]
fn clone_unbounded_sender<T>(sender: &mpsc::UnboundedSender<T>) -> (copy: mpsc::UnboundedSender<T>)
    ensures
        copy == *sender,
{
    sender.clone()
}

/// `tokio::sync::mpsc::UnboundedSender::is_closed`: whether the receiver was
/// dropped or closed, which other holders decide.
#[verifier::external_body]
fn unbounded_sender_closed<T>(sender: &mpsc::UnboundedSender<T>) -> bool {
    sender.is_closed()
}

/// A queue without a bound that keeps its sender and, until it is asked for,
/// its receiver.
#[verifier::reject_recursive_types(T)]
pub struct UnboundedMpscChannel<T> {
    sender: mpsc::UnboundedSender<T>,
    receiver: Option<mpsc::UnboundedReceiver<T>>,
}

impl<T: Send> Default for UnboundedMpscChannel<T> {
    fn default() -> (channel: Self)
        ensures
            channel.receiver_end() is Some,
    {
        Self::new()
    }
}

impl<T: Send> UnboundedMpscChannel<T> {
    /// The sender that every call of `sender` hands out a copy of.
    pub closed spec fn sender_end(&self) -> mpsc::UnboundedSender<T> {
        self.sender
    }

    /// The receiver, as long as nobody has asked for it.
    pub closed spec fn receiver_end(&self) -> Option<mpsc::UnboundedReceiver<T>> {
        self.receiver
    }

    pub fn new() -> (channel: Self)
        ensures
            channel.receiver_end() is Some,
    {
        let (sender, receiver) = unbounded_pair();
        Self { sender, receiver: Some(receiver) }
    }

    /// Takes the channel apart into the sender and the receiver, if it is
    /// still there.
    pub fn into_inner(self) -> (ends: (mpsc::UnboundedSender<T>, Option<mpsc::UnboundedReceiver<T>>))
        ensures
            ends.0 == self.sender_end(),
            ends.1 == self.receiver_end(),
    {
        (self.sender, self.receiver)
    }
}

impl<T: Send> Channel for UnboundedMpscChannel<T> {
    type Sender = mpsc::UnboundedSender<T>;

    type Receiver = mpsc::UnboundedReceiver<T>;

    /// The channel is made of handles of the outside queue and nothing
    /// ghost.
    open spec fn plain() -> bool {
        true
    }

    open spec fn fresh(&self) -> bool {
        self.receiver_end() is Some
    }

    /// Every request hands out a copy of the one sender.
    open spec fn gives_sender(&self, sender: Self::Sender) -> bool {
        sender == self.sender_end()
    }

    /// The first request hands out the receiver that was held and leaves none.
    /// With none held the request hands out a stand-in, of which nothing is
    /// known here.
    open spec fn gives_receiver(&self, after: Self, receiver: Self::Receiver) -> bool {
        &&& after.sender_end() == self.sender_end()
        &&& after.receiver_end() is None
        &&& self.receiver_end() matches Some(held) ==> receiver == held
    }

    fn create() -> (channel: Self) {
        Self::new()
    }

    fn sender(&self) -> (sender: Self::Sender) {
        clone_unbounded_sender(&self.sender)
    }

    /// The receiver itself on the first request; afterwards the receiver of a
    /// channel that has no sender, which reports the end at once.
    fn receiver(&mut self) -> (receiver: Self::Receiver) {
        match self.receiver.take() {
            Some(held) => held,
            None => {
                let (_sender, stand_in) = unbounded_pair();
                stand_in
            },
        }
    }

    fn is_closed(&self) -> bool {
        unbounded_sender_closed(&self.sender)
    }
}

} // verus!
