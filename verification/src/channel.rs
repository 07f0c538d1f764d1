//! What a channel is, and how a message type names the channel that carries it.

use vstd::prelude::*;

pub mod broadcast;
pub mod mpsc;
pub mod watch;

pub use self::broadcast::BroadcastChannel;
pub use self::mpsc::{MpscChannel, UnboundedMpscChannel};
pub use self::watch::WatchChannel;

verus! {

/// A sending side and a receiving side, made together.
///
/// A sender is handed out as often as it is asked for. Handing out a receiver
/// may change what the channel still holds, so that request takes the channel
/// mutably. An implementation says with its spec functions what its channels
/// are like when new and what a request may hand out; the contracts of a
/// registry repeat it for the channels it holds.
pub trait Channel: Send + Sized {
    type Sender;

    type Receiver;

    /// Whether a channel of this type is, as a value, no more than what a
    /// program holds of it while it runs: no part of it is ghost. A registry
    /// keeps channels of every type in one map, which Verus does not read.
    /// Of a type that says yes here the contracts say that the map hands
    /// back the very channel that was put in; of the others, only that it
    /// holds one. Say yes of no type that has a ghost part: of such a value
    /// the map keeps less than the contracts would then claim.
    spec fn plain() -> bool;

    /// Whether the channel is as `create` makes it.
    spec fn fresh(&self) -> bool;

    /// Whether a request for the sender may hand out `sender`.
    spec fn gives_sender(&self, sender: Self::Sender) -> bool;

    /// Whether a request for the receiver may hand out `receiver` and leave
    /// the channel as `after`.
    spec fn gives_receiver(&self, after: Self, receiver: Self::Receiver) -> bool;

    /// A new channel with its usual buffering.
    fn create() -> (channel: Self)
        ensures
            channel.fresh(),
    ;

    /// A new channel for the mailbox of one actor.
    fn actor_create(_actor_id: String) -> (channel: Self)
        ensures
            channel.fresh(),
    {
        Self::create()
    }

    fn sender(&self) -> (sender: Self::Sender)
        ensures
            self.gives_sender(sender),
    ;

    fn receiver(&mut self) -> (receiver: Self::Receiver)
        ensures
            old(self).gives_receiver(*final(self), receiver),
    ;

    fn is_closed(&self) -> bool;
}

/// A message type. It chooses the channel that carries it, and it is the key
/// under which a registry keeps that channel.
pub trait Message: 'static {
    type Channel: Channel;

    fn create_channel() -> (channel: Self::Channel)
        ensures
            channel.fresh(),
    {
        Self::Channel::create()
    }

    fn create_actor_channel(actor_id: String) -> (channel: Self::Channel)
        ensures
            channel.fresh(),
    {
        Self::Channel::actor_create(actor_id)
    }
}

/// The sender of the channel that carries `M`.
pub type SenderOf<M> = <<M as Message>::Channel as Channel>::Sender;

/// The receiver of the channel that carries `M`.
pub type ReceiverOf<M> = <<M as Message>::Channel as Channel>::Receiver;

/// The kind of the message type `M`: the key that its channel has in every
/// registry.
///
/// It is one integer for each type, and it stands for the identity of the
/// type, by which the map of types finds a channel. It is a value that
/// nothing defines: `arbitrary` names it, and the contracts of the map speak
/// over it. Whether two message types have the same kind cannot be decided
/// in a proof.
pub closed spec fn kind_of<M: Message>() -> int {
    arbitrary::<(M, int)>().1
}

} // verus!
