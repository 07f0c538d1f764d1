//! Typed message channels for actors and spawned tasks.
//!
//! A [`System`] keeps one registry of channels for everyone and one for each
//! actor. A channel is looked up by the type of the message it carries and is
//! created on first use. [`TaskHandles`] is the table of the tasks that are
//! still running.

use vstd::prelude::*;

pub mod channel;
pub mod context;
pub mod continuous_stream;
pub mod registry;
pub mod system;

pub use crate::channel::{
    BroadcastChannel, Channel, Message, MpscChannel, ReceiverOf, SenderOf, UnboundedMpscChannel,
    WatchChannel,
};

pub use crate::context::TaskHandles;
pub use crate::continuous_stream::ContinuousStream;
pub use crate::system::System;

verus! {

/// The identity of a spawned task: a number that a [`System`] hands out once.
#[derive(Debug, Copy, Clone, Hash, PartialOrd, PartialEq, Ord, Eq)]
pub struct TaskId(pub(crate) u64);

impl View for TaskId {
    type V = u64;

    closed spec fn view(&self) -> u64 {
        self.0
    }
}

} // verus!
