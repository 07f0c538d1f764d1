//! The system: the registry that everyone shares, one registry for each
//! actor, the counter of task ids, and the shutdown of it all.

use crate::channel::watch::replace_latest;
use crate::channel::{kind_of, Channel, Message, ReceiverOf, SenderOf, WatchChannel};
use crate::registry::{
    channel_in, holds, law_registry_settles, receiver_given, sender_given, senders_given,
    works_on, plain, Channels, Slots,
};
use crate::TaskId;
use std::collections::HashMap;
use std::hash::Hash;
use vstd::prelude::*;
use vstd::std_specs::hash::obeys_key_model;

verus! {

/// The message that asks every event loop to stop.
#[derive(Debug, Clone, Copy)]
pub struct SystemShutdown;

impl Message for SystemShutdown {
    type Channel = WatchChannel<Self>;
}

/// Whether `shutdown` has been called.
#[derive(Debug, Clone, Copy, PartialEq, Eq, Structural)]
pub enum Phase {
    Running,
    ShuttingDown,
}

/// What an event loop that is about to start has to do.
#[derive(Debug, Clone, Copy, PartialEq, Eq, Structural)]
pub enum LoopPlan {
    /// Wait for events and for the shutdown message, and stop on that message.
    UntilShutdown,
    /// Handle what is ready now, once, without waiting, and stop.
    SinglePass,
}

/// The plan of an event loop, by the phase of the system and by what the
/// shared shutdown channel says of itself where there is one.
pub open spec fn plan_of(phase: Phase, closed: Option<bool>) -> LoopPlan {
    if phase == Phase::ShuttingDown || closed == Some(true) {
        LoopPlan::SinglePass
    } else {
        LoopPlan::UntilShutdown
    }
}

/// The plan of an event loop: a single pass once the system shuts down or
/// the shutdown channel is closed, since no message would end the wait.
pub fn loop_plan(phase: Phase, closed: Option<bool>) -> (plan: LoopPlan)
    ensures
        plan == plan_of(phase, closed),
{
    match (phase, closed) {
        (Phase::ShuttingDown, _) => LoopPlan::SinglePass,
        (Phase::Running, Some(true)) => LoopPlan::SinglePass,
        (Phase::Running, _) => LoopPlan::UntilShutdown,
    }
}

/// Whether a wait for the shutdown has seen it: the system shuts down
/// already, or the channel reported a change and holds the message.
pub open spec fn seen_of(phase: Phase, changed: bool, latest: Option<SystemShutdown>) -> bool {
    phase == Phase::ShuttingDown || (changed && latest is Some)
}

/// Whether a wait for the shutdown has seen it.
pub fn shutdown_observed(phase: Phase, changed: bool, latest: Option<SystemShutdown>) -> (seen: bool)
    ensures
        seen == seen_of(phase, changed, latest),
{
    match phase {
        Phase::ShuttingDown => true,
        Phase::Running => changed && latest.is_some(),
    }
}

/// Whether a shutdown of a system with this shared registry publishes on
/// `channel`: on the shutdown channel that is held, or on a new one where
/// none is held.
pub open spec fn published_on(global: Slots, channel: WatchChannel<SystemShutdown>) -> bool {
    works_on::<SystemShutdown>(global, |made: WatchChannel<SystemShutdown>| made.fresh(), channel)
}

/// The shutdown is seen by those who come late: once a system shuts down,
/// every wait for the shutdown has seen it, whatever the channel reports, and
/// every event loop that starts makes a single pass.
pub proof fn law_shutdown_reaches_latecomers(
    closed: Option<bool>,
    changed: bool,
    latest: Option<SystemShutdown>,
)
    ensures
        seen_of(Phase::ShuttingDown, changed, latest),
        plan_of(Phase::ShuttingDown, closed) == LoopPlan::SinglePass,
{
}

/// What a system is, for the contracts.
#[verifier::reject_recursive_types(ActorId)]
pub struct SystemView<ActorId> {
    /// The number of the task id that is handed out next.
    pub next_task: u64,
    /// The registry that is shared by everyone.
    pub global: Slots,
    /// The registries of the actors that have one.
    pub scopes: Map<ActorId, Slots>,
    pub phase: Phase,
}

impl<ActorId> SystemView<ActorId> {
    /// A system as it starts.
    pub open spec fn initial() -> Self {
        SystemView { next_task: 1, global: Slots::empty(), scopes: Map::empty(), phase: Phase::Running }
    }

    /// The registry of an actor; that of an actor without one holds nothing.
    pub open spec fn scope(self, actor_id: ActorId) -> Slots {
        if self.scopes.contains_key(actor_id) {
            self.scopes[actor_id]
        } else {
            Slots::empty()
        }
    }

    pub open spec fn with_global(self, global: Slots) -> Self {
        SystemView { global, ..self }
    }

    pub open spec fn with_scopes(self, scopes: Map<ActorId, Slots>) -> Self {
        SystemView { scopes, ..self }
    }
}

/// `std::collections::HashMap::get_mut`: the value under `key`, if there is
/// one, to be changed in place. The map then holds under `key` what the
/// caller leaves there, and nothing else is touched.
#[verifier::external_body]
fn value_mut<'a, K: Eq + Hash, V>(map: &'a mut HashMap<K, V>, key: &K) -> (found: Option<&'a mut V>)
    ensures
        obeys_key_model::<K>() ==> match found {
            Some(value) => {
                &&& old(map)@.contains_key(*key)
                &&& *value == old(map)@[*key]
                &&& final(map)@ == old(map)@.insert(*key, *final(value))
            },
            None => !old(map)@.contains_key(*key) && final(map)@ == old(map)@,
        },
{
    map.get_mut(key)
}

/// The registries, the counter of task ids and the phase, owned in one place.
#[verifier::reject_recursive_types(ActorId)]
pub struct System<ActorId> {
    next_task_id: TaskId,
    channels: Channels,
    actor_channels: HashMap<ActorId, Channels>,
    phase: Phase,
}

impl<ActorId> View for System<ActorId> {
    type V = SystemView<ActorId>;

    closed spec fn view(&self) -> SystemView<ActorId> {
        SystemView {
            next_task: self.next_task_id@,
            global: self.channels@,
            scopes: self.actor_channels@.map_values(|channels: Channels| channels@),
            phase: self.phase,
        }
    }
}

impl<ActorId> Default for System<ActorId> {
    fn default() -> (system: Self)
        ensures
            system@ == SystemView::<ActorId>::initial(),
    {
        let system = Self {
            next_task_id: TaskId(1),
            channels: Channels::default(),
            actor_channels: HashMap::new(),
            phase: Phase::Running,
        };
        assert(system@.scopes =~= Map::empty());
        system
    }
}

impl<ActorId> System<ActorId> {
    /// The channel of `M` in the shared registry, if there is one. Nothing is
    /// made.
    pub fn get_channel<M: Message>(&self) -> (found: Option<&M::Channel>)
        ensures
            found is Some <==> holds::<M>(self@.global),
            plain::<M>() ==> (found matches Some(channel) ==> channel_in::<M>(self@.global)
                == Some(*channel)),
    {
        self.channels.get::<M>()
    }

    /// Takes the channel of `M` out of the shared registry, if there is one.
    /// Ends that were handed out before stay with that channel.
    pub fn extract_channel<M: Message>(&mut self) -> (found: Option<M::Channel>)
        ensures
            found is Some <==> holds::<M>(old(self)@.global),
            plain::<M>() ==> found == channel_in::<M>(old(self)@.global),
            final(self)@ == old(self)@.with_global(old(self)@.global.remove(kind_of::<M>())),
    {
        self.channels.remove::<M>()
    }

    /// The sender of the channel of `M` in the shared registry. Where there is
    /// none, the channel that `constructor` makes is stored first; where there
    /// is one, `constructor` is not called.
    pub fn sender_of_custom_channel<M: Message>(
        &mut self,
        constructor: impl FnOnce() -> M::Channel,
    ) -> (sender: SenderOf<M>)
        requires
            !holds::<M>(old(self)@.global) ==> call_requires(constructor, ()),
        ensures
            shared_sender_given::<ActorId, M>(
                old(self)@,
                |made: M::Channel| call_ensures(constructor, (), made),
                final(self)@,
                sender,
            ),
    {
        self.channels.sender::<M>(constructor)
    }

    /// The receiver of the channel of `M` in the shared registry. Where there
    /// is none, the channel that `constructor` makes is stored first; where
    /// there is one, `constructor` is not called.
    pub fn receiver_of_custom_channel<M: Message>(
        &mut self,
        constructor: impl FnOnce() -> M::Channel,
    ) -> (receiver: ReceiverOf<M>)
        requires
            !holds::<M>(old(self)@.global) ==> call_requires(constructor, ()),
        ensures
            receiver_given::<M>(
                old(self)@.global,
                |made: M::Channel| call_ensures(constructor, (), made),
                final(self)@.global,
                receiver,
            ),
            final(self)@ == old(self)@.with_global(final(self)@.global),
    {
        self.channels.receiver::<M>(constructor)
    }

    /// The sender of the channel of `M` in the shared registry. Where there is
    /// none, a new channel is stored first.
    pub fn sender<M: Message>(&mut self) -> (sender: SenderOf<M>)
        ensures
            shared_sender_given::<ActorId, M>(
                old(self)@,
                |made: M::Channel| made.fresh(),
                final(self)@,
                sender,
            ),
    {
        let constructor = || -> (made: M::Channel)
            ensures
                made.fresh(),
            {
                M::create_channel()
            };
        self.sender_of_custom_channel::<M>(constructor)
    }

    /// The receiver of the channel of `M` in the shared registry. Where there
    /// is none, a new channel is stored first.
    pub fn receiver<M: Message>(&mut self) -> (receiver: ReceiverOf<M>)
        ensures
            receiver_given::<M>(
                old(self)@.global,
                |made: M::Channel| made.fresh(),
                final(self)@.global,
                receiver,
            ),
            final(self)@ == old(self)@.with_global(final(self)@.global),
    {
        let constructor = || -> (made: M::Channel)
            ensures
                made.fresh(),
            {
                M::create_channel()
            };
        self.receiver_of_custom_channel::<M>(constructor)
    }

    /// The sender of the channel of `M` in the shared registry, if there is
    /// one. Nothing is made.
    pub fn get_sender<M: Message>(&self) -> (found: Option<SenderOf<M>>)
        ensures
            found is Some <==> holds::<M>(self@.global),
            plain::<M>() ==> (found matches Some(sender) ==> channel_in::<M>(
                self@.global,
            ).unwrap().gives_sender(sender)),
    {
        match self.channels.get::<M>() {
            Some(channel) => Some(channel.sender()),
            None => None,
        }
    }

    /// The receiver of the channel of `M` in the shared registry, if there is
    /// one. Nothing is made: the channel that is held hands out the receiver,
    /// as on a request that finds it.
    pub fn get_receiver<M: Message>(&mut self) -> (found: Option<ReceiverOf<M>>)
        ensures
            found is Some <==> holds::<M>(old(self)@.global),
            final(self)@ == old(self)@.with_global(final(self)@.global),
            match found {
                Some(receiver) => receiver_given::<M>(
                    old(self)@.global,
                    |made: M::Channel| false,
                    final(self)@.global,
                    receiver,
                ),
                None => final(self)@ == old(self)@,
            },
    {
        match self.channels.get_mut::<M>() {
            Some(channel) => Some(channel.receiver()),
            None => None,
        }
    }

    /// Whether the channel of `M` in the shared registry is closed, if there
    /// is one. What the answer is, the holders of its ends decide.
    pub fn is_channel_closed<M: Message>(&self) -> (closed: Option<bool>)
        ensures
            closed is Some <==> holds::<M>(self@.global),
    {
        match self.channels.get::<M>() {
            Some(channel) => Some(channel.is_closed()),
            None => None,
        }
    }

    /// Empties the shared registry. Ends that were handed out stay with their
    /// channels.
    pub fn close_all_channels(&mut self)
        ensures
            final(self)@ == old(self)@.with_global(Slots::empty()),
    {
        self.channels.clear();
    }

    /// Whether `next_task_id` can still be called.
    pub fn has_task_id(&self) -> (left: bool)
        ensures
            left == (self@.next_task < u64::MAX),
    {
        self.next_task_id.0 < u64::MAX
    }

    /// A task id that was not handed out before: each is one above the last.
    pub fn next_task_id(&mut self) -> (task_id: TaskId)
        requires
            old(self)@.next_task < u64::MAX,
        ensures
            task_id@ == old(self)@.next_task,
            final(self)@ == (SystemView { next_task: (old(self)@.next_task + 1) as u64, ..old(self)@ }),
    {
        let task_id = self.next_task_id;
        self.next_task_id = TaskId(task_id.0 + 1);
        task_id
    }

    /// Whether the system runs or shuts down.
    pub fn phase(&self) -> (phase: Phase)
        ensures
            phase == self@.phase,
    {
        self.phase
    }

    /// Starts an event loop: says in one step what the loop has to do and
    /// hands out what it needs for it. With a receiver of the shutdown
    /// channel the loop waits for events and for the shutdown; with none it
    /// makes a single pass. No shutdown can come between the plan and the
    /// subscription.
    pub fn start_event_loop(&mut self) -> (shutdown_in: Option<ReceiverOf<SystemShutdown>>)
        ensures
            exists|closed: Option<bool>|
                {
                    &&& closed is Some <==> holds::<SystemShutdown>(old(self)@.global)
                    &&& shutdown_in is Some <==> #[trigger] plan_of(old(self)@.phase, closed)
                        == LoopPlan::UntilShutdown
                },
            final(self)@ == old(self)@.with_global(final(self)@.global),
            match shutdown_in {
                Some(receiver) => receiver_given::<SystemShutdown>(
                    old(self)@.global,
                    |made: WatchChannel<SystemShutdown>| made.fresh(),
                    final(self)@.global,
                    receiver,
                ),
                None => final(self)@ == old(self)@,
            },
    {
        let closed = self.is_channel_closed::<SystemShutdown>();
        match loop_plan(self.phase, closed) {
            LoopPlan::UntilShutdown => Some(self.receiver::<SystemShutdown>()),
            LoopPlan::SinglePass => None,
        }
    }

    /// Publishes the shutdown message on the shared channel for it, which is
    /// made where there is none, and then empties the shared registry but for
    /// that channel, so that those who subscribe later find the message. The
    /// registries of the actors stay as they are.
    pub fn shutdown(&mut self)
        ensures
            final(self)@ == (SystemView {
                global: final(self)@.global,
                phase: Phase::ShuttingDown,
                ..old(self)@
            }),
            forall|kind: int| #[trigger]
                final(self)@.global.contains_key(kind) <==> kind == kind_of::<SystemShutdown>(),
            channel_in::<SystemShutdown>(final(self)@.global) matches Some(channel)
                && published_on(old(self)@.global, channel),
    {
        let sender = self.sender::<SystemShutdown>();
        let ghost published = channel_in::<SystemShutdown>(self@.global);
        let _ = replace_latest(&sender, Some(SystemShutdown));
        self.channels.clear_but::<SystemShutdown>();
        self.phase = Phase::ShuttingDown;
        proof {
            assert(published_on(old(self)@.global, published.unwrap()));
        }
    }
}

impl<ActorId: Eq + Hash> System<ActorId> {
    /// Whether the contracts can speak of the registries of the actors: they
    /// do where an actor id is a key as the hash map expects it.
    pub open spec fn keyed() -> bool {
        obeys_key_model::<ActorId>()
    }

    /// The channel of `M` in the registry of an actor, if there is one.
    /// Nothing is made, not even the registry.
    pub fn get_actor_channel<M: Message>(&self, actor_id: &ActorId) -> (found: Option<&M::Channel>)
        ensures
            Self::keyed() ==> (found is Some <==> holds::<M>(self@.scope(*actor_id))),
            Self::keyed() && plain::<M>() ==> (found matches Some(channel) ==> channel_in::<M>(
                self@.scope(*actor_id),
            ) == Some(*channel)),
    {
        broadcast use vstd::std_specs::hash::group_hash_axioms;

        match self.actor_channels.get(actor_id) {
            Some(channels) => channels.get::<M>(),
            None => None,
        }
    }

    /// Takes the channel of `M` out of the registry of an actor, if there is
    /// one. No registry is made or removed.
    pub fn extract_actor_channel<M: Message>(&mut self, actor_id: &ActorId) -> (found: Option<
        M::Channel,
    >)
        ensures
            final(self)@ == old(self)@.with_scopes(final(self)@.scopes),
            Self::keyed() ==> (found is Some <==> holds::<M>(old(self)@.scope(*actor_id))),
            Self::keyed() && plain::<M>() ==> found == channel_in::<M>(
                old(self)@.scope(*actor_id),
            ),
            Self::keyed() ==> final(self)@.scopes == if old(self)@.scopes.contains_key(*actor_id) {
                old(self)@.scopes.insert(
                    *actor_id,
                    old(self)@.scope(*actor_id).remove(kind_of::<M>()),
                )
            } else {
                old(self)@.scopes
            },
    {
        let found = match value_mut(&mut self.actor_channels, actor_id) {
            Some(channels) => channels.remove::<M>(),
            None => None,
        };
        assert(Self::keyed() ==> final(self)@.scopes =~= if old(self)@.scopes.contains_key(*actor_id) {
            old(self)@.scopes.insert(*actor_id, old(self)@.scope(*actor_id).remove(kind_of::<M>()))
        } else {
            old(self)@.scopes
        });
        found
    }

    /// The sender of the channel of `M` in the registry of an actor. The
    /// registry is made where the actor has none, and the channel by
    /// `constructor` where the registry holds none.
    pub fn actor_sender_of_custom_channel<M: Message>(
        &mut self,
        actor_id: ActorId,
        constructor: impl FnOnce() -> M::Channel,
    ) -> (sender: SenderOf<M>)
        requires
            (Self::keyed() && holds::<M>(old(self)@.scope(actor_id))) || call_requires(
                constructor,
                (),
            ),
        ensures
            final(self)@ == old(self)@.with_scopes(final(self)@.scopes),
            Self::keyed() ==> actor_sender_given::<ActorId, M>(
                old(self)@,
                actor_id,
                |made: M::Channel| call_ensures(constructor, (), made),
                final(self)@,
                sender,
            ),
    {
        broadcast use vstd::std_specs::hash::group_hash_axioms;

        let channels = self.actor_channels.entry(actor_id).or_insert(Channels::default());
        let sender = channels.sender::<M>(constructor);
        assert(Self::keyed() ==> final(self)@.scopes =~= old(self)@.scopes.insert(
            actor_id,
            final(self)@.scope(actor_id),
        ));
        sender
    }

    /// The receiver of the channel of `M` in the registry of an actor. The
    /// registry is made where the actor has none, and the channel by
    /// `constructor` where the registry holds none.
    pub fn actor_receiver_of_custom_channel<M: Message>(
        &mut self,
        actor_id: ActorId,
        constructor: impl FnOnce() -> M::Channel,
    ) -> (receiver: ReceiverOf<M>)
        requires
            (Self::keyed() && holds::<M>(old(self)@.scope(actor_id))) || call_requires(
                constructor,
                (),
            ),
        ensures
            final(self)@ == old(self)@.with_scopes(final(self)@.scopes),
            Self::keyed() ==> receiver_given::<M>(
                old(self)@.scope(actor_id),
                |made: M::Channel| call_ensures(constructor, (), made),
                final(self)@.scope(actor_id),
                receiver,
            ),
            Self::keyed() ==> final(self)@.scopes == old(self)@.scopes.insert(
                actor_id,
                final(self)@.scope(actor_id),
            ),
    {
        broadcast use vstd::std_specs::hash::group_hash_axioms;

        let channels = self.actor_channels.entry(actor_id).or_insert(Channels::default());
        let receiver = channels.receiver::<M>(constructor);
        assert(Self::keyed() ==> final(self)@.scopes =~= old(self)@.scopes.insert(
            actor_id,
            final(self)@.scope(actor_id),
        ));
        receiver
    }

    /// The sender of the channel of `M` in the registry of an actor. The
    /// registry and the channel are made where they are missing.
    pub fn actor_sender<M: Message>(&mut self, actor_id: ActorId) -> (sender: SenderOf<M>)
        ensures
            final(self)@ == old(self)@.with_scopes(final(self)@.scopes),
            Self::keyed() ==> actor_sender_given::<ActorId, M>(
                old(self)@,
                actor_id,
                |made: M::Channel| made.fresh(),
                final(self)@,
                sender,
            ),
    {
        let constructor = || -> (made: M::Channel)
            ensures
                made.fresh(),
            {
                M::create_channel()
            };
        self.actor_sender_of_custom_channel::<M>(actor_id, constructor)
    }

    /// The receiver of the channel of `M` in the registry of an actor. The
    /// registry and the channel are made where they are missing.
    pub fn actor_receiver<M: Message>(&mut self, actor_id: ActorId) -> (receiver: ReceiverOf<M>)
        ensures
            final(self)@ == old(self)@.with_scopes(final(self)@.scopes),
            Self::keyed() ==> receiver_given::<M>(
                old(self)@.scope(actor_id),
                |made: M::Channel| made.fresh(),
                final(self)@.scope(actor_id),
                receiver,
            ),
            Self::keyed() ==> final(self)@.scopes == old(self)@.scopes.insert(
                actor_id,
                final(self)@.scope(actor_id),
            ),
    {
        let constructor = || -> (made: M::Channel)
            ensures
                made.fresh(),
            {
                M::create_channel()
            };
        self.actor_receiver_of_custom_channel::<M>(actor_id, constructor)
    }

    /// The sender of the channel of `M` in the registry of an actor, if there
    /// is one. Nothing is made.
    pub fn get_actor_sender<M: Message>(&self, actor_id: &ActorId) -> (found: Option<SenderOf<M>>)
        ensures
            Self::keyed() ==> (found is Some <==> holds::<M>(self@.scope(*actor_id))),
            Self::keyed() && plain::<M>() ==> (found matches Some(sender) ==> channel_in::<M>(
                self@.scope(*actor_id),
            ).unwrap().gives_sender(sender)),
    {
        match self.get_actor_channel::<M>(actor_id) {
            Some(channel) => Some(channel.sender()),
            None => None,
        }
    }

    /// The receiver of the channel of `M` in the registry of an actor, if
    /// there is one. Nothing is made.
    pub fn get_actor_receiver<M: Message>(&mut self, actor_id: &ActorId) -> (found: Option<
        ReceiverOf<M>,
    >)
        ensures
            final(self)@ == old(self)@.with_scopes(final(self)@.scopes),
            Self::keyed() ==> (found is Some <==> holds::<M>(old(self)@.scope(*actor_id))),
            Self::keyed() ==> match found {
                Some(receiver) => {
                    &&& receiver_given::<M>(
                        old(self)@.scope(*actor_id),
                        |made: M::Channel| false,
                        final(self)@.scope(*actor_id),
                        receiver,
                    )
                    &&& final(self)@.scopes == old(self)@.scopes.insert(
                        *actor_id,
                        final(self)@.scope(*actor_id),
                    )
                },
                None => final(self)@ == old(self)@,
            },
    {
        let found = match value_mut(&mut self.actor_channels, actor_id) {
            Some(channels) => match channels.get_mut::<M>() {
                Some(channel) => Some(channel.receiver()),
                None => None,
            },
            None => None,
        };
        assert(Self::keyed() ==> match found {
            Some(receiver) => final(self)@.scopes =~= old(self)@.scopes.insert(
                *actor_id,
                final(self)@.scope(*actor_id),
            ),
            None => final(self)@.scopes =~= old(self)@.scopes,
        });
        found
    }

    /// Whether the channel of `M` in the registry of an actor is closed, if
    /// there is one. What the answer is, the holders of its ends decide.
    pub fn is_actor_channel_closed<M: Message>(&self, actor_id: &ActorId) -> (closed: Option<bool>)
        ensures
            Self::keyed() ==> (closed is Some <==> holds::<M>(self@.scope(*actor_id))),
    {
        match self.get_actor_channel::<M>(actor_id) {
            Some(channel) => Some(channel.is_closed()),
            None => None,
        }
    }
}

/// What a request for the sender of `M` in the shared registry does to a
/// system: what it does to that registry, and nothing else.
pub open spec fn shared_sender_given<ActorId, M: Message>(
    before: SystemView<ActorId>,
    made: spec_fn(M::Channel) -> bool,
    after: SystemView<ActorId>,
    sender: SenderOf<M>,
) -> bool {
    &&& sender_given::<M>(before.global, made, after.global, sender)
    &&& after == before.with_global(after.global)
}

/// What a request for the sender of `M` in the registry of an actor does to
/// a system: what it does to that registry, which the actor has afterwards,
/// and nothing else.
pub open spec fn actor_sender_given<ActorId, M: Message>(
    before: SystemView<ActorId>,
    actor_id: ActorId,
    made: spec_fn(M::Channel) -> bool,
    after: SystemView<ActorId>,
    sender: SenderOf<M>,
) -> bool {
    &&& sender_given::<M>(before.scope(actor_id), made, after.scope(actor_id), sender)
    &&& after.scopes == before.scopes.insert(actor_id, after.scope(actor_id))
    &&& after == before.with_scopes(after.scopes)
}

/// Whether `senders` are what as many requests in a row for the sender of
/// `M` in the shared registry hand out, where `views` are the system before
/// the first request and after each.
pub open spec fn shared_senders_given<ActorId, M: Message>(
    views: Seq<SystemView<ActorId>>,
    made: Seq<spec_fn(M::Channel) -> bool>,
    senders: Seq<SenderOf<M>>,
) -> bool {
    &&& views.len() == senders.len() + 1
    &&& made.len() == senders.len()
    &&& forall|i: int|
        0 <= i < senders.len() ==> shared_sender_given::<ActorId, M>(
            views[i],
            made[i],
            views[i + 1],
            #[trigger] senders[i],
        )
}

/// Whether `senders` are what as many requests in a row for the sender of
/// `M` in the registry of one actor hand out, where `views` are the system
/// before the first request and after each.
pub open spec fn actor_senders_given<ActorId, M: Message>(
    views: Seq<SystemView<ActorId>>,
    actor_id: ActorId,
    made: Seq<spec_fn(M::Channel) -> bool>,
    senders: Seq<SenderOf<M>>,
) -> bool {
    &&& views.len() == senders.len() + 1
    &&& made.len() == senders.len()
    &&& forall|i: int|
        0 <= i < senders.len() ==> actor_sender_given::<ActorId, M>(
            views[i],
            actor_id,
            made[i],
            views[i + 1],
            #[trigger] senders[i],
        )
}

/// However many requests for the sender of one kind in the shared registry
/// come in a row, the first one sets the channel up and the others leave the
/// system as it is; the registries of the actors, the counter and the phase
/// are never touched. The requests are those of one registry, so that what
/// holds of `senders_given` holds of them.
pub proof fn law_shared_requests_settle<ActorId, M: Message>(
    views: Seq<SystemView<ActorId>>,
    made: Seq<spec_fn(M::Channel) -> bool>,
    senders: Seq<SenderOf<M>>,
    at: int,
)
    requires
        shared_senders_given::<ActorId, M>(views, made, senders),
        0 <= at < views.len(),
    ensures
        senders_given::<M>(views.map_values(|view: SystemView<ActorId>| view.global), made, senders),
        views[at] == views[0].with_global(views[at].global),
        at >= 1 ==> views[at] == views[1],
    decreases at,
{
    let globals = views.map_values(|view: SystemView<ActorId>| view.global);
    assert forall|i: int| 0 <= i < senders.len() implies sender_given::<M>(
        globals[i],
        made[i],
        globals[i + 1],
        #[trigger] senders[i],
    ) by {
        assert(shared_sender_given::<ActorId, M>(views[i], made[i], views[i + 1], senders[i]));
    }
    if at >= 1 {
        law_shared_requests_settle::<ActorId, M>(views, made, senders, at - 1);
        assert(shared_sender_given::<ActorId, M>(
            views[at - 1],
            made[at - 1],
            views[at],
            senders[at - 1],
        ));
        law_registry_settles::<M>(globals, made, senders, at);
    }
}

/// The same of the registry of one actor: however many requests for the
/// sender of one kind come in a row for that actor, the first one sets the
/// registry and the channel up and the others leave the system as it is; the
/// shared registry and the registries of the other actors are never touched.
pub proof fn law_actor_requests_settle<ActorId, M: Message>(
    views: Seq<SystemView<ActorId>>,
    actor_id: ActorId,
    made: Seq<spec_fn(M::Channel) -> bool>,
    senders: Seq<SenderOf<M>>,
    at: int,
)
    requires
        actor_senders_given::<ActorId, M>(views, actor_id, made, senders),
        0 <= at < views.len(),
    ensures
        senders_given::<M>(
            views.map_values(|view: SystemView<ActorId>| view.scope(actor_id)),
            made,
            senders,
        ),
        views[at] == views[0].with_scopes(views[at].scopes),
        forall|other: ActorId|
            other != actor_id ==> #[trigger] views[at].scope(other) == views[0].scope(other),
        at >= 1 ==> views[at] == views[1],
    decreases at,
{
    let scopes = views.map_values(|view: SystemView<ActorId>| view.scope(actor_id));
    assert forall|i: int| 0 <= i < senders.len() implies sender_given::<M>(
        scopes[i],
        made[i],
        scopes[i + 1],
        #[trigger] senders[i],
    ) by {
        assert(actor_sender_given::<ActorId, M>(
            views[i],
            actor_id,
            made[i],
            views[i + 1],
            senders[i],
        ));
    }
    if at >= 1 {
        law_actor_requests_settle::<ActorId, M>(views, actor_id, made, senders, at - 1);
        assert(actor_sender_given::<ActorId, M>(
            views[at - 1],
            actor_id,
            made[at - 1],
            views[at],
            senders[at - 1],
        ));
        law_registry_settles::<M>(scopes, made, senders, at);
        if at >= 2 {
            law_registry_settles::<M>(scopes, made, senders, at - 1);
            assert(views[at].scopes =~= views[at - 1].scopes);
        }
    }
}

} // verus!
