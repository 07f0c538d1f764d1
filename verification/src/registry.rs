//! A registry: the channels of one scope, one for each message type at most.

use crate::channel::{
    kind_of, Channel, Message, MpscChannel, ReceiverOf, SenderOf, UnboundedMpscChannel,
};
use std::marker::PhantomData;
use typemap_ors::{Key, SendMap};
use vstd::prelude::*;

verus! {

/// What a registry holds: for each kind that has a channel, the slot of that
/// kind, which is what the registry holds under it, taken by itself: a
/// registry with that one channel and nothing else. Channels of every type
/// are held side by side, so the contracts keep them as slots and read a
/// slot as a channel of the type that is asked for.
pub type Slots = Map<int, Channels>;

/// The channel of `M` that is alone in `slot`. It is a function that nothing
/// defines: `arbitrary` names it, and the contracts of the map speak over it,
/// for the channel types that are plain.
pub closed spec fn alone<M: Message>(slot: Channels) -> M::Channel {
    arbitrary::<spec_fn(Channels) -> M::Channel>()(slot)
}

/// Whether the channels of `M` are plain, so that the contracts say which
/// channel a registry holds for `M`. It is so of every channel type of this
/// library.
pub open spec fn plain<M: Message>() -> bool {
    M::Channel::plain()
}

/// Whether a registry with these slots holds a channel for `M`.
pub open spec fn holds<M: Message>(slots: Slots) -> bool {
    slots.contains_key(kind_of::<M>())
}

/// The channel that a registry with these slots holds for `M`. Which one it
/// is, the contracts say where the channels of `M` are plain.
pub open spec fn channel_in<M: Message>(slots: Slots) -> Option<M::Channel> {
    if holds::<M>(slots) {
        Some(alone::<M>(slots[kind_of::<M>()]))
    } else {
        None
    }
}

/// Whether two registries hold the same for every kind but that of `M`.
pub open spec fn same_but<M: Message>(before: Slots, after: Slots) -> bool {
    after.remove(kind_of::<M>()) == before.remove(kind_of::<M>())
}

/// Whether a request for an end of `M` works on `channel`: on the channel
/// held, and only where none is held on one that `made` admits.
pub open spec fn works_on<M: Message>(
    before: Slots,
    made: spec_fn(M::Channel) -> bool,
    channel: M::Channel,
) -> bool {
    match channel_in::<M>(before) {
        Some(held) => channel == held,
        None => made(channel),
    }
}

/// What a request for the sender of `M` does. A channel of `M` is held
/// afterwards, no other kind is touched, and a registry that held one stays
/// as it was. Where the channels of `M` are plain: the channel that the
/// request works on hands out `sender` and is the one held afterwards.
pub open spec fn sender_given<M: Message>(
    before: Slots,
    made: spec_fn(M::Channel) -> bool,
    after: Slots,
    sender: SenderOf<M>,
) -> bool {
    &&& same_but::<M>(before, after)
    &&& holds::<M>(after)
    &&& holds::<M>(before) ==> after == before
    &&& plain::<M>() ==> exists|channel: M::Channel|
        {
            &&& works_on::<M>(before, made, channel)
            &&& #[trigger] channel.gives_sender(sender)
            &&& channel_in::<M>(after) == Some(channel)
        }
}

/// What a request for the receiver of `M` does. A channel of `M` is held
/// afterwards and no other kind is touched. Where the channels of `M` are
/// plain: the channel that the request works on hands out `receiver`, and
/// what it leaves is held afterwards.
pub open spec fn receiver_given<M: Message>(
    before: Slots,
    made: spec_fn(M::Channel) -> bool,
    after: Slots,
    receiver: ReceiverOf<M>,
) -> bool {
    &&& same_but::<M>(before, after)
    &&& holds::<M>(after)
    &&& plain::<M>() ==> exists|from: M::Channel, to: M::Channel|
        {
            &&& works_on::<M>(before, made, from)
            &&& #[trigger] from.gives_receiver(to, receiver)
            &&& channel_in::<M>(after) == Some(to)
        }
}

/// What is left of a registry that is emptied but for the channel of `M`: no
/// other kind, and the channel of `M` where one was held.
pub open spec fn only_kept<M: Message>(before: Slots, after: Slots) -> bool {
    &&& forall|kind: int| #[trigger]
        after.contains_key(kind) <==> kind == kind_of::<M>() && holds::<M>(before)
    &&& plain::<M>() ==> channel_in::<M>(after) == channel_in::<M>(before)
}

/// The key that the channel of `M` has in the map of types.
struct ChannelKey<M>(PhantomData<M>);

impl<M: Message> Key for ChannelKey<M> {
    type Value = M::Channel;
}

/// The channels of one scope, in a `typemap_ors::SendMap`. Verus does not
/// read the map: what it holds is `slots`, and what is known of `slots` is
/// what the functions below say of the operations of the map.
#[verifier::external_body]
pub struct Channels {
    map: SendMap,
}

/// What the map of a registry holds: the kinds of the key types that have a
/// value, each with the slot that holds that value.
pub uninterp spec fn slots(channels: Channels) -> Slots;

/// `typemap_ors::TypeMap::custom`: a map that holds nothing.
#[verifier::external_body]
fn empty_map() -> (channels: Channels)
    ensures
        slots(channels) == Slots::empty(),
{
    Channels { map: SendMap::custom() }
}

/// `typemap_ors::TypeMap::contains`: whether the map has a value under the
/// key of `M`.
#[verifier::external_body]
fn map_contains<M: Message>(channels: &Channels) -> (found: bool)
    ensures
        found == holds::<M>(slots(*channels)),
{
    channels.map.contains::<ChannelKey<M>>()
}

/// `typemap_ors::TypeMap::insert`: puts `channel` under the key of `M` and
/// returns what was there before, if anything. No other key is touched.
#[verifier::external_body]
fn map_insert<M: Message>(channels: &mut Channels, channel: M::Channel) -> (previous: Option<
    M::Channel,
>)
    ensures
        previous is Some <==> holds::<M>(slots(*old(channels))),
        same_but::<M>(slots(*old(channels)), slots(*final(channels))),
        holds::<M>(slots(*final(channels))),
        plain::<M>() ==> previous == channel_in::<M>(slots(*old(channels))),
        plain::<M>() ==> channel_in::<M>(slots(*final(channels))) == Some(channel),
{
    channels.map.insert::<ChannelKey<M>>(channel)
}

/// `typemap_ors::TypeMap::get`: the value under the key of `M`, if there is
/// one.
#[verifier::external_body]
fn map_get<M: Message>(channels: &Channels) -> (found: Option<&M::Channel>)
    ensures
        found is Some <==> holds::<M>(slots(*channels)),
        plain::<M>() ==> (found matches Some(channel) ==> channel_in::<M>(slots(*channels))
            == Some(*channel)),
{
    channels.map.get::<ChannelKey<M>>()
}

/// `typemap_ors::TypeMap::get_mut`: the value under the key of `M`, if there
/// is one, to be changed in place. The map then holds what the caller leaves
/// there, and no other key is touched.
#[verifier::external_body]
fn map_get_mut<M: Message>(channels: &mut Channels) -> (found: Option<&mut M::Channel>)
    ensures
        found is Some <==> holds::<M>(slots(*old(channels))),
        found is Some ==> holds::<M>(slots(*final(channels))),
        found is Some ==> same_but::<M>(slots(*old(channels)), slots(*final(channels))),
        found is None ==> slots(*final(channels)) == slots(*old(channels)),
        plain::<M>() ==> (found matches Some(channel) ==> {
            &&& channel_in::<M>(slots(*old(channels))) == Some(*channel)
            &&& channel_in::<M>(slots(*final(channels))) == Some(*final(channel))
        }),
{
    channels.map.get_mut::<ChannelKey<M>>()
}

/// `typemap_ors::TypeMap::remove`: takes the value under the key of `M` out of
/// the map, if there is one, and touches no other key.
#[verifier::external_body]
fn map_remove<M: Message>(channels: &mut Channels) -> (found: Option<M::Channel>)
    ensures
        found is Some <==> holds::<M>(slots(*old(channels))),
        plain::<M>() ==> found == channel_in::<M>(slots(*old(channels))),
        slots(*final(channels)) == slots(*old(channels)).remove(kind_of::<M>()),
{
    channels.map.remove::<ChannelKey<M>>()
}

/// `typemap_ors::TypeMap::clear`: empties the map.
#[verifier::external_body]
fn map_clear(channels: &mut Channels)
    ensures
        slots(*final(channels)) == Slots::empty(),
{
    channels.map.clear()
}

impl View for Channels {
    type V = Slots;

    open spec fn view(&self) -> Slots {
        slots(*self)
    }
}

impl Default for Channels {
    fn default() -> (channels: Self)
        ensures
            channels@ == Slots::empty(),
    {
        empty_map()
    }
}

impl Channels {
    /// The sender of the channel of `M`. Where the registry holds none, the
    /// channel that `constructor` makes is stored first.
    pub fn sender<M: Message>(&mut self, constructor: impl FnOnce() -> M::Channel) -> (sender:
        SenderOf<M>)
        requires
            !holds::<M>(old(self)@) ==> call_requires(constructor, ()),
        ensures
            holds::<M>(old(self)@) ==> *final(self) == *old(self),
            sender_given::<M>(
                old(self)@,
                |made: M::Channel| call_ensures(constructor, (), made),
                final(self)@,
                sender,
            ),
    {
        if !map_contains::<M>(self) {
            let _ = map_insert::<M>(self, constructor());
        }
        let channel = map_get::<M>(self).unwrap();
        channel.sender()
    }

    /// The receiver of the channel of `M`. Where the registry holds none, the
    /// channel that `constructor` makes is stored first.
    pub fn receiver<M: Message>(&mut self, constructor: impl FnOnce() -> M::Channel) -> (receiver:
        ReceiverOf<M>)
        requires
            !holds::<M>(old(self)@) ==> call_requires(constructor, ()),
        ensures
            receiver_given::<M>(
                old(self)@,
                |made: M::Channel| call_ensures(constructor, (), made),
                final(self)@,
                receiver,
            ),
    {
        if !map_contains::<M>(self) {
            let _ = map_insert::<M>(self, constructor());
        }
        let channel = map_get_mut::<M>(self).unwrap();
        channel.receiver()
    }

    /// The channel of `M`, if the registry holds one. Nothing is made.
    pub fn get<M: Message>(&self) -> (found: Option<&M::Channel>)
        ensures
            found is Some <==> holds::<M>(self@),
            plain::<M>() ==> (found matches Some(channel) ==> channel_in::<M>(self@) == Some(
                *channel,
            )),
    {
        map_get::<M>(self)
    }

    /// The channel of `M`, if the registry holds one, to ask it for its
    /// receiver. Nothing is made.
    pub fn get_mut<M: Message>(&mut self) -> (found: Option<&mut M::Channel>)
        ensures
            found is Some <==> holds::<M>(old(self)@),
            found is Some ==> holds::<M>(final(self)@),
            found is Some ==> same_but::<M>(old(self)@, final(self)@),
            found is None ==> final(self)@ == old(self)@,
            plain::<M>() ==> (found matches Some(channel) ==> {
                &&& channel_in::<M>(old(self)@) == Some(*channel)
                &&& channel_in::<M>(final(self)@) == Some(*final(channel))
            }),
    {
        map_get_mut::<M>(self)
    }

    /// Takes the channel of `M` out of the registry, if it holds one.
    pub fn remove<M: Message>(&mut self) -> (found: Option<M::Channel>)
        ensures
            found is Some <==> holds::<M>(old(self)@),
            plain::<M>() ==> found == channel_in::<M>(old(self)@),
            final(self)@ == old(self)@.remove(kind_of::<M>()),
    {
        map_remove::<M>(self)
    }

    /// Empties the registry.
    pub fn clear(&mut self)
        ensures
            final(self)@ == Slots::empty(),
    {
        map_clear(self)
    }

    /// Empties the registry but for the channel of `M`, which stays where
    /// one is held.
    pub fn clear_but<M: Message>(&mut self)
        ensures
            only_kept::<M>(old(self)@, final(self)@),
    {
        let kept = map_remove::<M>(self);
        map_clear(self);
        if let Some(channel) = kept {
            let _ = map_insert::<M>(self, channel);
        }
        assert forall|kind: int| #[trigger]
            self@.contains_key(kind) <==> kind == kind_of::<M>() && holds::<M>(old(self)@) by {
            assert(self@.remove(kind_of::<M>()).contains_key(kind) ==> kind != kind_of::<M>()
                && self@.contains_key(kind));
            assert(kind != kind_of::<M>() ==> self@.remove(kind_of::<M>()).contains_key(kind)
                == self@.contains_key(kind));
        }
    }
}

/// Two requests for a sender in a row do not make two channels: the second
/// finds a channel held and leaves the registry as it is. Where the channels
/// of `M` are plain, the channel held between the two hands out both senders.
pub proof fn law_senders_share_channel<M: Message>(
    start: Slots,
    first_made: spec_fn(M::Channel) -> bool,
    between: Slots,
    first: SenderOf<M>,
    second_made: spec_fn(M::Channel) -> bool,
    end: Slots,
    second: SenderOf<M>,
)
    requires
        sender_given::<M>(start, first_made, between, first),
        sender_given::<M>(between, second_made, end, second),
    ensures
        holds::<M>(between),
        end == between,
        plain::<M>() ==> (channel_in::<M>(between) matches Some(channel) && channel.gives_sender(
            first,
        ) && channel.gives_sender(second)),
{
}

/// Whether `senders` are what as many requests in a row hand out, each with
/// a constructor of its own, where `states` are the registry before the
/// first request and after each.
pub open spec fn senders_given<M: Message>(
    states: Seq<Slots>,
    made: Seq<spec_fn(M::Channel) -> bool>,
    senders: Seq<SenderOf<M>>,
) -> bool {
    &&& states.len() == senders.len() + 1
    &&& made.len() == senders.len()
    &&& forall|i: int|
        0 <= i < senders.len() ==> sender_given::<M>(
            states[i],
            made[i],
            states[i + 1],
            #[trigger] senders[i],
        )
}

/// After the first of any number of requests in a row the registry does not
/// change any more.
pub proof fn law_registry_settles<M: Message>(
    states: Seq<Slots>,
    made: Seq<spec_fn(M::Channel) -> bool>,
    senders: Seq<SenderOf<M>>,
    at: int,
)
    requires
        senders_given::<M>(states, made, senders),
        1 <= at < states.len(),
    ensures
        holds::<M>(states[at]),
        states[at] == states[1],
    decreases at,
{
    if at == 1 {
        assert(sender_given::<M>(states[0], made[0], states[1], senders[0]));
    } else {
        law_registry_settles::<M>(states, made, senders, at - 1);
        assert(sender_given::<M>(states[at - 1], made[at - 1], states[at], senders[at - 1]));
    }
}

/// However many requests for the sender of one kind come in a row, one
/// channel serves them all: the one that the registry holds after the first
/// request hands out every sender, and no request after the first makes a
/// channel or changes the registry.
pub proof fn law_one_channel_serves_all<M: Message>(
    states: Seq<Slots>,
    made: Seq<spec_fn(M::Channel) -> bool>,
    senders: Seq<SenderOf<M>>,
)
    requires
        plain::<M>(),
        senders_given::<M>(states, made, senders),
        senders.len() > 0,
    ensures
        forall|at: int| 1 <= at < states.len() ==> #[trigger] states[at] == states[1],
        channel_in::<M>(states[1]) matches Some(channel) && forall|i: int|
            0 <= i < senders.len() ==> channel.gives_sender(#[trigger] senders[i]),
{
    assert forall|at: int| 1 <= at < states.len() implies #[trigger] states[at] == states[1] by {
        law_registry_settles::<M>(states, made, senders, at);
    }
    law_registry_settles::<M>(states, made, senders, 1);
    let channel = channel_in::<M>(states[1]).unwrap();
    assert forall|i: int| 0 <= i < senders.len() implies channel.gives_sender(
        #[trigger] senders[i],
    ) by {
        assert(sender_given::<M>(states[i], made[i], states[i + 1], senders[i]));
        law_registry_settles::<M>(states, made, senders, i + 1);
        if i > 0 {
            law_registry_settles::<M>(states, made, senders, i);
        }
    }
}

/// Where a channel hands out copies of one sender, as the channels of this
/// library do, the senders of any number of requests in a row are equal:
/// they all send into the same channel.
pub proof fn law_senders_agree<M: Message>(
    states: Seq<Slots>,
    made: Seq<spec_fn(M::Channel) -> bool>,
    senders: Seq<SenderOf<M>>,
)
    requires
        plain::<M>(),
        forall|channel: M::Channel, one: SenderOf<M>, other: SenderOf<M>|
            #[trigger] channel.gives_sender(one) && #[trigger] channel.gives_sender(other) ==> one
                == other,
        senders_given::<M>(states, made, senders),
    ensures
        forall|i: int, j: int|
            0 <= i < senders.len() && 0 <= j < senders.len() ==> #[trigger] senders[i]
                == #[trigger] senders[j],
{
    if senders.len() > 0 {
        law_one_channel_serves_all::<M>(states, made, senders);
    }
}

/// The senders that a registry hands out for a bounded queue are copies of
/// one sender, however many are asked for.
pub proof fn law_queue_senders_agree<T: Send, M: Message<Channel = MpscChannel<T>>>(
    states: Seq<Slots>,
    made: Seq<spec_fn(M::Channel) -> bool>,
    senders: Seq<SenderOf<M>>,
)
    requires
                senders_given::<M>(states, made, senders),
    ensures
        forall|i: int, j: int|
            0 <= i < senders.len() && 0 <= j < senders.len() ==> #[trigger] senders[i]
                == #[trigger] senders[j],
{
    law_senders_agree::<M>(states, made, senders);
}

/// Extraction is one-shot: once the channel of a kind is taken out, a second
/// extraction finds nothing.
pub proof fn law_extract_once<M: Message>(before: Slots)
    ensures
        !holds::<M>(before.remove(kind_of::<M>())),
        channel_in::<M>(before.remove(kind_of::<M>())) is None,
{
}

/// After an extraction the next request sets up a new channel: one that the
/// constructor makes, not the one that was taken out.
pub proof fn law_extracted_channel_is_replaced<M: Message>(
    before: Slots,
    made: spec_fn(M::Channel) -> bool,
    after: Slots,
    sender: SenderOf<M>,
)
    requires
        plain::<M>(),
        sender_given::<M>(before.remove(kind_of::<M>()), made, after, sender),
    ensures
        channel_in::<M>(after) matches Some(channel) && made(channel) && channel.gives_sender(
            sender,
        ),
{
}

/// A request for a receiver does not make a second channel either: the
/// second request works on the channel as the first one left it.
pub proof fn law_receivers_share_channel<M: Message>(
    start: Slots,
    first_made: spec_fn(M::Channel) -> bool,
    between: Slots,
    first: ReceiverOf<M>,
    second_made: spec_fn(M::Channel) -> bool,
    end: Slots,
    second: ReceiverOf<M>,
)
    requires
        receiver_given::<M>(start, first_made, between, first),
        receiver_given::<M>(between, second_made, end, second),
    ensures
        end.dom() == between.dom(),
        plain::<M>() ==> (channel_in::<M>(between) matches Some(left) && channel_in::<M>(
            end,
        ) matches Some(after) && left.gives_receiver(after, second)),
{
    let kind = kind_of::<M>();
    assert(end.dom() =~= end.remove(kind).dom().insert(kind));
    assert(between.dom() =~= between.remove(kind).dom().insert(kind));
}

/// The receiver of a bounded queue leaves the registry once: after a request
/// for it the queue that the registry holds has no receiver left, so a second
/// request cannot hand it out again.
pub proof fn law_queue_receiver_leaves_once<T: Send, M: Message<Channel = MpscChannel<T>>>(
    start: Slots,
    first_made: spec_fn(M::Channel) -> bool,
    between: Slots,
    first: ReceiverOf<M>,
)
    requires
                receiver_given::<M>(start, first_made, between, first),
    ensures
        channel_in::<M>(between) matches Some(queue) && queue.receiver_end() is None,
        forall|after: M::Channel, second: ReceiverOf<M>|
            channel_in::<M>(between).unwrap().gives_receiver(after, second)
                ==> after.receiver_end() is None,
{
}

/// The same of a queue without a bound.
pub proof fn law_unbounded_queue_receiver_leaves_once<
    T: Send,
    M: Message<Channel = UnboundedMpscChannel<T>>,
>(
    start: Slots,
    first_made: spec_fn(M::Channel) -> bool,
    between: Slots,
    first: ReceiverOf<M>,
)
    requires
                receiver_given::<M>(start, first_made, between, first),
    ensures
        channel_in::<M>(between) matches Some(queue) && queue.receiver_end() is None,
        forall|after: M::Channel, second: ReceiverOf<M>|
            channel_in::<M>(between).unwrap().gives_receiver(after, second)
                ==> after.receiver_end() is None,
{
}

/// A request for an end of one kind leaves the channels of every other kind
/// as they are.
pub proof fn law_other_kinds_stay<M: Message, N: Message>(before: Slots, after: Slots)
    requires
        same_but::<M>(before, after),
        kind_of::<M>() != kind_of::<N>(),
    ensures
        holds::<N>(after) == holds::<N>(before),
        channel_in::<N>(after) == channel_in::<N>(before),
{
    let kind = kind_of::<N>();
    assert(before.remove(kind_of::<M>()).contains_key(kind) == before.contains_key(kind));
    assert(after.remove(kind_of::<M>()).contains_key(kind) == after.contains_key(kind));
    if before.contains_key(kind) {
        assert(before.remove(kind_of::<M>())[kind] == before[kind]);
        assert(after.remove(kind_of::<M>())[kind] == after[kind]);
    }
}

/// An extraction of one kind leaves the channels of every other kind as they
/// are.
pub proof fn law_extraction_leaves_other_kinds<M: Message, N: Message>(before: Slots)
    requires
        kind_of::<M>() != kind_of::<N>(),
    ensures
        holds::<N>(before.remove(kind_of::<M>())) == holds::<N>(before),
        channel_in::<N>(before.remove(kind_of::<M>())) == channel_in::<N>(before),
{
}

} // verus!
