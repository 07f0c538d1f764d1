use tokio::sync::mpsc::error::TryRecvError;
use truba::{BroadcastChannel, Channel, Message, MpscChannel, UnboundedMpscChannel, WatchChannel};

struct Text(&'static str);

impl Message for Text {
    type Channel = MpscChannel<Self>;
}

struct Level(u8);

impl Message for Level {
    type Channel = WatchChannel<Self>;
}

#[test]
fn bounded_queue_has_the_buffer_it_was_made_with() {
    let channel = MpscChannel::<u8>::new(5);
    assert_eq!(channel.sender().max_capacity(), 5);
    let smallest = MpscChannel::<u8>::new(1);
    assert_eq!(smallest.sender().max_capacity(), 1);
    let largest = MpscChannel::<u8>::new(usize::MAX / 8);
    assert_eq!(largest.sender().max_capacity(), usize::MAX / 8);
    let usual = MpscChannel::<u8>::create();
    assert_eq!(usual.sender().max_capacity(), 1024);
    let actors = MpscChannel::<u8>::actor_create("a".to_string());
    assert_eq!(actors.sender().max_capacity(), 1024);
}

#[test]
fn bounded_queue_hands_out_copies_of_one_sender() {
    let mut channel = MpscChannel::<u8>::new(4);
    let first = channel.sender();
    let second = channel.sender();
    assert!(first.same_channel(&second));

    let mut receiver = channel.receiver();
    first.try_send(1).unwrap();
    second.try_send(2).unwrap();
    assert_eq!(receiver.try_recv(), Ok(1));
    assert_eq!(receiver.try_recv(), Ok(2));
}

#[test]
fn bounded_queue_hands_out_its_receiver_once() {
    let mut channel = MpscChannel::<u8>::new(4);
    let sender = channel.sender();
    let mut first = channel.receiver();
    let mut second = channel.receiver();
    let mut third = channel.receiver();

    sender.try_send(9).unwrap();
    assert_eq!(second.try_recv(), Err(TryRecvError::Disconnected));
    assert_eq!(third.try_recv(), Err(TryRecvError::Disconnected));
    assert_eq!(first.try_recv(), Ok(9));
}

#[test]
fn bounded_queue_is_closed_once_its_receiver_is_gone() {
    let mut channel = MpscChannel::<u8>::new(4);
    assert!(!channel.is_closed());
    let receiver = channel.receiver();
    assert!(!channel.is_closed());
    drop(receiver);
    assert!(channel.is_closed());
}

#[test]
fn bounded_queue_comes_apart() {
    let whole = MpscChannel::<u8>::new(2);
    let copy = whole.sender();
    let (sender, receiver) = whole.into_inner();
    assert!(sender.same_channel(&copy));
    let mut receiver = receiver.unwrap();
    sender.try_send(3).unwrap();
    assert_eq!(receiver.try_recv(), Ok(3));

    let mut taken = MpscChannel::<u8>::new(2);
    let _receiver = taken.receiver();
    let (_sender, receiver) = taken.into_inner();
    assert!(receiver.is_none());
}

#[test]
fn unbounded_queue_behaves_like_the_bounded_one() {
    let mut channel = UnboundedMpscChannel::<u8>::new();
    let first = channel.sender();
    let second = channel.sender();
    assert!(first.same_channel(&second));
    assert!(!channel.is_closed());

    let mut receiver = channel.receiver();
    let mut stand_in = channel.receiver();
    for value in 0..2000u32 {
        first.send((value % 200) as u8).unwrap();
    }
    assert_eq!(stand_in.try_recv(), Err(TryRecvError::Disconnected));
    assert_eq!(receiver.try_recv(), Ok(0));
    assert_eq!(receiver.len(), 1999);

    drop(receiver);
    assert!(channel.is_closed());
}

#[test]
fn unbounded_queue_comes_apart() {
    let whole = UnboundedMpscChannel::<u8>::default();
    let copy = whole.sender();
    let (sender, receiver) = whole.into_inner();
    assert!(sender.same_channel(&copy));
    assert!(receiver.is_some());

    let mut taken = UnboundedMpscChannel::<u8>::create();
    let _receiver = taken.receiver();
    let (_sender, receiver) = taken.into_inner();
    assert!(receiver.is_none());
}

#[test]
fn broadcast_reaches_every_subscriber() {
    let mut channel = BroadcastChannel::<u8>::new(4);
    assert!(channel.is_closed());
    let sender = channel.sender();
    assert!(sender.send(1).is_err());

    let mut first = channel.receiver();
    let mut second = channel.receiver();
    assert!(!channel.is_closed());
    assert!(channel.sender().same_channel(&sender));

    assert_eq!(sender.send(2).unwrap(), 2);
    assert_eq!(first.try_recv().unwrap(), 2);
    assert_eq!(second.try_recv().unwrap(), 2);

    drop(first);
    drop(second);
    assert!(channel.is_closed());
}

#[test]
fn broadcast_keeps_as_many_messages_as_its_buffer() {
    let mut channel = BroadcastChannel::<u8>::new(2);
    let sender = channel.sender();
    let mut receiver = channel.receiver();
    for value in 0..3 {
        sender.send(value).unwrap();
    }
    assert!(receiver.try_recv().is_err());
    assert_eq!(receiver.try_recv().unwrap(), 1);
    assert_eq!(receiver.try_recv().unwrap(), 2);

    let mut usual = BroadcastChannel::<u16>::create();
    let sender = usual.sender();
    let mut receiver = usual.receiver();
    for value in 0..1024 {
        sender.send(value).unwrap();
    }
    assert_eq!(receiver.try_recv().unwrap(), 0);
}

#[test]
fn watch_starts_without_a_value_and_shows_the_latest() {
    let mut channel = WatchChannel::<u8>::create();
    let mut receiver = channel.receiver();
    assert!(receiver.borrow().is_none());

    let sender = channel.sender();
    sender.send_replace(Some(1));
    sender.send_replace(Some(2));
    assert_eq!(*receiver.borrow_and_update(), Some(2));

    let late = channel.receiver();
    assert_eq!(*late.borrow(), Some(2));
    assert!(late.same_channel(&receiver));
}

#[test]
fn watch_hands_out_copies_of_one_sender() {
    let mut channel = WatchChannel::<u8>::create();
    let receiver = channel.receiver();
    let first = channel.sender();
    let second = channel.sender();

    assert!(second.same_channel(&first));
    second.send_replace(Some(7));
    assert_eq!(*receiver.borrow(), Some(7));
    first.send_replace(Some(8));
    assert_eq!(*receiver.borrow(), Some(8));
}

#[test]
fn watch_receiver_finds_the_latest_value_new() {
    let mut channel = WatchChannel::<u8>::create();
    let sender = channel.sender();
    let first = channel.receiver();
    assert!(!first.has_changed().unwrap());

    sender.send_replace(Some(1));
    let mut late = channel.receiver();
    assert!(late.has_changed().unwrap());
    assert_eq!(*late.borrow_and_update(), Some(1));
    assert!(!late.has_changed().unwrap());
    assert!(channel.receiver().has_changed().unwrap());
}

#[test]
fn watch_is_open_while_the_channel_is_there() {
    let mut channel = WatchChannel::<u8>::create();
    assert!(!channel.is_closed());
    let sender = channel.sender();
    let receiver = channel.receiver();
    drop(sender);
    assert!(!channel.is_closed());
    assert!(!receiver.has_changed().unwrap());

    drop(channel);
    assert!(receiver.has_changed().is_err());
}

#[test]
fn message_makes_its_channel() {
    let queue = Text::create_channel();
    assert_eq!(queue.sender().max_capacity(), 1024);
    let mut mailbox = Text::create_actor_channel("actor".to_string());
    let sender = mailbox.sender();
    let mut receiver = mailbox.receiver();
    sender.try_send(Text("hello")).ok().unwrap();
    assert_eq!(receiver.try_recv().ok().unwrap().0, "hello");

    let mut level = Level::create_channel();
    level.sender().send_replace(Some(Level(3)));
    assert_eq!(level.receiver().borrow().as_ref().unwrap().0, 3);
}
