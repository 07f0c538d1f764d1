use std::sync::Arc;

use parking_lot::Mutex;
use tokio::sync::mpsc::error::TryRecvError;
use truba::registry::Channels;
use truba::{BroadcastChannel, Channel, Message, MpscChannel, System, UnboundedMpscChannel};

struct Tagged(usize);

impl Message for Tagged {
    type Channel = MpscChannel<Self>;
}

struct Other(u8);

impl Message for Other {
    type Channel = UnboundedMpscChannel<Self>;
}

#[derive(Clone)]
struct News(u8);

impl Message for News {
    type Channel = BroadcastChannel<Self>;
}

#[test]
fn senders_of_one_kind_share_a_channel() {
    let mut system = System::<String>::default();
    let senders: Vec<_> = (0..8).map(|_| system.sender::<Tagged>()).collect();
    let mut receiver = system.receiver::<Tagged>();

    for (tag, sender) in senders.iter().enumerate() {
        assert!(sender.same_channel(&senders[0]));
        sender.try_send(Tagged(tag)).ok().unwrap();
    }

    let mut seen = Vec::new();
    while let Ok(Tagged(tag)) = receiver.try_recv() {
        seen.push(tag);
    }
    assert_eq!(seen, vec![0, 1, 2, 3, 4, 5, 6, 7]);
}

#[test]
fn senders_requested_by_many_tasks_share_a_channel() {
    let runtime = tokio::runtime::Builder::new_current_thread().build().unwrap();
    runtime.block_on(async {
        let system = Arc::new(Mutex::new(System::<String>::default()));
        let mut tasks = Vec::new();
        for tag in 0..16 {
            let system = system.clone();
            tasks.push(tokio::spawn(async move {
                let sender = system.lock().sender::<Tagged>();
                sender.send(Tagged(tag)).await.ok().unwrap();
            }));
        }
        for task in tasks {
            task.await.unwrap();
        }

        let mut receiver = system.lock().receiver::<Tagged>();
        let mut seen = Vec::new();
        while let Ok(Tagged(tag)) = receiver.try_recv() {
            seen.push(tag);
        }
        seen.sort();
        assert_eq!(seen, (0..16).collect::<Vec<_>>());
    });
}

#[test]
fn extraction_is_one_shot() {
    let mut system = System::<String>::default();
    let _sender = system.sender::<Tagged>();

    assert!(system.extract_channel::<Tagged>().is_some());
    assert!(system.extract_channel::<Tagged>().is_none());
    assert!(system.get_channel::<Tagged>().is_none());

    let _sender = system.sender::<Tagged>();
    assert!(system.extract_channel::<Tagged>().is_some());
    assert!(system.extract_channel::<Tagged>().is_none());
}

#[test]
fn extraction_of_an_absent_kind_is_empty() {
    let mut system = System::<String>::default();
    assert!(system.extract_channel::<Tagged>().is_none());
    assert!(system.extract_actor_channel::<Tagged>(&"nobody".to_string()).is_none());
}

#[test]
fn second_receiver_is_a_stand_in() {
    let mut system = System::<String>::default();
    let sender = system.sender::<Tagged>();
    let mut first = system.receiver::<Tagged>();
    let mut second = system.receiver::<Tagged>();

    assert!(matches!(second.try_recv(), Err(TryRecvError::Disconnected)));

    sender.try_send(Tagged(7)).ok().unwrap();
    assert!(matches!(second.try_recv(), Err(TryRecvError::Disconnected)));
    assert_eq!(first.try_recv().ok().unwrap().0, 7);
    assert!(matches!(first.try_recv(), Err(TryRecvError::Empty)));
}

#[test]
fn second_receiver_of_an_unbounded_queue_is_a_stand_in() {
    let mut system = System::<String>::default();
    let sender = system.sender::<Other>();
    let mut first = system.receiver::<Other>();
    let mut second = system.receiver::<Other>();

    sender.send(Other(3)).ok().unwrap();
    assert!(matches!(second.try_recv(), Err(TryRecvError::Disconnected)));
    assert_eq!(first.try_recv().ok().unwrap().0, 3);
}

#[test]
fn receiver_requested_before_the_sender_is_the_real_one() {
    let mut system = System::<String>::default();
    let mut receiver = system.receiver::<Tagged>();
    let sender = system.sender::<Tagged>();

    sender.try_send(Tagged(1)).ok().unwrap();
    assert_eq!(receiver.try_recv().ok().unwrap().0, 1);
}

#[test]
fn ends_handed_out_before_extraction_stay_with_the_channel() {
    let mut system = System::<String>::default();
    let sender = system.sender::<Tagged>();
    let mut receiver = system.receiver::<Tagged>();

    let (extracted, slot) = system.extract_channel::<Tagged>().unwrap().into_inner();
    assert!(slot.is_none());
    assert!(extracted.same_channel(&sender));

    extracted.try_send(Tagged(5)).ok().unwrap();
    sender.try_send(Tagged(6)).ok().unwrap();
    assert_eq!(receiver.try_recv().ok().unwrap().0, 5);
    assert_eq!(receiver.try_recv().ok().unwrap().0, 6);
}

#[test]
fn request_after_extraction_builds_a_new_channel() {
    let mut system = System::<String>::default();
    let old_sender = system.sender::<Tagged>();
    let _old_receiver = system.receiver::<Tagged>();
    let _extracted = system.extract_channel::<Tagged>().unwrap();

    let new_sender = system.sender::<Tagged>();
    let mut new_receiver = system.receiver::<Tagged>();
    assert!(!new_sender.same_channel(&old_sender));

    old_sender.try_send(Tagged(1)).ok().unwrap();
    new_sender.try_send(Tagged(2)).ok().unwrap();
    assert_eq!(new_receiver.try_recv().ok().unwrap().0, 2);
    assert!(matches!(new_receiver.try_recv(), Err(TryRecvError::Empty)));
}

#[test]
fn lookup_does_not_create() {
    let mut system = System::<String>::default();
    assert!(system.get_channel::<Tagged>().is_none());
    assert!(system.get_sender::<Tagged>().is_none());
    assert!(system.is_channel_closed::<Tagged>().is_none());
    assert!(system.get_channel::<Tagged>().is_none());

    let sender = system.sender::<Tagged>();
    assert!(system.get_channel::<Tagged>().is_some());
    assert!(system.get_sender::<Tagged>().unwrap().same_channel(&sender));
    assert_eq!(system.is_channel_closed::<Tagged>(), Some(false));
}

#[test]
fn kinds_do_not_disturb_each_other() {
    let mut system = System::<String>::default();
    let tagged = system.sender::<Tagged>();
    let other = system.sender::<Other>();
    let mut other_receiver = system.receiver::<Other>();

    assert!(system.extract_channel::<Tagged>().is_some());
    assert!(system.get_channel::<Other>().is_some());
    assert!(system.get_sender::<Other>().unwrap().same_channel(&other));

    other.send(Other(9)).ok().unwrap();
    assert_eq!(other_receiver.try_recv().ok().unwrap().0, 9);
    drop(tagged);
}

#[test]
fn custom_constructor_is_used_only_for_an_absent_kind() {
    let mut system = System::<String>::default();
    let first = system.sender_of_custom_channel::<Tagged>(|| MpscChannel::new(3));
    assert_eq!(first.max_capacity(), 3);

    let mut called = false;
    let second = system.sender_of_custom_channel::<Tagged>(|| {
        called = true;
        MpscChannel::new(5)
    });
    assert!(!called);
    assert_eq!(second.max_capacity(), 3);
    assert!(second.same_channel(&first));

    let mut receiver = system.receiver_of_custom_channel::<Tagged>(|| MpscChannel::new(7));
    first.try_send(Tagged(1)).ok().unwrap();
    assert_eq!(receiver.try_recv().ok().unwrap().0, 1);
}

#[test]
fn custom_constructor_of_a_receiver_request_sets_up_the_channel() {
    let mut system = System::<String>::default();
    let _receiver = system.receiver_of_custom_channel::<Tagged>(|| MpscChannel::new(2));
    assert_eq!(system.sender::<Tagged>().max_capacity(), 2);
}

#[test]
fn default_constructor_makes_the_usual_channel() {
    let mut system = System::<String>::default();
    assert_eq!(system.sender::<Tagged>().max_capacity(), 1024);
}

#[test]
fn close_all_channels_forgets_the_channels_and_keeps_their_ends_alive() {
    let mut system = System::<String>::default();
    let sender = system.sender::<Tagged>();
    let mut receiver = system.receiver::<Tagged>();
    let _other = system.sender::<Other>();

    system.close_all_channels();
    assert!(system.get_channel::<Tagged>().is_none());
    assert!(system.get_channel::<Other>().is_none());

    sender.try_send(Tagged(4)).ok().unwrap();
    assert_eq!(receiver.try_recv().ok().unwrap().0, 4);
    assert!(!system.sender::<Tagged>().same_channel(&sender));
}

#[test]
fn broadcast_receivers_are_new_subscriptions() {
    let mut system = System::<String>::default();
    let sender = system.sender::<News>();
    let mut first = system.receiver::<News>();
    sender.send(News(1)).ok().unwrap();
    let mut second = system.receiver::<News>();
    sender.send(News(2)).ok().unwrap();

    assert_eq!(first.try_recv().ok().unwrap().0, 1);
    assert_eq!(first.try_recv().ok().unwrap().0, 2);
    assert_eq!(second.try_recv().ok().unwrap().0, 2);
    assert!(second.try_recv().is_err());
}

#[test]
fn registry_by_itself() {
    let mut channels = Channels::default();
    assert!(channels.get::<Tagged>().is_none());
    assert!(channels.get_mut::<Tagged>().is_none());
    assert!(channels.remove::<Tagged>().is_none());

    let sender = channels.sender::<Tagged>(|| MpscChannel::create());
    let mut receiver = channels.receiver::<Tagged>(|| MpscChannel::new(1));
    sender.try_send(Tagged(8)).ok().unwrap();
    assert_eq!(receiver.try_recv().ok().unwrap().0, 8);
    assert!(channels.get::<Tagged>().is_some());
    assert!(channels.get::<Tagged>().unwrap().sender().same_channel(&sender));

    let _other = channels.sender::<Other>(|| UnboundedMpscChannel::new());
    channels.clear();
    assert!(channels.get::<Tagged>().is_none());
    assert!(channels.get::<Other>().is_none());
    assert!(channels.remove::<Tagged>().is_none());
}

#[test]
fn clear_but_keeps_one_kind() {
    let mut channels = Channels::default();
    let tagged = channels.sender::<Tagged>(|| MpscChannel::create());
    let _other = channels.sender::<Other>(|| UnboundedMpscChannel::new());
    let _news = channels.sender::<News>(|| BroadcastChannel::create());

    channels.clear_but::<Tagged>();
    assert!(channels.get::<Other>().is_none());
    assert!(channels.get::<News>().is_none());
    assert!(channels.get::<Tagged>().unwrap().sender().same_channel(&tagged));

    channels.clear_but::<Other>();
    assert!(channels.get::<Tagged>().is_none());
    assert!(channels.get::<Other>().is_none());
}

#[test]
fn held_channel_hands_out_its_receiver_on_lookup() {
    let mut system = System::<String>::default();
    assert!(system.get_receiver::<Tagged>().is_none());
    assert!(system.get_channel::<Tagged>().is_none());

    let sender = system.sender::<Tagged>();
    let mut first = system.get_receiver::<Tagged>().unwrap();
    let mut second = system.get_receiver::<Tagged>().unwrap();
    sender.try_send(Tagged(2)).ok().unwrap();
    assert!(matches!(second.try_recv(), Err(TryRecvError::Disconnected)));
    assert_eq!(first.try_recv().ok().unwrap().0, 2);
    assert!(system.get_channel::<Tagged>().is_some());
}
