use calendar_hub::codec::{GenericBinaryMessage, encode_frame};
use calendar_hub::hub::{BroadcastHub, GLOBAL_CHANNEL_CAPACITY, RecvOutcome, try_receive_global};
use calendar_hub::session::{FrameAction, handle_binary_message};

#[test]
fn publish_without_subscribers_returns_payload() {
    let hub = BroadcastHub::new();
    match hub.send_global_message(b"nobody home".to_vec()) {
        Err(e) => assert_eq!(e.payload, b"nobody home".to_vec()),
        Ok(_) => panic!("publishing to an empty hub must report the empty room"),
    }
}

#[test]
fn publish_reaches_every_subscriber_exactly_once() {
    let hub = BroadcastHub::new();
    let mut rx1 = hub.subscribe_global_messages();
    let mut rx2 = hub.subscribe_global_messages();
    let mut rx3 = hub.subscribe_global_messages();

    let delivered = hub.send_global_message(b"payload".to_vec()).unwrap();
    assert_eq!(delivered, 3);

    for rx in [&mut rx1, &mut rx2, &mut rx3] {
        match try_receive_global(rx) {
            RecvOutcome::Received(bytes) => assert_eq!(bytes, b"payload".to_vec()),
            _ => panic!("every subscriber observes the payload"),
        }
        assert!(matches!(try_receive_global(rx), RecvOutcome::Empty));
    }
}

#[test]
fn subscriber_sees_only_messages_published_after_subscribing() {
    let hub = BroadcastHub::new();
    let mut early = hub.subscribe_global_messages();
    hub.send_global_message(b"first".to_vec()).unwrap();
    let mut late = hub.subscribe_global_messages();
    hub.send_global_message(b"second".to_vec()).unwrap();

    match try_receive_global(&mut early) {
        RecvOutcome::Received(bytes) => assert_eq!(bytes, b"first".to_vec()),
        _ => panic!("early subscriber sees both messages"),
    }
    match try_receive_global(&mut early) {
        RecvOutcome::Received(bytes) => assert_eq!(bytes, b"second".to_vec()),
        _ => panic!("early subscriber sees both messages"),
    }
    match try_receive_global(&mut late) {
        RecvOutcome::Received(bytes) => assert_eq!(bytes, b"second".to_vec()),
        _ => panic!("late subscriber sees only the later message"),
    }
    assert!(matches!(try_receive_global(&mut late), RecvOutcome::Empty));
}

#[test]
fn dropped_hub_closes_its_subscriptions() {
    let hub = BroadcastHub::new();
    let mut rx = hub.subscribe_global_messages();
    hub.send_global_message(b"last".to_vec()).unwrap();
    drop(hub);

    // What was already published is still delivered, then the end is
    // reported.
    match try_receive_global(&mut rx) {
        RecvOutcome::Received(bytes) => assert_eq!(bytes, b"last".to_vec()),
        _ => panic!("pending messages survive the hub"),
    }
    assert!(matches!(try_receive_global(&mut rx), RecvOutcome::Closed));
}

#[test]
fn messages_arrive_in_publish_order() {
    let hub = BroadcastHub::new();
    let mut rx = hub.subscribe_global_messages();
    for i in 0..10u8 {
        hub.send_global_message(vec![i]).unwrap();
    }
    for i in 0..10u8 {
        match try_receive_global(&mut rx) {
            RecvOutcome::Received(bytes) => assert_eq!(bytes, vec![i]),
            _ => panic!("messages come back in publish order"),
        }
    }
}

#[test]
fn broadcast_from_one_connection_reaches_both_subscribed_connections() {
    // Connections A and B are both subscribed; A sends a broadcast frame.
    let hub = BroadcastHub::new();
    let mut sub_a = hub.subscribe_global_messages();
    let mut sub_b = hub.subscribe_global_messages();

    let raw = encode_frame(&GenericBinaryMessage {
        kind: "broadcast".to_string(),
        payload: b"x".to_vec(),
    })
    .unwrap();

    match handle_binary_message(raw.clone()) {
        FrameAction::Publish(bytes) => {
            hub.send_global_message(bytes).unwrap();
        },
        FrameAction::Reply(_) => panic!("a broadcast frame draws no second echo reply to A"),
    }

    // One hub delivery of the raw frame bytes to A and to B each — A's
    // copy arrives through its own subscription, not as an extra reply.
    for sub in [&mut sub_a, &mut sub_b] {
        match try_receive_global(sub) {
            RecvOutcome::Received(bytes) => assert_eq!(bytes, raw),
            _ => panic!("both subscribers observe the broadcast"),
        }
        assert!(matches!(try_receive_global(sub), RecvOutcome::Empty));
    }
}

#[test]
fn lagging_subscriber_is_told_once_and_resumes() {
    let hub = BroadcastHub::new();
    let mut rx = hub.subscribe_global_messages();

    let overflow = 5usize;
    let total = GLOBAL_CHANNEL_CAPACITY + overflow;
    for i in 0..total {
        hub.send_global_message((i as u32).to_be_bytes().to_vec()).unwrap();
    }

    // The gap is reported exactly once.
    match try_receive_global(&mut rx) {
        RecvOutcome::Lagged(n) => assert_eq!(n, overflow as u64),
        _ => panic!("a subscriber behind by more than the capacity is told about the gap"),
    }

    // Delivery resumes from the new head: the skipped messages are gone,
    // the retained ones arrive in order, with no duplicates.
    for i in overflow..total {
        match try_receive_global(&mut rx) {
            RecvOutcome::Received(bytes) => {
                assert_eq!(bytes, (i as u32).to_be_bytes().to_vec());
            },
            _ => panic!("delivery resumes from the new head"),
        }
    }
    assert!(matches!(try_receive_global(&mut rx), RecvOutcome::Empty));

    // Later messages flow normally; the lag is not reported again.
    hub.send_global_message(b"after".to_vec()).unwrap();
    match try_receive_global(&mut rx) {
        RecvOutcome::Received(bytes) => assert_eq!(bytes, b"after".to_vec()),
        _ => panic!("a recovered subscriber receives later messages"),
    }
}
