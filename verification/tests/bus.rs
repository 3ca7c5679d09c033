use libonebot::bus::{BusPoll, EventBus};

#[test]
fn publish_then_poll_in_order() {
    let mut bus: EventBus<i32> = EventBus::new(4);
    let mut sub = bus.subscribe();
    bus.publish(10);
    bus.publish(20);
    match bus.poll(&mut sub) {
        BusPoll::Event(e) => assert_eq!(*e, 10),
        _ => panic!("expected the first event"),
    }
    match bus.poll(&mut sub) {
        BusPoll::Event(e) => assert_eq!(*e, 20),
        _ => panic!("expected the second event"),
    }
    assert!(matches!(bus.poll(&mut sub), BusPoll::Empty));
}

#[test]
fn late_subscriber_sees_no_replay() {
    let mut bus: EventBus<i32> = EventBus::new(4);
    bus.publish(1);
    bus.publish(2);
    let mut late = bus.subscribe();
    assert!(matches!(bus.poll(&mut late), BusPoll::Empty));
    bus.publish(3);
    match bus.poll(&mut late) {
        BusPoll::Event(e) => assert_eq!(*e, 3),
        _ => panic!("expected only the event published after subscribing"),
    }
    assert!(matches!(bus.poll(&mut late), BusPoll::Empty));
}

#[test]
fn lagging_consumer_gets_deterministic_loss_signal() {
    let mut bus: EventBus<i32> = EventBus::new(2);
    let mut slow = bus.subscribe();
    for i in 0..5 {
        bus.publish(i);
    }
    // 5 events were published past the cursor, 2 are retained: 3 were lost.
    match bus.poll(&mut slow) {
        BusPoll::Lagged(n) => assert_eq!(n, 3),
        _ => panic!("expected a loss report"),
    }
    // After the loss report the consumer continues at the oldest retained event.
    match bus.poll(&mut slow) {
        BusPoll::Event(e) => assert_eq!(*e, 3),
        _ => panic!("expected the oldest retained event"),
    }
    match bus.poll(&mut slow) {
        BusPoll::Event(e) => assert_eq!(*e, 4),
        _ => panic!("expected the newest event"),
    }
    assert!(matches!(bus.poll(&mut slow), BusPoll::Empty));
}

#[test]
fn bounded_buffer_never_grows_past_capacity() {
    let mut bus: EventBus<i32> = EventBus::new(3);
    for i in 0..100 {
        bus.publish(i);
    }
    assert!(bus.buffer.len() <= 3);
}

#[test]
fn publish_succeeds_with_no_subscriber() {
    let mut bus: EventBus<i32> = EventBus::new(1);
    bus.publish(7);
    bus.publish(8);
}

#[test]
fn independent_subscribers_each_see_every_event() {
    let mut bus: EventBus<i32> = EventBus::new(8);
    let mut a = bus.subscribe();
    let mut b = bus.subscribe();
    bus.publish(1);
    bus.publish(2);
    for sub in [&mut a, &mut b] {
        match bus.poll(sub) {
            BusPoll::Event(e) => assert_eq!(*e, 1),
            _ => panic!("expected the first event"),
        }
        match bus.poll(sub) {
            BusPoll::Event(e) => assert_eq!(*e, 2),
            _ => panic!("expected the second event"),
        }
    }
}
