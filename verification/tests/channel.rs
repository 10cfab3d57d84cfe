use haiku_backend::channel::Channel;
use haiku_backend::protocol::Event;

#[test]
fn fifo_order_is_kept() {
    let mut c = Channel::new(8);
    assert!(c.send(Event::ViewCreated));
    assert!(c.send(Event::ViewChanged { width: 1, height: 2 }));
    assert!(c.send(Event::ViewDestroyed));
    assert_eq!(c.receive_blocking(), Some(Event::ViewCreated));
    assert_eq!(c.receive_blocking(), Some(Event::ViewChanged { width: 1, height: 2 }));
    assert_eq!(c.receive_blocking(), Some(Event::ViewDestroyed));
    assert_eq!(c.receive_blocking(), None);
}

#[test]
fn receive_timeout_on_empty_returns_nothing() {
    let mut c = Channel::new(4);
    assert_eq!(c.receive_timeout(), None);
    assert_eq!(c.len(), 0);
}

#[test]
fn send_beyond_capacity_blocks_until_a_slot_frees() {
    let mut c = Channel::new(2);
    assert_eq!(c.capacity(), 2);
    assert!(c.send(Event::ViewCreated));
    assert!(c.send(Event::ViewChanged { width: 3, height: 4 }));
    // The queue is full: a third send is not accepted (the real primitive
    // would block the sender here) and nothing is lost or reordered.
    assert!(!c.send(Event::ViewDestroyed));
    assert_eq!(c.len(), 2);
    // The consumer frees one slot; the sender can proceed.
    assert_eq!(c.receive_timeout(), Some(Event::ViewCreated));
    assert!(c.send(Event::ViewDestroyed));
    assert_eq!(c.receive_timeout(), Some(Event::ViewChanged { width: 3, height: 4 }));
    assert_eq!(c.receive_timeout(), Some(Event::ViewDestroyed));
}

#[test]
fn zero_capacity_accepts_nothing() {
    let mut c = Channel::new(0);
    assert!(!c.send(Event::ViewCreated));
    assert_eq!(c.len(), 0);
}
