use nats_actor::mailbox::Mailbox;

#[test]
fn mailbox_overflow_drops_excess_and_counts() {
    // More unconsumed messages than the capacity: the excess is dropped,
    // nothing blocks, nothing panics, and the counts tell the story.
    let mut m: Mailbox<u32> = Mailbox::new(3);
    let mut accepted = 0;
    let mut dropped = 0;
    for i in 0..10u32 {
        if m.try_send(i) {
            accepted += 1;
        } else {
            dropped += 1;
        }
    }
    assert_eq!(accepted, 3);
    assert_eq!(dropped, 7);
    assert_eq!(m.accepted(), 3);
    assert_eq!(m.dropped(), 7);
    assert_eq!(m.len(), 3);
    assert_eq!(m.capacity(), 3);
}

#[test]
fn mailbox_is_fifo() {
    let mut m: Mailbox<&str> = Mailbox::new(8);
    assert!(m.try_send("first"));
    assert!(m.try_send("second"));
    assert!(m.try_send("third"));
    assert_eq!(m.pop(), Some("first"));
    assert_eq!(m.pop(), Some("second"));
    assert_eq!(m.pop(), Some("third"));
    assert_eq!(m.pop(), None);
}

#[test]
fn mailbox_frees_room_when_consumed() {
    let mut m: Mailbox<u8> = Mailbox::new(1);
    assert!(m.try_send(1));
    assert!(!m.try_send(2));
    assert_eq!(m.pop(), Some(1));
    assert!(m.try_send(3));
    assert_eq!(m.pop(), Some(3));
    assert_eq!(m.dropped(), 1);
}

#[test]
fn zero_capacity_mailbox_drops_everything() {
    let mut m: Mailbox<u8> = Mailbox::new(0);
    assert!(!m.try_send(1));
    assert_eq!(m.len(), 0);
    assert_eq!(m.dropped(), 1);
}
