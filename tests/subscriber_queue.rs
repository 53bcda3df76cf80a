use influencer::subscriber_queue::SubscriberQueue;

fn drain(q: &mut SubscriberQueue<u32>, c: usize) -> Vec<u32> {
    let mut seen = Vec::new();
    while let Some(v) = q.peek(c) {
        seen.push(*v);
        assert!(q.ack(c));
    }
    seen
}

#[test]
fn new_queue_holds_nothing() {
    let q: SubscriberQueue<u32> = SubscriberQueue::new();
    assert_eq!(q.held_len(), 0);
}

#[test]
fn cursor_sees_only_later_writes_in_order() {
    let mut q = SubscriberQueue::new();
    let a = q.subscribe();
    q.write(1);
    let b = q.subscribe();
    q.write(2);
    q.write(3);
    assert_eq!(drain(&mut q, a), vec![1, 2, 3]);
    assert_eq!(drain(&mut q, b), vec![2, 3]);
    assert!(!q.ack(a));
    assert_eq!(q.peek(b), None);
}

#[test]
fn cursors_interleave_without_gaps_or_duplicates() {
    let mut q = SubscriberQueue::new();
    let a = q.subscribe();
    let b = q.subscribe();
    q.write(10);
    assert_eq!(q.peek(a), Some(&10));
    assert!(q.ack(a));
    q.write(11);
    assert_eq!(q.peek(a), Some(&11));
    assert_eq!(q.peek(b), Some(&10));
    assert!(q.ack(b));
    assert_eq!(q.peek(b), Some(&11));
    q.unsubscribe(a);
    q.write(12);
    assert_eq!(drain(&mut q, b), vec![11, 12]);
}

#[test]
fn peek_does_not_consume() {
    let mut q = SubscriberQueue::new();
    let a = q.subscribe();
    q.write(5);
    assert_eq!(q.peek(a), Some(&5));
    assert_eq!(q.peek(a), Some(&5));
}

#[test]
fn ack_without_message_is_false() {
    let mut q: SubscriberQueue<u32> = SubscriberQueue::new();
    let a = q.subscribe();
    assert!(!q.ack(a));
}

#[test]
fn subscribe_hands_out_increasing_ids() {
    let mut q: SubscriberQueue<u32> = SubscriberQueue::new();
    assert_eq!(q.subscribe(), 0);
    assert_eq!(q.subscribe(), 1);
    q.unsubscribe(0);
    assert_eq!(q.subscribe(), 2);
}

#[test]
fn retained_count_follows_the_slowest_cursor() {
    let mut q = SubscriberQueue::new();
    let fast = q.subscribe();
    let slow = q.subscribe();
    for v in 0..5u32 {
        q.write(v);
    }
    assert_eq!(q.held_len(), 5);
    assert_eq!(drain(&mut q, fast), vec![0, 1, 2, 3, 4]);
    assert_eq!(q.held_len(), 5);
    assert!(q.ack(slow));
    assert_eq!(q.held_len(), 4);
    assert!(q.ack(slow));
    assert_eq!(q.held_len(), 3);
    assert_eq!(drain(&mut q, slow), vec![2, 3, 4]);
    assert_eq!(q.held_len(), 0);
}

#[test]
fn writes_with_no_cursor_are_not_kept() {
    let mut q = SubscriberQueue::new();
    q.write(1u32);
    assert_eq!(q.held_len(), 0);
    let a = q.subscribe();
    assert_eq!(q.peek(a), None);
}

#[test]
fn unsubscribing_a_lagging_cursor_releases_its_messages() {
    let mut q = SubscriberQueue::new();
    let lagging = q.subscribe();
    let current = q.subscribe();
    for v in 0..4u32 {
        q.write(v);
    }
    assert!(q.ack(current));
    assert!(q.ack(current));
    assert!(q.ack(current));
    assert_eq!(q.held_len(), 4);
    q.unsubscribe(lagging);
    assert_eq!(q.held_len(), 1);
    assert_eq!(q.peek(current), Some(&3));
    q.unsubscribe(current);
    assert_eq!(q.held_len(), 0);
}

#[test]
fn next_cursor_id_advances_on_subscribe() {
    let mut q: SubscriberQueue<u8> = SubscriberQueue::new();
    assert_eq!(q.next_cursor_id(), 0);
    q.subscribe();
    q.subscribe();
    assert_eq!(q.next_cursor_id(), 2);
}
