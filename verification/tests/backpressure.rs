//! Backpressure of the bounded event channel.

use bluest_android::channel::BoundedBuffer;

#[test]
fn producer_blocks_at_capacity_and_unblocks_on_drain() {
    // capacity 3, 5 ready events, consumer paused
    let mut q: BoundedBuffer<u32> = BoundedBuffer::new(3);
    assert!(q.try_push(10));
    assert!(q.try_push(11));
    assert!(q.try_push(12));
    // event 4 (capacity + 1) blocks the producer
    assert!(!q.try_push(13));
    assert!(!q.try_push(14));
    assert_eq!(q.len(), 3);
    // the consumer drains one slot: the producer unblocks at once
    assert_eq!(q.pop_front(), Some(10));
    assert!(q.try_push(13));
    assert!(!q.try_push(14));
    // the queue kept arrival order
    assert_eq!(q.pop_front(), Some(11));
    assert_eq!(q.pop_front(), Some(12));
    assert_eq!(q.pop_front(), Some(13));
    assert_eq!(q.pop_front(), None);
}

#[test]
fn real_channel_exerts_the_same_backpressure() {
    let (sender, receiver) = async_channel::bounded::<u32>(3);
    assert!(sender.try_send(10).is_ok());
    assert!(sender.try_send(11).is_ok());
    assert!(sender.try_send(12).is_ok());
    match sender.try_send(13) {
        Err(async_channel::TrySendError::Full(v)) => assert_eq!(v, 13),
        other => panic!("expected the channel to be full, got {:?}", other),
    }
    assert_eq!(receiver.try_recv(), Ok(10));
    assert!(sender.try_send(13).is_ok());
    assert_eq!(receiver.try_recv(), Ok(11));
    assert_eq!(receiver.try_recv(), Ok(12));
    assert_eq!(receiver.try_recv(), Ok(13));
    assert!(receiver.try_recv().is_err());
}

#[test]
fn capacity_is_fixed_at_creation() {
    let q: BoundedBuffer<u8> = BoundedBuffer::new(7);
    assert_eq!(q.capacity(), 7);
    assert_eq!(q.len(), 0);
}
