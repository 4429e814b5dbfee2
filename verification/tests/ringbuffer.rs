use mainframe::ringbuffer::RingBuffer;

#[test]
fn test_create() {
    let rb = RingBuffer::<f32>::new(10);

    assert!(rb.size() == 10);
    assert!(rb.count() == 0);
}

#[test]
fn test_add() {
    let mut rb = RingBuffer::<f32>::new(5);
    rb.add(1.0);
    rb.add(2.0);
    rb.add(3.0);

    assert!(rb.count() == 3);
    assert!(rb.size() == 5);

    rb.add(0.0);
    rb.add(0.0);
    rb.add(0.0);
    rb.add(0.0);

    assert!(rb.count() == 5);
    assert!(rb.size() == 5);
    assert!(rb.stored() == 5);
}

#[test]
fn test_peek() {
    let mut rb = RingBuffer::<f32>::new(3);
    rb.add(1 as f32);
    rb.add(2 as f32);
    rb.add(3 as f32);

    assert!(rb.peek(0) == &1f32);
    assert!(rb.peek(1) == &2f32);
    assert!(rb.peek(2) == &3f32);
}

#[test]
fn test_use() {
    let mut rb = RingBuffer::<f32>::new(3);

    rb.add(1 as f32);
    rb.add(2 as f32);
    rb.add(3 as f32);

    assert!(rb.peek(0) == &1f32);
    assert!(rb.peek(1) == &2f32);
    assert!(rb.peek(2) == &3f32);

    rb.add(4 as f32);
    rb.add(5 as f32);
    rb.add(6 as f32);

    assert!(rb.peek(0) == &4f32);
    assert!(rb.peek(1) == &5f32);
    assert!(rb.peek(2) == &6f32);
}

#[test]
fn count_clips_to_capacity_and_last_is_newest() {
    let mut rb = RingBuffer::<u32>::new(4);
    assert!(rb.last().is_none());

    for n in 1..=10u32 {
        rb.add(n);
        assert_eq!(rb.count(), (n as usize).min(4));
        assert_eq!(rb.last(), Some(&n));
    }
}

#[test]
fn capacity_one_always_overwrites() {
    let mut rb = RingBuffer::<i64>::new(1);
    rb.add(7);
    assert_eq!(rb.count(), 1);
    assert_eq!(rb.last(), Some(&7));
    rb.add(9);
    assert_eq!(rb.count(), 1);
    assert_eq!(rb.last(), Some(&9));
    assert_eq!(rb.peek(0), &9);
}

#[test]
fn overwrite_window_keeps_newest_per_slot() {
    let mut rb = RingBuffer::<u32>::new(4);
    for n in 0..6u32 {
        rb.add(n);
    }

    // Six items into four slots: slots 0 and 1 were overwritten by items
    // 4 and 5; slots 2 and 3 still hold items 2 and 3.
    assert_eq!(rb.peek(0), &4);
    assert_eq!(rb.peek(1), &5);
    assert_eq!(rb.peek(2), &2);
    assert_eq!(rb.peek(3), &3);

    // Indexing wraps around the capacity.
    assert_eq!(rb.peek(4), &4);
    assert_eq!(rb.peek(7), &3);
}
