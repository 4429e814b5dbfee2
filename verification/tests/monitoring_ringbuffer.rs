use mainframe::monitoring::ringbuffer::RingBuffer;

#[test]
fn ringbuffer_test_create() {
    let rb = RingBuffer::<f32>::new(10);

    assert!(rb.size() == 10);
    assert!(rb.count() == 0);
}

#[test]
fn ringbuffer_test_add() {
    let mut rb = RingBuffer::<f32>::new(5);
    rb.add(1.0);
    rb.add(2.0);
    rb.add(3.0);

    assert!(rb.count() == 3);
    assert!(rb.size() == 5);

    rb.add(0.0);
    rb.add(0.0);
    rb.add(0.0);
    rb.add(0.0);

    assert!(rb.count() == 5);
    assert!(rb.size() == 5);
    assert!(rb.stored() == 5);
}

#[test]
fn ringbuffer_test_peek() {
    let mut rb = RingBuffer::<f32>::new(3);
    rb.add(1 as f32);
    rb.add(2 as f32);
    rb.add(3 as f32);

    assert!(rb.peek(0) == 1 as f32);
    assert!(rb.peek(1) == 2 as f32);
    assert!(rb.peek(2) == 3 as f32);
}

#[test]
fn prefilled_slots_hold_defaults() {
    let rb = RingBuffer::<u64>::new(3);

    // Every slot is backed from the start; untouched slots read the
    // type's default.
    assert_eq!(rb.stored(), 3);
    assert_eq!(rb.count(), 0);
    assert_eq!(rb.peek(0), 0);
    assert_eq!(rb.peek(2), 0);
    assert_eq!(rb.peek(5), 0);
}
