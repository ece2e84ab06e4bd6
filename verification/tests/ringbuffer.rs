use ariel_os_core::ringbuffer::RingBuffer;

#[test]
fn basic() {
    let mut rb = RingBuffer::new_with(16);
    assert!(rb.put('0'));
    assert_eq!(rb.peek(), Some('0'));
    assert_eq!(rb.get(), Some('0'));
}

#[test]
fn ringbuffer_without_storage_holds_nothing() {
    let mut rb: RingBuffer<u8> = RingBuffer::new();
    assert_eq!(rb.capacity(), 0);
    assert!(rb.is_empty());
    assert!(rb.is_full());
    assert!(!rb.put(1));
    assert_eq!(rb.get(), None);
    assert_eq!(rb.peek(), None);
    assert_eq!(rb.available(), 0);
}

#[test]
fn ringbuffer_is_fifo_and_refuses_when_full() {
    let mut rb: RingBuffer<u32> = RingBuffer::new_with(4);
    assert_eq!(rb.capacity(), 4);
    for i in 0..4 {
        assert!(rb.put(10 + i));
    }
    assert!(rb.is_full());
    assert!(!rb.put(99));
    assert_eq!(rb.available(), 4);
    for i in 0..4 {
        assert_eq!(rb.peek(), Some(10 + i));
        assert_eq!(rb.get(), Some(10 + i));
    }
    assert!(rb.is_empty());
    assert_eq!(rb.get(), None);
}

#[test]
fn ringbuffer_capacity_is_rounded_down_to_a_power_of_two() {
    assert_eq!(RingBuffer::<u8>::new_with(0).capacity(), 0);
    assert_eq!(RingBuffer::<u8>::new_with(1).capacity(), 0);
    assert_eq!(RingBuffer::<u8>::new_with(2).capacity(), 2);
    assert_eq!(RingBuffer::<u8>::new_with(3).capacity(), 2);
    assert_eq!(RingBuffer::<u8>::new_with(5).capacity(), 4);
    assert_eq!(RingBuffer::<u8>::new_with(255).capacity(), 128);
    assert_eq!(RingBuffer::<u8>::new_with(256).capacity(), 128);
    assert_eq!(RingBuffer::<u8>::new_with(260).capacity(), 128);
    assert_eq!(RingBuffer::<u8>::new_with(100_000).capacity(), 128);
}

#[test]
fn ringbuffer_survives_more_than_256_rounds() {
    let mut rb: RingBuffer<u32> = RingBuffer::new_with(4);
    assert!(rb.put(0));
    assert!(rb.put(1));
    for i in 2..2000u32 {
        assert!(rb.put(i));
        assert_eq!(rb.get(), Some(i - 2));
        assert_eq!(rb.available(), 2);
    }
    assert_eq!(rb.get(), Some(1998));
    assert_eq!(rb.get(), Some(1999));
    assert_eq!(rb.get(), None);
}

#[test]
fn ringbuffer_new_storage_empties_the_buffer() {
    let mut rb: RingBuffer<u8> = RingBuffer::new_with(8);
    assert!(rb.put(1));
    rb.set_backing_array(Some(2));
    assert!(rb.is_empty());
    assert_eq!(rb.capacity(), 2);
    rb.set_backing_array(None);
    assert_eq!(rb.capacity(), 0);
}
