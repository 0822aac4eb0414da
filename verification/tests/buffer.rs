use rm3100::mincircularbuffer::MinCircularBuffer;

#[test]
fn fifo_order() {
    let mut buffer = MinCircularBuffer::<i32, 5>::new(0);
    assert!(buffer.push(1));
    assert!(buffer.push(2));
    assert!(buffer.push(3));
    assert_eq!(buffer.pop(), Some(1));
    assert_eq!(buffer.pop(), Some(2));
    assert_eq!(buffer.pop(), Some(3));
    assert_eq!(buffer.pop(), None);
}

#[test]
fn capacity_minus_one_pushes_fit() {
    let mut buffer = MinCircularBuffer::<i32, 5>::new(0);
    assert!(buffer.push(1));
    assert!(buffer.push(2));
    assert!(buffer.push(3));
    assert!(buffer.push(4));
    assert!(!buffer.push(5));
    assert_eq!(buffer.pop(), None);
}

#[test]
fn empty_buffer_pops_nothing() {
    let mut buffer = MinCircularBuffer::<u8, 4>::new(0);
    assert_eq!(buffer.pop(), None);
}

#[test]
fn wraparound_keeps_fifo_order() {
    let mut buffer = MinCircularBuffer::<i32, 3>::new(0);
    for round in 0..10 {
        assert!(buffer.push(round));
        assert!(buffer.push(round + 100));
        assert_eq!(buffer.pop(), Some(round));
        assert_eq!(buffer.pop(), Some(round + 100));
    }
    assert_eq!(buffer.pop(), None);
}

#[test]
fn refills_after_overflow() {
    let mut buffer = MinCircularBuffer::<i32, 3>::new(0);
    assert!(buffer.push(1));
    assert!(buffer.push(2));
    assert!(!buffer.push(3));
    assert_eq!(buffer.pop(), None);
    assert!(buffer.push(4));
    assert_eq!(buffer.pop(), Some(4));
    assert_eq!(buffer.pop(), None);
}

#[test]
fn minimal_capacity_always_overflows() {
    let mut buffer = MinCircularBuffer::<i32, 1>::new(0);
    assert!(!buffer.push(7));
    assert_eq!(buffer.pop(), None);
}
