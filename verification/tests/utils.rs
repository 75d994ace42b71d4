use dmd_core::utils::{FifoError, FifoQueue};

#[test]
fn pops_in_order() {
    let mut f: FifoQueue = FifoQueue::new();

    assert_eq!(Ok(()), f.push(1));
    assert_eq!(Ok(()), f.push(2));
    assert_eq!(Ok(()), f.push(3));
    assert_eq!(Ok(1), f.pop());
    assert_eq!(Ok(2), f.pop());
    assert_eq!(Ok(3), f.pop());
}

#[test]
fn popping_when_empty_returns_underrun_error() {
    let mut f: FifoQueue = FifoQueue::new();

    assert_eq!(0, f.len());
    assert_eq!(Err(FifoError::Underrun), f.pop());

    assert_eq!(Ok(()), f.push(42));
    assert_eq!(1, f.len());
    assert_eq!(Ok(42), f.pop());
    assert_eq!(Err(FifoError::Underrun), f.pop());
}

#[test]
fn pushing_when_full_returns_overflow_error() {
    let mut f: FifoQueue = FifoQueue::new();

    assert_eq!(0, f.len());
    assert_eq!(Ok(()), f.push(0xff));
    assert_eq!(1, f.len());
    assert_eq!(Ok(()), f.push(0xfe));
    assert_eq!(2, f.len());
    assert_eq!(Ok(()), f.push(0xfd));
    assert_eq!(3, f.len());
    assert_eq!(Err(FifoError::Overflow), f.push(0xfc));
    assert_eq!(3, f.len());
}

#[test]
fn queue_wraps_around_its_slots() {
    let mut f: FifoQueue = FifoQueue::new();
    assert!(f.is_empty());
    for round in 0..10u8 {
        assert_eq!(Ok(()), f.push(round));
        assert_eq!(Ok(()), f.push(round + 100));
        assert!(!f.is_full());
        assert_eq!(Ok(round), f.pop());
        assert_eq!(Ok(round + 100), f.pop());
        assert!(f.is_empty());
    }
    f.push(1).unwrap();
    f.push(2).unwrap();
    f.push(3).unwrap();
    assert!(f.is_full());
    f.clear();
    assert!(f.is_empty());
    assert_eq!(Err(FifoError::Underrun), f.pop());
}
