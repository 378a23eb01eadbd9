use tracklock::conduit::FrameSlot;

#[test]
fn new_conduit_is_empty() {
    let mut slot: FrameSlot<u32> = FrameSlot::new();
    assert!(slot.is_empty());
    assert_eq!(slot.len(), 0);
    assert_eq!(slot.take(), None);
}

#[test]
fn offered_frame_is_taken_once() {
    let mut slot: FrameSlot<u32> = FrameSlot::new();
    assert_eq!(slot.offer(7), None);
    assert!(!slot.is_empty());
    assert_eq!(slot.len(), 1);
    assert_eq!(slot.take(), Some(7));
    assert!(slot.is_empty());
    assert_eq!(slot.take(), None);
}

#[test]
fn newer_frame_displaces_the_pending_one() {
    let mut slot: FrameSlot<Vec<u8>> = FrameSlot::new();
    assert_eq!(slot.offer(vec![1, 1]), None);
    assert_eq!(slot.offer(vec![2, 2]), Some(vec![1, 1]));
    assert_eq!(slot.len(), 1);
    assert_eq!(slot.take(), Some(vec![2, 2]));
    assert_eq!(slot.len(), 0);
}

#[test]
fn fast_producer_never_builds_a_backlog() {
    let mut slot: FrameSlot<u64> = FrameSlot::new();
    let mut displaced: Vec<u64> = Vec::new();
    for n in 1..=100u64 {
        if let Some(old) = slot.offer(n) {
            displaced.push(old);
        }
        assert_eq!(slot.len(), 1);
    }
    assert_eq!(displaced, (1..=99u64).collect::<Vec<u64>>());
    assert_eq!(slot.take(), Some(100));
    assert_eq!(slot.take(), None);
}

#[test]
fn consumer_that_keeps_up_sees_every_frame() {
    let mut slot: FrameSlot<u64> = FrameSlot::new();
    for n in 1..=10u64 {
        assert_eq!(slot.offer(n), None);
        assert_eq!(slot.take(), Some(n));
    }
}
