use l1_bridge::{Checkpoint, EventQueue, L1Event, ReorgFilter};

type Ev = L1Event<u32, u32>;

#[test]
fn disabled_filter_forwards_everything() {
    let mut filter = ReorgFilter::new(0, 100);
    for depth in [0u64, 1, 3, 50, 3] {
        assert!(filter.observe(depth, 100));
    }
    assert_eq!(filter.threshold, 0);
}

#[test]
fn burst_of_shallow_reorgs_is_hidden_after_the_first() {
    let mut filter = ReorgFilter::new(1_000, 0);
    // depths [50, 3, 3, 3] back to back: only the first is forwarded
    assert!(filter.observe(50, 0));
    assert_eq!(filter.threshold, 50);
    assert!(!filter.observe(3, 0));
    assert!(!filter.observe(3, 0));
    assert!(!filter.observe(3, 0));
    assert_eq!(filter.threshold, 59);
}

#[test]
fn threshold_halves_once_per_elapsed_period() {
    let mut filter = ReorgFilter::new(1_000, 0);
    filter.observe(59, 0);
    // two whole periods elapse: 59 -> 29 -> 14
    assert!(filter.observe(15, 2_500));
    assert_eq!(filter.threshold, 29);
    assert_eq!(filter.last_decay_ms, 2_000);
}

#[test]
fn decayed_threshold_reaches_zero_and_stays() {
    let mut filter = ReorgFilter::new(10, 0);
    filter.observe(7, 0);
    // far more periods than it takes to reach zero
    assert!(filter.observe(1, 1_000_000));
    assert_eq!(filter.threshold, 1);
}

#[test]
fn drain_on_empty_queue_is_empty_and_does_not_block() {
    let mut queue: EventQueue<u32, u32> = EventQueue::new();
    assert!(queue.drain().is_empty());
    assert_eq!(queue.pop(), None);
}

#[test]
fn events_come_out_in_push_order() {
    let mut queue: EventQueue<u32, u32> = EventQueue::new();
    let a: Ev = L1Event::Connected;
    let b: Ev = L1Event::Finalized(Checkpoint::default());
    let c: Ev = L1Event::Disconnected;
    queue.push(a.clone());
    queue.push(b.clone());
    queue.push(c.clone());
    assert_eq!(queue.pop(), Some(a));
    assert_eq!(queue.drain(), vec![b, c]);
    assert_eq!(queue.pop(), None);
}

#[test]
fn close_is_idempotent_and_absorbs_pushes() {
    let mut queue: EventQueue<u32, u32> = EventQueue::new();
    queue.push(L1Event::Connected);
    queue.close();
    queue.close();
    // nothing further appears after the close
    queue.push(L1Event::Disconnected);
    assert_eq!(queue.len(), 1);
    assert_eq!(queue.pop(), Some(L1Event::Connected));
    assert_eq!(queue.pop(), None);
}
