use rustykeys::queue::{MacroQueue, MACRO_QUEUE_CAPACITY};
use rustykeys::report::KeyboardReport;

fn numbered(count: usize) -> Vec<KeyboardReport> {
    (0..count).map(|i| KeyboardReport::single(0, i as u8 + 1)).collect()
}

fn drain(queue: &mut MacroQueue) -> Vec<KeyboardReport> {
    let mut out = Vec::new();
    while let Some(report) = queue.dequeue_one() {
        out.push(report);
    }
    out
}

#[test]
fn new_queue_is_empty() {
    let mut queue = MacroQueue::new();
    assert!(queue.is_empty());
    assert_eq!(queue.len(), 0);
    assert_eq!(queue.capacity(), 32);
    assert_eq!(MACRO_QUEUE_CAPACITY, 32);
    assert_eq!(queue.dequeue_one(), None);
    assert!(queue.is_empty());
}

#[test]
fn burst_comes_back_whole_and_in_order() {
    let burst = numbered(10);
    let mut queue = MacroQueue::new();
    queue.enqueue_all(&burst);
    assert_eq!(queue.len(), 10);
    assert!(!queue.is_empty());
    for (i, expected) in burst.iter().enumerate() {
        assert_eq!(queue.len(), 10 - i);
        assert_eq!(queue.dequeue_one(), Some(*expected));
    }
    assert!(queue.is_empty());
    assert_eq!(queue.dequeue_one(), None);
}

#[test]
fn burst_of_exactly_the_capacity_fits() {
    let burst = numbered(32);
    let mut queue = MacroQueue::new();
    queue.enqueue_all(&burst);
    assert_eq!(queue.len(), 32);
    assert_eq!(drain(&mut queue), burst);
}

#[test]
fn empty_burst_changes_nothing() {
    let mut queue = MacroQueue::new();
    queue.enqueue_all(&[]);
    assert!(queue.is_empty());
    queue.enqueue_all(&numbered(3));
    queue.enqueue_all(&[]);
    assert_eq!(drain(&mut queue), numbered(3));
}

#[test]
fn burst_longer_than_the_capacity_loses_its_tail() {
    let burst = numbered(40);
    let mut queue = MacroQueue::new();
    queue.enqueue_all(&burst);
    assert_eq!(queue.len(), 32);
    assert_eq!(drain(&mut queue), burst[..32].to_vec());
}

#[test]
fn burst_longer_than_the_room_left_keeps_its_head() {
    let first = numbered(30);
    let second: Vec<KeyboardReport> =
        (0..5).map(|i| KeyboardReport::single(2, 100 + i)).collect();
    let mut queue = MacroQueue::new();
    queue.enqueue_all(&first);
    queue.enqueue_all(&second);
    assert_eq!(queue.len(), 32);
    let mut expected = first.clone();
    expected.extend_from_slice(&second[..2]);
    assert_eq!(drain(&mut queue), expected);
}

#[test]
fn full_queue_takes_nothing_more() {
    let mut queue = MacroQueue::new();
    queue.enqueue_all(&numbered(32));
    queue.enqueue_all(&[KeyboardReport::single(2, 0x0e)]);
    assert_eq!(queue.len(), 32);
    assert_eq!(drain(&mut queue), numbered(32));
}

#[test]
fn room_comes_back_as_the_queue_drains() {
    let mut queue = MacroQueue::new();
    queue.enqueue_all(&numbered(32));
    for i in 0..20u8 {
        assert_eq!(queue.dequeue_one(), Some(KeyboardReport::single(0, i + 1)));
    }
    assert_eq!(queue.len(), 12);
    let more: Vec<KeyboardReport> = (0..25).map(|i| KeyboardReport::single(2, 50 + i)).collect();
    queue.enqueue_all(&more);
    assert_eq!(queue.len(), 32);
    let mut expected = numbered(32)[20..].to_vec();
    expected.extend_from_slice(&more[..20]);
    assert_eq!(drain(&mut queue), expected);
}

#[test]
fn queue_wraps_around_many_times() {
    let mut queue = MacroQueue::new();
    let mut next_in = 0u8;
    let mut next_out = 0u8;
    for round in 0..50usize {
        let count = 1 + round % 7;
        let burst: Vec<KeyboardReport> = (0..count)
            .map(|_| {
                let report = KeyboardReport::single(1, next_in);
                next_in = next_in.wrapping_add(1);
                report
            })
            .collect();
        queue.enqueue_all(&burst);
        for _ in 0..count {
            assert_eq!(queue.dequeue_one(), Some(KeyboardReport::single(1, next_out)));
            next_out = next_out.wrapping_add(1);
        }
        assert!(queue.is_empty());
    }
}

#[test]
fn single_report_has_one_key_and_nothing_else() {
    let report = KeyboardReport::single(0x02, 0x0e);
    assert_eq!(
        report,
        KeyboardReport { modifier: 0x02, reserved: 0, leds: 0, keycodes: [0x0e, 0, 0, 0, 0, 0] }
    );
}
