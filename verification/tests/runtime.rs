use uml_fsm::fsm::runtime::{
    ActionSink, EventSink, EventSource, FixedActionSink, FixedEventQueue, HeaplessActionSink,
    HeaplessEventQueue, NoActions,
};
use uml_fsm::fsm::Event;

#[derive(Clone, Copy, Debug, PartialEq, Eq)]
struct TestEvent(u8);

impl Event for TestEvent {}

#[test]
fn fixed_event_queue_is_fifo() {
    let mut slots = [None, None, None, None];
    let mut queue = FixedEventQueue::new(&mut slots);

    queue.push_event(TestEvent(1));
    queue.push_event(TestEvent(2));
    queue.push_event(TestEvent(3));

    assert_eq!(queue.pop_event(), Some(TestEvent(1)));
    assert_eq!(queue.pop_event(), Some(TestEvent(2)));
    assert_eq!(queue.pop_event(), Some(TestEvent(3)));
    assert_eq!(queue.pop_event(), None);
}

#[test]
fn fixed_event_queue_overflow_is_flagged_and_safe() {
    let mut slots = [None, None];
    let mut queue = FixedEventQueue::new(&mut slots);

    queue.push_event(TestEvent(1));
    queue.push_event(TestEvent(2));
    queue.push_event(TestEvent(3));

    assert!(queue.overflowed());
    assert_eq!(queue.len(), 2);
    assert_eq!(queue.pop_event(), Some(TestEvent(1)));
    assert_eq!(queue.pop_event(), Some(TestEvent(2)));
    assert_eq!(queue.pop_event(), None);
}

#[test]
fn fixed_event_queue_zero_capacity_never_panics() {
    let mut slots: [Option<TestEvent>; 0] = [];
    let mut queue = FixedEventQueue::new(&mut slots);

    queue.push_event(TestEvent(1));

    assert!(queue.overflowed());
    assert!(queue.is_empty());
    assert_eq!(queue.pop_event(), None);
}

#[test]
fn fixed_action_sink_drain_preserves_insert_order() {
    let mut slots = [None, None, None];
    let mut sink = FixedActionSink::new(&mut slots);

    sink.push(10_u8);
    sink.push(20_u8);

    let mut drained = sink.drain().into_iter();
    assert_eq!(drained.next(), Some(10));
    assert_eq!(drained.next(), Some(20));
    assert_eq!(drained.next(), None);
    drop(drained);

    let mut drained_again = sink.drain().into_iter();
    assert_eq!(drained_again.next(), None);
}

#[test]
fn fixed_action_sink_overflow_is_flagged_and_safe() {
    let mut slots = [None, None];
    let mut sink = FixedActionSink::new(&mut slots);

    sink.push(1_u8);
    sink.push(2_u8);
    sink.push(3_u8);

    assert!(sink.overflowed());
    let mut drained = sink.drain().into_iter();
    assert_eq!(drained.next(), Some(1));
    assert_eq!(drained.next(), Some(2));
    assert_eq!(drained.next(), None);
}

#[test]
fn heapless_event_queue_is_fifo() {
    let mut queue = HeaplessEventQueue::<TestEvent, 4>::new();

    queue.push_event(TestEvent(1));
    queue.push_event(TestEvent(2));
    queue.push_event(TestEvent(3));

    assert_eq!(queue.pop_event(), Some(TestEvent(1)));
    assert_eq!(queue.pop_event(), Some(TestEvent(2)));
    assert_eq!(queue.pop_event(), Some(TestEvent(3)));
    assert_eq!(queue.pop_event(), None);
}

#[test]
fn heapless_event_queue_overflow_is_flagged() {
    let mut queue = HeaplessEventQueue::<TestEvent, 2>::new();

    queue.push_event(TestEvent(1));
    queue.push_event(TestEvent(2));
    queue.push_event(TestEvent(3));

    assert!(queue.overflowed());
    assert_eq!(queue.len(), 2);
    assert_eq!(queue.pop_event(), Some(TestEvent(1)));
    assert_eq!(queue.pop_event(), Some(TestEvent(2)));
    assert_eq!(queue.pop_event(), None);
}

#[test]
fn heapless_action_sink_drain_preserves_order() {
    let mut sink = HeaplessActionSink::<u8, 3>::new();

    sink.push(10);
    sink.push(20);

    let mut drained = sink.drain().into_iter();
    assert_eq!(drained.next(), Some(10));
    assert_eq!(drained.next(), Some(20));
    assert_eq!(drained.next(), None);
}

#[test]
fn heapless_action_sink_overflow_is_flagged() {
    let mut sink = HeaplessActionSink::<u8, 2>::new();

    sink.push(1);
    sink.push(2);
    sink.push(3);

    assert!(sink.overflowed());
    assert_eq!(sink.len(), 2);
    let mut drained = sink.drain().into_iter();
    assert_eq!(drained.next(), Some(1));
    assert_eq!(drained.next(), Some(2));
    assert_eq!(drained.next(), None);
}

// Interleaved pushes and pops make the ring wrap around its slots.
#[test]
fn fixed_event_queue_wraps_around_in_order() {
    let mut slots = [None, None, None];
    let mut queue = FixedEventQueue::new(&mut slots);

    queue.push_event(TestEvent(1));
    queue.push_event(TestEvent(2));
    assert_eq!(queue.pop_event(), Some(TestEvent(1)));
    queue.push_event(TestEvent(3));
    queue.push_event(TestEvent(4));
    assert_eq!(queue.len(), 3);
    assert!(!queue.overflowed());
    assert_eq!(queue.pop_event(), Some(TestEvent(2)));
    queue.push_event(TestEvent(5));
    assert_eq!(queue.pop_event(), Some(TestEvent(3)));
    assert_eq!(queue.pop_event(), Some(TestEvent(4)));
    assert_eq!(queue.pop_event(), Some(TestEvent(5)));
    assert_eq!(queue.pop_event(), None);
    assert!(queue.is_empty());
}

// Slots handed in with leftover values start out as an empty queue.
#[test]
fn fixed_event_queue_ignores_prefilled_slots() {
    let mut slots = [Some(TestEvent(9)), Some(TestEvent(8))];
    let mut queue = FixedEventQueue::new(&mut slots);

    assert!(queue.is_empty());
    assert_eq!(queue.pop_event(), None);
    queue.push_event(TestEvent(1));
    assert_eq!(queue.len(), 1);
    assert_eq!(queue.pop_event(), Some(TestEvent(1)));
}

// Once raised, the overflow flag stays raised after pops make room again.
#[test]
fn fixed_event_queue_overflow_flag_is_sticky() {
    let mut slots = [None];
    let mut queue = FixedEventQueue::new(&mut slots);

    queue.push_event(TestEvent(1));
    assert!(!queue.overflowed());
    queue.push_event(TestEvent(2));
    assert!(queue.overflowed());
    assert_eq!(queue.pop_event(), Some(TestEvent(1)));
    queue.push_event(TestEvent(3));
    assert!(queue.overflowed());
    assert_eq!(queue.pop_event(), Some(TestEvent(3)));
}

#[test]
fn fixed_action_sink_zero_capacity_flags_every_push() {
    let mut slots: [Option<u8>; 0] = [];
    let mut sink = FixedActionSink::new(&mut slots);

    assert!(!sink.overflowed());
    sink.push(1);
    assert!(sink.overflowed());
    assert!(sink.drain().is_empty());
}

#[test]
fn fixed_action_sink_takes_new_actions_after_drain() {
    let mut slots = [None, None];
    let mut sink = FixedActionSink::new(&mut slots);

    sink.push(1_u8);
    sink.push(2_u8);
    assert_eq!(sink.drain(), vec![1, 2]);
    sink.push(3_u8);
    sink.push(4_u8);
    assert!(!sink.overflowed());
    assert_eq!(sink.drain(), vec![3, 4]);
}

#[test]
fn heapless_event_queue_len_and_is_empty() {
    let mut queue = HeaplessEventQueue::<TestEvent, 3>::new();

    assert!(queue.is_empty());
    queue.push_event(TestEvent(7));
    assert_eq!(queue.len(), 1);
    assert!(!queue.is_empty());
    assert!(!queue.overflowed());
}

#[test]
fn heapless_action_sink_drain_empties() {
    let mut sink = HeaplessActionSink::<u8, 2>::new();

    sink.push(5);
    assert_eq!(sink.len(), 1);
    assert_eq!(sink.drain(), vec![5]);
    assert!(sink.is_empty());
    assert!(sink.drain().is_empty());
}

#[test]
fn no_actions_drops_everything() {
    let mut sink = NoActions;
    sink.push(1_u8);
    sink.push(2_u8);
}

// Taking actions one at a time leaves the untaken ones collected, in order.
#[test]
fn heapless_action_sink_pop_action_keeps_the_rest() {
    let mut sink = HeaplessActionSink::<u8, 3>::new();

    sink.push(1);
    sink.push(2);
    sink.push(3);
    assert_eq!(sink.pop_action(), Some(1));
    assert_eq!(sink.len(), 2);
    assert_eq!(sink.drain(), vec![2, 3]);
    assert_eq!(sink.pop_action(), None);
    assert!(!sink.overflowed());
}
