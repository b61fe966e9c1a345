//! Event-in / action-out boundaries of the FSM core, and the bounded
//! buffers that serialise events and collect actions.
use vstd::prelude::*;
use crate::fsm::event::Event;
use crate::fsm::fifo::{BoundedFifo, ring_pos};
use crate::fsm::deque::ModeledDeque;

verus! {

/// Collects actions emitted by the FSM core.
///
/// Embedded profiles can use a fixed-capacity sink while server profiles can use
/// dynamic collections.
pub trait ActionSink<Act> {
    fn push(&mut self, action: Act);
}

/// Accepts events from producers (for example user input or action runners).
pub trait EventSink<Evt> where Evt: Event {
    fn push_event(&mut self, event: Evt);
}

/// Supplies events to the single dispatcher loop.
pub trait EventSource<Evt> where Evt: Event {
    fn pop_event(&mut self) -> Option<Evt>;
}

/// A sink that intentionally drops all emitted actions.
pub struct NoActions;

impl<Act> ActionSink<Act> for NoActions {
    fn push(&mut self, _action: Act)
        ensures
            *final(self) == *old(self),
    {
    }
}

/// A fixed-capacity FIFO queue for domain events.
///
/// Backed by caller-provided storage and suitable for `no_std` use. The
/// queue's capacity is the number of slots it was given; an event pushed
/// while the queue is full is dropped and the overflow flag is raised.
pub struct FixedEventQueue<'a, Evt> {
    slots: &'a mut [Option<Evt>],
    head: usize,
    len: usize,
    overflowed: bool,
}

impl<'a, Evt> FixedEventQueue<'a, Evt> {
    #[verifier::type_invariant]
    closed spec fn ring_inv(&self) -> bool {
        &&& self.len <= self.slots@.len()
        &&& (self.slots@.len() == 0 ==> self.head == 0)
        &&& (self.slots@.len() > 0 ==> self.head < self.slots@.len())
        &&& forall|i: int|
            0 <= i < self.len ==> (#[trigger] self.slots@[ring_pos(
                self.head as int,
                i,
                self.slots@.len() as int,
            )]) is Some
    }

}

impl<'a, Evt> View for FixedEventQueue<'a, Evt> {
    type V = BoundedFifo<Evt>;

    /// The queued events (oldest first), the capacity and the overflow flag.
    closed spec fn view(&self) -> BoundedFifo<Evt> {
        BoundedFifo {
            items: Seq::new(
                self.len as nat,
                |i: int| self.slots@[ring_pos(self.head as int, i, self.slots@.len() as int)]->0,
            ),
            capacity: self.slots@.len(),
            overflowed: self.overflowed,
        }
    }
}

impl<'a, Evt> FixedEventQueue<'a, Evt> where Evt: Event {
    /// An empty queue whose capacity is the number of slots given. Whatever
    /// the slots hold is ignored and overwritten by later pushes.
    pub fn new(slots: &'a mut [Option<Evt>]) -> (queue: Self)
        ensures
            queue@ == BoundedFifo::<Evt>::empty(old(slots)@.len()),
    {
        let queue = FixedEventQueue { slots, head: 0, len: 0, overflowed: false };
        assert(queue@.items =~= Seq::<Evt>::empty());
        queue
    }

    /// Whether a push has ever found the queue full.
    pub fn overflowed(&self) -> (r: bool)
        ensures
            r == self@.overflowed,
    {
        self.overflowed
    }

    /// The number of queued events.
    pub fn len(&self) -> (r: usize)
        ensures
            r == self@.items.len(),
            self@.wf(),
    {
        proof { use_type_invariant(self); }
        self.len
    }

    /// Whether no event is queued.
    pub fn is_empty(&self) -> (r: bool)
        ensures
            r == (self@.items.len() == 0),
    {
        self.len == 0
    }
}

impl<'a, Evt> EventSink<Evt> for FixedEventQueue<'a, Evt> where Evt: Event {
    fn push_event(&mut self, event: Evt)
        ensures
            final(self)@ == old(self)@.push(event),
            final(self)@.wf(),
    {
        proof { use_type_invariant(&*self); }
        let cap = self.slots.len();
        if self.len >= cap {
            self.overflowed = true;
            return;
        }
        if cap == 0 {
            self.overflowed = true;
            return;
        }
        let ghost old_slots = self.slots@;
        let head = self.head;
        let len = self.len;
        // The slot just past the newest event, wrapping past the end of the
        // slots; written without `head + len` so that it cannot overflow.
        let tail = if len < cap - head { head + len } else { len - (cap - head) };
        assert(tail == ring_pos(head as int, len as int, cap as int));
        proof {
            assert forall|i: int| 0 <= i < len implies ring_pos(head as int, i, cap as int)
                != tail by {}
        }
        self.slots[tail] = Some(event);
        proof {
            assert forall|i: int| 0 <= i < len + 1 implies (#[trigger] self.slots@[ring_pos(
                head as int,
                i,
                cap as int,
            )]) is Some by {
                if i < len {
                    assert(ring_pos(head as int, i, cap as int) != tail);
                    assert(old_slots[ring_pos(head as int, i, cap as int)] is Some);
                }
            }
        }
        self.len = len + 1;
        assert(self@.items =~= old(self)@.items.push(event));
    }
}

impl<'a, Evt> EventSource<Evt> for FixedEventQueue<'a, Evt> where Evt: Event {
    fn pop_event(&mut self) -> (r: Option<Evt>)
        ensures
            r == old(self)@.front(),
            final(self)@ == old(self)@.pop(),
            final(self)@.wf(),
    {
        proof { use_type_invariant(&*self); }
        if self.len == 0 {
            return None;
        }
        let cap = self.slots.len();
        if cap == 0 {
            self.len = 0;
            return None;
        }
        let head = self.head;
        let ghost old_slots = self.slots@;
        self.len = self.len - 1;
        let next = if head + 1 == cap { 0 } else { head + 1 };
        proof {
            assert forall|i: int| 0 <= i < self.len implies (#[trigger] old_slots[ring_pos(
                next as int,
                i,
                cap as int,
            )]) is Some by {
                assert(ring_pos(next as int, i, cap as int) == ring_pos(
                    head as int,
                    i + 1,
                    cap as int,
                ));
            }
        }
        self.head = next;
        let mut event: Option<Evt> = None;
        core::mem::swap(&mut self.slots[head], &mut event);
        assert(self@.items =~= old(self)@.items.drop_first());
        event
    }
}

/// A fixed-capacity sink backed by a caller-provided slice of `Option<Act>`.
///
/// This avoids allocation and works in `no_std` environments. An action
/// pushed while the sink is full is dropped and the overflow flag is raised.
pub struct FixedActionSink<'a, Act> {
    slots: &'a mut [Option<Act>],
    len: usize,
    overflowed: bool,
}

impl<'a, Act> FixedActionSink<'a, Act> {
    #[verifier::type_invariant]
    closed spec fn prefix_inv(&self) -> bool {
        &&& self.len <= self.slots@.len()
        &&& forall|i: int| 0 <= i < self.len ==> (#[trigger] self.slots@[i]) is Some
    }

}

impl<'a, Act> View for FixedActionSink<'a, Act> {
    type V = BoundedFifo<Act>;

    /// The collected actions (oldest first), the capacity and the overflow flag.
    closed spec fn view(&self) -> BoundedFifo<Act> {
        BoundedFifo {
            items: Seq::new(self.len as nat, |i: int| self.slots@[i]->0),
            capacity: self.slots@.len(),
            overflowed: self.overflowed,
        }
    }
}

impl<'a, Act> FixedActionSink<'a, Act> {

    /// An empty sink whose capacity is the number of slots given. Whatever
    /// the slots hold is ignored and overwritten by later pushes.
    pub fn new(slots: &'a mut [Option<Act>]) -> (sink: Self)
        ensures
            sink@ == BoundedFifo::<Act>::empty(old(slots)@.len()),
    {
        let sink = FixedActionSink { slots, len: 0, overflowed: false };
        assert(sink@.items =~= Seq::<Act>::empty());
        sink
    }

    /// Whether a push has ever found the sink full.
    pub fn overflowed(&self) -> (r: bool)
        ensures
            r == self@.overflowed,
    {
        self.overflowed
    }

    /// Takes every collected action out of the sink, oldest first, leaving
    /// it empty; capacity and overflow flag stay.
    pub fn drain(&mut self) -> (drained: Vec<Act>)
        ensures
            drained@ == old(self)@.items,
            final(self)@ == old(self)@.cleared(),
    {
        proof { use_type_invariant(&*self); }
        let len = self.len;
        let ghost old_items = old(self)@.items;
        let ghost old_slots = self.slots@;
        self.len = 0;
        let mut drained: Vec<Act> = Vec::new();
        let mut i: usize = 0;
        while i < len
            invariant
                i <= len,
                len <= self.slots@.len(),
                self.len == 0,
                self.overflowed == old(self).overflowed,
                self.slots@.len() == old_slots.len(),
                old_items.len() == len,
                forall|j: int| 0 <= j < len ==> (#[trigger] old_slots[j]) is Some,
                forall|j: int| 0 <= j < len ==> old_items[j] == old_slots[j]->0,
                forall|j: int| i <= j < len ==> self.slots@[j] == old_slots[j],
                drained@ == old_items.take(i as int),
            decreases len - i,
        {
            let mut slot: Option<Act> = None;
            core::mem::swap(&mut self.slots[i], &mut slot);
            assert(slot == old_slots[i as int]);
            match slot {
                Some(action) => {
                    drained.push(action);
                },
                None => {},
            }
            assert(old_items.take(i + 1) =~= old_items.take(i as int).push(old_items[i as int]));
            i = i + 1;
        }
        assert(old_items.take(len as int) =~= old_items);
        assert(self@.items =~= Seq::<Act>::empty());
        drained
    }
}

impl<'a, Act> ActionSink<Act> for FixedActionSink<'a, Act> {
    fn push(&mut self, action: Act)
        ensures
            final(self)@ == old(self)@.push(action),
            final(self)@.wf(),
    {
        proof { use_type_invariant(&*self); }
        if self.len < self.slots.len() {
            let ghost old_slots = self.slots@;
            let len = self.len;
            self.slots[len] = Some(action);
            proof {
                assert forall|i: int| 0 <= i < len + 1 implies (#[trigger] self.slots@[i]) is Some by {
                    if i < len {
                        assert(old_slots[i] is Some);
                    }
                }
            }
            self.len = len + 1;
            assert(self@.items =~= old(self)@.items.push(action));
        } else {
            self.overflowed = true;
        }
    }
}

/// A `heapless`-backed FIFO queue for domain events: it holds at most `N`
/// events; an event pushed while it is full is dropped and the overflow flag
/// is raised.
#[verifier::reject_recursive_types(Evt)]
pub struct HeaplessEventQueue<Evt, const N: usize> where Evt: Event {
    queue: ModeledDeque<Evt, N>,
    overflowed: bool,
}

impl<Evt, const N: usize> View for HeaplessEventQueue<Evt, N> where Evt: Event {
    type V = BoundedFifo<Evt>;

    /// The queued events (oldest first), the capacity `N` and the overflow flag.
    closed spec fn view(&self) -> BoundedFifo<Evt> {
        BoundedFifo { items: self.queue.items(), capacity: N as nat, overflowed: self.overflowed }
    }
}

impl<Evt, const N: usize> HeaplessEventQueue<Evt, N> where Evt: Event {
    /// An empty queue of capacity `N`; a capacity of zero does not compile.
    pub fn new() -> (queue: Self)
        requires
            N > 0,
        ensures
            queue@ == BoundedFifo::<Evt>::empty(N as nat),
    {
        HeaplessEventQueue { queue: ModeledDeque::new(), overflowed: false }
    }

    /// Whether a push has ever found the queue full.
    pub fn overflowed(&self) -> (r: bool)
        ensures
            r == self@.overflowed,
    {
        self.overflowed
    }

    /// The number of queued events, which never exceeds the capacity `N`.
    pub fn len(&self) -> (r: usize)
        ensures
            r == self@.items.len(),
            self@.capacity == N,
            self@.wf(),
    {
        proof { use_type_invariant(&self.queue); }
        self.queue.len()
    }

    /// Whether no event is queued.
    pub fn is_empty(&self) -> (r: bool)
        ensures
            r == (self@.items.len() == 0),
    {
        self.queue.len() == 0
    }
}

impl<Evt, const N: usize> EventSink<Evt> for HeaplessEventQueue<Evt, N> where Evt: Event {
    fn push_event(&mut self, event: Evt)
        ensures
            final(self)@ == old(self)@.push(event),
            final(self)@.wf(),
    {
        proof { use_type_invariant(&self.queue); }
        if self.queue.push_back(event).is_err() {
            self.overflowed = true;
        }
    }
}

impl<Evt, const N: usize> EventSource<Evt> for HeaplessEventQueue<Evt, N> where Evt: Event {
    fn pop_event(&mut self) -> (r: Option<Evt>)
        ensures
            r == old(self)@.front(),
            final(self)@ == old(self)@.pop(),
            final(self)@.wf(),
    {
        proof { use_type_invariant(&self.queue); }
        self.queue.pop_front()
    }
}

/// A `heapless`-backed action sink with FIFO draining: it holds at most `N`
/// actions; an action pushed while it is full is dropped and the overflow
/// flag is raised.
#[verifier::reject_recursive_types(Act)]
pub struct HeaplessActionSink<Act, const N: usize> {
    queue: ModeledDeque<Act, N>,
    overflowed: bool,
}

impl<Act, const N: usize> View for HeaplessActionSink<Act, N> {
    type V = BoundedFifo<Act>;

    /// The collected actions (oldest first), the capacity `N` and the overflow flag.
    closed spec fn view(&self) -> BoundedFifo<Act> {
        BoundedFifo { items: self.queue.items(), capacity: N as nat, overflowed: self.overflowed }
    }
}

impl<Act, const N: usize> HeaplessActionSink<Act, N> {
    /// An empty sink of capacity `N`; a capacity of zero does not compile.
    pub fn new() -> (sink: Self)
        requires
            N > 0,
        ensures
            sink@ == BoundedFifo::<Act>::empty(N as nat),
    {
        HeaplessActionSink { queue: ModeledDeque::new(), overflowed: false }
    }

    /// Whether a push has ever found the sink full.
    pub fn overflowed(&self) -> (r: bool)
        ensures
            r == self@.overflowed,
    {
        self.overflowed
    }

    /// The number of collected actions, which never exceeds the capacity `N`.
    pub fn len(&self) -> (r: usize)
        ensures
            r == self@.items.len(),
            self@.capacity == N,
            self@.wf(),
    {
        proof { use_type_invariant(&self.queue); }
        self.queue.len()
    }

    /// Whether no action is collected.
    pub fn is_empty(&self) -> (r: bool)
        ensures
            r == (self@.items.len() == 0),
    {
        self.queue.len() == 0
    }

    /// Takes the oldest collected action out of the sink, if any; the other
    /// actions stay collected, in order.
    pub fn pop_action(&mut self) -> (r: Option<Act>)
        ensures
            r == old(self)@.front(),
            final(self)@ == old(self)@.pop(),
            final(self)@.wf(),
    {
        proof { use_type_invariant(&self.queue); }
        self.queue.pop_front()
    }

    /// Takes every collected action out of the sink at once, oldest first,
    /// leaving it empty; the overflow flag stays. A caller that wants only
    /// some of them takes them one at a time with `pop_action`, and the rest
    /// stay collected.
    pub fn drain(&mut self) -> (drained: Vec<Act>)
        ensures
            drained@ == old(self)@.items,
            final(self)@ == old(self)@.cleared(),
    {
        let ghost items = self@.items;
        let mut drained: Vec<Act> = Vec::new();
        loop
            invariant
                items == drained@ + self@.items,
                self.overflowed == old(self).overflowed,
            ensures
                self@.items.len() == 0,
            decreases self@.items.len(),
        {
            match self.pop_action() {
                Some(action) => {
                    drained.push(action);
                },
                None => {
                    break;
                },
            }
        }
        assert(drained@ =~= items);
        assert(self@.items =~= Seq::<Act>::empty());
        drained
    }
}

impl<Act, const N: usize> ActionSink<Act> for HeaplessActionSink<Act, N> {
    fn push(&mut self, action: Act)
        ensures
            final(self)@ == old(self)@.push(action),
            final(self)@.wf(),
    {
        proof { use_type_invariant(&self.queue); }
        if self.queue.push_back(action).is_err() {
            self.overflowed = true;
        }
    }
}

/// Core FSM boundary: consume a typed event and emit typed actions.
pub trait DispatchEvent<Evt, Act> where Evt: Event {
    fn dispatch<Sink>(&mut self, event: Evt, actions: &mut Sink) where Sink: ActionSink<Act>;
}

/// Runtime boundary: execute one action and optionally return a follow-up event.
pub trait ActionRunner<Act, Evt> where Evt: Event {
    fn run_action(&mut self, action: Act) -> Option<Evt>;
}

} // verus!
