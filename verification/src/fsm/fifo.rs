//! The mathematical model shared by the bounded event queues and action
//! sinks: a first-in first-out sequence with a fixed capacity and a sticky
//! overflow flag.
use vstd::prelude::*;

verus! {

/// Abstract state of a bounded FIFO buffer.
///
/// `items` lists the buffered values, oldest first. A push that finds the
/// buffer full drops the value and raises `overflowed`, which then stays set.
pub struct BoundedFifo<T> {
    pub items: Seq<T>,
    pub capacity: nat,
    pub overflowed: bool,
}

impl<T> BoundedFifo<T> {
    /// An empty buffer that has never overflowed.
    pub open spec fn empty(capacity: nat) -> Self {
        BoundedFifo { items: Seq::empty(), capacity, overflowed: false }
    }

    /// The buffer holds no more than its capacity.
    pub open spec fn wf(self) -> bool {
        self.items.len() <= self.capacity
    }

    /// One more value fits.
    pub open spec fn has_room(self) -> bool {
        self.items.len() < self.capacity
    }

    /// Appends `x` at the back, or flags an overflow when the buffer is full.
    pub open spec fn push(self, x: T) -> Self {
        if self.has_room() {
            BoundedFifo { items: self.items.push(x), capacity: self.capacity, overflowed: self.overflowed }
        } else {
            BoundedFifo { items: self.items, capacity: self.capacity, overflowed: true }
        }
    }

    /// The oldest buffered value, if any.
    pub open spec fn front(self) -> Option<T> {
        if self.items.len() > 0 {
            Some(self.items[0])
        } else {
            None
        }
    }

    /// Removes the oldest buffered value, if any.
    pub open spec fn pop(self) -> Self {
        if self.items.len() > 0 {
            BoundedFifo { items: self.items.drop_first(), capacity: self.capacity, overflowed: self.overflowed }
        } else {
            self
        }
    }

    /// Removes every buffered value; capacity and overflow flag stay.
    pub open spec fn cleared(self) -> Self {
        BoundedFifo { items: Seq::empty(), capacity: self.capacity, overflowed: self.overflowed }
    }

    /// Pushes each value of `xs` in turn.
    pub open spec fn push_all(self, xs: Seq<T>) -> Self
        decreases xs.len(),
    {
        if xs.len() == 0 {
            self
        } else {
            self.push(xs[0]).push_all(xs.drop_first())
        }
    }

    /// The values that successive pops hand out until the buffer is empty.
    pub open spec fn pop_all(self) -> Seq<T>
        decreases self.items.len(),
    {
        if self.items.len() == 0 {
            Seq::empty()
        } else {
            seq![self.items[0]] + self.pop().pop_all()
        }
    }
}

/// One call on a queue or sink: a push of a value, a pop of the oldest
/// value, or a drain that takes every value out.
pub enum FifoOp<T> {
    Push(T),
    Pop,
    Drain,
}

impl<T> BoundedFifo<T> {
    /// The state after one call.
    pub open spec fn step(self, op: FifoOp<T>) -> Self {
        match op {
            FifoOp::Push(x) => self.push(x),
            FifoOp::Pop => self.pop(),
            FifoOp::Drain => self.cleared(),
        }
    }

    /// The values one call hands out: the oldest value for a pop of a
    /// non-empty buffer, every value for a drain, nothing otherwise.
    pub open spec fn handed_out(self, op: FifoOp<T>) -> Seq<T> {
        match op {
            FifoOp::Push(_) => Seq::empty(),
            FifoOp::Pop => if self.items.len() > 0 { seq![self.items[0]] } else { Seq::empty() },
            FifoOp::Drain => self.items,
        }
    }

    /// The value one call takes in: the pushed value when it fits.
    pub open spec fn taken_in(self, op: FifoOp<T>) -> Seq<T> {
        match op {
            FifoOp::Push(x) => if self.has_room() { seq![x] } else { Seq::empty() },
            _ => Seq::empty(),
        }
    }

    /// Whether one call is a push made while the buffer is full.
    pub open spec fn drops(self, op: FifoOp<T>) -> bool {
        op is Push && !self.has_room()
    }

    /// The state after a history of calls, made in order.
    pub open spec fn run(self, ops: Seq<FifoOp<T>>) -> Self
        decreases ops.len(),
    {
        if ops.len() == 0 {
            self
        } else {
            self.step(ops[0]).run(ops.drop_first())
        }
    }

    /// Everything a history of calls hands out, in order.
    pub open spec fn outputs(self, ops: Seq<FifoOp<T>>) -> Seq<T>
        decreases ops.len(),
    {
        if ops.len() == 0 {
            Seq::empty()
        } else {
            self.handed_out(ops[0]) + self.step(ops[0]).outputs(ops.drop_first())
        }
    }

    /// Every value a history of calls takes in, in order.
    pub open spec fn inputs(self, ops: Seq<FifoOp<T>>) -> Seq<T>
        decreases ops.len(),
    {
        if ops.len() == 0 {
            Seq::empty()
        } else {
            self.taken_in(ops[0]) + self.step(ops[0]).inputs(ops.drop_first())
        }
    }

    /// The number of pushes in a history of calls that found the buffer full.
    pub open spec fn dropped(self, ops: Seq<FifoOp<T>>) -> nat
        decreases ops.len(),
    {
        if ops.len() == 0 {
            0
        } else {
            (if self.drops(ops[0]) { 1nat } else { 0nat }) + self.step(ops[0]).dropped(ops.drop_first())
        }
    }
}

/// First in, first out over any history of pushes, pops and drains: what
/// has been handed out, followed by what is still buffered, is what was
/// buffered at the start followed by every value taken in, in order.
pub proof fn law_history_fifo<T>(q: BoundedFifo<T>, ops: Seq<FifoOp<T>>)
    ensures
        q.outputs(ops) + q.run(ops).items == q.items + q.inputs(ops),
    decreases ops.len(),
{
    if ops.len() > 0 {
        let q1 = q.step(ops[0]);
        let rest = ops.drop_first();
        law_history_fifo(q1, rest);
        match ops[0] {
            FifoOp::Push(x) => {
                assert(q.handed_out(ops[0]) =~= Seq::<T>::empty());
                assert(q1.items =~= q.items + q.taken_in(ops[0]));
            },
            FifoOp::Pop => {
                assert(q.taken_in(ops[0]) =~= Seq::<T>::empty());
                assert(q.handed_out(ops[0]) + q1.items =~= q.items);
            },
            FifoOp::Drain => {
                assert(q.taken_in(ops[0]) =~= Seq::<T>::empty());
                assert(q.handed_out(ops[0]) + q1.items =~= q.items);
            },
        }
        assert(q.outputs(ops) + q.run(ops).items =~= q.handed_out(ops[0]) + (q1.outputs(rest)
            + q1.run(rest).items));
        assert(q.items + q.inputs(ops) =~= (q.items + q.taken_in(ops[0])) + q1.inputs(rest));
    }
}

/// The number of values buffered after any history of calls is the number
/// at the start, plus the values taken in, minus the values handed out; it
/// never exceeds the capacity, which no call changes.
pub proof fn law_history_count<T>(q: BoundedFifo<T>, ops: Seq<FifoOp<T>>)
    requires
        q.wf(),
    ensures
        q.run(ops).items.len() == q.items.len() + q.inputs(ops).len() - q.outputs(ops).len(),
        q.run(ops).wf(),
        q.run(ops).capacity == q.capacity,
    decreases ops.len(),
{
    law_history_fifo(q, ops);
    if ops.len() > 0 {
        if let FifoOp::Push(x) = ops[0] {
            law_operations_keep_bound(q, x);
        }
        law_history_count(q.step(ops[0]), ops.drop_first());
    }
}

/// After any history of calls the overflow flag is raised exactly when it
/// was raised at the start or some push in the history found the buffer
/// full; no call lowers it.
pub proof fn law_history_overflow<T>(q: BoundedFifo<T>, ops: Seq<FifoOp<T>>)
    ensures
        q.run(ops).overflowed == (q.overflowed || q.dropped(ops) > 0),
    decreases ops.len(),
{
    if ops.len() > 0 {
        law_history_overflow(q.step(ops[0]), ops.drop_first());
    }
}

/// A drain gives the full capacity back: afterwards, pushing up to capacity
/// many values raises no overflow, and they come out in order.
pub proof fn law_drain_restores_capacity<T>(q: BoundedFifo<T>, xs: Seq<T>)
    requires
        xs.len() <= q.capacity,
    ensures
        q.cleared().push_all(xs).items == xs,
        q.cleared().push_all(xs).overflowed == q.overflowed,
        q.cleared().push_all(xs).pop_all() == xs,
{
    law_fifo(q.cleared(), xs);
    law_push_all(q.cleared(), xs);
    assert(Seq::<T>::empty() + xs =~= xs);
    assert(xs.take(xs.len() as int) =~= xs);
}

/// Physical slot of the `i`-th buffered value in a ring of `cap` slots whose
/// oldest value sits at `head` (for `head < cap` and `i < cap`).
pub open spec fn ring_pos(head: int, i: int, cap: int) -> int {
    if head + i < cap {
        head + i
    } else {
        head + i - cap
    }
}

/// Every operation keeps the number of buffered values within the capacity.
pub proof fn law_operations_keep_bound<T>(q: BoundedFifo<T>, x: T)
    requires
        q.wf(),
    ensures
        q.push(x).wf(),
        q.pop().wf(),
        q.cleared().wf(),
        q.push(x).capacity == q.capacity,
        q.pop().capacity == q.capacity,
        q.cleared().capacity == q.capacity,
{
}

/// Once an overflow has been flagged, no operation clears the flag.
pub proof fn law_overflow_is_sticky<T>(q: BoundedFifo<T>, x: T)
    requires
        q.overflowed,
    ensures
        q.push(x).overflowed,
        q.pop().overflowed,
        q.cleared().overflowed,
{
}

/// A push onto a full buffer loses nothing that was already buffered and
/// only raises the overflow flag.
pub proof fn law_full_push_keeps_contents<T>(q: BoundedFifo<T>, x: T)
    requires
        !q.has_room(),
    ensures
        q.push(x).items == q.items,
        q.push(x).overflowed,
{
}

/// Pushing a sequence keeps the values that fit, in order, drops the rest,
/// and flags an overflow exactly when something was dropped.
pub proof fn law_push_all<T>(q: BoundedFifo<T>, xs: Seq<T>)
    requires
        q.wf(),
    ensures
        ({
            let room = q.capacity - q.items.len();
            let kept = if xs.len() <= room { xs.len() as int } else { room };
            &&& q.push_all(xs).items == q.items + xs.take(kept)
            &&& q.push_all(xs).overflowed == (q.overflowed || xs.len() > room)
            &&& q.push_all(xs).capacity == q.capacity
        }),
    decreases xs.len(),
{
    let room = q.capacity - q.items.len();
    if xs.len() == 0 {
        assert(xs.take(0) =~= Seq::<T>::empty());
        assert(q.items + xs.take(0) =~= q.items);
    } else {
        let q1 = q.push(xs[0]);
        let rest = xs.drop_first();
        law_push_all(q1, rest);
        if q.has_room() {
            let room1 = q1.capacity - q1.items.len();
            let kept1 = if rest.len() <= room1 { rest.len() as int } else { room1 };
            let kept = if xs.len() <= room { xs.len() as int } else { room };
            assert(kept == kept1 + 1);
            assert(q1.items + rest.take(kept1) =~= q.items + xs.take(kept));
        } else {
            assert(xs.take(0) =~= Seq::<T>::empty());
            assert(q.items + xs.take(0) =~= q.items);
        }
    }
}

/// Popping until empty hands out the buffered values oldest first.
pub proof fn law_pop_all<T>(q: BoundedFifo<T>)
    ensures
        q.pop_all() == q.items,
    decreases q.items.len(),
{
    if q.items.len() > 0 {
        law_pop_all(q.pop());
        assert(seq![q.items[0]] + q.items.drop_first() =~= q.items);
    }
}

/// First in, first out: values pushed while they fit come out of the buffer
/// after the values already there, in the order they went in.
pub proof fn law_fifo<T>(q: BoundedFifo<T>, xs: Seq<T>)
    requires
        q.wf(),
        q.items.len() + xs.len() <= q.capacity,
    ensures
        q.push_all(xs).pop_all() == q.items + xs,
        q.push_all(xs).overflowed == q.overflowed,
{
    law_push_all(q, xs);
    law_pop_all(q.push_all(xs));
    assert(xs.take(xs.len() as int) =~= xs);
}

/// Taking everything out leaves nothing to take a second time; the
/// capacity and the overflow flag are untouched.
pub proof fn law_clearing_empties<T>(q: BoundedFifo<T>)
    ensures
        q.cleared().items.len() == 0,
        q.cleared().pop_all().len() == 0,
        q.cleared().cleared() == q.cleared(),
        q.cleared().capacity == q.capacity,
        q.cleared().overflowed == q.overflowed,
{
    law_pop_all(q.cleared());
}

/// A buffer of capacity zero never holds anything; any push flags overflow.
pub proof fn law_zero_capacity<T>(xs: Seq<T>)
    ensures
        BoundedFifo::<T>::empty(0).push_all(xs).items.len() == 0,
        BoundedFifo::<T>::empty(0).push_all(xs).overflowed == (xs.len() > 0),
{
    law_push_all(BoundedFifo::<T>::empty(0), xs);
}

} // verus!
