//! `heapless::Deque` as the library uses it: a fixed-capacity FIFO whose
//! contents are tracked as a ghost sequence.
use vstd::prelude::*;

verus! {

#[verifier::external_type_specification]
#[verifier::external_body]
#[verifier::reject_recursive_types(T)]
pub struct ExDeque<T, const N: usize>(heapless::Deque<T, N>);

/// A `heapless::Deque<T, N>` together with the values it holds, oldest
/// first. Only the trusted methods below touch the deque, and each states
/// how its call changes those values.
#[verifier::reject_recursive_types(T)]
pub struct ModeledDeque<T, const N: usize> {
    deque: heapless::Deque<T, N>,
    contents: Ghost<Seq<T>>,
}

impl<T, const N: usize> ModeledDeque<T, N> {
    /// The values the deque holds, oldest first.
    pub closed spec fn items(&self) -> Seq<T> {
        self.contents@
    }

    /// A deque never holds more than its capacity `N`.
    #[verifier::type_invariant]
    pub open spec fn within_capacity(&self) -> bool {
        self.items().len() <= N
    }

    /// `heapless::Deque::new`: an empty deque. Its source rejects `N == 0`
    /// when the code is compiled.
    #[verifier::external_body]
    pub fn new() -> (d: Self)
        requires
            N > 0,
        ensures
            d.items() == Seq::<T>::empty(),
    {
        ModeledDeque { deque: heapless::Deque::new(), contents: Ghost(Seq::empty()) }
    }

    /// `heapless::Deque::push_back`: appends `item` when fewer than `N`
    /// values are held; otherwise hands `item` back as the error and changes
    /// nothing.
    #[verifier::external_body]
    pub fn push_back(&mut self, item: T) -> (r: Result<(), T>)
        ensures
            old(self).items().len() < N ==> r is Ok && final(self).items() == old(self).items().push(item),
            old(self).items().len() >= N ==> r is Err && r->Err_0 == item && final(self).items() == old(self).items(),
    {
        self.deque.push_back(item)
    }

    /// `heapless::Deque::pop_front`: removes and returns the oldest value, or
    /// returns `None` and changes nothing when the deque is empty.
    #[verifier::external_body]
    pub fn pop_front(&mut self) -> (r: Option<T>)
        ensures
            old(self).items().len() == 0 ==> r is None && final(self).items() == old(self).items(),
            old(self).items().len() > 0 ==> r == Some(old(self).items()[0])
                && final(self).items() == old(self).items().drop_first(),
    {
        self.deque.pop_front()
    }

    /// `heapless::Deque::len`: the number of values held.
    #[verifier::external_body]
    pub fn len(&self) -> (r: usize)
        ensures
            r == self.items().len(),
    {
        self.deque.len()
    }
}

} // verus!
