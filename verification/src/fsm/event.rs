use vstd::prelude::*;

verus! {

/// A marker trait for events that trigger transitions in the FSM.
pub trait Event {}

/// Transition logic for a `(State, Event)` pair: consuming the state and the
/// event yields whatever the transition produces.
pub trait HandleEvent<Evt> where Evt: Event {
    type Output;

    fn handle(self, event: Evt) -> Self::Output;
}

} // verus!
