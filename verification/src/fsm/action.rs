use vstd::prelude::*;

verus! {

/// Behaviour run for a state and an event, which may fail with `E`.
pub trait Action<S, Evt, E> {
    fn execute(&self, state: &S, event: &Evt) -> Result<(), E>;
}

} // verus!
