use vstd::prelude::*;

verus! {

/// A state a system can be in, with lifecycle hooks that a transition runs
/// when it leaves the state and when it enters the next one. Both hooks do
/// nothing unless the state overrides them.
pub trait State {
    fn on_enter(&self) {
    }

    fn on_exit(&self) {
    }
}

} // verus!
