use vstd::prelude::*;

verus! {

/// Decides whether a transition may fire for a state and an event.
///
/// An implementation whose answer is a function of the guard, the state and
/// the event can say so: it sets `obeys_check_spec` to `true` and gives that
/// function as `check_spec`, and `check` must then answer by it.
pub trait Guard<S, Evt> {
    /// Whether `check` answers by `check_spec`; unless an implementation
    /// says so, nothing is known of its answer.
    open spec fn obeys_check_spec() -> bool {
        false
    }

    /// The answer `check` gives, where `obeys_check_spec` holds.
    open spec fn check_spec(&self, state: &S, event: &Evt) -> bool {
        false
    }

    fn check(&self, state: &S, event: &Evt) -> (r: bool)
        ensures
            Self::obeys_check_spec() ==> r == self.check_spec(state, event),
    ;
}

} // verus!
