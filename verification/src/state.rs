//! A transition between two states of one type, guarded by a condition
//! that needs no input and running a fallible action when it fires.
use vstd::prelude::*;

verus! {

/// Behaviour run when a transition fires; it yields a value or fails.
pub trait Action<R, E> {
    fn execute(&self) -> Result<R, E>;
}

/// Decides whether a transition may fire.
///
/// An implementation whose answer is a function of the guard can say so: it
/// sets `obeys_check_spec` to `true` and gives that answer as `check_spec`,
/// and `check` must then answer by it.
pub trait Guard {
    /// Whether `check` answers by `check_spec`; unless an implementation
    /// says so, nothing is known of its answer.
    open spec fn obeys_check_spec() -> bool {
        false
    }

    /// The answer `check` gives, where `obeys_check_spec` holds.
    open spec fn check_spec(&self) -> bool {
        false
    }

    fn check(&self) -> (r: bool)
        ensures
            Self::obeys_check_spec() ==> r == self.check_spec(),
    ;
}

/// A state with fallible lifecycle hooks.
pub trait State<E> {
    fn on_enter(&self) -> Result<(), E>;

    fn on_exit(&self) -> Result<(), E>;
}

/// A transition from the state `from` to the state `to`.
pub struct Transition<St, G, A> {
    from: St,
    to: St,
    guard: G,
    action: A,
}

impl<St, G, A> Transition<St, G, A> {
    /// The state the transition leaves.
    pub closed spec fn source(&self) -> St {
        self.from
    }

    /// The state the transition leads to.
    pub closed spec fn destination_state(&self) -> St {
        self.to
    }

    /// The guard of the transition.
    pub closed spec fn guard(&self) -> G {
        self.guard
    }

    /// The action of the transition.
    pub closed spec fn action(&self) -> A {
        self.action
    }

    pub fn new(from: St, to: St, guard: G, action: A) -> (t: Self)
        ensures
            t.source() == from,
            t.destination_state() == to,
            t.guard() == guard,
            t.action() == action,
    {
        Transition { from, to, guard, action }
    }

    /// The state the system is in once the guard has answered: `to` when
    /// the transition is allowed, `from` otherwise.
    pub fn destination(&self, allowed: bool) -> (s: St) where St: Copy
        ensures
            s == (if allowed { self.destination_state() } else { self.source() }),
    {
        if allowed {
            self.to
        } else {
            self.from
        }
    }

    /// Fires the transition. When the guard refuses, the system stays in
    /// `from` and nothing else runs. When it allows, the exit hook of `from`
    /// runs, then the action, and the system moves to `to`; what the hook and
    /// the action return does not change the outcome.
    pub fn on_trigger<R, E>(&self) -> (r: Result<St, E>) where
        St: State<E> + Copy,
        G: Guard,
        A: Action<R, E>,

        ensures
            r == Ok::<St, E>(self.source()) || r == Ok::<St, E>(self.destination_state()),
            G::obeys_check_spec() ==> r == Ok::<St, E>(
                if self.guard().check_spec() { self.destination_state() } else { self.source() },
            ),
            G::obeys_check_spec() && self.guard().check_spec() ==> exists|o: Result<(), E>|
                call_ensures(<St as State<E>>::on_exit, (&self.source(),), o),
            G::obeys_check_spec() && self.guard().check_spec() ==> exists|o: Result<R, E>|
                call_ensures(A::execute, (&self.action(),), o),
    {
        let allowed = self.guard.check();
        if allowed {
            let exited = self.from.on_exit();
            let acted = self.action.execute();
            assert(call_ensures(<St as State<E>>::on_exit, (&self.source(),), exited));
            assert(call_ensures(A::execute, (&self.action(),), acted));
        }
        Ok(self.destination(allowed))
    }
}

} // verus!
