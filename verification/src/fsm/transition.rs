//! A guarded transition from a state to a target state.
use vstd::prelude::*;
use crate::fsm::event::Event;
use crate::fsm::guard::Guard;
use crate::fsm::state::State;
use core::marker::PhantomData;

verus! {

/// Models effect behaviour when a transition actually happens.
pub trait TransitionEffect<S, Evt> where S: State, Evt: Event {
    fn execute(&self, state: &S, event: &Evt);
}

/// What firing a transition gives back: the target state when the guard
/// let it fire, or the unchanged source state when it did not.
pub enum TransitionResult<T, S> {
    Transitioned(T),
    Stayed(S),
}

/// A transition out of a state of type `S` on an event of type `Evt` into
/// the target state `target`, guarded by `guard` and running `effect`.
pub struct Transition<S, Evt, Next, G, Eff> {
    target: Next,
    guard: G,
    effect: Eff,
    _marker: PhantomData<(S, Evt)>,
}

impl<S, Evt, Next, G, Eff> Transition<S, Evt, Next, G, Eff> {
    /// The state this transition leads to.
    pub closed spec fn target(&self) -> Next {
        self.target
    }

    /// The guard that decides whether this transition fires.
    pub closed spec fn guard(&self) -> G {
        self.guard
    }

    /// The effect run when this transition fires.
    pub closed spec fn effect(&self) -> Eff {
        self.effect
    }

    /// What firing this transition from `state` gives back, given whether
    /// the guard allowed it.
    pub open spec fn outcome(&self, state: S, allowed: bool) -> TransitionResult<Next, S> {
        if allowed {
            TransitionResult::Transitioned(self.target())
        } else {
            TransitionResult::Stayed(state)
        }
    }
}

impl<S, Evt, Next, G, Eff> Transition<S, Evt, Next, G, Eff> where G: Guard<S, Evt> {
    pub fn new(target: Next, guard: G, effect: Eff) -> (t: Self)
        ensures
            t.target() == target,
            t.guard() == guard,
            t.effect() == effect,
    {
        Transition { target, guard, effect, _marker: PhantomData }
    }

    /// Settles the transition once the guard has answered: the target
    /// state when `allowed`, otherwise `state` handed back unchanged.
    pub fn resolve(self, state: S, allowed: bool) -> (r: TransitionResult<Next, S>)
        ensures
            r == self.outcome(state, allowed),
            !allowed ==> r == TransitionResult::<Next, S>::Stayed(state),
            allowed ==> r == TransitionResult::<Next, S>::Transitioned(self.target()),
    {
        if allowed {
            TransitionResult::Transitioned(self.target)
        } else {
            TransitionResult::Stayed(state)
        }
    }

    /// Asks the guard whether the transition may fire for `state` and
    /// `event`. If it may, runs the exit hook of `state`, the effect and the
    /// entry hook of the target, and gives back the target; otherwise gives
    /// back `state` with no hook or effect run.
    pub fn fire(self, state: S, event: Evt) -> (r: TransitionResult<Next, S>) where
        S: State,
        Evt: Event,
        Next: State,
        Eff: TransitionEffect<S, Evt>,

        ensures
            r == self.outcome(state, true) || r == self.outcome(state, false),
            G::obeys_check_spec() ==> r == self.outcome(state, self.guard().check_spec(&state, &event)),
            r is Transitioned ==> call_ensures(S::on_exit, (&state,), ()),
            r is Transitioned ==> call_ensures(Eff::execute, (&self.effect(), &state, &event), ()),
            r is Transitioned ==> call_ensures(Next::on_enter, (&self.target(),), ()),
    {
        let allowed = self.guard.check(&state, &event);
        if allowed {
            state.on_exit();
            self.effect.execute(&state, &event);
            self.target.on_enter();
        }
        self.resolve(state, allowed)
    }
}

/// The guard alone decides a transition: when it refuses, the given state
/// comes back unchanged, whatever the state's type; when it allows, the
/// target comes back. The two outcomes never coincide.
pub proof fn law_guard_decides<S, Evt, Next, G, Eff>(t: Transition<S, Evt, Next, G, Eff>, state: S)
    ensures
        t.outcome(state, false) == TransitionResult::<Next, S>::Stayed(state),
        t.outcome(state, true) == TransitionResult::<Next, S>::Transitioned(t.target()),
        t.outcome(state, true) != t.outcome(state, false),
{
}

} // verus!
