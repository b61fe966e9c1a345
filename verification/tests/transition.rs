use std::cell::RefCell;

use uml_fsm::fsm::transition::TransitionEffect;
use uml_fsm::fsm::{Event, Guard, State, Transition, TransitionResult};
use uml_fsm::state;

#[derive(Debug, PartialEq, Eq)]
struct Idle(u8);

#[derive(Debug, PartialEq, Eq)]
struct Running(u8);

impl State for Idle {}
impl State for Running {}

struct Start;
impl Event for Start {}

struct Allow(bool);

impl Guard<Idle, Start> for Allow {
    fn check(&self, _state: &Idle, _event: &Start) -> bool {
        self.0
    }
}

struct Record<'a>(&'a RefCell<Vec<&'static str>>);

impl TransitionEffect<Idle, Start> for Record<'_> {
    fn execute(&self, _state: &Idle, _event: &Start) {
        self.0.borrow_mut().push("effect");
    }
}

#[test]
fn transition_fires_when_guard_allows() {
    let log = RefCell::new(Vec::new());
    let t = Transition::new(Running(2), Allow(true), Record(&log));
    match t.fire(Idle(1), Start) {
        TransitionResult::Transitioned(next) => assert_eq!(next, Running(2)),
        TransitionResult::Stayed(_) => panic!("the guard allowed the transition"),
    }
    assert_eq!(*log.borrow(), vec!["effect"]);
}

#[test]
fn transition_stays_when_guard_refuses() {
    let log = RefCell::new(Vec::new());
    let t = Transition::new(Running(2), Allow(false), Record(&log));
    match t.fire(Idle(1), Start) {
        TransitionResult::Stayed(state) => assert_eq!(state, Idle(1)),
        TransitionResult::Transitioned(_) => panic!("the guard refused the transition"),
    }
    assert!(log.borrow().is_empty());
}

#[test]
fn transition_resolve_follows_the_guard_answer() {
    let log = RefCell::new(Vec::new());
    let allowed = Transition::<Idle, Start, _, _, _>::new(Running(5), Allow(true), Record(&log));
    assert!(matches!(allowed.resolve(Idle(4), true), TransitionResult::Transitioned(Running(5))));
    let refused = Transition::<Idle, Start, _, _, _>::new(Running(5), Allow(true), Record(&log));
    assert!(matches!(refused.resolve(Idle(4), false), TransitionResult::Stayed(Idle(4))));
    assert!(log.borrow().is_empty());
}

#[derive(Clone, Copy, Debug, PartialEq, Eq)]
enum Light {
    Off,
    On,
}

impl state::State<&'static str> for Light {
    fn on_enter(&self) -> Result<(), &'static str> {
        Ok(())
    }

    fn on_exit(&self) -> Result<(), &'static str> {
        match self {
            Light::Off => Ok(()),
            Light::On => Err("stuck"),
        }
    }
}

struct Switch(bool);

impl state::Guard for Switch {
    fn check(&self) -> bool {
        self.0
    }
}

struct Flip(Result<u8, &'static str>);

impl state::Action<u8, &'static str> for Flip {
    fn execute(&self) -> Result<u8, &'static str> {
        self.0
    }
}

#[test]
fn state_transition_moves_when_guard_allows() {
    let t = state::Transition::new(Light::Off, Light::On, Switch(true), Flip(Ok(1)));
    assert_eq!(t.on_trigger::<u8, &'static str>(), Ok(Light::On));
}

#[test]
fn state_transition_stays_when_guard_refuses() {
    let t = state::Transition::new(Light::Off, Light::On, Switch(false), Flip(Err("never run")));
    assert_eq!(t.on_trigger::<u8, &'static str>(), Ok(Light::Off));
}

#[test]
fn state_transition_moves_despite_exit_failure() {
    let t = state::Transition::new(Light::On, Light::Off, Switch(true), Flip(Ok(1)));
    assert_eq!(t.on_trigger::<u8, &'static str>(), Ok(Light::Off));
}

#[test]
fn state_transition_moves_despite_action_failure() {
    let t = state::Transition::new(Light::Off, Light::On, Switch(true), Flip(Err("no power")));
    assert_eq!(t.on_trigger::<u8, &'static str>(), Ok(Light::On));
}

#[test]
fn state_transition_destination_follows_the_guard_answer() {
    let t = state::Transition::new(Light::Off, Light::On, Switch(true), Flip(Ok(1)));
    assert_eq!(t.destination(true), Light::On);
    assert_eq!(t.destination(false), Light::Off);
}
