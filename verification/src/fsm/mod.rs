pub mod action;
mod deque;
pub mod event;
pub mod fifo;
pub mod guard;
pub mod runtime;
pub mod state;
pub mod transition;

pub use action::Action;
pub use event::Event;
pub use event::HandleEvent;
pub use guard::Guard;
pub use state::State;
pub use transition::Transition;
pub use transition::TransitionResult;
