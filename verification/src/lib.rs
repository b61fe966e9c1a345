pub mod domain;
pub mod fsm;
pub mod state;

pub use domain::SnubberNode;
