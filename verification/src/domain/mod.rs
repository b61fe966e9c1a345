mod control;
pub mod snubber_node;

pub use snubber_node::SnubberNode;
