//! A node of a snubber swarm: its identity, the load it expects to draw and
//! the control loop that drives it.
use vstd::prelude::*;
use crate::domain::control::Control;

verus! {

/// A snubber node. The projected load is a 32-bit IEEE 754 value kept as
/// its bit pattern: the node carries it and hands it back unchanged.
pub struct SnubberNode {
    id: String,
    projected_load: u32,
    control: Control,
}

impl SnubberNode {
    /// The node's identifier.
    pub closed spec fn spec_id(&self) -> Seq<char> {
        self.id@
    }

    /// The bit pattern of the node's projected load.
    pub closed spec fn spec_projected_load(&self) -> u32 {
        self.projected_load
    }

    /// A node with identifier `id` and the projected load whose bit pattern
    /// is `projected_load`, driven by a fresh control loop.
    pub fn new(id: String, projected_load: u32) -> (node: Self)
        ensures
            node.spec_id() == id@,
            node.spec_projected_load() == projected_load,
    {
        SnubberNode { id, projected_load, control: Control::default() }
    }

    /// The node's identifier.
    pub fn id(&self) -> (r: &str)
        ensures
            r@ == self.spec_id(),
    {
        self.id.as_str()
    }

    /// The bit pattern of the node's projected load.
    pub fn projected_load(&self) -> (r: u32)
        ensures
            r == self.spec_projected_load(),
    {
        self.projected_load
    }
}

} // verus!
