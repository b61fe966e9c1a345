use vstd::prelude::*;

verus! {

/// The control loop driving a snubber node.
pub struct Control;

impl Default for Control {
    fn default() -> (c: Self)
        ensures
            c == Control,
    {
        Control
    }
}

} // verus!
