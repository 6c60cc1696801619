use vstd::prelude::*;

verus! {

/// What the user has selected.
#[derive(Clone, Copy, Debug, PartialEq, Eq, Structural)]
pub struct Selections {
    /// The position of the selected machine in the user's machine list.
    pub selected_machine: Option<usize>,
}

impl Default for Selections {
    fn default() -> (r: Self)
        ensures
            r.selected_machine is None,
    {
        Selections { selected_machine: None }
    }
}

} // verus!
