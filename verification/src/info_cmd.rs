use vstd::prelude::*;

verus! {

/// The info command: it takes no arguments and prints the tool's version and
/// storage locations.
#[derive(Debug, Clone, Copy, PartialEq, Eq, Structural)]
pub struct Cmd {}

impl Cmd {
    pub fn new() -> (r: Self)
        ensures
            r == (Cmd {  }),
    {
        Cmd {  }
    }
}

} // verus!
