use vstd::prelude::*;

verus! {

/// The comparison flags that `CMP` sets and conditional jumps read.
#[derive(Debug, Clone, Copy, PartialEq, Eq, Structural)]
pub struct Flags {
    pub eq: bool,
    pub lt: bool,
}

impl Flags {
    pub fn new() -> (r: Self)
        ensures
            !r.eq,
            !r.lt,
    {
        Flags { eq: false, lt: false }
    }
}

} // verus!
