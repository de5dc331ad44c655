use vstd::prelude::*;

verus! {

/// An emitter that emits no radiance.
#[derive(Clone, Copy, Debug, PartialEq, Eq, Structural)]
pub struct NoLight {}

impl NoLight {
    pub fn new() -> (l: Self)
        ensures
            l == (NoLight {}),
    {
        NoLight {}
    }
}

} // verus!
