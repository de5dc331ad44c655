use vstd::prelude::*;

verus! {

/// What the path integrator does after casting the ray of a path vertex.
#[derive(Clone, Copy, Debug, PartialEq, Eq, Structural)]
pub enum PathStep {
    /// The ray left the scene: the path ends with the sky radiance.
    Sky,
    /// The ray hit a surface within the depth budget: scatter there and
    /// trace the next vertex at `depth`.
    Scatter { depth: usize },
    /// The ray hit a surface at the maximum depth: the path ends with no
    /// contribution.
    Cutoff,
}

pub open spec fn path_step_spec(depth: nat, max_depth: nat, hit: bool) -> PathStep {
    if !hit {
        PathStep::Sky
    } else if depth < max_depth {
        PathStep::Scatter { depth: (depth + 1) as usize }
    } else {
        PathStep::Cutoff
    }
}

/// The rule of the recursive path integrator at path depth `depth`: a miss
/// ends the path at the sky, a hit below `max_depth` scatters one level
/// deeper, and a hit at or beyond `max_depth` is cut off.
pub fn path_step(depth: usize, max_depth: usize, hit: bool) -> (s: PathStep)
    ensures
        s == path_step_spec(depth as nat, max_depth as nat, hit),
{
    if !hit {
        PathStep::Sky
    } else if depth < max_depth {
        PathStep::Scatter { depth: depth + 1 }
    } else {
        PathStep::Cutoff
    }
}

} // verus!
