use vstd::prelude::*;

verus! {

/// Direction sampler of the diffuse material: scatters about the normal by
/// a random offset inside the unit ball.
#[derive(Clone, Copy, Debug, Default, PartialEq, Eq, Structural)]
pub struct SimpleLambertianBsdfQuerySampler {}

impl SimpleLambertianBsdfQuerySampler {
    pub fn new() -> (s: Self)
        ensures
            s == (SimpleLambertianBsdfQuerySampler {}),
    {
        SimpleLambertianBsdfQuerySampler {}
    }
}

/// Direction sampler of the glossy metal: mirror reflection perturbed by the
/// metal's fuzz.
#[derive(Clone, Copy, Debug, Default, PartialEq, Eq, Structural)]
pub struct SimpleMetalBsdfQuerySampler {}

impl SimpleMetalBsdfQuerySampler {
    pub fn new() -> (s: Self)
        ensures
            s == (SimpleMetalBsdfQuerySampler {}),
    {
        SimpleMetalBsdfQuerySampler {}
    }
}

/// Direction sampler of the dielectric: refraction by Snell's law, or
/// reflection with the Schlick probability or under total internal
/// reflection.
#[derive(Clone, Copy, Debug, Default, PartialEq, Eq, Structural)]
pub struct SimpleDielectricBsdfQuerySampler {}

impl SimpleDielectricBsdfQuerySampler {
    pub fn new() -> (s: Self)
        ensures
            s == (SimpleDielectricBsdfQuerySampler {}),
    {
        SimpleDielectricBsdfQuerySampler {}
    }
}

/// A material that absorbs nearly all incident light.
#[derive(Clone, Copy, Debug, PartialEq, Eq, Structural)]
pub struct BlackBodyBsdf {}

impl BlackBodyBsdf {
    pub fn new() -> (b: Self)
        ensures
            b == (BlackBodyBsdf {}),
    {
        BlackBodyBsdf {}
    }
}

/// Direction sampler of the black body: passes the incoming direction
/// through unchanged.
#[derive(Clone, Copy, Debug, Default, PartialEq, Eq, Structural)]
pub struct BlackBodyBsdfQuerySampler {}

impl BlackBodyBsdfQuerySampler {
    pub fn new() -> (s: Self)
        ensures
            s == (BlackBodyBsdfQuerySampler {}),
    {
        BlackBodyBsdfQuerySampler {}
    }
}

} // verus!
