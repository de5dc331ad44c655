use vstd::prelude::*;

verus! {

/// Why a ray missed. `T` is the scalar type of ray parameters.
#[derive(Clone, Copy, Debug, PartialEq)]
pub enum Reason<T> {
    HitBeforeMin { t_got: T },
    HitBeforeMax { t_got: T },
    NoIntersection,
}

/// Where a ray meets a surface: the ray parameter `t`, the point, and the
/// outward unit normal there. `P` is the type of points and vectors.
#[derive(Clone, Copy, Debug, PartialEq)]
pub struct IntersectionData<T, P> {
    pub t: T,
    pub point: P,
    pub normal: P,
}

impl<T, P> IntersectionData<T, P> {
    pub fn new(t: T, point: P, normal: P) -> (d: Self)
        ensures
            d == (IntersectionData { t, point, normal }),
    {
        IntersectionData { t, point, normal }
    }
}

/// The outcome of a ray-surface query: a transversal hit, a grazing
/// (tangent) hit, or a miss with its reason.
#[derive(Clone, Copy, Debug, PartialEq)]
pub enum IntersectionResult<T, P> {
    Hit(IntersectionData<T, P>),
    Tangent(IntersectionData<T, P>),
    Miss(Reason<T>),
}

impl<T, P> IntersectionResult<T, P> {
    /// The ray parameter of a hit or a tangent.
    pub open spec fn t(self) -> T
        recommends
            !(self is Miss),
    {
        match self {
            IntersectionResult::Hit(d) => d.t,
            IntersectionResult::Tangent(d) => d.t,
            IntersectionResult::Miss(_) => arbitrary(),
        }
    }

    pub fn new_hit(t: T, point: P, normal: P) -> (r: Self)
        ensures
            r == IntersectionResult::<T, P>::Hit(IntersectionData { t, point, normal }),
    {
        IntersectionResult::Hit(IntersectionData::new(t, point, normal))
    }

    pub fn new_tangent(t: T, point: P, normal: P) -> (r: Self)
        ensures
            r == IntersectionResult::<T, P>::Tangent(IntersectionData { t, point, normal }),
    {
        IntersectionResult::Tangent(IntersectionData::new(t, point, normal))
    }

    pub fn new_miss(reason: Reason<T>) -> (r: Self)
        ensures
            r == IntersectionResult::<T, P>::Miss(reason),
    {
        IntersectionResult::Miss(reason)
    }

    pub fn is_hit(&self) -> (b: bool)
        ensures
            b == (*self is Hit),
    {
        match self {
            IntersectionResult::Hit(_) => true,
            _ => false,
        }
    }

    pub fn is_tangent(&self) -> (b: bool)
        ensures
            b == (*self is Tangent),
    {
        match self {
            IntersectionResult::Tangent(_) => true,
            _ => false,
        }
    }

    pub fn is_miss(&self) -> (b: bool)
        ensures
            b == (*self is Miss),
    {
        match self {
            IntersectionResult::Miss(_) => true,
            _ => false,
        }
    }

    /// Whether the ray meets the surface at all, transversally or grazing.
    pub fn is_hit_or_tangent(&self) -> (b: bool)
        ensures
            b == (*self is Hit || *self is Tangent),
            b == !(*self is Miss),
    {
        match self {
            IntersectionResult::Hit(_) | IntersectionResult::Tangent(_) => true,
            _ => false,
        }
    }
}

impl<T: Copy, P: Copy> IntersectionResult<T, P> {
    pub fn unwrap_hit(&self) -> (d: IntersectionData<T, P>)
        requires
            *self is Hit,
        ensures
            *self == IntersectionResult::<T, P>::Hit(d),
    {
        match self {
            IntersectionResult::Hit(value) => *value,
            _ => unreached(),
        }
    }

    pub fn unwrap_tangent(&self) -> (d: IntersectionData<T, P>)
        requires
            *self is Tangent,
        ensures
            *self == IntersectionResult::<T, P>::Tangent(d),
    {
        match self {
            IntersectionResult::Tangent(value) => *value,
            _ => unreached(),
        }
    }

    /// The intersection data of a hit or a tangent.
    pub fn unwrap_hit_or_tangent(&self) -> (d: IntersectionData<T, P>)
        requires
            !(*self is Miss),
        ensures
            *self is Hit ==> *self == IntersectionResult::<T, P>::Hit(d),
            *self is Tangent ==> *self == IntersectionResult::<T, P>::Tangent(d),
    {
        match self {
            IntersectionResult::Hit(value) | IntersectionResult::Tangent(value) => *value,
            _ => unreached(),
        }
    }

    /// Applies `f` to the data of a hit or a tangent, keeping its kind; a miss
    /// passes through unchanged. This carries a result from one coordinate
    /// frame to another.
    pub fn map_data<Q, F: Fn(IntersectionData<T, P>) -> IntersectionData<T, Q>>(
        &self,
        f: F,
    ) -> (r: IntersectionResult<T, Q>)
        requires
            forall|d: IntersectionData<T, P>| #[trigger] f.requires((d,)),
        ensures
            *self matches IntersectionResult::Hit(d) ==> (r matches IntersectionResult::Hit(e)
                && f.ensures((d,), e)),
            *self matches IntersectionResult::Tangent(d) ==> (r matches IntersectionResult::Tangent(
                e,
            ) && f.ensures((d,), e)),
            *self matches IntersectionResult::Miss(reason) ==> r == IntersectionResult::<
                T,
                Q,
            >::Miss(reason),
    {
        match self {
            IntersectionResult::Hit(d) => IntersectionResult::Hit(f(*d)),
            IntersectionResult::Tangent(d) => IntersectionResult::Tangent(f(*d)),
            IntersectionResult::Miss(reason) => IntersectionResult::Miss(*reason),
        }
    }
}

} // verus!
