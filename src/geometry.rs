use vstd::prelude::*;

verus! {

/// Sign of the half-discriminant `b² − a·c` of the ray-surface quadratic
/// `a·t² + 2b·t + c = 0`.
#[derive(Clone, Copy, Debug, PartialEq, Eq, Structural)]
pub enum DiscriminantSign {
    Negative,
    Zero,
    Positive,
}

/// One of the two roots `(−b ∓ √disc) / a`: the nearer along the ray or the
/// farther.
#[derive(Clone, Copy, Debug, PartialEq, Eq, Structural)]
pub enum Root {
    Near,
    Far,
}

/// Which root a ray-surface query reports, and as what kind of intersection.
#[derive(Clone, Copy, Debug, PartialEq, Eq, Structural)]
pub enum RootChoice {
    Hit(Root),
    Tangent(Root),
    Miss,
}

/// Two distinct real roots give a transversal hit and a double root a
/// tangent one; the nearer root inside the open query interval is taken, the
/// farther only when the nearer lies outside; without an admissible root, or
/// without a real one, the ray misses.
pub open spec fn root_choice(
    sign: DiscriminantSign,
    near_inside: bool,
    far_inside: bool,
) -> RootChoice {
    match sign {
        DiscriminantSign::Negative => RootChoice::Miss,
        DiscriminantSign::Zero => if near_inside {
            RootChoice::Tangent(Root::Near)
        } else if far_inside {
            RootChoice::Tangent(Root::Far)
        } else {
            RootChoice::Miss
        },
        DiscriminantSign::Positive => if near_inside {
            RootChoice::Hit(Root::Near)
        } else if far_inside {
            RootChoice::Hit(Root::Far)
        } else {
            RootChoice::Miss
        },
    }
}

/// Classifies a ray-surface quadratic from the sign of its half-discriminant
/// and from whether each root lies strictly inside the query interval.
pub fn choose_root(sign: DiscriminantSign, near_inside: bool, far_inside: bool) -> (c: RootChoice)
    ensures
        c == root_choice(sign, near_inside, far_inside),
{
    match sign {
        DiscriminantSign::Negative => RootChoice::Miss,
        DiscriminantSign::Zero => {
            if near_inside {
                RootChoice::Tangent(Root::Near)
            } else if far_inside {
                RootChoice::Tangent(Root::Far)
            } else {
                RootChoice::Miss
            }
        },
        DiscriminantSign::Positive => {
            if near_inside {
                RootChoice::Hit(Root::Near)
            } else if far_inside {
                RootChoice::Hit(Root::Far)
            } else {
                RootChoice::Miss
            }
        },
    }
}

/// A double root is never reported as a transversal hit: a zero
/// discriminant yields a tangent or a miss, and a tangent only from a zero
/// discriminant.
pub proof fn lemma_tangent_classification(
    sign: DiscriminantSign,
    near_inside: bool,
    far_inside: bool,
)
    ensures
        sign == DiscriminantSign::Zero ==> !(root_choice(sign, near_inside, far_inside) is Hit),
        root_choice(sign, near_inside, far_inside) is Tangent <==> (sign == DiscriminantSign::Zero
            && (near_inside || far_inside)),
        root_choice(sign, near_inside, far_inside) is Hit <==> (sign == DiscriminantSign::Positive
            && (near_inside || far_inside)),
{
}

} // verus!
