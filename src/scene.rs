use crate::query::IntersectionResult;
use vstd::prelude::*;

verus! {

/// `intersect` gives one result for each object and bound.
pub open spec fn is_deterministic_test<O, T, P, F: Fn(&O, T) -> IntersectionResult<T, P>>(
    intersect: F,
) -> bool {
    forall|o: &O, t: T, r1: IntersectionResult<T, P>, r2: IntersectionResult<T, P>|
        #[trigger] intersect.ensures((o, t), r1) && #[trigger] intersect.ensures((o, t), r2) ==> r1
            == r2
}

/// `nearer` gives one answer for each pair of ray parameters.
pub open spec fn is_deterministic_order<T, G: Fn(T, T) -> bool>(nearer: G) -> bool {
    forall|a: T, b: T, r1: bool, r2: bool|
        #[trigger] nearer.ensures((a, b), r1) && #[trigger] nearer.ensures((a, b), r2) ==> r1 == r2
}

/// What `intersect` returns for `object` tested up to `bound`.
pub open spec fn test_result<O, T, P, F: Fn(&O, T) -> IntersectionResult<T, P>>(
    intersect: F,
    object: &O,
    bound: T,
) -> IntersectionResult<T, P> {
    choose|r: IntersectionResult<T, P>| intersect.ensures((object, bound), r)
}

/// What `nearer` answers for `(a, b)`: whether `a` lies before `b` along the ray.
pub open spec fn nearer_result<T, G: Fn(T, T) -> bool>(nearer: G, a: T, b: T) -> bool {
    choose|r: bool| nearer.ensures((a, b), r)
}

/// The closest-so-far scan over `objects`, for the object test `test` and
/// the order `before` on ray parameters: each object is tested up to the
/// current bound, which is `t_max` until a hit or tangent is kept and the ray
/// parameter of the kept one afterwards; a hit or tangent before the bound
/// replaces the kept answer. The answer is the index of the kept object and
/// its result, or `None` when nothing was kept.
pub open spec fn nearest_scan<O, T, P>(
    test: spec_fn(O, T) -> IntersectionResult<T, P>,
    before: spec_fn(T, T) -> bool,
    objects: Seq<O>,
    t_max: T,
) -> Option<(int, IntersectionResult<T, P>)>
    decreases objects.len(),
{
    if objects.len() == 0 {
        None
    } else {
        let k = objects.len() - 1;
        let kept = nearest_scan(test, before, objects.take(k), t_max);
        let bound = scan_bound(kept, t_max);
        let r = test(objects[k], bound);
        if !(r is Miss) && before(r.t(), bound) {
            Some((k, r))
        } else {
            kept
        }
    }
}

/// The bound in force after a scan that kept `kept`.
pub open spec fn scan_bound<T, P>(kept: Option<(int, IntersectionResult<T, P>)>, t_max: T) -> T {
    match kept {
        Some((_, r)) => r.t(),
        None => t_max,
    }
}

/// The bound in force when the scan reaches `objects[j]`.
pub open spec fn bound_at<O, T, P>(
    test: spec_fn(O, T) -> IntersectionResult<T, P>,
    before: spec_fn(T, T) -> bool,
    objects: Seq<O>,
    t_max: T,
    j: int,
) -> T {
    scan_bound(nearest_scan(test, before, objects.take(j), t_max), t_max)
}

/// The object test that `intersect` computes.
pub open spec fn test_fn<O, T, P, F: Fn(&O, T) -> IntersectionResult<T, P>>(intersect: F) -> spec_fn(
    O,
    T,
) -> IntersectionResult<T, P> {
    |o: O, t: T| test_result(intersect, &o, t)
}

/// The order that `nearer` computes.
pub open spec fn order_fn<T, G: Fn(T, T) -> bool>(nearer: G) -> spec_fn(T, T) -> bool {
    |a: T, b: T| nearer_result(nearer, a, b)
}

/// Each test and comparison the scan over `objects` relies on is one that
/// `intersect` and `nearer` really returned.
pub open spec fn scan_calls_returned<O, T, P, F, G>(
    intersect: F,
    nearer: G,
    objects: Seq<O>,
    t_max: T,
) -> bool where F: Fn(&O, T) -> IntersectionResult<T, P>, G: Fn(T, T) -> bool {
    forall|j: int|
        0 <= j < objects.len() ==> {
            let b = #[trigger] bound_at(test_fn(intersect), order_fn(nearer), objects, t_max, j);
            let r = test_result(intersect, &objects[j], b);
            &&& intersect.ensures((&objects[j], b), r)
            &&& !(r is Miss) ==> nearer.ensures((r.t(), b), nearer_result(nearer, r.t(), b))
        }
}

/// `before` is a strict total order on ray parameters.
pub open spec fn is_strict_total_order<T>(before: spec_fn(T, T) -> bool) -> bool {
    &&& forall|a: T| !#[trigger] before(a, a)
    &&& forall|a: T, b: T, c: T| #[trigger] before(a, b) && #[trigger] before(b, c) ==> before(a, c)
    &&& forall|a: T, b: T| a != b ==> #[trigger] before(a, b) || before(b, a)
}

/// `test` behaves as a test against an open interval with upper end
/// `bound`: a hit or tangent lies before the bound, and a hit or tangent
/// found at one bound is found unchanged at any bound beyond it.
pub open spec fn is_interval_test<O, T, P>(
    test: spec_fn(O, T) -> IntersectionResult<T, P>,
    before: spec_fn(T, T) -> bool,
) -> bool {
    &&& forall|o: O, b: T| !(#[trigger] test(o, b) is Miss) ==> before(test(o, b).t(), b)
    &&& forall|o: O, b1: T, b2: T|
        !(#[trigger] test(o, b1) is Miss) && before(test(o, b1).t(), b2) ==> #[trigger] test(o, b2)
            == test(o, b1)
}

/// What the test of `objects[j]` gives against the whole query interval.
pub open spec fn full_test<O, T, P>(
    test: spec_fn(O, T) -> IntersectionResult<T, P>,
    objects: Seq<O>,
    j: int,
    t_max: T,
) -> IntersectionResult<T, P> {
    test(objects[j], t_max)
}

/// When the `ensures` of `intersect` and `nearer` fix their results to the
/// functions `test` and `before`, a scan whose calls were made (as
/// `Scene::ray_cast` ensures) is the scan over `test` and `before`.
pub proof fn lemma_scan_of_exact_closures<O, T, P, F, G>(
    intersect: F,
    nearer: G,
    test: spec_fn(O, T) -> IntersectionResult<T, P>,
    before: spec_fn(T, T) -> bool,
    objects: Seq<O>,
    t_max: T,
) where
    F: Fn(&O, T) -> IntersectionResult<T, P>,
    G: Fn(T, T) -> bool,

    requires
        forall|o: &O, t: T, r: IntersectionResult<T, P>| #[trigger]
            intersect.ensures((o, t), r) ==> r == test(*o, t),
        forall|a: T, b: T, r: bool| #[trigger] nearer.ensures((a, b), r) ==> r == before(a, b),
        scan_calls_returned(intersect, nearer, objects, t_max),
    ensures
        nearest_scan(test_fn(intersect), order_fn(nearer), objects, t_max) == nearest_scan(
            test,
            before,
            objects,
            t_max,
        ),
    decreases objects.len(),
{
    if objects.len() > 0 {
        let k = objects.len() - 1;
        let prefix = objects.take(k);
        assert forall|j: int| 0 <= j < prefix.len() implies {
            let b = #[trigger] bound_at(test_fn(intersect), order_fn(nearer), prefix, t_max, j);
            let r = test_result(intersect, &prefix[j], b);
            &&& intersect.ensures((&prefix[j], b), r)
            &&& !(r is Miss) ==> nearer.ensures((r.t(), b), nearer_result(nearer, r.t(), b))
        } by {
            assert(prefix.take(j) =~= objects.take(j));
            assert(prefix[j] == objects[j]);
            assert(bound_at(test_fn(intersect), order_fn(nearer), prefix, t_max, j) == bound_at(
                test_fn(intersect),
                order_fn(nearer),
                objects,
                t_max,
                j,
            ));
        }
        lemma_scan_of_exact_closures(intersect, nearer, test, before, prefix, t_max);
        let b = bound_at(test_fn(intersect), order_fn(nearer), objects, t_max, k);
        let r = test_result(intersect, &objects[k], b);
        assert(intersect.ensures((&objects[k], b), r));
        assert(r == test(objects[k], b));
        if !(r is Miss) {
            assert(nearer.ensures((r.t(), b), nearer_result(nearer, r.t(), b)));
        }
    }
}

/// The scan finds the nearest hit. For an interval test and a strict total
/// order: the scan keeps nothing exactly when every object misses the whole
/// interval; otherwise it keeps object `i` with the result of its test over
/// the whole interval, no object is hit nearer, and every object before `i`
/// is missed or hit strictly farther, so the first of equally near objects
/// wins.
pub proof fn lemma_nearest_scan<O, T, P>(
    test: spec_fn(O, T) -> IntersectionResult<T, P>,
    before: spec_fn(T, T) -> bool,
    objects: Seq<O>,
    t_max: T,
)
    requires
        is_strict_total_order(before),
        is_interval_test(test, before),
    ensures
        nearest_scan(test, before, objects, t_max) is None <==> forall|j: int|
            0 <= j < objects.len() ==> #[trigger] full_test(test, objects, j, t_max) is Miss,
        nearest_scan(test, before, objects, t_max) matches Some((i, r)) ==> {
            &&& 0 <= i < objects.len()
            &&& r == full_test(test, objects, i, t_max)
            &&& !(r is Miss)
            &&& before(r.t(), t_max)
            &&& forall|j: int|
                0 <= j < objects.len() && !(#[trigger] full_test(test,
                    objects,
                    j,
                    t_max,
                ) is Miss) ==> !before(full_test(test, objects, j, t_max).t(), r.t())
            &&& forall|j: int|
                0 <= j < i && !(#[trigger] full_test(test, objects, j, t_max) is Miss)
                    ==> before(r.t(), full_test(test, objects, j, t_max).t())
        },
    decreases objects.len(),
{
    if objects.len() > 0 {
        let k = objects.len() - 1;
        let prefix = objects.take(k);
        lemma_nearest_scan(test, before, prefix, t_max);
        assert forall|j: int| 0 <= j < k implies #[trigger] full_test(test, objects, j, t_max)
            == full_test(test, prefix, j, t_max) by {
            assert(objects[j] == prefix[j]);
        }
        let kept = nearest_scan(test, before, prefix, t_max);
        let base_k = full_test(test, objects, k, t_max);
        match kept {
            None => {},
            Some((i, r)) => {
                let rk = test(objects[k], r.t());
                if !(rk is Miss) {
                    assert(before(rk.t(), r.t()));
                    assert(before(rk.t(), t_max));
                    assert(base_k == rk);
                    assert forall|j: int|
                        0 <= j < objects.len() && !(#[trigger] full_test(test,
                            objects,
                            j,
                            t_max,
                        ) is Miss) implies !before(full_test(test, objects, j, t_max).t(),
                        rk.t(),
                    ) by {
                        if j < k {
                            assert(full_test(test, objects, j, t_max) == full_test(test,
                                prefix,
                                j,
                                t_max,
                            ));
                        }
                    }
                    assert forall|j: int|
                        0 <= j < k && !(#[trigger] full_test(test,
                            objects,
                            j,
                            t_max,
                        ) is Miss) implies before(rk.t(),
                        full_test(test, objects, j, t_max).t(),
                    ) by {
                        let tj = full_test(test, objects, j, t_max).t();
                        assert(full_test(test, objects, j, t_max) == full_test(test,
                            prefix,
                            j,
                            t_max,
                        ));
                        assert(!before(tj, r.t()));
                        if tj != r.t() {
                            assert(before(r.t(), tj));
                        }
                    }
                } else {
                    if !(base_k is Miss) && before(base_k.t(), r.t()) {
                        assert(test(objects[k], r.t()) == base_k);
                    }
                }
            },
        }
    }
}

/// The answer does not depend on the order of the objects, only which of
/// equally near objects is kept: two scans over the same objects keep
/// something together, and then at the same ray parameter.
pub proof fn lemma_nearest_scan_order_independent<O, T, P>(
    test: spec_fn(O, T) -> IntersectionResult<T, P>,
    before: spec_fn(T, T) -> bool,
    objects1: Seq<O>,
    objects2: Seq<O>,
    t_max: T,
)
    requires
        is_strict_total_order(before),
        is_interval_test(test, before),
        forall|o: O| objects1.contains(o) <==> objects2.contains(o),
    ensures
        nearest_scan(test, before, objects1, t_max) is None <==> nearest_scan(test, before,
            objects2,
            t_max,
        ) is None,
        nearest_scan(test, before, objects1, t_max) matches Some((_, r1)) ==> (nearest_scan(test, before,
            objects2,
            t_max,
        ) matches Some((_, r2)) && r1.t() == r2.t()),
{
    lemma_nearest_scan(test, before, objects1, t_max);
    lemma_nearest_scan(test, before, objects2, t_max);
    // an object of one sequence, seen in the other
    assert forall|j: int| 0 <= j < objects1.len() implies exists|m: int|
        0 <= m < objects2.len() && #[trigger] objects1[j] == objects2[m] by {
        assert(objects1.contains(objects1[j]));
    }
    assert forall|m: int| 0 <= m < objects2.len() implies exists|j: int|
        0 <= j < objects1.len() && objects1[j] == #[trigger] objects2[m] by {
        assert(objects2.contains(objects2[m]));
    }
    if nearest_scan(test, before, objects1, t_max) is None {
        assert forall|m: int| 0 <= m < objects2.len() implies #[trigger] full_test(test,
            objects2,
            m,
            t_max,
        ) is Miss by {
            let j = choose|j: int| 0 <= j < objects1.len() && objects1[j] == objects2[m];
            assert(full_test(test, objects1, j, t_max) is Miss);
        }
    }
    if nearest_scan(test, before, objects2, t_max) is None {
        assert forall|j: int| 0 <= j < objects1.len() implies #[trigger] full_test(test,
            objects1,
            j,
            t_max,
        ) is Miss by {
            let m = choose|m: int| 0 <= m < objects2.len() && objects1[j] == objects2[m];
            assert(full_test(test, objects2, m, t_max) is Miss);
        }
    }
    if let (Some((i1, r1)), Some((i2, r2))) = (
        nearest_scan(test, before, objects1, t_max),
        nearest_scan(test, before, objects2, t_max),
    ) {
        let m = choose|m: int| 0 <= m < objects2.len() && objects1[i1] == objects2[m];
        let j = choose|j: int| 0 <= j < objects1.len() && objects1[j] == objects2[i2];
        assert(full_test(test, objects2, m, t_max) == r1);
        assert(full_test(test, objects1, j, t_max) == r2);
        assert(!before(r1.t(), r2.t()));
        assert(!before(r2.t(), r1.t()));
    }
}

/// A scene: the objects to intersect, in traversal order, the point lights
/// used for direct lighting, and the camera. `O`, `L` and `C` are the types
/// of scene objects, point lights and camera.
pub struct Scene<O, L, C> {
    pub objects: Vec<O>,
    pub lights: Vec<L>,
    pub camera: C,
}

impl<O, L, C> Scene<O, L, C> {
    /// An empty scene seen through `camera`, for an image of the given size.
    pub fn new(_width: usize, _height: usize, camera: C) -> (s: Self)
        ensures
            s.objects@ == Seq::<O>::empty(),
            s.lights@ == Seq::<L>::empty(),
            s.camera == camera,
    {
        Scene { objects: Vec::new(), lights: Vec::new(), camera }
    }

    /// The number of objects in the scene.
    pub fn len_objects(&self) -> (n: usize)
        ensures
            n == self.objects@.len(),
    {
        self.objects.len()
    }

    /// Whether the scene holds no object.
    pub fn is_empty_objects(&self) -> (b: bool)
        ensures
            b == (self.objects@.len() == 0),
    {
        self.objects.len() == 0
    }

    /// Whether the scene holds no point light.
    pub fn is_empty_lights(&self) -> (b: bool)
        ensures
            b == (self.lights@.len() == 0),
    {
        self.lights.len() == 0
    }

    /// Adds an object after the existing ones.
    pub fn push_object(&mut self, object: O)
        ensures
            final(self).objects@ == old(self).objects@.push(object),
            final(self).lights@ == old(self).lights@,
            final(self).camera == old(self).camera,
    {
        self.objects.push(object);
    }

    /// Adds a point light after the existing ones.
    pub fn push_light(&mut self, light: L)
        ensures
            final(self).lights@ == old(self).lights@.push(light),
            final(self).objects@ == old(self).objects@,
            final(self).camera == old(self).camera,
    {
        self.lights.push(light);
    }

    /// Nearest-hit search. `intersect(object, bound)` tests one object
    /// against the query interval whose upper end is `bound`, and
    /// `nearer(a, b)` tells whether ray parameter `a` lies before `b`. Objects
    /// are tested in order against a bound that starts at `t_max`; a hit or
    /// tangent nearer than the bound becomes the answer and its ray parameter
    /// the new bound. The result is the index of the answer and what its test
    /// returned, or `None` when no object was kept. For interval tests under
    /// a strict total order this is the nearest hit, the first in order among
    /// equally near ones (`lemma_nearest_scan`, `lemma_scan_of_exact_closures`).
    pub fn ray_cast<T: Copy, P: Copy, F, G>(
        &self,
        t_max: T,
        intersect: F,
        nearer: G,
    ) -> (r: Option<(usize, IntersectionResult<T, P>)>) where
        F: Fn(&O, T) -> IntersectionResult<T, P>,
        G: Fn(T, T) -> bool,

        requires
            forall|o: &O, t: T| #[trigger] intersect.requires((o, t)),
            forall|a: T, b: T| #[trigger] nearer.requires((a, b)),
            is_deterministic_test(intersect),
            is_deterministic_order(nearer),
        ensures
            r is None ==> nearest_scan(test_fn(intersect), order_fn(nearer), self.objects@, t_max) is None,
            r matches Some((i, res)) ==> nearest_scan(test_fn(intersect), order_fn(nearer), self.objects@, t_max)
                == Some((i as int, res)),
            scan_calls_returned(intersect, nearer, self.objects@, t_max),
    {
        let mut closest: Option<(usize, IntersectionResult<T, P>)> = None;
        let mut bound: T = t_max;
        let mut i: usize = 0;
        while i < self.objects.len()
            invariant
                forall|o: &O, t: T| #[trigger] intersect.requires((o, t)),
                forall|a: T, b: T| #[trigger] nearer.requires((a, b)),
                is_deterministic_test(intersect),
                is_deterministic_order(nearer),
                i <= self.objects@.len(),
                closest is None ==> nearest_scan(test_fn(intersect), order_fn(nearer), self.objects@.take(i as int), t_max)
                    is None,
                closest matches Some((k, res)) ==> nearest_scan(test_fn(intersect), order_fn(nearer),
                    self.objects@.take(i as int),
                    t_max,
                ) == Some((k as int, res)),
                bound == scan_bound(
                    nearest_scan(test_fn(intersect), order_fn(nearer), self.objects@.take(i as int), t_max),
                    t_max,
                ),
                scan_calls_returned(intersect, nearer, self.objects@.take(i as int), t_max),
            decreases self.objects@.len() - i,
        {
            let object = &self.objects[i];
            let result = intersect(object, bound);
            let ghost before = self.objects@.take(i as int);
            let ghost after = self.objects@.take(i + 1);
            proof {
                assert(after.take(i as int) =~= before);
                assert(after[i as int] == self.objects@[i as int]);
                assert(test_result(intersect, object, bound) == result);
                assert(bound_at(test_fn(intersect), order_fn(nearer), after, t_max, i as int) == bound);
            }
            if result.is_hit_or_tangent() {
                let t = result.unwrap_hit_or_tangent().t;
                let closer = nearer(t, bound);
                proof {
                    assert(nearer_result(nearer, t, bound) == closer);
                }
                if closer {
                    bound = t;
                    closest = Some((i, result));
                }
            }
            proof {
                assert forall|j: int| 0 <= j < after.len() implies {
                    let b = #[trigger] bound_at(test_fn(intersect), order_fn(nearer), after, t_max, j);
                    let r = test_result(intersect, &after[j], b);
                    &&& intersect.ensures((&after[j], b), r)
                    &&& !(r is Miss) ==> nearer.ensures((r.t(), b), nearer_result(nearer, r.t(), b))
                } by {
                    if j < i {
                        assert(after.take(j) =~= before.take(j));
                        assert(after[j] == before[j]);
                        assert(bound_at(test_fn(intersect), order_fn(nearer), after, t_max, j) == bound_at(test_fn(intersect), order_fn(nearer),
                            before,
                            t_max,
                            j,
                        ));
                    }
                }
            }
            i = i + 1;
        }
        proof {
            assert(self.objects@.take(i as int) =~= self.objects@);
        }
        closest
    }
}

} // verus!
