use tracer::{IntersectionData, IntersectionResult, Reason};

#[test]
fn hit_is_only_a_hit() {
    let r: IntersectionResult<f32, [f32; 3]> =
        IntersectionResult::new_hit(29.0, [0.0, 0.0, 1.0], [0.0, 0.0, 1.0]);
    assert!(r.is_hit());
    assert!(!r.is_tangent());
    assert!(!r.is_miss());
    assert!(r.is_hit_or_tangent());
    assert_eq!(r.unwrap_hit(), IntersectionData::new(29.0, [0.0, 0.0, 1.0], [0.0, 0.0, 1.0]));
    assert_eq!(r.unwrap_hit_or_tangent().t, 29.0);
}

#[test]
fn tangent_is_not_a_hit() {
    let r: IntersectionResult<f32, [f32; 3]> =
        IntersectionResult::new_tangent(2.0, [1.0, 0.0, 0.0], [1.0, 0.0, 0.0]);
    assert!(!r.is_hit());
    assert!(r.is_tangent());
    assert!(!r.is_miss());
    assert!(r.is_hit_or_tangent());
    assert_eq!(r.unwrap_tangent().point, [1.0, 0.0, 0.0]);
    assert_eq!(r.unwrap_hit_or_tangent().normal, [1.0, 0.0, 0.0]);
}

#[test]
fn miss_keeps_its_reason() {
    let r: IntersectionResult<f32, [f32; 3]> =
        IntersectionResult::new_miss(Reason::HitBeforeMin { t_got: -1.5 });
    assert!(r.is_miss());
    assert!(!r.is_hit());
    assert!(!r.is_tangent());
    assert!(!r.is_hit_or_tangent());
    assert_eq!(r, IntersectionResult::Miss(Reason::HitBeforeMin { t_got: -1.5 }));
    let n: IntersectionResult<f32, [f32; 3]> = IntersectionResult::new_miss(Reason::NoIntersection);
    assert_eq!(n, IntersectionResult::Miss(Reason::NoIntersection));
}

fn shifted(d: IntersectionData<f32, [f32; 3]>) -> IntersectionData<f32, (f32, f32, f32)> {
    IntersectionData::new(d.t, (d.point[0] + 4.0, d.point[1] + 5.0, d.point[2] + 6.0), (d.normal[0], d.normal[1], d.normal[2]))
}

#[test]
fn map_data_keeps_the_kind() {
    let hit: IntersectionResult<f32, [f32; 3]> =
        IntersectionResult::new_hit(29.0, [0.0, 0.0, 1.0], [0.0, 0.0, 1.0]);
    assert_eq!(
        hit.map_data(shifted),
        IntersectionResult::new_hit(29.0, (4.0, 5.0, 7.0), (0.0, 0.0, 1.0))
    );
    let tangent: IntersectionResult<f32, [f32; 3]> =
        IntersectionResult::new_tangent(1.0, [1.0, 0.0, 0.0], [1.0, 0.0, 0.0]);
    assert_eq!(
        tangent.map_data(shifted),
        IntersectionResult::new_tangent(1.0, (5.0, 5.0, 6.0), (1.0, 0.0, 0.0))
    );
    let miss: IntersectionResult<f32, [f32; 3]> =
        IntersectionResult::new_miss(Reason::HitBeforeMax { t_got: 3.0 });
    assert_eq!(
        miss.map_data(shifted),
        IntersectionResult::new_miss(Reason::HitBeforeMax { t_got: 3.0 })
    );
}
