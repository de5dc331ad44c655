use tracer::{
    IntersectionResult, Reason,
    BlackBodyBsdf, BlackBodyBsdfQuerySampler, HitableList, NoLight, Scene,
    SimpleDielectricBsdfQuerySampler, SimpleLambertianBsdfQuerySampler,
    SimpleMetalBsdfQuerySampler,
};

#[test]
fn scene_starts_empty_and_grows() {
    let mut scene: Scene<u32, &str, (i32, i32)> = Scene::new(720, 480, (4, 5));
    assert!(scene.is_empty_objects());
    assert!(scene.is_empty_lights());
    assert_eq!(scene.len_objects(), 0);
    scene.push_object(7);
    scene.push_object(9);
    assert!(!scene.is_empty_objects());
    assert!(scene.is_empty_lights());
    assert_eq!(scene.len_objects(), 2);
    assert_eq!(scene.objects, vec![7, 9]);
    scene.push_light("lamp");
    assert!(!scene.is_empty_lights());
    assert_eq!(scene.lights, vec!["lamp"]);
    assert_eq!(scene.camera, (4, 5));
}

#[test]
fn hitable_list_counts_pushes() {
    let mut list: HitableList<char> = HitableList::new();
    assert_eq!(list.len(), 0);
    list.push('a');
    list.push('b');
    assert_eq!(list.len(), 2);
}

#[test]
fn stateless_materials_and_emitters() {
    assert_eq!(SimpleLambertianBsdfQuerySampler::new(), SimpleLambertianBsdfQuerySampler::default());
    assert_eq!(SimpleMetalBsdfQuerySampler::new(), SimpleMetalBsdfQuerySampler::default());
    assert_eq!(SimpleDielectricBsdfQuerySampler::new(), SimpleDielectricBsdfQuerySampler::default());
    assert_eq!(BlackBodyBsdfQuerySampler::new(), BlackBodyBsdfQuerySampler::default());
    assert_eq!(BlackBodyBsdf::new(), BlackBodyBsdf {});
    assert_eq!(NoLight::new(), NoLight {});
}

fn interval_test(object: &f32, t_upper: f32) -> IntersectionResult<f32, ()> {
    // An object at distance `d` is hit at `d`, grazed when `d` is negative
    // (at `-d`), and missed outside the open interval `(0.001, t_upper)`.
    let t = object.abs();
    if t > 0.001 && t < t_upper {
        if *object < 0.0 {
            IntersectionResult::new_tangent(t, (), ())
        } else {
            IntersectionResult::new_hit(t, (), ())
        }
    } else {
        IntersectionResult::new_miss(Reason::NoIntersection)
    }
}

fn nearer(a: f32, b: f32) -> bool {
    a < b
}

#[test]
fn ray_cast_finds_the_nearest_object() {
    let mut scene: Scene<f32, (), ()> = Scene::new(10, 10, ());
    for d in [8.0_f32, 3.0, 5.0, 4.0] {
        scene.push_object(d);
    }
    let found = scene.ray_cast(f32::MAX, interval_test, nearer);
    assert_eq!(found, Some((1, IntersectionResult::new_hit(3.0, (), ()))));
}

#[test]
fn ray_cast_treats_tangent_like_hit() {
    let mut scene: Scene<f32, (), ()> = Scene::new(10, 10, ());
    for d in [8.0_f32, -2.0, 5.0] {
        scene.push_object(d);
    }
    let found = scene.ray_cast(f32::MAX, interval_test, nearer);
    assert_eq!(found, Some((1, IntersectionResult::new_tangent(2.0, (), ()))));
}

#[test]
fn ray_cast_respects_the_upper_bound() {
    let mut scene: Scene<f32, (), ()> = Scene::new(10, 10, ());
    for d in [8.0_f32, 30.0, 0.0005] {
        scene.push_object(d);
    }
    assert_eq!(scene.ray_cast(7.0, interval_test, nearer), None);
    assert_eq!(
        scene.ray_cast(f32::MAX, interval_test, nearer),
        Some((0, IntersectionResult::new_hit(8.0, (), ())))
    );
}

#[test]
fn ray_cast_on_empty_scene_finds_nothing() {
    let scene: Scene<f32, (), ()> = Scene::new(10, 10, ());
    assert_eq!(scene.ray_cast(f32::MAX, interval_test, nearer), None);
}

#[test]
fn test_scene_occupied() {
    let mut scene: Scene<&str, (), ()> = Scene::new(720, 480, ());
    scene.push_object("sphere");

    assert!(!scene.is_empty_objects());
}

#[test]
fn ray_cast_keeps_the_first_of_equally_near_objects() {
    let mut scene: Scene<f32, (), ()> = Scene::new(10, 10, ());
    for d in [6.0_f32, 2.0, 9.0, 2.0, -2.0] {
        scene.push_object(d);
    }
    let found = scene.ray_cast(f32::MAX, interval_test, nearer);
    assert_eq!(found, Some((1, IntersectionResult::new_hit(2.0, (), ()))));
}

#[test]
fn ray_cast_finds_a_lone_tangent() {
    let mut scene: Scene<f32, (), ()> = Scene::new(10, 10, ());
    for d in [50.0_f32, -4.0, 0.0] {
        scene.push_object(d);
    }
    let found = scene.ray_cast(20.0, interval_test, nearer);
    assert_eq!(found, Some((1, IntersectionResult::new_tangent(4.0, (), ()))));
}

#[test]
fn ray_cast_answer_does_not_depend_on_order() {
    let mut forward: Scene<f32, (), ()> = Scene::new(10, 10, ());
    let mut backward: Scene<f32, (), ()> = Scene::new(10, 10, ());
    let distances = [7.0_f32, 3.5, 12.0, 4.0];
    for d in distances {
        forward.push_object(d);
    }
    for d in distances.iter().rev() {
        backward.push_object(*d);
    }
    let a = forward.ray_cast(f32::MAX, interval_test, nearer).unwrap();
    let b = backward.ray_cast(f32::MAX, interval_test, nearer).unwrap();
    assert_eq!(a.1.unwrap_hit().t, 3.5);
    assert_eq!(b.1.unwrap_hit().t, 3.5);
    assert_eq!((a.0, b.0), (1, 2));
}
