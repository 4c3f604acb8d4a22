use raytracing::hit::{closest_of, keep_closer, HitRecord, HitableList};
use raytracing::material::{Lambertian, Material};
use raytracing::sphere::{accept_root, Sphere};
use raytracing::{Scalar, Vec3};

fn k(x: f64) -> Scalar {
    Scalar::from_bits(x.to_bits())
}

fn v(x: f64, y: f64, z: f64) -> Vec3 {
    Vec3::with_values(k(x), k(y), k(z))
}

fn grey() -> Material {
    Material::Lambertian(Lambertian::new(v(0.5, 0.5, 0.5)))
}

fn unit_sphere() -> Sphere {
    Sphere::new(v(0.0, 0.0, -1.0), k(0.5), grey())
}

fn record(t: f64, tag: f64) -> HitRecord {
    HitRecord::new(k(t), v(tag, 0.0, 0.0), v(0.0, 1.0, 0.0), grey())
}

fn dot(a: [f64; 3], b: [f64; 3]) -> f64 {
    a[0] * b[0] + a[1] * b[1] + a[2] * b[2]
}

// Discriminant and both roots of the intersection of the ray `o + t d` with
// the sphere of the given centre and radius.
fn roots(o: [f64; 3], d: [f64; 3], c: [f64; 3], radius: f64) -> (f64, f64, f64) {
    let oc = [o[0] - c[0], o[1] - c[1], o[2] - c[2]];
    let a = dot(d, d);
    let b = dot(oc, d);
    let cc = dot(oc, oc) - radius * radius;
    let disc = b * b - a * cc;
    (disc, (-b - disc.sqrt()) / a, (-b + disc.sqrt()) / a)
}

#[test]
fn sphere_new_keeps_its_parts() {
    let s = unit_sphere();
    assert_eq!(s.center, v(0.0, 0.0, -1.0));
    assert_eq!(s.radius, k(0.5));
    assert_eq!(s.mat, grey());
}

#[test]
fn sphere_negative_radius_is_kept() {
    let s = Sphere::new(v(-1.0, 0.0, -1.0), k(-0.45), grey());
    assert_eq!(s.radius, k(-0.45));
    assert!(s.radius.lt(Scalar::zero()));
}

#[test]
fn centre_pixel_ray_hits_nearest_root() {
    // 200 by 100 image, eye at the origin looking down -z, 90 degrees of
    // vertical field of view: the ray through pixel (100, 50).
    let half_height = (90.0f64.to_radians() / 2.0).tan();
    let half_width = 2.0 * half_height;
    let s = 100.0 / 200.0;
    let t = 50.0 / 100.0;
    let d = [
        -half_width + s * 2.0 * half_width,
        -half_height + t * 2.0 * half_height,
        -1.0,
    ];
    let (disc, near, far) = roots([0.0; 3], d, [0.0, 0.0, -1.0], 0.5);
    assert!(disc > 0.0);
    assert!(near < far);
    let got = accept_root(k(disc), k(near), k(far), k(0.001), k(f64::MAX));
    assert_eq!(got, Some(k(near)));
    assert_eq!(got, Some(k(0.5)));
}

#[test]
fn accepted_root_lies_on_the_sphere() {
    let o = [0.3, -0.1, 0.4];
    let d = [-0.2, 0.1, -1.0];
    let c = [0.0, 0.0, -1.0];
    let (disc, near, far) = roots(o, d, c, 0.5);
    let t = accept_root(k(disc), k(near), k(far), k(0.001), k(f64::MAX))
        .expect("the ray meets the sphere");
    let t = f64::from_bits(t.to_bits());
    assert!(t > 0.001 && t < f64::MAX);
    let p = [o[0] + t * d[0] - c[0], o[1] + t * d[1] - c[1], o[2] + t * d[2] - c[2]];
    assert!((dot(p, p).sqrt() - 0.5).abs() < 1e-12);
    let n = [p[0] / 0.5, p[1] / 0.5, p[2] / 0.5];
    assert!((dot(n, n) - 1.0).abs() < 1e-12);
}

#[test]
fn ray_that_misses_has_no_root() {
    let (disc, near, far) = roots([0.0; 3], [0.0, 1.0, 0.0], [0.0, 0.0, -1.0], 0.5);
    assert!(disc < 0.0);
    assert_eq!(accept_root(k(disc), k(near), k(far), k(0.001), k(f64::MAX)), None);
}

#[test]
fn grazing_ray_is_no_hit() {
    // discriminant exactly zero
    assert_eq!(accept_root(k(0.0), k(1.0), k(1.0), k(0.001), k(f64::MAX)), None);
    assert_eq!(accept_root(k(-0.0), k(1.0), k(1.0), k(0.001), k(f64::MAX)), None);
}

#[test]
fn smaller_root_is_tried_first() {
    assert_eq!(accept_root(k(1.0), k(2.0), k(3.0), k(0.001), k(10.0)), Some(k(2.0)));
}

#[test]
fn larger_root_when_smaller_is_behind() {
    // the ray starts inside the sphere
    let (disc, near, far) = roots([0.0, 0.0, -1.0], [0.0, 0.0, -1.0], [0.0, 0.0, -1.0], 0.5);
    assert_eq!((near, far), (-0.5, 0.5));
    assert_eq!(accept_root(k(disc), k(near), k(far), k(0.001), k(f64::MAX)), Some(k(0.5)));
}

#[test]
fn roots_on_the_interval_ends_are_rejected() {
    assert_eq!(accept_root(k(1.0), k(0.001), k(5.0), k(0.001), k(5.0)), None);
    assert_eq!(accept_root(k(1.0), k(0.001), k(4.0), k(0.001), k(5.0)), Some(k(4.0)));
    assert_eq!(accept_root(k(1.0), k(-3.0), k(7.0), k(0.001), k(5.0)), None);
}

#[test]
fn self_intersection_is_suppressed() {
    // a ray leaving a surface finds that surface again at a parameter of
    // about zero: below the lower bound, so the far root counts
    assert_eq!(accept_root(k(0.25), k(1e-9), k(1.0), k(0.001), k(f64::MAX)), Some(k(1.0)));
}

#[test]
fn undefined_quantities_give_no_hit() {
    assert_eq!(accept_root(k(f64::NAN), k(1.0), k(2.0), k(0.001), k(5.0)), None);
    assert_eq!(accept_root(k(1.0), k(f64::NAN), k(f64::NAN), k(0.001), k(5.0)), None);
    assert_eq!(accept_root(k(1.0), k(f64::NAN), k(2.0), k(0.001), k(5.0)), Some(k(2.0)));
}

#[test]
fn hit_record_new_keeps_its_parts() {
    let rec = HitRecord::new(k(0.5), v(0.0, 0.0, -0.5), v(0.0, 0.0, 1.0), grey());
    assert_eq!(rec.t, k(0.5));
    assert_eq!(rec.point, v(0.0, 0.0, -0.5));
    assert_eq!(rec.normal, v(0.0, 0.0, 1.0));
    assert_eq!(rec.mat, grey());
}

#[test]
fn list_new_is_empty() {
    let world = HitableList::new();
    assert_eq!(world.len(), 0);
}

#[test]
fn list_with_vals_keeps_members_in_order() {
    let a = unit_sphere();
    let b = Sphere::new(v(0.0, -100.5, -1.0), k(100.0), grey());
    let world = HitableList::with_vals(vec![a, b]);
    assert_eq!(world.len(), 2);
    assert_eq!(world.hitables, vec![a, b]);
}

#[test]
fn list_without_members_has_no_hit() {
    let world = HitableList::new();
    assert_eq!(closest_of(&vec![]), None);
    assert_eq!(world.hit(&|_s: Sphere| Some(record(1.0, 1.0))), None);
}

#[test]
fn list_where_nothing_is_hit() {
    assert_eq!(closest_of(&vec![None, None]), None);
}

#[test]
fn list_of_two_returns_the_smaller_parameter() {
    let a = record(2.0, 1.0);
    let b = record(1.5, 2.0);
    assert_eq!(closest_of(&vec![Some(a), Some(b)]), Some(b));
    assert_eq!(closest_of(&vec![Some(b), Some(a)]), Some(b));
    assert_eq!(closest_of(&vec![Some(a), None]), Some(a));
    assert_eq!(closest_of(&vec![None, Some(a)]), Some(a));
}

#[test]
fn list_keeps_the_first_of_equal_parameters() {
    let a = record(1.5, 1.0);
    let b = record(1.5, 2.0);
    assert_eq!(closest_of(&vec![Some(a), Some(b)]), Some(a));
    assert_eq!(closest_of(&vec![Some(b), Some(a)]), Some(b));
}

#[test]
fn list_returns_the_nearest_of_many() {
    let hits = vec![
        None,
        Some(record(7.0, 1.0)),
        Some(record(3.0, 2.0)),
        None,
        Some(record(0.25, 3.0)),
        Some(record(3.0, 4.0)),
        Some(record(0.25, 5.0)),
    ];
    assert_eq!(closest_of(&hits), Some(record(0.25, 3.0)));
}

// Where the ray `o + t d` meets `s`, computed in double precision.
fn meet(s: Sphere, o: [f64; 3], d: [f64; 3], t_min: f64, t_max: f64) -> Option<HitRecord> {
    let n = |x: Scalar| f64::from_bits(x.to_bits());
    let c = [n(s.center.x()), n(s.center.y()), n(s.center.z())];
    let radius = n(s.radius);
    let (disc, near, far) = roots(o, d, c, radius);
    let surface = |t: Scalar| {
        let t = n(t);
        let p = [o[0] + t * d[0], o[1] + t * d[1], o[2] + t * d[2]];
        (
            v(p[0], p[1], p[2]),
            v((p[0] - c[0]) / radius, (p[1] - c[1]) / radius, (p[2] - c[2]) / radius),
        )
    };
    s.hit(k(disc), k(near), k(far), k(t_min), k(t_max), &surface)
}

#[test]
fn sphere_hit_builds_the_record_at_the_accepted_root() {
    let s = unit_sphere();
    let rec = meet(s, [0.0; 3], [0.0, 0.0, -1.0], 0.001, f64::MAX).expect("a hit");
    assert_eq!(rec, HitRecord::new(k(0.5), v(0.0, 0.0, -0.5), v(0.0, 0.0, 1.0), grey()));
}

#[test]
fn sphere_hit_from_inside_takes_the_far_root() {
    let s = unit_sphere();
    let rec = meet(s, [0.0, 0.0, -1.0], [0.0, 0.0, -1.0], 0.001, f64::MAX).expect("a hit");
    assert_eq!(rec, HitRecord::new(k(0.5), v(0.0, 0.0, -1.5), v(0.0, 0.0, -1.0), grey()));
}

#[test]
fn sphere_hit_with_negative_radius_turns_the_normal() {
    let s = Sphere::new(v(0.0, 0.0, -1.0), k(-0.5), grey());
    let rec = meet(s, [0.0; 3], [0.0, 0.0, -1.0], 0.001, f64::MAX).expect("a hit");
    assert_eq!(rec.t, k(0.5));
    assert_eq!(rec.normal, v(-0.0, -0.0, -1.0));
}

#[test]
fn sphere_hit_outside_the_interval_is_none() {
    let s = unit_sphere();
    assert_eq!(meet(s, [0.0; 3], [0.0, 0.0, -1.0], 0.001, 0.4), None);
    assert_eq!(meet(s, [0.0; 3], [0.0, 0.0, -1.0], 1.5, f64::MAX), None);
    assert_eq!(meet(s, [0.0; 3], [0.0, 1.0, 0.0], 0.001, f64::MAX), None);
}

#[test]
fn sphere_hit_does_not_ask_for_the_surface_without_a_root() {
    let s = unit_sphere();
    let surface = |_t: Scalar| -> (Vec3, Vec3) { panic!("no root was accepted") };
    assert_eq!(s.hit(k(-1.0), k(1.0), k(2.0), k(0.001), k(5.0), &surface), None);
    assert_eq!(s.hit(k(1.0), k(-1.0), k(9.0), k(0.001), k(5.0), &surface), None);
}

#[test]
fn keep_closer_replaces_only_on_a_smaller_parameter() {
    let a = record(2.0, 1.0);
    let b = record(1.0, 2.0);
    let c = record(2.0, 3.0);
    assert_eq!(keep_closer(None, None), None);
    assert_eq!(keep_closer(None, Some(a)), Some(a));
    assert_eq!(keep_closer(Some(a), None), Some(a));
    assert_eq!(keep_closer(Some(a), Some(b)), Some(b));
    assert_eq!(keep_closer(Some(b), Some(a)), Some(b));
    assert_eq!(keep_closer(Some(a), Some(c)), Some(a));
}

#[test]
fn list_hit_over_two_spheres_is_the_nearer_one() {
    let front = Sphere::new(v(0.0, 0.0, -1.0), k(0.5), grey());
    let back = Sphere::new(v(0.0, 0.0, -3.0), k(0.5), grey());
    let o = [0.0; 3];
    let d = [0.0, 0.0, -1.0];
    let member_hit = |s: Sphere| meet(s, o, d, 0.001, f64::MAX);
    let of_front = member_hit(front).expect("a hit");
    let of_back = member_hit(back).expect("a hit");
    assert_eq!(of_front.t, k(0.5));
    assert_eq!(of_back.t, k(2.5));
    assert_eq!(HitableList::with_vals(vec![front, back]).hit(&member_hit), Some(of_front));
    assert_eq!(HitableList::with_vals(vec![back, front]).hit(&member_hit), Some(of_front));
    assert_eq!(HitableList::with_vals(vec![back]).hit(&member_hit), Some(of_back));
}

#[test]
fn list_hit_where_only_one_sphere_is_met() {
    let ahead = Sphere::new(v(0.0, 0.0, -1.0), k(0.5), grey());
    let aside = Sphere::new(v(5.0, 0.0, -1.0), k(0.5), grey());
    let member_hit = |s: Sphere| meet(s, [0.0; 3], [0.0, 0.0, -1.0], 0.001, f64::MAX);
    let world = HitableList::with_vals(vec![aside, ahead]);
    assert_eq!(world.hit(&member_hit), member_hit(ahead));
    let upward = |s: Sphere| meet(s, [0.0; 3], [0.0, 1.0, 0.0], 0.001, f64::MAX);
    assert_eq!(world.hit(&upward), None);
}

#[test]
fn list_hit_asks_every_member_once_in_order() {
    let a = Sphere::new(v(0.0, 0.0, -1.0), k(0.5), grey());
    let b = Sphere::new(v(0.0, 0.0, -2.0), k(0.25), grey());
    let c = Sphere::new(v(0.0, 0.0, -3.0), k(0.125), grey());
    let asked = std::cell::RefCell::new(Vec::new());
    let member_hit = |s: Sphere| {
        asked.borrow_mut().push(s);
        None
    };
    assert_eq!(HitableList::with_vals(vec![a, b, c]).hit(&member_hit), None);
    assert_eq!(*asked.borrow(), vec![a, b, c]);
}
