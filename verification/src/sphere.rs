//! Spheres, and which root of the intersection equation counts as the hit.

use vstd::prelude::*;
use crate::hit::HitRecord;
use crate::material::Material;
use crate::scalar::Scalar;
use crate::vec3::Vec3;

verus! {

/// A sphere with a material. A negative radius turns the surface inward: the
/// normal, which is the offset from the centre divided by the radius, then
/// points to the centre.
#[derive(Clone, Copy, Debug, PartialEq, Eq, Structural)]
pub struct Sphere {
    pub center: Vec3,
    pub radius: Scalar,
    pub mat: Material,
}

/// The parameter at which a ray meets a sphere within the open interval from
/// `t_min` to `t_max`, if it does. `discriminant` is that of the intersection
/// equation, `near` its smaller root and `far` its larger one. Without a
/// positive discriminant there is no hit; with one, the smaller root is taken
/// if it lies inside the interval, else the larger one if that does.
pub open spec fn accepted_root(
    discriminant: Scalar,
    near: Scalar,
    far: Scalar,
    t_min: Scalar,
    t_max: Scalar,
) -> Option<Scalar> {
    if !discriminant.is_gt(Scalar::zero()) {
        None
    } else if near.is_between(t_min, t_max) {
        Some(near)
    } else if far.is_between(t_min, t_max) {
        Some(far)
    } else {
        None
    }
}

/// Chooses the root at which a ray hits a sphere. Every accepted parameter is
/// one of the two roots, is a number, and lies strictly inside the interval.
pub fn accept_root(
    discriminant: Scalar,
    near: Scalar,
    far: Scalar,
    t_min: Scalar,
    t_max: Scalar,
) -> (t: Option<Scalar>)
    ensures
        t == accepted_root(discriminant, near, far, t_min, t_max),
        t is Some ==> t->0.is_between(t_min, t_max) && !t->0.is_nan() && (t->0 == near || t->0
            == far),
{
    if !discriminant.gt(Scalar::zero()) {
        return None;
    }
    if near.between(t_min, t_max) {
        return Some(near);
    }
    if far.between(t_min, t_max) {
        return Some(far);
    }
    None
}

impl Sphere {
    /// A sphere has a surface normal everywhere: its radius is not zero.
    pub open spec fn wf(&self) -> bool {
        !self.radius.is_eq(Scalar::zero())
    }

    pub fn new(center: Vec3, radius: Scalar, mat: Material) -> (s: Sphere)
        requires
            !radius.is_eq(Scalar::zero()),
        ensures
            s == (Sphere { center, radius, mat }),
            s.wf(),
    {
        Sphere { center, radius, mat }
    }

    /// Where a ray hits this sphere within the open interval from `t_min` to
    /// `t_max`, if it does. `discriminant`, `near` and `far` are those of the
    /// ray's intersection equation with this sphere. `surface` gives the
    /// point and the normal at a parameter; it is asked only for the accepted
    /// root. The record carries that root, what `surface` gave for it, and the
    /// sphere's material.
    pub fn hit<F>(
        &self,
        discriminant: Scalar,
        near: Scalar,
        far: Scalar,
        t_min: Scalar,
        t_max: Scalar,
        surface: &F,
    ) -> (rec: Option<HitRecord>) where F: Fn(Scalar) -> (Vec3, Vec3)
        requires
            self.wf(),
            accepted_root(discriminant, near, far, t_min, t_max) is Some ==> surface.requires(
                (accepted_root(discriminant, near, far, t_min, t_max)->0,),
            ),
        ensures
            rec is Some <==> accepted_root(discriminant, near, far, t_min, t_max) is Some,
            rec is Some ==> {
                &&& Some(rec->0.t) == accepted_root(discriminant, near, far, t_min, t_max)
                &&& rec->0.t.is_between(t_min, t_max)
                &&& rec->0.mat == self.mat
                &&& surface.ensures((rec->0.t,), (rec->0.point, rec->0.normal))
            },
    {
        match accept_root(discriminant, near, far, t_min, t_max) {
            Some(t) => {
                let (point, normal) = surface(t);
                Some(HitRecord::new(t, point, normal, self.mat))
            },
            None => None,
        }
    }
}

} // verus!
