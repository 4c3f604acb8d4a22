//! Surface materials and what each does with an incoming ray.

use vstd::prelude::*;
use crate::hit::HitRecord;
use crate::ray::Ray;
use crate::scalar::Scalar;
use crate::vec3::Vec3;

verus! {

/// A diffuse surface of a fixed colour.
#[derive(Clone, Copy, Debug, PartialEq, Eq, Structural)]
pub struct Lambertian {
    pub albedo: Vec3,
}

/// A mirror of a fixed colour whose reflection is blurred by `fuzz`, which is
/// never greater than one.
#[derive(Clone, Copy, Debug, PartialEq, Eq, Structural)]
pub struct Metal {
    pub albedo: Vec3,
    pub fuzz: Scalar,
}

/// A clear refracting medium.
#[derive(Clone, Copy, Debug, PartialEq, Eq, Structural)]
pub struct Dielectric {
    pub ref_index: Scalar,
}

/// The material of a surface.
#[derive(Clone, Copy, Debug, PartialEq, Eq, Structural)]
pub enum Material {
    Lambertian(Lambertian),
    Metal(Metal),
    Dielectric(Dielectric),
}

/// On which side of a refracting surface the incoming ray travels.
#[derive(Clone, Copy, Debug, PartialEq, Eq, Structural)]
pub enum Side {
    /// The ray runs against the normal: it enters the medium.
    Entering,
    /// The ray runs along the normal: it leaves the medium.
    Leaving,
}

/// A ray scattered from `point` along `direction`, tinted by `attenuation`.
pub open spec fn scattered_from(point: Vec3, direction: Vec3, attenuation: Vec3) -> Option<(Ray, Vec3)> {
    Some((Ray { origin: point, dir: direction }, attenuation))
}

/// The colour that leaves every channel as it is.
pub open spec fn white() -> Vec3 {
    Vec3 { e0: Scalar::one(), e1: Scalar::one(), e2: Scalar::one() }
}

impl Lambertian {
    pub fn new(a: Vec3) -> (m: Lambertian)
        ensures
            m.albedo == a,
    {
        Lambertian { albedo: a }
    }

    /// A diffuse surface always scatters: from the hit point along
    /// `direction`, tinted by the albedo.
    pub fn scatter(&self, rec: &HitRecord, direction: Vec3) -> (out: Option<(Ray, Vec3)>)
        ensures
            out == scattered_from(rec.point, direction, self.albedo),
    {
        Some((Ray::with_values(rec.point, direction), self.albedo))
    }
}

impl Metal {
    /// The fuzz that a metal is given for a requested `f`: one where `f` is
    /// greater than one, else `f`.
    pub open spec fn clamped(f: Scalar) -> Scalar {
        if f.is_gt(Scalar::one()) {
            Scalar::one()
        } else {
            f
        }
    }

    pub fn new(a: Vec3, f: Scalar) -> (m: Metal)
        ensures
            m.albedo == a,
            m.fuzz == Metal::clamped(f),
            !m.fuzz.is_gt(Scalar::one()),
    {
        let fuzz = if f.gt(Scalar::one()) {
            Scalar::one()
        } else {
            f
        };
        Metal { albedo: a, fuzz }
    }

    /// A metal scatters along `direction`, the blurred reflection, exactly
    /// when that direction leaves the surface on the normal's side, which is
    /// when `along_normal`, its dot product with the normal, is positive.
    /// Otherwise the ray is absorbed.
    pub fn scatter(&self, rec: &HitRecord, direction: Vec3, along_normal: Scalar) -> (out: Option<
        (Ray, Vec3),
    >)
        ensures
            along_normal.is_gt(Scalar::zero()) ==> out == scattered_from(
                rec.point,
                direction,
                self.albedo,
            ),
            !along_normal.is_gt(Scalar::zero()) ==> out is None,
    {
        if along_normal.gt(Scalar::zero()) {
            Some((Ray::with_values(rec.point, direction), self.albedo))
        } else {
            None
        }
    }
}

impl Dielectric {
    pub fn new(refraction_index: Scalar) -> (m: Dielectric)
        ensures
            m.ref_index == refraction_index,
    {
        Dielectric { ref_index: refraction_index }
    }

    /// The side that the incoming ray is on, by `along_normal`, the dot
    /// product of its direction with the surface normal: leaving where that
    /// is positive, entering otherwise.
    pub fn side(&self, along_normal: Scalar) -> (s: Side)
        ensures
            s == (if along_normal.is_gt(Scalar::zero()) {
                Side::Leaving
            } else {
                Side::Entering
            }),
    {
        if along_normal.gt(Scalar::zero()) {
            Side::Leaving
        } else {
            Side::Entering
        }
    }

    /// The normal that points against the incoming ray: the opposite of the
    /// surface normal for a ray that leaves the medium, the surface normal
    /// itself for one that enters.
    pub fn outward_normal(&self, normal: &Vec3, along_normal: Scalar) -> (n: Vec3)
        ensures
            n == (if along_normal.is_gt(Scalar::zero()) {
                normal.neg()
            } else {
                *normal
            }),
    {
        match self.side(along_normal) {
            Side::Leaving => normal.neg(),
            Side::Entering => *normal,
        }
    }

    /// Whether a refracted ray exists: it does exactly when the discriminant
    /// of the refraction equation is a number that is not negative. Where it
    /// does not, the surface reflects totally.
    pub fn refracts(&self, discriminant: Scalar) -> (r: bool)
        ensures
            r == (discriminant.is_gt(Scalar::zero()) || discriminant.is_eq(Scalar::zero())),
            r == (!discriminant.is_nan() && !discriminant.is_lt(Scalar::zero())),
    {
        discriminant.gt(Scalar::zero()) || discriminant.num_eq(Scalar::zero())
    }

    /// The direction in which a dielectric sends the ray on. Without a
    /// refracted direction it is the reflected one. With one, it is the
    /// reflected one where `draw` is less than `reflectance`, else the
    /// refracted one.
    pub open spec fn outgoing(
        reflected: Vec3,
        refracted: Option<Vec3>,
        reflectance: Scalar,
        draw: Scalar,
    ) -> Vec3 {
        match refracted {
            Some(direction) => if draw.is_lt(reflectance) { reflected } else { direction },
            None => reflected,
        }
    }

    /// A dielectric always scatters, and takes nothing from the light.
    pub fn scatter(
        &self,
        rec: &HitRecord,
        reflected: Vec3,
        refracted: Option<Vec3>,
        reflectance: Scalar,
        draw: Scalar,
    ) -> (out: Option<(Ray, Vec3)>)
        ensures
            out == scattered_from(
                rec.point,
                Dielectric::outgoing(reflected, refracted, reflectance, draw),
                white(),
            ),
    {
        let attenuation = Vec3::with_values(Scalar::one(), Scalar::one(), Scalar::one());
        let direction = match refracted {
            Some(d) => {
                if draw.lt(reflectance) {
                    reflected
                } else {
                    d
                }
            },
            None => reflected,
        };
        Some((Ray::with_values(rec.point, direction), attenuation))
    }
}

} // verus!
