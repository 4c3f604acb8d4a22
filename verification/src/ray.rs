//! Rays: an origin and a direction.

use vstd::prelude::*;
use crate::vec3::Vec3;

verus! {

/// A ray from `origin` along `dir`. The direction need not have unit length.
#[derive(Clone, Copy, Debug, PartialEq, Eq, Structural)]
pub struct Ray {
    pub origin: Vec3,
    pub dir: Vec3,
}

impl Ray {
    /// The ray at the origin with the zero direction.
    pub fn new() -> (r: Ray)
        ensures
            r.origin == Vec3::new(),
            r.dir == Vec3::new(),
    {
        Ray { origin: Vec3::new(), dir: Vec3::new() }
    }

    pub fn with_values(origin: Vec3, dir: Vec3) -> (r: Ray)
        ensures
            r.origin == origin,
            r.dir == dir,
    {
        Ray { origin, dir }
    }

    pub fn origin(&self) -> (o: &Vec3)
        ensures
            *o == self.origin,
    {
        &self.origin
    }

    pub fn direction(&self) -> (d: &Vec3)
        ensures
            *d == self.dir,
    {
        &self.dir
    }
}

} // verus!
