//! Three-component vectors: positions, directions and colours.

use vstd::prelude::*;
use crate::scalar::Scalar;

verus! {

/// A vector of three quantities. As a position or direction the components are
/// x, y, z; as a colour they are r, g, b.
#[derive(Clone, Copy, Debug, PartialEq, Eq, Structural)]
pub struct Vec3 {
    pub e0: Scalar,
    pub e1: Scalar,
    pub e2: Scalar,
}

impl View for Vec3 {
    type V = Seq<Scalar>;

    /// The three components in order.
    open spec fn view(&self) -> Seq<Scalar> {
        seq![self.e0, self.e1, self.e2]
    }
}

impl Vec3 {
    /// The zero vector.
    pub open spec fn spec_new() -> Vec3 {
        Vec3 { e0: Scalar::zero(), e1: Scalar::zero(), e2: Scalar::zero() }
    }

    /// The zero vector.
    #[verifier::when_used_as_spec(spec_new)]
    pub fn new() -> (v: Vec3)
        ensures
            v == Vec3::spec_new(),
            v@ == seq![Scalar::zero(), Scalar::zero(), Scalar::zero()],
    {
        Vec3 { e0: Scalar::zero(), e1: Scalar::zero(), e2: Scalar::zero() }
    }

    pub fn with_values(e0: Scalar, e1: Scalar, e2: Scalar) -> (v: Vec3)
        ensures
            v@ == seq![e0, e1, e2],
    {
        Vec3 { e0, e1, e2 }
    }

    pub fn x(&self) -> (c: Scalar)
        ensures
            c == self@[0],
    {
        self.e0
    }

    pub fn y(&self) -> (c: Scalar)
        ensures
            c == self@[1],
    {
        self.e1
    }

    pub fn z(&self) -> (c: Scalar)
        ensures
            c == self@[2],
    {
        self.e2
    }

    pub fn r(&self) -> (c: Scalar)
        ensures
            c == self@[0],
    {
        self.e0
    }

    pub fn g(&self) -> (c: Scalar)
        ensures
            c == self@[1],
    {
        self.e1
    }

    pub fn b(&self) -> (c: Scalar)
        ensures
            c == self@[2],
    {
        self.e2
    }

    /// The opposite vector: each component with its sign changed.
    pub open spec fn spec_neg(&self) -> Vec3 {
        Vec3 { e0: self.e0.neg(), e1: self.e1.neg(), e2: self.e2.neg() }
    }

    /// The opposite vector.
    #[verifier::when_used_as_spec(spec_neg)]
    pub fn neg(&self) -> (v: Vec3)
        ensures
            v == self.spec_neg(),
    {
        Vec3 { e0: self.e0.neg(), e1: self.e1.neg(), e2: self.e2.neg() }
    }

    /// The component at `i`: 0, 1, 2 for x, y, z or r, g, b.
    pub fn index(&self, i: usize) -> (c: Scalar)
        requires
            i < 3,
        ensures
            c == self@[i as int],
    {
        if i == 0 {
            self.e0
        } else if i == 1 {
            self.e1
        } else {
            self.e2
        }
    }
}

} // verus!
