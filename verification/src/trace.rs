//! The bounce-by-bounce course of one light path.

use vstd::prelude::*;
use crate::ray::Ray;
use crate::scalar::Scalar;
use crate::scalar::INFINITY_KEY;
use crate::vec3::Vec3;

verus! {

/// The number of bounces after which a path is given up.
pub const MAX_BOUNCE: u8 = 10;

/// Key of 0.001, the lower end of the interval in which a path looks for
/// surfaces. It is above zero so that a scattered ray does not meet the
/// surface that it leaves.
pub const T_MIN_KEY: i64 = 0x3F50_624D_D2F1_A9FC;

/// Key of one half.
pub const HALF_KEY: i64 = 0x3FE0_0000_0000_0000;

/// Key of seven tenths.
pub const SEVEN_TENTHS_KEY: i64 = 0x3FE6_6666_6666_6666;

/// What the scene did with a ray.
#[derive(Clone, Copy, Debug, PartialEq, Eq, Structural)]
pub enum Outcome {
    /// The ray met no surface.
    Miss,
    /// The ray met a surface whose material absorbed it.
    Absorbed,
    /// The ray met a surface whose material scattered it.
    Scattered,
}

/// What the tracer does next.
#[derive(Clone, Copy, Debug, PartialEq, Eq, Structural)]
pub enum Step {
    /// The path ends in the background: it contributes the sky's colour.
    Sky,
    /// The path ends with no light.
    Black,
    /// The path goes on with the scattered ray, at the given depth, and what
    /// it brings back is tinted by the attenuation.
    Bounce(u8),
}

/// The step taken at `depth` on `outcome`. A path at or beyond the bounce
/// limit ends black whatever the scene did.
pub open spec fn step_of(depth: u8, outcome: Outcome) -> Step {
    if depth >= MAX_BOUNCE {
        Step::Black
    } else {
        match outcome {
            Outcome::Miss => Step::Sky,
            Outcome::Absorbed => Step::Black,
            Outcome::Scattered => Step::Bounce((depth + 1) as u8),
        }
    }
}

/// The number of bounces that a path starting at `depth` makes when the scene
/// answers its rays with `outcomes`, one after the other.
pub open spec fn bounces(depth: u8, outcomes: Seq<Outcome>) -> nat
    decreases outcomes.len(),
{
    if outcomes.len() == 0 {
        0
    } else {
        match step_of(depth, outcomes.first()) {
            Step::Bounce(next) => 1 + bounces(next, outcomes.drop_first()),
            _ => 0,
        }
    }
}

/// The open interval of ray parameters in which a path looks for surfaces:
/// from 0.001 to infinity.
pub fn interval() -> (ends: (Scalar, Scalar))
    ensures
        ends.0.key == T_MIN_KEY,
        ends.1.key == INFINITY_KEY,
        Scalar::zero().is_lt(ends.0),
        ends.0.is_lt(ends.1),
{
    (Scalar { key: T_MIN_KEY }, Scalar { key: INFINITY_KEY })
}

/// The two colours between which the sky runs: white, where a ray points
/// straight down, and a light blue of (0.5, 0.7, 1.0), where it points
/// straight up.
pub fn sky_ends() -> (ends: (Vec3, Vec3))
    ensures
        ends.0 == (Vec3 { e0: Scalar::one(), e1: Scalar::one(), e2: Scalar::one() }),
        ends.1 == (Vec3 {
            e0: Scalar { key: HALF_KEY },
            e1: Scalar { key: SEVEN_TENTHS_KEY },
            e2: Scalar::one(),
        }),
{
    (
        Vec3::with_values(Scalar::one(), Scalar::one(), Scalar::one()),
        Vec3::with_values(
            Scalar { key: HALF_KEY },
            Scalar { key: SEVEN_TENTHS_KEY },
            Scalar::one(),
        ),
    )
}

/// Whether a path at `depth` has used up its bounces, so that its ray is not
/// even sent into the scene.
pub fn spent(depth: u8) -> (r: bool)
    ensures
        r == (depth >= MAX_BOUNCE),
        r ==> forall|outcome: Outcome| step_of(depth, outcome) == Step::Black,
{
    depth >= MAX_BOUNCE
}

/// Decides the next step of a path at `depth` from what the scene did. A
/// bounce always goes one level deeper and never past the limit.
pub fn step(depth: u8, outcome: Outcome) -> (s: Step)
    ensures
        s == step_of(depth, outcome),
        s is Bounce ==> s->0 == depth + 1 && s->0 <= MAX_BOUNCE,
{
    if depth >= MAX_BOUNCE {
        return Step::Black;
    }
    match outcome {
        Outcome::Miss => Step::Sky,
        Outcome::Absorbed => Step::Black,
        Outcome::Scattered => Step::Bounce(depth + 1),
    }
}

/// What the scene did with a ray, with the scattered ray and its attenuation
/// where there is one.
#[derive(Clone, Copy, Debug, PartialEq, Eq, Structural)]
pub enum Probe {
    Miss,
    Absorbed,
    Scattered(Ray, Vec3),
}

impl Probe {
    /// The outcome that the probe stands for.
    pub open spec fn spec_outcome(self) -> Outcome {
        match self {
            Probe::Miss => Outcome::Miss,
            Probe::Absorbed => Outcome::Absorbed,
            Probe::Scattered(_, _) => Outcome::Scattered,
        }
    }

    #[verifier::when_used_as_spec(spec_outcome)]
    pub fn outcome(self) -> (o: Outcome)
        ensures
            o == self.spec_outcome(),
    {
        match self {
            Probe::Miss => Outcome::Miss,
            Probe::Absorbed => Outcome::Absorbed,
            Probe::Scattered(_, _) => Outcome::Scattered,
        }
    }
}

/// Whether `out` is a colour that a path along `ray` at `depth` can bring
/// back, where `probe` sends rays into the scene, `sky` colours a ray that
/// missed and `tint` applies an attenuation to a colour:
/// black for a spent or absorbed path, the sky's colour for a ray that
/// misses, and for a scattered ray the tinted colour of the path that goes on
/// along it one level deeper.
pub open spec fn is_color<P, K, T>(
    ray: Ray,
    depth: u8,
    probe: &P,
    sky: &K,
    tint: &T,
    out: Vec3,
) -> bool where P: Fn(Ray) -> Probe, K: Fn(Ray) -> Vec3, T: Fn(Vec3, Vec3) -> Vec3
    decreases MAX_BOUNCE - depth,
{
    if depth >= MAX_BOUNCE {
        out == Vec3::new()
    } else {
        exists|found: Probe| #[trigger]
            probe.ensures((ray,), found) && match found {
                Probe::Miss => sky.ensures((ray,), out),
                Probe::Absorbed => out == Vec3::new(),
                Probe::Scattered(onward, attenuation) => exists|inner: Vec3|
                    is_color(onward, (depth + 1) as u8, probe, sky, tint, inner) && #[trigger]
                    tint.ensures((attenuation, inner), out),
            }
    }
}

/// The colour that a path along `ray` brings back, followed from `depth`
/// until it ends: in the sky, absorbed, or spent at the bounce limit.
pub fn color<P, K, T>(ray: Ray, depth: u8, probe: &P, sky: &K, tint: &T) -> (out: Vec3) where
    P: Fn(Ray) -> Probe,
    K: Fn(Ray) -> Vec3,
    T: Fn(Vec3, Vec3) -> Vec3,

    requires
        forall|r: Ray| probe.requires((r,)),
        forall|r: Ray| sky.requires((r,)),
        forall|a: Vec3, c: Vec3| tint.requires((a, c)),
    ensures
        is_color(ray, depth, probe, sky, tint, out),
    decreases MAX_BOUNCE - depth,
{
    if spent(depth) {
        return Vec3::new();
    }
    let found = probe(ray);
    match step(depth, found.outcome()) {
        Step::Sky => sky(ray),
        Step::Black => Vec3::new(),
        Step::Bounce(next) => {
            match found {
                Probe::Scattered(onward, attenuation) => {
                    let inner = color(onward, next, probe, sky, tint);
                    tint(attenuation, inner)
                },
                _ => Vec3::new(),
            }
        },
    }
}

/// Whatever the scene does, a path makes no more bounces than the limit
/// leaves it at its depth.
pub proof fn lemma_bounces_bounded(depth: u8, outcomes: Seq<Outcome>)
    ensures
        depth <= MAX_BOUNCE ==> bounces(depth, outcomes) <= MAX_BOUNCE - depth,
        depth >= MAX_BOUNCE ==> bounces(depth, outcomes) == 0,
    decreases outcomes.len(),
{
    if outcomes.len() > 0 {
        match step_of(depth, outcomes.first()) {
            Step::Bounce(next) => {
                lemma_bounces_bounded(next, outcomes.drop_first());
            },
            _ => {},
        }
    }
}

/// In a scene where every ray misses, a path that is not spent brings back
/// the sky's colour for its own ray.
pub proof fn lemma_sky_only<P, K, T>(ray: Ray, depth: u8, probe: &P, sky: &K, tint: &T, out: Vec3) where
    P: Fn(Ray) -> Probe,
    K: Fn(Ray) -> Vec3,
    T: Fn(Vec3, Vec3) -> Vec3,

    requires
        depth < MAX_BOUNCE,
        forall|r: Ray, found: Probe| probe.ensures((r,), found) ==> found == Probe::Miss,
        is_color(ray, depth, probe, sky, tint, out),
    ensures
        sky.ensures((ray,), out),
{
}

/// Where the scene, the sky and the tint each give one answer to one
/// question, a path has one colour: following it again gives the same colour,
/// bit for bit.
pub proof fn lemma_color_is_reproducible<P, K, T>(
    ray: Ray,
    depth: u8,
    probe: &P,
    sky: &K,
    tint: &T,
    first: Vec3,
    second: Vec3,
) where P: Fn(Ray) -> Probe, K: Fn(Ray) -> Vec3, T: Fn(Vec3, Vec3) -> Vec3
    requires
        forall|r: Ray, p: Probe, q: Probe| probe.ensures((r,), p) && probe.ensures((r,), q) ==> p == q,
        forall|r: Ray, a: Vec3, b: Vec3| sky.ensures((r,), a) && sky.ensures((r,), b) ==> a == b,
        forall|x: Vec3, y: Vec3, a: Vec3, b: Vec3|
            tint.ensures((x, y), a) && tint.ensures((x, y), b) ==> a == b,
        is_color(ray, depth, probe, sky, tint, first),
        is_color(ray, depth, probe, sky, tint, second),
    ensures
        first == second,
    decreases MAX_BOUNCE - depth,
{
    if depth < MAX_BOUNCE {
        let p = choose|found: Probe| #[trigger]
            probe.ensures((ray,), found) && match found {
                Probe::Miss => sky.ensures((ray,), first),
                Probe::Absorbed => first == Vec3::new(),
                Probe::Scattered(onward, attenuation) => exists|inner: Vec3|
                    is_color(onward, (depth + 1) as u8, probe, sky, tint, inner) && #[trigger]
                    tint.ensures((attenuation, inner), first),
            };
        let q = choose|found: Probe| #[trigger]
            probe.ensures((ray,), found) && match found {
                Probe::Miss => sky.ensures((ray,), second),
                Probe::Absorbed => second == Vec3::new(),
                Probe::Scattered(onward, attenuation) => exists|inner: Vec3|
                    is_color(onward, (depth + 1) as u8, probe, sky, tint, inner) && #[trigger]
                    tint.ensures((attenuation, inner), second),
            };
        match p {
            Probe::Scattered(onward, attenuation) => {
                let a = choose|inner: Vec3|
                    is_color(onward, (depth + 1) as u8, probe, sky, tint, inner) && #[trigger]
                    tint.ensures((attenuation, inner), first);
                let b = choose|inner: Vec3|
                    is_color(onward, (depth + 1) as u8, probe, sky, tint, inner) && #[trigger]
                    tint.ensures((attenuation, inner), second);
                lemma_color_is_reproducible(onward, (depth + 1) as u8, probe, sky, tint, a, b);
            },
            _ => {},
        }
    }
}

} // verus!
