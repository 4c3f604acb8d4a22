//! Hit records, and the nearest hit over a list of surfaces.

use vstd::prelude::*;
use crate::material::Material;
use crate::scalar::Scalar;
use crate::sphere::Sphere;
use crate::vec3::Vec3;

verus! {

/// Where a ray met a surface: the ray parameter, the point, the surface normal
/// there and the surface's material.
#[derive(Clone, Copy, Debug, PartialEq, Eq, Structural)]
pub struct HitRecord {
    pub t: Scalar,
    pub point: Vec3,
    pub normal: Vec3,
    pub mat: Material,
}

impl HitRecord {
    pub fn new(t: Scalar, point: Vec3, normal: Vec3, mat: Material) -> (rec: HitRecord)
        ensures
            rec == (HitRecord { t, point, normal, mat }),
    {
        HitRecord { t, point, normal, mat }
    }
}

/// The record kept after `next` is looked at with `best` in hand: `next`
/// replaces `best` only where its parameter is less.
pub open spec fn closer(best: Option<HitRecord>, next: Option<HitRecord>) -> Option<HitRecord> {
    match (best, next) {
        (Some(b), Some(n)) => if n.t.is_lt(b.t) { next } else { best },
        (None, _) => next,
        (_, None) => best,
    }
}

/// The nearest of the members' hits: the scan from the first member to the
/// last that keeps the closer record at each step.
pub open spec fn nearest(hits: Seq<Option<HitRecord>>) -> Option<HitRecord>
    decreases hits.len(),
{
    if hits.len() == 0 {
        None
    } else {
        closer(nearest(hits.drop_last()), hits.last())
    }
}

/// An ordered collection of surfaces.
#[derive(Clone, Debug)]
pub struct HitableList {
    pub hitables: Vec<Sphere>,
}

impl View for HitableList {
    type V = Seq<Sphere>;

    /// The members in order.
    open spec fn view(&self) -> Seq<Sphere> {
        self.hitables@
    }
}

impl HitableList {
    /// The empty list.
    pub fn new() -> (list: HitableList)
        ensures
            list@ == Seq::<Sphere>::empty(),
    {
        HitableList { hitables: Vec::new() }
    }

    /// The list of the given members, in their order.
    pub fn with_vals(hitables: Vec<Sphere>) -> (list: HitableList)
        ensures
            list@ == hitables@,
    {
        HitableList { hitables }
    }

    pub fn len(&self) -> (n: usize)
        ensures
            n == self@.len(),
    {
        self.hitables.len()
    }

    /// The nearest hit along a ray over all members. `member_hit` says where
    /// the ray meets one member, if it does; it is asked once for each
    /// member, in the list's order, and the closest answer is returned. Among
    /// members that answer with the same parameter the earliest stays.
    pub fn hit<F>(&self, member_hit: &F) -> (closest: Option<HitRecord>) where
        F: Fn(Sphere) -> Option<HitRecord>,

        requires
            forall|i: int| 0 <= i < self@.len() ==> member_hit.requires((#[trigger] self@[i],)),
        ensures
            exists|hits: Seq<Option<HitRecord>>|
                answers(self@, member_hit, hits) && closest == nearest(hits),
            self@.len() == 0 ==> closest is None,
    {
        let mut closest: Option<HitRecord> = None;
        let ghost mut hits: Seq<Option<HitRecord>> = Seq::empty();
        let mut i: usize = 0;
        while i < self.hitables.len()
            invariant
                i <= self@.len(),
                forall|j: int| 0 <= j < self@.len() ==> member_hit.requires((#[trigger] self@[j],)),
                answers(self@.take(i as int), member_hit, hits),
                closest == nearest(hits),
            decreases self@.len() - i,
        {
            let answer = member_hit(self.hitables[i]);
            proof {
                assert(hits.push(answer).drop_last() =~= hits);
                hits = hits.push(answer);
            }
            closest = keep_closer(closest, answer);
            i += 1;
        }
        closest
    }
}

/// `hits` holds what `member_hit` answered for each of `members`, in order.
pub open spec fn answers<F: Fn(Sphere) -> Option<HitRecord>>(
    members: Seq<Sphere>,
    member_hit: &F,
    hits: Seq<Option<HitRecord>>,
) -> bool {
    &&& hits.len() == members.len()
    &&& forall|i: int| 0 <= i < hits.len() ==> member_hit.ensures((members[i],), #[trigger] hits[i])
}

/// One step of the scan: the record to keep when `next` comes in with `best`
/// in hand.
pub fn keep_closer(best: Option<HitRecord>, next: Option<HitRecord>) -> (kept: Option<HitRecord>)
    ensures
        kept == closer(best, next),
{
    match (best, next) {
        (Some(b), Some(n)) => {
            if n.t.lt(b.t) {
                next
            } else {
                best
            }
        },
        (None, _) => next,
        (_, None) => best,
    }
}

/// The nearest of the given hits: the scan over all of them.
pub fn closest_of(hits: &Vec<Option<HitRecord>>) -> (closest: Option<HitRecord>)
    ensures
        closest == nearest(hits@),
{
    let mut closest: Option<HitRecord> = None;
    let mut i: usize = 0;
    while i < hits.len()
        invariant
            i <= hits.len(),
            closest == nearest(hits@.take(i as int)),
        decreases hits.len() - i,
    {
        assert(hits@.take(i + 1).drop_last() =~= hits@.take(i as int));
        closest = keep_closer(closest, hits[i]);
        i += 1;
    }
    assert(hits@.take(i as int) =~= hits@);
    closest
}

/// No member reported a hit exactly when the nearest hit is none.
pub proof fn lemma_nearest_none(hits: Seq<Option<HitRecord>>)
    ensures
        nearest(hits) is None <==> forall|i: int| 0 <= i < hits.len() ==> hits[i] is None,
    decreases hits.len(),
{
    if hits.len() > 0 {
        lemma_nearest_none(hits.drop_last());
        let front = hits.drop_last();
        if nearest(hits) is None {
            assert forall|i: int| 0 <= i < hits.len() implies hits[i] is None by {
                if i < front.len() {
                    assert(front[i] is None);
                }
            }
        }
    }
}

/// The nearest hit is one of the reported hits, and no member reported a
/// parameter less than its own.
pub proof fn lemma_nearest_is_least(hits: Seq<Option<HitRecord>>)
    ensures
        nearest(hits) is Some ==> exists|i: int| 0 <= i < hits.len() && hits[i] == nearest(hits),
        forall|j: int|
            0 <= j < hits.len() && hits[j] is Some ==> !(#[trigger] hits[j])->0.t.is_lt(
                nearest(hits)->0.t,
            ),
    decreases hits.len(),
{
    if hits.len() > 0 {
        let front = hits.drop_last();
        lemma_nearest_is_least(front);
        lemma_nearest_none(front);
        let best = nearest(hits);
        assert forall|j: int| 0 <= j < hits.len() && hits[j] is Some implies !(#[trigger] hits[j])->0.t.is_lt(
            best->0.t,
        ) by {
            if j < front.len() {
                assert(!front[j]->0.t.is_lt(nearest(front)->0.t));
            }
        }
    }
}

/// Where every reported hit lies strictly inside an interval, so does the
/// nearest.
pub proof fn lemma_nearest_in_interval(hits: Seq<Option<HitRecord>>, t_min: Scalar, t_max: Scalar)
    requires
        forall|i: int|
            0 <= i < hits.len() && hits[i] is Some ==> (#[trigger] hits[i])->0.t.is_between(
                t_min,
                t_max,
            ),
    ensures
        nearest(hits) is Some ==> nearest(hits)->0.t.is_between(t_min, t_max),
{
    lemma_nearest_is_least(hits);
}

/// Over two surfaces the nearest hit is the hit of the one that reports the
/// smaller parameter, the only hit where only one reports, and none where
/// neither does.
pub proof fn lemma_nearest_of_two(first: Option<HitRecord>, second: Option<HitRecord>)
    ensures
        first is None && second is None ==> nearest(seq![first, second]) is None,
        first is Some && second is None ==> nearest(seq![first, second]) == first,
        first is None && second is Some ==> nearest(seq![first, second]) == second,
        first is Some && second is Some && second->0.t.is_lt(first->0.t) ==> nearest(
            seq![first, second],
        ) == second,
        first is Some && second is Some && !second->0.t.is_lt(first->0.t) ==> nearest(
            seq![first, second],
        ) == first,
{
    let both = seq![first, second];
    let one = both.drop_last();
    assert(nearest(one.drop_last()) is None);
    assert(nearest(both) == closer(nearest(one), second));
}

} // verus!
