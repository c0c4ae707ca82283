//! The scene: an insertion-ordered collection of scene objects with a
//! verified nearest-object query — a linear scan whose result is pinned to
//! the minimum signed distance, ties resolved to the earliest object.

use vstd::prelude::*;

use crate::scene_objects::SceneObject;
use crate::threed_data_types::Point;

verus! {

/// An insertion-ordered sequence of scene objects.
pub struct Scene {
    pub scene_objects: Vec<SceneObject>,
}

/// The distance of the nearest object together with a copy of that object.
pub struct ClosestObject {
    pub distance: i64,
    pub obj: SceneObject,
}

/// `co` is the nearest-object answer at `p` witnessed at position `i`: it
/// copies the object there, carries that object's distance, and every
/// earlier object is strictly farther.
pub open spec fn spec_closest_witness(
    objs: Seq<SceneObject>,
    p: Point,
    co: ClosestObject,
    i: int,
) -> bool {
    &&& 0 <= i < objs.len()
    &&& co.obj == objs[i]
    &&& co.distance as int == objs[i].spec_signed_distance(p)
    &&& forall|j: int|
        0 <= j < i ==> (co.distance as int) < #[trigger] objs[j].spec_signed_distance(p)
}

impl Scene {
    /// Every held object is well formed.
    pub open spec fn valid(self) -> bool {
        forall|i: int|
            0 <= i < self.scene_objects@.len() ==> #[trigger] self.scene_objects@[i].valid()
    }

    /// An empty scene.
    pub fn new() -> (s: Self)
        ensures
            s.scene_objects@.len() == 0,
            s.valid(),
    {
        Scene { scene_objects: Vec::<SceneObject>::new() }
    }

    /// Append an object; insertion order is kept.
    pub fn add_scene_object(&mut self, o: SceneObject)
        requires
            o.valid(),
            old(self).valid(),
        ensures
            final(self).scene_objects@ == old(self).scene_objects@.push(o),
            final(self).valid(),
    {
        self.scene_objects.push(o);
    }

    /// The least signed distance from `p` over all objects; `None` exactly
    /// when the scene is empty.
    pub fn get_min_distance(&self, p: &Point) -> (res: Option<i64>)
        requires
            self.valid(),
        ensures
            (res is None <==> self.scene_objects@.len() == 0),
            (match res {
                Some(d) => {
                    &&& exists|i: int|
                        0 <= i < self.scene_objects@.len() && d as int
                            == #[trigger] self.scene_objects@[i].spec_signed_distance(*p)
                    &&& forall|j: int|
                        0 <= j < self.scene_objects@.len() ==> d as int
                            <= #[trigger] self.scene_objects@[j].spec_signed_distance(*p)
                },
                None => true,
            }),
    {
        let mut min_dist: Option<i64> = None;
        let n: usize = self.scene_objects.len();
        let mut k: usize = 0;
        while k < n
            invariant
                n == self.scene_objects@.len(),
                0 <= k <= n,
                self.valid(),
                (min_dist is None <==> k == 0),
                (match min_dist {
                    Some(d) => {
                        &&& exists|i: int|
                            0 <= i < k && d as int
                                == #[trigger] self.scene_objects@[i].spec_signed_distance(*p)
                        &&& forall|j: int|
                            0 <= j < k ==> d as int
                                <= #[trigger] self.scene_objects@[j].spec_signed_distance(*p)
                    },
                    None => true,
                }),
            decreases n - k,
        {
            let o = &self.scene_objects[k];
            let dist: i64 = o.signed_distance(p);
            match min_dist {
                Some(min_d) => {
                    if dist < min_d {
                        min_dist = Some(dist);
                    }
                },
                None => {
                    min_dist = Some(dist);
                },
            }
            k = k + 1;
        }
        min_dist
    }

    /// The nearest object to `p` with its distance; among equally near
    /// objects the earliest inserted is returned. `None` exactly when the
    /// scene is empty.
    pub fn get_closest_object(&self, p: &Point) -> (res: Option<ClosestObject>)
        requires
            self.valid(),
        ensures
            (res is None <==> self.scene_objects@.len() == 0),
            (match res {
                Some(co) => {
                    &&& exists|i: int| #[trigger]
                        spec_closest_witness(self.scene_objects@, *p, co, i)
                    &&& forall|j: int|
                        0 <= j < self.scene_objects@.len() ==> co.distance as int
                            <= #[trigger] self.scene_objects@[j].spec_signed_distance(*p)
                    &&& co.obj.valid()
                },
                None => true,
            }),
    {
        let mut best: Option<ClosestObject> = None;
        let ghost mut best_at: int = 0;
        let n: usize = self.scene_objects.len();
        let mut k: usize = 0;
        while k < n
            invariant
                n == self.scene_objects@.len(),
                0 <= k <= n,
                self.valid(),
                (best is None <==> k == 0),
                (match best {
                    Some(co) => {
                        &&& 0 <= best_at < k
                        &&& co.obj == self.scene_objects@[best_at]
                        &&& co.distance as int == self.scene_objects@[best_at].spec_signed_distance(
                            *p,
                        )
                        &&& forall|j: int|
                            0 <= j < best_at ==> (co.distance as int)
                                < #[trigger] self.scene_objects@[j].spec_signed_distance(*p)
                        &&& forall|j: int|
                            0 <= j < k ==> co.distance as int
                                <= #[trigger] self.scene_objects@[j].spec_signed_distance(*p)
                    },
                    None => true,
                }),
            decreases n - k,
        {
            let o = &self.scene_objects[k];
            let dist: i64 = o.signed_distance(p);
            match &best {
                Some(co) => {
                    if dist < co.distance {
                        best = Some(ClosestObject { distance: dist, obj: *o });
                        proof {
                            best_at = k as int;
                        }
                    }
                },
                None => {
                    best = Some(ClosestObject { distance: dist, obj: *o });
                    proof {
                        best_at = k as int;
                    }
                },
            }
            k = k + 1;
        }
        proof {
            if best is Some {
                assert(spec_closest_witness(self.scene_objects@, *p, best->Some_0, best_at));
            }
        }
        best
    }

    /// A read view of the held objects, in insertion order.
    pub fn iter(&self) -> (r: &Vec<SceneObject>)
        ensures
            r@ == self.scene_objects@,
    {
        &self.scene_objects
    }

    /// A mutable view of the held objects, in insertion order.
    pub fn iter_mut(&mut self) -> (r: &mut Vec<SceneObject>)
        ensures
            r@ == old(self).scene_objects@,
            final(self).scene_objects@ == final(r)@,
    {
        &mut self.scene_objects
    }
}

} // verus!
