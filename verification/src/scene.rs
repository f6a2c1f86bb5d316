//! The nearest hit of a ray among the objects of a scene.
use crate::objects::Object;
use crate::ray::{hit_view, Hit, HitModel, Ray, RayIntersect};
use vstd::prelude::*;

verus! {

/// Every object of the scene lies within the world limit.
pub open spec fn scene_in_world(objects: Seq<Object>) -> bool {
    forall|i: int| 0 <= i < objects.len() ==> (#[trigger] objects[i]).within_world()
}

/// The hit `h` of object `i` is the answer for the first `n` objects: object
/// `i` is among them and is hit at `h`, no object among them is hit nearer, and
/// none before `i` is hit as near.
pub open spec fn is_nearest(objects: Seq<Object>, ray: Ray, n: int, i: int, h: HitModel) -> bool {
    &&& 0 <= i < n
    &&& objects[i].hit(ray) == Some(h)
    &&& forall|j: int|
        0 <= j < n ==> match (#[trigger] objects[j]).hit(ray) {
            Some(g) => h.distance < g.distance || (h.distance == g.distance && i <= j),
            None => true,
        }
}

/// The ray hits none of the first `n` objects.
pub open spec fn misses_all(objects: Seq<Object>, ray: Ray, n: int) -> bool {
    forall|j: int| 0 <= j < n ==> (#[trigger] objects[j]).hit(ray) is None
}

/// Whether every object of the scene lies within the world limit.
pub fn scene_is_in_world(objects: &Vec<Object>) -> (r: bool)
    ensures
        r == scene_in_world(objects@),
{
    let mut i: usize = 0;
    while i < objects.len()
        invariant
            i <= objects.len(),
            forall|j: int| 0 <= j < i ==> (#[trigger] objects@[j]).within_world(),
        decreases objects.len() - i,
    {
        let inside = match &objects[i] {
            Object::HyperSphere(hyper_sphere) => hyper_sphere.in_world(),
            Object::HyperPlane(hyper_plane) => hyper_plane.in_world(),
        };
        if !inside {
            return false;
        }
        i += 1;
    }
    true
}

/// The nearest hit of the ray among the objects, with the index of the object
/// that is hit. Of several objects hit at the same distance, the first one is
/// returned.
pub fn intersect_scene(ray: Ray, objects: &Vec<Object>) -> (r: Option<(usize, Hit)>)
    requires
        ray.spec_in_world(),
        scene_in_world(objects@),
    ensures
        match r {
            Some((i, h)) => is_nearest(objects@, ray, objects@.len() as int, i as int, h@),
            None => misses_all(objects@, ray, objects@.len() as int),
        },
{
    let mut best: Option<(usize, Hit)> = None;
    let mut i: usize = 0;
    while i < objects.len()
        invariant
            i <= objects.len(),
            ray.spec_in_world(),
            scene_in_world(objects@),
            match best {
                Some((k, h)) => is_nearest(objects@, ray, i as int, k as int, h@),
                None => misses_all(objects@, ray, i as int),
            },
        decreases objects.len() - i,
    {
        let found = objects[i].intersect(ray);
        proof {
            assert(hit_view(found) == objects@[i as int].hit(ray));
        }
        match found {
            Some(hit) => {
                let better = match best {
                    Some((_, nearest)) => hit.distance < nearest.distance,
                    None => true,
                };
                if better {
                    best = Some((i, hit));
                }
            },
            None => {},
        }
        i += 1;
    }
    best
}

} // verus!
