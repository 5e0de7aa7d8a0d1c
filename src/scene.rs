//! Choosing the nearest of the hits that a ray makes on a scene's spheres.
//!
//! Each sphere's hit distance is given as an order key: any encoding whose
//! integer order is the order of the distances (the bit pattern of a
//! positive finite `f32` is one). `None` stands for a sphere the ray misses.

use vstd::prelude::*;

verus! {

/// Sphere `k` is hit strictly nearer than `limit`.
pub open spec fn hit_within(keys: Seq<Option<u32>>, k: int, limit: u32) -> bool {
    match keys[k] {
        Some(t) => t < limit,
        None => false,
    }
}

/// The key of a hit sphere.
pub open spec fn key_of(keys: Seq<Option<u32>>, k: int) -> u32 {
    match keys[k] {
        Some(t) => t,
        None => 0,
    }
}

/// `k` is the sphere a linear scan keeps: a hit within `limit`, no farther
/// than any other such hit, and strictly nearer than every such hit before
/// it (ties go to the sphere listed first).
pub open spec fn is_nearest(keys: Seq<Option<u32>>, k: int, limit: u32) -> bool {
    &&& 0 <= k < keys.len()
    &&& hit_within(keys, k, limit)
    &&& forall|j: int|
        0 <= j < keys.len() && #[trigger] hit_within(keys, j, limit) ==> key_of(keys, k) <= key_of(
            keys,
            j,
        )
    &&& forall|j: int|
        0 <= j < k && #[trigger] hit_within(keys, j, limit) ==> key_of(keys, k) < key_of(keys, j)
}

/// Index of the nearest hit strictly within `limit`, or `None` when no
/// sphere is hit that near.
pub fn nearest_hit(keys: &Vec<Option<u32>>, limit: u32) -> (r: Option<usize>)
    ensures
        match r {
            Some(k) => is_nearest(keys@, k as int, limit),
            None => forall|j: int| 0 <= j < keys@.len() ==> !#[trigger] hit_within(keys@, j, limit),
        },
{
    let mut best: Option<usize> = None;
    let mut bound: u32 = limit;
    let mut i: usize = 0;
    while i < keys.len()
        invariant
            i <= keys@.len(),
            match best {
                Some(k) => {
                    &&& k < i
                    &&& hit_within(keys@, k as int, limit)
                    &&& bound == key_of(keys@, k as int)
                    &&& forall|j: int|
                        0 <= j < k && #[trigger] hit_within(keys@, j, limit) ==> bound < key_of(
                            keys@,
                            j,
                        )
                },
                None => bound == limit,
            },
            forall|j: int|
                0 <= j < i && #[trigger] hit_within(keys@, j, limit) ==> bound <= key_of(keys@, j),
            best is None ==> forall|j: int| 0 <= j < i ==> !#[trigger] hit_within(keys@, j, limit),
        decreases keys@.len() - i,
    {
        match keys[i] {
            Some(t) => {
                if t < bound {
                    best = Some(i);
                    bound = t;
                }
            },
            None => {},
        }
        i += 1;
    }
    best
}

} // verus!
