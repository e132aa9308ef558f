use vstd::prelude::*;

verus! {

// The decisions of the recursive ray tracer that do not depend on arithmetic.
//
// A hit distance reaches these functions as an order key: keys compare as the
// distances do. For a non-negative distance its IEEE-754 bit pattern is such a
// key. `None` stands for an object that the ray misses.

/// The deepest recursion level that still traces against the scene; a ray of
/// a deeper level sees only the sky.
pub const MAX_DEPTH: u32 = 3;

/// Whether a ray at recursion level `depth` is past the limit and gets the
/// sky in place of any shading or further recursion.
pub fn depth_exhausted(depth: u32) -> (r: bool)
    ensures
        r == (depth > MAX_DEPTH),
{
    depth > MAX_DEPTH
}

/// `i` is the first index of a hit whose key is the smallest of all hits.
pub open spec fn is_nearest(keys: Seq<Option<u32>>, i: int) -> bool {
    &&& 0 <= i < keys.len()
    &&& keys[i] is Some
    &&& forall|j: int| 0 <= j < keys.len() && #[trigger] keys[j] is Some ==> keys[i]->0 <= keys[j]->0
    &&& forall|j: int| 0 <= j < i && #[trigger] keys[j] is Some ==> keys[i]->0 < keys[j]->0
}

/// No object is hit.
pub open spec fn all_miss(keys: Seq<Option<u32>>) -> bool {
    forall|j: int| 0 <= j < keys.len() ==> #[trigger] keys[j] is None
}

/// Some object is hit at a key strictly below `limit`.
pub open spec fn hit_before(keys: Seq<Option<u32>>, limit: u32) -> bool {
    exists|j: int| 0 <= j < keys.len() && #[trigger] keys[j] is Some && keys[j]->0 < limit
}

/// The object whose hit is nearest, given each object's hit key in scene
/// order; of hits at the same key the first in scene order wins. `None` when
/// the ray hits nothing.
pub fn nearest_hit(keys: &[Option<u32>]) -> (r: Option<usize>)
    ensures
        r is None <==> all_miss(keys@),
        r matches Some(i) ==> is_nearest(keys@, i as int),
{
    let mut best: Option<usize> = None;
    let mut best_key: u32 = 0;
    let mut i: usize = 0;
    while i < keys.len()
        invariant
            i <= keys@.len(),
            best is None <==> all_miss(keys@.take(i as int)),
            best matches Some(b) ==> is_nearest(keys@.take(i as int), b as int) && keys@[b as int]
                == Some(best_key),
        decreases keys@.len() - i,
    {
        let ghost seen = keys@.take(i as int);
        let ghost next = keys@.take(i + 1);
        assert(next == seen.push(keys@[i as int]));
        if let Some(k) = keys[i] {
            if best.is_none() || k < best_key {
                best = Some(i);
                best_key = k;
            }
        }
        proof {
            assert forall|j: int| 0 <= j < i implies #[trigger] next[j] == seen[j] by {}
        }
        i = i + 1;
    }
    proof {
        assert(keys@.take(keys@.len() as int) == keys@);
    }
    best
}

/// Whether any object is hit at a key strictly below `limit`: the shadow
/// test, where `limit` is the key of the distance to the light.
pub fn any_hit_within(keys: &[Option<u32>], limit: u32) -> (r: bool)
    ensures
        r == hit_before(keys@, limit),
{
    let mut i: usize = 0;
    while i < keys.len()
        invariant
            i <= keys@.len(),
            forall|j: int| 0 <= j < i && #[trigger] keys@[j] is Some ==> keys@[j]->0 >= limit,
        decreases keys@.len() - i,
    {
        if let Some(k) = keys[i] {
            if k < limit {
                return true;
            }
        }
        i = i + 1;
    }
    false
}

} // verus!
