use crate::pixel::Pixel;
use vstd::prelude::*;

verus! {

/// The first photograph, at or after `start` in load order, whose projection landed on its
/// raster, with the cell it landed on.
pub open spec fn first_hit_from(hits: Seq<Option<Pixel>>, start: int) -> Option<(int, Pixel)>
    decreases hits.len() - start,
{
    if start < 0 || start >= hits.len() {
        None
    } else {
        match hits[start] {
            Some(p) => Some((start, p)),
            None => first_hit_from(hits, start + 1),
        }
    }
}

/// The first photograph in load order whose projection landed on its raster.
pub open spec fn first_hit_of(hits: Seq<Option<Pixel>>) -> Option<(int, Pixel)> {
    first_hit_from(hits, 0)
}

/// Picks, among the projections of one scan position's photographs in load order, the first that
/// landed on its raster: the photograph that is to be sampled. `None` when none did.
pub fn first_hit(hits: &Vec<Option<Pixel>>) -> (r: Option<(usize, Pixel)>)
    ensures
        match r {
            Some((i, p)) => first_hit_of(hits@) == Some((i as int, p)),
            None => first_hit_of(hits@) is None,
        },
{
    let mut i: usize = 0;
    while i < hits.len()
        invariant
            0 <= i <= hits.len(),
            first_hit_of(hits@) == first_hit_from(hits@, i as int),
        decreases hits.len() - i,
    {
        if let Some(p) = hits[i] {
            return Some((i, p));
        }
        i = i + 1;
    }
    None
}

/// The first hit is a photograph whose projection landed, and every photograph loaded before it
/// missed.
pub proof fn lemma_first_hit_is_earliest(hits: Seq<Option<Pixel>>, start: int)
    requires
        0 <= start,
    ensures
        match first_hit_from(hits, start) {
            Some((k, p)) => start <= k < hits.len() && hits[k] == Some(p) && forall|j: int|
                start <= j < k ==> #[trigger] hits[j] is None,
            None => forall|j: int| start <= j < hits.len() ==> #[trigger] hits[j] is None,
        },
    decreases hits.len() - start,
{
    if start < hits.len() {
        lemma_first_hit_is_earliest(hits, start + 1);
    }
}

/// When two photographs both cover a point, the lookup answers from the one loaded first, and
/// never from the one loaded later.
pub proof fn lemma_first_in_load_order(hits: Seq<Option<Pixel>>, i: int, j: int)
    requires
        0 <= i < j < hits.len(),
        hits[i] is Some,
        hits[j] is Some,
    ensures
        first_hit_of(hits) matches Some((k, p)) && k <= i && k != j && hits[k] == Some(p),
{
    lemma_first_hit_is_earliest(hits, 0);
}

} // verus!
