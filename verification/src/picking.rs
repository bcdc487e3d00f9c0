//! Hit-test candidates. The candidates found under the pointer in one tick
//! are collected into a bounded `heapless::Vec`, as a renderer-side pass
//! would, and the topmost one is taken from it.
//!
//! A candidate is the pair of a tile index and the draw depth of the tile's
//! part. The tie-break is deterministic: among candidates of equal depth the
//! one collected last — the tile registered last — wins.

use vstd::prelude::*;

verus! {

/// Capacity of the per-tick candidate collection; the scene holds at most
/// this many tiles.
pub const CANDIDATE_CAPACITY: usize = 2000;

#[verifier::external_type_specification]
#[verifier::external_body]
#[verifier::reject_recursive_types(T)]
pub struct ExHeaplessVec<T, const N: usize>(heapless::Vec<T, N>);

/// The elements a candidate collection holds, oldest first.
pub uninterp spec fn candidate_contents(v: heapless::Vec<(usize, i64), 2000>) -> Seq<
    (usize, i64),
>;

/// Relies on heapless::Vec::new: the vector starts empty.
#[verifier::external_body]
pub fn candidate_vec_new() -> (r: heapless::Vec<(usize, i64), 2000>)
    ensures
        candidate_contents(r) == Seq::<(usize, i64)>::empty(),
{
    heapless::Vec::new()
}

/// Relies on heapless::Vec::push: appends the item while below capacity,
/// and hands it back unchanged once full.
#[verifier::external_body]
pub fn candidate_vec_push(v: &mut heapless::Vec<(usize, i64), 2000>, item: (usize, i64)) -> (r:
    Result<(), (usize, i64)>)
    ensures
        candidate_contents(*old(v)).len() < CANDIDATE_CAPACITY ==> (r == Ok::<
            (),
            (usize, i64),
        >(()) && candidate_contents(*final(v)) == candidate_contents(*old(v)).push(item)),
        candidate_contents(*old(v)).len() >= CANDIDATE_CAPACITY ==> (r == Err::<
            (),
            (usize, i64),
        >(item) && candidate_contents(*final(v)) == candidate_contents(*old(v))),
{
    v.push(item)
}

/// Relies on the slice `len` that heapless::Vec dereferences to.
#[verifier::external_body]
pub fn candidate_vec_len(v: &heapless::Vec<(usize, i64), 2000>) -> (r: usize)
    ensures
        r == candidate_contents(*v).len(),
{
    v.len()
}

/// Relies on the slice indexing that heapless::Vec dereferences to; the
/// index is in range, so it does not panic.
#[verifier::external_body]
pub fn candidate_vec_get(v: &heapless::Vec<(usize, i64), 2000>, i: usize) -> (r: (usize, i64))
    requires
        i < candidate_contents(*v).len(),
    ensures
        r == candidate_contents(*v)[i as int],
{
    v[i]
}

/// The winning candidate of a collection: the deepest, and among equally
/// deep ones the last collected. `None` exactly of an empty collection.
pub open spec fn top_candidate(s: Seq<(usize, i64)>) -> Option<(usize, i64)>
    decreases s.len(),
{
    if s.len() == 0 {
        None
    } else {
        let last = s.last();
        match top_candidate(s.drop_last()) {
            None => Some(last),
            Some(best) => if last.1 >= best.1 {
                Some(last)
            } else {
                Some(best)
            },
        }
    }
}

/// The winner is a candidate and none is deeper: the topmost-wins
/// tie-break. A winner exists exactly when a candidate does.
pub proof fn lemma_top_candidate_topmost(s: Seq<(usize, i64)>)
    ensures
        s.len() == 0 <==> top_candidate(s) is None,
        top_candidate(s) matches Some(best) ==> s.contains(best) && forall|i: int|
            0 <= i < s.len() ==> (#[trigger] s[i]).1 <= best.1,
    decreases s.len(),
{
    if s.len() > 0 {
        lemma_top_candidate_topmost(s.drop_last());
        let best = top_candidate(s)->Some_0;
        if s.len() == 1 {
            assert(s[0] == s.last());
        } else {
            match top_candidate(s.drop_last()) {
                None => {},
                Some(prior) => {
                    if s.drop_last().contains(prior) {
                        let j = choose|j: int|
                            0 <= j < s.drop_last().len() && s.drop_last()[j] == prior;
                        assert(s[j] == prior);
                    }
                },
            }
        }
        assert forall|i: int| 0 <= i < s.len() implies (#[trigger] s[i]).1 <= best.1 by {
            if i < s.len() - 1 {
                assert(s.drop_last()[i] == s[i]);
            }
        }
    }
}

/// Scans a candidate collection for its winner.
pub fn pick_top_candidate(v: &heapless::Vec<(usize, i64), 2000>) -> (r: Option<(usize, i64)>)
    ensures
        r == top_candidate(candidate_contents(*v)),
{
    let ghost s = candidate_contents(*v);
    let n = candidate_vec_len(v);
    let mut best: Option<(usize, i64)> = None;
    let mut i: usize = 0;
    while i < n
        invariant
            0 <= i <= n,
            n == s.len(),
            s == candidate_contents(*v),
            best == top_candidate(s.take(i as int)),
        decreases n - i,
    {
        let c = candidate_vec_get(v, i);
        best = match best {
            None => Some(c),
            Some(b) => if c.1 >= b.1 {
                Some(c)
            } else {
                Some(b)
            },
        };
        proof {
            assert(s.take(i + 1).drop_last() =~= s.take(i as int));
            assert(s.take(i + 1).last() == s[i as int]);
        }
        i = i + 1;
    }
    proof {
        assert(s.take(n as int) =~= s);
    }
    best
}

} // verus!
