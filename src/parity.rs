use vstd::prelude::*;
use crate::slot::{corner_index, edge_index, Corner, Edge};

verus! {

/// How many of the entries `s[0..i]` are larger than `s[j]`.
pub open spec fn count_above(s: Seq<nat>, j: int, i: int) -> nat
    decreases i,
{
    if i <= 0 {
        0
    } else {
        count_above(s, j, i - 1) + if s[i - 1] > s[j] {
            1nat
        } else {
            0nat
        }
    }
}

/// The number of inversions (pairs `k < j < n` with `s[k] > s[j]`) among the
/// first `n` entries of `s`.
pub open spec fn inversions_upto(s: Seq<nat>, n: int) -> nat
    decreases n,
{
    if n <= 0 {
        0
    } else {
        inversions_upto(s, n - 1) + count_above(s, n - 1, n - 1)
    }
}

/// The number of inversions of `s`; a permutation is odd exactly when this
/// number is odd.
pub open spec fn inversions(s: Seq<nat>) -> nat {
    inversions_upto(s, s.len() as int)
}

/// The index fields of a run of edge slots.
pub open spec fn edge_indices(s: Seq<Edge>) -> Seq<nat> {
    s.map_values(|e: Edge| edge_index(e.0))
}

/// The index fields of a run of corner slots.
pub open spec fn corner_indices(s: Seq<Corner>) -> Seq<nat> {
    s.map_values(|c: Corner| corner_index(c.0))
}

/// A sequence that holds each position's own number has no inversions.
pub proof fn lemma_identity_no_inversions(s: Seq<nat>, n: int)
    requires
        0 <= n <= s.len(),
        forall|k: int| 0 <= k < s.len() ==> s[k] == k,
    ensures
        inversions_upto(s, n) == 0,
    decreases n,
{
    if n > 0 {
        lemma_identity_no_inversions(s, n - 1);
        lemma_none_above_in_order(s, n - 1, n - 1);
    }
}

proof fn lemma_none_above_in_order(s: Seq<nat>, j: int, i: int)
    requires
        0 <= i <= j < s.len(),
        forall|k: int| 0 <= k < s.len() ==> s[k] == k,
    ensures
        count_above(s, j, i) == 0,
    decreases i,
{
    if i > 0 {
        lemma_none_above_in_order(s, j, i - 1);
    }
}

/// The number of inversions among the index fields of twelve edge slots.
pub fn edge_inversions(s: &[Edge; 12]) -> (r: u32)
    ensures
        r == inversions(edge_indices(s@)),
        r <= 192,
{
    let ghost ix = edge_indices(s@);
    let mut r: u32 = 0;
    let mut j: usize = 0;
    while j < 12
        invariant
            0 <= j <= 12,
            ix == edge_indices(s@),
            r == inversions_upto(ix, j as int),
            r <= 16 * j,
        decreases 12 - j,
    {
        let mut c: u32 = 0;
        let mut i: usize = 0;
        while i < j
            invariant
                0 <= i <= j < 12,
                ix == edge_indices(s@),
                c == count_above(ix, j as int, i as int),
                c <= i,
            decreases j - i,
        {
            if s[i].0 % 16 > s[j].0 % 16 {
                c = c + 1;
            }
            i = i + 1;
        }
        r = r + c;
        j = j + 1;
    }
    r
}

/// The number of inversions among the index fields of eight corner slots.
pub fn corner_inversions(s: &[Corner; 8]) -> (r: u32)
    ensures
        r == inversions(corner_indices(s@)),
        r <= 128,
{
    let ghost ix = corner_indices(s@);
    let mut r: u32 = 0;
    let mut j: usize = 0;
    while j < 8
        invariant
            0 <= j <= 8,
            ix == corner_indices(s@),
            r == inversions_upto(ix, j as int),
            r <= 16 * j,
        decreases 8 - j,
    {
        let mut c: u32 = 0;
        let mut i: usize = 0;
        while i < j
            invariant
                0 <= i <= j < 8,
                ix == corner_indices(s@),
                c == count_above(ix, j as int, i as int),
                c <= i,
            decreases j - i,
        {
            if s[i].0 % 8 > s[j].0 % 8 {
                c = c + 1;
            }
            i = i + 1;
        }
        r = r + c;
        j = j + 1;
    }
    r
}

} // verus!
