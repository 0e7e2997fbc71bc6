use vstd::prelude::*;
use crate::cube::{literal_well_formed, Cube};
use crate::lane::CornerLane;
use crate::parity::{corner_indices, edge_indices, lemma_identity_no_inversions};
use crate::slot::{
    corner_index, corner_orientation, edge_index, edge_orientation, valid_corner_byte,
    valid_edge_byte, Corner, Edge,
};
use crate::word::{lemma_pack_word_bytes, pack_word, word_byte, word_bytes};

verus! {

/// In the solved cube edge `i` and corner `i` sit at position `i` with
/// orientation 0; the solved cube is well formed and its permutation is even.
pub proof fn lemma_identity_solved(c: Cube)
    requires
        c.is_identity(),
    ensures
        forall|i: int|
            0 <= i < 12 ==> edge_index(#[trigger] c.lo.slots[i].0) == i && edge_orientation(
                c.lo.slots[i].0,
            ) == 0,
        forall|i: int|
            0 <= i < 8 ==> corner_index(#[trigger] c.hi.slots[i].0) == i && corner_orientation(
                c.hi.slots[i].0,
            ) == 0,
        c.well_formed(),
        !c.odd_parity(),
{
    assert forall|i: int| 0 <= i < 12 implies c.lo.bytes()[i] == i as u8 by {
        assert(c.lo.slots[i] == Edge(i as u8));
    }
    assert forall|i: int| 0 <= i < 8 implies c.hi.bytes()[i] == i as u8 by {
        assert(c.hi.slots[i] == Corner(i as u8));
    }
    let es = edge_indices(c.lo.slots@);
    let cs = corner_indices(c.hi.slots@);
    assert forall|k: int| 0 <= k < es.len() implies es[k] == k by {
        assert(c.lo.slots[k] == Edge(k as u8));
    }
    assert forall|k: int| 0 <= k < cs.len() implies cs[k] == k by {
        assert(c.hi.slots[k] == Corner(k as u8));
    }
    lemma_identity_no_inversions(es, 12);
    lemma_identity_no_inversions(cs, 8);
}

/// Reading the lanes of a cube built from four words back as words gives
/// the same four words, bit for bit.
pub proof fn lemma_words_round_trip(c: Cube, w: Seq<u64>)
    requires
        c.has_words(w),
    ensures
        pack_word(c.lo.bytes().subrange(0, 8)) == w[0],
        pack_word(c.lo.bytes().subrange(8, 16)) == w[1],
        pack_word(c.hi.bytes().subrange(0, 8)) == w[2],
        pack_word(c.hi.bytes().subrange(8, 16)) == w[3],
{
    assert(c.lo.bytes().subrange(0, 8) =~= word_bytes(w[0]));
    assert(c.lo.bytes().subrange(8, 16) =~= word_bytes(w[1]));
    assert(c.hi.bytes().subrange(0, 8) =~= word_bytes(w[2]));
    assert(c.hi.bytes().subrange(8, 16) =~= word_bytes(w[3]));
    lemma_pack_word_bytes(w[0]);
    lemma_pack_word_bytes(w[1]);
    lemma_pack_word_bytes(w[2]);
    lemma_pack_word_bytes(w[3]);
}

/// Writing edge slot `k` through the slot view changes byte `k` of the edge
/// lane to the new byte and leaves every other byte of the cube as it was.
pub proof fn lemma_edge_write_in_lane(before: Cube, after: Cube, k: int, e: Edge)
    requires
        0 <= k < 12,
        after.lo.slots@ == before.lo.slots@.update(k, e),
        after.lo.spare == before.lo.spare,
        after.hi == before.hi,
    ensures
        after.lo.bytes() == before.lo.bytes().update(k, e.0),
        after.hi.bytes() == before.hi.bytes(),
{
    assert forall|i: int| 0 <= i < 12 implies after.lo.slots[i] == (if i == k {
        e
    } else {
        before.lo.slots[i]
    }) by {
        assert(after.lo.slots@[i] == before.lo.slots@.update(k, e)[i]);
    }
    assert(after.lo.bytes() =~= before.lo.bytes().update(k, e.0));
}

/// Once the corner word holds `w`, corner slot `k` reads byte `k` of `w`
/// and the low word of the corner lane reads `w` back.
pub proof fn lemma_corner_word_in_views(c: Cube, w: u64)
    requires
        c.hi.slots@ == CornerLane::slots_of_word(w),
    ensures
        forall|k: int| 0 <= k < 8 ==> (#[trigger] c.hi.slots@[k]).0 == word_byte(w, k),
        pack_word(c.hi.bytes().subrange(0, 8)) == w,
{
    assert forall|k: int| 0 <= k < 8 implies (#[trigger] c.hi.slots@[k]).0 == word_byte(w, k) by {
        assert(c.hi.slots@[k] == CornerLane::slots_of_word(w)[k]);
    }
    assert(c.hi.bytes().subrange(0, 8) =~= word_bytes(w));
    lemma_pack_word_bytes(w);
}

/// A cube built by the literal constructor from well-formed words is a
/// well-formed cube.
pub proof fn lemma_literal_well_formed(c: Cube, corners: u64, edges_high: u64, edges_low: u64)
    requires
        c.has_words(seq![edges_low, edges_high, corners, 0u64]),
        literal_well_formed(corners, edges_high, edges_low),
    ensures
        c.well_formed(),
{
    let w = seq![edges_low, edges_high, corners, 0u64];
    assert(w[0] == edges_low && w[1] == edges_high && w[2] == corners);
    assert forall|i: int| 0 <= i < 8 implies c.hi.bytes()[i] == word_bytes(corners)[i] by {
        assert(c.hi.bytes()[i] == (word_bytes(corners) + word_bytes(0u64))[i]);
    }
}

/// In a well-formed cube every edge index is in 0..=11, every edge
/// orientation in {0, 1}, every corner index in 0..=7 and every corner
/// orientation in {0, 1, 2}.
pub proof fn lemma_well_formed_ranges(c: Cube)
    requires
        c.well_formed(),
    ensures
        forall|i: int|
            0 <= i < 12 ==> edge_index(#[trigger] c.lo.slots[i].0) < 12 && edge_orientation(
                c.lo.slots[i].0,
            ) < 2,
        forall|i: int|
            0 <= i < 8 ==> corner_index(#[trigger] c.hi.slots[i].0) < 8 && corner_orientation(
                c.hi.slots[i].0,
            ) < 3,
{
    assert forall|i: int| 0 <= i < 12 implies valid_edge_byte(#[trigger] c.lo.slots[i].0) by {
        assert(c.lo.bytes()[i] == c.lo.slots[i].0);
    }
    assert forall|i: int| 0 <= i < 8 implies valid_corner_byte(#[trigger] c.hi.slots[i].0) by {
        assert(c.hi.bytes()[i] == c.hi.slots[i].0);
    }
}

/// The edge slot view is exactly bytes 0..12 of the edge lane and the corner
/// slot view exactly bytes 0..8 of the corner lane: the spare bytes never
/// show in them, so cubes that differ only in spare bytes have the same
/// slot views.
pub proof fn lemma_slot_views_skip_spare(a: Cube, b: Cube)
    ensures
        a.lo.slots@.map_values(|e: Edge| e.0) == a.lo.bytes().subrange(0, 12),
        a.hi.slots@.map_values(|x: Corner| x.0) == a.hi.bytes().subrange(0, 8),
        a.lo.bytes().subrange(0, 12) == b.lo.bytes().subrange(0, 12) ==> a.lo.slots@
            == b.lo.slots@,
        a.hi.bytes().subrange(0, 8) == b.hi.bytes().subrange(0, 8) ==> a.hi.slots@
            == b.hi.slots@,
{
    assert(a.lo.slots@.map_values(|e: Edge| e.0) =~= a.lo.bytes().subrange(0, 12));
    assert(a.hi.slots@.map_values(|x: Corner| x.0) =~= a.hi.bytes().subrange(0, 8));
    if a.lo.bytes().subrange(0, 12) == b.lo.bytes().subrange(0, 12) {
        assert forall|i: int| 0 <= i < 12 implies a.lo.slots@[i] == b.lo.slots@[i] by {
            assert(a.lo.bytes().subrange(0, 12)[i] == b.lo.bytes().subrange(0, 12)[i]);
        }
        assert(a.lo.slots@ =~= b.lo.slots@);
    }
    if a.hi.bytes().subrange(0, 8) == b.hi.bytes().subrange(0, 8) {
        assert forall|i: int| 0 <= i < 8 implies a.hi.slots@[i] == b.hi.slots@[i] by {
            assert(a.hi.bytes().subrange(0, 8)[i] == b.hi.bytes().subrange(0, 8)[i]);
        }
        assert(a.hi.slots@ =~= b.hi.slots@);
    }
}

/// Parity is a function of the cube's bytes: two cubes whose lanes hold the
/// same bytes have the same parity.
pub proof fn lemma_parity_of_state(a: Cube, b: Cube)
    requires
        a.lo.bytes() == b.lo.bytes(),
        a.hi.bytes() == b.hi.bytes(),
    ensures
        a.odd_parity() == b.odd_parity(),
{
    lemma_slot_views_skip_spare(a, b);
}

} // verus!
