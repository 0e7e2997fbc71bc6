use vstd::prelude::*;
use crate::lane::{CornerLane, EdgeLane};
use crate::parity::{corner_indices, corner_inversions, edge_indices, edge_inversions, inversions};
use crate::slot::{valid_corner_byte, valid_edge_byte, Corner, Edge};
use crate::word::word_bytes;

verus! {

/// The first twelve bytes of `b` are edge slots in the documented layout
/// whose indices are pairwise distinct, so they are a permutation of 0..=11.
pub open spec fn edges_well_formed(b: Seq<u8>) -> bool {
    &&& forall|i: int| 0 <= i < 12 ==> valid_edge_byte(#[trigger] b[i])
    &&& forall|i: int, j: int|
        0 <= i < 12 && 0 <= j < 12 && i != j ==> #[trigger] b[i] % 16 != #[trigger] b[j] % 16
}

/// The first eight bytes of `b` are corner slots in the documented layout
/// whose indices are pairwise distinct, so they are a permutation of 0..=7.
pub open spec fn corners_well_formed(b: Seq<u8>) -> bool {
    &&& forall|i: int| 0 <= i < 8 ==> valid_corner_byte(#[trigger] b[i])
    &&& forall|i: int, j: int|
        0 <= i < 8 && 0 <= j < 8 && i != j ==> #[trigger] b[i] % 8 != #[trigger] b[j] % 8
}

/// The three words handed to the literal constructor describe a well-formed
/// cube: `edges_low` then `edges_high` hold the edge lane, `corners` the
/// corner slots.
pub open spec fn literal_well_formed(corners: u64, edges_high: u64, edges_low: u64) -> bool {
    edges_well_formed(word_bytes(edges_low) + word_bytes(edges_high)) && corners_well_formed(
        word_bytes(corners),
    )
}

/// The full puzzle state in 256 bits: the edge lane is the low half, the
/// corner lane the high half.
#[derive(Debug, Clone, Copy)]
pub struct Cube {
    pub lo: EdgeLane,
    pub hi: CornerLane,
}

impl Cube {
    /// Every edge and corner slot holds a valid byte and the indices form a
    /// permutation, on each lane.
    pub open spec fn well_formed(self) -> bool {
        edges_well_formed(self.lo.bytes()) && corners_well_formed(self.hi.bytes())
    }

    /// The solved state: piece `i` at position `i`, orientation 0, spare
    /// bytes zero.
    pub open spec fn is_identity(self) -> bool {
        &&& forall|i: int| 0 <= i < 12 ==> #[trigger] self.lo.slots[i] == Edge(i as u8)
        &&& forall|i: int| 0 <= i < 8 ==> #[trigger] self.hi.slots[i] == Corner(i as u8)
        &&& forall|i: int| 0 <= i < 4 ==> #[trigger] self.lo.spare[i] == 0
        &&& forall|i: int| 0 <= i < 8 ==> #[trigger] self.hi.spare[i] == 0
    }

    /// The 256 bits of the cube are the four little-endian words `w[0]`
    /// (least significant) through `w[3]`.
    pub open spec fn has_words(self, w: Seq<u64>) -> bool {
        &&& w.len() == 4
        &&& self.lo.bytes() == word_bytes(w[0]) + word_bytes(w[1])
        &&& self.hi.bytes() == word_bytes(w[2]) + word_bytes(w[3])
    }

    /// The combined edge and corner permutation is odd.
    pub open spec fn odd_parity(self) -> bool {
        (inversions(edge_indices(self.lo.slots@)) + inversions(corner_indices(self.hi.slots@))) % 2
            == 1
    }

    /// The solved cube.
    pub fn identity() -> (r: Cube)
        ensures
            r.is_identity(),
    {
        Cube {
            lo: EdgeLane {
                slots: [
                    Edge(0),
                    Edge(1),
                    Edge(2),
                    Edge(3),
                    Edge(4),
                    Edge(5),
                    Edge(6),
                    Edge(7),
                    Edge(8),
                    Edge(9),
                    Edge(10),
                    Edge(11),
                ],
                spare: [0, 0, 0, 0],
            },
            hi: CornerLane {
                slots: [
                    Corner(0),
                    Corner(1),
                    Corner(2),
                    Corner(3),
                    Corner(4),
                    Corner(5),
                    Corner(6),
                    Corner(7),
                ],
                spare: [0, 0, 0, 0, 0, 0, 0, 0],
            },
        }
    }

    /// Builds a cube from three packed words: `edges_low` holds edge slots
    /// 0..=7, `edges_high` edge slots 8..=11 and the four spare edge bytes,
    /// `corners` the eight corner slots; the spare corner bytes are zero.
    ///
    /// The bytes are taken as they are and not checked: words that break the
    /// slot layout give a cube that is not well formed. Use `try_new` for
    /// words that come from outside.
    pub fn new(corners: u64, edges_high: u64, edges_low: u64) -> (r: Cube)
        ensures
            r.has_words(seq![edges_low, edges_high, corners, 0u64]),
    {
        Cube { lo: EdgeLane::from_words(edges_low, edges_high), hi: CornerLane::from_words(corners, 0) }
    }

    /// Builds a cube from its raw 256-bit value, given as four little-endian
    /// words, least significant first. Nothing is checked.
    pub fn from_raw_m256(v: [u64; 4]) -> (r: Cube)
        ensures
            r.has_words(v@),
    {
        Cube { lo: EdgeLane::from_words(v[0], v[1]), hi: CornerLane::from_words(v[2], v[3]) }
    }
    /// Whether the combined edge and corner permutation is odd (`false` for
    /// an even permutation, such as the solved cube).
    pub fn parity(&self) -> (r: bool)
        ensures
            r == self.odd_parity(),
    {
        let e = edge_inversions(&self.lo.slots);
        let c = corner_inversions(&self.hi.slots);
        (e + c) % 2 == 1
    }

    /// Whether every slot holds a valid byte and the indices of each lane
    /// form a permutation.
    pub fn is_well_formed(&self) -> (r: bool)
        ensures
            r == self.well_formed(),
    {
        proof {
            assert(forall|i: int| 0 <= i < 12 ==> self.lo.bytes()[i] == self.lo.slots[i].0);
            assert(forall|i: int| 0 <= i < 8 ==> self.hi.bytes()[i] == self.hi.slots[i].0);
        }
        let e = &self.lo.slots;
        let mut j: usize = 0;
        while j < 12
            invariant
                0 <= j <= 12,
                forall|k: int| 0 <= k < 12 ==> self.lo.bytes()[k] == #[trigger] e[k].0,
                forall|k: int| 0 <= k < j ==> valid_edge_byte(#[trigger] e[k].0),
                forall|a: int, b: int|
                    0 <= a < j && 0 <= b < j && a != b ==> #[trigger] e[a].0 % 16 != #[trigger] e[b].0
                        % 16,
            decreases 12 - j,
        {
            if !e[j].is_valid() {
                assert(self.lo.bytes()[j as int] == e[j as int].0);
                return false;
            }
            let mut i: usize = 0;
            while i < j
                invariant
                    0 <= i <= j < 12,
                    forall|k: int| 0 <= k < 12 ==> self.lo.bytes()[k] == #[trigger] e[k].0,
                    forall|k: int| 0 <= k < i ==> e[k].0 % 16 != e[j as int].0 % 16,
                decreases j - i,
            {
                if e[i].0 % 16 == e[j].0 % 16 {
                    assert(self.lo.bytes()[i as int] == e[i as int].0);
                    assert(self.lo.bytes()[j as int] == e[j as int].0);
                    return false;
                }
                i = i + 1;
            }
            j = j + 1;
        }
        let c = &self.hi.slots;
        let mut j: usize = 0;
        while j < 8
            invariant
                0 <= j <= 8,
                edges_well_formed(self.lo.bytes()),
                forall|k: int| 0 <= k < 8 ==> self.hi.bytes()[k] == #[trigger] c[k].0,
                forall|k: int| 0 <= k < j ==> valid_corner_byte(#[trigger] c[k].0),
                forall|a: int, b: int|
                    0 <= a < j && 0 <= b < j && a != b ==> #[trigger] c[a].0 % 8 != #[trigger] c[b].0
                        % 8,
            decreases 8 - j,
        {
            if !c[j].is_valid() {
                assert(self.hi.bytes()[j as int] == c[j as int].0);
                return false;
            }
            let mut i: usize = 0;
            while i < j
                invariant
                    0 <= i <= j < 8,
                    forall|k: int| 0 <= k < 8 ==> self.hi.bytes()[k] == #[trigger] c[k].0,
                    forall|k: int| 0 <= k < i ==> c[k].0 % 8 != c[j as int].0 % 8,
                decreases j - i,
            {
                if c[i].0 % 8 == c[j].0 % 8 {
                    assert(self.hi.bytes()[i as int] == c[i as int].0);
                    assert(self.hi.bytes()[j as int] == c[j as int].0);
                    return false;
                }
                i = i + 1;
            }
            j = j + 1;
        }
        true
    }

    /// Builds a cube from three packed words laid out as for `new`, and
    /// returns it only when it is well formed.
    pub fn try_new(corners: u64, edges_high: u64, edges_low: u64) -> (r: Option<Cube>)
        ensures
            r.is_some() == literal_well_formed(corners, edges_high, edges_low),
            r matches Some(c) ==> c.has_words(seq![edges_low, edges_high, corners, 0u64]),
    {
        let c = Cube::new(corners, edges_high, edges_low);
        proof {
            assert(c.hi.bytes().subrange(0, 8) =~= word_bytes(corners));
        }
        if c.is_well_formed() {
            Some(c)
        } else {
            None
        }
    }

    /// The twelve edge slots; the spare bytes of the lane are not part of it.
    pub fn edges(&self) -> (r: &[Edge])
        ensures
            r@ == self.lo.slots@,
    {
        &self.lo.slots
    }

    /// The twelve edge slots, writable; the spare bytes of the lane and the
    /// corner lane are left as they were.
    pub fn edges_mut(&mut self) -> (r: &mut [Edge])
        ensures
            r@ == old(self).lo.slots@,
            final(self).lo.slots@ == final(r)@,
            final(self).lo.spare == old(self).lo.spare,
            final(self).hi == old(self).hi,
    {
        &mut self.lo.slots
    }

    /// The whole edge lane, spare bytes included.
    pub fn edge_lane(&self) -> (r: &EdgeLane)
        ensures
            *r == self.lo,
    {
        &self.lo
    }

    /// The whole edge lane, writable; the corner lane is left as it was.
    pub fn edge_lane_mut(&mut self) -> (r: &mut EdgeLane)
        ensures
            *r == old(self).lo,
            final(self).lo == *final(r),
            final(self).hi == old(self).hi,
    {
        &mut self.lo
    }

    /// The eight corner slots; the spare bytes of the lane are not part of it.
    pub fn corners(&self) -> (r: &[Corner])
        ensures
            r@ == self.hi.slots@,
    {
        &self.hi.slots
    }

    /// The eight corner slots, writable; the spare bytes of the lane and the
    /// edge lane are left as they were.
    pub fn corners_mut(&mut self) -> (r: &mut [Corner])
        ensures
            r@ == old(self).hi.slots@,
            final(self).hi.slots@ == final(r)@,
            final(self).hi.spare == old(self).hi.spare,
            final(self).lo == old(self).lo,
    {
        &mut self.hi.slots
    }

    /// The whole corner lane, spare bytes included.
    pub fn corner_lane(&self) -> (r: &CornerLane)
        ensures
            *r == self.hi,
    {
        &self.hi
    }

    /// The whole corner lane, writable; the edge lane is left as it was.
    pub fn corner_lane_mut(&mut self) -> (r: &mut CornerLane)
        ensures
            *r == old(self).hi,
            final(self).hi == *final(r),
            final(self).lo == old(self).lo,
    {
        &mut self.hi
    }

    /// Overwrites all eight corner slots at once with the bytes of `word`,
    /// least significant byte first: the corner word of the raw value.
    pub fn corners_64_mut(&mut self, word: u64)
        ensures
            final(self).hi.slots@ == CornerLane::slots_of_word(word),
            final(self).hi.spare == old(self).hi.spare,
            final(self).lo == old(self).lo,
    {
        self.hi.slots = CornerLane::corner_slots(word);
    }
}

} // verus!
