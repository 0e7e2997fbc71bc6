use vstd::prelude::*;
use crate::slot::{Corner, Edge};
use crate::word::{pack_word, word_bytes};

verus! {

/// The low 128-bit lane: twelve edge slots (four U-face edges, four D-face
/// edges, four E-slice edges) followed by four spare bytes.
#[derive(Debug, Clone, Copy)]
pub struct EdgeLane {
    pub slots: [Edge; 12],
    pub spare: [u8; 4],
}

/// The high 128-bit lane: eight corner slots (four U-face corners, four
/// D-face corners) followed by eight spare bytes.
#[derive(Debug, Clone, Copy)]
pub struct CornerLane {
    pub slots: [Corner; 8],
    pub spare: [u8; 8],
}

impl EdgeLane {
    /// The sixteen bytes of the lane, in memory order.
    pub open spec fn bytes(self) -> Seq<u8> {
        Seq::new(12, |i: int| self.slots[i].0) + self.spare@
    }

    /// The lane whose bytes are those of `lo` followed by those of `hi`,
    /// both little-endian.
    pub fn from_words(lo: u64, hi: u64) -> (r: EdgeLane)
        ensures
            r.bytes() == word_bytes(lo) + word_bytes(hi),
    {
        let r = EdgeLane {
            slots: [
                Edge(lo as u8),
                Edge((lo >> 8) as u8),
                Edge((lo >> 16) as u8),
                Edge((lo >> 24) as u8),
                Edge((lo >> 32) as u8),
                Edge((lo >> 40) as u8),
                Edge((lo >> 48) as u8),
                Edge((lo >> 56) as u8),
                Edge(hi as u8),
                Edge((hi >> 8) as u8),
                Edge((hi >> 16) as u8),
                Edge((hi >> 24) as u8),
            ],
            spare: [(hi >> 32) as u8, (hi >> 40) as u8, (hi >> 48) as u8, (hi >> 56) as u8],
        };
        assert(lo >> 0u64 == lo && hi >> 0u64 == hi) by (bit_vector);
        assert(r.bytes() =~= word_bytes(lo) + word_bytes(hi));
        r
    }

    /// Bytes 0..8 of the lane as a little-endian word.
    pub fn low_word(&self) -> (r: u64)
        ensures
            r == pack_word(self.bytes().subrange(0, 8)),
    {
        let s = &self.slots;
        (s[0].0 as u64) | ((s[1].0 as u64) << 8u64) | ((s[2].0 as u64) << 16u64) | ((s[3].0 as u64)
            << 24u64) | ((s[4].0 as u64) << 32u64) | ((s[5].0 as u64) << 40u64) | ((s[6].0 as u64)
            << 48u64) | ((s[7].0 as u64) << 56u64)
    }

    /// Bytes 8..16 of the lane as a little-endian word.
    pub fn high_word(&self) -> (r: u64)
        ensures
            r == pack_word(self.bytes().subrange(8, 16)),
    {
        let s = &self.slots;
        let p = &self.spare;
        (s[8].0 as u64) | ((s[9].0 as u64) << 8u64) | ((s[10].0 as u64) << 16u64) | ((s[11].0 as u64)
            << 24u64) | ((p[0] as u64) << 32u64) | ((p[1] as u64) << 40u64) | ((p[2] as u64)
            << 48u64) | ((p[3] as u64) << 56u64)
    }
}

impl CornerLane {
    /// The sixteen bytes of the lane, in memory order.
    pub open spec fn bytes(self) -> Seq<u8> {
        Seq::new(8, |i: int| self.slots[i].0) + self.spare@
    }

    /// The eight corner slots unpacked from a little-endian word.
    pub open spec fn slots_of_word(w: u64) -> Seq<Corner> {
        Seq::new(8, |i: int| Corner(word_bytes(w)[i]))
    }

    /// The lane whose bytes are those of `lo` followed by those of `hi`,
    /// both little-endian.
    pub fn from_words(lo: u64, hi: u64) -> (r: CornerLane)
        ensures
            r.bytes() == word_bytes(lo) + word_bytes(hi),
    {
        let r = CornerLane {
            slots: Self::corner_slots(lo),
            spare: [
                hi as u8,
                (hi >> 8) as u8,
                (hi >> 16) as u8,
                (hi >> 24) as u8,
                (hi >> 32) as u8,
                (hi >> 40) as u8,
                (hi >> 48) as u8,
                (hi >> 56) as u8,
            ],
        };
        assert(hi >> 0u64 == hi) by (bit_vector);
        assert(r.bytes() =~= word_bytes(lo) + word_bytes(hi));
        r
    }

    /// The eight corner slots held by the bytes of a little-endian word.
    pub fn corner_slots(w: u64) -> (r: [Corner; 8])
        ensures
            r@ == Self::slots_of_word(w),
    {
        let r = [
            Corner(w as u8),
            Corner((w >> 8) as u8),
            Corner((w >> 16) as u8),
            Corner((w >> 24) as u8),
            Corner((w >> 32) as u8),
            Corner((w >> 40) as u8),
            Corner((w >> 48) as u8),
            Corner((w >> 56) as u8),
        ];
        assert(w >> 0u64 == w) by (bit_vector);
        assert(r@ =~= Self::slots_of_word(w));
        r
    }

    /// Bytes 0..8 of the lane (the eight corner slots) as a little-endian word.
    pub fn low_word(&self) -> (r: u64)
        ensures
            r == pack_word(self.bytes().subrange(0, 8)),
    {
        let s = &self.slots;
        (s[0].0 as u64) | ((s[1].0 as u64) << 8u64) | ((s[2].0 as u64) << 16u64) | ((s[3].0 as u64)
            << 24u64) | ((s[4].0 as u64) << 32u64) | ((s[5].0 as u64) << 40u64) | ((s[6].0 as u64)
            << 48u64) | ((s[7].0 as u64) << 56u64)
    }

    /// Bytes 8..16 of the lane (the spare bytes) as a little-endian word.
    pub fn high_word(&self) -> (r: u64)
        ensures
            r == pack_word(self.bytes().subrange(8, 16)),
    {
        let p = &self.spare;
        (p[0] as u64) | ((p[1] as u64) << 8u64) | ((p[2] as u64) << 16u64) | ((p[3] as u64)
            << 24u64) | ((p[4] as u64) << 32u64) | ((p[5] as u64) << 40u64) | ((p[6] as u64)
            << 48u64) | ((p[7] as u64) << 56u64)
    }
}

} // verus!
