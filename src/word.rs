use vstd::prelude::*;

verus! {

/// Byte `k` (0 = least significant) of a little-endian 64-bit word.
pub open spec fn word_byte(w: u64, k: int) -> u8 {
    (w >> ((8 * k) as u64)) as u8
}

/// The little-endian 64-bit word whose bytes are `b[0]` (least significant)
/// through `b[7]`.
pub open spec fn pack_word(b: Seq<u8>) -> u64
    recommends
        b.len() == 8,
{
    (b[0] as u64) | ((b[1] as u64) << 8u64) | ((b[2] as u64) << 16u64) | ((b[3] as u64) << 24u64)
        | ((b[4] as u64) << 32u64) | ((b[5] as u64) << 40u64) | ((b[6] as u64) << 48u64) | ((
    b[7] as u64) << 56u64)
}

/// The eight bytes of a word, least significant first.
pub open spec fn word_bytes(w: u64) -> Seq<u8> {
    Seq::new(8, |k: int| word_byte(w, k))
}

proof fn lemma_pack_bytes_bv(w: u64)
    by (bit_vector)
    ensures
        w == ((w as u8) as u64) | ((((w >> 8u64) as u8) as u64) << 8u64) | ((((w >> 16u64) as u8)
            as u64) << 16u64) | ((((w >> 24u64) as u8) as u64) << 24u64) | ((((w >> 32u64) as u8)
            as u64) << 32u64) | ((((w >> 40u64) as u8) as u64) << 40u64) | ((((w >> 48u64) as u8)
            as u64) << 48u64) | ((((w >> 56u64) as u8) as u64) << 56u64),
{
}

/// Splitting a word into bytes and packing them again gives the word back.
pub proof fn lemma_pack_word_bytes(w: u64)
    ensures
        pack_word(word_bytes(w)) == w,
{
    lemma_pack_bytes_bv(w);
    assert(w >> 0u64 == w) by (bit_vector);
}

} // verus!
