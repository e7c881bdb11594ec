//! Motor feedback frames: eight data bytes kept as one little-endian `u64`,
//! from which each motor protocol reads its fields.
use vstd::prelude::*;

use crate::bytes::{byte_of, le_value, lemma_le_canonical, lemma_le_value_bytes, lemma_pow256_facts, pow256, read_le};

verus! {

/// Number of data bytes in a feedback frame.
pub const FEEDBACK_LEN: usize = 8;

/// Data byte `k` of the frame that the feedback value `raw` was read from.
pub open spec fn fb_byte(raw: u64, k: nat) -> u8 {
    byte_of(raw as nat, k)
}

/// The big-endian 16-bit value of data bytes `k` and `k + 1`.
pub open spec fn fb_be16(raw: u64, k: nat) -> u16 {
    (fb_byte(raw, k) * 256 + fb_byte(raw, k + 1)) as u16
}

/// Every data byte of a feedback value is the matching byte of its frame.
pub proof fn lemma_feedback_bytes(data: Seq<u8>, k: nat)
    requires
        data.len() == FEEDBACK_LEN,
        k < FEEDBACK_LEN,
    ensures
        fb_byte(le_value(data) as u64, k) == data[k as int],
{
    lemma_le_canonical(data);
    lemma_pow256_facts();
    lemma_le_value_bytes(data, k);
}

/// The data bytes of a feedback value, read with shifts and masks.
pub proof fn lemma_fb_shifts(raw: u64)
    ensures
        fb_byte(raw, 0) == (raw & 0xFF) as u8,
        fb_byte(raw, 1) == ((raw >> 8u64) & 0xFF) as u8,
        fb_byte(raw, 2) == ((raw >> 16u64) & 0xFF) as u8,
        fb_byte(raw, 3) == ((raw >> 24u64) & 0xFF) as u8,
        fb_byte(raw, 4) == ((raw >> 32u64) & 0xFF) as u8,
        fb_byte(raw, 5) == ((raw >> 40u64) & 0xFF) as u8,
        fb_byte(raw, 6) == ((raw >> 48u64) & 0xFF) as u8,
        fb_byte(raw, 7) == ((raw >> 56u64) & 0xFF) as u8,
{
    reveal_with_fuel(pow256, 8);
    assert(pow256(3) == 0x100_0000 && pow256(5) == 0x100_0000_0000 && pow256(6) == 0x1_0000_0000_0000);
    lemma_pow256_facts();
    assert(raw & 0xFF == raw % 256 && (raw >> 8u64) & 0xFF == (raw / 0x100) % 256 && (raw >> 16u64)
        & 0xFF == (raw / 0x1_0000) % 256 && (raw >> 24u64) & 0xFF == (raw / 0x100_0000) % 256 && (raw
        >> 32u64) & 0xFF == (raw / 0x1_0000_0000) % 256 && (raw >> 40u64) & 0xFF == (raw
        / 0x100_0000_0000) % 256 && (raw >> 48u64) & 0xFF == (raw / 0x1_0000_0000_0000) % 256 && (raw
        >> 56u64) & 0xFF == (raw / 0x100_0000_0000_0000) % 256) by (bit_vector);
}

/// Swapping the two bytes of the 16 bits at `shift` gives the big-endian
/// value of the byte at `shift` followed by the next one.
pub proof fn lemma_swap16(raw: u64, shift: u64, hi: u8, lo: u8)
    by (bit_vector)
    requires
        shift <= 48,
        hi == ((raw >> shift) & 0xFF) as u8,
        lo == ((raw >> (shift + 8)) & 0xFF) as u8,
    ensures
        ((((raw >> shift) & 0xFFFF) as u16) << 8u16) | ((((raw >> shift) & 0xFFFF) as u16) >> 8u16)
            == (hi * 256 + lo) as u16,
{
}

/// Read the eight data bytes of a feedback frame as one little-endian value.
pub fn read_feedback(data: &[u8]) -> (r: u64)
    requires
        data@.len() == FEEDBACK_LEN,
    ensures
        r as nat == le_value(data@),
{
    let r = read_le(data, 0, FEEDBACK_LEN);
    assert(data@.subrange(0, 8) =~= data@);
    r
}

} // verus!
