//! Bit-packing codec for 12-bit register values.
//!
//! A 12-bit quantity travels on the bus as a big-endian byte pair. On the
//! write path the value is masked to its low 12 bits before transmission; on
//! the read path the two received bytes are reassembled without masking (the
//! device only places valid 12-bit content in those positions).

use vstd::prelude::*;

verus! {

/// The high byte transmitted for `value`: bits 8..12, top nibble cleared.
pub open spec fn pack12_hi(value: u16) -> u8 {
    ((value >> 8) & 0x0F) as u8
}

/// The low byte transmitted for `value`: bits 0..8.
pub open spec fn pack12_lo(value: u16) -> u8 {
    (value & 0xFF) as u8
}

/// The 16-bit value reassembled big-endian from two received bytes.
pub open spec fn unpack16_spec(hi: u8, lo: u8) -> u16 {
    ((hi as u16) << 8) | (lo as u16)
}

/// The high byte of `value`'s big-endian representation (no masking).
pub open spec fn u16_hi(value: u16) -> u8 {
    (value >> 8) as u8
}

/// The low byte of `value`'s big-endian representation.
pub open spec fn u16_lo(value: u16) -> u8 {
    (value & 0xFF) as u8
}

/// Clears bits 12..16 of `value` and returns the big-endian byte pair of the
/// masked value. Total and deterministic; never fails.
pub fn pack12(value: u16) -> (r: (u8, u8))
    ensures
        r.0 == pack12_hi(value),
        r.1 == pack12_lo(value),
        r.0 < 0x10,
{
    let hi: u8 = ((value >> 8) & 0x0F) as u8;
    let lo: u8 = (value & 0xFF) as u8;
    proof {
        assert((((value >> 8) & 0x0F) as u8) < 0x10) by (bit_vector);
    }
    (hi, lo)
}

/// Reassembles a big-endian byte pair into a 16-bit value. No masking is
/// performed: the caller interprets the low 12 bits as meaningful.
pub fn unpack16(hi: u8, lo: u8) -> (r: u16)
    ensures
        r == unpack16_spec(hi, lo),
{
    ((hi as u16) << 8) | (lo as u16)
}

/// Reassembles two received bytes, high byte first, into a 16-bit value.
pub fn bytes_to_u16(bytes: [u8; 2]) -> (r: u16)
    ensures
        r == unpack16_spec(bytes[0], bytes[1]),
{
    let value: u16 = ((bytes[0] as u16) << 8) | (bytes[1] as u16);
    value
}

/// Round trip of in-range values: packing a 12-bit value and reassembling
/// the byte pair yields the value back.
pub proof fn lemma_pack12_roundtrip(v: u16)
    by (bit_vector)
    requires
        v <= 0x0FFF,
    ensures
        unpack16_spec(pack12_hi(v), pack12_lo(v)) == v,
{
}

/// The high byte transmitted for any 16-bit input has its top nibble
/// cleared: it equals `(v >> 8) & 0x0F` and is below `0x10`.
pub proof fn lemma_pack12_hi_masked(v: u16)
    by (bit_vector)
    ensures
        pack12_hi(v) == ((v >> 8) as u8) & 0x0F,
        pack12_hi(v) < 0x10,
{
}

/// Reassembly is inverted by taking the big-endian bytes of the result:
/// the byte pair that produced a value can be recovered from it exactly.
pub proof fn lemma_unpack16_bytes(hi: u8, lo: u8)
    by (bit_vector)
    ensures
        u16_hi(unpack16_spec(hi, lo)) == hi,
        u16_lo(unpack16_spec(hi, lo)) == lo,
{
}

} // verus!
