//! Bit helpers shared by the interrupt-servicing engine.

use vstd::prelude::*;

verus! {

/// The value that `fls32` returns for an input with no bit set.
pub const INVALID_BIT_INDEX: u16 = 0xFFFF;

/// `pos` is the index of the most significant set bit of `value`.
pub open spec fn is_last_set_bit(value: u32, pos: u32) -> bool {
    pos < 32 && value >> pos == 1
}

/// Find the last (most significant) bit set in a 32-bit value.
///
/// Bits are numbered from 0 (the least significant bit). An input of zero has
/// no set bit and gives `INVALID_BIT_INDEX`.
pub fn fls32(value: u32) -> (r: u16)
    ensures
        value == 0 ==> r == INVALID_BIT_INDEX,
        value != 0 ==> is_last_set_bit(value, r as u32),
{
    if value == 0 {
        return INVALID_BIT_INDEX;
    }
    let lz = value.leading_zeros();
    proof {
        vstd::std_specs::bits::axiom_u32_leading_zeros(value);
        lemma_top_bit(value, lz);
    }
    (31 - lz) as u16
}

proof fn lemma_top_bit(value: u32, lz: u32)
    requires
        lz < 32,
        (value >> vstd::prelude::sub(31u32, lz)) & 1u32 != 0u32,
        value >> vstd::prelude::sub(32u32, lz) == 0,
    ensures
        value >> vstd::prelude::sub(31u32, lz) == 1,
{
    assert(lz < 32 && (value >> vstd::prelude::sub(31u32, lz)) & 1u32 != 0u32 && value >> vstd::prelude::sub(32u32, lz) == 0
        ==> value >> vstd::prelude::sub(31u32, lz) == 1) by (bit_vector);
}

/// The index of the 32-bit bank that holds bit `vector` of a 256-bit
/// interrupt register (ISR, TMR or IRR).
pub fn extract_index_u32(vector: u32) -> (r: usize)
    ensures
        r == vector / 32,
{
    proof {
        assert(vector >> 5u32 == vector / 32) by (bit_vector);
    }
    vector as usize >> 5
}

/// The bank index and the bit position within the bank of bit `vector` of a
/// 256-bit interrupt register.
pub fn extract_index_and_bitpos_u32(vector: u32) -> (r: (usize, usize))
    ensures
        r.0 == vector / 32,
        r.1 == vector % 32,
{
    proof {
        assert(vector & 0x1Fu32 == vector % 32) by (bit_vector);
    }
    (extract_index_u32(vector), vector as usize & 0x1F)
}

/// The priority class of a vector or of a task priority: bits 4 to 7.
pub open spec fn spec_prio(x: u32) -> u32 {
    (x >> 4u32) & 0xFu32
}

/// Priority class of `x` (TPR, PPR or a vector): its bits 4 to 7.
pub fn prio(x: u32) -> (r: u32)
    ensures
        r == spec_prio(x),
        r < 16,
{
    proof {
        assert((x >> 4u32) & 0xFu32 < 16) by (bit_vector);
    }
    (x >> 4) & 0xf
}

} // verus!
