//! Zero-copy GPU buffer exchange: a validated, multi-plane, modifier-tagged
//! DMA buffer model, the negotiation state machine that accumulates untrusted
//! plane descriptors, and the adapters between the exchange aggregate and a
//! driver's native buffer objects.

use vstd::prelude::*;

pub mod dmabuf;
pub mod driver;
pub mod format;
pub mod laws;
pub mod params;

verus! {

/// The protocol never carries more than four planes in one buffer.
pub const MAX_PLANES: u32 = 4;

/// Joins the two halves of a format modifier as the wire protocol splits them.
pub fn modifier_from_parts(hi: u32, lo: u32) -> (r: u64)
    ensures
        r == (hi as u64) * 0x1_0000_0000 + (lo as u64),
{
    proof {
        assert((hi as u64) << 32u64 == (hi as u64) * 0x1_0000_0000
            && (hi as u64) << 32u64 <= 0xffff_ffff_0000_0000u64) by (bit_vector);
    }
    ((hi as u64) << 32u64) + (lo as u64)
}

/// The upper half of a modifier as the wire protocol carries it.
pub open spec fn spec_modifier_hi(m: u64) -> u32 {
    (m / 0x1_0000_0000) as u32
}

/// The lower half of a modifier as the wire protocol carries it.
pub open spec fn spec_modifier_lo(m: u64) -> u32 {
    (m % 0x1_0000_0000) as u32
}

/// Splits off the upper half of a modifier for the wire.
pub fn modifier_hi(m: u64) -> (r: u32)
    ensures
        r == spec_modifier_hi(m),
{
    proof {
        assert((m >> 32u64) == m / 0x1_0000_0000 && (m >> 32u64) <= 0xffff_ffffu64)
            by (bit_vector);
    }
    (m >> 32u64) as u32
}

/// Splits off the lower half of a modifier for the wire.
pub fn modifier_lo(m: u64) -> (r: u32)
    ensures
        r == spec_modifier_lo(m),
{
    proof {
        assert((m & 0xffff_ffffu64) == m % 0x1_0000_0000 && (m & 0xffff_ffffu64)
            <= 0xffff_ffffu64) by (bit_vector);
    }
    (m & 0xffff_ffffu64) as u32
}

} // verus!
