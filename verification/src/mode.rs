//! The console mode bitmask and the one bit this crate cares about.
//!
//! A console output device carries a 32-bit mode bitmask. One bit of it
//! decides whether virtual-terminal (ANSI) escape sequences written to the
//! device are interpreted or printed raw. Everything here treats the other
//! bits as opaque and preserves them.

use vstd::prelude::*;

verus! {

/// The output-mode bit that turns on virtual-terminal processing, so that
/// ANSI escape sequences are interpreted rather than echoed.
pub const ENABLE_VIRTUAL_TERMINAL_PROCESSING: u32 = 0x0004;

/// Whether the virtual-terminal processing bit is set in `mode`.
pub open spec fn vt_enabled(mode: u32) -> bool {
    mode & ENABLE_VIRTUAL_TERMINAL_PROCESSING != 0
}

/// `mode` with the virtual-terminal processing bit set and every other bit
/// exactly as it was.
pub open spec fn with_vt(mode: u32) -> u32 {
    mode | ENABLE_VIRTUAL_TERMINAL_PROCESSING
}

/// Tests whether a mode bitmask already has virtual-terminal processing on.
pub fn vt_bit_is_set(mode: u32) -> (r: bool)
    ensures
        r == vt_enabled(mode),
{
    mode & ENABLE_VIRTUAL_TERMINAL_PROCESSING != 0
}

/// Computes the bitmask to apply when the bit is clear: the old mask with the
/// virtual-terminal bit ORed in.
pub fn set_vt_bit(mode: u32) -> (r: u32)
    ensures
        r == with_vt(mode),
{
    mode | ENABLE_VIRTUAL_TERMINAL_PROCESSING
}

/// Law: setting the virtual-terminal bit adds exactly that bit. Afterwards the
/// bit is set, every other bit is unchanged, and a mask that already had the
/// bit comes back identical.
pub proof fn lemma_with_vt_adds_exactly_the_bit(mode: u32)
    ensures
        vt_enabled(with_vt(mode)),
        with_vt(mode) & !ENABLE_VIRTUAL_TERMINAL_PROCESSING
            == mode & !ENABLE_VIRTUAL_TERMINAL_PROCESSING,
        vt_enabled(mode) ==> with_vt(mode) == mode,
        with_vt(with_vt(mode)) == with_vt(mode),
{
    assert((mode | 0x0004u32) & 0x0004u32 != 0) by (bit_vector);
    assert((mode | 0x0004u32) & !0x0004u32 == mode & !0x0004u32) by (bit_vector);
    assert(mode & 0x0004u32 != 0 ==> mode | 0x0004u32 == mode) by (bit_vector);
    assert((mode | 0x0004u32) | 0x0004u32 == mode | 0x0004u32) by (bit_vector);
}

} // verus!
