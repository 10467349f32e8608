//! SBI constants and the helpers of the debug-console extension.
use vstd::prelude::*;

verus! {

/// Legacy extension: program the timer.
pub const LEGACY_SET_TIMER: u64 = 0;
/// Legacy extension: write a character to the console.
pub const LEGACY_CONSOLE_PUTCHAR: u64 = 1;
/// Legacy extension: read a character from the console.
pub const LEGACY_CONSOLE_GETCHAR: u64 = 2;
/// Legacy extension: shut the system down; the last legacy extension ID.
pub const LEGACY_SHUTDOWN: u64 = 8;

/// Extension ID of hart state management ("HSM").
pub const EID_HSM: u64 = 0x48534d;
/// HSM: start a hart.
pub const HART_START: u64 = 0;
/// HSM: stop the calling hart.
pub const HART_STOP: u64 = 1;
/// HSM: suspend the calling hart.
pub const HART_SUSPEND: u64 = 3;

/// Extension ID of system reset ("SRST").
pub const EID_SRST: u64 = 0x53525354;
/// SRST: reset the system.
pub const SYSTEM_RESET: u64 = 0;
/// SRST reset type: shut down.
pub const RESET_TYPE_SHUTDOWN: u64 = 0;

/// Extension ID of the debug console ("DBCN").
pub const EID_DBCN: u64 = 0x4442434e;
/// Write a memory region to the console.
pub const FID_CONSOLE_WRITE: u64 = 0;
/// Read from the console into a memory region.
pub const FID_CONSOLE_READ: u64 = 1;
/// Write one byte to the console.
pub const FID_CONSOLE_WRITE_BYTE: u64 = 2;

/// SBI success state return value.
pub const RET_SUCCESS: u64 = 0;
/// Error for an SBI call that failed for unknown reasons (-1).
pub const RET_ERR_FAILED: u64 = 0xffff_ffff_ffff_ffff;
/// Error for a target operation that is not supported (-2).
pub const RET_ERR_NOT_SUPPORTED: u64 = 0xffff_ffff_ffff_fffe;

/// The 64-bit value made of a high half `hi` and a low half `lo`.
pub open spec fn joined(lo: u64, hi: u64) -> u64 {
    ((hi << 32u64) | lo) as u64
}

/// Joins two register halves into one 64-bit guest physical address.
pub fn join_halves(lo: u64, hi: u64) -> (r: u64)
    ensures
        r == joined(lo, hi),
{
    (hi << 32u64) | lo
}

/// Joins two `usize` values into a `u64` value representing a guest physical
/// address (GPA): `base_hi` gives the upper 32 bits, `base_lo` the rest.
pub fn join_u64(base_lo: usize, base_hi: usize) -> (r: u64)
    ensures
        r == (((base_hi as u64) << 32u64) | (base_lo as u64)),
        r == joined(base_lo as u64, base_hi as u64),
{
    join_halves(base_lo as u64, base_hi as u64)
}

/// Joining halves that fit in 32 bits puts `hi` in the upper half and `lo`
/// in the lower one, so both come back out.
pub proof fn lemma_join_halves(lo: u64, hi: u64)
    requires
        lo < 0x1_0000_0000u64,
        hi < 0x1_0000_0000u64,
    ensures
        joined(lo, hi) == hi * 0x1_0000_0000u64 + lo,
        joined(lo, hi) >> 32u64 == hi,
        joined(lo, hi) & 0xffff_ffffu64 == lo,
{
    assert(((hi << 32u64) | lo) == hi * 0x1_0000_0000u64 + lo && ((hi << 32u64) | lo) >> 32u64 == hi
        && ((hi << 32u64) | lo) & 0xffff_ffffu64 == lo) by (bit_vector)
        requires
            lo < 0x1_0000_0000u64,
            hi < 0x1_0000_0000u64,
    ;
}

} // verus!
