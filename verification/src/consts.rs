use vstd::prelude::*;

verus! {

/// Command magic number "_CMD": the low 24 bits of every command header word.
pub const COMMAND: u32 = 0x43_4D_44;

/// Compare magic number "CMP_": the low 24 bits of every completion echo word.
pub const COMPARE: u32 = 0x43_4D_50_00;

/// Device magic number "UDEV": the second word of a version response.
pub const MAGIC: u32 = 0x55_44_45_56;

/// Bit that forces an explicit CIC type rather than auto-detection.
pub const OVERRIDE_CIC: u32 = 0x8000_0000;

/// Maximum data transfer size for a single command, in 32-bit words (8 MiB).
pub const MAX_TRANSFER_SIZE: usize = 8 * 1024 * 1024 / 4;

} // verus!
