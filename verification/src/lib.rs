//! Converts a raw FPGA bitstream into a self-flashing update container: a
//! sequence of fixed 512-byte records, one metadata record followed by the
//! payload split into 256-byte chunks, targeted at a randomized page-aligned
//! address inside one of four reserved flash slots.

use vstd::prelude::*;

pub mod address;
pub mod convert;
pub mod options;
pub mod block;
pub mod wire;

verus! {

/// First kilobyte of the flash region reserved for bitstream storage.
pub const BASE_BITSTREAM_STORAGE_ADDRESS_KB: u32 = 544;

/// Kilobytes reserved for each of the four bitstream slots.
pub const RESERVED_KB_FOR_BITSTREAM_SLOT: u32 = 512;

/// Added to `MAGIC_START1` to mark the metadata record.
pub const METADATA_START1_OFFSET: u32 = 0x42;

/// Longest project name stored in the metadata record, in bytes.
pub const METADATA_PROJ_NAME_MAXLEN: usize = 23;

/// Kilobytes per flash page (pages are 4 kB).
pub const PAGE_BLOCKS: u32 = 4;

/// Payload bytes carried by one ordinary data record.
pub const BLOCK_PAYLOAD_SIZE: usize = 256;

/// Leading magic of every record.
pub const MAGIC_START0: u32 = 0x0A32_4655;

/// Secondary magic of payload records; the metadata record adds
/// `METADATA_START1_OFFSET`.
pub const MAGIC_START1: u32 = 0x951C_0634;

/// Trailing magic of every record.
pub const MAGIC_END: u32 = 0x1C73_C401;

/// Device family identifier written into every record.
pub const FAMILY_ID: u32 = 0xEFAB_1E55;

/// Record flag: the record is not written to main flash.
pub const FLAGS_NOT_MAIN_FLASH: u32 = 0x0000_0001;

/// Record flag: the family identifier field is meaningful.
pub const FLAGS_FAMILY_ID_PRESENT: u32 = 0x0000_2000;

/// Lowest accepted nonzero autoclock frequency, in Hz.
pub const MIN_AUTOCLOCK_HZ: u32 = 10;

/// Highest accepted autoclock frequency, in Hz.
pub const MAX_AUTOCLOCK_HZ: u32 = 60_000_000;

/// Lowest valid slot number.
pub const MIN_SLOT: u8 = 1;

/// Highest valid slot number.
pub const MAX_SLOT: u8 = 4;

} // verus!
