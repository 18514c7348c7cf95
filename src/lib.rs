//! Bitstream manifests: the metadata record stored in flash beside each
//! bitstream, describing its memory regions, hardware revision, help text and
//! clock setup, and the bootloader-side logic that locates, checks and queries it.

pub mod model;
pub mod decode;
pub mod query;
pub mod dump;

use vstd::prelude::*;

verus! {

/// Size of one flash page.
pub const FLASH_PAGE_SZ: u32 = 0x1000;
/// Size of one flash sector.
pub const FLASH_SECTOR_SZ: u32 = 0x10000;
/// Sentinel that a well-formed manifest carries in its `magic` field.
pub const MANIFEST_MAGIC: u32 = 0xFEEDBEEF;
/// Number of user bitstream slots.
pub const N_MANIFESTS: usize = 8;
/// Flash offset of the first user slot.
pub const SLOT_BITSTREAM_BASE: usize = 0x100000;
/// Spacing between user slots.
pub const SLOT_SIZE: usize = 0x100000;
/// Offset of the manifest region within a slot.
pub const MANIFEST_OFFSET: usize = 0xF0000;
/// Size of the manifest region (one flash page).
pub const MANIFEST_SIZE: usize = 0x1000;
/// Capacity, in bytes, of a manifest's `name`.
pub const BITSTREAM_NAME_LEN: usize = 32;
/// Capacity, in bytes, of a manifest's `tag`.
pub const BITSTREAM_TAG_LEN: usize = 8;
/// Largest number of memory regions in one manifest.
pub const REGION_MAX_N: usize = 5;
/// Capacity, in bytes, of a region's `filename`.
pub const REGION_FILE_LEN: usize = 16;
/// Capacity, in bytes, of the help text's `brief` and `video` fields.
pub const HELP_BRIEF_MAX_SIZE: usize = 64;
/// Capacity, in bytes, of each I/O label of the help text.
pub const HELP_IO_MAX_SIZE: usize = 20;
/// Number of left-hand I/O labels.
pub const HELP_IO_LEFT_N: usize = 8;
/// Number of right-hand I/O labels.
pub const HELP_IO_RIGHT_N: usize = 6;

} // verus!
