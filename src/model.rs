//! The manifest data model and its capacity rules.

use vstd::prelude::*;
use vstd::utf8::encode_utf8;
use crate::{
    BITSTREAM_NAME_LEN, BITSTREAM_TAG_LEN, HELP_BRIEF_MAX_SIZE, HELP_IO_LEFT_N, HELP_IO_MAX_SIZE,
    HELP_IO_RIGHT_N, REGION_FILE_LEN, REGION_MAX_N,
};

verus! {

/// The role of a memory region.
#[derive(Clone, Copy, Debug, PartialEq, Eq, Structural)]
pub enum RegionType {
    /// Bitstream region that gets loaded directly by the bootloader
    Bitstream,
    /// XiP firmware that executes directly from SPI flash
    XipFirmware,
    /// Region that gets copied from SPI flash to RAM before use
    RamLoad,
    /// Option storage region for persistent application settings
    OptionStorage,
    /// Manifest region containing metadata about the bitstream
    Manifest,
}

/// One memory region of a bitstream slot.
#[derive(Clone, Debug, PartialEq)]
pub struct MemoryRegion {
    /// At most `REGION_FILE_LEN` bytes of UTF-8.
    pub filename: String,
    pub region_type: RegionType,
    /// Absolute flash offset of the region, if it lives in flash.
    pub spiflash_src: Option<u32>,
    /// Absolute RAM destination, present when the region is copied before use.
    pub psram_dst: Option<u32>,
    pub size: u32,
    pub crc: Option<u32>,
}

/// Configuration of the external clock synthesiser.
#[derive(Clone, Debug, PartialEq)]
pub struct ExternalPLLConfig {
    pub clk0_hz: u32,
    pub clk1_hz: Option<u32>,
    pub clk1_inherit: bool,
    /// Modulation depth as the bit pattern of an IEEE-754 single-precision
    /// number (`f32::to_bits`).
    pub spread_spectrum: Option<u32>,
}

/// Help text shown to the user for a bitstream.
#[derive(Clone, Debug, PartialEq)]
pub struct BitstreamHelp {
    pub brief: String,
    pub video: String,
    pub io_left: [String; 8],
    pub io_right: [String; 6],
}

/// The root record of a bitstream manifest.
#[derive(Clone, Debug, PartialEq)]
pub struct BitstreamManifest {
    pub hw_rev: u32,
    pub name: String,
    pub tag: String,
    /// In flash order; at most `REGION_MAX_N` of them.
    pub regions: Vec<MemoryRegion>,
    pub help: Option<BitstreamHelp>,
    pub external_pll_config: Option<ExternalPLLConfig>,
    /// Expected to be `MANIFEST_MAGIC`; decoding does not check it.
    pub magic: u32,
}

/// The number of bytes that `s` takes in UTF-8.
pub open spec fn text_bytes(s: Seq<char>) -> nat {
    encode_utf8(s).len()
}

/// `s` fits in a bounded string of `cap` bytes.
pub open spec fn text_fits(s: Seq<char>, cap: nat) -> bool {
    text_bytes(s) <= cap
}

impl MemoryRegion {
    /// Every bounded field is within its capacity.
    pub open spec fn within_capacity(&self) -> bool {
        text_fits(self.filename@, REGION_FILE_LEN as nat)
    }
}

impl BitstreamHelp {
    /// Every bounded field is within its capacity.
    pub open spec fn within_capacity(&self) -> bool {
        &&& text_fits(self.brief@, HELP_BRIEF_MAX_SIZE as nat)
        &&& text_fits(self.video@, 64)
        &&& forall|i: int| 0 <= i < HELP_IO_LEFT_N ==> text_fits(#[trigger] self.io_left@[i]@, HELP_IO_MAX_SIZE as nat)
        &&& forall|i: int| 0 <= i < HELP_IO_RIGHT_N ==> text_fits(#[trigger] self.io_right@[i]@, HELP_IO_MAX_SIZE as nat)
    }
}

impl BitstreamManifest {
    /// Every bounded field, nested ones included, is within its capacity.
    pub open spec fn within_capacity(&self) -> bool {
        &&& text_fits(self.name@, BITSTREAM_NAME_LEN as nat)
        &&& text_fits(self.tag@, BITSTREAM_TAG_LEN as nat)
        &&& self.regions@.len() <= REGION_MAX_N
        &&& forall|i: int| 0 <= i < self.regions@.len() ==> (#[trigger] self.regions@[i]).within_capacity()
        &&& match self.help {
            Some(h) => h.within_capacity(),
            None => true,
        }
    }
}

/// Whether `s` fits in a bounded string of `cap` bytes.
pub fn fits(s: &String, cap: usize) -> (r: bool)
    ensures
        r == text_fits(s@, cap as nat),
{
    s.as_str().as_bytes().len() <= cap
}

impl MemoryRegion {
    /// Whether every bounded field is within its capacity.
    pub fn check_capacity(&self) -> (r: bool)
        ensures
            r == self.within_capacity(),
    {
        fits(&self.filename, REGION_FILE_LEN)
    }
}

impl BitstreamHelp {
    /// Whether every bounded field is within its capacity.
    pub fn check_capacity(&self) -> (r: bool)
        ensures
            r == self.within_capacity(),
    {
        if !fits(&self.brief, HELP_BRIEF_MAX_SIZE) || !fits(&self.video, 64) {
            return false;
        }
        let mut i: usize = 0;
        while i < HELP_IO_LEFT_N
            invariant
                i <= HELP_IO_LEFT_N,
                forall|j: int| 0 <= j < i ==> text_fits(#[trigger] self.io_left@[j]@, HELP_IO_MAX_SIZE as nat),
            decreases HELP_IO_LEFT_N - i,
        {
            if !fits(&self.io_left[i], HELP_IO_MAX_SIZE) {
                return false;
            }
            i = i + 1;
        }
        let mut k: usize = 0;
        while k < HELP_IO_RIGHT_N
            invariant
                k <= HELP_IO_RIGHT_N,
                forall|j: int| 0 <= j < HELP_IO_LEFT_N ==> text_fits(#[trigger] self.io_left@[j]@, HELP_IO_MAX_SIZE as nat),
                forall|j: int| 0 <= j < k ==> text_fits(#[trigger] self.io_right@[j]@, HELP_IO_MAX_SIZE as nat),
            decreases HELP_IO_RIGHT_N - k,
        {
            if !fits(&self.io_right[k], HELP_IO_MAX_SIZE) {
                return false;
            }
            k = k + 1;
        }
        true
    }
}

impl BitstreamManifest {
    /// Whether every bounded field, nested ones included, is within its capacity.
    pub fn check_capacity(&self) -> (r: bool)
        ensures
            r == self.within_capacity(),
    {
        if !fits(&self.name, BITSTREAM_NAME_LEN) || !fits(&self.tag, BITSTREAM_TAG_LEN) {
            return false;
        }
        if self.regions.len() > REGION_MAX_N {
            return false;
        }
        let mut i: usize = 0;
        while i < self.regions.len()
            invariant
                i <= self.regions@.len(),
                forall|j: int| 0 <= j < i ==> (#[trigger] self.regions@[j]).within_capacity(),
            decreases self.regions@.len() - i,
        {
            if !self.regions[i].check_capacity() {
                return false;
            }
            i = i + 1;
        }
        match &self.help {
            Some(h) => h.check_capacity(),
            None => true,
        }
    }
}

} // verus!
