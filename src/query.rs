//! Read-only queries over a decoded manifest.

use vstd::prelude::*;
use crate::model::{BitstreamManifest, MemoryRegion, RegionType};

verus! {

/// `r` is an option-storage region with a known flash offset.
pub open spec fn is_storage_region(r: MemoryRegion) -> bool {
    r.region_type == RegionType::OptionStorage && r.spiflash_src is Some
}

/// The first region of `regions`, in order, that is an option-storage region
/// with a known flash offset.
pub open spec fn first_storage_region(regions: Seq<MemoryRegion>) -> Option<MemoryRegion>
    decreases regions.len(),
{
    if regions.len() == 0 {
        None
    } else if is_storage_region(regions[0]) {
        Some(regions[0])
    } else {
        first_storage_region(regions.drop_first())
    }
}

/// The half-open flash range `(start, end)` of the option storage described by
/// `regions`: that of the first option-storage region with a flash offset,
/// provided its end is representable as a `u32`.
pub open spec fn storage_window(regions: Seq<MemoryRegion>) -> Option<(u32, u32)> {
    match first_storage_region(regions) {
        Some(r) => {
            let start = r.spiflash_src->0;
            if start + r.size <= u32::MAX {
                Some((start, (start + r.size) as u32))
            } else {
                None
            }
        },
        None => None,
    }
}

/// When region `k` is the first option-storage region with a flash offset,
/// it is the one that `first_storage_region` finds, whatever follows it.
pub proof fn lemma_first_storage_region(regions: Seq<MemoryRegion>, k: int)
    requires
        0 <= k < regions.len(),
        is_storage_region(regions[k]),
        forall|j: int| 0 <= j < k ==> !is_storage_region(#[trigger] regions[j]),
    ensures
        first_storage_region(regions) == Some(regions[k]),
    decreases k,
{
    if k > 0 {
        assert(!is_storage_region(regions[0]));
        let rest = regions.drop_first();
        assert forall|j: int| 0 <= j < k - 1 implies !is_storage_region(#[trigger] rest[j]) by {
            assert(rest[j] == regions[j + 1]);
        }
        lemma_first_storage_region(rest, k - 1);
    }
}

impl BitstreamManifest {
    /// The flash range of the option storage: the first region, in order,
    /// that is an option-storage region with a flash offset gives
    /// `spiflash_src .. spiflash_src + size`. `None` when there is no such
    /// region, or when the end of its range does not fit in a `u32`.
    pub fn get_option_storage_window(&self) -> (r: Option<core::ops::Range<u32>>)
        ensures
            match (r, storage_window(self.regions@)) {
                (Some(w), Some((start, end))) => w.start == start && w.end == end,
                (None, None) => true,
                _ => false,
            },
    {
        let mut i: usize = 0;
        proof {
            assert(self.regions@.subrange(0, self.regions@.len() as int) =~= self.regions@);
        }
        while i < self.regions.len()
            invariant
                i <= self.regions@.len(),
                first_storage_region(self.regions@.subrange(i as int, self.regions@.len() as int))
                    == first_storage_region(self.regions@),
            decreases self.regions@.len() - i,
        {
            let ghost rest = self.regions@.subrange(i as int, self.regions@.len() as int);
            proof {
                assert(rest.drop_first() =~= self.regions@.subrange(i + 1, self.regions@.len() as int));
                assert(rest[0] == self.regions@[i as int]);
            }
            let region = &self.regions[i];
            if region.region_type == RegionType::OptionStorage {
                if let Some(src) = region.spiflash_src {
                    if region.size <= u32::MAX - src {
                        return Some(src..src + region.size);
                    } else {
                        return None;
                    }
                }
            }
            i = i + 1;
        }
        proof {
            assert(self.regions@.subrange(i as int, self.regions@.len() as int).len() == 0);
        }
        None
    }
}

} // verus!
