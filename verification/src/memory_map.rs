//! A map of the physical memory regions of the underlying machine.
//!
//! The bootloader queries this information from the firmware, marks the
//! ranges that it, the embedded kernel image and the boot information record
//! occupy as not usable, and forwards the finished map to the kernel inside
//! [`crate::bootinfo::BootInfo`]. This module only stores and hands back the
//! region descriptors; discovering and marking regions is the caller's job.

use vstd::prelude::*;

verus! {

/// Upper bound on the number of regions a memory map can carry, so that the
/// map fits in the fixed-size record handed across the bootloader/kernel
/// boundary.
pub const MAX_MEMORY_MAP_SIZE: usize = 64;

/// How a range of physical memory may be used.
#[derive(Clone, Copy, Debug, PartialEq, Eq, Structural)]
pub enum MemoryRegionType {
    /// Free for use by the kernel.
    Usable,
    /// Reserved by the firmware; never usable.
    Reserved,
    /// Occupied by the embedded kernel image.
    Kernel,
    /// Occupied by the bootloader itself.
    Bootloader,
    /// Occupied by the boot information record.
    BootInfo,
    /// Occupied by page tables.
    PageTable,
}

/// A range of physical frames: `start_frame_number` inclusive up to
/// `end_frame_number` exclusive.
#[derive(Clone, Copy, Debug, PartialEq, Eq, Structural)]
pub struct FrameRange {
    pub start_frame_number: u64,
    pub end_frame_number: u64,
}

/// One physical memory region descriptor.
#[derive(Clone, Copy, Debug, PartialEq, Eq, Structural)]
pub struct MemoryRegion {
    pub range: FrameRange,
    pub region_type: MemoryRegionType,
}

/// An ordered sequence of physical memory region descriptors, in the order
/// the regions were added.
#[derive(Debug)]
pub struct MemoryMap {
    regions: Vec<MemoryRegion>,
}

impl View for MemoryMap {
    type V = Seq<MemoryRegion>;

    closed spec fn view(&self) -> Seq<MemoryRegion> {
        self.regions@
    }
}

impl MemoryMap {
    /// The map never outgrows the fixed-size record it is carried in.
    pub open spec fn wf(&self) -> bool {
        self@.len() <= MAX_MEMORY_MAP_SIZE
    }

    /// An empty memory map.
    pub fn new() -> (r: MemoryMap)
        ensures
            r@ == Seq::<MemoryRegion>::empty(),
            r.wf(),
    {
        MemoryMap { regions: Vec::new() }
    }

    /// Appends `region` at the end of the map, keeping the order of
    /// insertion.
    pub fn add_region(&mut self, region: MemoryRegion)
        requires
            old(self).wf(),
            old(self)@.len() < MAX_MEMORY_MAP_SIZE,
        ensures
            final(self)@ == old(self)@.push(region),
            final(self).wf(),
    {
        self.regions.push(region);
    }

    /// How many regions the map holds.
    pub fn len(&self) -> (n: usize)
        ensures
            n == self@.len(),
    {
        self.regions.len()
    }

    /// The region at position `i`, in order of insertion.
    pub fn get(&self, i: usize) -> (r: MemoryRegion)
        requires
            i < self@.len(),
        ensures
            r == self@[i as int],
    {
        self.regions[i]
    }
}

impl Clone for MemoryMap {
    /// A clone holds exactly the regions of the original, in the same order.
    fn clone(&self) -> (r: Self)
        ensures
            r@ == self@,
    {
        let mut regions: Vec<MemoryRegion> = Vec::new();
        let mut i: usize = 0;
        while i < self.regions.len()
            invariant
                i <= self.regions@.len(),
                regions@ == self.regions@.subrange(0, i as int),
            decreases self.regions@.len() - i,
        {
            regions.push(self.regions[i]);
            i = i + 1;
        }
        proof {
            assert(regions@ =~= self.regions@);
        }
        MemoryMap { regions }
    }
}

} // verus!
