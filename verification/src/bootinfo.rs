//! The boot information record the bootloader passes to the kernel.
//!
//! The record is the single contract point between two independently compiled
//! binaries: the bootloader constructs it exactly once, immediately before
//! transferring control, and passes a reference to it as the sole argument of
//! the kernel entry point. Its layout must therefore be identical in both
//! builds; the build that produces the final binaries carries a
//! foreign-function-interface layout check against a representation-pinned
//! mirror of this type.

use vstd::prelude::*;

use crate::memory_map::MemoryMap;

verus! {

/// The information that the bootloader passes to the kernel.
///
/// The kernel entry point receives a reference to this record and may read it
/// for the remainder of its execution; keeping the storage resident (for
/// example by excluding it from the usable memory regions) is the
/// bootloader's responsibility.
#[derive(Debug)]
pub struct BootInfo {
    /// A map of the physical memory regions of the underlying machine.
    ///
    /// The bootloader queries this information from the firmware and marks
    /// the regions it uses itself before passing the map on. Regions marked
    /// as usable can be freely used by the kernel.
    pub memory_map: MemoryMap,
    /// The virtual address of the recursively mapped level 4 page table.
    pub recursive_page_table_addr: u64,
}

impl BootInfo {
    /// Builds the record from the finished memory map and the page table
    /// address, exposing exactly those two values.
    ///
    /// No validation happens here: the internal consistency of the memory
    /// map is the memory discovery component's obligation. The
    /// `physical_memory_offset` parameter is accepted for callers that still
    /// pass it, and ignored: the record carries no such field.
    #[allow(unused_variables)]
    pub fn new(memory_map: MemoryMap, recursive_page_table_addr: u64, physical_memory_offset: u64) -> (r: BootInfo)
        ensures
            r.memory_map == memory_map,
            r.recursive_page_table_addr == recursive_page_table_addr,
    {
        BootInfo { memory_map, recursive_page_table_addr }
    }
}

impl Clone for BootInfo {
    /// A copy of the record exposes the same memory map regions and the same
    /// page table address, unchanged: no field is reordered or truncated.
    fn clone(&self) -> (r: Self)
        ensures
            r.memory_map@ == self.memory_map@,
            r.recursive_page_table_addr == self.recursive_page_table_addr,
    {
        BootInfo {
            memory_map: self.memory_map.clone(),
            recursive_page_table_addr: self.recursive_page_table_addr,
        }
    }
}

} // verus!
