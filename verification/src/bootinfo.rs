//! The boot information the hypervisor writes into a fixed guest-physical
//! page before the first vCPU run, consumed exactly once by the guest
//! kernel's entry point.

use vstd::prelude::*;

verus! {

use crate::memmap::MemoryMap;

/// What the hypervisor passes to the guest kernel.
#[derive(Debug)]
pub struct BootInfo {
    /// The typed map of guest-physical memory, with the regions the boot
    /// path already claimed marked by their types.
    pub memory_map: MemoryMap,
    /// Guest-physical address of the level-4 page table.
    pub recursive_page_table_addr: u64,
    /// Offset at which all of physical memory is mapped a second time.
    pub physical_memory_offset: u64,
}

impl BootInfo {
    /// Bundles the boot information.
    pub fn new(memory_map: MemoryMap, recursive_page_table_addr: u64, physical_memory_offset: u64) -> (r:
        BootInfo)
        ensures
            r.memory_map@ == memory_map@,
            r.recursive_page_table_addr == recursive_page_table_addr,
            r.physical_memory_offset == physical_memory_offset,
    {
        BootInfo { memory_map, recursive_page_table_addr, physical_memory_offset }
    }
}

} // verus!
