//! The platform boot path: reading the firmware's memory-map table and
//! building the guest kernel's typed memory map from it, with the boot
//! layout's fixed regions marked out of the `Usable` space.

use vstd::prelude::*;

verus! {

use crate::layout::PAGE_SIZE;
use crate::layout::SYSCALL_PHYS_ADDR;
use crate::layout::PHYSICAL_MEMORY_OFFSET;
use crate::memmap::MemoryMap;
use crate::memmap::MemoryRegion;
use crate::memmap::MemoryRegionType;
use crate::memmap::FrameRange;
use crate::frame_allocator::FrameAllocator;
use crate::frame_allocator::MarkError;
use crate::frame_allocator::mark_allocated;

/// The firmware's start-of-day structure handed to the platform entry
/// point.
#[derive(Clone, Copy, Debug, PartialEq, Eq, Structural)]
pub struct HvmStartInfo {
    /// The magic value identifying the structure.
    pub magic: u32,
    /// Version of the structure.
    pub version: u32,
    /// Start-of-day flags.
    pub flags: u32,
    /// Number of modules passed to the kernel.
    pub nr_modules: u32,
    /// Physical address of the module list.
    pub modlist_paddr: u64,
    /// Physical address of the command line.
    pub cmdline_paddr: u64,
    /// Physical address of the RSDP ACPI structure.
    pub rsdp_paddr: u64,
    /// Physical address of the memory-map table.
    pub memmap_paddr: u64,
    /// Number of entries in the memory-map table.
    pub memmap_entries: u32,
    /// Must be zero.
    pub reserved: u32,
}

/// One entry of the firmware memory-map table.
#[derive(Clone, Copy, Debug, PartialEq, Eq, Structural)]
pub struct HvmMemmapTableEntry {
    /// Base address of the memory region.
    pub addr: u64,
    /// Size of the memory region in bytes.
    pub size: u64,
    /// Mapping type word.
    pub entry_type: u32,
    /// Must be zero.
    pub reserved: u32,
}

/// The decoded mapping type of a firmware memory-map entry.
#[derive(Clone, Copy, Debug, PartialEq, Eq, Structural)]
pub enum HvmMemmapTableEntryType {
    /// Usable random-access memory.
    RAM,
    /// Reserved memory.
    Reserved,
    /// ACPI tables.
    ACPI,
    /// ACPI non-volatile storage.
    NVS,
    /// Unusable memory.
    Unusable,
    /// Disabled memory.
    Disabled,
    /// Persistent memory.
    PMEM,
    /// Any other type word.
    Unknown,
}

/// The decoded type for a raw type word.
pub open spec fn spec_entry_type(word: u32) -> HvmMemmapTableEntryType {
    if word == 1 {
        HvmMemmapTableEntryType::RAM
    } else if word == 2 {
        HvmMemmapTableEntryType::Reserved
    } else if word == 3 {
        HvmMemmapTableEntryType::ACPI
    } else if word == 4 {
        HvmMemmapTableEntryType::NVS
    } else if word == 5 {
        HvmMemmapTableEntryType::Unusable
    } else if word == 6 {
        HvmMemmapTableEntryType::Disabled
    } else if word == 7 {
        HvmMemmapTableEntryType::PMEM
    } else {
        HvmMemmapTableEntryType::Unknown
    }
}

impl HvmMemmapTableEntry {
    /// Decodes the entry's mapping type.
    pub fn get_type(&self) -> (r: HvmMemmapTableEntryType)
        ensures
            r == spec_entry_type(self.entry_type),
    {
        if self.entry_type == 1 {
            HvmMemmapTableEntryType::RAM
        } else if self.entry_type == 2 {
            HvmMemmapTableEntryType::Reserved
        } else if self.entry_type == 3 {
            HvmMemmapTableEntryType::ACPI
        } else if self.entry_type == 4 {
            HvmMemmapTableEntryType::NVS
        } else if self.entry_type == 5 {
            HvmMemmapTableEntryType::Unusable
        } else if self.entry_type == 6 {
            HvmMemmapTableEntryType::Disabled
        } else if self.entry_type == 7 {
            HvmMemmapTableEntryType::PMEM
        } else {
            HvmMemmapTableEntryType::Unknown
        }
    }
}

/// Whether this firmware entry contributes a `Usable` region: random
/// access memory whose page-aligned interior is non-empty and whose end
/// does not overflow.
pub open spec fn entry_usable(e: HvmMemmapTableEntry) -> bool {
    spec_entry_type(e.entry_type) is RAM && e.addr + e.size <= u64::MAX && e.addr + PAGE_SIZE - 1
        <= u64::MAX && align_up_spec(e.addr) < align_down_spec((e.addr + e.size) as u64)
}

/// `a` rounded up to the next page boundary.
pub open spec fn align_up_spec(a: u64) -> int {
    ((a + PAGE_SIZE - 1) / (PAGE_SIZE as int)) * (PAGE_SIZE as int)
}

/// `a` rounded down to a page boundary.
pub open spec fn align_down_spec(a: u64) -> int {
    (a as int / (PAGE_SIZE as int)) * (PAGE_SIZE as int)
}

/// The `Usable` region a usable firmware entry contributes.
pub open spec fn entry_region(e: HvmMemmapTableEntry) -> MemoryRegion {
    MemoryRegion {
        range: FrameRange {
            start_frame_number: (align_up_spec(e.addr) / (PAGE_SIZE as int)) as u64,
            end_frame_number: ((align_down_spec((e.addr + e.size) as u64) - 1) / (PAGE_SIZE as int)
                + 1) as u64,
        },
        region_type: MemoryRegionType::Usable,
    }
}

/// The base map of `Usable` regions the firmware table contributes, in
/// table order.
pub open spec fn ram_regions(entries: Seq<HvmMemmapTableEntry>) -> Seq<MemoryRegion>
    decreases entries.len(),
{
    if entries.len() == 0 {
        Seq::empty()
    } else {
        let rest = ram_regions(entries.drop_last());
        if entry_usable(entries.last()) {
            rest.push(entry_region(entries.last()))
        } else {
            rest
        }
    }
}

/// The memory map the platform boot path hands to the kernel: the
/// firmware's usable memory, with the low 64 KiB reserved and the
/// syscall page, the kernel image, the boot stack and the application
/// image marked out, in that order; the first mark that cannot be
/// carved fails the boot.
pub open spec fn boot_map_spec(
    entries: Seq<HvmMemmapTableEntry>,
    kernel_start: u64,
    kernel_end: u64,
    stack_ptr: u64,
    app_start: u64,
    app_end: u64,
) -> Result<Seq<MemoryRegion>, MarkError> {
    let s0 = ram_regions(entries);
    match mark_allocated(s0, byte_region(0, 0x1_0000, MemoryRegionType::Reserved)) {
        Err(e) => Err(e),
        Ok(s1) => match mark_allocated(
            s1,
            byte_region(
                SYSCALL_PHYS_ADDR,
                (SYSCALL_PHYS_ADDR + 0x1000) as u64,
                MemoryRegionType::SysCall,
            ),
        ) {
            Err(e) => Err(e),
            Ok(s2) => match mark_allocated(
                s2,
                byte_region(kernel_start, kernel_end, MemoryRegionType::Kernel),
            ) {
                Err(e) => Err(e),
                Ok(s3) => match mark_allocated(
                    s3,
                    byte_region(
                        stack_ptr,
                        (stack_ptr + 0xF000) as u64,
                        MemoryRegionType::KernelStack,
                    ),
                ) {
                    Err(e) => Err(e),
                    Ok(s4) => mark_allocated(
                        s4,
                        byte_region(
                            (app_start - PHYSICAL_MEMORY_OFFSET) as u64,
                            (app_end - PHYSICAL_MEMORY_OFFSET) as u64,
                            MemoryRegionType::App,
                        ),
                    ),
                },
            },
        },
    }
}

/// The typed region covering the bytes `[start, end)`.
pub open spec fn byte_region(start: u64, end: u64, t: MemoryRegionType) -> MemoryRegion {
    MemoryRegion {
        range: FrameRange {
            start_frame_number: (start as int / (PAGE_SIZE as int)) as u64,
            end_frame_number: ((end - 1) as int / (PAGE_SIZE as int) + 1) as u64,
        },
        region_type: t,
    }
}

/// Rounds `a` up to the next page boundary.
pub fn page_align_up(a: u64) -> (r: u64)
    requires
        a + PAGE_SIZE - 1 <= u64::MAX,
    ensures
        r == align_up_spec(a),
{
    let x = a + ((PAGE_SIZE as u64) - 1);
    proof {
        assert((x / (PAGE_SIZE as u64)) * (PAGE_SIZE as u64) <= x) by (nonlinear_arith);
    }
    (x / (PAGE_SIZE as u64)) * (PAGE_SIZE as u64)
}

/// Rounds `a` down to a page boundary.
pub fn page_align_down(a: u64) -> (r: u64)
    ensures
        r == align_down_spec(a),
{
    proof {
        assert((a / (PAGE_SIZE as u64)) * (PAGE_SIZE as u64) <= a) by (nonlinear_arith);
    }
    (a / (PAGE_SIZE as u64)) * (PAGE_SIZE as u64)
}

/// Builds the boot memory map from the firmware table and the linker's
/// image bounds, exactly as `boot_map_spec` describes.
pub fn boot_memory_map(
    entries: &Vec<HvmMemmapTableEntry>,
    kernel_start: u64,
    kernel_end: u64,
    stack_ptr: u64,
    app_start: u64,
    app_end: u64,
) -> (r: Result<MemoryMap, MarkError>)
    requires
        1 <= kernel_end,
        stack_ptr + 0xF000 <= u64::MAX,
        1 <= stack_ptr + 0xF000,
        PHYSICAL_MEMORY_OFFSET <= app_start,
        PHYSICAL_MEMORY_OFFSET + 1 <= app_end <= u64::MAX,
    ensures
        (match r {
            Ok(m) => boot_map_spec(
                entries@,
                kernel_start,
                kernel_end,
                stack_ptr,
                app_start,
                app_end,
            ) == Ok::<Seq<MemoryRegion>, MarkError>(m@),
            Err(e) => boot_map_spec(
                entries@,
                kernel_start,
                kernel_end,
                stack_ptr,
                app_start,
                app_end,
            ) == Err::<Seq<MemoryRegion>, MarkError>(e),
        }),
{
    let mut fa = FrameAllocator { memory_map: MemoryMap::new() };
    let n = entries.len();
    let mut i: usize = 0;
    while i < n
        invariant
            i <= n == entries@.len(),
            fa.memory_map@ == ram_regions(entries@.subrange(0, i as int)),
        decreases n - i,
    {
        let e = entries[i];
        proof {
            assert(entries@.subrange(0, i + 1).drop_last() =~= entries@.subrange(0, i as int));
            assert(entries@.subrange(0, i + 1).last() == entries@[i as int]);
        }
        let usable = match e.get_type() {
            HvmMemmapTableEntryType::RAM => true,
            _ => false,
        };
        if usable && e.addr <= u64::MAX - e.size && e.addr <= u64::MAX - (PAGE_SIZE as u64) + 1 {
            let lo = page_align_up(e.addr);
            let hi = page_align_down(e.addr + e.size);
            if lo < hi {
                fa.memory_map.add_region(
                    MemoryRegion {
                        range: FrameRange::new(lo, hi),
                        region_type: MemoryRegionType::Usable,
                    },
                );
            }
        }
        i += 1;
    }
    proof {
        assert(entries@.subrange(0, n as int) =~= entries@);
    }
    match fa.mark_allocated_region(byte_region_exec(0, 0x1_0000, MemoryRegionType::Reserved)) {
        Ok(()) => (),
        Err(e) => {
            return Err(e);
        },
    }
    match fa.mark_allocated_region(
        byte_region_exec(SYSCALL_PHYS_ADDR, SYSCALL_PHYS_ADDR + 0x1000, MemoryRegionType::SysCall),
    ) {
        Ok(()) => (),
        Err(e) => {
            return Err(e);
        },
    }
    match fa.mark_allocated_region(
        byte_region_exec(kernel_start, kernel_end, MemoryRegionType::Kernel),
    ) {
        Ok(()) => (),
        Err(e) => {
            return Err(e);
        },
    }
    match fa.mark_allocated_region(
        byte_region_exec(stack_ptr, stack_ptr + 0xF000, MemoryRegionType::KernelStack),
    ) {
        Ok(()) => (),
        Err(e) => {
            return Err(e);
        },
    }
    match fa.mark_allocated_region(
        byte_region_exec(
            app_start - PHYSICAL_MEMORY_OFFSET,
            app_end - PHYSICAL_MEMORY_OFFSET,
            MemoryRegionType::App,
        ),
    ) {
        Ok(()) => Ok(fa.memory_map),
        Err(e) => Err(e),
    }
}

/// The typed region covering the bytes `[start, end)`.
fn byte_region_exec(start: u64, end: u64, t: MemoryRegionType) -> (r: MemoryRegion)
    requires
        1 <= end,
    ensures
        r == byte_region(start, end, t),
{
    MemoryRegion { range: FrameRange::new(start, end), region_type: t }
}

} // verus!
