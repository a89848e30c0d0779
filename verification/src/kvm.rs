//! The VM builder: userspace memory-region bookkeeping, guest-physical to
//! host-virtual translation, the strictly ordered boot layout sequence,
//! and the exact vCPU register state committed before the first run.
//!
//! The virtualization layer's file descriptors and system calls stay
//! outside the library: the builder decides and records, the caller
//! performs.

use vstd::prelude::*;

verus! {

use crate::error::Error;
use crate::error::ErrorKind;
use crate::frame_allocator::FrameAllocator;
use crate::frame_allocator::MarkError;
use crate::layout::PAGE_SIZE;
use crate::layout::PML4_START;
use crate::layout::BOOT_GDT_OFFSET;
use crate::layout::BOOT_IDT_OFFSET;
use crate::layout::BOOT_STACK_POINTER;
use crate::layout::BOOTINFO_PHYS_ADDR;
use crate::layout::SYSCALL_PHYS_ADDR;
use crate::layout::PHYSICAL_MEMORY_OFFSET;
use crate::memmap::MemoryMap;
use crate::memmap::MemoryRegion;
use crate::memmap::MemoryRegionType;
use crate::memmap::FrameRange;
use crate::memmap::sorted_by_start;
use crate::pagetables::PageTables;
use crate::pagetables::built_tables;
use crate::pagetables::setup_page_tables;
use crate::kvm_gdt::Segment;
use crate::kvm_gdt::spec_gdt_entry;
use crate::kvm_gdt::spec_segment_from_gdt;
use crate::kvm_gdt::gdt_entry;
use crate::kvm_gdt::kvm_segment_from_gdt;
use crate::bootinfo::BootInfo;

/// CR0 protected-mode-enable bit.
pub const X86_CR0_PE: u64 = 0x1;

/// CR0 numeric-error bit.
pub const X86_CR0_NE: u64 = 0x20;

/// CR0 paging bit.
pub const X86_CR0_PG: u64 = 0x8000_0000;

/// CR4 physical-address-extension bit.
pub const X86_CR4_PAE: u64 = 0x20;

/// CR4 FXSAVE/FXRSTOR bit.
pub const X86_CR4_OSFXSR: u64 = 0x200;

/// EFER long-mode-enable bit.
pub const EFER_LME: u64 = 0x100;

/// EFER long-mode-active bit.
pub const EFER_LMA: u64 = 0x400;

/// EFER no-execute-enable bit.
pub const EFER_NX: u64 = 0x800;

/// A guest-physical range backed by host memory and registered with the
/// virtualization layer under a slot.
#[derive(Clone, Copy, Debug, PartialEq, Eq, Structural)]
pub struct UserspaceMemRegion {
    /// The slot the region is registered under; each slot is unique.
    pub slot: u32,
    /// Registration flags.
    pub flags: u32,
    /// First guest-physical address of the region.
    pub guest_phys_addr: u64,
    /// Size of the region in bytes.
    pub memory_size: u64,
    /// Host-virtual address backing the region.
    pub host_mem: u64,
}

/// The region's bounds arithmetic cannot overflow and it is non-empty.
pub open spec fn umr_wf(r: UserspaceMemRegion) -> bool {
    1 <= r.memory_size && r.guest_phys_addr + r.memory_size <= u64::MAX && r.host_mem
        + r.memory_size <= u64::MAX
}

/// Why `vm_userspace_mem_region_add` refuses `(guest_paddr, size, slot)`
/// against the existing region `r`, if it does; the slot check comes
/// first, then the (inclusive) overlap check.
pub open spec fn region_conflict(
    r: UserspaceMemRegion,
    guest_paddr: u64,
    size: u64,
    slot: u32,
) -> Option<ErrorKind> {
    if r.slot == slot {
        Some(ErrorKind::MemRegionWithSlotAlreadyExists)
    } else if guest_paddr <= r.guest_phys_addr + r.memory_size && guest_paddr + size
        >= r.guest_phys_addr {
        Some(ErrorKind::OverlappingUserspaceMemRegionExists)
    } else {
        None
    }
}

/// Whether `gpa` falls inside region `r`.
pub open spec fn gpa_in_region(r: UserspaceMemRegion, gpa: u64) -> bool {
    r.guest_phys_addr <= gpa <= r.guest_phys_addr + r.memory_size - 1
}

/// The VM under construction: its typed memory map, its registered
/// userspace regions, and the shared-page address once known.
#[derive(Debug)]
pub struct KvmVm {
    /// Guest page size in bytes.
    pub page_size: usize,
    /// The typed guest-physical memory map.
    pub frame_allocator: FrameAllocator,
    /// The registered host-backed regions.
    pub userspace_mem_regions: Vec<UserspaceMemRegion>,
    /// Host-virtual address of the shared syscall page, once resolved.
    pub syscall_hostvaddr: Option<u64>,
}

impl KvmVm {
    /// Every registered region has sound bounds.
    pub open spec fn regions_wf(&self) -> bool {
        forall|i: int|
            0 <= i < self.userspace_mem_regions@.len() ==> umr_wf(
                #[trigger] self.userspace_mem_regions@[i],
            )
    }

    /// Registers a host-backed guest-physical region under `slot`, after
    /// checking that the slot is fresh and that no registered region
    /// overlaps the new one; on success the covered frames are added to
    /// the memory map as `Usable`.
    ///
    /// Fails with `MemRegionWithSlotAlreadyExists` or
    /// `OverlappingUserspaceMemRegionExists` after the first conflicting
    /// region, the slot check deciding first; the VM is then unchanged.
    #[verifier::loop_isolation(false)]
    pub fn vm_userspace_mem_region_add(
        &mut self,
        guest_paddr: u64,
        slot: u32,
        npages: u64,
        flags: u32,
        host_mem: u64,
    ) -> (r: Result<(), Error>)
        requires
            old(self).regions_wf(),
            1 <= npages,
            npages * old(self).page_size <= u64::MAX,
            guest_paddr + npages * old(self).page_size <= u64::MAX,
            host_mem + npages * old(self).page_size <= u64::MAX,
            old(self).page_size == PAGE_SIZE,
        ensures
            final(self).page_size == old(self).page_size,
            final(self).syscall_hostvaddr == old(self).syscall_hostvaddr,
            (match r {
                Ok(()) => {
                    &&& forall|i: int|
                        0 <= i < old(self).userspace_mem_regions@.len() ==> region_conflict(
                            #[trigger] old(self).userspace_mem_regions@[i],
                            guest_paddr,
                            (npages * old(self).page_size) as u64,
                            slot,
                        ) is None
                    &&& final(self).userspace_mem_regions@ == old(
                        self,
                    ).userspace_mem_regions@.push(
                        (UserspaceMemRegion {
                            slot,
                            flags,
                            guest_phys_addr: guest_paddr,
                            memory_size: (npages * old(self).page_size) as u64,
                            host_mem,
                        }),
                    )
                    &&& final(self).regions_wf()
                    &&& final(self).frame_allocator.memory_map@ == old(
                        self,
                    ).frame_allocator.memory_map@.push(
                        (MemoryRegion {
                            range: FrameRange {
                                start_frame_number: (guest_paddr as int / PAGE_SIZE as int) as u64,
                                end_frame_number: ((guest_paddr + npages * old(self).page_size - 1)
                                    / (PAGE_SIZE as int) + 1) as u64,
                            },
                            region_type: MemoryRegionType::Usable,
                        }),
                    )
                },
                Err(e) => {
                    &&& exists|i: int|
                        0 <= i < old(self).userspace_mem_regions@.len() && region_conflict(
                            #[trigger] old(self).userspace_mem_regions@[i],
                            guest_paddr,
                            (npages * old(self).page_size) as u64,
                            slot,
                        ) == Some(e.0) && (forall|j: int|
                            0 <= j < i ==> region_conflict(
                                #[trigger] old(self).userspace_mem_regions@[j],
                                guest_paddr,
                                (npages * old(self).page_size) as u64,
                                slot,
                            ) is None)
                    &&& final(self).userspace_mem_regions@ == old(self).userspace_mem_regions@
                    &&& final(self).frame_allocator.memory_map@ == old(
                        self,
                    ).frame_allocator.memory_map@
                },
            }),
    {
        let size = npages * (self.page_size as u64);
        let n = self.userspace_mem_regions.len();
        let mut i: usize = 0;
        while i < n
            invariant
                i <= n,
                forall|j: int|
                    0 <= j < i ==> region_conflict(
                        #[trigger] self.userspace_mem_regions@[j],
                        guest_paddr,
                        size,
                        slot,
                    ) is None,
            decreases n - i,
        {
            let r = self.userspace_mem_regions[i];
            if r.slot == slot {
                return Err(Error::new(ErrorKind::MemRegionWithSlotAlreadyExists));
            }
            if guest_paddr <= r.guest_phys_addr + r.memory_size && guest_paddr + size
                >= r.guest_phys_addr {
                return Err(Error::new(ErrorKind::OverlappingUserspaceMemRegionExists));
            }
            i += 1;
        }
        let region = UserspaceMemRegion {
            slot,
            flags,
            guest_phys_addr: guest_paddr,
            memory_size: size,
            host_mem,
        };
        self.userspace_mem_regions.push(region);
        self.frame_allocator.memory_map.add_region(
            MemoryRegion {
                range: FrameRange::new(guest_paddr, guest_paddr + size),
                region_type: MemoryRegionType::Usable,
            },
        );
        Ok(())
    }

    /// Translates a guest-physical address to the host-virtual address
    /// backing it, through the first registered region that covers it;
    /// fails with `NoMappingForVirtualAddress` when none does.
    #[verifier::loop_isolation(false)]
    pub fn addr_gpa2hva(&self, guest_phys_addr: u64) -> (r: Result<u64, Error>)
        requires
            self.regions_wf(),
        ensures
            (match r {
                Ok(h) => exists|i: int|
                    0 <= i < self.userspace_mem_regions@.len() && gpa_in_region(
                        #[trigger] self.userspace_mem_regions@[i],
                        guest_phys_addr,
                    ) && h == self.userspace_mem_regions@[i].host_mem + (guest_phys_addr
                        - self.userspace_mem_regions@[i].guest_phys_addr) && (forall|j: int|
                        0 <= j < i ==> !gpa_in_region(
                            #[trigger] self.userspace_mem_regions@[j],
                            guest_phys_addr,
                        )),
                Err(e) => e.0 == ErrorKind::NoMappingForVirtualAddress && (forall|i: int|
                    0 <= i < self.userspace_mem_regions@.len() ==> !gpa_in_region(
                        #[trigger] self.userspace_mem_regions@[i],
                        guest_phys_addr,
                    )),
            }),
    {
        let n = self.userspace_mem_regions.len();
        let mut i: usize = 0;
        while i < n
            invariant
                i <= n,
                forall|j: int|
                    0 <= j < i ==> !gpa_in_region(
                        #[trigger] self.userspace_mem_regions@[j],
                        guest_phys_addr,
                    ),
            decreases n - i,
        {
            let region = self.userspace_mem_regions[i];
            if guest_phys_addr >= region.guest_phys_addr && guest_phys_addr
                <= region.guest_phys_addr + region.memory_size - 1 {
                return Ok(region.host_mem + (guest_phys_addr - region.guest_phys_addr));
            }
            i += 1;
        }
        Err(Error::new(ErrorKind::NoMappingForVirtualAddress))
    }

    /// The boot information to write into the boot-info page: the memory
    /// map sorted by start frame, the page-table root, and the physical
    /// memory offset.
    pub fn make_boot_info(&self) -> (r: BootInfo)
        ensures
            sorted_by_start(r.memory_map@),
            r.memory_map@.to_multiset() == self.frame_allocator.memory_map@.to_multiset(),
            r.recursive_page_table_addr == PML4_START,
            r.physical_memory_offset == PHYSICAL_MEMORY_OFFSET,
    {
        let mut map = self.frame_allocator.memory_map.duplicate();
        map.sort();
        BootInfo::new(map, PML4_START as u64, PHYSICAL_MEMORY_OFFSET)
    }
}

/// The guest-physical memory map the boot layout produces over `p` frames
/// of backing memory: the fixed low-memory carve-outs, with the remaining
/// `Usable` space above the first megabyte. The boot stack runs from
/// frame 31 (`BOOT_STACK_POINTER - BOOT_STACK_POINTER_SIZE`) up to frame
/// 256 (`HIMEM_START`), directly above the page-table blob, the
/// boot-info page and the syscall page.
pub open spec fn expected_boot_map(p: u64) -> Seq<MemoryRegion> {
    let usable_tail = MemoryRegion {
        range: FrameRange { start_frame_number: 256, end_frame_number: p },
        region_type: MemoryRegionType::Usable,
    };
    let frame_zero = MemoryRegion {
        range: FrameRange { start_frame_number: 0, end_frame_number: 1 },
        region_type: MemoryRegionType::FrameZero,
    };
    let low_reserved = MemoryRegion {
        range: FrameRange { start_frame_number: 1, end_frame_number: 9 },
        region_type: MemoryRegionType::Reserved,
    };
    let page_tables = MemoryRegion {
        range: FrameRange { start_frame_number: 9, end_frame_number: 16 },
        region_type: MemoryRegionType::PageTable,
    };
    let boot_info = MemoryRegion {
        range: FrameRange { start_frame_number: 16, end_frame_number: 17 },
        region_type: MemoryRegionType::BootInfo,
    };
    let syscall_page = MemoryRegion {
        range: FrameRange { start_frame_number: 17, end_frame_number: 18 },
        region_type: MemoryRegionType::SysCall,
    };
    let mid_reserved = MemoryRegion {
        range: FrameRange { start_frame_number: 18, end_frame_number: 31 },
        region_type: MemoryRegionType::Reserved,
    };
    let kernel_stack = MemoryRegion {
        range: FrameRange { start_frame_number: 31, end_frame_number: 256 },
        region_type: MemoryRegionType::KernelStack,
    };
    if p == 256 {
        seq![
            kernel_stack,
            frame_zero,
            low_reserved,
            page_tables,
            boot_info,
            syscall_page,
            mid_reserved,
        ]
    } else {
        seq![
            usable_tail,
            frame_zero,
            low_reserved,
            page_tables,
            boot_info,
            syscall_page,
            mid_reserved,
            kernel_stack,
        ]
    }
}

/// Creates the VM model over `phy_pages` frames of guest memory backed
/// by host memory at `host_mem`, carves out the fixed boot layout (zero
/// page, low reserve, page tables, boot-info page, syscall page, boot
/// stack) and builds the boot page tables.
///
/// A guest needs at least the low megabyte (256 frames): smaller non-zero
/// sizes fail with `NoMemFree`, zero frames build an empty model.
#[verifier::rlimit(60)]
pub fn vm_create(phy_pages: u64, host_mem: u64) -> (r: Result<(KvmVm, PageTables), Error>)
    requires
        phy_pages * PAGE_SIZE <= u64::MAX,
        host_mem + phy_pages * PAGE_SIZE <= u64::MAX,
    ensures
        (match r {
            Ok((vm, pt)) => {
                &&& built_tables(pt)
                &&& vm.page_size == PAGE_SIZE
                &&& vm.regions_wf()
                &&& (phy_pages == 0 ==> vm.frame_allocator.memory_map@ == Seq::<
                    MemoryRegion,
                >::empty() && vm.userspace_mem_regions@ == Seq::<UserspaceMemRegion>::empty()
                    && vm.syscall_hostvaddr is None)
                &&& (phy_pages != 0 ==> {
                    &&& vm.frame_allocator.memory_map@ == expected_boot_map(phy_pages)
                    &&& vm.userspace_mem_regions@ == seq![
                        (UserspaceMemRegion {
                            slot: 0u32,
                            flags: 0u32,
                            guest_phys_addr: 0u64,
                            memory_size: (phy_pages * PAGE_SIZE) as u64,
                            host_mem,
                        }),
                    ]
                    &&& vm.syscall_hostvaddr == Some((host_mem + SYSCALL_PHYS_ADDR) as u64)
                })
            },
            Err(e) => e.0 == ErrorKind::NoMemFree && 0 < phy_pages < 256,
        }),
        r is Ok <==> (phy_pages == 0 || phy_pages >= 256),
{
    let mut vm = KvmVm {
        page_size: PAGE_SIZE,
        frame_allocator: FrameAllocator { memory_map: MemoryMap::new() },
        userspace_mem_regions: Vec::new(),
        syscall_hostvaddr: None,
    };
    if phy_pages == 0 {
        let pt = setup_page_tables();
        return Ok((vm, pt));
    }
    if phy_pages < 256 {
        return Err(Error::new(ErrorKind::NoMemFree));
    }
    let res = vm.vm_userspace_mem_region_add(0, 0, phy_pages, 0, host_mem);
    proof {
        assert(res is Ok);
        assert((phy_pages * PAGE_SIZE - 1) / (PAGE_SIZE as int) + 1 == phy_pages) by (nonlinear_arith)
            requires
                256 <= phy_pages,
                phy_pages * PAGE_SIZE <= u64::MAX,
        ;
    }
    proof {
        assert(vm.frame_allocator.memory_map@ =~= seq![(MemoryRegion { range: FrameRange { start_frame_number: 0, end_frame_number: phy_pages }, region_type: MemoryRegionType::Usable })]);
    }
    proof {
        lemma_mark_carves_head(vm.frame_allocator.memory_map@, (MemoryRegion { range: FrameRange { start_frame_number: 0, end_frame_number: 1 }, region_type: MemoryRegionType::FrameZero }));
    }
    mark_boot_region(&mut vm.frame_allocator, 0, 1, MemoryRegionType::FrameZero);
    proof {
        assert(vm.frame_allocator.memory_map@ =~= seq![(MemoryRegion { range: FrameRange { start_frame_number: 1, end_frame_number: phy_pages }, region_type: MemoryRegionType::Usable }), (MemoryRegion { range: FrameRange { start_frame_number: 0, end_frame_number: 1 }, region_type: MemoryRegionType::FrameZero })]);
    }
    proof {
        lemma_mark_carves_head(vm.frame_allocator.memory_map@, (MemoryRegion { range: FrameRange { start_frame_number: 1, end_frame_number: 9 }, region_type: MemoryRegionType::Reserved }));
    }
    mark_boot_region(&mut vm.frame_allocator, 1, 9, MemoryRegionType::Reserved);
    proof {
        assert(vm.frame_allocator.memory_map@ =~= seq![(MemoryRegion { range: FrameRange { start_frame_number: 9, end_frame_number: phy_pages }, region_type: MemoryRegionType::Usable }), (MemoryRegion { range: FrameRange { start_frame_number: 0, end_frame_number: 1 }, region_type: MemoryRegionType::FrameZero }), (MemoryRegion { range: FrameRange { start_frame_number: 1, end_frame_number: 9 }, region_type: MemoryRegionType::Reserved })]);
    }
    proof {
        lemma_mark_carves_head(vm.frame_allocator.memory_map@, (MemoryRegion { range: FrameRange { start_frame_number: 9, end_frame_number: 16 }, region_type: MemoryRegionType::PageTable }));
    }
    mark_boot_region(&mut vm.frame_allocator, 9, 16, MemoryRegionType::PageTable);
    proof {
        assert(vm.frame_allocator.memory_map@ =~= seq![(MemoryRegion { range: FrameRange { start_frame_number: 16, end_frame_number: phy_pages }, region_type: MemoryRegionType::Usable }), (MemoryRegion { range: FrameRange { start_frame_number: 0, end_frame_number: 1 }, region_type: MemoryRegionType::FrameZero }), (MemoryRegion { range: FrameRange { start_frame_number: 1, end_frame_number: 9 }, region_type: MemoryRegionType::Reserved }), (MemoryRegion { range: FrameRange { start_frame_number: 9, end_frame_number: 16 }, region_type: MemoryRegionType::PageTable })]);
    }
    proof {
        lemma_mark_carves_head(vm.frame_allocator.memory_map@, (MemoryRegion { range: FrameRange { start_frame_number: 16, end_frame_number: 17 }, region_type: MemoryRegionType::BootInfo }));
    }
    mark_boot_region(&mut vm.frame_allocator, 16, 17, MemoryRegionType::BootInfo);
    proof {
        assert(vm.frame_allocator.memory_map@ =~= seq![(MemoryRegion { range: FrameRange { start_frame_number: 17, end_frame_number: phy_pages }, region_type: MemoryRegionType::Usable }), (MemoryRegion { range: FrameRange { start_frame_number: 0, end_frame_number: 1 }, region_type: MemoryRegionType::FrameZero }), (MemoryRegion { range: FrameRange { start_frame_number: 1, end_frame_number: 9 }, region_type: MemoryRegionType::Reserved }), (MemoryRegion { range: FrameRange { start_frame_number: 9, end_frame_number: 16 }, region_type: MemoryRegionType::PageTable }), (MemoryRegion { range: FrameRange { start_frame_number: 16, end_frame_number: 17 }, region_type: MemoryRegionType::BootInfo })]);
    }
    proof {
        lemma_mark_carves_head(vm.frame_allocator.memory_map@, (MemoryRegion { range: FrameRange { start_frame_number: 17, end_frame_number: 18 }, region_type: MemoryRegionType::SysCall }));
    }
    mark_boot_region(&mut vm.frame_allocator, 17, 18, MemoryRegionType::SysCall);
    proof {
        assert(vm.frame_allocator.memory_map@ =~= seq![(MemoryRegion { range: FrameRange { start_frame_number: 18, end_frame_number: phy_pages }, region_type: MemoryRegionType::Usable }), (MemoryRegion { range: FrameRange { start_frame_number: 0, end_frame_number: 1 }, region_type: MemoryRegionType::FrameZero }), (MemoryRegion { range: FrameRange { start_frame_number: 1, end_frame_number: 9 }, region_type: MemoryRegionType::Reserved }), (MemoryRegion { range: FrameRange { start_frame_number: 9, end_frame_number: 16 }, region_type: MemoryRegionType::PageTable }), (MemoryRegion { range: FrameRange { start_frame_number: 16, end_frame_number: 17 }, region_type: MemoryRegionType::BootInfo }), (MemoryRegion { range: FrameRange { start_frame_number: 17, end_frame_number: 18 }, region_type: MemoryRegionType::SysCall })]);
    }
    proof {
        lemma_mark_carves_head(vm.frame_allocator.memory_map@, (MemoryRegion { range: FrameRange { start_frame_number: 18, end_frame_number: 31 }, region_type: MemoryRegionType::Reserved }));
    }
    mark_boot_region(&mut vm.frame_allocator, 18, 31, MemoryRegionType::Reserved);
    proof {
        assert(vm.frame_allocator.memory_map@ =~= seq![(MemoryRegion { range: FrameRange { start_frame_number: 31, end_frame_number: phy_pages }, region_type: MemoryRegionType::Usable }), (MemoryRegion { range: FrameRange { start_frame_number: 0, end_frame_number: 1 }, region_type: MemoryRegionType::FrameZero }), (MemoryRegion { range: FrameRange { start_frame_number: 1, end_frame_number: 9 }, region_type: MemoryRegionType::Reserved }), (MemoryRegion { range: FrameRange { start_frame_number: 9, end_frame_number: 16 }, region_type: MemoryRegionType::PageTable }), (MemoryRegion { range: FrameRange { start_frame_number: 16, end_frame_number: 17 }, region_type: MemoryRegionType::BootInfo }), (MemoryRegion { range: FrameRange { start_frame_number: 17, end_frame_number: 18 }, region_type: MemoryRegionType::SysCall }), (MemoryRegion { range: FrameRange { start_frame_number: 18, end_frame_number: 31 }, region_type: MemoryRegionType::Reserved })]);
    }
    proof {
        lemma_mark_carves_head(vm.frame_allocator.memory_map@, (MemoryRegion { range: FrameRange { start_frame_number: 31, end_frame_number: 256 }, region_type: MemoryRegionType::KernelStack }));
    }
    mark_boot_region(&mut vm.frame_allocator, 31, 256, MemoryRegionType::KernelStack);
    vm.syscall_hostvaddr = Some(host_mem + SYSCALL_PHYS_ADDR);
    let pt = setup_page_tables();
    proof {
        assert(vm.frame_allocator.memory_map@ =~= expected_boot_map(phy_pages));
    }
    Ok((vm, pt))
}

/// A boot-layout mark carves the head `Usable` region: when every other
/// region is a finished carve-out (not `Usable`, and any of the request's
/// own type ending before the request starts), marking a non-`Usable`
/// request that begins exactly at the head region's start splits or
/// replaces the head, and nothing else.
proof fn lemma_mark_carves_head(s: Seq<MemoryRegion>, region: MemoryRegion)
    requires
        s.len() >= 1,
        s[0].region_type == MemoryRegionType::Usable,
        region.region_type != MemoryRegionType::Usable,
        region.range.start_frame_number == s[0].range.start_frame_number,
        region.range.start_frame_number < region.range.end_frame_number,
        region.range.end_frame_number <= s[0].range.end_frame_number,
        forall|i: int|
            1 <= i < s.len() ==> (#[trigger] s[i]).region_type != MemoryRegionType::Usable,
        forall|i: int|
            1 <= i < s.len() && (#[trigger] s[i]).region_type == region.region_type
                ==> s[i].range.end_frame_number < region.range.start_frame_number,
    ensures
        region.range.end_frame_number < s[0].range.end_frame_number
            ==> crate::frame_allocator::mark_allocated(s, region) == Ok::<
            Seq<MemoryRegion>,
            MarkError,
        >(
            s.update(
                0,
                crate::frame_allocator::with_start(s[0], region.range.end_frame_number),
            ).push(region),
        ),
        region.range.end_frame_number == s[0].range.end_frame_number
            ==> crate::frame_allocator::mark_allocated(s, region) == Ok::<
            Seq<MemoryRegion>,
            MarkError,
        >(s.update(0, region)),
{
    assert forall|i: int| !crate::frame_allocator::container_at(s, region, i) by {
        if 1 <= i < s.len() && s[i].region_type == region.region_type {
            assert(s[i].range.end_frame_number < region.range.end_frame_number);
        }
    }
    assert forall|i: int| !crate::frame_allocator::extender_at(s, region, i) by {
        if 1 <= i < s.len() && s[i].region_type == region.region_type {
            assert(s[i].range.end_frame_number != region.range.start_frame_number);
        }
    }
    assert(!crate::frame_allocator::has_container(s, region));
    assert(crate::frame_allocator::intersect_at(s, region, 0));
    crate::frame_allocator::lemma_first_intersect_is(s, region, 0);
    assert(!crate::frame_allocator::has_extender(s, region));
}

/// Marks `[start, end)` with `t`, requiring that the request provably
/// carves cleanly out of the map's `Usable` space.
fn mark_boot_region(fa: &mut FrameAllocator, start: u64, end: u64, t: MemoryRegionType)
    requires
        crate::frame_allocator::mark_allocated(
            old(fa).memory_map@,
            (MemoryRegion {
                range: FrameRange { start_frame_number: start, end_frame_number: end },
                region_type: t,
            }),
        ) is Ok,
    ensures
        Ok::<Seq<MemoryRegion>, MarkError>(final(fa).memory_map@)
            == crate::frame_allocator::mark_allocated(
            old(fa).memory_map@,
            (MemoryRegion {
                range: FrameRange { start_frame_number: start, end_frame_number: end },
                region_type: t,
            }),
        ),
{
    let region = MemoryRegion {
        range: FrameRange { start_frame_number: start, end_frame_number: end },
        region_type: t,
    };
    let res = fa.mark_allocated_region(region);
    proof {
        assert(res is Ok);
    }
}

/// The vCPU special-register state committed before the first run.
#[derive(Debug)]
pub struct SregsConfig {
    /// The four boot GDT entries: null, code, data, TSS.
    pub gdt_table: Vec<u64>,
    /// Guest-physical base of the GDT.
    pub gdt_base: u64,
    /// GDT limit in bytes minus one.
    pub gdt_limit: u16,
    /// Guest-physical base of the (single zero entry) IDT.
    pub idt_base: u64,
    /// IDT limit in bytes minus one.
    pub idt_limit: u16,
    /// Code segment register.
    pub cs: Segment,
    /// Data segment register, also loaded into ES.
    pub ds: Segment,
    /// Extra segment register.
    pub es: Segment,
    /// Task register.
    pub tr: Segment,
    /// Local descriptor table register, marked unusable.
    pub ldt: Segment,
    /// Control register zero: protected mode, numeric error, paging.
    pub cr0: u64,
    /// Bits to set in control register four: PAE and OSFXSR.
    pub cr4_or: u64,
    /// Bits to set in the extended-feature register: long mode active
    /// and enabled, no-execute.
    pub efer_or: u64,
    /// Control register three: the page-table root.
    pub cr3: u64,
}

/// The boot GDT entry flag word for the code segment.
pub const BOOT_CODE_FLAGS: u16 = 0xa09b;

/// The boot GDT entry flag word for the data segment.
pub const BOOT_DATA_FLAGS: u16 = 0xc093;

/// The boot GDT entry flag word for the TSS segment.
pub const BOOT_TSS_FLAGS: u16 = 0x808b;

/// The exact special-register state for entering 64-bit long mode: the
/// four-entry boot GDT, segment registers bit-for-bit consistent with it,
/// and `cr0`/`cr4`/`efer`/`cr3` set for paged long mode. The page tables
/// and the GDT must be in guest memory before this state is committed.
pub fn vcpu_sregs() -> (r: SregsConfig)
    ensures
        r.gdt_table@ == seq![
            spec_gdt_entry(0, 0, 0),
            spec_gdt_entry(BOOT_CODE_FLAGS, 0, 0xfffff),
            spec_gdt_entry(BOOT_DATA_FLAGS, 0, 0xfffff),
            spec_gdt_entry(BOOT_TSS_FLAGS, 0, 0xfffff),
        ],
        r.cs == spec_segment_from_gdt(spec_gdt_entry(BOOT_CODE_FLAGS, 0, 0xfffff), 1),
        r.ds == spec_segment_from_gdt(spec_gdt_entry(BOOT_DATA_FLAGS, 0, 0xfffff), 2),
        r.es == r.ds,
        r.tr == spec_segment_from_gdt(spec_gdt_entry(BOOT_TSS_FLAGS, 0, 0xfffff), 3),
        r.ldt.unusable == 1 && r.ldt.base == 0 && r.ldt.limit == 0 && r.ldt.selector == 0,
        r.gdt_base == BOOT_GDT_OFFSET,
        r.gdt_limit == 31,
        r.idt_base == BOOT_IDT_OFFSET,
        r.idt_limit == 7,
        r.cr0 == (X86_CR0_PE | X86_CR0_NE | X86_CR0_PG),
        r.cr4_or == (X86_CR4_PAE | X86_CR4_OSFXSR),
        r.efer_or == (EFER_LME | EFER_LMA | EFER_NX),
        r.cr3 == PML4_START,
{
    let e0 = gdt_entry(0, 0, 0);
    let e1 = gdt_entry(BOOT_CODE_FLAGS, 0, 0xfffff);
    let e2 = gdt_entry(BOOT_DATA_FLAGS, 0, 0xfffff);
    let e3 = gdt_entry(BOOT_TSS_FLAGS, 0, 0xfffff);
    let mut gdt_table: Vec<u64> = Vec::new();
    gdt_table.push(e0);
    gdt_table.push(e1);
    gdt_table.push(e2);
    gdt_table.push(e3);
    proof {
        assert(gdt_table@ =~= seq![
            spec_gdt_entry(0, 0, 0),
            spec_gdt_entry(BOOT_CODE_FLAGS, 0, 0xfffff),
            spec_gdt_entry(BOOT_DATA_FLAGS, 0, 0xfffff),
            spec_gdt_entry(BOOT_TSS_FLAGS, 0, 0xfffff),
        ]);
    }
    let code_seg = kvm_segment_from_gdt(e1, 1);
    let data_seg = kvm_segment_from_gdt(e2, 2);
    let tss_seg = kvm_segment_from_gdt(e3, 3);
    let ldt = Segment {
        base: 0,
        limit: 0,
        selector: 0,
        type_: 0,
        present: 0,
        dpl: 0,
        db: 0,
        s: 0,
        l: 0,
        g: 0,
        avl: 0,
        unusable: 1,
        padding: 0,
    };
    SregsConfig {
        gdt_table,
        gdt_base: BOOT_GDT_OFFSET as u64,
        gdt_limit: 31,
        idt_base: BOOT_IDT_OFFSET as u64,
        idt_limit: 7,
        cs: code_seg,
        ds: data_seg,
        es: data_seg,
        tr: tss_seg,
        ldt,
        cr0: X86_CR0_PE | X86_CR0_NE | X86_CR0_PG,
        cr4_or: X86_CR4_PAE | X86_CR4_OSFXSR,
        efer_or: EFER_LME | EFER_LMA | EFER_NX,
        cr3: PML4_START as u64,
    }
}

/// The vCPU general-purpose register state committed before the first
/// run.
#[derive(Clone, Copy, Debug, PartialEq, Eq, Structural)]
pub struct RegsConfig {
    /// Bits to set in RFLAGS (the always-one bit).
    pub rflags_or: u64,
    /// The boot stack pointer.
    pub rsp: u64,
    /// The entry point.
    pub rip: u64,
    /// First argument: the boot-info pointer, per the calling convention.
    pub rdi: u64,
}

/// The guest's initial general registers: entry point in RIP, boot stack
/// in RSP, and the boot-info pointer in RDI.
pub fn boot_regs(guest_code: u64) -> (r: RegsConfig)
    ensures
        r.rflags_or == 2,
        r.rsp == BOOT_STACK_POINTER,
        r.rip == guest_code,
        r.rdi == BOOTINFO_PHYS_ADDR,
{
    RegsConfig {
        rflags_or: 2,
        rsp: BOOT_STACK_POINTER,
        rip: guest_code,
        rdi: BOOTINFO_PHYS_ADDR,
    }
}

} // verus!
