//! The VM build sequence: the boot memory layout, region bookkeeping,
//! address translation, vCPU register state and boot information.

use vmrun::bootinfo::BootInfo;
use vmrun::error::ErrorKind;
use vmrun::kvm::{boot_regs, vcpu_sregs, vm_create};
use vmrun::layout::{
    BOOTINFO_PHYS_ADDR, BOOT_GDT_OFFSET, BOOT_STACK_POINTER, PAGE_SIZE, PML4_START,
    PHYSICAL_MEMORY_OFFSET, SYSCALL_PHYS_ADDR,
};
use vmrun::memmap::{FrameRange, MemoryRegion, MemoryRegionType};

fn region(start: u64, end: u64, t: MemoryRegionType) -> MemoryRegion {
    MemoryRegion {
        range: FrameRange { start_frame_number: start, end_frame_number: end },
        region_type: t,
    }
}

#[test]
fn vm_create_lays_out_the_boot_map() {
    let host_base = 0x7000_0000_0000u64;
    let (vm, pt) = vm_create(25600, host_base).unwrap();
    assert_eq!(pt.pml4t.len(), 512);
    let mut got = Vec::new();
    for i in 0..vm.frame_allocator.memory_map.len() {
        got.push(vm.frame_allocator.memory_map.get(i));
    }
    assert_eq!(
        got,
        vec![
            region(256, 25600, MemoryRegionType::Usable),
            region(0, 1, MemoryRegionType::FrameZero),
            region(1, 9, MemoryRegionType::Reserved),
            region(9, 16, MemoryRegionType::PageTable),
            region(16, 17, MemoryRegionType::BootInfo),
            region(17, 18, MemoryRegionType::SysCall),
            region(18, 31, MemoryRegionType::Reserved),
            region(31, 256, MemoryRegionType::KernelStack),
        ]
    );
    assert_eq!(vm.syscall_hostvaddr, Some(host_base + SYSCALL_PHYS_ADDR));
    assert_eq!(vm.userspace_mem_regions.len(), 1);
    let r = vm.userspace_mem_regions[0];
    assert_eq!(r.guest_phys_addr, 0);
    assert_eq!(r.memory_size, 25600 * PAGE_SIZE as u64);
    assert_eq!(r.host_mem, host_base);
}

#[test]
fn vm_create_needs_the_low_megabyte() {
    let err = vm_create(100, 0).unwrap_err();
    assert_eq!(*err.kind(), ErrorKind::NoMemFree);
}

#[test]
fn region_add_checks_slots_and_overlap() {
    let (mut vm, _pt) = vm_create(25600, 0x7000_0000_0000).unwrap();
    let err = vm
        .vm_userspace_mem_region_add(0x4000_0000, 0, 16, 0, 0x7100_0000_0000)
        .unwrap_err();
    assert_eq!(*err.kind(), ErrorKind::MemRegionWithSlotAlreadyExists);
    let err = vm
        .vm_userspace_mem_region_add(0x0100_0000, 1, 16, 0, 0x7100_0000_0000)
        .unwrap_err();
    assert_eq!(*err.kind(), ErrorKind::OverlappingUserspaceMemRegionExists);
}

#[test]
fn gpa_to_hva_translation() {
    let host_base = 0x7000_0000_0000u64;
    let (vm, _pt) = vm_create(25600, host_base).unwrap();
    assert_eq!(vm.addr_gpa2hva(0).unwrap(), host_base);
    assert_eq!(
        vm.addr_gpa2hva(SYSCALL_PHYS_ADDR).unwrap(),
        host_base + SYSCALL_PHYS_ADDR
    );
    let err = vm.addr_gpa2hva(25600 * PAGE_SIZE as u64).unwrap_err();
    assert_eq!(*err.kind(), ErrorKind::NoMappingForVirtualAddress);
}

#[test]
fn vcpu_state_for_long_mode() {
    let sregs = vcpu_sregs();
    assert_eq!(sregs.gdt_table, vec![
        0,
        0x00af_9b00_0000_ffff,
        0x00cf_9300_0000_ffff,
        0x008f_8b00_0000_ffff,
    ]);
    assert_eq!(sregs.gdt_base, BOOT_GDT_OFFSET as u64);
    assert_eq!(sregs.gdt_limit, 31);
    assert_eq!(sregs.cs.selector, 8);
    assert_eq!(sregs.ds.selector, 16);
    assert_eq!(sregs.es, sregs.ds);
    assert_eq!(sregs.tr.selector, 24);
    assert_eq!(sregs.ldt.unusable, 1);
    assert_eq!(sregs.cr0, 0x8000_0021);
    assert_eq!(sregs.cr4_or, 0x220);
    assert_eq!(sregs.efer_or, 0xD00);
    assert_eq!(sregs.cr3, PML4_START as u64);

    let regs = boot_regs(0x20_0000);
    assert_eq!(regs.rflags_or, 2);
    assert_eq!(regs.rsp, BOOT_STACK_POINTER);
    assert_eq!(regs.rip, 0x20_0000);
    assert_eq!(regs.rdi, BOOTINFO_PHYS_ADDR);
}

#[test]
fn boot_info_is_sorted() {
    let (vm, _pt) = vm_create(25600, 0x7000_0000_0000).unwrap();
    let info = vm.make_boot_info();
    assert_eq!(info.recursive_page_table_addr, PML4_START as u64);
    assert_eq!(info.physical_memory_offset, PHYSICAL_MEMORY_OFFSET);
    let mut prev = 0;
    for i in 0..info.memory_map.len() {
        let r = info.memory_map.get(i);
        assert!(r.range.start_frame_number >= prev);
        prev = r.range.start_frame_number;
    }
    assert_eq!(info.memory_map.len(), 8);
}

#[test]
fn check_bootinfo_size() {
    assert!(core::mem::size_of::<BootInfo>() <= PAGE_SIZE);
}

/// A minimal 64-bit ELF image: one loadable segment of eight file bytes
/// and an eight-byte zeroed tail at `0x20_0000`.
fn tiny_elf() -> Vec<u8> {
    tiny_elf_at(0x20_0000)
}

fn tiny_elf_at(vaddr: u64) -> Vec<u8> {
    let mut e = Vec::new();
    // Identification: magic, 64-bit, little-endian, version 1.
    e.extend_from_slice(&[0x7f, b'E', b'L', b'F', 2, 1, 1, 0, 0, 0, 0, 0, 0, 0, 0, 0]);
    e.extend_from_slice(&2u16.to_le_bytes()); // executable
    e.extend_from_slice(&0x3Eu16.to_le_bytes()); // x86-64
    e.extend_from_slice(&1u32.to_le_bytes()); // version
    e.extend_from_slice(&vaddr.to_le_bytes()); // entry point
    e.extend_from_slice(&64u64.to_le_bytes()); // program header offset
    e.extend_from_slice(&0u64.to_le_bytes()); // no section headers
    e.extend_from_slice(&0u32.to_le_bytes()); // flags
    e.extend_from_slice(&64u16.to_le_bytes()); // header size
    e.extend_from_slice(&56u16.to_le_bytes()); // program header size
    e.extend_from_slice(&1u16.to_le_bytes()); // one program header
    e.extend_from_slice(&0u16.to_le_bytes()); // section header size
    e.extend_from_slice(&0u16.to_le_bytes()); // no sections
    e.extend_from_slice(&0u16.to_le_bytes()); // no string section
    assert_eq!(e.len(), 64);
    e.extend_from_slice(&1u32.to_le_bytes()); // PT_LOAD
    e.extend_from_slice(&5u32.to_le_bytes()); // readable, executable
    e.extend_from_slice(&120u64.to_le_bytes()); // file offset
    e.extend_from_slice(&vaddr.to_le_bytes()); // virtual address
    e.extend_from_slice(&vaddr.to_le_bytes()); // physical address
    e.extend_from_slice(&8u64.to_le_bytes()); // file size
    e.extend_from_slice(&16u64.to_le_bytes()); // memory size
    e.extend_from_slice(&0x1000u64.to_le_bytes()); // alignment
    assert_eq!(e.len(), 120);
    e.extend_from_slice(&[0x90, 0x90, 0x90, 0x90, 0x90, 0x90, 0x90, 0xF4]);
    e
}

#[test]
fn elf_load_marks_kernel_frames_and_emits_copy_commands() {
    let (mut vm, _pt) = vm_create(25600, 0x7000_0000_0000).unwrap();
    let image = tiny_elf();
    let (entry, cmds) = vm.elf_load(&image, None).unwrap();
    assert_eq!(entry, 0x20_0000);
    assert_eq!(cmds.len(), 1);
    assert_eq!(cmds[0].dest_gpa, 0x20_0000);
    assert_eq!(cmds[0].file_offset, 120);
    assert_eq!(cmds[0].file_len, 8);
    assert_eq!(cmds[0].zero_len, 8);
    // The segment's frame is now claimed by the kernel.
    let mut found = false;
    for i in 0..vm.frame_allocator.memory_map.len() {
        let r = vm.frame_allocator.memory_map.get(i);
        if r.region_type == MemoryRegionType::Kernel {
            assert_eq!(r.range.start_frame_number, 0x200);
            assert_eq!(r.range.end_frame_number, 0x201);
            found = true;
        }
    }
    assert!(found);
    // Re-loading the identical image finds its frames already Kernel:
    // the allocator treats it as a no-op.
    assert!(vm.elf_load(&image, None).is_ok());
    // An image whose segment lands on the boot-info page is a true
    // conflict and fatal.
    let err = vm.elf_load(&tiny_elf_at(0x10000), None).unwrap_err();
    assert_eq!(*err.kind(), ErrorKind::RegionConflict);
}

#[test]
fn elf_load_rejects_garbage() {
    let (mut vm, _pt) = vm_create(25600, 0x7000_0000_0000).unwrap();
    let before = map_snapshot(&vm);
    let err = vm.elf_load(&vec![0u8; 200], None).unwrap_err();
    assert_eq!(*err.kind(), ErrorKind::ElfHeaderInvalid);
    // A named entry symbol that the image does not define.
    let image = tiny_elf();
    let err = vm.elf_load(&image, Some(&b"missing_symbol".to_vec())).unwrap_err();
    assert_eq!(*err.kind(), ErrorKind::GuestCodeNotFound);
    // Failed loads leave the memory map untouched.
    assert_eq!(map_snapshot(&vm), before);
}

fn map_snapshot(vm: &vmrun::kvm::KvmVm) -> Vec<MemoryRegion> {
    let mut out = Vec::new();
    for i in 0..vm.frame_allocator.memory_map.len() {
        out.push(vm.frame_allocator.memory_map.get(i));
    }
    out
}
