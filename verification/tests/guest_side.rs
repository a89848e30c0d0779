//! The guest kernel's pieces: the syscall dispatcher decisions, the
//! platform memory-map boot path, flag registers and small helpers.

use vmrun::dispatch::{handle_syscall, unsupported_return, write_return, SyscallDecision};
use vmrun::e820::{boot_memory_map, HvmMemmapTableEntry, HvmMemmapTableEntryType};
use vmrun::errno;
use vmrun::bitfield::{PageBitfield, Rangefield};
use vmrun::layout::PHYSICAL_MEMORY_OFFSET;
use vmrun::memmap::MemoryRegionType;
use vmrun::pagesize;
use vmrun::xcr0::{XCr0, XCr0Flags, XCR0_SSE, XCR0_X87, XCR0_YMM};

#[test]
fn dispatcher_decides_each_syscall() {
    assert_eq!(handle_syscall(60, 0, 0, 0, 0, 0, 0, 0), SyscallDecision::Exit { success: true });
    assert_eq!(handle_syscall(231, 7, 0, 0, 0, 0, 0, 0), SyscallDecision::Exit { success: false });
    assert_eq!(
        handle_syscall(1, 1, 0x5000, 12, 0, 0, 0, 0),
        SyscallDecision::WriteConsole { fd: 1, data_ptr: 0x5000, len: 12 }
    );
    assert_eq!(
        handle_syscall(1, 7, 0x5000, 12, 0, 0, 0, 0),
        SyscallDecision::ReturnValue { value: (-77i64) as usize }
    );
    assert_eq!(
        handle_syscall(158, 0x1002, 0xAAAA, 0, 0, 0, 0, 0),
        SyscallDecision::SetFsBase { base: 0xAAAA }
    );
    assert_eq!(
        handle_syscall(158, 0x1003, 0, 0, 0, 0, 0, 0),
        SyscallDecision::Unsupported { nr: 158 }
    );
    assert_eq!(
        handle_syscall(158, 0x9999, 0, 0, 0, 0, 0, 0),
        SyscallDecision::ReturnValue { value: (-22i64) as usize }
    );
    assert_eq!(handle_syscall(9, 0, 4096, 0, 0, 0, 0, 0), SyscallDecision::MmapUser { len: 4096 });
    assert_eq!(
        handle_syscall(9, 0x1000, 4096, 0, 0, 0, 0, 0),
        SyscallDecision::Unsupported { nr: 9 }
    );
    assert_eq!(handle_syscall(12, 0, 0, 0, 0, 0, 0, 0x8000), SyscallDecision::BrkQuery);
    assert_eq!(
        handle_syscall(12, 0x9000, 0, 0, 0, 0, 0, 0x8000),
        SyscallDecision::BrkGrow { grow: 0x1000, target: 0x9000 }
    );
    assert_eq!(handle_syscall(63, 0x7000, 0, 0, 0, 0, 0, 0), SyscallDecision::FillUname {
        buf: 0x7000,
    });
    assert_eq!(
        handle_syscall(89, 1, 2, 3, 0, 0, 0, 0),
        SyscallDecision::FillReadlink { path_ptr: 1, buf: 2, buf_len: 3 }
    );
    assert_eq!(handle_syscall(13, 0, 0, 0, 0, 0, 0, 0), SyscallDecision::ReturnValue { value: 0 });
    assert_eq!(
        handle_syscall(218, 0, 0, 0, 0, 0, 0, 0),
        SyscallDecision::ReturnValue { value: 63618 }
    );
    assert_eq!(
        handle_syscall(16, 1, 0x5413, 0x6000, 0, 0, 0, 0),
        SyscallDecision::FillWinsize { buf: 0x6000 }
    );
    assert_eq!(
        handle_syscall(16, 2, 0, 0, 0, 0, 0, 0),
        SyscallDecision::ReturnValue { value: (-22i64) as usize }
    );
    assert_eq!(handle_syscall(9999, 0, 0, 0, 0, 0, 0, 0), SyscallDecision::Unsupported {
        nr: 9999,
    });
}

#[test]
fn write_and_unsupported_returns() {
    assert_eq!(write_return(true, 42), 42);
    assert_eq!(write_return(false, 42), (-22i64) as usize);
    assert_eq!(unsupported_return(), (-errno::ENOSYS) as usize);
}

#[test]
fn e820_entry_types_decode() {
    let e = |t: u32| HvmMemmapTableEntry { addr: 0, size: 0, entry_type: t, reserved: 0 };
    assert_eq!(e(1).get_type(), HvmMemmapTableEntryType::RAM);
    assert_eq!(e(2).get_type(), HvmMemmapTableEntryType::Reserved);
    assert_eq!(e(3).get_type(), HvmMemmapTableEntryType::ACPI);
    assert_eq!(e(4).get_type(), HvmMemmapTableEntryType::NVS);
    assert_eq!(e(5).get_type(), HvmMemmapTableEntryType::Unusable);
    assert_eq!(e(6).get_type(), HvmMemmapTableEntryType::Disabled);
    assert_eq!(e(7).get_type(), HvmMemmapTableEntryType::PMEM);
    assert_eq!(e(99).get_type(), HvmMemmapTableEntryType::Unknown);
}

#[test]
fn e820_boot_map_marks_the_fixed_regions() {
    let entries = vec![
        HvmMemmapTableEntry { addr: 0, size: 0x800_0000, entry_type: 1, reserved: 0 },
        HvmMemmapTableEntry { addr: 0x1000_0000, size: 0x123, entry_type: 2, reserved: 0 },
    ];
    let kernel_start = 0x20_0000;
    let kernel_end = 0x40_0000;
    let stack_ptr = 0x60_0000;
    let app_start = PHYSICAL_MEMORY_OFFSET + 0x80_0000;
    let app_end = PHYSICAL_MEMORY_OFFSET + 0x90_0000;
    let mut map =
        boot_memory_map(&entries, kernel_start, kernel_end, stack_ptr, app_start, app_end)
            .unwrap();
    map.sort();
    let mut kinds = Vec::new();
    for i in 0..map.len() {
        let r = map.get(i);
        kinds.push((r.range.start_frame_number, r.range.end_frame_number, r.region_type));
    }
    assert_eq!(
        kinds,
        vec![
            (0x0, 0x10, MemoryRegionType::Reserved),
            (0x10, 0x11, MemoryRegionType::Usable),
            (0x11, 0x12, MemoryRegionType::SysCall),
            (0x12, 0x200, MemoryRegionType::Usable),
            (0x200, 0x400, MemoryRegionType::Kernel),
            (0x400, 0x600, MemoryRegionType::Usable),
            (0x600, 0x60F, MemoryRegionType::KernelStack),
            (0x60F, 0x800, MemoryRegionType::Usable),
            (0x800, 0x900, MemoryRegionType::App),
            (0x900, 0x8000, MemoryRegionType::Usable),
        ]
    );
}

#[test]
fn e820_conflict_is_fatal() {
    // The kernel image straddles the low reserved area: a double claim.
    let entries = vec![HvmMemmapTableEntry { addr: 0, size: 0x800_0000, entry_type: 1, reserved: 0 }];
    let r = boot_memory_map(
        &entries,
        0x8000,
        0x2_0000,
        0x60_0000,
        PHYSICAL_MEMORY_OFFSET + 0x80_0000,
        PHYSICAL_MEMORY_OFFSET + 0x90_0000,
    );
    assert!(r.is_err());
}

#[test]
fn xcr0_write_value_forces_required_bits() {
    let flags = XCr0Flags::from_bits_truncate(0xFF);
    assert_eq!(flags.bits, XCR0_X87 | XCR0_SSE | XCR0_YMM);
    assert!(flags.contains(XCR0_SSE));
    // YMM without SSE: writing must force SSE and x87 on, keep reserved bits.
    let v = XCr0::write_value(0xF0, XCr0Flags { bits: XCR0_YMM });
    assert_eq!(v, 0xF0 | XCR0_X87 | XCR0_SSE | XCR0_YMM);
    let v = XCr0::write_value(0, XCr0Flags { bits: 0 });
    assert_eq!(v, XCR0_X87);
}

#[test]
fn rangefield_lookup() {
    let mut rf = Rangefield::new();
    rf.push(10, 20);
    rf.push(30, 40);
    assert!(rf.is_set_num(10, 10));
    assert!(rf.is_set_num(12, 3));
    assert!(!rf.is_set_num(18, 5));
    assert!(!rf.is_set_num(25, 1));
    // The first range starting past the probe with enough indices wins.
    assert_eq!(rf.next_set_num(0, 5), Some(10));
    assert_eq!(rf.next_set_num(0, 15), None);
    assert_eq!(rf.next_set_num(15, 5), Some(30));
    assert_eq!(rf.next_set_num(30, 5), None);
    assert_eq!(rf.next_set_num(usize::MAX - 1, 5), None);
}

#[test]
fn pagesize_is_one_frame() {
    assert_eq!(pagesize(), 4096);
}

#[test]
fn strlen_finds_the_first_nul() {
    assert_eq!(vmrun::strlen::strlen(&b"init\0tail".to_vec()), Some(4));
    assert_eq!(vmrun::strlen::strlen(&b"\0".to_vec()), Some(0));
    assert_eq!(vmrun::strlen::strlen(&b"no terminator".to_vec()), None);
    assert_eq!(vmrun::strlen::strlen(&Vec::new()), None);
}

#[test]
fn page_bitfield_tracks_claimed_spans() {
    let mut bf = PageBitfield::new();
    assert_eq!(bf.next_clear(4), Some(5));
    bf.set_range(10, 4);
    assert!(!bf.is_clear_num(10, 4));
    assert!(!bf.is_clear_num(12, 5));
    assert!(bf.is_clear_num(14, 6));
    assert_eq!(bf.next_set(0), Some(10));
    assert_eq!(bf.next_set(10), Some(11));
    assert_eq!(bf.next_clear(9), Some(14));
    // Runs are found past the claimed span.
    assert_eq!(bf.next_clear_num(9, 3), Some(14));
    assert_eq!(bf.find_unset_range(10, 2), Some(14));
    assert_eq!(bf.find_unset_range(0, 11), Some(14));
    assert_eq!(bf.find_unset_range(0, 5), Some(0));
}
