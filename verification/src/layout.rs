//! The fixed guest-physical memory layout.
//!
//! All offsets are hard coded and must stay bit-exact: the guest's first
//! instruction fetch walks the page tables at `PML4_START`, the boot stack
//! sits just under the 1 MiB boundary, and the boot-info and syscall pages
//! follow the page-table blob.

use vstd::prelude::*;

verus! {

/// Size of one frame (and of one page) in bytes.
pub const PAGE_SIZE: usize = 4096;

/// Guest-physical offset of the boot GDT.
pub const BOOT_GDT_OFFSET: usize = 0x500;

/// Guest-physical offset of the boot IDT.
pub const BOOT_IDT_OFFSET: usize = 0x520;

/// Guest-physical address of the PML4 (level-4) table.
pub const PML4_START: usize = 0x9000;

/// Guest-physical address of the identity-mapping PDPT (level-3) table.
pub const PDPTE_START: usize = 0xA000;

/// Guest-physical address of the first of four identity-mapping PD
/// (level-2) tables; the four tables are contiguous.
pub const PDE_START: usize = 0xB000;

/// Guest-physical address of the offset-mapping PDPT (level-3) table.
pub const PDPTE_OFFSET_START: usize = 0xF000;

/// Total size in bytes of the page-table blob: one PML4, one identity PDPT,
/// four identity PDs and one offset PDPT, each of 512 eight-byte entries.
pub const PAGETABLE_LEN: u64 = 7 * 512 * 8;

/// Guest-physical address of the boot-info page, directly after the
/// page-table blob.
pub const BOOTINFO_PHYS_ADDR: u64 = 0x9000 + 7 * 512 * 8;

/// Guest-physical address of the shared syscall page, directly after the
/// boot-info page.
pub const SYSCALL_PHYS_ADDR: u64 = BOOTINFO_PHYS_ADDR + 0x1000;

/// Start of high memory (1 MiB).
pub const HIMEM_START: usize = 0x0010_0000;

/// Initial guest stack pointer, one page under `HIMEM_START`.
pub const BOOT_STACK_POINTER: u64 = 0x0010_0000 - 0x1000;

/// Size reserved for the boot stack.
pub const BOOT_STACK_POINTER_SIZE: u64 = 0xE0000;

/// Offset at which all of guest-physical memory is mapped a second time:
/// guest-physical address `p` is also visible at virtual `p + offset`.
pub const PHYSICAL_MEMORY_OFFSET: u64 = 0xFFFF_8000_0000_0000;

/// The I/O port on which the guest and the host rendezvous for the
/// syscall proxy protocol.
pub const SYSCALL_TRIGGER_PORT: u16 = 0xFF;

/// The I/O port the guest writes its exit code to.
pub const HYPERVISOR_EXIT_PORT: u16 = 0xF4;

/// The I/O port for serial output.
pub const SERIAL_PORT: u16 = 0x3F8;

} // verus!
