//! A verified model of a minimal KVM-style hypervisor / guest-kernel pair:
//! a typed guest-physical frame allocator, boot page-table construction,
//! GDT / segment setup, the VM build sequence, the VM-exit dispatch loop,
//! and the guest/host syscall proxy protocol with its wire format.

use vstd::prelude::*;

pub mod alloc_laws;
pub mod bitfield;
pub mod bootinfo;
pub mod dispatch;
pub mod e820;
pub mod elf;
pub mod errno;
pub mod error;
pub mod frame_allocator;
pub mod gdt;
pub mod kvm_gdt;
pub mod kvm;
pub mod layout;
pub mod memmap;
pub mod pagetables;
pub mod proxy;
pub mod strlen;
pub mod vmexit;
pub mod vmsyscall;
pub mod wire;
pub mod xcr0;

verus! {

/// Granularity of guest-physical memory management, in bytes.
pub fn pagesize() -> (r: usize)
    ensures
        r == layout::PAGE_SIZE,
{
    layout::PAGE_SIZE
}

} // verus!
