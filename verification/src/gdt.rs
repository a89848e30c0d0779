//! The guest kernel's Global Descriptor Table: segment descriptors,
//! selectors, and the boot-time table layout for 64-bit long mode.

use vstd::prelude::*;

verus! {

/// Descriptor flag: writable data segment.
pub const DESC_WRITABLE: u64 = 1 << 41;

/// Descriptor flag: executable (code) segment.
pub const DESC_EXECUTABLE: u64 = 1 << 43;

/// Descriptor flag: code or data segment, not a system segment.
pub const DESC_USER_SEGMENT: u64 = 1 << 44;

/// Descriptor flag: descriptor privilege level 3.
pub const DESC_DPL_RING_3: u64 = 3 << 45;

/// Descriptor flag: present.
pub const DESC_PRESENT: u64 = 1 << 47;

/// Descriptor flag: 64-bit code segment.
pub const DESC_LONG_MODE: u64 = 1 << 53;

/// A privilege ring.
#[derive(Clone, Copy, Debug, PartialEq, Eq, Structural)]
pub enum PrivilegeLevel {
    /// Kernel mode.
    Ring0,
    /// Unused intermediate ring.
    Ring1,
    /// Unused intermediate ring.
    Ring2,
    /// User mode.
    Ring3,
}

/// The numeric requested-privilege-level bits of `l`.
pub open spec fn rpl_bits(l: PrivilegeLevel) -> u16 {
    match l {
        PrivilegeLevel::Ring0 => 0,
        PrivilegeLevel::Ring1 => 1,
        PrivilegeLevel::Ring2 => 2,
        PrivilegeLevel::Ring3 => 3,
    }
}

/// An index into the GDT together with a requested privilege level.
#[derive(Clone, Copy, Debug, PartialEq, Eq, Structural)]
pub struct SegmentSelector(pub u16);

impl SegmentSelector {
    /// The selector for table entry `index` at privilege `rpl`.
    pub fn new(index: u16, rpl: PrivilegeLevel) -> (r: SegmentSelector)
        requires
            index < 0x2000,
        ensures
            r.0 == (index << 3) | rpl_bits(rpl),
            r.0 >> 3 == index,
            r.0 & 3 == rpl_bits(rpl),
    {
        let bits = match rpl {
            PrivilegeLevel::Ring0 => 0u16,
            PrivilegeLevel::Ring1 => 1u16,
            PrivilegeLevel::Ring2 => 2u16,
            PrivilegeLevel::Ring3 => 3u16,
        };
        let v = (index << 3) | bits;
        proof {
            assert(index < 0x2000 && bits < 4 ==> ((index << 3) | bits) >> 3 == index && ((index
                << 3) | bits) & 3 == bits) by (bit_vector);
        }
        SegmentSelector(v)
    }

    /// The table index this selector names.
    pub fn index(&self) -> (r: u16)
        ensures
            r == self.0 >> 3,
    {
        self.0 >> 3
    }
}

/// A segment descriptor: either a one-entry code/data descriptor or a
/// two-entry system descriptor (such as a TSS descriptor).
#[derive(Clone, Copy, Debug, PartialEq, Eq, Structural)]
pub enum Descriptor {
    /// A code or data segment descriptor.
    UserSegment(u64),
    /// A system descriptor, low and high quadword.
    SystemSegment(u64, u64),
}

impl Descriptor {
    /// The 64-bit kernel code segment.
    pub fn kernel_code_segment() -> (r: Descriptor)
        ensures
            r == Descriptor::UserSegment(
                DESC_USER_SEGMENT | DESC_PRESENT | DESC_EXECUTABLE | DESC_LONG_MODE,
            ),
    {
        Descriptor::UserSegment(DESC_USER_SEGMENT | DESC_PRESENT | DESC_EXECUTABLE | DESC_LONG_MODE)
    }

    /// The 64-bit kernel data segment.
    pub fn kernel_data_segment() -> (r: Descriptor)
        ensures
            r == Descriptor::UserSegment(
                DESC_USER_SEGMENT | DESC_PRESENT | DESC_WRITABLE | DESC_LONG_MODE,
            ),
    {
        Descriptor::UserSegment(DESC_USER_SEGMENT | DESC_PRESENT | DESC_WRITABLE | DESC_LONG_MODE)
    }

    /// The ring-3 code segment.
    pub fn user_code_segment() -> (r: Descriptor)
        ensures
            r == Descriptor::UserSegment(
                DESC_USER_SEGMENT | DESC_PRESENT | DESC_EXECUTABLE | DESC_LONG_MODE
                    | DESC_DPL_RING_3,
            ),
    {
        Descriptor::UserSegment(
            DESC_USER_SEGMENT | DESC_PRESENT | DESC_EXECUTABLE | DESC_LONG_MODE | DESC_DPL_RING_3,
        )
    }

    /// The ring-3 data segment.
    pub fn user_data_segment() -> (r: Descriptor)
        ensures
            r == Descriptor::UserSegment(
                DESC_USER_SEGMENT | DESC_PRESENT | DESC_WRITABLE | DESC_DPL_RING_3,
            ),
    {
        Descriptor::UserSegment(DESC_USER_SEGMENT | DESC_PRESENT | DESC_WRITABLE | DESC_DPL_RING_3)
    }

    /// The two-part TSS descriptor for a task-state segment of the
    /// architectural 0x68 bytes at `tss_addr`.
    pub fn tss_segment(tss_addr: u64) -> (r: Descriptor)
        ensures
            r == Descriptor::SystemSegment(
                DESC_PRESENT | 0x67 | ((tss_addr & 0xFF_FFFF) << 16) | (0x9u64 << 40) | (((tss_addr
                    >> 24) & 0xFF) << 56),
                (tss_addr >> 32) & 0xFFFF_FFFF,
            ),
    {
        let low = DESC_PRESENT | 0x67 | ((tss_addr & 0xFF_FFFF) << 16) | (0x9u64 << 40) | (((
        tss_addr >> 24) & 0xFF) << 56);
        let high = (tss_addr >> 32) & 0xFFFF_FFFF;
        Descriptor::SystemSegment(low, high)
    }
}

/// A 64-bit mode GDT of nine entries; the null descriptor at index zero
/// is always present, further entries are pushed in order.
#[derive(Debug)]
pub struct GlobalDescriptorTable {
    table: Vec<u64>,
    next_free: usize,
}

impl GlobalDescriptorTable {
    /// The entries, including empty slots.
    pub closed spec fn entries(&self) -> Seq<u64> {
        self.table@
    }

    /// The index the next descriptor will take.
    pub closed spec fn free_slot(&self) -> int {
        self.next_free as int
    }

    /// The table has its fixed size, the null entry, and all free slots
    /// still zero.
    pub open spec fn wf(&self) -> bool {
        self.entries().len() == 9 && 1 <= self.free_slot() <= 9 && self.entries()[0] == 0
    }

    /// An empty GDT: the null descriptor and eight free slots.
    pub fn new() -> (r: GlobalDescriptorTable)
        ensures
            r.wf(),
            r.free_slot() == 1,
            forall|i: int| 0 <= i < 9 ==> r.entries()[i] == 0,
    {
        let mut table: Vec<u64> = Vec::new();
        let mut i: usize = 0;
        while i < 9
            invariant
                i <= 9,
                table@.len() == i,
                forall|j: int| 0 <= j < i ==> table@[j] == 0,
            decreases 9 - i,
        {
            table.push(0);
            i += 1;
        }
        GlobalDescriptorTable { table, next_free: 1 }
    }

    /// Appends one raw descriptor quadword, returning its index.
    fn push(&mut self, value: u64) -> (index: usize)
        requires
            old(self).wf(),
            old(self).free_slot() < 9,
        ensures
            final(self).wf(),
            index == old(self).free_slot(),
            final(self).entries() == old(self).entries().update(index as int, value),
            final(self).free_slot() == old(self).free_slot() + 1,
    {
        let index = self.next_free;
        self.table.set(index, value);
        self.next_free = index + 1;
        index
    }

    /// Adds a descriptor, returning the selector that names it. The
    /// requested privilege level of the selector is ring 3 exactly when
    /// the descriptor asks for descriptor privilege level 3.
    pub fn add_entry(&mut self, entry: Descriptor) -> (r: SegmentSelector)
        requires
            old(self).wf(),
            old(self).free_slot() + 2 <= 9 || (entry is UserSegment && old(self).free_slot() + 1
                <= 9),
        ensures
            final(self).wf(),
            (match entry {
                Descriptor::UserSegment(value) => {
                    &&& final(self).entries() == old(self).entries().update(
                        old(self).free_slot(),
                        value,
                    )
                    &&& final(self).free_slot() == old(self).free_slot() + 1
                    &&& r.0 == ((old(self).free_slot() as u16) << 3) | (if value & DESC_DPL_RING_3
                        == DESC_DPL_RING_3 {
                        3
                    } else {
                        0
                    })
                },
                Descriptor::SystemSegment(low, high) => {
                    &&& final(self).entries() == old(self).entries().update(
                        old(self).free_slot(),
                        low,
                    ).update(old(self).free_slot() + 1, high)
                    &&& final(self).free_slot() == old(self).free_slot() + 2
                    &&& r.0 == ((old(self).free_slot() as u16) << 3)
                },
            }),
            r.0 >> 3 == old(self).free_slot(),
    {
        match entry {
            Descriptor::UserSegment(value) => {
                let index = self.push(value);
                let rpl = if value & DESC_DPL_RING_3 == DESC_DPL_RING_3 {
                    PrivilegeLevel::Ring3
                } else {
                    PrivilegeLevel::Ring0
                };
                SegmentSelector::new(index as u16, rpl)
            },
            Descriptor::SystemSegment(low, high) => {
                let index = self.push(low);
                let _ = self.push(high);
                let sel = SegmentSelector::new(index as u16, PrivilegeLevel::Ring0);
                proof {
                    let ix = index as u16;
                    assert((ix << 3) | 0 == ix << 3) by (bit_vector);
                }
                sel
            },
        }
    }
}

/// The selectors of the guest kernel's boot GDT layout.
#[derive(Clone, Copy, Debug)]
pub struct Selectors {
    /// Kernel code.
    pub code_selector: SegmentSelector,
    /// Kernel data.
    pub data_selector: SegmentSelector,
    /// User data.
    pub user_data_selector: SegmentSelector,
    /// User code; `sysret` expects it directly after user data.
    pub user_code_selector: SegmentSelector,
    /// User thread-local storage.
    pub user_tls_selector: SegmentSelector,
    /// The task-state segment.
    pub tss_selector: SegmentSelector,
}

/// Builds the guest kernel's boot GDT: kernel code and data, user data,
/// user code, user TLS and the TSS for the task-state segment at
/// `tss_addr`, at the fixed indices the syscall path relies on.
pub fn kernel_gdt(tss_addr: u64) -> (r: (GlobalDescriptorTable, Selectors))
    ensures
        r.0.wf(),
        r.1.code_selector.0 >> 3 == 1,
        r.1.data_selector.0 >> 3 == 2,
        r.1.user_data_selector.0 >> 3 == 3,
        r.1.user_code_selector.0 >> 3 == 4,
        r.1.user_tls_selector.0 >> 3 == 5,
        r.1.tss_selector.0 >> 3 == 6,
        r.1.code_selector.0 & 3 == 0,
        r.1.user_data_selector.0 & 3 == 3,
        r.1.user_code_selector.0 & 3 == 3,
{
    let mut gdt = GlobalDescriptorTable::new();
    let code_selector = gdt.add_entry(Descriptor::kernel_code_segment());
    let data_selector = gdt.add_entry(Descriptor::kernel_data_segment());
    let user_data_selector = gdt.add_entry(Descriptor::user_data_segment());
    let user_code_selector = gdt.add_entry(Descriptor::user_code_segment());
    let user_tls_selector = gdt.add_entry(Descriptor::user_data_segment());
    let tss_selector = gdt.add_entry(Descriptor::tss_segment(tss_addr));
    proof {
        assert((DESC_USER_SEGMENT | DESC_PRESENT | DESC_EXECUTABLE | DESC_LONG_MODE)
            & DESC_DPL_RING_3 != DESC_DPL_RING_3 && (DESC_USER_SEGMENT | DESC_PRESENT
            | DESC_WRITABLE | DESC_LONG_MODE) & DESC_DPL_RING_3 != DESC_DPL_RING_3 && (
        DESC_USER_SEGMENT | DESC_PRESENT | DESC_WRITABLE | DESC_DPL_RING_3) & DESC_DPL_RING_3
            == DESC_DPL_RING_3 && (DESC_USER_SEGMENT | DESC_PRESENT | DESC_EXECUTABLE
            | DESC_LONG_MODE | DESC_DPL_RING_3) & DESC_DPL_RING_3 == DESC_DPL_RING_3) by (
        bit_vector);
        assert(((1u16 << 3) | 0) & 3 == 0 && ((3u16 << 3) | 3) & 3 == 3 && ((4u16 << 3) | 3) & 3
            == 3) by (bit_vector);
    }
    (
        gdt,
        Selectors {
            code_selector,
            data_selector,
            user_data_selector,
            user_code_selector,
            user_tls_selector,
            tss_selector,
        },
    )
}

} // verus!
