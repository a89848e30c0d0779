//! The boot page tables, the software page walk, and the descriptor
//! images written into guest memory.

use vmrun::gdt::{kernel_gdt, Descriptor, GlobalDescriptorTable, PrivilegeLevel, SegmentSelector};
use vmrun::kvm_gdt::{desc64, desc_ptr, gdt_entry, kvm_segment_from_gdt, __BindgenBitfieldUnit};
use vmrun::layout::{PAGETABLE_LEN, PDE_START, PDPTE_OFFSET_START, PDPTE_START, PHYSICAL_MEMORY_OFFSET};
use vmrun::pagetables::{page_table_bytes, setup_page_tables, translate};

#[test]
fn built_tables_bit_exact() {
    let pt = setup_page_tables();
    assert_eq!(pt.pml4t[0], PDPTE_START as u64 | 0x3);
    assert_eq!(pt.pml4t[256], PDPTE_OFFSET_START as u64 | 0x3);
    assert_eq!(pt.pml4t[1], 0);
    assert_eq!(pt.pml4t[255], 0);
    for g in 0..4u64 {
        assert_eq!(pt.pml3t_ident[g as usize], (PDE_START as u64 + 0x1000 * g) | 0x3);
    }
    assert_eq!(pt.pml3t_ident[4], 0);
    assert_eq!(pt.pml2t_ident[0], 0x83);
    assert_eq!(pt.pml2t_ident[1], (1u64 << 21) | 0x83);
    assert_eq!(pt.pml2t_ident[2047], (2047u64 << 21) | 0x83);
    assert_eq!(pt.pml3t_offset[0], 0x83);
    assert_eq!(pt.pml3t_offset[511], (511u64 << 30) | 0x83);
}

#[test]
fn offset_mapping_translates_back_to_the_same_frame() {
    let pt = setup_page_tables();
    for gpa in [0u64, 0x1000, 0x1234_5000, 0xFFFF_F000, 0x7F_FFFF_F000] {
        assert_eq!(translate(&pt, PHYSICAL_MEMORY_OFFSET + gpa), Some(gpa));
    }
}

#[test]
fn identity_mapping_translates_to_itself() {
    let pt = setup_page_tables();
    for gpa in [0u64, 0x9000, 0x10_0000, 0xABCD_E123, 0xFFFF_FFFF] {
        assert_eq!(translate(&pt, gpa), Some(gpa));
    }
}

#[test]
fn unmapped_addresses_fail_the_walk() {
    let pt = setup_page_tables();
    // A virtual address whose top-level entry is empty.
    assert_eq!(translate(&pt, 0x0000_7000_0000_0000), None);
}

#[test]
fn page_table_blob_layout() {
    let pt = setup_page_tables();
    let blob = page_table_bytes(&pt);
    assert_eq!(blob.len() as u64, PAGETABLE_LEN);
    // The first entry is the identity PDPT reference.
    assert_eq!(&blob[0..8], &(PDPTE_START as u64 | 0x3).to_le_bytes());
    // Slot 256 of the PML4 is the offset PDPT reference.
    assert_eq!(&blob[256 * 8..256 * 8 + 8], &(PDPTE_OFFSET_START as u64 | 0x3).to_le_bytes());
    // The first identity PD entry sits after PML4 and identity PDPT.
    assert_eq!(&blob[1024 * 8..1024 * 8 + 8], &0x83u64.to_le_bytes());
}

#[test]
fn gdt_entry_packs_the_boot_descriptors() {
    assert_eq!(gdt_entry(0, 0, 0), 0);
    assert_eq!(gdt_entry(0xa09b, 0, 0xfffff), 0x00af_9b00_0000_ffff);
    assert_eq!(gdt_entry(0xc093, 0, 0xfffff), 0x00cf_9300_0000_ffff);
    assert_eq!(gdt_entry(0x808b, 0, 0xfffff), 0x008f_8b00_0000_ffff);
}

#[test]
fn kvm_segment_matches_the_code_descriptor() {
    let seg = kvm_segment_from_gdt(gdt_entry(0xa09b, 0, 0xfffff), 1);
    assert_eq!(seg.base, 0);
    assert_eq!(seg.limit, 0xfffff);
    assert_eq!(seg.selector, 8);
    assert_eq!(seg.type_, 0xb);
    assert_eq!(seg.present, 1);
    assert_eq!(seg.dpl, 0);
    assert_eq!(seg.s, 1);
    assert_eq!(seg.l, 1);
    assert_eq!(seg.g, 1);
    assert_eq!(seg.db, 0);
    assert_eq!(seg.unusable, 0);
}

#[test]
fn test_segment_index() {
    let (_gdt, sel) = kernel_gdt(0x1000);
    assert_eq!(sel.code_selector.index(), 1, "KERNEL_CODE_SEG");
    assert_eq!(sel.data_selector.index(), 2, "KERNEL_DATA_SEG");
    assert_eq!(sel.user_data_selector.index(), 3, "USER_DATA_SEG");
    assert_eq!(sel.user_code_selector.index(), 4, "USER_CODE_SEG");
    // sysret loads segments assuming user code follows user data.
    assert_eq!(sel.user_data_selector.index() + 1, sel.user_code_selector.index());
    assert_eq!(sel.user_tls_selector.index(), 5);
    assert_eq!(sel.tss_selector.index(), 6);
}

#[test]
fn selectors_encode_index_and_privilege() {
    let s = SegmentSelector::new(3, PrivilegeLevel::Ring3);
    assert_eq!(s.0, 27);
    assert_eq!(s.index(), 3);
    let mut gdt = GlobalDescriptorTable::new();
    let code = gdt.add_entry(Descriptor::kernel_code_segment());
    assert_eq!(code.0, 8);
    let user = gdt.add_entry(Descriptor::user_data_segment());
    assert_eq!(user.0, (2 << 3) | 3);
}

#[test]
fn bindgen_test_layout_desc64() {
    let unit = __BindgenBitfieldUnit::new([0xAA, 0xBB, 0xCC, 0xDD]);
    let d = desc64 {
        limit0: 0x1122,
        base0: 0x3344,
        _bitfield_1: unit,
        base3: 0x5566_7788,
        zero1: 0x99AA_BBCC,
    };
    let w = d.wire_bytes();
    assert_eq!(w.len(), 16, "Size of: desc64");
    assert_eq!(&w[0..2], &0x1122u16.to_le_bytes(), "Offset of field: desc64::limit0");
    assert_eq!(&w[2..4], &0x3344u16.to_le_bytes(), "Offset of field: desc64::base0");
    assert_eq!(&w[4..8], &[0xAA, 0xBB, 0xCC, 0xDD], "Offset of field: desc64::_bitfield_1");
    assert_eq!(&w[8..12], &0x5566_7788u32.to_le_bytes(), "Offset of field: desc64::base3");
    assert_eq!(&w[12..16], &0x99AA_BBCCu32.to_le_bytes(), "Offset of field: desc64::zero1");
}

#[test]
fn bindgen_test_layout_desc_ptr() {
    let p = desc_ptr { size: 0xABCD, address: 0x1122_3344_5566_7788 };
    let w = p.wire_bytes();
    assert_eq!(w.len(), 10, "Size of: desc_ptr");
    assert_eq!(&w[0..2], &0xABCDu16.to_le_bytes(), "Offset of field: desc_ptr::size");
    assert_eq!(&w[2..10], &0x1122_3344_5566_7788u64.to_le_bytes(), "Offset of field: desc_ptr::address");
}

#[test]
fn bitfield_unit_bit_accessors() {
    let mut unit = __BindgenBitfieldUnit::zeroed();
    assert!(!unit.get_bit(5));
    unit.set_bit(5, true);
    assert!(unit.get_bit(5));
    assert!(!unit.get_bit(4));
    unit.set(8, 4, 0b1011);
    assert_eq!(unit.get(8, 4), 0b1011);
    assert_eq!(unit.get(0, 8), 1 << 5);
    unit.set_bit(5, false);
    assert!(!unit.get_bit(5));
}
