//! The guest's initial page tables: a fixed blob of four tables written
//! once into guest-physical memory before the vCPU ever runs, and the
//! software page walk that reads them back.
//!
//! Two mappings coexist: an identity mapping of the first 4 GiB through
//! 2 MiB huge pages, and an offset mapping under which guest-physical
//! address `p` is visible at `p + PHYSICAL_MEMORY_OFFSET`, through 1 GiB
//! huge pages. Non-leaf entries carry `0x3` (present | writable), leaf
//! entries `0x83` (present | writable | huge).

use vstd::prelude::*;

verus! {

use crate::layout::PML4_START;
use crate::layout::PDPTE_START;
use crate::layout::PDE_START;
use crate::layout::PDPTE_OFFSET_START;
use crate::layout::PHYSICAL_MEMORY_OFFSET;
use crate::wire::enc_u64;

/// The boot page-table blob: PML4, identity PDPT, four identity PDs (as
/// one block), and the offset PDPT, in their guest-physical order.
#[derive(Debug)]
pub struct PageTables {
    /// The level-4 table at `PML4_START`.
    pub pml4t: Vec<u64>,
    /// The identity-mapping level-3 table at `PDPTE_START`.
    pub pml3t_ident: Vec<u64>,
    /// The four identity-mapping level-2 tables at `PDE_START`.
    pub pml2t_ident: Vec<u64>,
    /// The offset-mapping level-3 table at `PDPTE_OFFSET_START`.
    pub pml3t_offset: Vec<u64>,
}

/// The tables have their architectural sizes.
pub open spec fn pt_wf(pt: PageTables) -> bool {
    pt.pml4t@.len() == 512 && pt.pml3t_ident@.len() == 512 && pt.pml2t_ident@.len() == 512 * 4
        && pt.pml3t_offset@.len() == 512
}

/// The exact contents `setup_page_tables` must produce.
pub open spec fn built_tables(pt: PageTables) -> bool {
    &&& pt_wf(pt)
    &&& pt.pml4t@[0] == PDPTE_START as u64 | 0x3
    &&& pt.pml4t@[256] == PDPTE_OFFSET_START as u64 | 0x3
    &&& (forall|i: int| 0 <= i < 512 && i != 0 && i != 256 ==> pt.pml4t@[i] == 0)
    &&& (forall|g: int|
        0 <= g < 4 ==> pt.pml3t_ident@[g] == (PDE_START as u64 + 0x1000 * g) as u64 | 0x3)
    &&& (forall|i: int| 4 <= i < 512 ==> pt.pml3t_ident@[i] == 0)
    &&& (forall|i: int| 0 <= i < 512 * 4 ==> pt.pml2t_ident@[i] == ((i as u64) << 21) | 0x83)
    &&& (forall|i: int| 0 <= i < 512 ==> pt.pml3t_offset@[i] == ((i as u64) << 30) | 0x83)
}

/// Builds the boot page tables in one shot, exactly as `built_tables`
/// describes: the first PML4 entry maps `[0, 512 GiB)` identity (backed
/// for the first 4 GiB), and the entry picked by the top bits of
/// `PHYSICAL_MEMORY_OFFSET` maps the same physical range high.
pub fn setup_page_tables() -> (pt: PageTables)
    ensures
        built_tables(pt),
{
    let mut pml4t: Vec<u64> = Vec::new();
    let mut i: usize = 0;
    while i < 512
        invariant
            i <= 512,
            pml4t@.len() == i,
            forall|j: int| 0 <= j < i ==> pml4t@[j] == 0,
        decreases 512 - i,
    {
        pml4t.push(0);
        i += 1;
    }
    pml4t.set(0, PDPTE_START as u64 | 0x3);
    let offset_slot: usize = ((PHYSICAL_MEMORY_OFFSET >> 39) & 0x1ff) as usize;
    proof {
        assert(((0xFFFF_8000_0000_0000u64 >> 39) & 0x1ff) == 256) by (bit_vector);
    }
    pml4t.set(offset_slot, PDPTE_OFFSET_START as u64 | 0x3);

    let mut pml3t_ident: Vec<u64> = Vec::new();
    let mut i: usize = 0;
    while i < 512
        invariant
            i <= 512,
            pml3t_ident@.len() == i,
            forall|j: int| 0 <= j < i && j < 4 ==> pml3t_ident@[j] == (PDE_START as u64 + 0x1000
                * j) as u64 | 0x3,
            forall|j: int| 4 <= j < i ==> pml3t_ident@[j] == 0,
        decreases 512 - i,
    {
        if i < 4 {
            pml3t_ident.push((PDE_START as u64 + 0x1000 * (i as u64)) | 0x3);
        } else {
            pml3t_ident.push(0);
        }
        i += 1;
    }

    let mut pml2t_ident: Vec<u64> = Vec::new();
    let mut i: usize = 0;
    while i < 512 * 4
        invariant
            i <= 512 * 4,
            pml2t_ident@.len() == i,
            forall|j: int| 0 <= j < i ==> pml2t_ident@[j] == ((j as u64) << 21) | 0x83,
        decreases 512 * 4 - i,
    {
        pml2t_ident.push(((i as u64) << 21) | 0x83);
        i += 1;
    }

    let mut pml3t_offset: Vec<u64> = Vec::new();
    let mut i: usize = 0;
    while i < 512
        invariant
            i <= 512,
            pml3t_offset@.len() == i,
            forall|j: int| 0 <= j < i ==> pml3t_offset@[j] == ((j as u64) << 30) | 0x83,
        decreases 512 - i,
    {
        pml3t_offset.push(((i as u64) << 30) | 0x83);
        i += 1;
    }

    PageTables { pml4t, pml3t_ident, pml2t_ident, pml3t_offset }
}

/// The entry of the blob at table-slot `i`, in guest-physical order.
pub open spec fn pt_entry(pt: PageTables, i: int) -> u64 {
    if i < 512 {
        pt.pml4t@[i]
    } else if i < 1024 {
        pt.pml3t_ident@[i - 512]
    } else if i < 1024 + 2048 {
        pt.pml2t_ident@[i - 1024]
    } else {
        pt.pml3t_offset@[i - 3072]
    }
}

/// The blob as bytes, ready to be written at `PML4_START`: 3584 entries
/// of eight little-endian bytes each.
pub fn page_table_bytes(pt: &PageTables) -> (out: Vec<u8>)
    requires
        pt_wf(*pt),
    ensures
        out@.len() == crate::layout::PAGETABLE_LEN,
        forall|i: int|
            0 <= i < 3584 ==> out@.subrange(8 * i, 8 * i + 8) == enc_u64(pt_entry(*pt, i)),
{
    let mut out: Vec<u8> = Vec::new();
    append_table(&mut out, &pt.pml4t);
    append_table(&mut out, &pt.pml3t_ident);
    append_table(&mut out, &pt.pml2t_ident);
    append_table(&mut out, &pt.pml3t_offset);
    proof {
        assert forall|i: int|
            0 <= i < 3584 implies out@.subrange(8 * i, 8 * i + 8) == enc_u64(pt_entry(*pt, i)) by {
            if i < 512 {
                assert(out@.subrange(8 * i, 8 * i + 8) =~= enc_u64(pt.pml4t@[i]));
            } else if i < 1024 {
                assert(out@.subrange(8 * i, 8 * i + 8) =~= enc_u64(pt.pml3t_ident@[i - 512]));
            } else if i < 3072 {
                assert(out@.subrange(8 * i, 8 * i + 8) =~= enc_u64(pt.pml2t_ident@[i - 1024]));
            } else {
                assert(out@.subrange(8 * i, 8 * i + 8) =~= enc_u64(pt.pml3t_offset@[i - 3072]));
            }
        }
    }
    out
}

/// Appends the little-endian bytes of every entry of `v`.
fn append_table(out: &mut Vec<u8>, v: &Vec<u64>)
    ensures
        final(out)@.len() == old(out)@.len() + 8 * v@.len(),
        final(out)@.subrange(0, old(out)@.len() as int) == old(out)@,
        forall|i: int|
            0 <= i < v@.len() ==> final(out)@.subrange(
                old(out)@.len() + 8 * i,
                old(out)@.len() + 8 * i + 8,
            ) == enc_u64(v@[i]),
{
    let ghost base: Seq<u8> = out@;
    let mut i: usize = 0;
    while i < v.len()
        invariant
            i <= v@.len(),
            out@.len() == base.len() + 8 * i,
            out@.subrange(0, base.len() as int) == base,
            forall|j: int|
                0 <= j < i ==> out@.subrange(base.len() + 8 * j, base.len() + 8 * j + 8) == enc_u64(
                    v@[j],
                ),
        decreases v@.len() - i,
    {
        let ghost before: Seq<u8> = out@;
        crate::wire::put_u64(out, v[i]);
        proof {
            assert(out@.subrange(0, base.len() as int) =~= base);
            assert forall|j: int|
                0 <= j < i + 1 implies out@.subrange(base.len() + 8 * j, base.len() + 8 * j + 8)
                == enc_u64(v@[j]) by {
                if j < i {
                    assert(out@.subrange(base.len() + 8 * j, base.len() + 8 * j + 8)
                        =~= before.subrange(base.len() + 8 * j, base.len() + 8 * j + 8));
                } else {
                    assert(out@.subrange(base.len() + 8 * j, base.len() + 8 * j + 8) =~= enc_u64(
                        v@[j],
                    ));
                }
            }
        }
        i += 1;
    }
}

/// Physical-address field of a non-leaf entry.
pub open spec fn entry_addr(e: u64) -> u64 {
    e & 0x000F_FFFF_FFFF_F000
}

/// The entry's present bit.
pub open spec fn entry_present(e: u64) -> bool {
    e & 0x1 == 0x1
}

/// The entry's huge-page bit.
pub open spec fn entry_huge(e: u64) -> bool {
    e & 0x80 == 0x80
}

/// The textbook 4-level x86-64 walk of the boot tables, as a function of
/// the tables' contents: each level's 9-bit index picks an entry, a
/// missing present bit fails the walk, a huge-page leaf at level 3 maps
/// 1 GiB and at level 2 maps 2 MiB. Table references that do not point at
/// one of the blob's own tables cannot be followed and fail the walk, as
/// does a level-2 entry without the huge bit, since the boot tables hold
/// no level-1 table.
pub open spec fn translate_spec(pt: PageTables, virt: u64) -> Option<u64> {
    let idx4 = ((virt >> 39) & 0x1ff) as int;
    let e4 = pt.pml4t@[idx4];
    if !entry_present(e4) {
        None
    } else if entry_addr(e4) != PDPTE_START as u64 && entry_addr(e4) != PDPTE_OFFSET_START as u64 {
        None
    } else {
        let idx3 = ((virt >> 30) & 0x1ff) as int;
        let e3 = if entry_addr(e4) == PDPTE_START as u64 {
            pt.pml3t_ident@[idx3]
        } else {
            pt.pml3t_offset@[idx3]
        };
        if !entry_present(e3) {
            None
        } else if entry_huge(e3) {
            Some((e3 & 0x000F_FFFF_C000_0000) | (virt & 0x3FFF_FFFF))
        } else if entry_addr(e3) < PDE_START as u64 || entry_addr(e3) >= PDE_START as u64 + 0x4000
            || entry_addr(e3) % 0x1000 != 0 {
            None
        } else {
            let g = ((entry_addr(e3) - PDE_START as u64) / 0x1000) as int;
            let idx2 = ((virt >> 21) & 0x1ff) as int;
            let e2 = pt.pml2t_ident@[g * 512 + idx2];
            if !entry_present(e2) {
                None
            } else if entry_huge(e2) {
                Some((e2 & 0x000F_FFFF_FFE0_0000) | (virt & 0x1F_FFFF))
            } else {
                None
            }
        }
    }
}

/// Walks the boot tables for `virt`, returning the guest-physical
/// address it maps to, if any.
pub fn translate(pt: &PageTables, virt: u64) -> (r: Option<u64>)
    requires
        pt_wf(*pt),
    ensures
        r == translate_spec(*pt, virt),
{
    let idx4 = ((virt >> 39) & 0x1ff) as usize;
    proof {
        assert((virt >> 39) & 0x1ff < 512) by (bit_vector);
    }
    let e4 = pt.pml4t[idx4];
    if e4 & 0x1 != 0x1 {
        return None;
    }
    let a3 = e4 & 0x000F_FFFF_FFFF_F000;
    if a3 != PDPTE_START as u64 && a3 != PDPTE_OFFSET_START as u64 {
        return None;
    }
    let idx3 = ((virt >> 30) & 0x1ff) as usize;
    proof {
        assert((virt >> 30) & 0x1ff < 512) by (bit_vector);
    }
    let e3 = if a3 == PDPTE_START as u64 {
        pt.pml3t_ident[idx3]
    } else {
        pt.pml3t_offset[idx3]
    };
    if e3 & 0x1 != 0x1 {
        return None;
    }
    if e3 & 0x80 == 0x80 {
        return Some((e3 & 0x000F_FFFF_C000_0000) | (virt & 0x3FFF_FFFF));
    }
    let a2 = e3 & 0x000F_FFFF_FFFF_F000;
    if a2 < PDE_START as u64 || a2 >= PDE_START as u64 + 0x4000 || a2 % 0x1000 != 0 {
        return None;
    }
    let g = ((a2 - PDE_START as u64) / 0x1000) as usize;
    let idx2 = ((virt >> 21) & 0x1ff) as usize;
    proof {
        assert((virt >> 21) & 0x1ff < 512) by (bit_vector);
    }
    let e2 = pt.pml2t_ident[g * 512 + idx2];
    if e2 & 0x1 != 0x1 {
        return None;
    }
    if e2 & 0x80 == 0x80 {
        return Some((e2 & 0x000F_FFFF_FFE0_0000) | (virt & 0x1F_FFFF));
    }
    None
}

/// Page-table bit-exactness for the offset mapping: once the boot tables
/// are built, any guest-physical address below 512 GiB, looked at through
/// the offset mapping, walks back to exactly itself.
pub proof fn lemma_offset_mapping_exact(pt: PageTables, gpa: u64)
    requires
        built_tables(pt),
        gpa < 0x80_0000_0000,
    ensures
        translate_spec(pt, (PHYSICAL_MEMORY_OFFSET + gpa) as u64) == Some(gpa),
{
    let virt = (PHYSICAL_MEMORY_OFFSET + gpa) as u64;
    assert(virt == 0xFFFF_8000_0000_0000u64 + gpa);
    assert((virt >> 39) & 0x1ff == 256) by (bit_vector)
        requires
            gpa < 0x80_0000_0000u64,
            virt == 0xFFFF_8000_0000_0000u64 + gpa,
    ;
    let e4 = pt.pml4t@[256];
    assert(0xF000u64 | 0x3u64 == 0xF003u64) by (bit_vector);
    assert(e4 == 0xF003u64);
    assert(entry_present(0xF003u64) && entry_addr(0xF003u64) == 0xF000u64) by (bit_vector);
    assert((virt >> 30) & 0x1ff == gpa >> 30) by (bit_vector)
        requires
            gpa < 0x80_0000_0000u64,
            virt == 0xFFFF_8000_0000_0000u64 + gpa,
    ;
    assert(gpa >> 30 < 512) by (bit_vector)
        requires
            gpa < 0x80_0000_0000u64,
    ;
    let e3 = pt.pml3t_offset@[(gpa >> 30) as int];
    assert(e3 == ((gpa >> 30) << 30) | 0x83);
    assert(entry_present(e3) && entry_huge(e3)) by (bit_vector)
        requires
            e3 == ((gpa >> 30) << 30) | 0x83u64,
    ;
    assert(((e3 & 0x000F_FFFF_C000_0000) | (virt & 0x3FFF_FFFF)) == gpa) by (bit_vector)
        requires
            gpa < 0x80_0000_0000u64,
            virt == 0xFFFF_8000_0000_0000u64 + gpa,
            e3 == ((gpa >> 30) << 30) | 0x83u64,
    ;
}

/// Page-table bit-exactness for the identity mapping: once the boot
/// tables are built, any guest-physical address below 4 GiB walks, via
/// the 2 MiB huge pages, back to exactly itself.
pub proof fn lemma_identity_mapping_exact(pt: PageTables, gpa: u64)
    requires
        built_tables(pt),
        gpa < 0x1_0000_0000,
    ensures
        translate_spec(pt, gpa) == Some(gpa),
{
    assert((gpa >> 39) & 0x1ff == 0) by (bit_vector)
        requires
            gpa < 0x1_0000_0000u64,
    ;
    let e4 = pt.pml4t@[0];
    assert(0xA000u64 | 0x3u64 == 0xA003u64) by (bit_vector);
    assert(e4 == 0xA003u64);
    assert(entry_present(0xA003u64) && entry_addr(0xA003u64) == 0xA000u64) by (bit_vector);
    assert((gpa >> 30) & 0x1ff == gpa >> 30 && gpa >> 30 < 4) by (bit_vector)
        requires
            gpa < 0x1_0000_0000u64,
    ;
    let g = (gpa >> 30) as int;
    let e3 = pt.pml3t_ident@[g];
    assert(e3 == (0xB000u64 + 0x1000 * g) as u64 | 0x3);
    let e3v = e3;
    assert(entry_present(e3v) && !entry_huge(e3v) && entry_addr(e3v) == 0xB000u64 + 0x1000 * (
    gpa >> 30) && entry_addr(e3v) % 0x1000 == 0 && entry_addr(e3v) < 0xB000u64 + 0x4000) by (
    bit_vector)
        requires
            gpa < 0x1_0000_0000u64,
            e3v == (0xB000u64 + 0x1000 * (gpa >> 30)) as u64 | 0x3u64,
    ;
    assert((entry_addr(e3v) - 0xB000u64) / 0x1000 == gpa >> 30) by (bit_vector)
        requires
            gpa < 0x1_0000_0000u64,
            e3v == (0xB000u64 + 0x1000 * (gpa >> 30)) as u64 | 0x3u64,
    ;
    assert((gpa >> 30) * 512 + ((gpa >> 21) & 0x1ff) == gpa >> 21 && gpa >> 21 < 2048) by (
    bit_vector)
        requires
            gpa < 0x1_0000_0000u64,
    ;
    let e2 = pt.pml2t_ident@[(gpa >> 21) as int];
    assert(e2 == ((gpa >> 21) << 21) | 0x83);
    assert(entry_present(e2) && entry_huge(e2) && ((e2 & 0x000F_FFFF_FFE0_0000) | (gpa
        & 0x1F_FFFF)) == gpa) by (bit_vector)
        requires
            gpa < 0x1_0000_0000u64,
            e2 == ((gpa >> 21) << 21) | 0x83u64,
    ;
}

} // verus!
