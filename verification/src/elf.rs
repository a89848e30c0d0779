//! Loading the guest kernel image.
//!
//! The 64-bit image format is fixed-layout, so everything the loader
//! decides on is specified directly over the image bytes: which images
//! are loadable, what each program-header record holds, which frames
//! become `Kernel`, which file bytes go where, and how the entry address
//! is found. The outside parser is only consulted through three trusted
//! wrappers whose results are pinned to those same byte equations; the
//! symbol and string tables are read directly off the image, since their
//! well-formedness is the loader's own concern.

use vstd::prelude::*;

verus! {

use crate::error::Error;
use crate::error::ErrorKind;
use crate::kvm::KvmVm;
use crate::layout::PAGE_SIZE;
use crate::memmap::MemoryRegion;
use crate::memmap::MemoryRegionType;
use crate::memmap::FrameRange;
use crate::frame_allocator::FrameAllocator;
use crate::frame_allocator::mark_allocated;
use crate::wire::dec_u16;
use crate::wire::dec_u32;
use crate::wire::dec_u64;

/// What a program header's type word means to the loader.
#[derive(Clone, Copy, Debug, PartialEq, Eq, Structural)]
pub enum SegmentKind {
    /// A loadable segment.
    Load,
    /// An interpreter request: only static binaries are supported.
    Interp,
    /// Any other program header.
    Other,
}

/// One 64-bit program header, reduced to the plain values the loader
/// reads.
#[derive(Clone, Copy, Debug, PartialEq, Eq, Structural)]
pub struct ElfSegment {
    /// What the segment is.
    pub kind: SegmentKind,
    /// The segment's flag word.
    pub flags: u32,
    /// Offset of the segment's bytes in the image file.
    pub offset: u64,
    /// The address the segment wants to live at.
    pub virtual_addr: u64,
    /// How many bytes the file provides.
    pub file_size: u64,
    /// How many bytes the segment occupies in memory.
    pub mem_size: u64,
}

/// A copy command the caller performs into guest memory: `file_len`
/// image bytes from `file_offset` go to `dest_gpa`, followed by
/// `zero_len` zero bytes.
#[derive(Clone, Copy, Debug, PartialEq, Eq, Structural)]
pub struct LoadCmd {
    /// Guest-physical destination of the segment.
    pub dest_gpa: u64,
    /// Offset of the segment's bytes in the image.
    pub file_offset: u64,
    /// How many image bytes to copy.
    pub file_len: u64,
    /// How many zero bytes follow them (the BSS tail).
    pub zero_len: u64,
}

/// The image's entry address field.
pub open spec fn eh_entry_point(d: Seq<u8>) -> u64 {
    dec_u64(d.subrange(24, 32))
}

/// The image's program-header table offset field.
pub open spec fn eh_ph_offset(d: Seq<u8>) -> u64 {
    dec_u64(d.subrange(32, 40))
}

/// The image's section-header table offset field.
pub open spec fn eh_sh_offset(d: Seq<u8>) -> u64 {
    dec_u64(d.subrange(40, 48))
}

/// The image's own-header size field.
pub open spec fn eh_header_size(d: Seq<u8>) -> u16 {
    dec_u16(d.subrange(52, 54))
}

/// The image's program-header record size field.
pub open spec fn eh_ph_entry_size(d: Seq<u8>) -> u16 {
    dec_u16(d.subrange(54, 56))
}

/// The image's program-header count field.
pub open spec fn eh_ph_count(d: Seq<u8>) -> u16 {
    dec_u16(d.subrange(56, 58))
}

/// The image's section-header record size field.
pub open spec fn eh_sh_entry_size(d: Seq<u8>) -> u16 {
    dec_u16(d.subrange(58, 60))
}

/// The image's section-header count field.
pub open spec fn eh_sh_count(d: Seq<u8>) -> u16 {
    dec_u16(d.subrange(60, 62))
}

/// The header checks of the outside parser, spelled out over the bytes:
/// ELF magic, 64-bit class, recognized data encoding and version bytes,
/// the stated header size, and both header tables inside the image. An
/// image of this shape is accepted by the parser's header sanity checks,
/// and for one without this shape they reject or the class differs.
pub open spec fn elf64_header_ok(d: Seq<u8>) -> bool {
    &&& d.len() >= 64
    &&& d[0] == 0x7f
    &&& d[1] == 0x45
    &&& d[2] == 0x4c
    &&& d[3] == 0x46
    &&& d[4] == 2
    &&& d[5] != 0
    &&& d[6] != 0
    &&& eh_header_size(d) == 64
    &&& eh_ph_offset(d) + eh_ph_entry_size(d) * eh_ph_count(d) <= d.len()
    &&& eh_sh_offset(d) + eh_sh_entry_size(d) * eh_sh_count(d) <= d.len()
}

/// What the loader accepts: a sane 64-bit header whose program-header
/// records, if any, have the architectural size and sit at a positive,
/// eight-aligned table offset.
pub open spec fn elf_image_loadable(d: Seq<u8>) -> bool {
    elf64_header_ok(d) && (eh_ph_count(d) > 0 ==> eh_ph_entry_size(d) == 56 && eh_ph_offset(d) > 0
        && eh_ph_offset(d) % 8 == 0)
}

/// Checks `elf_image_loadable` on the image bytes.
fn check_loadable(data: &Vec<u8>) -> (r: bool)
    ensures
        r == elf_image_loadable(data@),
{
    let len = data.len();
    if len < 64 {
        return false;
    }
    if !(data[0] == 0x7f && data[1] == 0x45 && data[2] == 0x4c && data[3] == 0x46 && data[4] == 2
        && data[5] != 0 && data[6] != 0) {
        return false;
    }
    if crate::wire::get_u16(data, 52) != 64 {
        return false;
    }
    let ph_off = crate::wire::get_u64(data, 32);
    let ph_ent = crate::wire::get_u16(data, 54) as u64;
    let ph_cnt = crate::wire::get_u16(data, 56) as u64;
    let sh_off = crate::wire::get_u64(data, 40);
    let sh_ent = crate::wire::get_u16(data, 58) as u64;
    let sh_cnt = crate::wire::get_u16(data, 60) as u64;
    proof {
        assert(ph_ent * ph_cnt < 0x1_0000_0000 && sh_ent * sh_cnt < 0x1_0000_0000) by (
        nonlinear_arith)
            requires
                ph_ent < 0x1_0000,
                ph_cnt < 0x1_0000,
                sh_ent < 0x1_0000,
                sh_cnt < 0x1_0000,
        ;
    }
    if ph_off > len as u64 || ph_ent * ph_cnt > len as u64 - ph_off {
        return false;
    }
    if sh_off > len as u64 || sh_ent * sh_cnt > len as u64 - sh_off {
        return false;
    }
    if ph_cnt > 0 && !(ph_ent == 56 && ph_off > 0 && ph_off % 8 == 0) {
        return false;
    }
    true
}

/// Relies on `xmas_elf::ElfFile::new` (header.rs, length- and
/// magic-checked reads) and `header::sanity_check`: the program-header
/// count of an image that passes both. The precondition repeats the
/// sanity checks so that the call cannot fail or overflow inside them;
/// it further relies on the image buffer being at least eight-byte
/// aligned, which Rust's default allocator provides for every `Vec`.
#[verifier::external_body]
fn parse_ph_count(data: &Vec<u8>) -> (r: Result<u16, Error>)
    requires
        elf64_header_ok(data@),
    ensures
        r is Ok,
        r->Ok_0 == eh_ph_count(data@),
{
    let elf = xmas_elf::ElfFile::new(data).map_err(|m| Error(ErrorKind::Str(m), None))?;
    xmas_elf::header::sanity_check(&elf).map_err(|m| Error(ErrorKind::Str(m), None))?;
    Ok(elf.header.pt2.ph_count())
}

/// Relies on `xmas_elf::ElfFile::program_header` (program.rs: an
/// unchecked slice of the record followed by an aligned fixed-layout
/// read) and the `ProgramHeader` getters: the record at `idx`, reduced
/// to plain values. The precondition keeps the record slice inside the
/// image and eight-aligned so that neither the slice nor the read can
/// fail; the buffer-alignment reliance of `parse_ph_count` applies here
/// too.
#[verifier::external_body]
fn parse_program_header(data: &Vec<u8>, idx: u16) -> (r: Result<ElfSegment, Error>)
    requires
        elf64_header_ok(data@),
        idx < eh_ph_count(data@),
        eh_ph_entry_size(data@) == 56,
        eh_ph_offset(data@) > 0,
        eh_ph_offset(data@) % 8 == 0,
    ensures
        r is Ok,
        r->Ok_0 == seg_at(data@, idx as int),
{
    let elf = xmas_elf::ElfFile::new(data).map_err(|m| Error(ErrorKind::Str(m), None))?;
    let ph = elf.program_header(idx).map_err(|m| Error(ErrorKind::Str(m), None))?;
    Ok(ElfSegment {
        kind: match ph.get_type() { Ok(xmas_elf::program::Type::Load) => SegmentKind::Load, Ok(xmas_elf::program::Type::Interp) => SegmentKind::Interp, _ => SegmentKind::Other },
        flags: ph.flags().0,
        offset: ph.offset(),
        virtual_addr: ph.virtual_addr(),
        file_size: ph.file_size(),
        mem_size: ph.mem_size(),
    })
}

/// Relies on `xmas_elf::ElfFile::new` and the `entry_point` getter, a
/// plain field read of a length-checked header.
#[verifier::external_body]
fn parse_entry_point(data: &Vec<u8>) -> (r: Result<u64, Error>)
    requires
        elf64_header_ok(data@),
    ensures
        r is Ok,
        r->Ok_0 == eh_entry_point(data@),
{
    let elf = xmas_elf::ElfFile::new(data).map_err(|m| Error(ErrorKind::Str(m), None))?;
    Ok(elf.header.pt2.entry_point())
}

/// Start of the program-header record at `idx`.
pub open spec fn seg_base(d: Seq<u8>, idx: int) -> int {
    eh_ph_offset(d) + 56 * idx
}

/// The loader's view of the type word at record `idx`.
pub open spec fn seg_kind_at(d: Seq<u8>, idx: int) -> SegmentKind {
    let t = dec_u32(d.subrange(seg_base(d, idx), seg_base(d, idx) + 4));
    if t == 1 {
        SegmentKind::Load
    } else if t == 3 {
        SegmentKind::Interp
    } else {
        SegmentKind::Other
    }
}

/// The program-header record at `idx`, field by field.
pub open spec fn seg_at(d: Seq<u8>, idx: int) -> ElfSegment {
    let b = seg_base(d, idx);
    ElfSegment {
        kind: seg_kind_at(d, idx),
        flags: dec_u32(d.subrange(b + 4, b + 8)),
        offset: dec_u64(d.subrange(b + 8, b + 16)),
        virtual_addr: dec_u64(d.subrange(b + 16, b + 24)),
        file_size: dec_u64(d.subrange(b + 32, b + 40)),
        mem_size: dec_u64(d.subrange(b + 40, b + 48)),
    }
}

/// The copy command a loadable segment asks for.
pub open spec fn cmd_of(seg: ElfSegment) -> LoadCmd {
    LoadCmd {
        dest_gpa: seg.virtual_addr,
        file_offset: seg.offset,
        file_len: seg.file_size,
        zero_len: (seg.mem_size - seg.file_size) as u64,
    }
}

/// The `Kernel` frame range a loadable segment claims: from its start
/// address rounded down to its last byte rounded up, both to frames.
pub open spec fn segment_frames(virtual_addr: u64, mem_size: u64) -> FrameRange {
    FrameRange {
        start_frame_number: (virtual_addr as int / (PAGE_SIZE as int)) as u64,
        end_frame_number: (((virtual_addr + mem_size - 1) as int + PAGE_SIZE - 1) / (
        PAGE_SIZE as int)) as u64,
    }
}

/// Whether the loader accepts this segment's arithmetic: it fits the
/// address space and the image provides no more bytes than the segment
/// occupies.
pub open spec fn segment_arith_ok(s: ElfSegment, data_len: int) -> bool {
    &&& 1 <= s.mem_size
    &&& s.virtual_addr + s.mem_size <= u64::MAX
    &&& s.file_size <= s.mem_size
    &&& s.offset + s.file_size <= data_len
}

/// What loading the records from `idx` on does to the memory map and the
/// command list: a loadable record is bounds-checked, its frames marked
/// `Kernel`, and its copy command appended; an interpreter request or a
/// failing check stops the load with its error kind; other records are
/// skipped.
pub open spec fn load_plan(
    s: Seq<MemoryRegion>,
    cmds: Seq<LoadCmd>,
    d: Seq<u8>,
    idx: int,
) -> Result<(Seq<MemoryRegion>, Seq<LoadCmd>), ErrorKind>
    decreases eh_ph_count(d) - idx,
{
    if idx < 0 || idx >= eh_ph_count(d) {
        Ok((s, cmds))
    } else {
        let seg = seg_at(d, idx);
        if seg.kind is Other {
            load_plan(s, cmds, d, idx + 1)
        } else if seg.kind is Interp {
            Err(ErrorKind::ElfUnsupported)
        } else if !segment_arith_ok(seg, d.len() as int) {
            Err(ErrorKind::ElfSegmentBounds)
        } else {
            match mark_allocated(
                s,
                MemoryRegion {
                    range: segment_frames(seg.virtual_addr, seg.mem_size),
                    region_type: MemoryRegionType::Kernel,
                },
            ) {
                Err(_) => Err(ErrorKind::RegionConflict),
                Ok(s2) => load_plan(s2, cmds.push(cmd_of(seg)), d, idx + 1),
            }
        }
    }
}

/// Checks one loadable segment's arithmetic.
fn check_segment(s: &ElfSegment, data_len: usize) -> (r: bool)
    ensures
        r == segment_arith_ok(*s, data_len as int),
{
    1 <= s.mem_size && s.virtual_addr <= u64::MAX - s.mem_size && s.file_size <= s.mem_size
        && s.offset <= u64::MAX - s.file_size && s.offset + s.file_size <= data_len as u64
}

/// The frame range a loadable segment claims.
fn segment_frames_exec(virtual_addr: u64, mem_size: u64) -> (r: FrameRange)
    requires
        1 <= mem_size,
        virtual_addr + mem_size <= u64::MAX,
    ensures
        r == segment_frames(virtual_addr, mem_size),
{
    let last = virtual_addr + mem_size - 1;
    // The last byte of the final page would overflow the rounded-up sum,
    // so that page is handled without it.
    let end = if last > u64::MAX - ((PAGE_SIZE as u64) - 1) {
        last / (PAGE_SIZE as u64) + 1
    } else {
        (last + ((PAGE_SIZE as u64) - 1)) / (PAGE_SIZE as u64)
    };
    proof {
        if last > u64::MAX - ((PAGE_SIZE as u64) - 1) {
            assert(last as int / (PAGE_SIZE as int) + 1 == (last as int + PAGE_SIZE - 1) / (
            PAGE_SIZE as int)) by (nonlinear_arith)
                requires
                    u64::MAX - PAGE_SIZE + 2 <= last <= u64::MAX,
            ;
        }
    }
    FrameRange { start_frame_number: virtual_addr / (PAGE_SIZE as u64), end_frame_number: end }
}

impl KvmVm {
    /// Loads the guest kernel image.
    ///
    /// An image that is not `elf_image_loadable` is rejected with
    /// `ElfHeaderInvalid`, exactly. For a loadable image: the entry is
    /// the header's entry point, or the value of `start_symbol` when one
    /// is given (`GuestCodeNotFound` exactly when the symbol is absent);
    /// the memory map and the returned copy commands are exactly what
    /// `load_plan` says for the image's loadable segments, and a failing
    /// plan surfaces its error kind. On any error the map is unchanged.
    #[verifier::loop_isolation(false)]
    pub fn elf_load(&mut self, data: &Vec<u8>, start_symbol: Option<&Vec<u8>>) -> (r: Result<
        (u64, Vec<LoadCmd>),
        Error,
    >)
        ensures
            final(self).page_size == old(self).page_size,
            final(self).userspace_mem_regions@ == old(self).userspace_mem_regions@,
            final(self).syscall_hostvaddr == old(self).syscall_hostvaddr,
            !elf_image_loadable(data@) ==> (r matches Err(e) && e.0 == ErrorKind::ElfHeaderInvalid)
                && final(self).frame_allocator.memory_map@ == old(
                self,
            ).frame_allocator.memory_map@,
            elf_image_loadable(data@) ==> (match r {
                Ok((entry, cmds)) => {
                    &&& (match start_symbol {
                        None => entry == eh_entry_point(data@),
                        Some(nm) => symbol_lookup(data@, nm@) == Some(entry),
                    })
                    &&& load_plan(
                        old(self).frame_allocator.memory_map@,
                        Seq::<LoadCmd>::empty(),
                        data@,
                        0,
                    ) == Ok::<(Seq<MemoryRegion>, Seq<LoadCmd>), ErrorKind>(
                        (final(self).frame_allocator.memory_map@, cmds@),
                    )
                },
                Err(e) => {
                    &&& final(self).frame_allocator.memory_map@ == old(
                        self,
                    ).frame_allocator.memory_map@
                    &&& (match start_symbol {
                        Some(nm) => {
                            if symbol_lookup(data@, nm@) is None {
                                e.0 == ErrorKind::GuestCodeNotFound
                            } else {
                                load_plan(
                                    old(self).frame_allocator.memory_map@,
                                    Seq::<LoadCmd>::empty(),
                                    data@,
                                    0,
                                ) == Err::<(Seq<MemoryRegion>, Seq<LoadCmd>), ErrorKind>(e.0)
                            }
                        },
                        None => load_plan(
                            old(self).frame_allocator.memory_map@,
                            Seq::<LoadCmd>::empty(),
                            data@,
                            0,
                        ) == Err::<(Seq<MemoryRegion>, Seq<LoadCmd>), ErrorKind>(e.0),
                    })
                },
            }),
    {
        let ghost d: Seq<u8> = data@;
        let ghost s0: Seq<MemoryRegion> = self.frame_allocator.memory_map@;
        if !check_loadable(data) {
            return Err(Error::new(ErrorKind::ElfHeaderInvalid));
        }
        let n = match parse_ph_count(data) {
            Ok(n) => n,
            Err(e) => {
                proof {
                    assert(false);
                }
                return Err(e);
            },
        };
        let entry: u64 = match start_symbol {
            None => match parse_entry_point(data) {
                Ok(e) => e,
                Err(e) => {
                    proof {
                        assert(false);
                    }
                    return Err(e);
                },
            },
            Some(name) => match find_symbol(data, name) {
                Some(v) => v,
                None => {
                    return Err(Error::new(ErrorKind::GuestCodeNotFound));
                },
            },
        };
        // The segments are carved into a scratch map, so that a failing
        // image leaves the builder untouched.
        let mut scratch = FrameAllocator { memory_map: self.frame_allocator.memory_map.duplicate() };
        let mut cmds: Vec<LoadCmd> = Vec::new();
        let mut i: u16 = 0;
        while i < n
            invariant
                i <= n,
                n == eh_ph_count(d),
                elf_image_loadable(d),
                load_plan(s0, Seq::<LoadCmd>::empty(), d, 0) == load_plan(
                    scratch.memory_map@,
                    cmds@,
                    d,
                    i as int,
                ),
            decreases n - i,
        {
            let s = match parse_program_header(data, i) {
                Ok(s) => s,
                Err(e) => {
                    proof {
                        assert(false);
                    }
                    return Err(e);
                },
            };
            proof {
                assert(s == seg_at(d, i as int));
            }
            match s.kind {
                SegmentKind::Other => {
                    proof {
                        assert(load_plan(scratch.memory_map@, cmds@, d, i as int) == load_plan(
                            scratch.memory_map@,
                            cmds@,
                            d,
                            i + 1,
                        ));
                    }
                },
                SegmentKind::Interp => {
                    proof {
                        assert(load_plan(scratch.memory_map@, cmds@, d, i as int)
                            == Err::<(Seq<MemoryRegion>, Seq<LoadCmd>), ErrorKind>(
                            ErrorKind::ElfUnsupported,
                        ));
                    }
                    return Err(Error::new(ErrorKind::ElfUnsupported));
                },
                SegmentKind::Load => {
                    if !check_segment(&s, data.len()) {
                        proof {
                            assert(load_plan(scratch.memory_map@, cmds@, d, i as int)
                                == Err::<(Seq<MemoryRegion>, Seq<LoadCmd>), ErrorKind>(
                                ErrorKind::ElfSegmentBounds,
                            ));
                        }
                        return Err(Error::new(ErrorKind::ElfSegmentBounds));
                    }
                    let frames = segment_frames_exec(s.virtual_addr, s.mem_size);
                    let region = MemoryRegion {
                        range: frames,
                        region_type: MemoryRegionType::Kernel,
                    };
                    let ghost pre: Seq<MemoryRegion> = scratch.memory_map@;
                    match scratch.mark_allocated_region(region) {
                        Ok(()) => {
                            cmds.push(
                                LoadCmd {
                                    dest_gpa: s.virtual_addr,
                                    file_offset: s.offset,
                                    file_len: s.file_size,
                                    zero_len: s.mem_size - s.file_size,
                                },
                            );
                            proof {
                                assert(load_plan(pre, cmds@.drop_last(), d, i as int) == load_plan(
                                    scratch.memory_map@,
                                    cmds@.drop_last().push(cmd_of(seg_at(d, i as int))),
                                    d,
                                    i + 1,
                                ));
                                assert(cmds@.drop_last().push(cmd_of(seg_at(d, i as int)))
                                    =~= cmds@);
                            }
                        },
                        Err(_) => {
                            proof {
                                assert(load_plan(pre, cmds@, d, i as int)
                                    == Err::<(Seq<MemoryRegion>, Seq<LoadCmd>), ErrorKind>(
                                    ErrorKind::RegionConflict,
                                ));
                            }
                            return Err(Error::new(ErrorKind::RegionConflict));
                        },
                    }
                },
            }
            i += 1;
        }
        proof {
            assert(load_plan(s0, Seq::<LoadCmd>::empty(), d, 0) == Ok::<
                (Seq<MemoryRegion>, Seq<LoadCmd>),
                ErrorKind,
            >((scratch.memory_map@, cmds@)));
        }
        self.frame_allocator = scratch;
        Ok((entry, cmds))
    }
}

/// Start of the section-header record at `i`.
pub open spec fn sec_base(d: Seq<u8>, i: int) -> int {
    eh_sh_offset(d) + 64 * i
}

/// The section's type word.
pub open spec fn sec_type_at(d: Seq<u8>, i: int) -> u32 {
    dec_u32(d.subrange(sec_base(d, i) + 4, sec_base(d, i) + 8))
}

/// The section's file offset.
pub open spec fn sec_offset_at(d: Seq<u8>, i: int) -> u64 {
    dec_u64(d.subrange(sec_base(d, i) + 24, sec_base(d, i) + 32))
}

/// The section's size in bytes.
pub open spec fn sec_size_at(d: Seq<u8>, i: int) -> u64 {
    dec_u64(d.subrange(sec_base(d, i) + 32, sec_base(d, i) + 40))
}

/// The section's linked-section index.
pub open spec fn sec_link_at(d: Seq<u8>, i: int) -> u32 {
    dec_u32(d.subrange(sec_base(d, i) + 40, sec_base(d, i) + 44))
}

/// Whether section `i` is a symbol table the loader can search: marked
/// as one, inside the image, and linked to a string table that is also
/// inside the image.
pub open spec fn symtab_ok(d: Seq<u8>, i: int) -> bool {
    &&& sec_type_at(d, i) == 2
    &&& sec_offset_at(d, i) + sec_size_at(d, i) <= d.len()
    &&& sec_link_at(d, i) < eh_sh_count(d)
    &&& sec_offset_at(d, sec_link_at(d, i) as int) + sec_size_at(d, sec_link_at(d, i) as int)
        <= d.len()
}

/// Whether the NUL-terminated byte string at `start` (inside the window
/// ending at `end`) equals `name`; a name holding a NUL matches nothing.
pub open spec fn cstr_eq(d: Seq<u8>, start: int, end: int, name: Seq<u8>) -> bool {
    &&& 0 <= start
    &&& start + name.len() < end
    &&& (forall|k: int| 0 <= k < name.len() ==> d[start + k] == #[trigger] name[k] && name[k] != 0)
    &&& d[start + name.len()] == 0
}

/// The name-index field of symbol record `k` of the table at `so`.
pub open spec fn sym_name_off(d: Seq<u8>, so: int, k: int) -> u32 {
    dec_u32(d.subrange(so + 24 * k, so + 24 * k + 4))
}

/// The value field of symbol record `k` of the table at `so`.
pub open spec fn sym_value(d: Seq<u8>, so: int, k: int) -> u64 {
    dec_u64(d.subrange(so + 24 * k + 8, so + 24 * k + 16))
}

/// The value of the first symbol from record `k` on whose name equals
/// `name`, the names read from the string-table window `[sto, st_end)`.
pub open spec fn find_in_symtab(
    d: Seq<u8>,
    so: int,
    nsyms: int,
    sto: int,
    st_end: int,
    name: Seq<u8>,
    k: int,
) -> Option<u64>
    decreases nsyms - k,
{
    if k < 0 || k >= nsyms {
        None
    } else if cstr_eq(d, sto + sym_name_off(d, so, k), st_end, name) {
        Some(sym_value(d, so, k))
    } else {
        find_in_symtab(d, so, nsyms, sto, st_end, name, k + 1)
    }
}

/// The value of `name` in the first searchable symbol table from section
/// `i` on that defines it.
pub open spec fn symbol_lookup_from(d: Seq<u8>, name: Seq<u8>, i: int) -> Option<u64>
    decreases eh_sh_count(d) - i,
{
    if i < 0 || i >= eh_sh_count(d) {
        None
    } else {
        let here = if symtab_ok(d, i) {
            find_in_symtab(
                d,
                sec_offset_at(d, i) as int,
                sec_size_at(d, i) as int / 24,
                sec_offset_at(d, sec_link_at(d, i) as int) as int,
                sec_offset_at(d, sec_link_at(d, i) as int) + sec_size_at(
                    d,
                    sec_link_at(d, i) as int,
                ),
                name,
                0,
            )
        } else {
            Option::<u64>::None
        };
        if here is Some {
            here
        } else {
            symbol_lookup_from(d, name, i + 1)
        }
    }
}

/// The value of the symbol `name` in the image's symbol tables, when the
/// image has a sane 64-bit header with architectural section records.
pub open spec fn symbol_lookup(d: Seq<u8>, name: Seq<u8>) -> Option<u64> {
    if elf64_header_ok(d) && eh_sh_entry_size(d) == 64 {
        symbol_lookup_from(d, name, 0)
    } else {
        None
    }
}

/// Whether the NUL-terminated string at `start` equals `name`.
#[verifier::loop_isolation(false)]
fn cstr_matches(data: &Vec<u8>, start: u64, end: u64, name: &Vec<u8>) -> (r: bool)
    requires
        end <= data@.len(),
    ensures
        r == cstr_eq(data@, start as int, end as int, name@),
{
    let dlen = data.len();
    if start >= end {
        proof {
            assert(!cstr_eq(data@, start as int, end as int, name@));
        }
        return false;
    }
    if name.len() as u64 >= end - start {
        proof {
            assert(!cstr_eq(data@, start as int, end as int, name@));
        }
        return false;
    }
    let mut k: usize = 0;
    while k < name.len()
        invariant
            k <= name@.len(),
            forall|j: int|
                0 <= j < k ==> data@[start + j] == #[trigger] name@[j] && name@[j] != 0,
        decreases name@.len() - k,
    {
        let b = data[(start + k as u64) as usize];
        if b != name[k] || name[k] == 0 {
            proof {
                assert(!(data@[start + k] == name@[k as int] && name@[k as int] != 0));
                assert(!cstr_eq(data@, start as int, end as int, name@));
            }
            return false;
        }
        k += 1;
    }
    let terminated = data[(start + name.len() as u64) as usize] == 0;
    proof {
        assert(terminated == cstr_eq(data@, start as int, end as int, name@));
    }
    terminated
}

/// Searches one symbol table for `name`.
#[verifier::loop_isolation(false)]
fn search_symtab(
    data: &Vec<u8>,
    so: u64,
    ss: u64,
    sto: u64,
    st_end: u64,
    name: &Vec<u8>,
) -> (r: Option<u64>)
    requires
        so + ss <= data@.len(),
        sto <= st_end <= data@.len(),
    ensures
        r == find_in_symtab(
            data@,
            so as int,
            ss as int / 24,
            sto as int,
            st_end as int,
            name@,
            0,
        ),
{
    let dlen = data.len();
    let nsyms = ss / 24;
    let mut k: u64 = 0;
    while k < nsyms
        invariant
            k <= nsyms == ss as int / 24,
            find_in_symtab(data@, so as int, nsyms as int, sto as int, st_end as int, name@, 0)
                == find_in_symtab(
                data@,
                so as int,
                nsyms as int,
                sto as int,
                st_end as int,
                name@,
                k as int,
            ),
        decreases nsyms - k,
    {
        proof {
            assert(24 * k + 24 <= ss) by (nonlinear_arith)
                requires
                    0 <= k,
                    k < ss as int / 24,
            ;
        }
        let name_off = crate::wire::get_u32(data, (so + 24 * k) as usize);
        proof {
            assert(data@.subrange((so + 24 * k) as int, (so + 24 * k) as int + 4)
                =~= data@.subrange(so as int + 24 * (k as int), so as int + 24 * (k as int) + 4));
            assert(name_off == sym_name_off(data@, so as int, k as int));
        }
        let matched = if (name_off as u64) <= st_end - sto {
            cstr_matches(data, sto + name_off as u64, st_end, name)
        } else {
            proof {
                assert(!cstr_eq(
                    data@,
                    sto + sym_name_off(data@, so as int, k as int),
                    st_end as int,
                    name@,
                ));
            }
            false
        };
        if matched {
            let v = crate::wire::get_u64(data, (so + 24 * k + 8) as usize);
            proof {
                assert(data@.subrange((so + 24 * k + 8) as int, (so + 24 * k + 8) as int + 8)
                    =~= data@.subrange(
                    so as int + 24 * (k as int) + 8,
                    so as int + 24 * (k as int) + 16,
                ));
                assert(v == sym_value(data@, so as int, k as int));
                assert(find_in_symtab(
                    data@,
                    so as int,
                    nsyms as int,
                    sto as int,
                    st_end as int,
                    name@,
                    k as int,
                ) == Some(v));
            }
            return Some(v);
        }
        proof {
            assert(find_in_symtab(
                data@,
                so as int,
                nsyms as int,
                sto as int,
                st_end as int,
                name@,
                k as int,
            ) == find_in_symtab(
                data@,
                so as int,
                nsyms as int,
                sto as int,
                st_end as int,
                name@,
                k as int + 1,
            ));
        }
        k += 1;
    }
    None
}

/// The value of `name` in the image's symbol tables, searching the
/// sections in order.
#[verifier::loop_isolation(false)]
fn find_symbol(data: &Vec<u8>, name: &Vec<u8>) -> (r: Option<u64>)
    requires
        elf64_header_ok(data@),
    ensures
        r == symbol_lookup(data@, name@),
{
    let len = data.len();
    if crate::wire::get_u16(data, 58) != 64 {
        return None;
    }
    let sh_off = crate::wire::get_u64(data, 40);
    let count = crate::wire::get_u16(data, 60);
    let mut i: u16 = 0;
    while i < count
        invariant
            i <= count,
            symbol_lookup_from(data@, name@, 0) == symbol_lookup_from(data@, name@, i as int),
        decreases count - i,
    {
        proof {
            assert(sh_off + 64 * (i + 1) <= len) by (nonlinear_arith)
                requires
                    i < count,
                    sh_off + 64 * (count as int) <= len,
            ;
        }
        let base = sh_off + 64 * (i as u64);
        let ty = crate::wire::get_u32(data, (base + 4) as usize);
        let mut here: Option<u64> = None;
        if ty == 2 {
            let so = crate::wire::get_u64(data, (base + 24) as usize);
            let ss = crate::wire::get_u64(data, (base + 32) as usize);
            let li = crate::wire::get_u32(data, (base + 40) as usize);
            if so <= len as u64 && ss <= len as u64 - so && li < count as u32 {
                proof {
                    assert(sh_off + 64 * (li + 1) <= len) by (nonlinear_arith)
                        requires
                            li < count as int,
                            sh_off + 64 * (count as int) <= len,
                    ;
                }
                let stbase = sh_off + 64 * (li as u64);
                let sto = crate::wire::get_u64(data, (stbase + 24) as usize);
                let sts = crate::wire::get_u64(data, (stbase + 32) as usize);
                if sto <= len as u64 && sts <= len as u64 - sto {
                    proof {
                        assert(symtab_ok(data@, i as int));
                    }
                    here = search_symtab(data, so, ss, sto, sto + sts, name);
                } else {
                    proof {
                        assert(!symtab_ok(data@, i as int));
                    }
                }
            } else {
                proof {
                    assert(!symtab_ok(data@, i as int));
                }
            }
        } else {
            proof {
                assert(!symtab_ok(data@, i as int));
            }
        }
        match here {
            Some(v) => {
                return Some(v);
            },
            None => (),
        }
        i += 1;
    }
    None
}

} // verus!
