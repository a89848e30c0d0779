//! The frame allocator's split, extend, conflict and allocation behavior.

use vmrun::frame_allocator::{FrameAllocator, MarkError};
use vmrun::memmap::{FrameRange, MemoryMap, MemoryRegion, MemoryRegionType};

fn region(start: u64, end: u64, t: MemoryRegionType) -> MemoryRegion {
    MemoryRegion {
        range: FrameRange { start_frame_number: start, end_frame_number: end },
        region_type: t,
    }
}

fn allocator_with(regions: &[MemoryRegion]) -> FrameAllocator {
    let mut map = MemoryMap::new();
    for r in regions {
        map.add_region(*r);
    }
    FrameAllocator { memory_map: map }
}

fn regions_of(fa: &FrameAllocator) -> Vec<MemoryRegion> {
    let mut out = Vec::new();
    let mut i = 0;
    while i < fa.memory_map.len() {
        out.push(fa.memory_map.get(i));
        i += 1;
    }
    out
}

fn sorted_regions_of(fa: &mut FrameAllocator) -> Vec<MemoryRegion> {
    fa.memory_map.sort();
    regions_of(fa)
}

#[test]
fn mark_splits_usable_region() {
    let mut fa = allocator_with(&[region(0, 1000, MemoryRegionType::Usable)]);
    fa.mark_allocated_region(region(100, 200, MemoryRegionType::Kernel)).unwrap();
    let got = sorted_regions_of(&mut fa);
    assert_eq!(
        got,
        vec![
            region(0, 100, MemoryRegionType::Usable),
            region(100, 200, MemoryRegionType::Kernel),
            region(200, 1000, MemoryRegionType::Usable),
        ]
    );
}

#[test]
fn mark_extends_adjacent_same_type_region() {
    let mut fa = allocator_with(&[region(0, 1000, MemoryRegionType::Usable)]);
    fa.mark_allocated_region(region(100, 200, MemoryRegionType::Kernel)).unwrap();
    fa.mark_allocated_region(region(200, 250, MemoryRegionType::Kernel)).unwrap();
    let got = sorted_regions_of(&mut fa);
    assert_eq!(
        got,
        vec![
            region(0, 100, MemoryRegionType::Usable),
            region(100, 250, MemoryRegionType::Kernel),
            region(250, 1000, MemoryRegionType::Usable),
        ]
    );
}

#[test]
fn mark_conflicting_overlap_is_fatal() {
    let mut fa = allocator_with(&[region(0, 100, MemoryRegionType::Kernel)]);
    let err = fa.mark_allocated_region(region(50, 150, MemoryRegionType::App)).unwrap_err();
    assert_eq!(err, MarkError::OverlapConflict);
}

#[test]
fn mark_outside_any_region_is_fatal() {
    let mut fa = allocator_with(&[region(0, 100, MemoryRegionType::Usable)]);
    let err = fa.mark_allocated_region(region(500, 600, MemoryRegionType::Kernel)).unwrap_err();
    assert_eq!(err, MarkError::OutOfUsable);
}

#[test]
fn mark_is_idempotent() {
    let mut fa = allocator_with(&[region(0, 1000, MemoryRegionType::Usable)]);
    fa.mark_allocated_region(region(100, 200, MemoryRegionType::Kernel)).unwrap();
    let before = regions_of(&fa);
    fa.mark_allocated_region(region(100, 200, MemoryRegionType::Kernel)).unwrap();
    assert_eq!(regions_of(&fa), before);
}

#[test]
fn mark_consumes_whole_usable_region() {
    let mut fa = allocator_with(&[region(0, 50, MemoryRegionType::Usable)]);
    fa.mark_allocated_region(region(0, 50, MemoryRegionType::BootInfo)).unwrap();
    assert_eq!(regions_of(&fa), vec![region(0, 50, MemoryRegionType::BootInfo)]);
}

#[test]
fn allocate_splits_off_first_usable_region() {
    let mut fa = allocator_with(&[region(10, 20, MemoryRegionType::Usable)]);
    let frame = fa.allocate_frames(4, MemoryRegionType::Kernel).unwrap();
    assert_eq!(frame, 10);
    assert_eq!(
        regions_of(&fa),
        vec![
            region(14, 20, MemoryRegionType::Usable),
            region(10, 14, MemoryRegionType::Kernel),
        ]
    );
}

#[test]
fn allocate_page_tables_from_the_end() {
    let mut fa = allocator_with(&[
        region(0, 8, MemoryRegionType::Usable),
        region(100, 200, MemoryRegionType::Usable),
    ]);
    let frame = fa.allocate_frames(2, MemoryRegionType::PageTable).unwrap();
    assert_eq!(frame, 100);
}

#[test]
fn allocate_extends_existing_region_into_following_usable() {
    let mut fa = allocator_with(&[
        region(0, 4, MemoryRegionType::Kernel),
        region(4, 10, MemoryRegionType::Usable),
    ]);
    let frame = fa.allocate_frames(2, MemoryRegionType::Kernel).unwrap();
    assert_eq!(frame, 4);
    assert_eq!(
        regions_of(&fa),
        vec![
            region(0, 6, MemoryRegionType::Kernel),
            region(6, 10, MemoryRegionType::Usable),
        ]
    );
}

#[test]
fn allocate_without_space_returns_none() {
    let mut fa = allocator_with(&[region(0, 3, MemoryRegionType::Usable)]);
    assert_eq!(fa.allocate_frames(10, MemoryRegionType::Kernel), None);
}

#[test]
fn allocate_frame_takes_one() {
    let mut fa = allocator_with(&[region(0, 3, MemoryRegionType::Usable)]);
    assert_eq!(fa.allocate_frame(MemoryRegionType::App), Some(0));
}

#[test]
fn frame_range_len_and_addresses() {
    let r = FrameRange::new(0x1000, 0x3000);
    assert_eq!(r.start_frame_number, 1);
    assert_eq!(r.end_frame_number, 3);
    assert_eq!(r.len(), 2);
    assert!(!r.is_empty());
    assert_eq!(r.start_addr(), 0x1000);
    assert_eq!(r.end_addr(), 0x3000);
}

#[test]
fn stack_frames_return_to_the_usable_pool() {
    let mut fa = allocator_with(&[region(0, 1000, MemoryRegionType::Usable)]);
    fa.mark_allocated_region(region(100, 200, MemoryRegionType::KernelStack)).unwrap();
    fa.mark_allocated_region(region(300, 400, MemoryRegionType::Kernel)).unwrap();
    fa.set_region_type_usable(MemoryRegionType::KernelStack);
    let got = sorted_regions_of(&mut fa);
    assert_eq!(
        got,
        vec![
            region(0, 100, MemoryRegionType::Usable),
            region(100, 200, MemoryRegionType::Usable),
            region(200, 300, MemoryRegionType::Usable),
            region(300, 400, MemoryRegionType::Kernel),
            region(400, 1000, MemoryRegionType::Usable),
        ]
    );
}
