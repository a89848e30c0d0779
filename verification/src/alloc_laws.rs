//! Global laws of the frame allocator: marking a region never makes two
//! regions overlap, never creates or destroys coverage, and is idempotent;
//! the same holds of frame allocation.

use vstd::prelude::*;

verus! {

use crate::memmap::MemoryRegion;
use crate::memmap::MemoryRegionType;
use crate::memmap::contains_range;
use crate::memmap::ranges_intersect;
use crate::memmap::range_covers;
use crate::memmap::frame_covered;
use crate::memmap::covered_frames;
use crate::memmap::map_disjoint;
use crate::frame_allocator::MarkError;
use crate::frame_allocator::mark_allocated;
use crate::frame_allocator::allocate_frames_spec;
use crate::frame_allocator::with_end;
use crate::frame_allocator::with_start;
use crate::frame_allocator::has_container;
use crate::frame_allocator::container_at;
use crate::frame_allocator::has_intersect;
use crate::frame_allocator::intersect_at;
use crate::frame_allocator::first_intersect;
use crate::frame_allocator::first_intersect_at;
use crate::frame_allocator::has_extender;
use crate::frame_allocator::extender_at;
use crate::frame_allocator::first_extender;
use crate::frame_allocator::first_extender_at;
use crate::frame_allocator::has_alloc_extend;
use crate::frame_allocator::alloc_extend_at;
use crate::frame_allocator::first_alloc_extend;
use crate::frame_allocator::first_alloc_extend_at;
use crate::frame_allocator::splittable_at;
use crate::frame_allocator::first_splittable;
use crate::frame_allocator::last_splittable;
use crate::frame_allocator::lemma_first_intersect_sound;
use crate::frame_allocator::lemma_first_extender_sound;
use crate::frame_allocator::lemma_first_alloc_extend_sound;
use crate::frame_allocator::lemma_first_splittable_sound;
use crate::frame_allocator::lemma_last_splittable_sound;

/// Every range of the map is well formed: its start is not past its end.
pub open spec fn ranges_wf(s: Seq<MemoryRegion>) -> bool {
    forall|i: int|
        0 <= i < s.len() ==> (#[trigger] s[i].range).start_frame_number
            <= s[i].range.end_frame_number
}

/// A well-formed map: well-formed ranges, no two of which share a frame.
pub open spec fn map_wf(s: Seq<MemoryRegion>) -> bool {
    ranges_wf(s) && map_disjoint(s)
}

/// Establishes the facts common to every successful non-trivial mark:
/// which index the model picked and what holds of it.
proof fn lemma_mark_ok_context(s: Seq<MemoryRegion>, region: MemoryRegion)
    requires
        mark_allocated(s, region) is Ok,
        !has_container(s, region),
    ensures
        has_intersect(s, region),
        first_intersect_at(s, region, first_intersect(s, region)),
        s[first_intersect(s, region)].region_type == MemoryRegionType::Usable,
        contains_range(s[first_intersect(s, region)].range, region.range),
        region.range.start_frame_number < region.range.end_frame_number,
        has_extender(s, region) ==> first_extender_at(s, region, first_extender(s, region)),
        has_extender(s, region) ==> first_extender(s, region) != first_intersect(s, region),
{
    assert(has_intersect(s, region));
    let k = choose|i: int| intersect_at(s, region, i);
    lemma_first_intersect_sound(s, region, k);
    let j = first_intersect(s, region);
    assert(ranges_intersect(s[j].range, region.range));
    if has_extender(s, region) {
        let k2 = choose|i: int| extender_at(s, region, i);
        lemma_first_extender_sound(s, region, k2);
        let e = first_extender(s, region);
        if e == j {
            assert(s[j].range.end_frame_number == region.range.start_frame_number);
            assert(!ranges_intersect(s[j].range, region.range));
        }
    }
}

/// Non-overlap: a successful `mark_allocated_region` keeps the map free of
/// any two regions that share a frame (in particular free of two
/// overlapping regions of different non-`Usable` types), and keeps every
/// range well formed.
pub proof fn lemma_mark_preserves_wf(s: Seq<MemoryRegion>, region: MemoryRegion, m: Seq<MemoryRegion>)
    requires
        map_wf(s),
        mark_allocated(s, region) == Ok::<Seq<MemoryRegion>, MarkError>(m),
    ensures
        map_wf(m),
{
    if has_container(s, region) {
        assert(m == s);
    } else {
        lemma_mark_ok_context(s, region);
        let j = first_intersect(s, region);
        let u = s[j];
        let rs = region.range.start_frame_number;
        let re = region.range.end_frame_number;
        if has_extender(s, region) {
            let e = first_extender(s, region);
            assert(m == s.update(e, with_end(s[e], re)).update(j, with_start(u, re)));
            assert forall|p: int, q: int|
                0 <= p < m.len() && 0 <= q < m.len() && p != q implies !ranges_intersect(
                m[p].range,
                m[q].range,
            ) by {
                assert(!ranges_intersect(s[p].range, s[q].range));
                assert(!ranges_intersect(s[p].range, s[j].range) || p == j);
                assert(!ranges_intersect(s[q].range, s[j].range) || q == j);
                assert(!ranges_intersect(s[p].range, s[e].range) || p == e);
                assert(!ranges_intersect(s[q].range, s[e].range) || q == e);
            }
            assert(ranges_wf(m)) by {
                assert forall|i: int|
                    0 <= i < m.len() implies (#[trigger] m[i].range).start_frame_number
                    <= m[i].range.end_frame_number by {
                    assert(s[i].range.start_frame_number <= s[i].range.end_frame_number);
                }
            }
        } else {
            assert forall|p: int, q: int|
                0 <= p < m.len() && 0 <= q < m.len() && p != q implies !ranges_intersect(
                m[p].range,
                m[q].range,
            ) by {
                if 0 <= p < s.len() && 0 <= q < s.len() {
                    assert(!ranges_intersect(s[p].range, s[q].range));
                }
                if 0 <= p < s.len() {
                    assert(!ranges_intersect(s[p].range, s[j].range) || p == j);
                }
                if 0 <= q < s.len() {
                    assert(!ranges_intersect(s[q].range, s[j].range) || q == j);
                }
            }
            assert(ranges_wf(m)) by {
                assert forall|i: int|
                    0 <= i < m.len() implies (#[trigger] m[i].range).start_frame_number
                    <= m[i].range.end_frame_number by {
                    if 0 <= i < s.len() {
                        assert(s[i].range.start_frame_number <= s[i].range.end_frame_number);
                    }
                }
            }
        }
    }
}

/// Idempotence: after a successful `mark_allocated_region`, marking the
/// identical region again succeeds and leaves the map unchanged.
pub proof fn lemma_mark_idempotent(s: Seq<MemoryRegion>, region: MemoryRegion, m: Seq<MemoryRegion>)
    requires
        mark_allocated(s, region) == Ok::<Seq<MemoryRegion>, MarkError>(m),
    ensures
        mark_allocated(m, region) == Ok::<Seq<MemoryRegion>, MarkError>(m),
{
    if has_container(s, region) {
        assert(m == s);
    } else {
        lemma_mark_ok_context(s, region);
        let j = first_intersect(s, region);
        if has_extender(s, region) {
            let e = first_extender(s, region);
            assert(container_at(m, region, e));
        } else if region.range.start_frame_number == s[j].range.start_frame_number {
            if region.range.end_frame_number < s[j].range.end_frame_number {
                assert(container_at(m, region, s.len() as int));
            } else {
                assert(container_at(m, region, j));
            }
        } else {
            if region.range.end_frame_number < s[j].range.end_frame_number {
                assert(container_at(m, region, s.len() + 1int));
            } else {
                assert(container_at(m, region, s.len() as int));
            }
        }
    }
}

/// Coverage conservation: a successful `mark_allocated_region` covers
/// exactly the frames that were covered before — bookkeeping neither
/// creates nor destroys frames.
pub proof fn lemma_mark_preserves_coverage(
    s: Seq<MemoryRegion>,
    region: MemoryRegion,
    m: Seq<MemoryRegion>,
)
    requires
        map_wf(s),
        mark_allocated(s, region) == Ok::<Seq<MemoryRegion>, MarkError>(m),
    ensures
        covered_frames(m) == covered_frames(s),
{
    if has_container(s, region) {
        assert(m == s);
        assert(covered_frames(m) =~= covered_frames(s));
    } else {
        lemma_mark_ok_context(s, region);
        let j = first_intersect(s, region);
        let u = s[j];
        let rs = region.range.start_frame_number;
        let re = region.range.end_frame_number;
        if has_extender(s, region) {
            let e = first_extender(s, region);
            // Under disjointness the Usable region must start exactly at
            // the request, since the extender ends there.
            assert(u.range.start_frame_number == rs) by {
                if u.range.start_frame_number < rs {
                    assert(ranges_intersect(s[e].range, u.range));
                }
            }
            assert forall|f: int| frame_covered(m, f) <==> frame_covered(s, f) by {
                if frame_covered(m, f) {
                    let i = choose|i: int|
                        0 <= i < m.len() && range_covers(#[trigger] m[i].range, f);
                    if i == e {
                        if f < rs {
                            assert(range_covers(s[e].range, f));
                        } else {
                            assert(range_covers(s[j].range, f));
                        }
                    } else if i == j {
                        assert(range_covers(s[j].range, f));
                    } else {
                        assert(range_covers(s[i].range, f));
                    }
                }
                if frame_covered(s, f) {
                    let i = choose|i: int|
                        0 <= i < s.len() && range_covers(#[trigger] s[i].range, f);
                    if i == e {
                        assert(range_covers(m[e].range, f));
                    } else if i == j {
                        if f < re {
                            assert(s[e].range.start_frame_number < rs);
                            assert(range_covers(m[e].range, f));
                        } else {
                            assert(range_covers(m[j].range, f));
                        }
                    } else {
                        assert(range_covers(m[i].range, f));
                    }
                }
            }
            assert(covered_frames(m) =~= covered_frames(s));
        } else {
            let n = s.len() as int;
            assert forall|f: int| frame_covered(m, f) <==> frame_covered(s, f) by {
                if frame_covered(m, f) {
                    let i = choose|i: int|
                        0 <= i < m.len() && range_covers(#[trigger] m[i].range, f);
                    if 0 <= i < n && i != j {
                        assert(range_covers(s[i].range, f));
                    } else {
                        assert(range_covers(s[j].range, f));
                    }
                }
                if frame_covered(s, f) {
                    let i = choose|i: int|
                        0 <= i < s.len() && range_covers(#[trigger] s[i].range, f);
                    if i != j {
                        assert(range_covers(m[i].range, f));
                    } else {
                        // f lies in the old Usable region: it is now in
                        // the head, the new region, or the tail.
                        if rs == u.range.start_frame_number {
                            if re < u.range.end_frame_number {
                                if f < re {
                                    assert(range_covers(m[n].range, f));
                                } else {
                                    assert(range_covers(m[j].range, f));
                                }
                            } else {
                                assert(range_covers(m[j].range, f));
                            }
                        } else {
                            if re < u.range.end_frame_number {
                                if f < rs {
                                    assert(range_covers(m[j].range, f));
                                } else if f < re {
                                    assert(range_covers(m[n + 1].range, f));
                                } else {
                                    assert(range_covers(m[n].range, f));
                                }
                            } else {
                                if f < rs {
                                    assert(range_covers(m[j].range, f));
                                } else {
                                    assert(range_covers(m[n].range, f));
                                }
                            }
                        }
                    }
                }
            }
            assert(covered_frames(m) =~= covered_frames(s));
        }
    }
}

/// Non-overlap for allocation: a successful `allocate_frames` keeps the
/// map well formed and free of any two regions that share a frame.
pub proof fn lemma_allocate_preserves_wf(
    s: Seq<MemoryRegion>,
    num: u64,
    t: MemoryRegionType,
    frame: u64,
    m: Seq<MemoryRegion>,
)
    requires
        map_wf(s),
        allocate_frames_spec(s, num, t) == Some((frame, m)),
    ensures
        map_wf(m),
{
    if has_alloc_extend(s, num, t) {
        let k = choose|i: int| alloc_extend_at(s, num, t, i);
        lemma_first_alloc_extend_sound(s, num, t, k);
        let i = first_alloc_extend(s, num, t);
        assert forall|p: int, q: int|
            0 <= p < m.len() && 0 <= q < m.len() && p != q implies !ranges_intersect(
            m[p].range,
            m[q].range,
        ) by {
            assert(!ranges_intersect(s[p].range, s[q].range));
            assert(!ranges_intersect(s[p].range, s[i].range) || p == i);
            assert(!ranges_intersect(s[q].range, s[i].range) || q == i);
            assert(!ranges_intersect(s[p].range, s[i + 1].range) || p == i + 1);
            assert(!ranges_intersect(s[q].range, s[i + 1].range) || q == i + 1);
        }
        assert(ranges_wf(m)) by {
            assert forall|x: int|
                0 <= x < m.len() implies (#[trigger] m[x].range).start_frame_number
                <= m[x].range.end_frame_number by {
                assert(s[x].range.start_frame_number <= s[x].range.end_frame_number);
            }
        }
    } else {
        let j = if t == MemoryRegionType::PageTable {
            let k = choose|i: int| splittable_at(s, num, i);
            lemma_last_splittable_sound(s, num, k);
            last_splittable(s, num)
        } else {
            let k = choose|i: int| splittable_at(s, num, i);
            lemma_first_splittable_sound(s, num, k);
            first_splittable(s, num)
        };
        assert(splittable_at(s, num, j));
        assert forall|p: int, q: int|
            0 <= p < m.len() && 0 <= q < m.len() && p != q implies !ranges_intersect(
            m[p].range,
            m[q].range,
        ) by {
            if 0 <= p < s.len() && 0 <= q < s.len() {
                assert(!ranges_intersect(s[p].range, s[q].range));
            }
            if 0 <= p < s.len() {
                assert(!ranges_intersect(s[p].range, s[j].range) || p == j);
            }
            if 0 <= q < s.len() {
                assert(!ranges_intersect(s[q].range, s[j].range) || q == j);
            }
        }
        assert(ranges_wf(m)) by {
            assert forall|x: int|
                0 <= x < m.len() implies (#[trigger] m[x].range).start_frame_number
                <= m[x].range.end_frame_number by {
                if 0 <= x < s.len() {
                    assert(s[x].range.start_frame_number <= s[x].range.end_frame_number);
                }
                assert(s[j].range.start_frame_number <= s[j].range.end_frame_number);
            }
        }
    }
}

/// Coverage conservation for allocation: a successful `allocate_frames`
/// covers exactly the frames that were covered before.
pub proof fn lemma_allocate_preserves_coverage(
    s: Seq<MemoryRegion>,
    num: u64,
    t: MemoryRegionType,
    frame: u64,
    m: Seq<MemoryRegion>,
)
    requires
        map_wf(s),
        allocate_frames_spec(s, num, t) == Some((frame, m)),
    ensures
        covered_frames(m) == covered_frames(s),
{
    if has_alloc_extend(s, num, t) {
        let k = choose|i: int| alloc_extend_at(s, num, t, i);
        lemma_first_alloc_extend_sound(s, num, t, k);
        let i = first_alloc_extend(s, num, t);
        let mid = s[i].range.end_frame_number;
        assert forall|f: int| frame_covered(m, f) <==> frame_covered(s, f) by {
            if frame_covered(m, f) {
                let x = choose|x: int| 0 <= x < m.len() && range_covers(#[trigger] m[x].range, f);
                if x == i {
                    if f < mid {
                        assert(range_covers(s[i].range, f));
                    } else {
                        assert(range_covers(s[i + 1].range, f));
                    }
                } else if x == i + 1 {
                    assert(range_covers(s[i + 1].range, f));
                } else {
                    assert(range_covers(s[x].range, f));
                }
            }
            if frame_covered(s, f) {
                let x = choose|x: int| 0 <= x < s.len() && range_covers(#[trigger] s[x].range, f);
                if x == i {
                    assert(range_covers(m[i].range, f));
                } else if x == i + 1 {
                    if f < mid + num {
                        assert(range_covers(m[i].range, f));
                    } else {
                        assert(range_covers(m[i + 1].range, f));
                    }
                } else {
                    assert(range_covers(m[x].range, f));
                }
            }
        }
        assert(covered_frames(m) =~= covered_frames(s));
    } else {
        let j = if t == MemoryRegionType::PageTable {
            let k = choose|i: int| splittable_at(s, num, i);
            lemma_last_splittable_sound(s, num, k);
            last_splittable(s, num)
        } else {
            let k = choose|i: int| splittable_at(s, num, i);
            lemma_first_splittable_sound(s, num, k);
            first_splittable(s, num)
        };
        assert(splittable_at(s, num, j));
        let n = s.len() as int;
        assert forall|f: int| frame_covered(m, f) <==> frame_covered(s, f) by {
            if frame_covered(m, f) {
                let x = choose|x: int| 0 <= x < m.len() && range_covers(#[trigger] m[x].range, f);
                if x == j || x == n {
                    assert(range_covers(s[j].range, f));
                } else {
                    assert(range_covers(s[x].range, f));
                }
            }
            if frame_covered(s, f) {
                let x = choose|x: int| 0 <= x < s.len() && range_covers(#[trigger] s[x].range, f);
                if x == j {
                    if f < frame + num {
                        assert(range_covers(m[n].range, f));
                    } else {
                        assert(range_covers(m[j].range, f));
                    }
                } else {
                    assert(range_covers(m[x].range, f));
                }
            }
        }
        assert(covered_frames(m) =~= covered_frames(s));
    }
}

} // verus!
