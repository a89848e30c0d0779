//! The typed guest-physical frame allocator.
//!
//! `mark_allocated_region` carves a typed region out of `Usable` space, or
//! extends an adjacent region of the same type; `allocate_frames` hands out
//! fresh frames of a requested type. Both operations keep the map free of
//! overlaps and neither create nor destroy coverage.
//!
//! An overlap with a region of another type is a true conflict (a double
//! allocation) and is reported as an unrecoverable error, never resolved
//! silently.

use vstd::prelude::*;

verus! {

use crate::memmap::MemoryMap;
use crate::memmap::MemoryRegion;
use crate::memmap::MemoryRegionType;
use crate::memmap::FrameRange;
use crate::memmap::contains_range;
use crate::memmap::ranges_intersect;

/// Why `mark_allocated_region` refused a request. Both cases are fatal to
/// VM construction: they mean the caller asked for frames that are not
/// plain `Usable` space.
#[derive(Clone, Copy, Debug, PartialEq, Eq, Structural)]
pub enum MarkError {
    /// The request overlaps a region that is not `Usable`, or sticks out of
    /// the `Usable` region it starts in: a double allocation.
    OverlapConflict,
    /// The request intersects no region at all: it lies outside of any
    /// mapped memory.
    OutOfUsable,
}

/// `r` with its end frame replaced.
pub open spec fn with_end(r: MemoryRegion, end: u64) -> MemoryRegion {
    MemoryRegion {
        range: FrameRange { start_frame_number: r.range.start_frame_number, end_frame_number: end },
        region_type: r.region_type,
    }
}

/// `r` with its start frame replaced.
pub open spec fn with_start(r: MemoryRegion, start: u64) -> MemoryRegion {
    MemoryRegion {
        range: FrameRange { start_frame_number: start, end_frame_number: r.range.end_frame_number },
        region_type: r.region_type,
    }
}

/// `s[i]` has the same type as `region` and fully contains it.
pub open spec fn container_at(s: Seq<MemoryRegion>, region: MemoryRegion, i: int) -> bool {
    0 <= i < s.len() && s[i].region_type == region.region_type && contains_range(
        s[i].range,
        region.range,
    )
}

/// Some region of `s` has the same type as `region` and fully contains it.
pub open spec fn has_container(s: Seq<MemoryRegion>, region: MemoryRegion) -> bool {
    exists|i: int| container_at(s, region, i)
}

/// `s[i]` shares a frame with `region`.
pub open spec fn intersect_at(s: Seq<MemoryRegion>, region: MemoryRegion, i: int) -> bool {
    0 <= i < s.len() && ranges_intersect(s[i].range, region.range)
}

/// `s[i]` is the first region that shares a frame with `region`.
pub open spec fn first_intersect_at(s: Seq<MemoryRegion>, region: MemoryRegion, i: int) -> bool {
    intersect_at(s, region, i) && (forall|q: int| 0 <= q < i ==> !intersect_at(s, region, q))
}

/// Some region of `s` shares a frame with `region`.
pub open spec fn has_intersect(s: Seq<MemoryRegion>, region: MemoryRegion) -> bool {
    exists|i: int| intersect_at(s, region, i)
}

/// Index of the first region of `s` that shares a frame with `region`.
pub open spec fn first_intersect(s: Seq<MemoryRegion>, region: MemoryRegion) -> int {
    choose|i: int| first_intersect_at(s, region, i)
}

/// `s[i]` is a non-empty region of `region`'s type whose end exactly meets
/// `region`'s start, so that it can grow to absorb `region`.
pub open spec fn extender_at(s: Seq<MemoryRegion>, region: MemoryRegion, i: int) -> bool {
    0 <= i < s.len() && s[i].region_type == region.region_type
        && s[i].range.start_frame_number < s[i].range.end_frame_number
        && s[i].range.end_frame_number == region.range.start_frame_number
}

/// `s[i]` is the first extender for `region`.
pub open spec fn first_extender_at(s: Seq<MemoryRegion>, region: MemoryRegion, i: int) -> bool {
    extender_at(s, region, i) && (forall|q: int| 0 <= q < i ==> !extender_at(s, region, q))
}

/// Some region of `s` can be extended to absorb `region`.
pub open spec fn has_extender(s: Seq<MemoryRegion>, region: MemoryRegion) -> bool {
    exists|i: int| extender_at(s, region, i)
}

/// Index of the first extender of `s` for `region`.
pub open spec fn first_extender(s: Seq<MemoryRegion>, region: MemoryRegion) -> int {
    choose|i: int| first_extender_at(s, region, i)
}

/// If any region intersects, `first_intersect` indeed picks the first one.
pub proof fn lemma_first_intersect_sound(s: Seq<MemoryRegion>, region: MemoryRegion, k: int)
    requires
        intersect_at(s, region, k),
    ensures
        first_intersect_at(s, region, first_intersect(s, region)),
    decreases k,
{
    if forall|q: int| 0 <= q < k ==> !intersect_at(s, region, q) {
        lemma_first_intersect_is(s, region, k);
    } else {
        let q = choose|q: int| 0 <= q < k && intersect_at(s, region, q);
        lemma_first_intersect_sound(s, region, q);
    }
}

/// If any region can be extended, `first_extender` indeed picks the first one.
pub proof fn lemma_first_extender_sound(s: Seq<MemoryRegion>, region: MemoryRegion, k: int)
    requires
        extender_at(s, region, k),
    ensures
        first_extender_at(s, region, first_extender(s, region)),
    decreases k,
{
    if forall|q: int| 0 <= q < k ==> !extender_at(s, region, q) {
        lemma_first_extender_is(s, region, k);
    } else {
        let q = choose|q: int| 0 <= q < k && extender_at(s, region, q);
        lemma_first_extender_sound(s, region, q);
    }
}

/// If `s[k]` is the first growable region, `first_alloc_extend` picks `k`.
pub proof fn lemma_first_alloc_extend_is(s: Seq<MemoryRegion>, num: u64, t: MemoryRegionType, k: int)
    requires
        first_alloc_extend_at(s, num, t, k),
    ensures
        first_alloc_extend(s, num, t) == k,
{
    let i = first_alloc_extend(s, num, t);
    assert(first_alloc_extend_at(s, num, t, i));
    if i < k {
        assert(!alloc_extend_at(s, num, t, i));
    }
    if i > k {
        assert(!alloc_extend_at(s, num, t, k));
    }
}

/// If `s[k]` is the first splittable region, `first_splittable` picks `k`.
pub proof fn lemma_first_splittable_is(s: Seq<MemoryRegion>, num: u64, k: int)
    requires
        first_splittable_at(s, num, k),
    ensures
        first_splittable(s, num) == k,
{
    let i = first_splittable(s, num);
    assert(first_splittable_at(s, num, i));
    if i < k {
        assert(!splittable_at(s, num, i));
    }
    if i > k {
        assert(!splittable_at(s, num, k));
    }
}

/// If `s[k]` is the last splittable region, `last_splittable` picks `k`.
pub proof fn lemma_last_splittable_is(s: Seq<MemoryRegion>, num: u64, k: int)
    requires
        last_splittable_at(s, num, k),
    ensures
        last_splittable(s, num) == k,
{
    let i = last_splittable(s, num);
    assert(last_splittable_at(s, num, i));
    if i < k {
        assert(!splittable_at(s, num, i));
    }
    if i > k {
        assert(!splittable_at(s, num, k));
    }
}

/// If `s[k]` is the first intersecting region, `first_intersect` picks `k`.
pub proof fn lemma_first_intersect_is(s: Seq<MemoryRegion>, region: MemoryRegion, k: int)
    requires
        first_intersect_at(s, region, k),
    ensures
        first_intersect(s, region) == k,
{
    let i = first_intersect(s, region);
    assert(first_intersect_at(s, region, i));
    if i < k {
        assert(!intersect_at(s, region, i));
    }
    if i > k {
        assert(!intersect_at(s, region, k));
    }
}

/// If `s[k]` is the first extender, `first_extender` picks `k`.
pub proof fn lemma_first_extender_is(s: Seq<MemoryRegion>, region: MemoryRegion, k: int)
    requires
        first_extender_at(s, region, k),
    ensures
        first_extender(s, region) == k,
{
    let i = first_extender(s, region);
    assert(first_extender_at(s, region, i));
    if i < k {
        assert(!extender_at(s, region, i));
    }
    if i > k {
        assert(!extender_at(s, region, k));
    }
}

/// If any region can grow, `first_alloc_extend` indeed picks the first one.
pub proof fn lemma_first_alloc_extend_sound(
    s: Seq<MemoryRegion>,
    num: u64,
    t: MemoryRegionType,
    k: int,
)
    requires
        alloc_extend_at(s, num, t, k),
    ensures
        first_alloc_extend_at(s, num, t, first_alloc_extend(s, num, t)),
    decreases k,
{
    if forall|q: int| 0 <= q < k ==> !alloc_extend_at(s, num, t, q) {
        lemma_first_alloc_extend_is(s, num, t, k);
    } else {
        let q = choose|q: int| 0 <= q < k && alloc_extend_at(s, num, t, q);
        lemma_first_alloc_extend_sound(s, num, t, q);
    }
}

/// If any region is splittable, `first_splittable` indeed picks the first.
pub proof fn lemma_first_splittable_sound(s: Seq<MemoryRegion>, num: u64, k: int)
    requires
        splittable_at(s, num, k),
    ensures
        first_splittable_at(s, num, first_splittable(s, num)),
    decreases k,
{
    if forall|q: int| 0 <= q < k ==> !splittable_at(s, num, q) {
        lemma_first_splittable_is(s, num, k);
    } else {
        let q = choose|q: int| 0 <= q < k && splittable_at(s, num, q);
        lemma_first_splittable_sound(s, num, q);
    }
}

/// If any region is splittable, `last_splittable` indeed picks the last.
pub proof fn lemma_last_splittable_sound(s: Seq<MemoryRegion>, num: u64, k: int)
    requires
        splittable_at(s, num, k),
    ensures
        last_splittable_at(s, num, last_splittable(s, num)),
    decreases s.len() - k,
{
    if forall|q: int| k < q < s.len() ==> !splittable_at(s, num, q) {
        lemma_last_splittable_is(s, num, k);
    } else {
        let q = choose|q: int| k < q < s.len() && splittable_at(s, num, q);
        lemma_last_splittable_sound(s, num, q);
    }
}

/// The result map of a successful `mark_allocated_region`, or the error.
///
/// In order:
/// - a region of the same type already contains the request: the map is
///   unchanged;
/// - nothing intersects the request: it lies outside mapped memory;
/// - the first intersecting region must be `Usable` and contain the whole
///   request, else the request conflicts with an earlier allocation;
/// - if a non-empty same-type region ends exactly where the request starts,
///   that region is extended over the request and the `Usable` region
///   shrinks accordingly (merge by extension);
/// - otherwise the `Usable` region is split four ways around the request.
pub open spec fn mark_allocated(s: Seq<MemoryRegion>, region: MemoryRegion) -> Result<
    Seq<MemoryRegion>,
    MarkError,
> {
    if has_container(s, region) {
        Ok(s)
    } else if !has_intersect(s, region) {
        Err(MarkError::OutOfUsable)
    } else {
        let j = first_intersect(s, region);
        let u = s[j];
        if u.region_type != MemoryRegionType::Usable || !contains_range(u.range, region.range) {
            Err(MarkError::OverlapConflict)
        } else if has_extender(s, region) {
            let e = first_extender(s, region);
            Ok(
                s.update(e, with_end(s[e], region.range.end_frame_number)).update(
                    j,
                    with_start(u, region.range.end_frame_number),
                ),
            )
        } else if region.range.start_frame_number == u.range.start_frame_number {
            if region.range.end_frame_number < u.range.end_frame_number {
                Ok(s.update(j, with_start(u, region.range.end_frame_number)).push(region))
            } else {
                Ok(s.update(j, region))
            }
        } else {
            if region.range.end_frame_number < u.range.end_frame_number {
                Ok(
                    s.update(j, with_end(u, region.range.start_frame_number)).push(
                        with_start(u, region.range.end_frame_number),
                    ).push(region),
                )
            } else {
                Ok(s.update(j, with_end(u, region.range.start_frame_number)).push(region))
            }
        }
    }
}

/// `s[i]` is a region of type `t` directly followed (in map order) by a
/// non-empty `Usable` region that starts where `s[i]` ends and holds at
/// least `num` more frames, so `s[i]` can grow by `num` frames into it.
pub open spec fn alloc_extend_at(s: Seq<MemoryRegion>, num: u64, t: MemoryRegionType, i: int) -> bool {
    0 <= i && i + 1 < s.len() && s[i].region_type == t && s[i + 1].range.start_frame_number == s[
        i
    ].range.end_frame_number && s[i + 1].region_type == MemoryRegionType::Usable && s[i
        + 1].range.start_frame_number < s[i + 1].range.end_frame_number && s[
        i + 1
    ].range.end_frame_number >= s[i].range.end_frame_number + num
}

/// `s[i]` is the first region that can grow by `num` frames of type `t`.
pub open spec fn first_alloc_extend_at(
    s: Seq<MemoryRegion>,
    num: u64,
    t: MemoryRegionType,
    i: int,
) -> bool {
    alloc_extend_at(s, num, t, i) && (forall|q: int| 0 <= q < i ==> !alloc_extend_at(s, num, t, q))
}

/// Some region of `s` can grow by `num` frames of type `t`.
pub open spec fn has_alloc_extend(s: Seq<MemoryRegion>, num: u64, t: MemoryRegionType) -> bool {
    exists|i: int| alloc_extend_at(s, num, t, i)
}

/// Index of the first region of `s` that can grow by `num` frames of type `t`.
pub open spec fn first_alloc_extend(s: Seq<MemoryRegion>, num: u64, t: MemoryRegionType) -> int {
    choose|i: int| first_alloc_extend_at(s, num, t, i)
}

/// `s[i]` is a `Usable` region holding at least `num` frames.
pub open spec fn splittable_at(s: Seq<MemoryRegion>, num: u64, i: int) -> bool {
    0 <= i < s.len() && s[i].region_type == MemoryRegionType::Usable && crate::memmap::spec_range_len(
        s[i].range,
    ) >= num
}

/// `s[i]` is the first `Usable` region holding at least `num` frames.
pub open spec fn first_splittable_at(s: Seq<MemoryRegion>, num: u64, i: int) -> bool {
    splittable_at(s, num, i) && (forall|q: int| 0 <= q < i ==> !splittable_at(s, num, q))
}

/// `s[i]` is the last `Usable` region holding at least `num` frames.
pub open spec fn last_splittable_at(s: Seq<MemoryRegion>, num: u64, i: int) -> bool {
    splittable_at(s, num, i) && (forall|q: int| i < q < s.len() ==> !splittable_at(s, num, q))
}

/// Some `Usable` region of `s` holds at least `num` frames.
pub open spec fn has_splittable(s: Seq<MemoryRegion>, num: u64) -> bool {
    exists|i: int| splittable_at(s, num, i)
}

/// Index of the first `Usable` region of `s` holding at least `num` frames.
pub open spec fn first_splittable(s: Seq<MemoryRegion>, num: u64) -> int {
    choose|i: int| first_splittable_at(s, num, i)
}

/// Index of the last `Usable` region of `s` holding at least `num` frames.
pub open spec fn last_splittable(s: Seq<MemoryRegion>, num: u64) -> int {
    choose|i: int| last_splittable_at(s, num, i)
}

/// The first allocated frame and the result map of a successful
/// `allocate_frames`, or `None` when no space is left.
///
/// An existing region of the requested type grows into directly following
/// `Usable` space when it can (avoiding fragmentation); otherwise frames
/// are split off a `Usable` region — off the last one for `PageTable`
/// requests, to keep page tables clustered away from general allocations,
/// off the first one otherwise.
pub open spec fn allocate_frames_spec(s: Seq<MemoryRegion>, num: u64, t: MemoryRegionType) -> Option<
    (u64, Seq<MemoryRegion>),
> {
    if has_alloc_extend(s, num, t) {
        let i = first_alloc_extend(s, num, t);
        let frame = s[i].range.end_frame_number;
        Some(
            (
                frame,
                s.update(i, with_end(s[i], (frame + num) as u64)).update(
                    i + 1,
                    with_start(s[i + 1], (s[i + 1].range.start_frame_number + num) as u64),
                ),
            ),
        )
    } else if !has_splittable(s, num) {
        None
    } else {
        let j = if t == MemoryRegionType::PageTable {
            last_splittable(s, num)
        } else {
            first_splittable(s, num)
        };
        let frame = s[j].range.start_frame_number;
        Some(
            (
                frame,
                s.update(j, with_start(s[j], (frame + num) as u64)).push(
                    MemoryRegion {
                        range: FrameRange {
                            start_frame_number: frame,
                            end_frame_number: (frame + num) as u64,
                        },
                        region_type: t,
                    },
                ),
            ),
        )
    }
}

/// Owns the typed memory map and allocates guest-physical frames from it.
#[derive(Debug)]
pub struct FrameAllocator {
    /// The typed map of all guest-physical memory.
    pub memory_map: MemoryMap,
}

/// Whether two frame ranges share at least one frame.
pub fn range_intersects(a: &FrameRange, b: &FrameRange) -> (r: bool)
    ensures
        r == ranges_intersect(*a, *b),
{
    let lo = if a.start_frame_number >= b.start_frame_number {
        a.start_frame_number
    } else {
        b.start_frame_number
    };
    let hi = if a.end_frame_number <= b.end_frame_number {
        a.end_frame_number
    } else {
        b.end_frame_number
    };
    lo < hi
}

impl FrameAllocator {
    /// Marks `region` in the memory map, carving it out of `Usable` space
    /// or extending an adjacent region of the same type.
    ///
    /// Fails — fatally for VM construction — when the request overlaps a
    /// region of another type or lies outside `Usable` space; the map is
    /// then unchanged.
    #[verifier::loop_isolation(false)]
    pub fn mark_allocated_region(&mut self, region: MemoryRegion) -> (r: Result<(), MarkError>)
        ensures
            (match mark_allocated(old(self).memory_map@, region) {
                Ok(m) => r is Ok && final(self).memory_map@ == m,
                Err(err) => r == Err::<(), MarkError>(err) && final(self).memory_map@ == old(
                    self,
                ).memory_map@,
            }),
    {
        let ghost s: Seq<MemoryRegion> = self.memory_map@;
        let len = self.memory_map.len();

        // A same-type region that already contains the request: nothing to do.
        let mut i: usize = 0;
        while i < len
            invariant
                i <= len,
                self.memory_map@ == s,
                forall|q: int| 0 <= q < i ==> !container_at(s, region, q),
            decreases len - i,
        {
            let r = self.memory_map.get(i);
            if r.region_type == region.region_type && r.range.start_frame_number
                <= region.range.start_frame_number && region.range.end_frame_number
                <= r.range.end_frame_number {
                proof {
                    assert(container_at(s, region, i as int));
                }
                return Ok(());
            }
            i += 1;
        }
        proof {
            assert forall|q: int| !container_at(s, region, q) by {
                if 0 <= q < s.len() {
                    assert(!container_at(s, region, q));
                }
            }
        }

        // Find the first region that shares a frame with the request.
        let mut j: usize = 0;
        while j < len
            invariant
                j <= len,
                self.memory_map@ == s,
                forall|q: int| 0 <= q < j ==> !intersect_at(s, region, q),
            decreases len - j,
        {
            let u = self.memory_map.get(j);
            if range_intersects(&u.range, &region.range) {
                proof {
                    assert(first_intersect_at(s, region, j as int));
                    lemma_first_intersect_is(s, region, j as int);
                }
                if !(u.region_type == MemoryRegionType::Usable) {
                    return Err(MarkError::OverlapConflict);
                }
                if !(u.range.start_frame_number <= region.range.start_frame_number
                    && region.range.end_frame_number <= u.range.end_frame_number) {
                    return Err(MarkError::OverlapConflict);
                }

                // A same-type neighbor ending at the request's start grows
                // over the request instead of a fresh region being added.
                let mut e: usize = 0;
                while e < len
                    invariant
                        e <= len,
                        self.memory_map@ == s,
                        forall|q: int| 0 <= q < e ==> !extender_at(s, region, q),
                    decreases len - e,
                {
                    let x = self.memory_map.get(e);
                    if x.region_type == region.region_type && x.range.start_frame_number
                        < x.range.end_frame_number && x.range.end_frame_number
                        == region.range.start_frame_number {
                        proof {
                            assert(extender_at(s, region, e as int));
                            lemma_first_extender_is(s, region, e as int);
                            assert(e as int != j as int);
                        }
                        let mut grown = x;
                        grown.range.end_frame_number = region.range.end_frame_number;
                        let mut shrunk = u;
                        shrunk.range.start_frame_number = region.range.end_frame_number;
                        self.memory_map.set(e, grown);
                        self.memory_map.set(j, shrunk);
                        proof {
                            assert(self.memory_map@ =~= s.update(
                                e as int,
                                with_end(s[e as int], region.range.end_frame_number),
                            ).update(j as int, with_start(s[j as int], region.range.end_frame_number)));
                        }
                        return Ok(());
                    }
                    e += 1;
                }
                proof {
                    assert forall|q: int| !extender_at(s, region, q) by {
                        if 0 <= q < s.len() {
                            assert(!extender_at(s, region, q));
                        }
                    }
                }

                // Four-way split of the Usable region around the request.
                if region.range.start_frame_number == u.range.start_frame_number {
                    if region.range.end_frame_number < u.range.end_frame_number {
                        let mut tail = u;
                        tail.range.start_frame_number = region.range.end_frame_number;
                        self.memory_map.set(j, tail);
                        self.memory_map.add_region(region);
                        proof {
                            assert(self.memory_map@ =~= s.update(
                                j as int,
                                with_start(s[j as int], region.range.end_frame_number),
                            ).push(region));
                        }
                    } else {
                        self.memory_map.set(j, region);
                        proof {
                            assert(self.memory_map@ =~= s.update(j as int, region));
                        }
                    }
                } else {
                    if region.range.end_frame_number < u.range.end_frame_number {
                        let mut head = u;
                        head.range.end_frame_number = region.range.start_frame_number;
                        let mut tail = u;
                        tail.range.start_frame_number = region.range.end_frame_number;
                        self.memory_map.set(j, head);
                        self.memory_map.add_region(tail);
                        self.memory_map.add_region(region);
                        proof {
                            assert(self.memory_map@ =~= s.update(
                                j as int,
                                with_end(s[j as int], region.range.start_frame_number),
                            ).push(with_start(s[j as int], region.range.end_frame_number)).push(
                                region,
                            ));
                        }
                    } else {
                        let mut head = u;
                        head.range.end_frame_number = region.range.start_frame_number;
                        self.memory_map.set(j, head);
                        self.memory_map.add_region(region);
                        proof {
                            assert(self.memory_map@ =~= s.update(
                                j as int,
                                with_end(s[j as int], region.range.start_frame_number),
                            ).push(region));
                        }
                    }
                }
                return Ok(());
            }
            j += 1;
        }
        proof {
            assert forall|q: int| !intersect_at(s, region, q) by {
                if 0 <= q < s.len() {
                    assert(!intersect_at(s, region, q));
                }
            }
        }
        Err(MarkError::OutOfUsable)
    }

    /// Allocates `num` fresh frames of type `region_type`, returning the
    /// first allocated frame number, or `None` when no `Usable` region
    /// holds `num` contiguous frames; the map is then unchanged.
    #[verifier::loop_isolation(false)]
    pub fn allocate_frames(&mut self, num: u64, region_type: MemoryRegionType) -> (r: Option<u64>)
        ensures
            (match allocate_frames_spec(old(self).memory_map@, num, region_type) {
                Some((frame, m)) => r == Some(frame) && final(self).memory_map@ == m,
                None => r is None && final(self).memory_map@ == old(self).memory_map@,
            }),
    {
        let ghost s: Seq<MemoryRegion> = self.memory_map@;
        let len = self.memory_map.len();

        // Grow an existing region of the same type into directly
        // following Usable space, to avoid fragmentation.
        if len > 0 {
            let mut i: usize = 0;
            while i + 1 < len
                invariant
                    i < len,
                    self.memory_map@ == s,
                    forall|q: int| 0 <= q < i ==> !alloc_extend_at(s, num, region_type, q),
                decreases len - i,
            {
                let a = self.memory_map.get(i);
                let b = self.memory_map.get(i + 1);
                if a.region_type == region_type && b.range.start_frame_number
                    == a.range.end_frame_number && b.region_type == MemoryRegionType::Usable
                    && b.range.start_frame_number < b.range.end_frame_number
                    && b.range.end_frame_number - a.range.end_frame_number >= num {
                    proof {
                        assert(alloc_extend_at(s, num, region_type, i as int));
                        lemma_first_alloc_extend_is(s, num, region_type, i as int);
                    }
                    let frame = a.range.end_frame_number;
                    let mut grown = a;
                    grown.range.end_frame_number = frame + num;
                    let mut shrunk = b;
                    shrunk.range.start_frame_number = b.range.start_frame_number + num;
                    self.memory_map.set(i, grown);
                    self.memory_map.set(i + 1, shrunk);
                    proof {
                        assert(self.memory_map@ =~= s.update(
                            i as int,
                            with_end(s[i as int], (frame + num) as u64),
                        ).update(
                            i + 1,
                            with_start(
                                s[i + 1],
                                (s[i + 1].range.start_frame_number + num) as u64,
                            ),
                        ));
                    }
                    return Some(frame);
                }
                i += 1;
            }
        }
        proof {
            assert forall|q: int| !alloc_extend_at(s, num, region_type, q) by {
                if 0 <= q && q + 1 < s.len() {
                    assert(!alloc_extend_at(s, num, region_type, q));
                }
            }
        }

        // Split frames off a Usable region: off the last one for page
        // tables, to keep them clustered away from general allocations,
        // off the first one otherwise.
        if region_type == MemoryRegionType::PageTable {
            let mut j: usize = len;
            while j > 0
                invariant
                    j <= len,
                    self.memory_map@ == s,
                    forall|q: int| j <= q < len ==> !splittable_at(s, num, q),
                decreases j,
            {
                j -= 1;
                let u = self.memory_map.get(j);
                if u.region_type == MemoryRegionType::Usable && u.range.len() >= num {
                    proof {
                        assert(splittable_at(s, num, j as int));
                        lemma_last_splittable_is(s, num, j as int);
                    }
                    return Some(self.split_off(j, num, region_type));
                }
                proof {
                    assert(!splittable_at(s, num, j as int));
                }
            }
        } else {
            let mut j: usize = 0;
            while j < len
                invariant
                    j <= len,
                    self.memory_map@ == s,
                    forall|q: int| 0 <= q < j ==> !splittable_at(s, num, q),
                decreases len - j,
            {
                let u = self.memory_map.get(j);
                if u.region_type == MemoryRegionType::Usable && u.range.len() >= num {
                    proof {
                        assert(splittable_at(s, num, j as int));
                        lemma_first_splittable_is(s, num, j as int);
                    }
                    return Some(self.split_off(j, num, region_type));
                }
                j += 1;
            }
        }
        proof {
            assert forall|q: int| !splittable_at(s, num, q) by {
                if 0 <= q < s.len() {
                    assert(!splittable_at(s, num, q));
                }
            }
        }
        None
    }

    /// Splits `num` frames off the start of the `Usable` region at index
    /// `j` and appends a fresh region of type `region_type` covering them.
    fn split_off(&mut self, j: usize, num: u64, region_type: MemoryRegionType) -> (frame: u64)
        requires
            splittable_at(old(self).memory_map@, num, j as int),
        ensures
            frame == old(self).memory_map@[j as int].range.start_frame_number,
            final(self).memory_map@ == old(self).memory_map@.update(
                j as int,
                with_start(old(self).memory_map@[j as int], (frame + num) as u64),
            ).push(
                (MemoryRegion {
                    range: FrameRange {
                        start_frame_number: frame,
                        end_frame_number: (frame + num) as u64,
                    },
                    region_type: region_type,
                }),
            ),
    {
        let u = self.memory_map.get(j);
        let frame = u.range.start_frame_number;
        proof {
            assert(frame + num <= u64::MAX);
        }
        let mut shrunk = u;
        shrunk.range.start_frame_number = frame + num;
        self.memory_map.set(j, shrunk);
        self.memory_map.add_region(
            MemoryRegion {
                range: FrameRange { start_frame_number: frame, end_frame_number: frame + num },
                region_type,
            },
        );
        frame
    }

    /// Returns every region of type `t` to the `Usable` pool, keeping
    /// its frames; the guest kernel does this with the boot stack once
    /// it runs on its own stack.
    #[verifier::loop_isolation(false)]
    pub fn set_region_type_usable(&mut self, t: MemoryRegionType)
        ensures
            final(self).memory_map@.len() == old(self).memory_map@.len(),
            forall|i: int|
                0 <= i < old(self).memory_map@.len() ==> final(self).memory_map@[i]
                    == (MemoryRegion {
                    range: old(self).memory_map@[i].range,
                    region_type: (if old(self).memory_map@[i].region_type == t {
                        MemoryRegionType::Usable
                    } else {
                        old(self).memory_map@[i].region_type
                    }),
                }),
    {
        let n = self.memory_map.len();
        let mut i: usize = 0;
        while i < n
            invariant
                i <= n,
                self.memory_map@.len() == old(self).memory_map@.len(),
                forall|j: int|
                    i <= j < n ==> self.memory_map@[j] == old(self).memory_map@[j],
                forall|j: int|
                    0 <= j < i ==> self.memory_map@[j] == (MemoryRegion {
                        range: old(self).memory_map@[j].range,
                        region_type: (if old(self).memory_map@[j].region_type == t {
                            MemoryRegionType::Usable
                        } else {
                            old(self).memory_map@[j].region_type
                        }),
                    }),
            decreases n - i,
        {
            let r = self.memory_map.get(i);
            if r.region_type == t {
                self.memory_map.set(
                    i,
                    MemoryRegion { range: r.range, region_type: MemoryRegionType::Usable },
                );
            } else {
                proof {
                    assert(self.memory_map@[i as int] == (MemoryRegion {
                        range: old(self).memory_map@[i as int].range,
                        region_type: old(self).memory_map@[i as int].region_type,
                    }));
                }
            }
            i += 1;
        }
    }

    /// Allocates one fresh frame of type `region_type`.
    pub fn allocate_frame(&mut self, region_type: MemoryRegionType) -> (r: Option<u64>)
        ensures
            (match allocate_frames_spec(old(self).memory_map@, 1, region_type) {
                Some((frame, m)) => r == Some(frame) && final(self).memory_map@ == m,
                None => r is None && final(self).memory_map@ == old(self).memory_map@,
            }),
    {
        self.allocate_frames(1, region_type)
    }
}

} // verus!
