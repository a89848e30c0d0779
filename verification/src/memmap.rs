//! The typed guest-physical memory map: frame ranges, region types, and the
//! ordered collection of regions that the frame allocator works on.

use vstd::prelude::*;

verus! {

use crate::layout::PAGE_SIZE;

/// What a range of guest-physical frames is currently used for.
#[derive(Clone, Copy, Debug, PartialEq, Eq, Structural)]
pub enum MemoryRegionType {
    /// Free memory, the only type that may be carved into other types.
    Usable,
    /// Memory reserved by the platform or the boot layout.
    Reserved,
    /// Frames holding the boot page tables.
    PageTable,
    /// The frame holding the boot-info structure.
    BootInfo,
    /// The frame shared between guest and host for the syscall proxy.
    SysCall,
    /// Frames holding the loaded guest kernel image.
    Kernel,
    /// Frames of the boot stack.
    KernelStack,
    /// Frames holding the loaded application image.
    App,
    /// Frame zero, never handed out.
    FrameZero,
}

/// A half-open, frame-granular range `[start_frame_number, end_frame_number)`.
#[derive(Clone, Copy, Debug, PartialEq, Eq, Structural)]
pub struct FrameRange {
    /// The first frame of the range.
    pub start_frame_number: u64,
    /// The first frame past the end of the range.
    pub end_frame_number: u64,
}

/// The number of frames in `r`, zero for a malformed range.
pub open spec fn spec_range_len(r: FrameRange) -> int {
    if r.start_frame_number <= r.end_frame_number {
        r.end_frame_number - r.start_frame_number
    } else {
        0
    }
}

/// Whether `r` covers frame number `f`.
pub open spec fn range_covers(r: FrameRange, f: int) -> bool {
    r.start_frame_number <= f < r.end_frame_number
}

/// Whether `outer` covers every frame of `inner`.
pub open spec fn contains_range(outer: FrameRange, inner: FrameRange) -> bool {
    outer.start_frame_number <= inner.start_frame_number
        && inner.end_frame_number <= outer.end_frame_number
}

/// Whether `a` and `b` share at least one frame.
pub open spec fn ranges_intersect(a: FrameRange, b: FrameRange) -> bool {
    (if a.start_frame_number >= b.start_frame_number {
        a.start_frame_number
    } else {
        b.start_frame_number
    }) < (if a.end_frame_number <= b.end_frame_number {
        a.end_frame_number
    } else {
        b.end_frame_number
    })
}

impl FrameRange {
    /// The range of frames that covers the bytes `[start_addr, end_addr)`.
    pub fn new(start_addr: u64, end_addr: u64) -> (r: FrameRange)
        requires
            end_addr >= 1,
        ensures
            r.start_frame_number == start_addr as int / PAGE_SIZE as int,
            r.end_frame_number == (end_addr - 1) as int / PAGE_SIZE as int + 1,
    {
        let last_byte = end_addr - 1;
        FrameRange {
            start_frame_number: start_addr / PAGE_SIZE as u64,
            end_frame_number: last_byte / PAGE_SIZE as u64 + 1,
        }
    }

    /// How many frames the range holds; zero for a malformed range.
    pub fn len(&self) -> (n: u64)
        ensures
            n == spec_range_len(*self),
    {
        if self.end_frame_number <= self.start_frame_number {
            0
        } else {
            self.end_frame_number - self.start_frame_number
        }
    }

    /// Whether the range holds no frame.
    pub fn is_empty(&self) -> (b: bool)
        ensures
            b == (spec_range_len(*self) == 0),
    {
        self.len() == 0
    }

    /// First byte address of the range.
    pub fn start_addr(&self) -> (a: u64)
        requires
            self.start_frame_number * PAGE_SIZE <= u64::MAX,
        ensures
            a == self.start_frame_number * PAGE_SIZE,
    {
        self.start_frame_number * (PAGE_SIZE as u64)
    }

    /// First byte address past the end of the range.
    pub fn end_addr(&self) -> (a: u64)
        requires
            self.end_frame_number * PAGE_SIZE <= u64::MAX,
        ensures
            a == self.end_frame_number * PAGE_SIZE,
    {
        self.end_frame_number * (PAGE_SIZE as u64)
    }
}

/// A typed range of guest-physical frames.
#[derive(Clone, Copy, Debug, PartialEq, Eq, Structural)]
pub struct MemoryRegion {
    /// The frames the region covers.
    pub range: FrameRange,
    /// What the frames are used for.
    pub region_type: MemoryRegionType,
}

/// Whether frame `f` is covered by some region of `s`.
pub open spec fn frame_covered(s: Seq<MemoryRegion>, f: int) -> bool {
    exists|i: int| 0 <= i < s.len() && range_covers(#[trigger] s[i].range, f)
}

/// The set of frame numbers covered by the regions of `s`.
pub open spec fn covered_frames(s: Seq<MemoryRegion>) -> Set<int> {
    Set::new(|f: int| frame_covered(s, f))
}

/// No two regions of the map share a frame.
pub open spec fn map_disjoint(s: Seq<MemoryRegion>) -> bool {
    forall|i: int, j: int|
        0 <= i < s.len() && 0 <= j < s.len() && i != j ==> !ranges_intersect(
            #[trigger] s[i].range,
            #[trigger] s[j].range,
        )
}

/// No two regions of different non-`Usable` types share a frame.
pub open spec fn no_type_conflict(s: Seq<MemoryRegion>) -> bool {
    forall|i: int, j: int|
        0 <= i < s.len() && 0 <= j < s.len() && #[trigger] s[i].region_type
            != #[trigger] s[j].region_type && s[i].region_type != MemoryRegionType::Usable
            && s[j].region_type != MemoryRegionType::Usable ==> !ranges_intersect(
            s[i].range,
            s[j].range,
        )
}

/// A map with no shared frame at all has in particular no two overlapping
/// regions of different non-`Usable` types.
pub proof fn lemma_disjoint_implies_no_type_conflict(s: Seq<MemoryRegion>)
    requires
        map_disjoint(s),
    ensures
        no_type_conflict(s),
{
}

/// Whether the regions of `s` are sorted by start frame.
pub open spec fn sorted_by_start(s: Seq<MemoryRegion>) -> bool {
    forall|i: int, j: int|
        0 <= i < j < s.len() ==> #[trigger] s[i].range.start_frame_number
            <= #[trigger] s[j].range.start_frame_number
}

/// The ordered collection of memory regions.
///
/// During construction regions are appended in arbitrary order; `sort`
/// orders them by start frame.
#[derive(Debug)]
pub struct MemoryMap {
    regions: Vec<MemoryRegion>,
}

impl View for MemoryMap {
    type V = Seq<MemoryRegion>;

    closed spec fn view(&self) -> Seq<MemoryRegion> {
        self.regions@
    }
}

impl MemoryMap {
    /// An empty memory map.
    pub fn new() -> (m: MemoryMap)
        ensures
            m@ == Seq::<MemoryRegion>::empty(),
    {
        MemoryMap { regions: Vec::new() }
    }

    /// How many regions the map holds.
    pub fn len(&self) -> (n: usize)
        ensures
            n == self@.len(),
    {
        self.regions.len()
    }

    /// The region at index `i`.
    pub fn get(&self, i: usize) -> (r: MemoryRegion)
        requires
            i < self@.len(),
        ensures
            r == self@[i as int],
    {
        self.regions[i]
    }

    /// Replaces the region at index `i`.
    pub fn set(&mut self, i: usize, r: MemoryRegion)
        requires
            i < old(self)@.len(),
        ensures
            final(self)@ == old(self)@.update(i as int, r),
    {
        self.regions.set(i, r);
    }

    /// Appends a region; insertion order is not kept sorted.
    pub fn add_region(&mut self, region: MemoryRegion)
        ensures
            final(self)@ == old(self)@.push(region),
    {
        self.regions.push(region);
    }

    /// A fresh map holding the same regions in the same order.
    pub fn duplicate(&self) -> (m: MemoryMap)
        ensures
            m@ == self@,
    {
        let mut regions: Vec<MemoryRegion> = Vec::new();
        let mut i: usize = 0;
        while i < self.regions.len()
            invariant
                i <= self@.len(),
                regions@ == self@.subrange(0, i as int),
            decreases self@.len() - i,
        {
            regions.push(self.regions[i]);
            proof {
                assert(regions@ =~= self@.subrange(0, i + 1));
            }
            i += 1;
        }
        proof {
            assert(regions@ =~= self@);
        }
        MemoryMap { regions }
    }

    /// Sorts the regions by start frame (insertion sort, stable).
    pub fn sort(&mut self)
        ensures
            sorted_by_start(final(self)@),
            final(self)@.to_multiset() == old(self)@.to_multiset(),
            final(self)@.len() == old(self)@.len(),
    {
        let ghost orig: Seq<MemoryRegion> = self.regions@;
        let mut i: usize = 1;
        while i < self.regions.len()
            invariant
                1 <= i,
                self.regions@.len() == orig.len(),
                self.regions@.to_multiset() == orig.to_multiset(),
                forall|p: int, q: int|
                    0 <= p < q < i && q < self.regions@.len()
                        ==> #[trigger] self.regions@[p].range.start_frame_number
                        <= #[trigger] self.regions@[q].range.start_frame_number,
            decreases self.regions@.len() - i,
        {
            let mut k: usize = i;
            while k > 0 && self.regions[k - 1].range.start_frame_number
                > self.regions[k].range.start_frame_number
                invariant
                    0 <= k <= i < self.regions@.len(),
                    self.regions@.len() == orig.len(),
                    self.regions@.to_multiset() == orig.to_multiset(),
                    forall|p: int, q: int|
                        0 <= p < q <= i && q < self.regions@.len() && p != k && q != k
                            ==> #[trigger] self.regions@[p].range.start_frame_number
                            <= #[trigger] self.regions@[q].range.start_frame_number,
                    forall|q: int|
                        k < q <= i ==> self.regions@[k as int].range.start_frame_number
                            <= #[trigger] self.regions@[q].range.start_frame_number,
                decreases k,
            {
                let ghost before: Seq<MemoryRegion> = self.regions@;
                let a = self.regions[k - 1];
                let b = self.regions[k];
                self.regions.set(k - 1, b);
                self.regions.set(k, a);
                proof {
                    broadcast use vstd::seq_lib::to_multiset_update;
                    broadcast use vstd::seq_lib::to_multiset_contains;
                    broadcast use vstd::multiset::group_multiset_properties;

                    assert(self.regions@ =~= before.update(k - 1, before[k as int]).update(
                        k as int,
                        before[k - 1],
                    ));
                    assert(before.contains(before[k - 1]));
                    assert(self.regions@.to_multiset() =~= before.to_multiset());
                }
                k = k - 1;
            }
            i = i + 1;
        }
    }
}

} // verus!
