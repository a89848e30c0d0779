//! Trackers for claimed spans of host pages: a list of index ranges, and
//! a growable bit set backed by an outside sparse-paged store.

use vstd::prelude::*;

verus! {

/// The outside sparse-paged bit store `PageBitfield` builds on.
#[verifier::external_type_specification]
#[verifier::external_body]
pub struct ExSparseBitfield(sparse_bitfield::Bitfield);

/// The set of indices whose bit is set in `b`.
pub uninterp spec fn bitfield_bits(b: sparse_bitfield::Bitfield) -> Set<int>;

/// Relies on `sparse_bitfield::Bitfield::default`: a fresh store of the
/// default page size; no page is allocated, so every bit reads false.
#[verifier::external_body]
fn bf_default() -> (r: sparse_bitfield::Bitfield)
    ensures
        bitfield_bits(r) == Set::<int>::empty(),
{
    sparse_bitfield::Bitfield::default()
}

/// Relies on `sparse_bitfield::Bitfield::get`: reads one bit (a missing
/// page reads as zero) and allocates or changes nothing.
#[verifier::external_body]
fn bf_get(b: &mut sparse_bitfield::Bitfield, index: usize) -> (r: bool)
    ensures
        r == bitfield_bits(*old(b)).contains(index as int),
        bitfield_bits(*final(b)) == bitfield_bits(*old(b)),
{
    b.get(index)
}

/// Relies on `sparse_bitfield::Bitfield::set`: flips exactly the bit at
/// `index`, allocating its page when needed. The store records
/// `index + 1` as its new length, so the topmost index is excluded.
#[verifier::external_body]
fn bf_set(b: &mut sparse_bitfield::Bitfield, index: usize, value: bool)
    requires
        index < usize::MAX,
    ensures
        value ==> bitfield_bits(*final(b)) == bitfield_bits(*old(b)).insert(index as int),
        !value ==> bitfield_bits(*final(b)) == bitfield_bits(*old(b)).remove(index as int),
{
    let _ = b.set(index, value);
}

/// A bit set over page indices, remembering which are claimed.
pub struct PageBitfield {
    inner: sparse_bitfield::Bitfield,
}

/// Every index of `[start, start + num)` is clear in `bits`.
pub open spec fn run_clear(bits: Set<int>, start: int, num: int) -> bool {
    forall|j: int| start <= j < start + num ==> !bits.contains(j)
}

impl PageBitfield {
    /// The set of claimed indices.
    pub closed spec fn bits(&self) -> Set<int> {
        bitfield_bits(self.inner)
    }

    /// An empty bit set.
    pub fn new() -> (r: PageBitfield)
        ensures
            r.bits() == Set::<int>::empty(),
    {
        PageBitfield { inner: bf_default() }
    }

    /// The first clear index after `prev`, wrapping a probe at the very
    /// top around to zero; `None` only when everything below the top
    /// index is set.
    #[verifier::loop_isolation(false)]
    pub fn next_clear(&mut self, prev: usize) -> (r: Option<usize>)
        ensures
            final(self).bits() == old(self).bits(),
            (match r {
                Some(i) => !old(self).bits().contains(i as int) && i < usize::MAX && (prev
                    < usize::MAX ==> prev < i && (forall|j: int|
                    prev + 1 <= j < i ==> old(self).bits().contains(j))),
                None => forall|j: int|
                    prev + 1 <= j < usize::MAX ==> old(self).bits().contains(j),
            }),
    {
        let start = if prev == usize::MAX {
            0
        } else {
            prev + 1
        };
        let mut i: usize = start;
        while i < usize::MAX
            invariant
                start <= i,
                self.bits() == old(self).bits(),
                forall|j: int| start <= j < i ==> old(self).bits().contains(j),
            decreases usize::MAX - i,
        {
            if !bf_get(&mut self.inner, i) {
                return Some(i);
            }
            i += 1;
        }
        None
    }

    /// The first set index after `prev`, or `None` when no later index
    /// below the top is set.
    #[verifier::loop_isolation(false)]
    pub fn next_set(&mut self, prev: usize) -> (r: Option<usize>)
        requires
            prev < usize::MAX,
        ensures
            final(self).bits() == old(self).bits(),
            (match r {
                Some(i) => old(self).bits().contains(i as int) && prev < i < usize::MAX && (
                forall|j: int| prev + 1 <= j < i ==> !old(self).bits().contains(j)),
                None => forall|j: int|
                    prev + 1 <= j < usize::MAX ==> !old(self).bits().contains(j),
            }),
    {
        let mut i: usize = prev + 1;
        while i < usize::MAX
            invariant
                prev < i,
                self.bits() == old(self).bits(),
                forall|j: int| prev + 1 <= j < i ==> !old(self).bits().contains(j),
            decreases usize::MAX - i,
        {
            if bf_get(&mut self.inner, i) {
                return Some(i);
            }
            i += 1;
        }
        None
    }

    /// Whether all of `[start, start + num)` is clear.
    #[verifier::loop_isolation(false)]
    pub fn is_clear_num(&mut self, start: usize, num: usize) -> (r: bool)
        requires
            start + num <= usize::MAX,
        ensures
            final(self).bits() == old(self).bits(),
            r == run_clear(old(self).bits(), start as int, num as int),
    {
        let mut i: usize = start;
        while i < start + num
            invariant
                start <= i <= start + num,
                self.bits() == old(self).bits(),
                forall|j: int| start <= j < i ==> !old(self).bits().contains(j),
            decreases start + num - i,
        {
            if bf_get(&mut self.inner, i) {
                return false;
            }
            i += 1;
        }
        true
    }

    /// Sets all of `[start, start + num)`.
    #[verifier::loop_isolation(false)]
    pub fn set_range(&mut self, start: usize, num: usize)
        requires
            start + num <= usize::MAX,
        ensures
            forall|j: int|
                final(self).bits().contains(j) == (old(self).bits().contains(j) || start <= j
                    < start + num),
    {
        let mut i: usize = start;
        while i < start + num
            invariant
                start <= i <= start + num,
                forall|j: int|
                    self.bits().contains(j) == (old(self).bits().contains(j) || start <= j < i),
            decreases start + num - i,
        {
            bf_set(&mut self.inner, i, true);
            i += 1;
        }
    }

    /// The first index at or after `start` (after `prev + 1` wrapped, as
    /// `next_clear` probes) that begins `num` clear indices.
    pub fn next_clear_num(&mut self, prev: usize, num: usize) -> (r: Option<usize>)
        requires
            prev < usize::MAX,
            num <= usize::MAX,
        ensures
            final(self).bits() == old(self).bits(),
            (match r {
                Some(i) => prev < i && i + num <= usize::MAX && run_clear(
                    old(self).bits(),
                    i as int,
                    num as int,
                ) && (forall|k: int|
                    prev + 1 <= k < i ==> !run_clear(old(self).bits(), k, num as int)),
                None => forall|k: int|
                    prev + 1 <= k <= usize::MAX - num ==> !run_clear(
                        old(self).bits(),
                        k,
                        num as int,
                    ),
            }),
    {
        self.scan_clear_run(prev + 1, num)
    }

    /// The first index at or after `start` that begins `num` clear
    /// indices.
    pub fn find_unset_range(&mut self, start: usize, num: usize) -> (r: Option<usize>)
        requires
            num <= usize::MAX,
        ensures
            final(self).bits() == old(self).bits(),
            (match r {
                Some(i) => start <= i && i + num <= usize::MAX && run_clear(
                    old(self).bits(),
                    i as int,
                    num as int,
                ) && (forall|k: int|
                    start <= k < i ==> !run_clear(old(self).bits(), k, num as int)),
                None => forall|k: int|
                    start <= k <= usize::MAX - num ==> !run_clear(old(self).bits(), k, num as int),
            }),
    {
        self.scan_clear_run(start, num)
    }

    /// Scans upward from `start` for `num` contiguous clear indices.
    #[verifier::loop_isolation(false)]
    fn scan_clear_run(&mut self, start: usize, num: usize) -> (r: Option<usize>)
        requires
            num <= usize::MAX,
        ensures
            final(self).bits() == old(self).bits(),
            (match r {
                Some(i) => start <= i && i + num <= usize::MAX && run_clear(
                    old(self).bits(),
                    i as int,
                    num as int,
                ) && (forall|k: int|
                    start <= k < i ==> !run_clear(old(self).bits(), k, num as int)),
                None => forall|k: int|
                    start <= k <= usize::MAX - num ==> !run_clear(old(self).bits(), k, num as int),
            }),
    {
        let mut i: usize = start;
        while i <= usize::MAX - num
            invariant
                start <= i,
                num <= usize::MAX,
                self.bits() == old(self).bits(),
                forall|k: int| start <= k < i ==> !run_clear(old(self).bits(), k, num as int),
            decreases usize::MAX - num - i,
        {
            if self.is_clear_num(i, num) {
                return Some(i);
            }
            proof {
                assert(!run_clear(old(self).bits(), i as int, num as int));
            }
            if i == usize::MAX - num {
                return None;
            }
            i += 1;
        }
        None
    }
}

/// A collection of half-open `[start, end)` index ranges.
pub struct Rangefield {
    inner: Vec<(usize, usize)>,
}

/// The range at `i` covers `[start, start + num)` entirely (both its
/// first and its last index).
pub open spec fn set_match_at(s: Seq<(usize, usize)>, start: int, num: int, i: int) -> bool {
    0 <= i < s.len() && s[i].0 <= start && start < s[i].1 && s[i].0 <= start + num - 1 < s[i].1
}

/// The range at `i` is one `next_set_num` accepts: it starts past the
/// probe and holds at least `num` indices.
pub open spec fn next_match_at(s: Seq<(usize, usize)>, prev: int, num: int, i: int) -> bool {
    0 <= i < s.len() && s[i].0 > prev && s[i].1 >= s[i].0 + num
}

impl Rangefield {
    /// An empty range field.
    pub fn new() -> (r: Rangefield)
        ensures
            r@ == Seq::<(usize, usize)>::empty(),
    {
        Rangefield { inner: Vec::new() }
    }

    /// Appends a range.
    pub fn push(&mut self, start: usize, end: usize)
        ensures
            final(self)@ == old(self)@.push((start, end)),
    {
        self.inner.push((start, end));
    }

    /// Whether some range covers all of `[start, start + num)`.
    #[verifier::loop_isolation(false)]
    pub fn is_set_num(&self, start: usize, num: usize) -> (r: bool)
        requires
            1 <= num,
            start + num - 1 <= usize::MAX,
        ensures
            r == exists|i: int| set_match_at(self@, start as int, num as int, i),
    {
        let n = self.inner.len();
        let mut i: usize = 0;
        while i < n
            invariant
                i <= n == self@.len(),
                forall|j: int| 0 <= j < i ==> !set_match_at(self@, start as int, num as int, j),
            decreases n - i,
        {
            let (s, e) = self.inner[i];
            if s <= start && start < e && s <= start + (num - 1) && start + (num - 1) < e {
                proof {
                    assert(set_match_at(self@, start as int, num as int, i as int));
                }
                return true;
            }
            i += 1;
        }
        false
    }

    /// The start of the first range beginning past `prev` that holds at
    /// least `num` indices.
    #[verifier::loop_isolation(false)]
    pub fn next_set_num(&self, prev: usize, num: usize) -> (r: Option<usize>)
        requires
            prev < usize::MAX,
        ensures
            (match r {
                Some(v) => exists|i: int|
                    #[trigger] next_match_at(self@, prev as int, num as int, i) && v == self@[i].0
                        && (forall|j: int|
                        0 <= j < i ==> !(#[trigger] next_match_at(self@, prev as int, num as int, j))),
                None => forall|i: int| !(#[trigger] next_match_at(self@, prev as int, num as int, i)),
            }),
    {
        let start = prev + 1;
        let n = self.inner.len();
        let mut i: usize = 0;
        while i < n
            invariant
                i <= n == self@.len(),
                forall|j: int| 0 <= j < i ==> !next_match_at(self@, prev as int, num as int, j),
            decreases n - i,
        {
            let (s, e) = self.inner[i];
            if s >= start && e >= s && e - s >= num {
                proof {
                    assert(next_match_at(self@, prev as int, num as int, i as int));
                }
                return Some(s);
            }
            i += 1;
        }
        proof {
            assert forall|i: int| !(#[trigger] next_match_at(self@, prev as int, num as int, i)) by {
                if 0 <= i < self@.len() {
                    assert(!next_match_at(self@, prev as int, num as int, i));
                }
            }
        }
        None
    }
}

impl View for Rangefield {
    type V = Seq<(usize, usize)>;

    closed spec fn view(&self) -> Seq<(usize, usize)> {
        self.inner@
    }
}

} // verus!
