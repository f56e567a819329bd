//! Per-frame change metadata for screen capture: the moved-region and
//! dirty-region lists, with an amortized growth policy — capacity only
//! grows when the platform reports a larger required size, and is
//! never shrunk.

use vstd::prelude::*;

verus! {

/// An axis-aligned region of the display, in pixels.
#[derive(Clone, Copy, Debug, PartialEq, Eq, Structural)]
pub struct Region {
    pub left: i32,
    pub top: i32,
    pub right: i32,
    pub bottom: i32,
}

/// A region that moved since the previous frame: where it came from
/// and where it now sits.
#[derive(Clone, Copy, Debug, PartialEq, Eq, Structural)]
pub struct MovedRegion {
    pub source_x: i32,
    pub source_y: i32,
    pub destination: Region,
}

/// Capacity after one frame that requires `required` entries: grown to
/// the required size when it exceeds the current capacity, otherwise
/// unchanged — never shrunk.
pub open spec fn grown(capacity: nat, required: nat) -> nat {
    if required > capacity {
        required
    } else {
        capacity
    }
}

/// Capacity after a whole sequence of frames with the given required
/// sizes, starting from `init`.
pub open spec fn capacity_after(init: nat, required: Seq<u32>) -> nat
    decreases required.len(),
{
    if required.len() == 0 {
        init
    } else {
        capacity_after(grown(init, required[0] as nat), required.subrange(1, required.len() as int))
    }
}

/// The moved-region and dirty-region lists for one session. Both lists
/// always have exactly `capacity` entries; the per-frame occupancy
/// counts say how many of them the last frame filled.
pub struct ChangeMetadata {
    moved: Vec<MovedRegion>,
    dirty: Vec<Region>,
    capacity: u32,
    moved_count: u32,
    dirty_count: u32,
}

impl ChangeMetadata {
    /// Both lists span the full capacity and the recorded occupancy
    /// counts never exceed it.
    pub closed spec fn wf(self) -> bool {
        &&& self.moved@.len() == self.capacity
        &&& self.dirty@.len() == self.capacity
        &&& self.moved_count <= self.capacity
        &&& self.dirty_count <= self.capacity
    }

    /// Current capacity of both region lists.
    pub closed spec fn spec_capacity(self) -> u32 {
        self.capacity
    }

    /// Moved-region occupancy recorded for the last frame.
    pub closed spec fn spec_moved_count(self) -> u32 {
        self.moved_count
    }

    /// Dirty-region occupancy recorded for the last frame.
    pub closed spec fn spec_dirty_count(self) -> u32 {
        self.dirty_count
    }

    /// A fresh, empty metadata buffer: capacity zero, nothing recorded.
    pub fn new() -> (r: ChangeMetadata)
        ensures
            r.wf(),
            r.spec_capacity() == 0,
            r.spec_moved_count() == 0,
            r.spec_dirty_count() == 0,
    {
        ChangeMetadata { moved: Vec::new(), dirty: Vec::new(), capacity: 0, moved_count: 0, dirty_count: 0 }
    }

    /// Current capacity of both region lists.
    pub fn capacity(&self) -> (r: u32)
        ensures
            r == self.spec_capacity(),
    {
        self.capacity
    }

    /// Moved-region occupancy recorded for the last frame.
    pub fn moved_count(&self) -> (r: u32)
        ensures
            r == self.spec_moved_count(),
    {
        self.moved_count
    }

    /// Dirty-region occupancy recorded for the last frame.
    pub fn dirty_count(&self) -> (r: u32)
        ensures
            r == self.spec_dirty_count(),
    {
        self.dirty_count
    }

    /// Grow both lists to `required` entries when that exceeds the
    /// current capacity; otherwise leave everything untouched. The
    /// capacity therefore never decreases. Grown lists start zeroed,
    /// as the platform overwrites them on the next region query.
    pub fn ensure_capacity(&mut self, required: u32)
        requires
            old(self).wf(),
        ensures
            final(self).wf(),
            final(self).spec_capacity() == grown(old(self).spec_capacity() as nat, required as nat),
            final(self).spec_capacity() >= old(self).spec_capacity(),
            final(self).spec_moved_count() == old(self).spec_moved_count(),
            final(self).spec_dirty_count() == old(self).spec_dirty_count(),
            required <= old(self).spec_capacity() ==> *final(self) == *old(self),
    {
        if required > self.capacity {
            let n: usize = required as usize;
            let mut moved: Vec<MovedRegion> = Vec::new();
            let mut dirty: Vec<Region> = Vec::new();
            let mut i: usize = 0;
            while i < n
                invariant
                    i <= n,
                    moved@.len() == i,
                    dirty@.len() == i,
                decreases n - i,
            {
                let zero_region = Region { left: 0, top: 0, right: 0, bottom: 0 };
                moved.push(MovedRegion { source_x: 0, source_y: 0, destination: zero_region });
                dirty.push(zero_region);
                i = i + 1;
            }
            self.moved = moved;
            self.dirty = dirty;
            self.capacity = required;
        }
    }

    /// Record how many entries of each list the platform filled for
    /// this frame. Counts beyond the capacity would index past the
    /// lists, so they are refused: the caller treats that as a fatal
    /// metadata-query failure.
    pub fn record_counts(&mut self, moved_count: u32, dirty_count: u32) -> (r: bool)
        requires
            old(self).wf(),
        ensures
            final(self).wf(),
            r == (moved_count <= old(self).spec_capacity() && dirty_count <= old(
                self,
            ).spec_capacity()),
            r ==> final(self).spec_moved_count() == moved_count && final(self).spec_dirty_count()
                == dirty_count && final(self).spec_capacity() == old(self).spec_capacity(),
            !r ==> *final(self) == *old(self),
    {
        if moved_count <= self.capacity && dirty_count <= self.capacity {
            self.moved_count = moved_count;
            self.dirty_count = dirty_count;
            true
        } else {
            false
        }
    }

    /// The moved-region list; it always spans the full capacity, of
    /// which the last frame filled the first `moved_count` entries.
    pub fn moved_regions(&self) -> (r: &Vec<MovedRegion>)
        ensures
            r@ == self.moved_regions_view(),
    {
        &self.moved
    }

    /// The dirty-region list; it always spans the full capacity, of
    /// which the last frame filled the first `dirty_count` entries.
    pub fn dirty_regions(&self) -> (r: &Vec<Region>)
        ensures
            r@ == self.dirty_regions_view(),
    {
        &self.dirty
    }

    /// The contents of the moved-region list.
    pub closed spec fn moved_regions_view(self) -> Seq<MovedRegion> {
        self.moved@
    }

    /// The contents of the dirty-region list.
    pub closed spec fn dirty_regions_view(self) -> Seq<Region> {
        self.dirty@
    }
}

/// How many whole regions the platform wrote, given how many bytes it
/// reported back and how many bytes one region entry occupies.
pub fn regions_in(bytes_returned: u32, bytes_per_region: u32) -> (r: u32)
    requires
        bytes_per_region > 0,
    ensures
        r == bytes_returned / bytes_per_region,
{
    bytes_returned / bytes_per_region
}

/// A sequence of frames never lowers the capacity below where it
/// started.
pub proof fn lemma_capacity_after_ge_init(init: nat, required: Seq<u32>)
    ensures
        capacity_after(init, required) >= init,
    decreases required.len(),
{
    if required.len() != 0 {
        lemma_capacity_after_ge_init(
            grown(init, required[0] as nat),
            required.subrange(1, required.len() as int),
        );
    }
}

/// Processing `a` and then `b` is the same as processing `a + b`.
pub proof fn lemma_capacity_after_concat(init: nat, a: Seq<u32>, b: Seq<u32>)
    ensures
        capacity_after(init, a + b) == capacity_after(capacity_after(init, a), b),
    decreases a.len(),
{
    if a.len() == 0 {
        assert(a + b =~= b);
    } else {
        assert((a + b)[0] == a[0]);
        assert((a + b).subrange(1, (a + b).len() as int) =~= a.subrange(1, a.len() as int) + b);
        lemma_capacity_after_concat(grown(init, a[0] as nat), a.subrange(1, a.len() as int), b);
    }
}

/// Change-metadata capacity is monotonically non-decreasing across any
/// sequence of frames with varying required sizes: after any later
/// frame the capacity is at least what it was after any earlier one.
pub proof fn lemma_capacity_monotonic(init: nat, required: Seq<u32>, i: int, j: int)
    requires
        0 <= i <= j <= required.len(),
    ensures
        capacity_after(init, required.take(i)) <= capacity_after(init, required.take(j)),
{
    let mid = required.subrange(i, j);
    assert(required.take(j) =~= required.take(i) + mid);
    lemma_capacity_after_concat(init, required.take(i), mid);
    lemma_capacity_after_ge_init(capacity_after(init, required.take(i)), mid);
}

} // verus!
