//! Fixed-capacity arena allocators, one per resource class.
//!
//! Each arena is a contiguous byte extent carved once at startup.  It hands
//! out non-overlapping extents bump-style and reclaims them on release: the
//! most recent extent returns its bytes immediately, and an arena with
//! nothing live resets entirely.  No compaction is performed; callers keep
//! allocation lifetimes on the stack-like, single-slot discipline that the
//! single-outstanding-operation invariant of the resources imposes, which
//! bounds fragmentation to one resource's own traffic.

use vstd::prelude::*;

use crate::result::Error;

verus! {

/// One live allocation: `size` bytes starting at `offset` within the
/// arena's extent.
#[derive(Clone, Copy, PartialEq, Eq, Structural, Debug)]
pub struct Region {
    pub offset: usize,
    pub size: usize,
}

/// The end of a region, one past its last byte.
pub open spec fn region_end(r: Region) -> int {
    r.offset + r.size
}

/// The abstract state of an arena: its capacity, the bump cursor below
/// which all live extents lie, and the live extents in allocation order.
pub struct ArenaModel {
    pub capacity: usize,
    pub next: usize,
    pub live: Seq<Region>,
}

/// Live extents lie in allocation order, each ending before the following
/// one begins, all below the bump cursor, which stays within capacity.
pub open spec fn arena_wf(m: ArenaModel) -> bool {
    &&& m.next <= m.capacity
    &&& forall|i: int|
        0 <= i < m.live.len() - 1 ==> region_end(#[trigger] m.live[i]) <= m.live[i + 1].offset
    &&& m.live.len() > 0 ==> region_end(m.live.last()) <= m.next
}

/// Whether a request of `size` bytes fits below capacity at the current
/// cursor.
pub open spec fn can_fit(m: ArenaModel, size: usize) -> bool {
    m.next + size <= m.capacity
}

/// Allocation: when the request fits, the extent at the cursor is handed
/// out and the cursor advances; otherwise nothing changes and the request
/// fails with `ENOMEM`.
pub open spec fn spec_allocate(m: ArenaModel, size: usize) -> (ArenaModel, Result<usize, Error>) {
    if can_fit(m, size) {
        (
            ArenaModel {
                capacity: m.capacity,
                next: (m.next + size) as usize,
                live: m.live.push(Region { offset: m.next, size }),
            },
            Ok(m.next),
        )
    } else {
        (m, Err(Error::ENOMEM))
    }
}

/// The most recently allocated live extent matching `offset` and `size`:
/// its index in the live sequence, or `-1` when none matches.
pub open spec fn find_region(live: Seq<Region>, offset: usize, size: usize) -> int
    decreases live.len(),
{
    if live.len() == 0 {
        -1
    } else if live.last().offset == offset && live.last().size == size {
        live.len() - 1
    } else {
        find_region(live.drop_last(), offset, size)
    }
}

/// Release: the matching extent is dropped from the live sequence; when it
/// was the most recent, the cursor retreats to its start, and when nothing
/// remains live the arena resets entirely.  Releasing an extent that is not
/// live fails with `EINVAL` and changes nothing.
pub open spec fn spec_release(m: ArenaModel, offset: usize, size: usize) -> (
    ArenaModel,
    Result<(), Error>,
) {
    let i = find_region(m.live, offset, size);
    if i < 0 {
        (m, Err(Error::EINVAL))
    } else {
        let live = m.live.remove(i);
        let next = if live.len() == 0 {
            0usize
        } else if i == m.live.len() - 1 {
            offset
        } else {
            m.next
        };
        (ArenaModel { capacity: m.capacity, next, live }, Ok(()))
    }
}

/// A matching index returned by `find_region` really matches, and lies in
/// bounds.
proof fn lemma_find_region_matches(live: Seq<Region>, offset: usize, size: usize)
    requires
        find_region(live, offset, size) >= 0,
    ensures
        0 <= find_region(live, offset, size) < live.len(),
        live[find_region(live, offset, size)] == (Region { offset, size }),
    decreases live.len(),
{
    if live.len() == 0 {
    } else if live.last().offset == offset && live.last().size == size {
    } else {
        lemma_find_region_matches(live.drop_last(), offset, size);
    }
}

/// Well-formedness survives allocation.
proof fn lemma_allocate_wf(m: ArenaModel, size: usize)
    requires
        arena_wf(m),
    ensures
        arena_wf(spec_allocate(m, size).0),
{
    if can_fit(m, size) {
        let m1 = spec_allocate(m, size).0;
        assert forall|i: int| 0 <= i < m1.live.len() - 1 implies region_end(#[trigger] m1.live[i])
            <= m1.live[i + 1].offset by {
            if i < m.live.len() - 1 {
            } else {
                assert(m1.live[i] == m.live.last());
            }
        }
    }
}

/// Well-formedness survives release: dropping an extent keeps the order,
/// by transitivity across the dropped element, and the retreated cursor
/// still bounds the remaining extents.
proof fn lemma_release_wf(m: ArenaModel, offset: usize, size: usize)
    requires
        arena_wf(m),
    ensures
        arena_wf(spec_release(m, offset, size).0),
{
    let i = find_region(m.live, offset, size);
    if i >= 0 {
        lemma_find_region_matches(m.live, offset, size);
        let m1 = spec_release(m, offset, size).0;
        assert forall|j: int| 0 <= j < m1.live.len() - 1 implies region_end(#[trigger] m1.live[j])
            <= m1.live[j + 1].offset by {
            if j < i - 1 {
            } else if j == i - 1 {
                assert(region_end(m.live[j]) <= m.live[j + 1].offset);
                assert(region_end(m.live[i]) <= m.live[i + 1].offset);
                assert(m1.live[j + 1] == m.live[i + 1]);
            } else {
                assert(m1.live[j] == m.live[j + 1]);
                assert(m1.live[j + 1] == m.live[j + 2]);
            }
        }
        if m1.live.len() > 0 {
            if i == m.live.len() - 1 {
                assert(m1.live.last() == m.live[i - 1]);
                assert(region_end(m.live[i - 1]) <= m.live[i].offset);
            } else {
                assert(m1.live.last() == m.live.last());
            }
        }
    }
}

/// Matched allocation and release never leak capacity: after allocating an
/// extent and releasing that same extent, the live extents are exactly what
/// they were, the cursor is no higher than it was, and the arena can still
/// satisfy the request it just satisfied.  Cycles of such pairs therefore
/// leave the arena able to serve the same request indefinitely.
pub proof fn lemma_allocate_release_restores(m: ArenaModel, size: usize)
    requires
        arena_wf(m),
        can_fit(m, size),
    ensures
        spec_allocate(m, size).1 == Ok::<usize, Error>(m.next),
        ({
            let m1 = spec_allocate(m, size).0;
            let (m2, r2) = spec_release(m1, m.next, size);
            r2 == Ok::<(), Error>(())
            && m2.live =~= m.live
            && m2.next <= m.next
            && m2.capacity == m.capacity
            && can_fit(m2, size)
        }),
{
    let m1 = spec_allocate(m, size).0;
    assert(m1.live.last() == (Region { offset: m.next, size }));
    assert(find_region(m1.live, m.next, size) == m1.live.len() - 1);
    let m2 = spec_release(m1, m.next, size).0;
    assert(m2.live =~= m.live);
}

/// A fixed-capacity pool: the bump cursor and the live extents, kept in
/// allocation order.
pub struct Arena {
    capacity: usize,
    next: usize,
    live: Vec<Region>,
}

impl Arena {
    /// The abstract state.
    pub closed spec fn model(&self) -> ArenaModel {
        ArenaModel { capacity: self.capacity, next: self.next, live: self.live@ }
    }

    /// The arena's byte capacity.
    pub open spec fn capacity_spec(&self) -> usize {
        self.model().capacity
    }

    /// See [`arena_wf`].
    pub open spec fn wf(&self) -> bool {
        arena_wf(self.model())
    }

    /// An empty arena over a byte extent of the given size.
    pub fn new(capacity: usize) -> (r: Arena)
        ensures
            r.wf(),
            r.model() == (ArenaModel { capacity, next: 0, live: Seq::<Region>::empty() }),
    {
        let r = Arena { capacity, next: 0, live: Vec::new() };
        proof {
            assert(r.model().live =~= Seq::<Region>::empty());
        }
        r
    }

    /// Hands out `size` bytes at the cursor, or fails with `ENOMEM` when the
    /// request cannot be satisfied given current fragmentation.
    pub fn allocate(&mut self, size: usize) -> (r: Result<usize, Error>)
        requires
            old(self).wf(),
        ensures
            final(self).wf(),
            (final(self).model(), r) == spec_allocate(old(self).model(), size),
    {
        proof {
            lemma_allocate_wf(self.model(), size);
        }
        if size <= self.capacity && self.next <= self.capacity - size {
            let offset = self.next;
            self.next = self.next + size;
            self.live.push(Region { offset, size });
            Ok(offset)
        } else {
            Err(Error::ENOMEM)
        }
    }

    /// Returns the extent at `offset` of `size` bytes to the pool.  Fails
    /// with `EINVAL` when no such extent is live.
    #[verifier::rlimit(30)]
    pub fn release(&mut self, offset: usize, size: usize) -> (r: Result<(), Error>)
        requires
            old(self).wf(),
        ensures
            final(self).wf(),
            (final(self).model(), r) == spec_release(old(self).model(), offset, size),
    {
        let ghost m0 = self.model();
        let mut idx: usize = self.live.len();
        proof {
            assert(m0.live.take(idx as int) =~= m0.live);
        }
        loop
            invariant
                arena_wf(m0),
                *self == *old(self),
                self.model() == m0,
                idx <= self.live@.len(),
                find_region(m0.live, offset, size) == find_region(
                    m0.live.take(idx as int),
                    offset,
                    size,
                ),
            decreases idx,
        {
            if idx == 0 {
                proof {
                    assert(m0.live.take(0) =~= Seq::<Region>::empty());
                    assert(find_region(m0.live, offset, size) == -1);
                }
                return Err(Error::EINVAL);
            }
            let probe = idx - 1;
            let region = self.live[probe];
            if region.offset == offset && region.size == size {
                proof {
                    assert(m0.live.take(idx as int).last() == m0.live[probe as int]);
                    assert(find_region(m0.live, offset, size) == probe);
                    lemma_release_wf(m0, offset, size);
                }
                let was_last = probe == self.live.len() - 1;
                self.live.remove(probe);
                if self.live.len() == 0 {
                    self.next = 0;
                } else if was_last {
                    self.next = offset;
                }
                proof {
                    assert(self.model() == spec_release(m0, offset, size).0);
                }
                return Ok(());
            }
            proof {
                assert(m0.live.take(idx as int).last() == m0.live[probe as int]);
                assert(m0.live.take(idx as int).drop_last() =~= m0.live.take(probe as int));
            }
            idx = probe;
        }
    }
}

} // verus!
