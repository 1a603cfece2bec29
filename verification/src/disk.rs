use vstd::prelude::*;

verus! {

/// One run of free blocks recorded in the allocation log: `count` blocks
/// starting at block `index`.
#[derive(Clone, Copy, PartialEq, Eq, Structural, Debug)]
pub struct FreeExtent {
    pub index: u64,
    pub count: u64,
}

/// A compacted allocation log is ordered, and runs of free blocks are
/// separated by at least one allocated block, so each maximal free run is a
/// single extent.  Every extent is non-empty, lies above the reserved
/// bootloader region, and ends within the image.
pub open spec fn extents_wf(free: Seq<FreeExtent>, reserved: int, count: int) -> bool {
    &&& forall|i: int|
        0 <= i < free.len() ==> {
            &&& (#[trigger] free[i]).count > 0
            &&& free[i].index >= reserved
            &&& free[i].index + free[i].count <= count
        }
    &&& forall|i: int|
        0 <= i < free.len() - 1 ==> (#[trigger] free[i]).index + free[i].count < free[
            i + 1
        ].index
}

/// Whether block `b` is free according to the allocation log.
pub open spec fn free_block_in(free: Seq<FreeExtent>, b: int) -> bool {
    exists|i: int|
        0 <= i < free.len() && (#[trigger] free[i]).index <= b < free[i].index + free[i].count
}

/// The start of the free run that touches the end of the image, or the image
/// size itself when the last block is allocated.  This is the lowest size the
/// image can shrink to without evicting live data.
pub open spec fn tail_start_in(free: Seq<FreeExtent>, count: int) -> int {
    if free.len() > 0 && free.last().index + free.last().count == count {
        free.last().index as int
    } else {
        count
    }
}

/// The allocation log after the image grows to `target` blocks: the vacated
/// tail range joins the free pool, merging with a free run that already
/// touched the old end of the image.
pub open spec fn expand_extents(free: Seq<FreeExtent>, count: int, target: int) -> Seq<
    FreeExtent,
> {
    if target == count {
        free
    } else if free.len() > 0 && free.last().index + free.last().count == count {
        free.update(
            free.len() - 1,
            FreeExtent { index: free.last().index, count: (target - free.last().index) as u64 },
        )
    } else {
        free.push(FreeExtent { index: count as u64, count: (target - count) as u64 })
    }
}

/// The allocation log after the image shrinks to its minimal safe size: the
/// free run at the end of the image is handed back to the disk, which marks
/// every vacated block as no longer the filesystem's.
pub open spec fn shrink_extents(free: Seq<FreeExtent>, count: int) -> Seq<FreeExtent> {
    if tail_start_in(free, count) < count {
        free.drop_last()
    } else {
        free
    }
}

/// In an ordered log, earlier extents end before later extents begin.
proof fn lemma_extents_ordered(free: Seq<FreeExtent>, reserved: int, count: int, i: int, j: int)
    requires
        extents_wf(free, reserved, count),
        0 <= i < j < free.len(),
    ensures
        free[i].index + free[i].count <= free[j].index,
    decreases j - i,
{
    if i + 1 == j {
    } else {
        lemma_extents_ordered(free, reserved, count, i + 1, j);
    }
}

/// Block-level description of a disk image: the block size, how many blocks
/// the image currently holds, the reserved bootloader region at its front,
/// and the allocator's log of free extents.
pub struct DiskLayout {
    pub block_size: u64,
    pub block_count: u64,
    pub reserved_blocks: u64,
    pub free: Vec<FreeExtent>,
}

impl DiskLayout {
    /// A valid layout: positive block size, a reserved region that fits, a
    /// byte size that fits in the size field, and a compacted, in-bounds
    /// allocation log.
    pub open spec fn wf(self) -> bool {
        &&& self.block_size > 0
        &&& self.reserved_blocks <= self.block_count
        &&& self.block_count as int * self.block_size as int <= u64::MAX as int
        &&& extents_wf(self.free@, self.reserved_blocks as int, self.block_count as int)
    }

    /// Whether block `b` is free.
    pub open spec fn spec_free_block(self, b: int) -> bool {
        free_block_in(self.free@, b)
    }

    /// The lowest block count this image can shrink to safely.
    pub open spec fn spec_tail_start(self) -> int {
        tail_start_in(self.free@, self.block_count as int)
    }

    /// The image size in bytes.
    pub fn size_bytes(&self) -> (r: u64)
        requires
            self.wf(),
        ensures
            r == self.block_count as int * self.block_size as int,
    {
        proof {
            assert(self.block_count as int * self.block_size as int <= u64::MAX as int);
        }
        self.block_count * self.block_size
    }

    /// Shrinks the image to its minimal safe size: the free run touching the
    /// end of the image is vacated and the declared size drops to that run's
    /// start.  Every vacated block is shown free beforehand, so live data is
    /// never evicted; when the last block is allocated this is a no-op.
    pub fn shrink(&mut self)
        requires
            old(self).wf(),
        ensures
            final(self).wf(),
            final(self).block_size == old(self).block_size,
            final(self).reserved_blocks == old(self).reserved_blocks,
            final(self).block_count as int == old(self).spec_tail_start(),
            final(self).free@ == shrink_extents(old(self).free@, old(self).block_count as int),
            // safety: every vacated block was free before the shrink
            forall|b: int|
                final(self).block_count <= b < old(self).block_count ==> old(
                    self,
                ).spec_free_block(b),
            // blocks below the new end keep their allocation state
            forall|b: int|
                b < final(self).block_count ==> final(self).spec_free_block(b) == old(
                    self,
                ).spec_free_block(b),
    {
        let len: usize = self.free.len();
        if len == 0 {
            return ;
        }
        let last = self.free[len - 1];
        proof {
            assert(self.free@[len - 1].index + self.free@[len - 1].count
                <= self.block_count as int);
        }
        let end: u64 = last.index + last.count;
        if end != self.block_count {
            return ;
        }
        self.free.pop();
        let ghost prior = *old(self);
        self.block_count = last.index;
        proof {
            let pf = prior.free@;
            let nf = self.free@;
            assert(nf == pf.drop_last());
            // vacated blocks all lie in the dropped tail extent
            assert forall|b: int|
                self.block_count <= b < prior.block_count implies prior.spec_free_block(b) by {
                assert(pf[len - 1].index <= b < pf[len - 1].index + pf[len - 1].count);
            }
            // extents other than the dropped one lie wholly below the new end
            assert forall|i: int| 0 <= i < nf.len() implies nf[i].index + nf[i].count
                <= self.block_count as int by {
                lemma_extents_ordered(
                    pf,
                    prior.reserved_blocks as int,
                    prior.block_count as int,
                    i,
                    len - 1,
                );
            }
            assert forall|b: int|
                b < self.block_count implies self.spec_free_block(b) == prior.spec_free_block(
                b,
            ) by {
                if prior.spec_free_block(b) {
                    let i = choose|i: int|
                        0 <= i < pf.len() && (#[trigger] pf[i]).index <= b < pf[i].index
                            + pf[i].count;
                    if i < len - 1 {
                        assert(nf[i].index <= b < nf[i].index + nf[i].count);
                    }
                }
                if self.spec_free_block(b) {
                    let i = choose|i: int|
                        0 <= i < nf.len() && (#[trigger] nf[i]).index <= b < nf[i].index
                            + nf[i].count;
                    assert(pf[i].index <= b < pf[i].index + pf[i].count);
                }
            }
            assert(self.block_count as int * self.block_size as int <= u64::MAX as int) by (
            nonlinear_arith)
                requires
                    self.block_count <= prior.block_count,
                    self.block_size == prior.block_size,
                    prior.block_count as int * prior.block_size as int <= u64::MAX as int,
                    prior.block_size > 0,
            ;
            // the reserved region still fits: the dropped run began at or
            // above it
            assert(self.reserved_blocks <= self.block_count);
        }
    }

    /// Grows the image to `target_blocks` blocks: the new tail range joins
    /// the free pool, merging with a free run that already touched the old
    /// end.  Growing to the current size is a no-op.
    pub fn expand(&mut self, target_blocks: u64)
        requires
            old(self).wf(),
            target_blocks >= old(self).block_count,
            target_blocks as int * old(self).block_size as int <= u64::MAX as int,
        ensures
            final(self).wf(),
            final(self).block_size == old(self).block_size,
            final(self).reserved_blocks == old(self).reserved_blocks,
            final(self).block_count == target_blocks,
            final(self).free@ == expand_extents(
                old(self).free@,
                old(self).block_count as int,
                target_blocks as int,
            ),
            // a block is free afterwards iff it was free before or lies in
            // the newly added tail range
            forall|b: int|
                final(self).spec_free_block(b) == (old(self).spec_free_block(b) || old(
                    self,
                ).block_count <= b < target_blocks),
    {
        if target_blocks == self.block_count {
            proof {
                assert forall|b: int|
                    self.spec_free_block(b) == (self.spec_free_block(b)
                        || self.block_count <= b < target_blocks) by {}
            }
            return ;
        }
        let ghost prior = *old(self);
        let len: usize = self.free.len();
        let mut merged = false;
        if len > 0 {
            let last = self.free[len - 1];
            proof {
                assert(self.free@[len - 1].index + self.free@[len - 1].count
                    <= self.block_count as int);
            }
            if last.index + last.count == self.block_count {
                let e = FreeExtent { index: last.index, count: target_blocks - last.index };
                self.free.pop();
                self.free.push(e);
                merged = true;
                proof {
                    assert(self.free@ =~= prior.free@.update(
                        len - 1,
                        FreeExtent {
                            index: prior.free@.last().index,
                            count: (target_blocks - prior.free@.last().index) as u64,
                        },
                    ));
                }
            }
        }
        if !merged {
            self.free.push(
                FreeExtent {
                    index: self.block_count,
                    count: target_blocks - self.block_count,
                },
            );
        }
        self.block_count = target_blocks;
        proof {
            let pf = prior.free@;
            let nf = self.free@;
            let oc = prior.block_count as int;
            let t = target_blocks as int;
            assert forall|b: int|
                self.spec_free_block(b) == (prior.spec_free_block(b) || oc <= b < t) by {
                if prior.spec_free_block(b) {
                    let i = choose|i: int|
                        0 <= i < pf.len() && (#[trigger] pf[i]).index <= b < pf[i].index
                            + pf[i].count;
                    assert(nf[i].index <= b < nf[i].index + nf[i].count);
                }
                if oc <= b < t {
                    assert(nf.last().index <= b < nf.last().index + nf.last().count);
                    assert(nf[nf.len() - 1].index <= b < nf[nf.len() - 1].index + nf[nf.len()
                        - 1].count);
                }
                if self.spec_free_block(b) {
                    let i = choose|i: int|
                        0 <= i < nf.len() && (#[trigger] nf[i]).index <= b < nf[i].index
                            + nf[i].count;
                    if i < nf.len() - 1 {
                        assert(pf[i].index <= b < pf[i].index + pf[i].count);
                    } else {
                        if pf.len() > 0 && pf.last().index + pf.last().count == oc {
                            if b < pf.last().index + pf.last().count {
                                assert(pf[pf.len() - 1].index <= b < pf[pf.len() - 1].index
                                    + pf[pf.len() - 1].count);
                            }
                        }
                    }
                }
            }
        }
    }
}

/// Growing an image and then shrinking it, with nothing written in between,
/// never ends above the size before the expansion, and never evicts a block
/// that held live data: every block at or beyond the final size is free.
pub proof fn lemma_expand_shrink_round_trip(d: DiskLayout, target_blocks: u64)
    requires
        d.wf(),
        target_blocks >= d.block_count,
    ensures
        ({
            let grown = expand_extents(d.free@, d.block_count as int, target_blocks as int);
            let shrunk_count = tail_start_in(grown, target_blocks as int);
            &&& shrunk_count <= d.block_count
            &&& forall|b: int|
                shrunk_count <= b < target_blocks ==> free_block_in(grown, b)
            &&& forall|b: int|
                d.reserved_blocks <= b < d.block_count && !d.spec_free_block(b) ==> b
                    < shrunk_count
        }),
{
    let pf = d.free@;
    let oc = d.block_count as int;
    let t = target_blocks as int;
    let grown = expand_extents(pf, oc, t);
    let shrunk_count = tail_start_in(grown, t);
    if t == oc {
        if pf.len() > 0 && pf.last().index + pf.last().count == oc {
            assert(shrunk_count == pf.last().index as int);
            assert forall|b: int| shrunk_count <= b < t implies free_block_in(grown, b) by {
                assert(grown[grown.len() - 1].index <= b < grown[grown.len() - 1].index
                    + grown[grown.len() - 1].count);
            }
            assert forall|b: int|
                d.reserved_blocks <= b < oc && !d.spec_free_block(b) implies b
                < shrunk_count by {
                if b >= shrunk_count {
                    assert(pf[pf.len() - 1].index <= b < pf[pf.len() - 1].index + pf[pf.len()
                        - 1].count);
                }
            }
        } else {
            assert(shrunk_count == oc);
        }
    } else if pf.len() > 0 && pf.last().index + pf.last().count == oc {
        let merged = FreeExtent {
            index: pf.last().index,
            count: (t - pf.last().index) as u64,
        };
        assert(grown == pf.update(pf.len() - 1, merged));
        assert(grown.last() == merged);
        assert(shrunk_count == merged.index as int);
        assert forall|b: int| shrunk_count <= b < t implies free_block_in(grown, b) by {
            assert(grown[grown.len() - 1].index <= b < grown[grown.len() - 1].index + grown[
                grown.len() - 1].count);
        }
        assert forall|b: int|
            d.reserved_blocks <= b < oc && !d.spec_free_block(b) implies b < shrunk_count by {
            if b >= shrunk_count {
                assert(pf[pf.len() - 1].index <= b < pf[pf.len() - 1].index + pf[pf.len()
                    - 1].count);
            }
        }
    } else {
        let added = FreeExtent { index: oc as u64, count: (t - oc) as u64 };
        assert(grown == pf.push(added));
        assert(grown.last() == added);
        assert(shrunk_count == oc);
        assert forall|b: int| shrunk_count <= b < t implies free_block_in(grown, b) by {
            assert(grown[grown.len() - 1].index <= b < grown[grown.len() - 1].index + grown[
                grown.len() - 1].count);
        }
    }
}

} // verus!
