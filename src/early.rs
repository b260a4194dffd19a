use vstd::prelude::*;

use crate::error::AllocError;
use crate::region::RegionState;

verus! {

/// An allocator for the early stage of boot, with pages of `PAGE_SIZE` bytes.
///
/// Byte allocations grow forward from the low end of the region; only the
/// number of outstanding ones is kept, and the byte area is reclaimed as a
/// whole once that number drops to zero. Page allocations grow backward
/// from the high end and are never reclaimed.
pub struct EarlyAllocator<const PAGE_SIZE: usize> {
    base: usize,
    size: usize,
    b_pos: usize,
    p_pos: usize,
    b_count: usize,
}

impl<const PAGE_SIZE: usize> View for EarlyAllocator<PAGE_SIZE> {
    type V = RegionState;

    closed spec fn view(&self) -> RegionState {
        RegionState {
            base: self.base as nat,
            size: self.size as nat,
            byte_cursor: self.b_pos as nat,
            page_cursor: self.p_pos as nat,
            byte_alloc_count: self.b_count as nat,
        }
    }
}

impl<const PAGE_SIZE: usize> EarlyAllocator<PAGE_SIZE> {
    /// The abstract state is well formed, and the end of the region is an
    /// address.
    pub open spec fn wf(&self) -> bool {
        &&& self@.wf()
        &&& self@.base + self@.size <= usize::MAX
    }

    /// An allocator that manages an empty region at address zero.
    pub fn new() -> (r: Self)
        ensures
            r.wf(),
            r@ == RegionState::initialized(0, 0),
    {
        EarlyAllocator { base: 0, size: 0, b_pos: 0, p_pos: 0, b_count: 0 }
    }

    /// Hands the region `[start, start + size)` over to the allocator,
    /// forgetting whatever it managed before.
    pub fn init(&mut self, start: usize, size: usize)
        requires
            start + size <= usize::MAX,
        ensures
            final(self).wf(),
            final(self)@ == RegionState::initialized(start as nat, size as nat),
            final(self)@.byte_cursor == start,
            final(self)@.page_cursor == start + size,
            final(self)@.byte_alloc_count == 0,
    {
        self.base = start;
        self.size = size;
        self.b_pos = start;
        self.p_pos = start + size;
        self.b_count = 0;
    }

    /// Allocates `size` bytes at the byte cursor. The alignment is accepted
    /// and not applied: the address returned is the byte cursor as it stood.
    ///
    /// Fails with `Exhausted`, changing nothing, when the request would
    /// cross the page cursor, or when the count of outstanding byte
    /// allocations can grow no further.
    #[allow(unused_variables)]
    pub fn allocate(&mut self, size: usize, align: usize) -> (r: Result<usize, AllocError>)
        requires
            old(self).wf(),
        ensures
            final(self).wf(),
            r.is_ok() <==> old(self)@.byte_fits(size as nat) && old(self)@.byte_alloc_count
                < usize::MAX,
            old(self)@.byte_alloc_count < usize::MAX ==> (r.is_err() <==> old(self)@.byte_cursor
                + size > old(self)@.page_cursor),
            match r {
                Ok(addr) => {
                    &&& addr == old(self)@.byte_cursor
                    &&& final(self)@.byte_cursor == old(self)@.byte_cursor + size
                    &&& final(self)@ == old(self)@.after_alloc(size as nat)
                },
                Err(e) => e == AllocError::Exhausted && final(self)@ == old(self)@,
            },
    {
        let pos = match self.b_pos.checked_add(size) {
            Some(pos) => pos,
            None => return Err(AllocError::Exhausted),
        };
        if pos > self.p_pos || self.b_count == usize::MAX {
            return Err(AllocError::Exhausted);
        }
        let addr = self.b_pos;
        self.b_pos = pos;
        self.b_count = self.b_count + 1;
        Ok(addr)
    }

    /// Frees a byte allocation at `pos`. A free above the byte cursor, or
    /// while no byte allocation is outstanding, is ignored. Otherwise the
    /// count of outstanding allocations drops by one, and when it reaches
    /// zero the whole byte area is reclaimed.
    #[allow(unused_variables)]
    pub fn dealloc(&mut self, pos: usize, size: usize, align: usize)
        requires
            old(self).wf(),
        ensures
            final(self).wf(),
            final(self)@ == old(self)@.after_dealloc(pos as nat),
            final(self)@.page_cursor == old(self)@.page_cursor,
    {
        if pos > self.b_pos || self.b_count == 0 {
            return;
        }
        self.b_count = self.b_count - 1;
        if self.b_count == 0 {
            self.b_pos = self.base;
        }
    }

    /// Allocates `num_pages` pages just below the page cursor and returns
    /// their first address, the new page cursor. The alignment is accepted
    /// and not applied beyond the page granularity.
    ///
    /// Fails with `Exhausted`, changing nothing, when the pages would cross
    /// the byte cursor.
    #[allow(unused_variables)]
    pub fn alloc_pages(&mut self, num_pages: usize, align_pow2: usize) -> (r: Result<
        usize,
        AllocError,
    >)
        requires
            old(self).wf(),
        ensures
            final(self).wf(),
            r.is_ok() <==> old(self)@.page_fits(num_pages as nat, PAGE_SIZE as nat),
            r.is_err() <==> old(self)@.page_cursor - num_pages * PAGE_SIZE
                < old(self)@.byte_cursor,
            match r {
                Ok(addr) => {
                    &&& final(self)@.page_cursor == old(self)@.page_cursor - num_pages
                        * PAGE_SIZE
                    &&& addr == final(self)@.page_cursor
                    &&& final(self)@ == old(self)@.after_alloc_pages(
                        num_pages as nat,
                        PAGE_SIZE as nat,
                    )
                },
                Err(e) => e == AllocError::Exhausted && final(self)@ == old(self)@,
            },
    {
        let bytes = match num_pages.checked_mul(PAGE_SIZE) {
            Some(bytes) => bytes,
            None => return Err(AllocError::Exhausted),
        };
        if bytes > self.p_pos - self.b_pos {
            return Err(AllocError::Exhausted);
        }
        let pos = self.p_pos - bytes;
        self.p_pos = pos;
        Ok(pos)
    }

    /// Frees pages: a no-op, since pages are never given back.
    #[allow(unused_variables)]
    pub fn dealloc_pages(&mut self, pos: usize, num_pages: usize)
        requires
            old(self).wf(),
        ensures
            final(self).wf(),
            final(self)@ == old(self)@.after_dealloc_pages(pos as nat, num_pages as nat),
            final(self)@.page_cursor == old(self)@.page_cursor,
    {
    }

    /// Offers another region. Only one region is managed, so the offer is
    /// accepted and nothing changes.
    #[allow(unused_variables)]
    pub fn add_memory(&mut self, start: usize, size: usize) -> (r: Result<(), AllocError>)
        requires
            old(self).wf(),
        ensures
            final(self).wf(),
            r == Ok::<(), AllocError>(()),
            final(self)@ == old(self)@,
    {
        Ok(())
    }

    /// Bytes in the whole region.
    pub fn total_bytes(&self) -> (r: usize)
        requires
            self.wf(),
        ensures
            r == self@.total_bytes(),
    {
        self.size
    }

    /// Bytes taken by byte allocations, freed or not, since the byte area
    /// was last reclaimed.
    pub fn used_bytes(&self) -> (r: usize)
        requires
            self.wf(),
        ensures
            r == self@.used_bytes(),
    {
        self.b_pos - self.base
    }

    /// Bytes left between the two cursors, for either kind of request.
    pub fn available_bytes(&self) -> (r: usize)
        requires
            self.wf(),
        ensures
            r == self@.available_bytes(),
    {
        self.p_pos - self.b_pos
    }

    /// Whole pages in the region.
    pub fn total_pages(&self) -> (r: usize)
        requires
            self.wf(),
        ensures
            r == self@.total_pages(PAGE_SIZE as nat),
    {
        if PAGE_SIZE == 0 {
            0
        } else {
            self.size / PAGE_SIZE
        }
    }

    /// Whole pages handed out by page allocations.
    pub fn used_pages(&self) -> (r: usize)
        requires
            self.wf(),
        ensures
            r == self@.used_pages(PAGE_SIZE as nat),
    {
        if PAGE_SIZE == 0 {
            0
        } else {
            (self.base + self.size - self.p_pos) / PAGE_SIZE
        }
    }

    /// Whole pages that a page request could still get.
    pub fn available_pages(&self) -> (r: usize)
        requires
            self.wf(),
        ensures
            r == self@.available_pages(PAGE_SIZE as nat),
    {
        if PAGE_SIZE == 0 {
            0
        } else {
            (self.p_pos - self.b_pos) / PAGE_SIZE
        }
    }
}

} // verus!
