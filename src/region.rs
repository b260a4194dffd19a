use vstd::prelude::*;

verus! {

/// The abstract state of an allocator: the managed region and its two cursors.
pub struct RegionState {
    /// First address of the managed region.
    pub base: nat,
    /// Length of the managed region in bytes.
    pub size: nat,
    /// Next free address for byte allocations, which grow upward.
    pub byte_cursor: nat,
    /// Lowest address handed out to page allocations, which grow downward.
    pub page_cursor: nat,
    /// Number of byte allocations not yet freed.
    pub byte_alloc_count: nat,
}

impl RegionState {
    /// The cursors stay in order inside the region, and the byte area is
    /// empty whenever no byte allocation is outstanding.
    pub open spec fn wf(self) -> bool {
        &&& self.base <= self.byte_cursor
        &&& self.byte_cursor <= self.page_cursor
        &&& self.page_cursor <= self.base + self.size
        &&& (self.byte_alloc_count == 0 ==> self.byte_cursor == self.base)
    }

    /// The state right after the region `[start, start + size)` is handed over.
    pub open spec fn initialized(start: nat, size: nat) -> RegionState {
        RegionState {
            base: start,
            size,
            byte_cursor: start,
            page_cursor: start + size,
            byte_alloc_count: 0,
        }
    }

    /// A byte request of `size` bytes fits between the two cursors.
    pub open spec fn byte_fits(self, size: nat) -> bool {
        self.byte_cursor + size <= self.page_cursor
    }

    /// The state after a granted byte request of `size` bytes.
    pub open spec fn after_alloc(self, size: nat) -> RegionState {
        RegionState {
            byte_cursor: self.byte_cursor + size,
            byte_alloc_count: self.byte_alloc_count + 1,
            ..self
        }
    }

    /// A byte free at `pos` is taken into account: it lies at or below the
    /// byte cursor and some byte allocation is outstanding. Any other free
    /// is ignored.
    pub open spec fn accepts_free(self, pos: nat) -> bool {
        pos <= self.byte_cursor && self.byte_alloc_count > 0
    }

    /// The state after a byte free at `pos`: the count drops by one, and the
    /// whole byte area is reclaimed when it reaches zero.
    pub open spec fn after_dealloc(self, pos: nat) -> RegionState {
        if !self.accepts_free(pos) {
            self
        } else if self.byte_alloc_count == 1 {
            RegionState { byte_cursor: self.base, byte_alloc_count: 0, ..self }
        } else {
            RegionState { byte_alloc_count: (self.byte_alloc_count - 1) as nat, ..self }
        }
    }

    /// A request for `num_pages` pages of `page_size` bytes fits: carving
    /// them below the page cursor does not cross the byte cursor.
    pub open spec fn page_fits(self, num_pages: nat, page_size: nat) -> bool {
        self.page_cursor - num_pages * page_size >= self.byte_cursor
    }

    /// The state after a granted request for `num_pages` pages.
    pub open spec fn after_alloc_pages(self, num_pages: nat, page_size: nat) -> RegionState {
        RegionState { page_cursor: (self.page_cursor - num_pages * page_size) as nat, ..self }
    }

    /// The state after a page free: pages are never given back.
    pub open spec fn after_dealloc_pages(self, pos: nat, num_pages: nat) -> RegionState {
        self
    }

    /// Bytes in the whole region.
    pub open spec fn total_bytes(self) -> nat {
        self.size
    }

    /// Bytes taken by the byte area.
    pub open spec fn used_bytes(self) -> nat {
        (self.byte_cursor - self.base) as nat
    }

    /// Bytes left between the two cursors.
    pub open spec fn available_bytes(self) -> nat {
        (self.page_cursor - self.byte_cursor) as nat
    }

    /// Whole pages in the region; none when pages have no size.
    pub open spec fn total_pages(self, page_size: nat) -> nat {
        if page_size == 0 { 0 } else { self.size / page_size }
    }

    /// Whole pages taken by the page area.
    pub open spec fn used_pages(self, page_size: nat) -> nat {
        if page_size == 0 {
            0
        } else {
            ((self.base + self.size - self.page_cursor) as nat) / page_size
        }
    }

    /// Whole pages that still fit between the two cursors.
    pub open spec fn available_pages(self, page_size: nat) -> nat {
        if page_size == 0 {
            0
        } else {
            self.available_bytes() / page_size
        }
    }
}

} // verus!
