use vstd::prelude::*;

use crate::region::RegionState;

verus! {

impl RegionState {
    /// The state after the byte requests `sizes`, made in order and all granted.
    pub open spec fn after_allocs(self, sizes: Seq<nat>) -> RegionState
        decreases sizes.len(),
    {
        if sizes.len() == 0 {
            self
        } else {
            self.after_allocs(sizes.drop_last()).after_alloc(sizes.last())
        }
    }

    /// Each of the byte requests `sizes`, made in order, fits when it is made.
    pub open spec fn fits_allocs(self, sizes: Seq<nat>) -> bool {
        forall|i: int|
            0 <= i < sizes.len() ==> #[trigger] self.after_allocs(sizes.take(i)).byte_fits(
                sizes[i],
            )
    }

    /// The state after the byte frees at `addrs`, made in order.
    pub open spec fn after_deallocs(self, addrs: Seq<nat>) -> RegionState
        decreases addrs.len(),
    {
        if addrs.len() == 0 {
            self
        } else {
            self.after_deallocs(addrs.drop_last()).after_dealloc(addrs.last())
        }
    }

    /// Each of the byte frees at `addrs`, made in order, lies at or below the
    /// byte cursor when it is made.
    pub open spec fn frees_below_cursor(self, addrs: Seq<nat>) -> bool {
        forall|i: int|
            0 <= i < addrs.len() ==> addrs[i] <= #[trigger] self.after_deallocs(
                addrs.take(i),
            ).byte_cursor
    }

    /// The state after the page frees `frees`, each an address and a number
    /// of pages, made in order.
    pub open spec fn after_dealloc_pages_all(self, frees: Seq<(nat, nat)>) -> RegionState
        decreases frees.len(),
    {
        if frees.len() == 0 {
            self
        } else {
            let last = frees.last();
            self.after_dealloc_pages_all(frees.drop_last()).after_dealloc_pages(last.0, last.1)
        }
    }
}

proof fn lemma_allocs(s: RegionState, sizes: Seq<nat>)
    requires
        s.wf(),
        s.fits_allocs(sizes),
    ensures
        s.after_allocs(sizes).wf(),
        s.after_allocs(sizes).base == s.base,
        s.after_allocs(sizes).size == s.size,
        s.after_allocs(sizes).page_cursor == s.page_cursor,
        s.after_allocs(sizes).byte_alloc_count == s.byte_alloc_count + sizes.len(),
    decreases sizes.len(),
{
    if sizes.len() > 0 {
        let prefix = sizes.drop_last();
        assert forall|i: int| 0 <= i < prefix.len() implies #[trigger] s.after_allocs(
            prefix.take(i),
        ).byte_fits(prefix[i]) by {
            assert(prefix.take(i) == sizes.take(i));
            assert(s.after_allocs(sizes.take(i)).byte_fits(sizes[i]));
        }
        lemma_allocs(s, prefix);
        let k = sizes.len() - 1;
        assert(sizes.take(k) == prefix);
        assert(s.after_allocs(sizes.take(k)).byte_fits(sizes[k]));
    }
}

proof fn lemma_deallocs(s: RegionState, addrs: Seq<nat>)
    requires
        s.wf(),
        s.frees_below_cursor(addrs),
        addrs.len() <= s.byte_alloc_count,
    ensures
        s.after_deallocs(addrs).wf(),
        s.after_deallocs(addrs).base == s.base,
        s.after_deallocs(addrs).page_cursor == s.page_cursor,
        s.after_deallocs(addrs).byte_alloc_count == s.byte_alloc_count - addrs.len(),
    decreases addrs.len(),
{
    if addrs.len() > 0 {
        let prefix = addrs.drop_last();
        assert forall|i: int| 0 <= i < prefix.len() implies prefix[i] <= #[trigger] s.after_deallocs(
            prefix.take(i),
        ).byte_cursor by {
            assert(prefix.take(i) == addrs.take(i));
            assert(addrs[i] <= s.after_deallocs(addrs.take(i)).byte_cursor);
        }
        lemma_deallocs(s, prefix);
        let k = addrs.len() - 1;
        assert(addrs.take(k) == prefix);
        assert(addrs[k] <= s.after_deallocs(addrs.take(k)).byte_cursor);
    }
}

/// Collective reclamation: starting with no byte allocation outstanding, after
/// `k` granted byte requests and then `k` byte frees, each at or below the byte
/// cursor when it is made and in any order, no byte allocation is
/// outstanding, the byte cursor is back at the base, the page area is as it
/// was, and a byte request for all the space below the page cursor fits.
pub proof fn lemma_collective_reclamation(s: RegionState, sizes: Seq<nat>, addrs: Seq<nat>)
    requires
        s.wf(),
        s.byte_alloc_count == 0,
        s.fits_allocs(sizes),
        s.after_allocs(sizes).frees_below_cursor(addrs),
        addrs.len() == sizes.len(),
    ensures
        ({
            let t = s.after_allocs(sizes).after_deallocs(addrs);
            &&& t.wf()
            &&& t.byte_alloc_count == 0
            &&& t.base == s.base
            &&& t.byte_cursor == s.base
            &&& t.page_cursor == s.page_cursor
            &&& t.byte_fits((t.page_cursor - t.base) as nat)
        }),
{
    lemma_allocs(s, sizes);
    lemma_deallocs(s.after_allocs(sizes), addrs);
}

/// Pages are never freed: after any number of page frees the page cursor is
/// where it was, and a page request that did not fit before still does not.
pub proof fn lemma_pages_never_freed(
    s: RegionState,
    frees: Seq<(nat, nat)>,
    num_pages: nat,
    page_size: nat,
)
    ensures
        s.after_dealloc_pages_all(frees).page_cursor == s.page_cursor,
        !s.page_fits(num_pages, page_size) ==> !s.after_dealloc_pages_all(frees).page_fits(
            num_pages,
            page_size,
        ),
    decreases frees.len(),
{
    if frees.len() > 0 {
        lemma_pages_never_freed(s, frees.drop_last(), num_pages, page_size);
    }
}

} // verus!
