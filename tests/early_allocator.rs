use bump_allocator::{AllocError, EarlyAllocator};

type Alloc = EarlyAllocator<0x100>;

fn region(start: usize, size: usize) -> Alloc {
    let mut a = Alloc::new();
    a.init(start, size);
    a
}

#[test]
fn new_manages_an_empty_region() {
    let mut a = Alloc::new();
    assert_eq!(a.total_bytes(), 0);
    assert_eq!(a.available_bytes(), 0);
    assert_eq!(a.allocate(1, 1), Err(AllocError::Exhausted));
    assert_eq!(a.allocate(0, 1), Ok(0));
    assert_eq!(a.alloc_pages(1, 0), Err(AllocError::Exhausted));
}

#[test]
fn init_sets_both_cursors_at_the_ends() {
    let a = region(0x1000, 0x1000);
    assert_eq!(a.total_bytes(), 0x1000);
    assert_eq!(a.used_bytes(), 0);
    assert_eq!(a.available_bytes(), 0x1000);
    assert_eq!(a.total_pages(), 0x10);
    assert_eq!(a.used_pages(), 0);
    assert_eq!(a.available_pages(), 0x10);
}

#[test]
fn init_again_resets_everything() {
    let mut a = region(0x1000, 0x1000);
    assert_eq!(a.allocate(0x20, 8), Ok(0x1000));
    assert_eq!(a.alloc_pages(1, 0), Ok(0x1F00));
    a.init(0x4000, 0x800);
    assert_eq!(a.used_bytes(), 0);
    assert_eq!(a.used_pages(), 0);
    assert_eq!(a.allocate(0x10, 8), Ok(0x4000));
    assert_eq!(a.alloc_pages(1, 0), Ok(0x4700));
}

#[test]
fn bytes_grow_forward_from_the_cursor() {
    let mut a = region(0x1000, 0x1000);
    assert_eq!(a.allocate(0x10, 8), Ok(0x1000));
    assert_eq!(a.allocate(0x3, 1), Ok(0x1010));
    assert_eq!(a.allocate(0x100, 16), Ok(0x1013));
    assert_eq!(a.used_bytes(), 0x113);
    assert_eq!(a.available_bytes(), 0x1000 - 0x113);
}

#[test]
fn alignment_is_not_applied() {
    let mut a = region(0x1000, 0x1000);
    assert_eq!(a.allocate(0x3, 1), Ok(0x1000));
    assert_eq!(a.allocate(0x8, 64), Ok(0x1003));
}

#[test]
fn pages_grow_backward_from_the_cursor() {
    let mut a = region(0x1000, 0x1000);
    assert_eq!(a.alloc_pages(1, 0x100), Ok(0x1F00));
    assert_eq!(a.alloc_pages(3, 0x100), Ok(0x1C00));
    assert_eq!(a.alloc_pages(0, 0x100), Ok(0x1C00));
    assert_eq!(a.used_pages(), 4);
    assert_eq!(a.available_pages(), 0xC);
}

#[test]
fn byte_request_fails_exactly_past_the_page_cursor() {
    let mut a = region(0x1000, 0x1000);
    assert_eq!(a.alloc_pages(1, 0), Ok(0x1F00));
    assert_eq!(a.allocate(0xF01, 1), Err(AllocError::Exhausted));
    assert_eq!(a.used_bytes(), 0);
    assert_eq!(a.allocate(0xF00, 1), Ok(0x1000));
    assert_eq!(a.allocate(1, 1), Err(AllocError::Exhausted));
    assert_eq!(a.allocate(0, 1), Ok(0x1F00));
    assert_eq!(a.available_bytes(), 0);
}

#[test]
fn page_request_fails_exactly_past_the_byte_cursor() {
    let mut a = region(0x1000, 0x1000);
    assert_eq!(a.allocate(0x101, 1), Ok(0x1000));
    assert_eq!(a.alloc_pages(0x10, 0), Err(AllocError::Exhausted));
    assert_eq!(a.used_pages(), 0);
    assert_eq!(a.alloc_pages(0xE, 0), Ok(0x1200));
    assert_eq!(a.alloc_pages(1, 0), Err(AllocError::Exhausted));
    assert_eq!(a.used_pages(), 0xE);
}

#[test]
fn overflowing_requests_are_exhausted() {
    let mut a = region(0x1000, 0x1000);
    assert_eq!(a.allocate(usize::MAX, 1), Err(AllocError::Exhausted));
    assert_eq!(a.alloc_pages(usize::MAX, 0), Err(AllocError::Exhausted));
    assert_eq!(a.alloc_pages(usize::MAX / 0x100 + 1, 0), Err(AllocError::Exhausted));
    assert_eq!(a.used_bytes(), 0);
    assert_eq!(a.used_pages(), 0);
}

#[test]
fn region_at_the_top_of_the_address_space() {
    let start = usize::MAX - 0x1000;
    let mut a = region(start, 0x1000);
    assert_eq!(a.alloc_pages(1, 0), Ok(usize::MAX - 0x100));
    assert_eq!(a.allocate(0xF00, 1), Ok(start));
    assert_eq!(a.allocate(1, 1), Err(AllocError::Exhausted));
}

#[test]
fn byte_area_is_reclaimed_when_the_last_free_comes() {
    let mut a = region(0x1000, 0x1000);
    assert_eq!(a.alloc_pages(2, 0), Ok(0x1E00));
    assert_eq!(a.allocate(0x10, 8), Ok(0x1000));
    assert_eq!(a.allocate(0x20, 8), Ok(0x1010));
    assert_eq!(a.allocate(0x30, 8), Ok(0x1030));
    a.dealloc(0x1010, 0x20, 8);
    a.dealloc(0x1030, 0x30, 8);
    assert_eq!(a.used_bytes(), 0x60);
    assert_eq!(a.allocate(0x10, 8), Ok(0x1060));
    a.dealloc(0x1000, 0x10, 8);
    assert_eq!(a.used_bytes(), 0x70);
    a.dealloc(0x1060, 0x10, 8);
    assert_eq!(a.used_bytes(), 0);
    assert_eq!(a.used_pages(), 2);
    assert_eq!(a.allocate(0xE00, 8), Ok(0x1000));
}

#[test]
fn free_above_the_byte_cursor_is_ignored() {
    let mut a = region(0x1000, 0x1000);
    assert_eq!(a.allocate(0x10, 8), Ok(0x1000));
    a.dealloc(0x1011, 0x10, 8);
    assert_eq!(a.used_bytes(), 0x10);
    a.dealloc(0x1000, 0x10, 8);
    assert_eq!(a.used_bytes(), 0);
}

#[test]
fn free_with_nothing_outstanding_is_ignored() {
    let mut a = region(0x1000, 0x1000);
    a.dealloc(0x1000, 0x10, 8);
    assert_eq!(a.used_bytes(), 0);
    assert_eq!(a.allocate(0x10, 8), Ok(0x1000));
    assert_eq!(a.allocate(0x10, 8), Ok(0x1010));
    a.dealloc(0x1000, 0x10, 8);
    assert_eq!(a.used_bytes(), 0x20);
    a.dealloc(0x1010, 0x10, 8);
    assert_eq!(a.used_bytes(), 0);
}

#[test]
fn pages_are_never_freed() {
    let mut a = region(0x1000, 0x1000);
    assert_eq!(a.allocate(0x800, 8), Ok(0x1000));
    assert_eq!(a.alloc_pages(8, 0), Ok(0x1800));
    assert_eq!(a.alloc_pages(1, 0), Err(AllocError::Exhausted));
    a.dealloc_pages(0x1800, 8);
    a.dealloc_pages(0x1800, 8);
    a.dealloc_pages(0x1C00, 4);
    assert_eq!(a.used_pages(), 8);
    assert_eq!(a.available_pages(), 0);
    assert_eq!(a.alloc_pages(1, 0), Err(AllocError::Exhausted));
}

#[test]
fn add_memory_accepts_and_changes_nothing() {
    let mut a = region(0x1000, 0x1000);
    assert_eq!(a.add_memory(0x8000, 0x1000), Ok(()));
    assert_eq!(a.total_bytes(), 0x1000);
    assert_eq!(a.available_bytes(), 0x1000);
    assert_eq!(a.alloc_pages(0x10, 0), Ok(0x1000));
    assert_eq!(a.alloc_pages(1, 0), Err(AllocError::Exhausted));
}

#[test]
fn page_counts_round_down() {
    let mut a = region(0x1000, 0x1080);
    assert_eq!(a.total_pages(), 0x10);
    assert_eq!(a.allocate(0x90, 1), Ok(0x1000));
    assert_eq!(a.available_pages(), 0xF);
    assert_eq!(a.alloc_pages(1, 0), Ok(0x1F80));
    assert_eq!(a.used_pages(), 1);
}

#[test]
fn zero_sized_pages() {
    let mut a = EarlyAllocator::<0>::new();
    a.init(0x1000, 0x1000);
    assert_eq!(a.total_pages(), 0);
    assert_eq!(a.alloc_pages(5, 0), Ok(0x2000));
    assert_eq!(a.used_pages(), 0);
    assert_eq!(a.available_pages(), 0);
}

#[test]
fn example_scenario() {
    let mut a = region(0x1000, 0x1000);
    assert_eq!(a.allocate(0x10, 1), Ok(0x1000));
    assert_eq!(a.used_bytes(), 0x10);
    assert_eq!(a.alloc_pages(2, 0), Ok(0x1E00));
    assert_eq!(a.used_pages(), 2);
    assert_eq!(a.allocate(0xDF0, 1), Ok(0x1010));
    assert_eq!(a.available_bytes(), 0);
    assert_eq!(a.used_bytes(), 0xE00);
    assert_eq!(a.allocate(1, 1), Err(AllocError::Exhausted));
}
