//! A double-ended bump allocator for the early stage of boot.
//!
//! One contiguous region serves two disciplines: byte allocations grow
//! forward from the low end and are reclaimed all at once when the last
//! one is freed; page allocations grow backward from the high end and are
//! never reclaimed.
//!
//! ```text
//! [ bytes-used | avail-area | pages-used ]
//! |            | -->    <-- |            |
//! base    byte_cursor  page_cursor    base + size
//! ```

mod early;
mod error;
mod laws;
mod region;

pub use early::EarlyAllocator;
pub use error::AllocError;
pub use laws::{lemma_collective_reclamation, lemma_pages_never_freed};
pub use region::RegionState;
