use vstd::prelude::*;

verus! {

/// The one way an allocation can fail.
#[derive(Clone, Copy, Debug, PartialEq, Eq, Structural)]
pub enum AllocError {
    /// The space left between the two cursors cannot hold the request.
    Exhausted,
}

} // verus!
