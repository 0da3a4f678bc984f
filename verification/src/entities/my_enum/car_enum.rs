use vstd::prelude::*;

verus! {

/// A lawn mower waits at the left edge until a zombie reaches it.
#[derive(Clone, Copy, Debug, PartialEq, Eq, Structural)]
pub enum CarStatus {
    Stopping,
    Running,
}

} // verus!
