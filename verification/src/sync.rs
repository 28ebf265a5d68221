//! Configuration of one synchronization run.

use vstd::prelude::*;

verus! {

/// Options supplied once per worker run and never mutated.
#[derive(Clone, Copy, PartialEq, Eq, Structural, Debug)]
pub struct SyncOptions {
    /// Copy the source entry's permission bits to the destination after a
    /// successful content transfer.
    pub preserve_permissions: bool,
}

} // verus!
