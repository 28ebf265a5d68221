//! Progress events emitted by a worker, and the opaque outcome of one
//! transfer.

use vstd::prelude::*;

verus! {

/// What the transfer delegate did for one entry. The core never interprets
/// the code: its meaning (created, updated, unchanged, ...) belongs to the
/// delegate's own vocabulary and is carried through unchanged.
#[derive(Clone, Copy, PartialEq, Eq, Structural, Debug)]
pub struct SyncOutcome {
    pub code: u64,
}

/// One event on the progress stream. The worker itself emits only the
/// "entry fully synced" variant; a transfer delegate may emit further
/// variants of its own on the same stream outside this core.
#[derive(Clone, Copy, PartialEq, Eq, Structural, Debug)]
pub enum ProgressMessage {
    /// One entry was fully synchronized, with the delegate's outcome.
    DoneSyncing(SyncOutcome),
}

} // verus!
