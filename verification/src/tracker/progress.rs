use super::state::ProgressState;
use vstd::prelude::*;

verus! {

/// What the leader keeps about the replication to one peer.
#[derive(Clone, Copy, Debug, PartialEq, Eq, Structural)]
pub struct Progress {
    /// There are three states.
    ///
    /// While probing, the leader sends at most one replication message per
    /// heartbeat interval, to find out how far the peer has got.
    ///
    /// While replicating, the leader optimistically advances the next index
    /// to send right after sending, without waiting for the acknowledgment.
    ///
    /// While a snapshot is in flight, the leader sends no replication
    /// message to the peer at all.
    pub state: ProgressState,
}

} // verus!
