use vstd::prelude::*;

verus! {

/// Why a configuration record is refused.
#[derive(Clone, Copy, Debug, PartialEq, Eq, Structural)]
pub enum ConfigError {
    /// The node id is the reserved, invalid id.
    InvalidId,
    /// The heartbeat tick is zero.
    ZeroHeartbeatTick,
    /// The election tick does not exceed the heartbeat tick.
    ElectionTickTooSmall,
    /// The lower bound of the election timeout is under the election tick.
    MinElectionTickTooSmall { min_election_tick: usize, election_tick: usize },
    /// The lower bound of the election timeout is not under its upper bound.
    MaxElectionTickTooSmall { min_election_tick: usize, max_election_tick: usize },
}

/// The errors of this library.
#[derive(Clone, Copy, Debug, PartialEq, Eq, Structural)]
pub enum Error {
    /// The configuration record is inconsistent: the node cannot start.
    ConfigInvalid(ConfigError),
    /// The operating system gave no seed for the election jitter: the node
    /// cannot start.
    NoEntropy,
}

} // verus!
