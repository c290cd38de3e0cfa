use crate::error::{ConfigError, Error};
use vstd::prelude::*;

verus! {

/// A constant represents invalid id of raft.
pub const INVALID_ID: u64 = 0;

/// What a node is started with.
#[derive(Clone, Copy, Debug, PartialEq, Eq, Structural)]
pub struct Config {
    /// id of this node
    pub id: u64,
    /// hearbeat tick
    pub heartbeat_tick: usize,
    /// election_tick
    pub election_tick: usize,
    /// min election_tick
    pub min_election_tick: usize,
    /// max election_tick
    pub max_election_tick: usize,
    /// Specify if the leader should check quorum activity. Leader steps down when
    /// quorum is not active for an electionTimeout.
    pub check_quorum: bool,
}

impl Config {
    /// The record is consistent: the id is a real one, and
    /// `0 < heartbeat_tick < election_tick <= min_election_tick < max_election_tick`.
    pub open spec fn valid(&self) -> bool {
        &&& self.id != INVALID_ID
        &&& 0 < self.heartbeat_tick
        &&& self.heartbeat_tick < self.election_tick
        &&& self.election_tick <= self.min_election_tick
        &&& self.min_election_tick < self.max_election_tick
    }

    /// The first rule that the record breaks, if it breaks one.
    pub open spec fn defect(&self) -> Option<ConfigError> {
        if self.id == INVALID_ID {
            Some(ConfigError::InvalidId)
        } else if self.heartbeat_tick == 0 {
            Some(ConfigError::ZeroHeartbeatTick)
        } else if self.election_tick <= self.heartbeat_tick {
            Some(ConfigError::ElectionTickTooSmall)
        } else if self.min_election_tick < self.election_tick {
            Some(
                ConfigError::MinElectionTickTooSmall {
                    min_election_tick: self.min_election_tick,
                    election_tick: self.election_tick,
                },
            )
        } else if self.min_election_tick >= self.max_election_tick {
            Some(
                ConfigError::MaxElectionTickTooSmall {
                    min_election_tick: self.min_election_tick,
                    max_election_tick: self.max_election_tick,
                },
            )
        } else {
            None
        }
    }

    /// Runs validations against the config.
    pub fn validate(&self) -> (res: Result<(), Error>)
        ensures
            res is Ok <==> self.valid(),
            match res {
                Ok(()) => self.defect() is None,
                Err(Error::ConfigInvalid(reason)) => self.defect() == Some(reason),
                Err(Error::NoEntropy) => false,
            },
    {
        if self.id == INVALID_ID {
            return Err(Error::ConfigInvalid(ConfigError::InvalidId));
        }
        if self.heartbeat_tick == 0 {
            return Err(Error::ConfigInvalid(ConfigError::ZeroHeartbeatTick));
        }
        if self.election_tick <= self.heartbeat_tick {
            return Err(Error::ConfigInvalid(ConfigError::ElectionTickTooSmall));
        }
        let min_timeout = self.min_election_tick;
        let max_timeout = self.max_election_tick;
        if min_timeout < self.election_tick {
            return Err(
                Error::ConfigInvalid(
                    ConfigError::MinElectionTickTooSmall {
                        min_election_tick: min_timeout,
                        election_tick: self.election_tick,
                    },
                ),
            );
        }
        if min_timeout >= max_timeout {
            return Err(
                Error::ConfigInvalid(
                    ConfigError::MaxElectionTickTooSmall {
                        min_election_tick: min_timeout,
                        max_election_tick: max_timeout,
                    },
                ),
            );
        }
        Ok(())
    }
}

} // verus!
